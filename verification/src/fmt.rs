//! Showing lists, and showing values that need a machine to be shown.

use vstd::prelude::*;
use vstd::string::StringExecFns;
use crate::mach::{Machine, MachineMode, Opcode, Register};

verus! {

/// The texts `items`, with `sep` between every two neighbours.
pub open spec fn joined_text(items: Seq<Seq<char>>, sep: Seq<char>) -> Seq<char>
    decreases items.len(),
{
    if items.len() == 0 {
        Seq::<char>::empty()
    } else if items.len() == 1 {
        items[0]
    } else {
        joined_text(items.drop_last(), sep) + sep + items.last()
    }
}

/// The texts of the strings `items`.
pub open spec fn texts(items: Seq<String>) -> Seq<Seq<char>> {
    items.map_values(|s: String| s@)
}

fn join(items: &Vec<String>, sep: &str) -> (s: String)
    ensures
        s@ == joined_text(texts(items@), sep@),
{
    let mut out = String::new();
    let mut i: usize = 0;
    while i < items.len()
        invariant
            i <= items.len(),
            out@ == joined_text(texts(items@).subrange(0, i as int), sep@),
        decreases items.len() - i,
    {
        let ghost before = texts(items@).subrange(0, i as int);
        let ghost after = texts(items@).subrange(0, i + 1);
        assert(after.drop_last() =~= before);
        assert(after.last() == items@[i as int]@);
        if i > 0 {
            out.append(sep);
        }
        out.append(items[i].as_str());
        assert(out@ =~= joined_text(after, sep@));
        i = i + 1;
    }
    assert(texts(items@).subrange(0, i as int) =~= texts(items@));
    out
}

/// A list that is shown with a separator between its items.
#[derive(Debug)]
pub struct FormatList {
    items: Vec<String>,
    sep: &'static str,
}

impl FormatList {
    /// The items, as they are shown.
    pub closed spec fn items_spec(&self) -> Seq<Seq<char>> {
        texts(self.items@)
    }

    /// The separator.
    pub closed spec fn sep_spec(&self) -> Seq<char> {
        self.sep@
    }

    /// The list as text: the items in order, with the separator between
    /// every two of them.
    pub fn render(&self) -> (s: String)
        ensures
            s@ == joined_text(self.items_spec(), self.sep_spec()),
    {
        join(&self.items, self.sep)
    }
}

/// Makes a list that is shown with `sep` between its items.
pub fn format_list(list: Vec<String>, sep: &'static str) -> (l: FormatList)
    ensures
        l.items_spec() == texts(list@),
        l.sep_spec() == sep@,
{
    FormatList { items: list, sep }
}

/// A value that needs a machine to be shown: the machine knows the names of
/// what the value refers to.
pub trait PrettyPrint<M: Machine + ?Sized> {
    /// The text that the value is shown as.
    spec fn fmt_spec(&self, mach: &M) -> Seq<char>;

    /// Shows the value.
    fn fmt(&self, mach: &M) -> (s: String)
        ensures
            s@ == self.fmt_spec(mach),
    ;
}

impl<M: Machine + ?Sized> PrettyPrint<M> for Opcode {
    open spec fn fmt_spec(&self, mach: &M) -> Seq<char> {
        mach.opcode_name_spec(*self)
    }

    fn fmt(&self, mach: &M) -> (s: String) {
        mach.opcode_name(*self)
    }
}

impl<M: Machine + ?Sized> PrettyPrint<M> for Register {
    open spec fn fmt_spec(&self, mach: &M) -> Seq<char> {
        mach.register_name_spec(*self)
    }

    fn fmt(&self, mach: &M) -> (s: String) {
        mach.register_name(*self)
    }
}

impl<M: Machine + ?Sized> PrettyPrint<M> for MachineMode {
    open spec fn fmt_spec(&self, mach: &M) -> Seq<char> {
        mach.mode_name_spec(*self)
    }

    fn fmt(&self, mach: &M) -> (s: String) {
        mach.mode_name(*self)
    }
}

/// A value together with the machine that it is shown with.
pub struct PrettyPrinter<'a, T, M: ?Sized>(pub &'a T, pub &'a M);

impl<'a, T: PrettyPrint<M>, M: Machine + ?Sized> PrettyPrinter<'a, T, M> {
    /// The value as text.
    pub fn render(&self) -> (s: String)
        ensures
            s@ == self.0.fmt_spec(self.1),
    {
        self.0.fmt(self.1)
    }
}

/// A list of values that need a machine to be shown, with a separator
/// between its items.
pub struct PrettyPrintList<'a, T, M: ?Sized> {
    items: Vec<T>,
    sep: &'static str,
    mach: &'a M,
}

/// The texts that the values `items` are shown as with the machine `mach`.
pub open spec fn pretty_texts<T: PrettyPrint<M>, M: Machine + ?Sized>(items: Seq<T>, mach: &M) -> Seq<
    Seq<char>,
>
    decreases items.len(),
{
    if items.len() == 0 {
        Seq::<Seq<char>>::empty()
    } else {
        pretty_texts(items.drop_last(), mach).push(items.last().fmt_spec(mach))
    }
}

impl<'a, T: PrettyPrint<M>, M: Machine + ?Sized> PrettyPrintList<'a, T, M> {
    /// The values of the list.
    pub closed spec fn items_spec(&self) -> Seq<T> {
        self.items@
    }

    /// The separator.
    pub closed spec fn sep_spec(&self) -> Seq<char> {
        self.sep@
    }

    /// The machine that the values are shown with.
    pub closed spec fn mach_spec(&self) -> &'a M {
        self.mach
    }

    /// The list as text: the values in order, each as the machine shows it,
    /// with the separator between every two of them.
    pub fn render(&self) -> (s: String)
        ensures
            s@ == joined_text(pretty_texts(self.items_spec(), self.mach_spec()), self.sep_spec()),
    {
        let mut shown: Vec<String> = Vec::new();
        let mut i: usize = 0;
        assert(texts(shown@) =~= pretty_texts(self.items@.subrange(0, 0), self.mach));
        while i < self.items.len()
            invariant
                i <= self.items.len(),
                texts(shown@) == pretty_texts(self.items@.subrange(0, i as int), self.mach),
            decreases self.items.len() - i,
        {
            let ghost before = texts(shown@);
            let text = self.items[i].fmt(self.mach);
            shown.push(text);
            assert(self.items@.subrange(0, i + 1).drop_last() =~= self.items@.subrange(0, i as int));
            assert(texts(shown@) =~= before.push(text@));
            i = i + 1;
        }
        assert(self.items@.subrange(0, i as int) =~= self.items@);
        join(&shown, self.sep)
    }
}

/// Makes a list of values that is shown with `sep` between its items, each
/// as the machine `mach` shows it.
pub fn pretty_print_list<'a, T: PrettyPrint<M>, M: Machine + ?Sized>(
    list: Vec<T>,
    sep: &'static str,
    mach: &'a M,
) -> (l: PrettyPrintList<'a, T, M>)
    ensures
        l.items_spec() == list@,
        l.sep_spec() == sep@,
        l.mach_spec() == mach,
{
    PrettyPrintList { items: list, sep, mach }
}

} // verus!
