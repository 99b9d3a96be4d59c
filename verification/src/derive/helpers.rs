//! What deriving is built from: joining path segments, finding identifiers,
//! and the bytes that stand for tokens when a tag is minted.

use vstd::prelude::*;
use vstd::std_specs::vec::axiom_vec_index_decreases;
use crate::derive::{Delimiter, Spacing, TokenTree};
use crate::tag::{put_str, put_word, str_bytes, word_bytes};
use crate::text::push_decimal;
use vstd::string::StringExecFns;

verus! {

/// The word that stands for a delimiter.
pub open spec fn delimiter_word(d: Delimiter) -> u64 {
    match d {
        Delimiter::Parenthesis => 0,
        Delimiter::Brace => 1,
        Delimiter::Bracket => 2,
        Delimiter::Invisible => 3,
    }
}

/// The word that stands for a spacing.
pub open spec fn spacing_word(s: Spacing) -> u64 {
    match s {
        Spacing::Joint => 0,
        Spacing::Alone => 1,
    }
}

/// The word that closes the encoding of a token stream.
pub const STREAM_END: u64 = 0xDEADBEEF;

/// The word that says that a group follows.
pub const GROUP: u64 = 0;

/// The word that says that an identifier follows.
pub const IDENT: u64 = 1;

/// The word that says that a punctuation character follows.
pub const PUNCT: u64 = 2;

/// The word that says that a literal follows.
pub const LITERAL: u64 = 3;

/// The bytes that stand for one token: a word that says what kind of token
/// it is, and then for a group its delimiter and its stream, for an
/// identifier or a literal its text, for a punctuation character the
/// character and its spacing.
pub open spec fn token_bytes(tt: TokenTree) -> Seq<u8>
    decreases tt, 0nat,
{
    match tt {
        TokenTree::Group(d, inner) => word_bytes(GROUP) + word_bytes(delimiter_word(d))
            + tokens_bytes(inner, inner.len() as nat) + word_bytes(STREAM_END),
        TokenTree::Ident(s) => word_bytes(IDENT) + str_bytes(s@),
        TokenTree::Punct(c, sp) => word_bytes(PUNCT) + word_bytes(c as u64) + word_bytes(
            spacing_word(sp),
        ),
        TokenTree::Literal(s) => word_bytes(LITERAL) + str_bytes(s@),
    }
}

/// The bytes that stand for the first `n` tokens of `ts`, one after the
/// other.
pub open spec fn tokens_bytes(ts: Vec<TokenTree>, n: nat) -> Seq<u8>
    decreases ts, n,
{
    if n == 0 || n > ts.len() {
        Seq::<u8>::empty()
    } else {
        proof {
            broadcast use axiom_vec_index_decreases;
        }
        tokens_bytes(ts, (n - 1) as nat) + token_bytes(ts[n - 1])
    }
}

/// The bytes that stand for a token stream: its tokens, then the closing
/// word.
pub open spec fn stream_bytes(ts: Vec<TokenTree>) -> Seq<u8> {
    tokens_bytes(ts, ts.len() as nat) + word_bytes(STREAM_END)
}

fn delimiter_to_word(d: Delimiter) -> (w: u64)
    ensures
        w == delimiter_word(d),
{
    match d {
        Delimiter::Parenthesis => 0,
        Delimiter::Brace => 1,
        Delimiter::Bracket => 2,
        Delimiter::Invisible => 3,
    }
}

fn spacing_to_word(s: Spacing) -> (w: u64)
    ensures
        w == spacing_word(s),
{
    match s {
        Spacing::Joint => 0,
        Spacing::Alone => 1,
    }
}

/// Appends to `out` the bytes that stand for one token.
pub fn hash_token_tree(tt: &TokenTree, out: &mut Vec<u8>)
    ensures
        final(out)@ == old(out)@ + token_bytes(*tt),
    decreases tt, 0nat,
{
    match tt {
        TokenTree::Group(d, inner) => {
            put_word(out, GROUP);
            put_word(out, delimiter_to_word(*d));
            hash_token_stream(inner, out);
            assert(out@ =~= old(out)@ + token_bytes(*tt));
        },
        TokenTree::Ident(s) => {
            put_word(out, IDENT);
            put_str(out, s.as_str());
            assert(out@ =~= old(out)@ + token_bytes(*tt));
        },
        TokenTree::Punct(c, sp) => {
            put_word(out, PUNCT);
            put_word(out, *c as u64);
            put_word(out, spacing_to_word(*sp));
            assert(out@ =~= old(out)@ + token_bytes(*tt));
        },
        TokenTree::Literal(s) => {
            put_word(out, LITERAL);
            put_str(out, s.as_str());
            assert(out@ =~= old(out)@ + token_bytes(*tt));
        },
    }
}

/// Appends to `out` the bytes that stand for a token stream.
pub fn hash_token_stream(ts: &Vec<TokenTree>, out: &mut Vec<u8>)
    ensures
        final(out)@ == old(out)@ + stream_bytes(*ts),
    decreases ts, 1nat,
{
    let mut i: usize = 0;
    while i < ts.len()
        invariant
            i <= ts.len(),
            out@ == old(out)@ + tokens_bytes(*ts, i as nat),
        decreases ts.len() - i,
    {
        proof {
            broadcast use axiom_vec_index_decreases;
        }
        hash_token_tree(&ts[i], out);
        assert(out@ =~= old(out)@ + tokens_bytes(*ts, (i + 1) as nat));
        i = i + 1;
    }
    put_word(out, STREAM_END);
    assert(out@ =~= old(out)@ + stream_bytes(*ts));
}

/// `items`, with a copy of `sep` between every two neighbours.
pub open spec fn joined<T>(items: Seq<T>, sep: Seq<T>) -> Seq<T>
    decreases items.len(),
{
    if items.len() == 0 {
        Seq::<T>::empty()
    } else if items.len() == 1 {
        seq![items[0]]
    } else {
        seq![items[0]] + sep + joined(items.skip(1), sep)
    }
}

/// Hands out a sequence of items one by one, with the items of a separator
/// between every two of them.
#[derive(Debug)]
pub struct Path<T: Copy> {
    inner: Vec<T>,
    next_item: usize,
    sep: Vec<T>,
    in_sep: bool,
    sep_at: usize,
}

impl<T: Copy> Path<T> {
    #[verifier::type_invariant]
    spec fn inv(self) -> bool {
        &&& self.next_item <= self.inner.len()
        &&& self.sep_at <= self.sep.len()
        &&& self.in_sep ==> self.next_item < self.inner.len()
    }

    /// What is still to be handed out, in order.
    pub closed spec fn remaining(self) -> Seq<T> {
        if self.in_sep {
            self.sep@.skip(self.sep_at as int) + joined(
                self.inner@.skip(self.next_item as int),
                self.sep@,
            )
        } else {
            joined(self.inner@.skip(self.next_item as int), self.sep@)
        }
    }

    /// A path that hands out `iter` joined by `sep`.
    pub fn new(iter: Vec<T>, sep: Vec<T>) -> (p: Self)
        ensures
            p.remaining() == joined(iter@, sep@),
    {
        assert(iter@.skip(0) =~= iter@);
        Path { inner: iter, next_item: 0, sep, in_sep: false, sep_at: 0 }
    }

    /// Hands out the next item, if one is left.
    pub fn next(&mut self) -> (item: Option<T>)
        ensures
            old(self).remaining().len() == 0 ==> item is None && final(self).remaining()
                == old(self).remaining(),
            old(self).remaining().len() > 0 ==> item == Some(old(self).remaining()[0])
                && final(self).remaining() == old(self).remaining().skip(1),
    {
        proof {
            use_type_invariant(&*self);
        }
        let ghost rest = self.inner@.skip(self.next_item as int);
        if self.in_sep && self.sep_at < self.sep.len() {
            let x = self.sep[self.sep_at];
            self.sep_at = self.sep_at + 1;
            assert(self.remaining() =~= old(self).remaining().skip(1));
            return Some(x);
        }
        if self.next_item >= self.inner.len() {
            assert(rest.len() == 0);
            return None;
        }
        assert(old(self).remaining() =~= joined(rest, self.sep@));
        let x = self.inner[self.next_item];
        self.in_sep = self.next_item + 1 < self.inner.len();
        self.next_item = self.next_item + 1;
        self.sep_at = 0;
        assert(rest.skip(1) =~= self.inner@.skip(self.next_item as int));
        assert(self.sep@.skip(0) =~= self.sep@);
        assert(rest[0] == x);
        assert(self.remaining() =~= old(self).remaining().skip(1)) by {
            if rest.len() == 1 {
                assert(joined(rest.skip(1), self.sep@) =~= Seq::<T>::empty());
            }
        }
        Some(x)
    }
}

/// A punctuation character with its spacing.
#[derive(Copy, Clone, Debug, PartialEq, Eq, Structural)]
pub struct Punct {
    pub ch: char,
    pub spacing: Spacing,
}

/// The characters of `s` as punctuation tokens that are each joined to the
/// next.
pub open spec fn joint_puncts(s: Seq<char>) -> Seq<Punct>
    decreases s.len(),
{
    if s.len() == 0 {
        Seq::<Punct>::empty()
    } else {
        joint_puncts(s.drop_last()).push(Punct { ch: s.last(), spacing: Spacing::Joint })
    }
}

/// The punctuation tokens that spell `s`: every character is joined to the
/// next, and the last one stands alone.
pub open spec fn punct_spec(s: Seq<char>) -> Seq<Punct> {
    if s.len() == 0 {
        Seq::<Punct>::empty()
    } else {
        joint_puncts(s.drop_last()).push(Punct { ch: s.last(), spacing: Spacing::Alone })
    }
}

/// Spells a piece of punctuation, such as `::`, as tokens.
pub fn punct(text: &str) -> (out: Vec<Punct>)
    ensures
        out@ == punct_spec(text@),
{
    let n: usize = text.unicode_len();
    let mut out: Vec<Punct> = Vec::new();
    if n == 0 {
        return out;
    }
    let mut i: usize = 0;
    while i + 1 < n
        invariant
            i + 1 <= n,
            n == text@.len(),
            out@ == joint_puncts(text@.subrange(0, i as int)),
        decreases n - i,
    {
        out.push(Punct { ch: text.get_char(i), spacing: Spacing::Joint });
        assert(text@.subrange(0, i + 1).drop_last() =~= text@.subrange(0, i as int));
        i = i + 1;
    }
    out.push(Punct { ch: text.get_char(i), spacing: Spacing::Alone });
    assert(text@.drop_last() =~= text@.subrange(0, i as int));
    out
}

/// A token of a path: the name of a segment, or part of a separator.
#[derive(Copy, Clone, Debug, PartialEq, Eq)]
pub enum PathToken<'a> {
    Ident(&'a str),
    Punct(Punct),
}

/// The tokens of the path with the segments `p`: the segments as
/// identifiers, with `::` between every two of them.
pub open spec fn path_spec<'a>(p: Seq<&'a str>) -> Seq<PathToken<'a>> {
    joined(
        p.map_values(|s: &'a str| PathToken::Ident(s)),
        punct_spec("::"@).map_values(|c: Punct| PathToken::Punct(c)),
    )
}

/// Spells the path with the segments `p` as tokens.
pub fn path<'a>(p: &Vec<&'a str>) -> (out: Vec<PathToken<'a>>)
    ensures
        out@ == path_spec(p@),
{
    let mut idents: Vec<PathToken<'a>> = Vec::new();
    let mut i: usize = 0;
    while i < p.len()
        invariant
            i <= p.len(),
            idents@ == p@.map_values(|s: &'a str| PathToken::Ident(s)).subrange(0, i as int),
        decreases p.len() - i,
    {
        idents.push(PathToken::Ident(p[i]));
        assert(idents@ =~= p@.map_values(|s: &'a str| PathToken::Ident(s)).subrange(0, i + 1));
        i = i + 1;
    }
    assert(idents@ =~= p@.map_values(|s: &'a str| PathToken::Ident(s)));
    let colons = punct("::");
    let mut sep: Vec<PathToken<'a>> = Vec::new();
    let mut j: usize = 0;
    while j < colons.len()
        invariant
            j <= colons.len(),
            sep@ == colons@.map_values(|c: Punct| PathToken::Punct(c)).subrange(0, j as int),
        decreases colons.len() - j,
    {
        sep.push(PathToken::Punct(colons[j]));
        assert(sep@ =~= colons@.map_values(|c: Punct| PathToken::Punct(c)).subrange(0, j + 1));
        j = j + 1;
    }
    assert(sep@ =~= colons@.map_values(|c: Punct| PathToken::Punct(c)));
    let mut walk = Path::new(idents, sep);
    let mut out: Vec<PathToken<'a>> = Vec::new();
    let ghost all = walk.remaining();
    loop
        invariant
            out@ + walk.remaining() == all,
        ensures
            out@ == all,
        decreases walk.remaining().len(),
    {
        match walk.next() {
            Some(t) => {
                out.push(t);
            },
            None => {
                break ;
            },
        }
    }
    out
}

/// The position of the first identifier among the tokens from `start` on.
pub open spec fn next_ident_spec(ts: Seq<TokenTree>, start: nat) -> Option<nat>
    decreases ts.len() - start,
{
    if start >= ts.len() {
        None
    } else if ts[start as int] is Ident {
        Some(start)
    } else {
        next_ident_spec(ts, start + 1)
    }
}

/// Finds the first identifier among the tokens from `start` on, and returns
/// its position.
pub fn next_ident(ts: &Vec<TokenTree>, start: usize) -> (found: Option<usize>)
    ensures
        found matches Some(i) ==> next_ident_spec(ts@, start as nat) == Some(i as nat),
        found is None ==> next_ident_spec(ts@, start as nat) is None,
{
    let mut i: usize = start;
    while i < ts.len()
        invariant
            start <= i,
            next_ident_spec(ts@, start as nat) == next_ident_spec(ts@, i as nat),
        decreases ts.len() - i,
    {
        match &ts[i] {
            TokenTree::Ident(_) => {
                return Some(i);
            },
            _ => {},
        }
        i = i + 1;
    }
    None
}

/// The identifier at the position that `next_ident_spec` returns is the first
/// one from `start` on.
pub proof fn lemma_next_ident(ts: Seq<TokenTree>, start: nat)
    ensures
        match next_ident_spec(ts, start) {
            Some(i) => start <= i < ts.len() && ts[i as int] is Ident && forall|j: int|
                start <= j < i ==> !(ts[j] is Ident),
            None => forall|j: int| start <= j < ts.len() ==> !(ts[j] is Ident),
        },
    decreases ts.len() - start,
{
    if start < ts.len() && !(ts[start as int] is Ident) {
        lemma_next_ident(ts, start + 1);
    }
}

/// The token that holds the number `n` as a literal of type `u64`.
pub open spec fn lit_u64_spec(n: u64) -> Seq<char> {
    crate::text::decimal_spec(n as nat) + "u64"@
}

/// Builds the literal token that holds `n` with the suffix `u64`.
pub fn lit_u64(n: u64) -> (tt: TokenTree)
    ensures
        tt matches TokenTree::Literal(s) && s@ == lit_u64_spec(n),
{
    let mut s = String::new();
    push_decimal(&mut s, n);
    s.append("u64");
    assert(s@ =~= lit_u64_spec(n));
    TokenTree::Literal(s)
}

} // verus!
