//! The errors of this library.

use vstd::prelude::*;
use vstd::string::StringExecFns;

verus! {

/// The broad kind of an error.
#[derive(Copy, Clone, Debug, Hash, PartialEq, Eq, Structural)]
#[non_exhaustive]
pub enum ErrorKind {
    /// An error of no other kind.
    Other,
    /// An instruction, a prefix or a register use that the machine does not
    /// have or does not allow.
    BadInstr,
    /// Reading or writing failed.
    Io,
    /// An error that was never given a kind.
    Uncategorized,
}

impl ErrorKind {
    /// Whether the kind says nothing of what went wrong.
    pub fn unrecognized(&self) -> (b: bool)
        ensures
            b == (*self is Other || *self is Uncategorized),
    {
        match self {
            ErrorKind::Other | ErrorKind::Uncategorized => true,
            _ => false,
        }
    }

    /// The words that describe the kind.
    pub open spec fn describe_spec(self) -> Seq<char> {
        match self {
            ErrorKind::Other => "other"@,
            ErrorKind::BadInstr => "invalid instruction"@,
            ErrorKind::Io => "I/O operation error"@,
            ErrorKind::Uncategorized => ""@,
        }
    }

    /// The words that describe the kind; none for an error without a kind.
    pub fn describe(&self) -> (s: &'static str)
        ensures
            s@ == self.describe_spec(),
    {
        match self {
            ErrorKind::Other => "other",
            ErrorKind::BadInstr => "invalid instruction",
            ErrorKind::Io => "I/O operation error",
            ErrorKind::Uncategorized => "",
        }
    }
}

/// An error: its kind, what was wrong in words, and the source file it is
/// about, as far as each is known.
#[derive(Debug)]
pub struct Error {
    kind: ErrorKind,
    payload: Option<String>,
    source_file: Option<String>,
}

/// The text of an optional string.
pub open spec fn text_of(s: Option<String>) -> Option<Seq<char>> {
    match s {
        Some(s) => Some(s@),
        None => None,
    }
}

/// The message of an error with the given parts: the source file in square
/// brackets, the kind, and the payload after a colon. An error without a
/// kind shows its payload alone, or says that it has no kind.
pub open spec fn message_spec(
    kind: ErrorKind,
    payload: Option<Seq<char>>,
    source_file: Option<Seq<char>>,
) -> Seq<char> {
    let head = match source_file {
        Some(file) => "["@ + file + "] "@,
        None => Seq::<char>::empty(),
    };
    let tail = match payload {
        Some(text) => if kind is Uncategorized {
            text
        } else {
            ": "@ + text
        },
        None => if kind is Uncategorized {
            "(uncategorized error)"@
        } else {
            Seq::<char>::empty()
        },
    };
    head + kind.describe_spec() + tail
}

impl Error {
    /// The kind of the error.
    pub closed spec fn kind_spec(self) -> ErrorKind {
        self.kind
    }

    /// What was wrong, in words.
    pub closed spec fn payload_spec(self) -> Option<Seq<char>> {
        text_of(self.payload)
    }

    /// The source file that the error is about.
    pub closed spec fn source_file_spec(self) -> Option<Seq<char>> {
        text_of(self.source_file)
    }

    fn constructor_impl(kind: ErrorKind, payload: Option<String>, source_file: Option<String>) -> (e:
        Self)
        ensures
            e.kind_spec() == kind,
            e.payload_spec() == text_of(payload),
            e.source_file_spec() == text_of(source_file),
    {
        Error { kind, payload, source_file }
    }

    /// An error of the given kind, with nothing more known of it.
    pub fn from_kind(kind: ErrorKind) -> (e: Self)
        ensures
            e.kind_spec() == kind,
            e.payload_spec() is None,
            e.source_file_spec() is None,
    {
        Self::constructor_impl(kind, None, None)
    }

    /// An error of the given kind that says what was wrong.
    pub fn new(kind: ErrorKind, payload: String) -> (e: Self)
        ensures
            e.kind_spec() == kind,
            e.payload_spec() == Some(payload@),
            e.source_file_spec() is None,
    {
        Self::constructor_impl(kind, Some(payload), None)
    }

    /// An error without a kind that says what was wrong.
    pub fn uncategorized(payload: String) -> (e: Self)
        ensures
            e.kind_spec() is Uncategorized,
            e.payload_spec() == Some(payload@),
            e.source_file_spec() is None,
    {
        Self::constructor_impl(ErrorKind::Uncategorized, Some(payload), None)
    }

    /// An error of the given kind about a source file.
    pub fn new_with_source(kind: ErrorKind, payload: String, source: String) -> (e: Self)
        ensures
            e.kind_spec() == kind,
            e.payload_spec() == Some(payload@),
            e.source_file_spec() == Some(source@),
    {
        Self::constructor_impl(kind, Some(payload), Some(source))
    }

    /// An error without a kind about a source file.
    pub fn uncategorized_with_source(payload: String, source: String) -> (e: Self)
        ensures
            e.kind_spec() is Uncategorized,
            e.payload_spec() == Some(payload@),
            e.source_file_spec() == Some(source@),
    {
        Self::constructor_impl(ErrorKind::Uncategorized, Some(payload), Some(source))
    }

    /// The kind of the error.
    pub fn kind(&self) -> (k: ErrorKind)
        ensures
            k == self.kind_spec(),
    {
        self.kind
    }

    /// What was wrong, in words, if that is known.
    pub fn payload(&self) -> (p: Option<&str>)
        ensures
            match p {
                Some(text) => self.payload_spec() == Some(text@),
                None => self.payload_spec() is None,
            },
    {
        match &self.payload {
            Some(text) => Some(text.as_str()),
            None => None,
        }
    }

    /// The source file that the error is about, if it is about one.
    pub fn source_file(&self) -> (f: Option<&str>)
        ensures
            match f {
                Some(file) => self.source_file_spec() == Some(file@),
                None => self.source_file_spec() is None,
            },
    {
        match &self.source_file {
            Some(file) => Some(file.as_str()),
            None => None,
        }
    }

    /// The message that the error is shown as.
    pub fn message(&self) -> (m: String)
        ensures
            m@ == message_spec(self.kind_spec(), self.payload_spec(), self.source_file_spec()),
    {
        let mut m = String::new();
        if let Some(file) = self.source_file() {
            m.append("[");
            m.append(file);
            m.append("] ");
        }
        m.append(self.kind.describe());
        if let Some(text) = self.payload() {
            if !matches!(self.kind, ErrorKind::Uncategorized) {
                m.append(": ");
            }
            m.append(text);
        } else if matches!(self.kind, ErrorKind::Uncategorized) {
            m.append("(uncategorized error)");
        }
        assert(m@ =~= message_spec(
            self.kind_spec(),
            self.payload_spec(),
            self.source_file_spec(),
        ));
        m
    }
}

/// What the functions of this library return.
pub type Result<T> = core::result::Result<T, Error>;

} // verus!
