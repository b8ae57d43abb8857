//! Errors of the wallet index: a kind, and what was known where it was detected.

use vstd::prelude::*;
use vstd::string::*;

verus! {

/// What went wrong.
#[derive(Clone, Copy, Debug, PartialEq, Eq, Structural, Hash)]
pub enum ErrorKind {
    NotImplemented,
    Internal,
    Unauthorized,
    NotFound,
    BadRequest,
    Unsupported,
    Duplicate,
    InsufficientBalance,
    SerializeError,
    DeserializeError,
}

/// The name of a kind, as it is written in messages.
pub open spec fn kind_text(kind: ErrorKind) -> Seq<char> {
    match kind {
        ErrorKind::NotImplemented => "NotImplemented"@,
        ErrorKind::Internal => "Internal"@,
        ErrorKind::Unauthorized => "Unauthorized"@,
        ErrorKind::NotFound => "NotFound"@,
        ErrorKind::BadRequest => "BadRequest"@,
        ErrorKind::Unsupported => "Unsupported"@,
        ErrorKind::Duplicate => "Duplicate"@,
        ErrorKind::InsufficientBalance => "InsufficientBalance"@,
        ErrorKind::SerializeError => "SerializeError"@,
        ErrorKind::DeserializeError => "DeserializeError"@,
    }
}

impl ErrorKind {
    /// The name of the kind.
    pub fn as_str(&self) -> (r: &'static str)
        ensures
            r@ == kind_text(*self),
    {
        match self {
            ErrorKind::NotImplemented => "NotImplemented",
            ErrorKind::Internal => "Internal",
            ErrorKind::Unauthorized => "Unauthorized",
            ErrorKind::NotFound => "NotFound",
            ErrorKind::BadRequest => "BadRequest",
            ErrorKind::Unsupported => "Unsupported",
            ErrorKind::Duplicate => "Duplicate",
            ErrorKind::InsufficientBalance => "InsufficientBalance",
            ErrorKind::SerializeError => "SerializeError",
            ErrorKind::DeserializeError => "DeserializeError",
        }
    }

    /// The name of the kind, as an owned string.
    pub fn to_string(&self) -> (r: String)
        ensures
            r@ == kind_text(*self),
    {
        String::from_str(self.as_str())
    }
}

/// An error: its kind, when it was detected, and optional details.
#[derive(Debug)]
pub struct Error {
    tag: Option<String>,
    message: Option<String>,
    method_name: Option<String>,
    error_type: ErrorKind,
    info: Option<Vec<String>>,
    timestamp: u64,
}

/// The content of an [`Error`].
pub struct ErrorView {
    pub tag: Option<Seq<char>>,
    pub message: Option<Seq<char>>,
    pub method_name: Option<Seq<char>>,
    pub error_type: ErrorKind,
    pub info: Option<Seq<Seq<char>>>,
    pub timestamp: u64,
}

impl ErrorView {
    /// An error of the given kind without details.
    pub open spec fn bare(error_type: ErrorKind, timestamp: u64) -> ErrorView {
        ErrorView {
            tag: None,
            message: None,
            method_name: None,
            error_type,
            info: None,
            timestamp,
        }
    }

    /// The same error with its tag replaced.
    pub open spec fn tagged(self, tag: Seq<char>) -> ErrorView {
        ErrorView { tag: Some(tag), ..self }
    }

    /// The same error with its message replaced.
    pub open spec fn with_message(self, message: Seq<char>) -> ErrorView {
        ErrorView { message: Some(message), ..self }
    }

    /// The same error with its method name replaced.
    pub open spec fn with_method_name(self, method_name: Seq<char>) -> ErrorView {
        ErrorView { method_name: Some(method_name), ..self }
    }

    /// The same error with one more line of context after those it had.
    pub open spec fn with_info(self, info: Seq<char>) -> ErrorView {
        ErrorView {
            info: Some(
                match self.info {
                    Some(lines) => lines.push(info),
                    None => seq![info],
                },
            ),
            ..self
        }
    }
}

impl View for Error {
    type V = ErrorView;

    closed spec fn view(&self) -> ErrorView {
        ErrorView {
            tag: self.tag.deep_view(),
            message: self.message.deep_view(),
            method_name: self.method_name.deep_view(),
            error_type: self.error_type,
            info: self.info.deep_view(),
            timestamp: self.timestamp,
        }
    }
}

/// A text as `{:?}` prints it: in double quotes, with what cannot be
/// printed as it is escaped.
pub uninterp spec fn debug_text(text: Seq<char>) -> Seq<char>;

/// The `Debug` form of `str`.
#[verifier::external_body]
fn debug_string(text: &str) -> (r: String)
    ensures
        r@ == debug_text(text@),
{
    format!("{:?}", text)
}

/// An optional text as `{:?}` prints it.
pub open spec fn debug_opt_text(text: Option<Seq<char>>) -> Seq<char> {
    match text {
        Some(t) => "Some("@ + debug_text(t) + ")"@,
        None => "None"@,
    }
}

/// The items of a list as `{:?}` prints them: separated by a comma and a space.
pub open spec fn debug_items(lines: Seq<Seq<char>>) -> Seq<char>
    decreases lines.len(),
{
    if lines.len() == 0 {
        Seq::empty()
    } else if lines.len() == 1 {
        debug_text(lines[0])
    } else {
        debug_items(lines.drop_last()) + ", "@ + debug_text(lines.last())
    }
}

/// An optional list of texts as `{:?}` prints it.
pub open spec fn debug_opt_lines(lines: Option<Seq<Seq<char>>>) -> Seq<char> {
    match lines {
        Some(l) => "Some(["@ + debug_items(l) + "])"@,
        None => "None"@,
    }
}

/// An error as it is reported in one line.
pub open spec fn error_text(e: ErrorView) -> Seq<char> {
    "Error: tag: "@ + debug_opt_text(e.tag) + ", message: "@ + debug_opt_text(e.message)
        + ", method_name: "@ + debug_opt_text(e.method_name) + ", error_type: "@ + kind_text(
        e.error_type,
    ) + ", info: "@ + debug_opt_lines(e.info)
}

fn push_debug_opt_text(out: &mut String, text: &Option<String>)
    ensures
        final(out)@ == old(out)@ + debug_opt_text(text.deep_view()),
{
    match text {
        Some(t) => {
            out.append("Some(");
            let quoted = debug_string(t.as_str());
            out.append(quoted.as_str());
            out.append(")");
            assert(out@ =~= old(out)@ + debug_opt_text(text.deep_view()));
        },
        None => {
            out.append("None");
        },
    }
}

fn push_debug_opt_lines(out: &mut String, lines: &Option<Vec<String>>)
    ensures
        final(out)@ == old(out)@ + debug_opt_lines(lines.deep_view()),
{
    match lines {
        Some(l) => {
            out.append("Some([");
            let ghost start = out@;
            let ghost all = l.deep_view();
            let mut i: usize = 0;
            assert(all.subrange(0, 0) =~= Seq::<Seq<char>>::empty());
            assert(out@ =~= start + debug_items(all.subrange(0, 0)));
            while i < l.len()
                invariant
                    i <= l@.len(),
                    all == l.deep_view(),
                    out@ == start + debug_items(all.subrange(0, i as int)),
                decreases l@.len() - i,
            {
                let ghost before = all.subrange(0, i as int);
                let ghost next = all.subrange(0, i + 1);
                if i > 0 {
                    out.append(", ");
                }
                let quoted = debug_string(l[i].as_str());
                out.append(quoted.as_str());
                proof {
                    assert(next.drop_last() =~= before);
                    assert(next.last() == l@[i as int]@);
                    if i == 0 {
                        assert(next[0] == l@[0]@);
                        assert(before.len() == 0);
                        assert(out@ =~= start + debug_items(next));
                    } else {
                        assert(out@ =~= start + debug_items(next));
                    }
                }
                i += 1;
            }
            assert(all.subrange(0, i as int) =~= all);
            out.append("])");
            assert(out@ =~= old(out)@ + debug_opt_lines(lines.deep_view()));
        },
        None => {
            out.append("None");
        },
    }
}

fn clone_text(text: &Option<String>) -> (r: Option<String>)
    ensures
        r.deep_view() == text.deep_view(),
{
    match text {
        Some(s) => Some(s.clone()),
        None => None,
    }
}

fn clone_lines(lines: &Vec<String>) -> (r: Vec<String>)
    ensures
        r.deep_view() == lines.deep_view(),
{
    let mut copy: Vec<String> = Vec::new();
    let mut i: usize = 0;
    while i < lines.len()
        invariant
            i <= lines@.len(),
            copy@.len() == i,
            forall|j: int| 0 <= j < i ==> copy@[j]@ == lines@[j]@,
        decreases lines@.len() - i,
    {
        copy.push(lines[i].clone());
        i += 1;
    }
    assert(copy.deep_view() =~= lines.deep_view());
    copy
}

impl Error {
    /// An error of the given kind, detected at `timestamp`, without details.
    pub fn new(error_type: ErrorKind, timestamp: u64) -> (r: Error)
        ensures
            r@ == ErrorView::bare(error_type, timestamp),
    {
        Error { tag: None, message: None, method_name: None, error_type, info: None, timestamp }
    }

    pub fn insufficient_balance(timestamp: u64) -> (r: Error)
        ensures
            r@ == ErrorView::bare(ErrorKind::InsufficientBalance, timestamp),
    {
        Error::new(ErrorKind::InsufficientBalance, timestamp)
    }

    pub fn serialize(timestamp: u64) -> (r: Error)
        ensures
            r@ == ErrorView::bare(ErrorKind::SerializeError, timestamp),
    {
        Error::new(ErrorKind::SerializeError, timestamp)
    }

    pub fn deserialize(timestamp: u64) -> (r: Error)
        ensures
            r@ == ErrorView::bare(ErrorKind::DeserializeError, timestamp),
    {
        Error::new(ErrorKind::DeserializeError, timestamp)
    }

    pub fn internal(timestamp: u64) -> (r: Error)
        ensures
            r@ == ErrorView::bare(ErrorKind::Internal, timestamp),
    {
        Error::new(ErrorKind::Internal, timestamp)
    }

    pub fn not_implemented(timestamp: u64) -> (r: Error)
        ensures
            r@ == ErrorView::bare(ErrorKind::NotImplemented, timestamp),
    {
        Error::new(ErrorKind::NotImplemented, timestamp)
    }

    pub fn unauthorized(timestamp: u64) -> (r: Error)
        ensures
            r@ == ErrorView::bare(ErrorKind::Unauthorized, timestamp),
    {
        Error::new(ErrorKind::Unauthorized, timestamp)
    }

    pub fn not_found(timestamp: u64) -> (r: Error)
        ensures
            r@ == ErrorView::bare(ErrorKind::NotFound, timestamp),
    {
        Error::new(ErrorKind::NotFound, timestamp)
    }

    pub fn bad_request(timestamp: u64) -> (r: Error)
        ensures
            r@ == ErrorView::bare(ErrorKind::BadRequest, timestamp),
    {
        Error::new(ErrorKind::BadRequest, timestamp)
    }

    pub fn unsupported(timestamp: u64) -> (r: Error)
        ensures
            r@ == ErrorView::bare(ErrorKind::Unsupported, timestamp),
    {
        Error::new(ErrorKind::Unsupported, timestamp)
    }

    pub fn duplicate(timestamp: u64) -> (r: Error)
        ensures
            r@ == ErrorView::bare(ErrorKind::Duplicate, timestamp),
    {
        Error::new(ErrorKind::Duplicate, timestamp)
    }

    /// Replaces the tag.
    pub fn add_tag(self, tag: &str) -> (r: Error)
        ensures
            r@ == self@.tagged(tag@),
    {
        let mut e = self;
        e.tag = Some(String::from_str(tag));
        e
    }

    /// Replaces the message.
    pub fn add_message(self, message: &str) -> (r: Error)
        ensures
            r@ == self@.with_message(message@),
    {
        let mut e = self;
        e.message = Some(String::from_str(message));
        e
    }

    /// Adds a line of context after those already there.
    pub fn add_info(self, info: &str) -> (r: Error)
        ensures
            r@ == self@.with_info(info@),
    {
        let Error { tag, message, method_name, error_type, info: lines, timestamp } = self;
        let ghost before = lines.deep_view();
        let mut lines = match lines {
            Some(lines) => lines,
            None => Vec::new(),
        };
        let ghost had = lines.deep_view();
        lines.push(String::from_str(info));
        assert(lines.deep_view() =~= had.push(info@));
        proof {
            if before is None {
                assert(had =~= Seq::<Seq<char>>::empty());
                assert(lines.deep_view() =~= seq![info@]);
            }
        }
        Error { tag, message, method_name, error_type, info: Some(lines), timestamp }
    }

    /// Replaces the name of the operation that detected the error.
    pub fn add_method_name(self, method_name: &str) -> (r: Error)
        ensures
            r@ == self@.with_method_name(method_name@),
    {
        let mut e = self;
        e.method_name = Some(String::from_str(method_name));
        e
    }

    /// The error in one line, as it is reported to a caller.
    pub fn to_string(&self) -> (r: String)
        ensures
            r@ == error_text(self@),
    {
        let mut out = String::from_str("Error: tag: ");
        push_debug_opt_text(&mut out, &self.tag);
        out.append(", message: ");
        push_debug_opt_text(&mut out, &self.message);
        out.append(", method_name: ");
        push_debug_opt_text(&mut out, &self.method_name);
        out.append(", error_type: ");
        out.append(self.error_type.as_str());
        out.append(", info: ");
        push_debug_opt_lines(&mut out, &self.info);
        out
    }

    /// The kind of the error.
    pub fn error_type(&self) -> (r: ErrorKind)
        ensures
            r == self@.error_type,
    {
        self.error_type
    }

    /// When the error was detected.
    pub fn timestamp(&self) -> (r: u64)
        ensures
            r == self@.timestamp,
    {
        self.timestamp
    }

    /// The tag, if one was given.
    pub fn tag(&self) -> (r: Option<String>)
        ensures
            r.deep_view() == self@.tag,
    {
        clone_text(&self.tag)
    }

    /// The message, if one was given.
    pub fn message(&self) -> (r: Option<String>)
        ensures
            r.deep_view() == self@.message,
    {
        clone_text(&self.message)
    }

    /// The name of the operation that detected the error, if one was given.
    pub fn method_name(&self) -> (r: Option<String>)
        ensures
            r.deep_view() == self@.method_name,
    {
        clone_text(&self.method_name)
    }

    /// The lines of context, in the order in which they were added.
    pub fn info(&self) -> (r: Option<Vec<String>>)
        ensures
            r.deep_view() == self@.info,
    {
        match &self.info {
            Some(lines) => Some(clone_lines(lines)),
            None => None,
        }
    }
}

impl Clone for Error {
    fn clone(&self) -> (r: Error)
        ensures
            r@ == self@,
    {
        Error {
            tag: clone_text(&self.tag),
            message: clone_text(&self.message),
            method_name: clone_text(&self.method_name),
            error_type: self.error_type,
            info: match &self.info {
                Some(lines) => Some(clone_lines(lines)),
                None => None,
            },
            timestamp: self.timestamp,
        }
    }
}

} // verus!
