//! Basic error handling mechanisms.
use vstd::prelude::*;
use vstd::string::to_string_from_display_ensures;

verus! {

/// The classification of a failure.
#[derive(Debug, PartialEq, Eq, Structural)]
pub enum ErrorType {
    /// The internal packet counter has overflown.
    PacketCounterOverflow,
    /// The connection was removed because of a timeout.
    Timeout,
    /// An error that did not originate in this library (such as an OS error).
    Other,
    /// An internal error that should not happen at all.
    Internal,
}

/// The name under which a classification is rendered.
pub open spec fn kind_name(k: ErrorType) -> Seq<char> {
    match k {
        ErrorType::PacketCounterOverflow => "PacketCounterOverflow"@,
        ErrorType::Timeout => "Timeout"@,
        ErrorType::Other => "Other"@,
        ErrorType::Internal => "Internal"@,
    }
}

impl ErrorType {
    /// The name of this classification, as it appears in a rendered error.
    pub fn name(&self) -> (r: &'static str)
        ensures
            r@ == kind_name(*self),
    {
        match self {
            ErrorType::PacketCounterOverflow => "PacketCounterOverflow",
            ErrorType::Timeout => "Timeout",
            ErrorType::Other => "Other",
            ErrorType::Internal => "Internal",
        }
    }
}

/// Relies on std's `std::io::Error`, carried as an opaque value inside a cause.
#[verifier::external_type_specification]
#[verifier::external_body]
pub struct ExIoError(std::io::Error);

/// Relies on term's `term::Error`, carried as an opaque value inside a cause.
#[verifier::external_type_specification]
#[verifier::external_body]
pub struct ExTermError(term::Error);

/// A failure from outside this library that an error can wrap.
pub enum ErrorCause {
    /// A failure of the underlying I/O subsystem.
    Io(std::io::Error),
    /// A failure of the terminal backend.
    Term(term::Error),
}

impl ErrorCause {
    /// Whether `s` is the rendered description of the wrapped failure.
    pub open spec fn is_described_by(&self, s: String) -> bool {
        match self {
            ErrorCause::Io(e) => to_string_from_display_ensures::<std::io::Error>(e, s),
            ErrorCause::Term(e) => to_string_from_display_ensures::<term::Error>(e, s),
        }
    }

    /// The wrapped failure's own description.
    pub fn description(&self) -> (r: String)
        ensures
            self.is_described_by(r),
    {
        match self {
            ErrorCause::Io(e) => e.to_string(),
            ErrorCause::Term(e) => e.to_string(),
        }
    }
}

/// The result of a fallible operation of this library.
pub type PathResult<T> = Result<T, PathError>;

/// Representation for an error of the library.
pub struct PathError {
    /// The classification of the failure.
    pub code: ErrorType,
    /// A human-readable description of the failure.
    pub description: String,
    /// The foreign failure that this error wraps, if any.
    pub cause: Option<Box<ErrorCause>>,
}

/// The single-line rendering of an error classified as `code` and described
/// by `description`.
pub open spec fn rendered(code: ErrorType, description: Seq<char>) -> Seq<char> {
    "Code: "@ + kind_name(code) + ", Description: "@ + description
}

/// Builds an error raised inside the library: classified as `code`, described
/// by `description`, with no cause.
pub fn bail(code: ErrorType, description: &str) -> (r: PathError)
    ensures
        r.code == code,
        r.description@ == description@,
        r.cause is None,
{
    PathError { code: code, description: String::from_str(description), cause: None }
}

/// Fails fast: returns an error classified as `code` with no cause, whose
/// description is made by `describe`. The description is only rendered here,
/// on the failure path, so that callers pay for formatting only when they fail.
pub fn fail_with<T, F: FnOnce() -> String>(code: ErrorType, describe: F) -> (r: PathResult<T>)
    requires
        describe.requires(()),
    ensures
        r is Err,
        r->Err_0.code == code,
        describe.ensures((), r->Err_0.description),
        r->Err_0.cause is None,
{
    let description = describe();
    Err(PathError { code: code, description, cause: None })
}

impl PathError {
    /// The rendering of this error: its classification, then its description.
    pub open spec fn display_text(&self) -> Seq<char> {
        rendered(self.code, self.description@)
    }

    /// Renders this error as `Code: <kind>, Description: <description>`.
    /// The cause is not part of the rendering.
    pub fn to_string(&self) -> (r: String)
        ensures
            r@ == self.display_text(),
    {
        let mut r = String::from_str("Code: ");
        r.append(self.code.name());
        r.append(", Description: ");
        r.append(self.description.as_str());
        r
    }

    /// The debug rendering: the same template over the same fields, with no
    /// richer structure and no cause.
    pub open spec fn debug_text(&self) -> Seq<char> {
        "Code: "@ + kind_name(self.code) + ", Description: "@ + self.description@
    }

    /// The debug rendering of this error.
    pub fn to_debug_string(&self) -> (r: String)
        ensures
            r@ == self.debug_text(),
    {
        self.to_string()
    }

    /// The stored description, exactly as it was given at construction.
    pub fn description(&self) -> (r: &str)
        ensures
            r@ == self.description@,
    {
        self.description.as_str()
    }

    /// The foreign failure that this error wraps, if any.
    pub fn source(&self) -> (r: Option<&ErrorCause>)
        ensures
            r is None <==> self.cause is None,
            r is Some ==> *r->Some_0 == *self.cause->Some_0,
    {
        match &self.cause {
            Some(c) => Some(&**c),
            None => None,
        }
    }

    /// Wraps a foreign failure: classified as `Other`, described by the
    /// failure's own description, and keeping the failure as its cause.
    pub fn from_cause(cause: ErrorCause) -> (r: PathError)
        ensures
            r.code == ErrorType::Other,
            cause.is_described_by(r.description),
            r.cause == Some(Box::new(cause)),
    {
        let description = cause.description();
        PathError { code: ErrorType::Other, description, cause: Some(Box::new(cause)) }
    }
}

// The rendered description is related to the failure rather than determined
// by it, so the conversion is specified by the `ensures` of `from` alone.
impl vstd::std_specs::convert::FromSpecImpl<std::io::Error> for PathError {
    open spec fn obeys_from_spec() -> bool {
        false
    }

    open spec fn from_spec(v: std::io::Error) -> PathError {
        PathError {
            code: ErrorType::Other,
            description: choose|s: String| ErrorCause::Io(v).is_described_by(s),
            cause: Some(Box::new(ErrorCause::Io(v))),
        }
    }
}

impl From<std::io::Error> for PathError {
    fn from(err: std::io::Error) -> (r: PathError)
        ensures
            r.code == ErrorType::Other,
            to_string_from_display_ensures::<std::io::Error>(&err, r.description),
            r.cause == Some(Box::new(ErrorCause::Io(err))),
    {
        PathError::from_cause(ErrorCause::Io(err))
    }
}

// The rendered description is related to the failure rather than determined
// by it, so the conversion is specified by the `ensures` of `from` alone.
impl vstd::std_specs::convert::FromSpecImpl<term::Error> for PathError {
    open spec fn obeys_from_spec() -> bool {
        false
    }

    open spec fn from_spec(v: term::Error) -> PathError {
        PathError {
            code: ErrorType::Other,
            description: choose|s: String| ErrorCause::Term(v).is_described_by(s),
            cause: Some(Box::new(ErrorCause::Term(v))),
        }
    }
}

impl From<term::Error> for PathError {
    fn from(err: term::Error) -> (r: PathError)
        ensures
            r.code == ErrorType::Other,
            to_string_from_display_ensures::<term::Error>(&err, r.description),
            r.cause == Some(Box::new(ErrorCause::Term(err))),
    {
        PathError::from_cause(ErrorCause::Term(err))
    }
}

/// Two classifications are equal exactly when they render under the same
/// name: equality tells every kind apart and each kind equals itself.
pub proof fn lemma_kind_equality_exact(a: ErrorType, b: ErrorType)
    ensures
        a == a,
        (a == b) <==> (kind_name(a) == kind_name(b)),
{
    reveal_strlit("PacketCounterOverflow");
    reveal_strlit("Timeout");
    reveal_strlit("Other");
    reveal_strlit("Internal");
    if kind_name(a) == kind_name(b) {
        assert(kind_name(a).len() == kind_name(b).len());
        match a {
            ErrorType::PacketCounterOverflow => assert(kind_name(a).len() == 21),
            ErrorType::Timeout => assert(kind_name(a).len() == 7),
            ErrorType::Other => assert(kind_name(a).len() == 5),
            ErrorType::Internal => assert(kind_name(a).len() == 8),
        }
    }
}

/// The debug rendering of an error is the same text as its display rendering.
pub proof fn lemma_debug_is_display(e: &PathError)
    ensures
        e.debug_text() == e.display_text(),
{
}

/// A rendering holds the classification's name right after `Code: ` and ends
/// with the whole description, the name standing before the description.
pub proof fn lemma_rendering_holds_name_then_description(code: ErrorType, description: Seq<char>)
    ensures
        ({
            let r = rendered(code, description);
            let start = "Code: "@.len() as int;
            let end = start + kind_name(code).len();
            &&& r.subrange(start, end) == kind_name(code)
            &&& end <= r.len() - description.len()
            &&& r.subrange(r.len() - description.len(), r.len() as int) == description
        }),
{
    let r = rendered(code, description);
    let start = "Code: "@.len() as int;
    let end = start + kind_name(code).len();
    assert(r.subrange(start, end) =~= kind_name(code));
    assert(r.subrange(r.len() - description.len(), r.len() as int) =~= description);
}

} // verus!
