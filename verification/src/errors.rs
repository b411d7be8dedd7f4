//! The error taxonomy: a failure record produced once its diagnostic has
//! been emitted, and the two-variant sum type that is the library's own
//! error surface.

use vstd::prelude::*;
use vstd::string::StringExecFns;
use vstd::std_specs::cmp::PartialEqSpec;

verus! {

/// One failure that has been converted and recorded. It carries only the
/// caller-supplied diagnostic message; the underlying cause, if any, lives
/// in the diagnostic line that was written when the value was made.
#[derive(Debug)]
pub struct UnwrapLogError {
    pub msg: String,
}

/// The library's error surface: either a failure that went through the
/// logging conversion, or an arbitrary fixed diagnostic string that is not
/// tied to a conversion event.
#[derive(Debug)]
pub enum UnwrapErrors {
    Unwrap(UnwrapLogError),
    StaticStr(String),
}

impl PartialEq for UnwrapLogError {
    fn eq(&self, other: &Self) -> (r: bool) {
        self.msg == other.msg
    }
}

impl vstd::std_specs::cmp::PartialEqSpecImpl for UnwrapLogError {
    open spec fn obeys_eq_spec() -> bool {
        true
    }

    open spec fn eq_spec(&self, other: &Self) -> bool {
        self.msg@ == other.msg@
    }
}

impl PartialEq for UnwrapErrors {
    fn eq(&self, other: &Self) -> (r: bool) {
        match (self, other) {
            (UnwrapErrors::Unwrap(a), UnwrapErrors::Unwrap(b)) => *a == *b,
            (UnwrapErrors::StaticStr(a), UnwrapErrors::StaticStr(b)) => *a == *b,
            _ => false,
        }
    }
}

impl vstd::std_specs::cmp::PartialEqSpecImpl for UnwrapErrors {
    open spec fn obeys_eq_spec() -> bool {
        true
    }

    open spec fn eq_spec(&self, other: &Self) -> bool {
        match (self, other) {
            (UnwrapErrors::Unwrap(a), UnwrapErrors::Unwrap(b)) => a.msg@ == b.msg@,
            (UnwrapErrors::StaticStr(a), UnwrapErrors::StaticStr(b)) => a@ == b@,
            _ => false,
        }
    }
}

impl From<UnwrapLogError> for UnwrapErrors {
    fn from(v: UnwrapLogError) -> (r: UnwrapErrors) {
        UnwrapErrors::Unwrap(v)
    }
}

impl vstd::std_specs::convert::FromSpecImpl<UnwrapLogError> for UnwrapErrors {
    open spec fn obeys_from_spec() -> bool {
        true
    }

    open spec fn from_spec(v: UnwrapLogError) -> UnwrapErrors {
        UnwrapErrors::Unwrap(v)
    }
}

/// A human-readable rendering, for error types that want their failure
/// described in a diagnostic line. Stands in for a display formatter,
/// which verified code cannot implement.
pub trait ErrorText {
    /// The exact character sequence that `error_text` returns.
    spec fn text(&self) -> Seq<char>;

    fn error_text(&self) -> (r: String)
        ensures
            r@ == self.text(),
    ;
}

impl ErrorText for UnwrapLogError {
    open spec fn text(&self) -> Seq<char> {
        "UnwrapLogError: "@ + self.msg@
    }

    fn error_text(&self) -> (r: String) {
        let mut s = "UnwrapLogError: ".to_owned();
        s.append(self.msg.as_str());
        s
    }
}

impl ErrorText for UnwrapErrors {
    open spec fn text(&self) -> Seq<char> {
        match self {
            UnwrapErrors::Unwrap(e) => e.text(),
            UnwrapErrors::StaticStr(s) => "Error: "@ + s@,
        }
    }

    fn error_text(&self) -> (r: String) {
        match self {
            UnwrapErrors::Unwrap(e) => e.error_text(),
            UnwrapErrors::StaticStr(s) => {
                let mut r = "Error: ".to_owned();
                r.append(s.as_str());
                r
            },
        }
    }
}

/// Equality on `UnwrapLogError` is structural: two values are equal
/// exactly when their message texts are equal, no matter how each one
/// was constructed.
pub proof fn lemma_unwrap_log_error_eq_structural(a: UnwrapLogError, b: UnwrapLogError)
    ensures
        a.eq_spec(&b) <==> a.msg@ == b.msg@,
{
}

} // verus!
