//! The unwrap-log capability: convert an absent `Option` or a failed
//! `Result` into a typed error, emitting one diagnostic line through the
//! sink on the failure path.

use crate::errors::ErrorText;
use crate::errors::UnwrapLogError;
use crate::sink::log_handle;
use crate::sink::render_absence_body;
use crate::sink::render_failure_body;
use vstd::prelude::*;
use vstd::std_specs::convert::FromSpec;

verus! {

/// Unwrap with logging: on success the wrapped value passes through
/// unchanged; on failure one diagnostic line is emitted and a typed error
/// built from an `UnwrapLogError` is returned instead.
pub trait UnwrapLog<T, E: From<UnwrapLogError>>: Sized {
    /// The wrapped value, if this is a success.
    spec fn outcome(self) -> Option<T>;

    fn unwrap_log(self, msg: String, module: &str, line: u32) -> (r: Result<T, E>)
        ensures
            self.outcome() matches Some(v) ==> r == Ok::<T, E>(v),
            self.outcome() is None ==> r is Err,
            self.outcome() is None && E::obeys_from_spec() ==> r == Err::<T, E>(
                E::from_spec(UnwrapLogError { msg }),
            ),
    ;
}

impl<T, E: From<UnwrapLogError>> UnwrapLog<T, E> for Option<T> {
    open spec fn outcome(self) -> Option<T> {
        self
    }

    fn unwrap_log(self, msg: String, module: &str, line: u32) -> (r: Result<T, E>) {
        match self {
            Some(t) => Ok(t),
            None => {
                let body = render_absence_body(msg.as_str(), module, line);
                let _line = log_handle(body.as_str());
                Err(E::from(UnwrapLogError { msg }))
            },
        }
    }
}

impl<T, F: ErrorText, E: From<UnwrapLogError>> UnwrapLog<T, E> for Result<T, F> {
    open spec fn outcome(self) -> Option<T> {
        match self {
            Ok(t) => Some(t),
            Err(_) => None,
        }
    }

    fn unwrap_log(self, msg: String, module: &str, line: u32) -> (r: Result<T, E>) {
        match self {
            Ok(t) => Ok(t),
            Err(why) => {
                let cause = why.error_text();
                let body = render_failure_body(msg.as_str(), cause.as_str(), module, line);
                let _line = log_handle(body.as_str());
                Err(E::from(UnwrapLogError { msg }))
            },
        }
    }
}

/// The call-site form: unwrap an `Option`, and on absence emit one
/// diagnostic line and hand back the library's own failure record, for the
/// caller to return early with. The enclosing function applies `?` to the
/// result, which is the early return the sum of the two amounts to.
///
/// Only the optional-value shape is offered here: a failed `Result` goes
/// through the trait method above, which also records the cause's text.
pub fn unwrap_log_site<T>(value: Option<T>, msg: String, source: &str, line: u32) -> (r: Result<
    T,
    UnwrapLogError,
>)
    ensures
        value matches Some(v) ==> r == Ok::<T, UnwrapLogError>(v),
        value is None ==> r == Err::<T, UnwrapLogError>(UnwrapLogError { msg }),
{
    match value {
        Some(t) => Ok(t),
        None => {
            let body = render_absence_body(msg.as_str(), source, line);
            let _line = log_handle(body.as_str());
            Err(UnwrapLogError { msg })
        },
    }
}

} // verus!
