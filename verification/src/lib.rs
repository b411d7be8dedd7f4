//! Unwrap-with-logging: convert an absent `Option` or a failed `Result`
//! into a typed error while a diagnostic line is formatted and emitted.

pub mod errors;
pub mod sink;
pub mod unwrap;

pub use errors::ErrorText;
pub use errors::UnwrapErrors;
pub use errors::UnwrapLogError;
pub use sink::log_handle;
pub use unwrap::UnwrapLog;
pub use unwrap::unwrap_log_site;
