//! The error type handed to callers: a single "bad request" class carrying a
//! descriptive message.

use vstd::prelude::*;

verus! {

/// A user-facing error with a descriptive message.
pub struct AppError {
    pub message: String,
}

/// Shorthand for results that fail with an [`AppError`].
pub type Res<T> = Result<T, AppError>;

impl AppError {
    /// An `Err` carrying `msg` as its message.
    pub fn new<T>(msg: &str) -> (r: Res<T>)
        ensures
            r matches Err(e) && e.message@ == msg@,
    {
        Err(AppError { message: String::from_str(msg) })
    }

    /// The message carried by this error.
    pub fn text(&self) -> (r: &str)
        ensures
            r@ == self.message@,
    {
        self.message.as_str()
    }
}

} // verus!
