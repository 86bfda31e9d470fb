//! The error the library reports to the user interface.

use vstd::prelude::*;

verus! {

/// An error for the user: a message whose prefix names its class (`error.io: ...`,
/// `error.denied: ...`), which the interface translates.
#[derive(Debug, Clone, PartialEq, Eq)]
pub struct AppError {
    pub message: String,
}

impl AppError {
    /// An error with the given message.
    pub fn new(message: &str) -> (r: Self)
        ensures
            r.message@ == message@,
    {
        AppError { message: message.to_owned() }
    }

    /// The message, for display.
    pub fn to_text(&self) -> (r: String)
        ensures
            r@ == self.message@,
    {
        self.message.clone()
    }
}

} // verus!
