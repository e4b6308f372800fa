//! The single error type of the protocol core.

use vstd::prelude::*;

verus! {

/// Result of every fallible operation of the core.
pub type Result<T> = std::result::Result<T, ProtocolError>;

/// An error that carries a human-readable message and nothing else.
///
/// The message is owned, so it can be built at run time. Two errors are the
/// same error exactly when their messages are the same text.
#[derive(Clone, Debug)]
pub struct ProtocolError(pub String);

impl View for ProtocolError {
    type V = Seq<char>;

    /// The message, as a sequence of characters.
    open spec fn view(&self) -> Seq<char> {
        self.0@
    }
}

impl ProtocolError {
    /// Builds an error from a message that was put together at run time.
    pub fn coerce_static_from_str(error_str: &str) -> (err: Self)
        ensures
            err@ == error_str@,
    {
        ProtocolError(error_str.to_owned())
    }

    /// The message of this error.
    pub fn message(&self) -> (text: String)
        ensures
            text@ == self@,
    {
        self.0.clone()
    }
}

} // verus!
