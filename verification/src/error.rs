//! The error type shared by every stage of a sync run.

use vstd::prelude::*;

verus! {

/// An error raised while syncing one entry, or while running the whole
/// pipeline, carrying a human-readable description.
#[derive(Debug)]
pub struct Error {
    message: String,
}

impl Error {
    /// The description carried by this error, as spec code sees it.
    pub closed spec fn spec_message(&self) -> Seq<char> {
        self.message@
    }

    /// Wraps a description into an [`Error`].
    pub fn new(message: &str) -> (r: Self)
        ensures
            r.spec_message() == message@,
    {
        Error { message: message.to_owned() }
    }

    /// The human-readable description carried by this error.
    pub fn message(&self) -> (r: &String)
        ensures
            r@ == self.spec_message(),
    {
        &self.message
    }
}

} // verus!
