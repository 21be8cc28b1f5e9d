//! The one way in which describing a payload can fail.

use vstd::prelude::*;

verus! {

/// The schema registry could not produce a schema for a payload.
///
/// The message is the registry's own; this crate passes it on unchanged.
#[derive(Debug, PartialEq, Eq)]
pub struct GenerationError {
    message: String,
}

impl Clone for GenerationError {
    fn clone(&self) -> (copy: GenerationError)
        ensures
            copy == *self,
    {
        GenerationError { message: self.message.clone() }
    }
}

impl View for GenerationError {
    type V = Seq<char>;

    closed spec fn view(&self) -> Seq<char> {
        self.message@
    }
}

impl GenerationError {
    /// An error that carries `message`.
    pub fn new(message: String) -> (error: GenerationError)
        ensures
            error@ == message@,
    {
        GenerationError { message }
    }

    /// The message this error was made with.
    pub fn message(&self) -> (message: &str)
        ensures
            message@ == self@,
    {
        self.message.as_str()
    }
}

} // verus!
