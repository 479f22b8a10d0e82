//! The error that every fallible operation of the library reports.

use vstd::prelude::*;

verus! {

/// An error, known by the message it shows.
#[derive(Debug)]
pub struct HybridAsrError {
    pub message: String,
}

pub type HybridAsrResult<T> = Result<T, HybridAsrError>;

impl View for HybridAsrError {
    type V = Seq<char>;

    open spec fn view(&self) -> Seq<char> {
        self.message@
    }
}

impl HybridAsrError {
    /// An error that shows `message`.
    pub fn new(message: String) -> (error: Self)
        ensures
            error.message == message,
    {
        HybridAsrError { message }
    }

    /// An error that shows a copy of `message`.
    pub fn from_text(message: &str) -> (error: Self)
        ensures
            error@ == message@,
    {
        HybridAsrError { message: message.to_owned() }
    }

    /// The message of the error.
    pub fn to_string(&self) -> (message: String)
        ensures
            message == self.message,
    {
        self.message.clone()
    }
}

impl Clone for HybridAsrError {
    fn clone(&self) -> (copy: Self)
        ensures
            copy == *self,
    {
        HybridAsrError { message: self.message.clone() }
    }
}

} // verus!
