//! Plain vocabulary shared by the session, the backends and the events.

use vstd::prelude::*;

verus! {

/// Which kind of engine a configuration asks for.
#[derive(Clone, Copy, Debug, PartialEq, Eq, Structural)]
pub enum AsrMode {
    Local,
    Online,
}

/// The state of a recognition session.
#[derive(Clone, Copy, Debug, PartialEq, Eq, Structural)]
pub enum AsrState {
    Idle,
    Initializing,
    Ready,
    Recognizing,
    Paused,
    Finishing,
    Finished,
    Error,
}

/// One recognised piece of speech.
///
/// `T` is the number type in which an engine reports seconds.
#[derive(Debug)]
pub struct AsrResult<T> {
    pub text: String,
    pub start_time: T,
    pub end_time: T,
    pub start_sample: i64,
    pub sample_count: i64,
    pub is_final: bool,
}

impl<T: Copy> Clone for AsrResult<T> {
    fn clone(&self) -> (copy: Self)
        ensures
            copy == *self,
    {
        AsrResult {
            text: self.text.clone(),
            start_time: self.start_time,
            end_time: self.end_time,
            start_sample: self.start_sample,
            sample_count: self.sample_count,
            is_final: self.is_final,
        }
    }
}

} // verus!
