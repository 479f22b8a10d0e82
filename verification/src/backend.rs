//! The contract between a session and the engine that recognises speech for it.

use vstd::prelude::*;

use crate::error::HybridAsrResult;
use crate::types::AsrResult;

verus! {

/// A streaming recognition engine.
///
/// A session drives its engine through these calls alone. `Sample` is one audio sample and
/// `Time` the number type of the times in a result. The relations say which outcomes a call may
/// have; an engine that does not choose them may have any, and the contracts of a session speak of
/// them to say which call was made, and with what.
pub trait RealtimeAsrBackend: Sized + Send {
    type Sample;

    type Time;

    open spec fn start_call(before: Self, after: Self, outcome: HybridAsrResult<()>) -> bool {
        true
    }

    open spec fn accept_call(
        before: Self,
        samples: Seq<Self::Sample>,
        after: Self,
        outcome: HybridAsrResult<Vec<AsrResult<Self::Time>>>,
    ) -> bool {
        true
    }

    open spec fn reset_call(before: Self, after: Self, outcome: HybridAsrResult<()>) -> bool {
        true
    }

    open spec fn prepare_next_turn_call(before: Self, after: Self, outcome: HybridAsrResult<()>) -> bool {
        true
    }

    open spec fn finish_call(
        before: Self,
        after: Self,
        outcome: HybridAsrResult<Vec<AsrResult<Self::Time>>>,
    ) -> bool {
        true
    }

    /// Gets the engine ready to take audio.
    fn start(&mut self) -> (outcome: HybridAsrResult<()>)
        ensures
            Self::start_call(*old(self), *final(self), outcome),
    ;

    /// Takes audio and gives back what was recognised by now.
    fn accept_samples(&mut self, samples: &[Self::Sample]) -> (outcome: HybridAsrResult<
        Vec<AsrResult<Self::Time>>,
    >)
        ensures
            Self::accept_call(*old(self), samples@, *final(self), outcome),
    ;

    /// Drops what is buffered.
    fn reset(&mut self) -> (outcome: HybridAsrResult<()>)
        ensures
            Self::reset_call(*old(self), *final(self), outcome),
    ;

    /// Drops what the last turn left behind and keeps the engine ready for the next.
    fn prepare_next_turn(&mut self) -> (outcome: HybridAsrResult<()>)
        ensures
            Self::prepare_next_turn_call(*old(self), *final(self), outcome),
    ;

    /// Ends the stream and gives back what was still outstanding.
    fn finish(&mut self) -> (outcome: HybridAsrResult<Vec<AsrResult<Self::Time>>>)
        ensures
            Self::finish_call(*old(self), *final(self), outcome),
    ;
}

} // verus!
