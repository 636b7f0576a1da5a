use crate::block::Block;
use vstd::prelude::*;

verus! {

/// Why generating the prompt failed.
#[derive(Clone, Copy, Debug, PartialEq, Eq, Structural)]
pub enum GenerationError {
    /// Evaluation did not finish before the deadline; the in-flight
    /// evaluation is abandoned and its eventual result discarded.
    TimedOut,
    /// Evaluation raised an unexpected defect.
    Crashed,
}

/// What the bounded wait for the evaluation worker observed: the worker
/// finished with blocks, the worker died of a defect, or the deadline passed
/// first.
#[derive(Debug)]
pub enum GenerationEvent {
    Finished(Vec<Block>),
    Faulted,
    DeadlineElapsed,
}

/// The generation outcome for what the bounded wait observed: a completed
/// evaluation's blocks are the result, a worker defect is `Crashed`, and an
/// elapsed deadline is `TimedOut` — the two failures stay distinct.
pub fn classify_generation(event: GenerationEvent) -> (r: Result<Vec<Block>, GenerationError>)
    ensures
        match event {
            GenerationEvent::Finished(blocks) => r == Result::<
                Vec<Block>,
                GenerationError,
            >::Ok(blocks),
            GenerationEvent::Faulted => r == Result::<Vec<Block>, GenerationError>::Err(
                GenerationError::Crashed,
            ),
            GenerationEvent::DeadlineElapsed => r == Result::<Vec<Block>, GenerationError>::Err(
                GenerationError::TimedOut,
            ),
        },
{
    match event {
        GenerationEvent::Finished(blocks) => Ok(blocks),
        GenerationEvent::Faulted => Err(GenerationError::Crashed),
        GenerationEvent::DeadlineElapsed => Err(GenerationError::TimedOut),
    }
}

} // verus!
