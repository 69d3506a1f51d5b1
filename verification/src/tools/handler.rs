//! The pace of the two background loops.
//!
//! A background loop calls its step again and again, with a short pause in
//! between, until the step fails or says that it is done.

use vstd::prelude::*;

verus! {

/// The pause between two calls of a step, in milliseconds.
pub const TICK_MILLIS: u64 = 1;

/// What a loop does after one call of its step.
#[derive(Debug, PartialEq, Eq)]
pub enum Pace<E> {
    /// Sleep for this many milliseconds, then call the step again.
    Pause(u64),
    /// Stop: the step is done.
    Finished,
    /// Stop: the step has failed with this error.
    Failed(E),
}

/// Decides how a loop goes on after its step returned `step` and left the
/// continuation flag at `cont`.
///
/// An error ends the loop whatever the flag says. Without an error the loop
/// pauses for [`TICK_MILLIS`] and goes on while the flag is set, and is
/// finished once it is cleared.
pub fn after_step<E>(step: Result<(), E>, cont: bool) -> (pace: Pace<E>)
    ensures
        pace == match step {
            Err(e) => Pace::Failed(e),
            Ok(_) => if cont {
                Pace::Pause(TICK_MILLIS)
            } else {
                Pace::Finished
            },
        },
{
    match step {
        Err(e) => Pace::Failed(e),
        Ok(_) => {
            if cont {
                Pace::Pause(TICK_MILLIS)
            } else {
                Pace::Finished
            }
        },
    }
}

} // verus!
