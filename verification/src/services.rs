//! Waiting for the language model server and the speech synthesis engine to
//! come up after they are started.
use vstd::prelude::*;

verus! {

/// How many times the two servers are probed, one second apart.
pub const STARTUP_ATTEMPTS: u32 = 30;

/// What follows one probe of the two servers.
#[derive(Clone, Copy, Debug, PartialEq, Eq, Structural)]
pub enum Readiness {
    /// Both answered: announce that the assistant is ready.
    Ready,
    /// Probe again after a second.
    Retry,
    /// Stop probing; the assistant stays in its start-up status.
    GiveUp,
}

/// The outcome of probe number `attempt` (from 0).
pub open spec fn readiness_of(attempt: u32, model_server_up: bool, voice_server_up: bool) -> Readiness {
    if model_server_up && voice_server_up {
        Readiness::Ready
    } else if attempt + 1 < STARTUP_ATTEMPTS {
        Readiness::Retry
    } else {
        Readiness::GiveUp
    }
}

/// A probe ends the wait with success exactly when both servers answered,
/// gives up exactly when they did not and it was the last of the 30 probes,
/// and asks for another probe otherwise.
pub proof fn lemma_probe_outcomes(attempt: u32, model_server_up: bool, voice_server_up: bool)
    requires
        attempt < 30,
    ensures
        (readiness_of(attempt, model_server_up, voice_server_up) == Readiness::Ready) == (
        model_server_up && voice_server_up),
        (readiness_of(attempt, model_server_up, voice_server_up) == Readiness::GiveUp) == (!(
        model_server_up && voice_server_up) && attempt == 29),
        (readiness_of(attempt, model_server_up, voice_server_up) == Readiness::Retry) == (!(
        model_server_up && voice_server_up) && attempt < 29),
{
}

/// Decides what follows probe number `attempt` (from 0), given whether each
/// server answered. A retry is only ever asked for while another probe is
/// within the budget, so at most [`STARTUP_ATTEMPTS`] probes are made.
pub fn readiness(attempt: u32, model_server_up: bool, voice_server_up: bool) -> (r: Readiness)
    requires
        attempt < STARTUP_ATTEMPTS,
    ensures
        r == readiness_of(attempt, model_server_up, voice_server_up),
        r == Readiness::Retry ==> attempt + 1 < STARTUP_ATTEMPTS,
{
    if model_server_up && voice_server_up {
        Readiness::Ready
    } else if attempt + 1 < STARTUP_ATTEMPTS {
        Readiness::Retry
    } else {
        Readiness::GiveUp
    }
}

} // verus!
