//! One turn of the polling loop: what becomes of the outcome of a read.

use vstd::prelude::*;

use crate::adapter::{AdapterState, READ_LEN};
use crate::shared::SharedState;
use crate::transport::TransportError;

verus! {

/// What a turn of the polling loop leads to.
#[derive(Debug, Copy, Clone, PartialEq, Eq, Structural)]
pub struct PollStep {
    /// The snapshot to publish, or nothing where the previous one stays.
    pub publish: Option<AdapterState>,
    /// Whether the loop goes on to another read.
    pub proceed: bool,
}

/// The snapshot that a turn publishes: the decoded report where the read
/// succeeded, nothing where it failed.
pub open spec fn published_by(outcome: Result<[u8; READ_LEN], TransportError>) -> Option<
    AdapterState,
> {
    match outcome {
        Ok(report) => Some(AdapterState::decode(report@)),
        Err(_) => None,
    }
}

/// Whether the loop goes on after a turn: it was not asked to stop, and the
/// read succeeded or merely ran out of time.
pub open spec fn proceeds_after(
    outcome: Result<[u8; READ_LEN], TransportError>,
    running: bool,
) -> bool {
    running && match outcome {
        Ok(_) => true,
        Err(error) => error.benign(),
    }
}

/// The snapshot that readers see after a turn, given the one they saw before
/// it.
pub open spec fn snapshot_after(
    before: AdapterState,
    outcome: Result<[u8; READ_LEN], TransportError>,
) -> AdapterState {
    match published_by(outcome) {
        Some(snapshot) => snapshot,
        None => before,
    }
}

/// Decides one turn of the polling loop from the outcome of its read and from
/// whether polling is still wanted. A report is decoded and published. A read
/// that ran out of time publishes nothing, and neither does one that failed
/// for good, which also ends the loop.
pub fn poll_step(outcome: Result<[u8; READ_LEN], TransportError>, running: bool) -> (step:
    PollStep)
    ensures
        step.publish == published_by(outcome),
        step.proceed == proceeds_after(outcome, running),
{
    match outcome {
        Ok(report) => PollStep { publish: Some(AdapterState::from(report)), proceed: running },
        Err(error) => PollStep { publish: None, proceed: running && error.is_benign() },
    }
}

/// Carries out one turn of the polling loop on the cell `shared`: publishes
/// what the turn publishes, and tells whether the loop goes on.
pub fn poll_once(
    shared: &SharedState,
    outcome: Result<[u8; READ_LEN], TransportError>,
    running: bool,
) -> (proceed: bool)
    requires
        outcome matches Ok(report) ==> shared.admits(AdapterState::decode(report@)),
    ensures
        proceed == proceeds_after(outcome, running),
{
    let step: PollStep = poll_step(outcome, running);
    match step.publish {
        Some(snapshot) => shared.publish(snapshot),
        None => {},
    }
    step.proceed
}

/// A read that ran out of time changes nothing: readers keep the snapshot
/// they had, and the loop goes on as long as polling is wanted.
pub proof fn lemma_timeout_retains(before: AdapterState, running: bool)
    ensures
        snapshot_after(before, Err(TransportError::Timeout)) == before,
        proceeds_after(Err(TransportError::Timeout), running) == running,
{
}

/// A read that failed for good ends the loop and leaves readers with the
/// snapshot they had.
pub proof fn lemma_failure_freezes(before: AdapterState, error: TransportError, running: bool)
    requires
        !error.benign(),
    ensures
        snapshot_after(before, Err(error)) == before,
        !proceeds_after(Err(error), running),
{
}

} // verus!
