//! Deciding whether a run bills the current hour, and the marker it leaves behind.

use crate::time::{Timestamp, SECONDS_PER_HOUR};
use vstd::prelude::*;

verus! {

/// The oldest saved snapshot layout that can be replayed: older ones have no domains.
pub const MIN_SNAPSHOT_VERSION: usize = 3;

/// What is kept between runs: the last hour that was billed.
#[derive(Clone, Copy, Debug)]
pub struct PersistentState {
    pub last_timepoint: Option<Timestamp>,
}

impl PersistentState {
    /// The state before any run: no hour billed yet.
    pub fn new() -> (r: PersistentState)
        ensures
            r.last_timepoint is None,
    {
        PersistentState { last_timepoint: None }
    }
}

/// Where a run stands.
#[derive(Clone, Copy, Debug, PartialEq, Eq, Structural)]
pub enum RunPhase {
    /// Not started.
    Idle,
    /// The hour was billed already: nothing to do.
    ShortCircuited,
    /// Billing `hour`.
    Running { hour: Timestamp },
    /// Done; the marker is updated unless this was a dry run.
    Committed,
    /// Failed; the marker is left as it was, so that a later run bills the hour again.
    Aborted,
}

/// Why a run cannot go on.
#[derive(Clone, Copy, Debug, PartialEq, Eq, Structural)]
pub enum RunError {
    /// The saved snapshot predates domain information.
    SnapshotTooOld,
}

/// The phase a run enters on start: with the force flag unset, an hour equal to the last
/// billed one short-circuits.
pub open spec fn start_phase(state: PersistentState, now: Timestamp, force: bool) -> RunPhase {
    let hour = now.spec_billing_hour();
    if !force && state.last_timepoint == Some(hour) {
        RunPhase::ShortCircuited
    } else {
        RunPhase::Running { hour }
    }
}

/// The state kept after a run that billed `hour`: the hour, unless this was a dry run.
pub open spec fn committed_state(state: PersistentState, hour: Timestamp, dry_run: bool) -> PersistentState {
    if dry_run {
        state
    } else {
        PersistentState { last_timepoint: Some(hour) }
    }
}

/// The state kept after a whole run started at `now` that succeeds.
pub open spec fn state_after_run(
    state: PersistentState,
    now: Timestamp,
    force: bool,
    dry_run: bool,
) -> PersistentState {
    match start_phase(state, now, force) {
        RunPhase::Running { hour } => committed_state(state, hour, dry_run),
        _ => state,
    }
}

/// Drives one run: start, then finish or abort.
#[derive(Clone, Copy, Debug)]
pub struct RunController {
    pub phase: RunPhase,
    pub state: PersistentState,
    pub force: bool,
    pub dry_run: bool,
}

impl RunController {
    /// A run not yet started, from the state the last run left.
    pub fn new(state: PersistentState, force: bool, dry_run: bool) -> (r: RunController)
        ensures
            r.phase == RunPhase::Idle,
            r.state == state,
            r.force == force,
            r.dry_run == dry_run,
    {
        RunController { phase: RunPhase::Idle, state, force, dry_run }
    }

    /// Starts the run at `now`; returns whether it goes on to bill.
    pub fn start(&mut self, now: Timestamp) -> (run: bool)
        requires
            old(self).phase == RunPhase::Idle,
            now.secs >= i64::MIN + SECONDS_PER_HOUR,
        ensures
            final(self).phase == start_phase(old(self).state, now, old(self).force),
            final(self).state == old(self).state,
            final(self).force == old(self).force,
            final(self).dry_run == old(self).dry_run,
            run == (final(self).phase is Running),
    {
        let hour = now.billing_hour();
        let same = match self.state.last_timepoint {
            Some(last) => last.secs == hour.secs && last.nanos == hour.nanos,
            None => false,
        };
        if !self.force && same {
            self.phase = RunPhase::ShortCircuited;
            false
        } else {
            self.phase = RunPhase::Running { hour };
            true
        }
    }

    /// Ends a run that billed `hour`; returns whether the report is written and the new
    /// state kept (not on a dry run).
    pub fn finish(&mut self, hour: Timestamp) -> (write: bool)
        requires
            old(self).phase is Running,
        ensures
            final(self).phase == RunPhase::Committed,
            final(self).state == committed_state(old(self).state, hour, old(self).dry_run),
            final(self).force == old(self).force,
            final(self).dry_run == old(self).dry_run,
            write == !old(self).dry_run,
    {
        self.phase = RunPhase::Committed;
        if !self.dry_run {
            self.state = PersistentState { last_timepoint: Some(hour) };
        }
        !self.dry_run
    }

    /// Ends a run that failed; the state stays as it was.
    pub fn abort(&mut self)
        requires
            old(self).phase is Running,
        ensures
            final(self).phase == RunPhase::Aborted,
            final(self).state == old(self).state,
            final(self).force == old(self).force,
            final(self).dry_run == old(self).dry_run,
    {
        self.phase = RunPhase::Aborted;
    }
}

/// A saved snapshot can be replayed only from the version that added domains on.
pub fn check_snapshot_version(version: usize) -> (r: Result<(), RunError>)
    ensures
        r is Ok <==> version >= MIN_SNAPSHOT_VERSION,
        r matches Err(e) ==> e == RunError::SnapshotTooOld,
{
    if version < MIN_SNAPSHOT_VERSION {
        Err(RunError::SnapshotTooOld)
    } else {
        Ok(())
    }
}

/// After a successful run, a second run within the same billing hour with the force flag
/// unset short-circuits and leaves the kept state as it is; with the flag set it bills the
/// hour again.
pub proof fn lemma_rerun_same_hour(
    state: PersistentState,
    first: Timestamp,
    second: Timestamp,
    first_force: bool,
)
    requires
        first.spec_billing_hour() == second.spec_billing_hour(),
    ensures
        ({
            let after = state_after_run(state, first, first_force, false);
            &&& start_phase(after, second, false) == RunPhase::ShortCircuited
            &&& state_after_run(after, second, false, false) == after
            &&& start_phase(after, second, true) == RunPhase::Running {
                hour: second.spec_billing_hour(),
            }
        }),
{
}

} // verus!
