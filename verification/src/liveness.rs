//! Liveness assessment: cross-referencing the registry against a snapshot
//! of the operating system's process table, and the poller's termination
//! rule. The runtime captures the snapshot and sleeps between cycles; each
//! cycle's classification, report and stop decision are computed here.
//!
//! Liveness goes by process id alone: a process that exits and is
//! immediately respawned under the same reused OS id between two poll
//! cycles is misclassified as alive. That imprecision is accepted; no
//! parent or start-time check is made.

use vstd::prelude::*;

use crate::registry::TrackedProcess;
use crate::report::render_report;
use crate::report::status_line_of;

verus! {

/// A point-in-time enumeration of the process identifiers currently alive
/// on the OS. Ephemeral: recomputed each poll cycle, never stored.
pub struct LivenessSnapshot {
    alive: Vec<u32>,
}

impl View for LivenessSnapshot {
    type V = Seq<u32>;

    closed spec fn view(&self) -> Seq<u32> {
        self.alive@
    }
}

impl LivenessSnapshot {
    /// Wraps the ids the runtime enumerated from the OS process table.
    pub fn new(alive_pids: Vec<u32>) -> (r: LivenessSnapshot)
        ensures
            r@ == alive_pids@,
    {
        LivenessSnapshot { alive: alive_pids }
    }

    /// Whether the given id is present in the snapshot.
    pub fn contains(&self, pid: u32) -> (r: bool)
        ensures
            r == self@.contains(pid),
    {
        let mut i: usize = 0;
        while i < self.alive.len()
            invariant
                i <= self.alive@.len(),
                forall|j: int| 0 <= j < i ==> self.alive@[j] != pid,
            decreases self.alive@.len() - i,
        {
            if self.alive[i] == pid {
                return true;
            }
            i = i + 1;
        }
        false
    }
}

/// One tracked process together with its classification for this cycle.
pub struct ProcessStatus {
    pub process: TrackedProcess,
    pub alive: bool,
}

/// The poller's configurable termination behaviour: the basic variant runs
/// until the runtime abandons it, the hardened variant stops on its own
/// once all tracked work has concluded.
pub struct PollerConfig {
    pub terminate_when_all_dead: bool,
}

/// Every assessed process is dead.
pub open spec fn all_dead(status: Seq<ProcessStatus>) -> bool {
    forall|i: int| 0 <= i < status.len() ==> !status[i].alive
}

/// The poller's termination rule: stop only in the hardened variant, and
/// only once the registry is non-empty with every tracked process dead.
pub open spec fn spec_should_stop(terminate_when_all_dead: bool, status: Seq<ProcessStatus>) -> bool {
    terminate_when_all_dead && status.len() > 0 && all_dead(status)
}

/// Classifies each tracked record: alive exactly when its id appears in the
/// OS snapshot, in registry order.
pub fn assess_liveness(records: &Vec<TrackedProcess>, os: &LivenessSnapshot) -> (r: Vec<
    ProcessStatus,
>)
    ensures
        r@.len() == records@.len(),
        forall|i: int|
            0 <= i < r@.len() ==> r@[i].process@ == records@[i]@ && r@[i].alive == os@.contains(
                records@[i]@.id,
            ),
{
    let mut out: Vec<ProcessStatus> = Vec::new();
    let mut i: usize = 0;
    while i < records.len()
        invariant
            i <= records@.len(),
            out@.len() == i,
            forall|j: int|
                0 <= j < i ==> out@[j].process@ == records@[j]@ && out@[j].alive == os@.contains(
                    records@[j]@.id,
                ),
        decreases records@.len() - i,
    {
        let record = records[i].clone();
        let alive = os.contains(record.id);
        out.push(ProcessStatus { process: record, alive });
        i = i + 1;
    }
    out
}

/// Whether this cycle's assessment asks the poller to stop.
pub fn should_stop(config: &PollerConfig, status: &Vec<ProcessStatus>) -> (r: bool)
    ensures
        r == spec_should_stop(config.terminate_when_all_dead, status@),
{
    if !config.terminate_when_all_dead {
        return false;
    }
    if status.len() == 0 {
        return false;
    }
    let mut i: usize = 0;
    while i < status.len()
        invariant
            i <= status@.len(),
            forall|j: int| 0 <= j < i ==> !status@[j].alive,
        decreases status@.len() - i,
    {
        if status[i].alive {
            return false;
        }
        i = i + 1;
    }
    true
}

/// What one poll cycle yields: the per-process classification, the rendered
/// report lines, and whether the poller should exit its loop.
pub struct PollCycleOutcome {
    pub status: Vec<ProcessStatus>,
    pub report: Vec<String>,
    pub done: bool,
}

/// One poll cycle over a registry snapshot and an OS snapshot: classify
/// every tracked record, render the report (emitted every cycle, even with
/// zero tracked processes), and decide termination.
pub fn poll_cycle(
    config: &PollerConfig,
    records: &Vec<TrackedProcess>,
    os: &LivenessSnapshot,
) -> (r: PollCycleOutcome)
    ensures
        r.status@.len() == records@.len(),
        forall|i: int|
            0 <= i < r.status@.len() ==> r.status@[i].process@ == records@[i]@
                && r.status@[i].alive == os@.contains(records@[i]@.id),
        r.report@.len() == records@.len() + 2,
        r.report@[0]@ == "--"@,
        r.report@[r.report@.len() - 1]@ == Seq::<char>::empty(),
        forall|i: int|
            0 <= i < r.status@.len() ==> r.report@[i + 1]@ == status_line_of(
                r.status@[i].process@.name,
                r.status@[i].process@.id as nat,
                r.status@[i].alive,
            ),
        r.done == spec_should_stop(config.terminate_when_all_dead, r.status@),
{
    let status = assess_liveness(records, os);
    let report = render_report(&status);
    let done = should_stop(config, &status);
    PollCycleOutcome { status, report, done }
}

/// Hardened poller termination: once every tracked process is dead and the
/// registry is non-empty, the hardened variant stops; an empty registry
/// never triggers termination; and the basic variant never stops on its
/// own, whatever the assessment says.
pub proof fn lemma_poller_termination(status: Seq<ProcessStatus>)
    ensures
        status.len() > 0 && all_dead(status) ==> spec_should_stop(true, status),
        !spec_should_stop(true, Seq::<ProcessStatus>::empty()),
        !spec_should_stop(false, status),
{
}

} // verus!
