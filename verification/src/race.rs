//! First-completion-wins race resolution. The runtime launches the fixed
//! field of children as concurrent tasks and reports the first completion
//! event here; whichever participant finishes first — succeeding or failing
//! — determines the outcome, and every other participant is handed to
//! teardown. Dropping a loser's process handle kills its child on the OS
//! side; that side effect is the runtime's, but the set of handles to drop
//! is decided here.

use vstd::prelude::*;
use vstd::string::StringExecFns;

use crate::errors::SupervisorError;

verus! {

/// The role of one race participant.
#[derive(Clone, Copy, PartialEq, Eq, Structural, Debug)]
pub enum ParticipantKind {
    /// A child that runs indefinitely; it is expected to lose the race.
    LongRunning,
    /// The child with a short deterministic lifetime; it is expected to win.
    ShortLived,
}

/// One race participant: its role and the command the runtime launches.
pub struct Participant {
    pub kind: ParticipantKind,
    pub command: String,
}

/// The command of a long-running child.
pub fn never_ending_command() -> (r: String)
    ensures
        r@ == "./never_ending.sh"@,
{
    String::from_str("./never_ending.sh")
}

/// The command of the short-lived child.
pub fn finishes_fast_command() -> (r: String)
    ensures
        r@ == "./finishes_fast.sh"@,
{
    String::from_str("./finishes_fast.sh")
}

/// The fixed race field: three long-running children followed by one
/// short-lived child.
pub fn race_participants() -> (r: Vec<Participant>)
    ensures
        r@.len() == 4,
        forall|i: int|
            0 <= i < 3 ==> r@[i].kind == ParticipantKind::LongRunning && r@[i].command@
                == "./never_ending.sh"@,
        r@[3].kind == ParticipantKind::ShortLived,
        r@[3].command@ == "./finishes_fast.sh"@,
{
    let mut out: Vec<Participant> = Vec::new();
    out.push(Participant { kind: ParticipantKind::LongRunning, command: never_ending_command() });
    out.push(Participant { kind: ParticipantKind::LongRunning, command: never_ending_command() });
    out.push(Participant { kind: ParticipantKind::LongRunning, command: never_ending_command() });
    out.push(
        Participant { kind: ParticipantKind::ShortLived, command: finishes_fast_command() },
    );
    out
}

/// How one completion event changes the resolution: the first event settles
/// the winner, every later event is ignored.
pub open spec fn resolve_step(winner: Option<usize>, finisher: usize) -> Option<usize> {
    if winner is Some {
        winner
    } else {
        Some(finisher)
    }
}

/// The resolution after a whole sequence of completion events, applied in
/// order of arrival.
pub open spec fn resolve_all(events: Seq<usize>) -> Option<usize>
    decreases events.len(),
{
    if events.len() == 0 {
        None
    } else {
        resolve_step(resolve_all(events.drop_last()), events.last())
    }
}

/// Race resolution is exactly first-completion-wins: whatever completions
/// arrive after the first, the resolved winner is the participant whose
/// completion arrived first.
pub proof fn lemma_first_completion_wins(events: Seq<usize>)
    requires
        events.len() > 0,
    ensures
        resolve_all(events) == Some(events[0]),
    decreases events.len(),
{
    if events.len() == 1 {
        assert(events.drop_last().len() == 0);
        assert(resolve_all(events.drop_last()) is None);
        assert(events.last() == events[0]);
    } else {
        lemma_first_completion_wins(events.drop_last());
        assert(events.drop_last()[0] == events[0]);
    }
}

/// Tracks a running race over a fixed field of participants: which
/// completion, if any, has settled it.
pub struct RaceCoordinator {
    participant_count: usize,
    winner: Option<usize>,
}

impl RaceCoordinator {
    /// The settled winner, if any completion has arrived yet.
    pub closed spec fn spec_winner(&self) -> Option<usize> {
        self.winner
    }

    /// How many participants race.
    pub closed spec fn spec_count(&self) -> nat {
        self.participant_count as nat
    }

    /// A settled winner is always one of the participants.
    pub closed spec fn wf(&self) -> bool {
        self.winner is Some ==> (self.winner->0 as nat) < self.spec_count()
    }

    /// A race over `participant_count` participants, with no completion
    /// observed yet.
    pub fn new(participant_count: usize) -> (r: RaceCoordinator)
        ensures
            r.spec_winner() is None,
            r.spec_count() == participant_count,
            r.wf(),
    {
        RaceCoordinator { participant_count, winner: None }
    }

    /// Records one completion event: the first one settles the race, later
    /// ones change nothing.
    pub fn on_completion(&mut self, finisher: usize)
        requires
            old(self).wf(),
            finisher < old(self).spec_count(),
        ensures
            final(self).spec_winner() == resolve_step(old(self).spec_winner(), finisher),
            final(self).spec_count() == old(self).spec_count(),
            final(self).wf(),
    {
        if self.winner.is_none() {
            self.winner = Some(finisher);
        }
    }

    /// The settled winner, if any.
    pub fn winner(&self) -> (r: Option<usize>)
        ensures
            r == self.spec_winner(),
    {
        self.winner
    }

    /// The participants to tear down once the race has settled: exactly
    /// every participant except the winner, in launch order. The runtime
    /// drops their handles, which kills the still-running children.
    pub fn losers(&self) -> (r: Vec<usize>)
        requires
            self.wf(),
            self.spec_winner() is Some,
        ensures
            r@.len() == self.spec_count() - 1,
            forall|i: int|
                0 <= i < r@.len() ==> r@[i] == if i < self.spec_winner()->0 {
                    i
                } else {
                    i + 1
                },
    {
        let winner = match self.winner {
            Some(w) => w,
            None => 0,  // unreachable: a settled winner is required
        };
        let mut out: Vec<usize> = Vec::new();
        let mut p: usize = 0;
        while p < self.participant_count
            invariant
                p <= self.participant_count,
                winner < self.participant_count,
                out@.len() == if p <= winner {
                    p as int
                } else {
                    p - 1
                },
                forall|i: int|
                    0 <= i < out@.len() ==> out@[i] == if i < winner {
                        i
                    } else {
                        i + 1
                    },
            decreases self.participant_count - p,
        {
            if p != winner {
                out.push(p);
            }
            p = p + 1;
        }
        out
    }
}

/// The text reported for the winning participant: the expected tag when the
/// short-lived child wins, the anomaly tag when a long-running one does.
pub open spec fn winner_message_of(kind: ParticipantKind) -> Seq<char> {
    if kind == ParticipantKind::ShortLived {
        "short_lived finished"@
    } else {
        "Should not happen"@
    }
}

/// What resolving the race reports and propagates. Errors of losing
/// participants are discarded with their dropped tasks; only the winner's
/// outcome is ever user-visible.
pub struct RaceResolution {
    pub winner: usize,
    pub message: String,
}

/// Resolves the race from its first completion event: if the winner
/// succeeded, the resolution names it and carries its report line; if the
/// winner failed, that failure — and no other — propagates.
pub fn resolve_race(
    participants: &Vec<Participant>,
    finisher: usize,
    outcome: Result<(), SupervisorError>,
) -> (r: Result<RaceResolution, SupervisorError>)
    requires
        finisher < participants@.len(),
    ensures
        outcome is Ok ==> r is Ok && r->Ok_0.winner == finisher && r->Ok_0.message@
            == winner_message_of(participants@[finisher as int].kind),
        outcome is Err ==> r is Err && r->Err_0 == outcome->Err_0,
{
    match outcome {
        Ok(()) => {
            let message = if participants[finisher].kind == ParticipantKind::ShortLived {
                String::from_str("short_lived finished")
            } else {
                String::from_str("Should not happen")
            };
            Ok(RaceResolution { winner: finisher, message })
        },
        Err(e) => Err(e),
    }
}

} // verus!
