//! The retry loop of an architecture without a single-instruction swap or
//! compare-exchange, as a state machine: the caller performs each action on
//! the machine and hands back what it observed.
use vstd::prelude::*;

verus! {

/// The operation that the loop carries out on a word.
#[derive(Clone, Copy, Debug, PartialEq, Eq, Structural)]
pub enum LoopOp {
    /// Store `new` whatever the word holds.
    Swap { new: u64 },
    /// Store `new` only where the word holds `expected`.
    CompareExchange { expected: u64, new: u64 },
}

impl LoopOp {
    pub open spec fn spec_new(self) -> u64 {
        match self {
            LoopOp::Swap { new } => new,
            LoopOp::CompareExchange { new, .. } => new,
        }
    }

    /// Whether the loop goes on to store after observing `current`.
    pub open spec fn spec_proceeds(self, current: u64) -> bool {
        match self {
            LoopOp::Swap { .. } => true,
            LoopOp::CompareExchange { expected, .. } => current == expected,
        }
    }
}

/// Where the loop stands.
#[derive(Clone, Copy, Debug, PartialEq, Eq, Structural)]
pub enum LoopState {
    /// About to load the word exclusively.
    Start,
    /// The word was loaded and held `current`; the conditional store is pending.
    Loaded { current: u64 },
    /// The store committed over `prior`. Terminal.
    Done { prior: u64 },
    /// The comparison failed against `prior`; nothing was stored. Terminal.
    Aborted { prior: u64 },
}

/// What the caller observed after the last action.
#[derive(Clone, Copy, Debug, PartialEq, Eq, Structural)]
pub enum LoopEvent {
    /// The exclusive load returned `value`.
    Loaded { value: u64 },
    /// The conditional store committed, or lost its reservation.
    Stored { committed: bool },
}

/// What the caller does next.
#[derive(Clone, Copy, Debug, PartialEq, Eq, Structural)]
pub enum LoopAction {
    /// Load the word and take a reservation on it.
    LoadExclusive,
    /// Store `value` if the reservation still holds.
    StoreConditional { value: u64 },
    /// Give up the reservation without storing, and finish.
    ClearReservation,
    /// Finish: the operation is complete.
    Finish,
}

/// The events that a state can receive: a load result at the start, a store
/// result after a load; none once the loop has ended.
pub open spec fn expects(state: LoopState, event: LoopEvent) -> bool {
    match state {
        LoopState::Start => event is Loaded,
        LoopState::Loaded { .. } => event is Stored,
        _ => false,
    }
}

/// The first action of every run.
pub fn begin() -> (r: (LoopState, LoopAction))
    ensures
        r == (LoopState::Start, LoopAction::LoadExclusive),
{
    (LoopState::Start, LoopAction::LoadExclusive)
}

/// One transition. After an exclusive load, a compare-exchange whose
/// comparison fails releases the reservation and aborts; otherwise the new
/// value is offered to the conditional store. A store that loses its
/// reservation goes back to loading; one that commits ends the loop.
pub open spec fn spec_step(op: LoopOp, state: LoopState, event: LoopEvent) -> (LoopState, LoopAction) {
    match (state, event) {
        (LoopState::Start, LoopEvent::Loaded { value }) => if op.spec_proceeds(value) {
            (LoopState::Loaded { current: value }, LoopAction::StoreConditional {
                value: op.spec_new(),
            })
        } else {
            (LoopState::Aborted { prior: value }, LoopAction::ClearReservation)
        },
        (LoopState::Loaded { current }, LoopEvent::Stored { committed }) => if committed {
            (LoopState::Done { prior: current }, LoopAction::Finish)
        } else {
            (LoopState::Start, LoopAction::LoadExclusive)
        },
        _ => (state, LoopAction::Finish),
    }
}

pub fn step(op: LoopOp, state: LoopState, event: LoopEvent) -> (r: (LoopState, LoopAction))
    requires
        expects(state, event),
    ensures
        r == spec_step(op, state, event),
{
    match (state, event) {
        (LoopState::Start, LoopEvent::Loaded { value }) => {
            let proceeds = match op {
                LoopOp::Swap { .. } => true,
                LoopOp::CompareExchange { expected, .. } => value == expected,
            };
            if proceeds {
                let new = match op {
                    LoopOp::Swap { new } => new,
                    LoopOp::CompareExchange { new, .. } => new,
                };
                (LoopState::Loaded { current: value }, LoopAction::StoreConditional { value: new })
            } else {
                (LoopState::Aborted { prior: value }, LoopAction::ClearReservation)
            }
        },
        (LoopState::Loaded { current }, LoopEvent::Stored { committed }) => {
            if committed {
                (LoopState::Done { prior: current }, LoopAction::Finish)
            } else {
                (LoopState::Start, LoopAction::LoadExclusive)
            }
        },
        _ => (state, LoopAction::Finish),
    }
}

/// The state in which a run ends on a word that holds `word` throughout:
/// each exclusive load observes `word`, and the conditional stores commit or
/// not as `commits` says, one entry for each store attempted. A run that
/// uses up `commits` without ending is back at the start.
pub open spec fn run(op: LoopOp, word: u64, commits: Seq<bool>) -> LoopState
    decreases commits.len(),
{
    let (loaded, _) = spec_step(op, LoopState::Start, LoopEvent::Loaded { value: word });
    if loaded is Aborted || commits.len() == 0 {
        if loaded is Aborted {
            loaded
        } else {
            LoopState::Start
        }
    } else {
        let (stored, _) = spec_step(op, loaded, LoopEvent::Stored { committed: commits[0] });
        if stored is Done {
            stored
        } else {
            run(op, word, commits.drop_first())
        }
    }
}

/// On a word that no other writer changes, the loop ends at the first store
/// that commits, however many before it lost their reservation: a swap, or a
/// compare-exchange that finds `expected`, is done over the word; any other
/// compare-exchange aborts at its first load.
pub proof fn lemma_run_ends(op: LoopOp, word: u64, commits: Seq<bool>, k: int)
    requires
        0 <= k < commits.len(),
        commits[k],
    ensures
        run(op, word, commits) == (if op.spec_proceeds(word) {
            LoopState::Done { prior: word }
        } else {
            LoopState::Aborted { prior: word }
        }),
    decreases k,
{
    if op.spec_proceeds(word) && !commits[0] {
        assert(commits.drop_first()[k - 1] == commits[k]);
        lemma_run_ends(op, word, commits.drop_first(), k - 1);
    }
}

} // verus!
