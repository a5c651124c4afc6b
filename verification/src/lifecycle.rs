use vstd::prelude::*;

verus! {

/// The caller's view of a position's lifecycle. The authoritative per-bin
/// liquidity lives in the settlement engine, so `Open` and `Empty` encode
/// what the caller can assert, not observed on-chain state, and
/// `Draining` is a momentary state while a withdrawal is logically in
/// flight — it is validated against but never persisted.
#[derive(Clone, Copy, Debug, PartialEq, Eq, Structural)]
pub enum LifecycleState {
    /// The position exists and may hold liquidity.
    Open,
    /// A withdrawal is logically in flight.
    Draining,
    /// Every bin is asserted drained; accrued fees may remain unclaimed.
    Empty,
    /// Terminal: the position account was destroyed and its reserved
    /// storage cost reclaimed.
    Closed,
}

/// The four lifecycle operations this layer gates.
#[derive(Clone, Copy, Debug, PartialEq, Eq, Structural)]
pub enum Operation {
    /// Fund one side of the position (token X or Y) across weighted bins.
    Fund,
    /// Withdraw from selected bins by basis points. `drains_all` is the
    /// caller's assertion that the table zeroes every bin holding
    /// liquidity; this layer cannot observe on-chain liquidity, so without
    /// that assertion the position is conservatively still `Open`.
    RemoveSelective { drains_all: bool },
    /// Withdraw all liquidity from every bin.
    RemoveAll,
    /// Destroy the position account and reclaim its storage cost.
    Close,
}

/// The transition relation: the state after `op`, or `None` where `op` is
/// not legal in `s`. Funding is legal whenever the position is open;
/// withdrawing is legal while it is open and, for the all-bins variant,
/// also when it is already empty (validation must not depend on a
/// liquidity level this layer cannot observe); closing is legal only once
/// every bin is asserted drained; nothing leaves `Closed`, and no new
/// operation may start while one is in flight.
pub open spec fn next_state(s: LifecycleState, op: Operation) -> Option<LifecycleState> {
    match (s, op) {
        (LifecycleState::Open, Operation::Fund) => Some(LifecycleState::Open),
        (LifecycleState::Open, Operation::RemoveSelective { drains_all }) => Some(
            if drains_all {
                LifecycleState::Empty
            } else {
                LifecycleState::Open
            },
        ),
        (LifecycleState::Open, Operation::RemoveAll) => Some(LifecycleState::Empty),
        (LifecycleState::Empty, Operation::RemoveAll) => Some(LifecycleState::Empty),
        (LifecycleState::Empty, Operation::Close) => Some(LifecycleState::Closed),
        _ => None,
    }
}

/// Gate one lifecycle operation: the state it leads to, or `None` where it
/// is illegal in the current state.
pub fn advance(s: LifecycleState, op: Operation) -> (r: Option<LifecycleState>)
    ensures
        r == next_state(s, op),
{
    match (s, op) {
        (LifecycleState::Open, Operation::Fund) => Some(LifecycleState::Open),
        (LifecycleState::Open, Operation::RemoveSelective { drains_all }) => Some(
            if drains_all {
                LifecycleState::Empty
            } else {
                LifecycleState::Open
            },
        ),
        (LifecycleState::Open, Operation::RemoveAll) => Some(LifecycleState::Empty),
        (LifecycleState::Empty, Operation::RemoveAll) => Some(LifecycleState::Empty),
        (LifecycleState::Empty, Operation::Close) => Some(LifecycleState::Closed),
        _ => None,
    }
}

/// Withdrawing everything is idempotent: it is accepted from an
/// already-empty position exactly as from an open one, and lands in the
/// same state, because this layer never rejects based on a liquidity level
/// it cannot observe.
pub proof fn lemma_remove_all_idempotent()
    ensures
        next_state(LifecycleState::Open, Operation::RemoveAll) == Some(LifecycleState::Empty),
        next_state(LifecycleState::Empty, Operation::RemoveAll) == next_state(
            LifecycleState::Open,
            Operation::RemoveAll,
        ),
        next_state(LifecycleState::Empty, Operation::RemoveAll) == Some(LifecycleState::Empty),
{
}

/// `Closed` is terminal: no operation leaves it.
pub proof fn lemma_closed_is_terminal(op: Operation)
    ensures
        next_state(LifecycleState::Closed, op) is None,
{
}

/// No new operation may start while a withdrawal is logically in flight.
pub proof fn lemma_draining_blocks(op: Operation)
    ensures
        next_state(LifecycleState::Draining, op) is None,
{
}

} // verus!
