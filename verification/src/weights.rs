use crate::errors::LiquidityError;
use crate::position::{Position, Side};
use vstd::prelude::*;

verus! {

/// One entry of a caller-supplied weighted deposit distribution: a target
/// bin and its relative weight. Weights are ratios only; their sum is not
/// required to reach any particular total.
#[derive(Clone, Copy, Debug, PartialEq, Eq, Structural)]
pub struct BinWeight {
    pub bin_id: i32,
    pub weight: u16,
}

/// Side rule for a single-sided deposit: token X deploys only strictly
/// above the active bin, token Y only at or below it.
pub open spec fn side_ok(side: Side, active_id: int, bin_id: int) -> bool {
    match side {
        Side::X => bin_id > active_id,
        Side::Y => bin_id <= active_id,
    }
}

/// No bin is listed twice in the distribution.
pub open spec fn weights_distinct(dist: Seq<BinWeight>) -> bool {
    forall|i: int, j: int| 0 <= i < j < dist.len() ==> dist[i].bin_id != dist[j].bin_id
}

/// Verdict on entries `i..` of the distribution. Entries are checked in
/// order; for each entry a duplicate of an earlier bin is reported first,
/// then a bin outside the position's range, then a bin on the wrong side
/// of the active bin. The first failing entry decides the error.
pub open spec fn deposit_entries_verdict(
    p: Position,
    side: Side,
    active_id: int,
    dist: Seq<BinWeight>,
    i: int,
) -> Result<(), LiquidityError>
    decreases dist.len() - i,
{
    if i < 0 || i >= dist.len() {
        Ok(())
    } else if exists|j: int| 0 <= j < i && dist[j].bin_id == dist[i].bin_id {
        Err(LiquidityError::DuplicateBin { bin_id: dist[i].bin_id })
    } else if !p.contains(dist[i].bin_id as int) {
        Err(LiquidityError::BinOutOfRange { bin_id: dist[i].bin_id })
    } else if !side_ok(side, active_id, dist[i].bin_id as int) {
        Err(LiquidityError::InvalidBinSide { bin_id: dist[i].bin_id })
    } else {
        deposit_entries_verdict(p, side, active_id, dist, i + 1)
    }
}

/// Verdict of deposit admission control: the slippage bound's shape is
/// checked first, then non-emptiness, then the entries in order.
pub open spec fn normalize_verdict(
    p: Position,
    side: Side,
    active_id: int,
    max_active_bin_slippage: int,
    dist: Seq<BinWeight>,
) -> Result<(), LiquidityError> {
    if max_active_bin_slippage < 0 {
        Err(LiquidityError::InvalidSlippageBound)
    } else if dist.len() == 0 {
        Err(LiquidityError::EmptyDistribution)
    } else {
        deposit_entries_verdict(p, side, active_id, dist, 0)
    }
}

/// All conditions a deposit must meet, stated in quantified form.
pub open spec fn deposit_admissible(
    p: Position,
    side: Side,
    active_id: int,
    max_active_bin_slippage: int,
    dist: Seq<BinWeight>,
) -> bool {
    &&& max_active_bin_slippage >= 0
    &&& dist.len() > 0
    &&& weights_distinct(dist)
    &&& forall|i: int|
        0 <= i < dist.len() ==> p.contains(dist[i].bin_id as int) && side_ok(
            side,
            active_id,
            dist[i].bin_id as int,
        )
}

proof fn lemma_entries_ok_iff(p: Position, side: Side, active_id: int, dist: Seq<BinWeight>, i: int)
    requires
        0 <= i <= dist.len(),
    ensures
        deposit_entries_verdict(p, side, active_id, dist, i) is Ok <==> forall|k: int|
            i <= k < dist.len() ==> {
                &&& forall|j: int| 0 <= j < k ==> dist[j].bin_id != dist[k].bin_id
                &&& p.contains(dist[k].bin_id as int)
                &&& side_ok(side, active_id, dist[k].bin_id as int)
            },
    decreases dist.len() - i,
{
    if i < dist.len() {
        lemma_entries_ok_iff(p, side, active_id, dist, i + 1);
    }
}

/// A deposit passes admission control exactly when the slippage bound is
/// non-negative, the distribution is non-empty, no bin repeats, and every
/// bin lies in the position's range on the legal side of the active bin.
pub proof fn lemma_normalize_ok_iff(
    p: Position,
    side: Side,
    active_id: int,
    max_active_bin_slippage: int,
    dist: Seq<BinWeight>,
)
    ensures
        normalize_verdict(p, side, active_id, max_active_bin_slippage, dist) is Ok
            <==> deposit_admissible(p, side, active_id, max_active_bin_slippage, dist),
{
    if max_active_bin_slippage >= 0 && dist.len() > 0 {
        lemma_entries_ok_iff(p, side, active_id, dist, 0);
    }
}

/// On side X the admissible bins form the window strictly above the
/// active bin. When that window begins inside the position's range,
/// admission succeeds exactly when every listed bin satisfies
/// `active_id < bin_id <= upper_bin_id`.
pub proof fn lemma_side_x_window(
    p: Position,
    active_id: int,
    max_active_bin_slippage: int,
    dist: Seq<BinWeight>,
)
    requires
        p.wf(),
        p.lower_bin_id <= active_id + 1,
        max_active_bin_slippage >= 0,
        dist.len() > 0,
        weights_distinct(dist),
    ensures
        normalize_verdict(p, Side::X, active_id, max_active_bin_slippage, dist) is Ok
            <==> forall|i: int|
            0 <= i < dist.len() ==> active_id < (#[trigger] dist[i]).bin_id <= p.upper_bin_id,
{
    lemma_normalize_ok_iff(p, Side::X, active_id, max_active_bin_slippage, dist);
}

/// On side Y the admissible bins form the window at or below the active
/// bin. When that window ends inside the position's range, admission
/// succeeds exactly when every listed bin satisfies
/// `lower_bin_id <= bin_id <= active_id`.
pub proof fn lemma_side_y_window(
    p: Position,
    active_id: int,
    max_active_bin_slippage: int,
    dist: Seq<BinWeight>,
)
    requires
        p.wf(),
        active_id <= p.upper_bin_id,
        max_active_bin_slippage >= 0,
        dist.len() > 0,
        weights_distinct(dist),
    ensures
        normalize_verdict(p, Side::Y, active_id, max_active_bin_slippage, dist) is Ok
            <==> forall|i: int|
            0 <= i < dist.len() ==> p.lower_bin_id <= (#[trigger] dist[i]).bin_id <= active_id,
{
    lemma_normalize_ok_iff(p, Side::Y, active_id, max_active_bin_slippage, dist);
}

/// A deposit plan that passed admission control, ready to be packaged for
/// hand-off. Splitting `amount` across the bins proportionally to the
/// weights is owned by the settlement engine, not this layer.
#[derive(Clone, Debug)]
pub struct ValidatedDeposit {
    pub side: Side,
    pub amount: u64,
    pub active_id: i32,
    pub max_active_bin_slippage: i32,
    pub distribution: Vec<BinWeight>,
}

impl ValidatedDeposit {
    /// What admission control established, relative to position `p`.
    pub open spec fn admissible_for(self, p: Position) -> bool {
        deposit_admissible(
            p,
            self.side,
            self.active_id as int,
            self.max_active_bin_slippage as int,
            self.distribution@,
        )
    }
}

/// Admission control for a single-sided deposit: every listed bin must lie
/// inside the position's range on the legal side of the caller-observed
/// active bin, no bin may repeat, the distribution must be non-empty, and
/// the slippage bound must be non-negative. On success the inputs are
/// returned unchanged as a validated plan; on failure the error names the
/// violated invariant and the offending bin, as `normalize_verdict` fixes
/// it.
pub fn normalize(
    p: &Position,
    side: Side,
    amount: u64,
    active_id: i32,
    max_active_bin_slippage: i32,
    distribution: Vec<BinWeight>,
) -> (r: Result<ValidatedDeposit, LiquidityError>)
    ensures
        match r {
            Ok(d) => {
                &&& normalize_verdict(
                    *p,
                    side,
                    active_id as int,
                    max_active_bin_slippage as int,
                    distribution@,
                ) is Ok
                &&& d.side == side
                &&& d.amount == amount
                &&& d.active_id == active_id
                &&& d.max_active_bin_slippage == max_active_bin_slippage
                &&& d.distribution@ == distribution@
                &&& d.admissible_for(*p)
            },
            Err(e) => normalize_verdict(
                *p,
                side,
                active_id as int,
                max_active_bin_slippage as int,
                distribution@,
            ) == Err::<(), LiquidityError>(e),
        },
{
    if max_active_bin_slippage < 0 {
        return Err(LiquidityError::InvalidSlippageBound);
    }
    if distribution.len() == 0 {
        return Err(LiquidityError::EmptyDistribution);
    }
    let ghost gdist = distribution@;
    let mut i: usize = 0;
    while i < distribution.len()
        invariant
            i <= distribution.len(),
            gdist == distribution@,
            max_active_bin_slippage >= 0,
            gdist.len() > 0,
            deposit_entries_verdict(*p, side, active_id as int, gdist, 0)
                == deposit_entries_verdict(*p, side, active_id as int, gdist, i as int),
        decreases distribution.len() - i,
    {
        let bin = distribution[i].bin_id;
        let mut j: usize = 0;
        while j < i
            invariant
                j <= i < distribution.len(),
                gdist == distribution@,
                bin == gdist[i as int].bin_id,
                forall|t: int| 0 <= t < j ==> gdist[t].bin_id != gdist[i as int].bin_id,
                max_active_bin_slippage >= 0,
                deposit_entries_verdict(*p, side, active_id as int, gdist, 0)
                    == deposit_entries_verdict(*p, side, active_id as int, gdist, i as int),
            decreases i - j,
        {
            if distribution[j].bin_id == bin {
                proof {
                    assert(exists|t: int|
                        0 <= t < i && gdist[t].bin_id == gdist[i as int].bin_id) by {
                        assert(gdist[j as int].bin_id == gdist[i as int].bin_id);
                    }
                }
                return Err(LiquidityError::DuplicateBin { bin_id: bin });
            }
            j += 1;
        }
        if bin < p.lower_bin_id || bin > p.upper_bin_id {
            return Err(LiquidityError::BinOutOfRange { bin_id: bin });
        }
        let on_side = match side {
            Side::X => bin > active_id,
            Side::Y => bin <= active_id,
        };
        if !on_side {
            return Err(LiquidityError::InvalidBinSide { bin_id: bin });
        }
        i += 1;
    }
    proof {
        lemma_normalize_ok_iff(
            *p,
            side,
            active_id as int,
            max_active_bin_slippage as int,
            gdist,
        );
    }
    Ok(ValidatedDeposit { side, amount, active_id, max_active_bin_slippage, distribution })
}

} // verus!
