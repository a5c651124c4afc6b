use crate::errors::LiquidityError;
use crate::position::Position;
use vstd::prelude::*;

verus! {

/// Basis points denoting full removal of a bin's liquidity.
pub const FULL_REMOVAL_BPS: u16 = 10000;

/// One entry of a caller-supplied partial-withdrawal table: a bin and the
/// basis points of its liquidity to remove. Bins not listed are left
/// untouched.
#[derive(Clone, Copy, Debug, PartialEq, Eq, Structural)]
pub struct BinReduction {
    pub bin_id: i32,
    pub bps_to_remove: u16,
}

/// No bin is listed twice in the reduction table.
pub open spec fn reductions_distinct(table: Seq<BinReduction>) -> bool {
    forall|i: int, j: int| 0 <= i < j < table.len() ==> table[i].bin_id != table[j].bin_id
}

/// Verdict on entries `i..` of the reduction table. Entries are checked in
/// order; for each entry a duplicate of an earlier bin is reported first,
/// then a bin outside the position's range, then a basis-point value above
/// full removal. The first failing entry decides the error.
pub open spec fn reduction_entries_verdict(
    p: Position,
    table: Seq<BinReduction>,
    i: int,
) -> Result<(), LiquidityError>
    decreases table.len() - i,
{
    if i < 0 || i >= table.len() {
        Ok(())
    } else if exists|j: int| 0 <= j < i && table[j].bin_id == table[i].bin_id {
        Err(LiquidityError::DuplicateBin { bin_id: table[i].bin_id })
    } else if !p.contains(table[i].bin_id as int) {
        Err(LiquidityError::BinOutOfRange { bin_id: table[i].bin_id })
    } else if table[i].bps_to_remove > FULL_REMOVAL_BPS {
        Err(LiquidityError::BpsOutOfRange { bin_id: table[i].bin_id, bps: table[i].bps_to_remove })
    } else {
        reduction_entries_verdict(p, table, i + 1)
    }
}

/// Verdict of selective-withdrawal admission control. An empty table is
/// legal only for the all-bins withdrawal, which carries no table at all;
/// a selective withdrawal must name at least one bin.
pub open spec fn selective_verdict(p: Position, table: Seq<BinReduction>) -> Result<
    (),
    LiquidityError,
> {
    if table.len() == 0 {
        Err(LiquidityError::EmptyReduction)
    } else {
        reduction_entries_verdict(p, table, 0)
    }
}

/// All conditions a selective withdrawal must meet, in quantified form.
pub open spec fn reduction_admissible(p: Position, table: Seq<BinReduction>) -> bool {
    &&& table.len() > 0
    &&& reductions_distinct(table)
    &&& forall|i: int|
        0 <= i < table.len() ==> p.contains((#[trigger] table[i]).bin_id as int)
            && table[i].bps_to_remove <= FULL_REMOVAL_BPS
}

proof fn lemma_reduction_entries_ok_iff(p: Position, table: Seq<BinReduction>, i: int)
    requires
        0 <= i <= table.len(),
    ensures
        reduction_entries_verdict(p, table, i) is Ok <==> forall|k: int|
            i <= k < table.len() ==> {
                &&& forall|j: int| 0 <= j < k ==> table[j].bin_id != table[k].bin_id
                &&& p.contains(table[k].bin_id as int)
                &&& table[k].bps_to_remove <= FULL_REMOVAL_BPS
            },
    decreases table.len() - i,
{
    if i < table.len() {
        lemma_reduction_entries_ok_iff(p, table, i + 1);
    }
}

/// A non-empty reduction table passes admission control exactly when every
/// basis-point value is at most full removal, every bin lies in the
/// position's range, and no bin repeats.
pub proof fn lemma_selective_ok_iff(p: Position, table: Seq<BinReduction>)
    ensures
        selective_verdict(p, table) is Ok <==> reduction_admissible(p, table),
{
    if table.len() > 0 {
        lemma_reduction_entries_ok_iff(p, table, 0);
    }
}

/// A withdrawal table that passed admission control, ready to be packaged
/// for hand-off.
#[derive(Clone, Debug)]
pub struct ValidatedReduction {
    pub table: Vec<BinReduction>,
    /// Whether any entry removes zero basis points: legal but a no-op, and
    /// worth surfacing to naive callers as an anomaly rather than an error.
    pub has_noop_entries: bool,
}

impl ValidatedReduction {
    /// What admission control established, relative to position `p`.
    pub open spec fn admissible_for(self, p: Position) -> bool {
        reduction_admissible(p, self.table@)
    }
}

/// Admission control for a selective withdrawal: the table must be
/// non-empty, every bin inside the position's range, every basis-point
/// value at most full removal, and no bin listed twice. On success the
/// table is returned unchanged, with a flag marking no-op (zero
/// basis-point) entries; on failure the error names the violated invariant
/// and the offending bin, as `selective_verdict` fixes it.
pub fn validate_selective(p: &Position, table: Vec<BinReduction>) -> (r: Result<
    ValidatedReduction,
    LiquidityError,
>)
    ensures
        match r {
            Ok(v) => {
                &&& selective_verdict(*p, table@) is Ok
                &&& v.table@ == table@
                &&& v.admissible_for(*p)
                &&& v.has_noop_entries <==> exists|i: int|
                    0 <= i < table@.len() && (#[trigger] table@[i]).bps_to_remove == 0
            },
            Err(e) => selective_verdict(*p, table@) == Err::<(), LiquidityError>(e),
        },
{
    if table.len() == 0 {
        return Err(LiquidityError::EmptyReduction);
    }
    let ghost gtable = table@;
    let mut has_noop: bool = false;
    let mut i: usize = 0;
    while i < table.len()
        invariant
            i <= table.len(),
            gtable == table@,
            gtable.len() > 0,
            reduction_entries_verdict(*p, gtable, 0) == reduction_entries_verdict(
                *p,
                gtable,
                i as int,
            ),
            has_noop <==> exists|t: int| 0 <= t < i && (#[trigger] gtable[t]).bps_to_remove == 0,
        decreases table.len() - i,
    {
        let bin = table[i].bin_id;
        let mut j: usize = 0;
        while j < i
            invariant
                j <= i < table.len(),
                gtable == table@,
                bin == gtable[i as int].bin_id,
                forall|t: int| 0 <= t < j ==> gtable[t].bin_id != gtable[i as int].bin_id,
                reduction_entries_verdict(*p, gtable, 0) == reduction_entries_verdict(
                    *p,
                    gtable,
                    i as int,
                ),
            decreases i - j,
        {
            if table[j].bin_id == bin {
                proof {
                    assert(exists|t: int|
                        0 <= t < i && gtable[t].bin_id == gtable[i as int].bin_id) by {
                        assert(gtable[j as int].bin_id == gtable[i as int].bin_id);
                    }
                }
                return Err(LiquidityError::DuplicateBin { bin_id: bin });
            }
            j += 1;
        }
        if bin < p.lower_bin_id || bin > p.upper_bin_id {
            return Err(LiquidityError::BinOutOfRange { bin_id: bin });
        }
        let bps = table[i].bps_to_remove;
        if bps > FULL_REMOVAL_BPS {
            return Err(LiquidityError::BpsOutOfRange { bin_id: bin, bps });
        }
        if bps == 0 {
            has_noop = true;
        }
        i += 1;
    }
    proof {
        lemma_selective_ok_iff(*p, gtable);
    }
    Ok(ValidatedReduction { table, has_noop_entries: has_noop })
}

} // verus!
