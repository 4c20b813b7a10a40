use vstd::prelude::*;

verus! {

/// The largest candidate value of the 64-bit search space.
pub const MAX_CANDIDATE: u64 = 0xffff_ffff_ffff_ffff;

/// The number of candidates each of `t` units owns: `MAX_CANDIDATE / t`, rounded down.
pub open spec fn share_width(t: nat) -> nat {
    MAX_CANDIDATE as nat / t
}

/// The first candidate of unit `i` among `t` units.
pub open spec fn share_start(t: nat, i: nat) -> nat {
    share_width(t) * i
}

/// The slice of the search space that one search unit walks: `[start, start + width)`.
#[derive(Debug, Clone, Copy, PartialEq, Eq, Structural)]
pub struct UnitRange {
    pub start: u64,
    pub width: u64,
}

impl UnitRange {
    /// The range lies inside the search space.
    pub open spec fn wf(&self) -> bool {
        self.start as nat + self.width as nat <= MAX_CANDIDATE as nat
    }

    /// The range is the share of unit `i` among `t` units.
    pub open spec fn is_share(&self, t: nat, i: nat) -> bool {
        &&& self.start as nat == share_start(t, i)
        &&& self.width as nat == share_width(t)
    }
}

proof fn lemma_share_fits(t: nat, i: nat)
    requires
        1 <= t,
        i < t,
    ensures
        share_start(t, i) + share_width(t) <= share_width(t) * t,
        share_width(t) * t <= MAX_CANDIDATE as nat,
        MAX_CANDIDATE as nat - share_width(t) * t < t,
{
    let w = share_width(t);
    let m = MAX_CANDIDATE as nat;
    assert(w * i + w == w * (i + 1)) by (nonlinear_arith);
    assert(w * (i + 1) <= w * t) by (nonlinear_arith)
        requires
            i + 1 <= t,
    ;
    assert(w * t <= m && m - w * t < t) by (nonlinear_arith)
        requires
            w == m / t,
            1 <= t,
    ;
}

/// The share of unit `index` among `total_threads` units.
pub fn unit_range(total_threads: u64, index: u64) -> (r: UnitRange)
    requires
        1 <= total_threads,
        index < total_threads,
    ensures
        r.is_share(total_threads as nat, index as nat),
        r.wf(),
{
    let width = MAX_CANDIDATE / total_threads;
    proof {
        lemma_share_fits(total_threads as nat, index as nat);
    }
    let start = width * index;
    UnitRange { start, width }
}

/// The partition plan: one range per unit, unit `k` at position `k`.
pub fn partition_plan(total_threads: u64) -> (r: Vec<UnitRange>)
    requires
        1 <= total_threads,
    ensures
        r@.len() == total_threads,
        forall|k: int| 0 <= k < r@.len() ==> #[trigger] r@[k].is_share(total_threads as nat, k as nat),
        forall|k: int| 0 <= k < r@.len() ==> #[trigger] r@[k].wf(),
{
    let mut plan: Vec<UnitRange> = Vec::new();
    let mut k: u64 = 0;
    while k < total_threads
        invariant
            1 <= total_threads,
            k <= total_threads,
            plan@.len() == k,
            forall|j: int| 0 <= j < k ==> #[trigger] plan@[j].is_share(total_threads as nat, j as nat),
            forall|j: int| 0 <= j < k ==> #[trigger] plan@[j].wf(),
        decreases total_threads - k,
    {
        let unit = unit_range(total_threads, k);
        plan.push(unit);
        k = k + 1;
    }
    plan
}

/// For every unit count `t >= 1`, the shares of two distinct units never
/// overlap, every share holds `MAX_CANDIDATE / t` candidates, all shares
/// lie inside the search space, and the unassigned remainder at its top is
/// smaller than `t`.
pub proof fn lemma_partition_disjoint(t: nat, i: nat, j: nat)
    requires
        1 <= t,
        i < t,
        j < t,
    ensures
        i < j ==> share_start(t, i) + share_width(t) <= share_start(t, j),
        i != j ==> (share_start(t, i) + share_width(t) <= share_start(t, j)
            || share_start(t, j) + share_width(t) <= share_start(t, i)),
        share_start(t, i) + share_width(t) <= MAX_CANDIDATE as nat,
        share_start(t, (t - 1) as nat) + share_width(t) == share_width(t) * t,
        MAX_CANDIDATE as nat - share_width(t) * t < t,
{
    let w = share_width(t);
    lemma_share_fits(t, i);
    lemma_share_fits(t, j);
    assert(w * (t - 1) + w == w * t) by (nonlinear_arith)
        requires
            1 <= t,
    ;
    if i < j {
        assert(w * i + w <= w * j) by (nonlinear_arith)
            requires
                i < j,
        ;
    }
    if j < i {
        assert(w * j + w <= w * i) by (nonlinear_arith)
            requires
                j < i,
        ;
    }
}

} // verus!
