use vstd::prelude::*;
use std::time::Instant;
use crate::challenge::{Challenge, digest_view, drillx_hash_of};
use crate::partition::UnitRange;

verus! {

/// A reading of std's monotonic clock, carried opaquely.
#[verifier::external_type_specification]
#[verifier::external_body]
pub struct ExInstant(std::time::Instant);

/// Relies on `Instant::now`: a reading of the monotonic clock.
pub assume_specification[ std::time::Instant::now ]() -> std::time::Instant;

/// Relies on `Instant::elapsed`: the time passed since the reading.
pub assume_specification[ std::time::Instant::elapsed ](i: &std::time::Instant) -> core::time::Duration;

/// Relies on `Duration::as_secs`: the whole seconds of a duration.
pub assume_specification[ core::time::Duration::as_secs ](d: &core::time::Duration) -> u64;

/// What one search unit did: how many candidates it hashed, the last
/// elapsed time, in whole seconds, that it read from its clock, and the
/// digest of the last candidate it hashed.
#[derive(Debug, Clone, Copy, PartialEq, Eq)]
pub struct UnitOutcome {
    pub examined: u64,
    pub elapsed_secs: u64,
    pub last_digest: Option<[u8; 32]>,
}

/// A unit stops only once its budget has elapsed, or once its range is used up.
pub open spec fn unit_finished(o: UnitOutcome, width: nat, duration_secs: nat) -> bool {
    &&& o.examined <= width
    &&& (o.examined == width || o.elapsed_secs >= duration_secs)
    &&& (width >= 1 ==> o.examined >= 1)
}

/// Hashes the candidates of `range` in increasing order, starting at its
/// first one, and checks the clock after each hash; stops once
/// `duration_secs` whole seconds have elapsed since it started, or once the
/// range is used up.
pub fn search_unit(challenge: &Challenge, range: UnitRange, duration_secs: u64) -> (r: UnitOutcome)
    requires
        range.wf(),
    ensures
        unit_finished(r, range.width as nat, duration_secs as nat),
        r.examined >= 1 ==> digest_view(r.last_digest)
            == drillx_hash_of(challenge.bytes@, (range.start + r.examined - 1) as u64),
{
    let clock = Instant::now();
    let end = range.start + range.width;
    let mut nonce = range.start;
    let mut elapsed: u64 = 0;
    let mut last: Option<[u8; 32]> = None;
    while nonce < end
        invariant_except_break
            range.start <= nonce <= end,
            end == range.start + range.width,
            nonce > range.start ==> digest_view(last) == drillx_hash_of(challenge.bytes@, (nonce - 1) as u64),
        ensures
            range.start <= nonce <= end,
            end == range.start + range.width,
            nonce == end || elapsed >= duration_secs,
            range.width >= 1 ==> nonce > range.start,
            nonce > range.start ==> digest_view(last) == drillx_hash_of(challenge.bytes@, (nonce - 1) as u64),
        decreases end - nonce,
    {
        last = challenge.digest(nonce);
        nonce = nonce + 1;
        elapsed = clock.elapsed().as_secs();
        if elapsed >= duration_secs {
            break;
        }
    }
    UnitOutcome { examined: nonce - range.start, elapsed_secs: elapsed, last_digest: last }
}

/// The sum of the examined counts of a sequence of unit outcomes.
pub open spec fn examined_sum(s: Seq<UnitOutcome>) -> int
    decreases s.len(),
{
    if s.len() == 0 {
        0
    } else {
        examined_sum(s.drop_last()) + s.last().examined
    }
}

} // verus!
