use vstd::prelude::*;
use crate::challenge::{Challenge, CHALLENGE_LEN};
use crate::error::{BenchError, ConfigIssue};
use crate::partition::{UnitRange, MAX_CANDIDATE, share_width, partition_plan};
use crate::search::{UnitOutcome, unit_finished, examined_sum};

verus! {

/// A request to one worker: its position among the dispatched requests,
/// their number, the challenge, and the time budget in seconds.
#[derive(Debug, Clone, PartialEq, Eq)]
pub struct TaskRequest {
    pub thread_id: i32,
    pub total_threads: i32,
    pub challenge: Vec<u8>,
    pub test_duration: i64,
}

/// A worker's answer: how many candidates all of its search units examined.
#[derive(Debug, Clone, Copy, PartialEq, Eq, Structural)]
pub struct TaskResponse {
    pub nonce_count: i64,
}

/// A validated request, ready for the search units: the challenge, the
/// budget, and one partition share per local search unit.
#[derive(Debug, Clone, PartialEq, Eq)]
pub struct SearchJob {
    pub challenge: Challenge,
    pub duration_secs: u64,
    pub units: Vec<UnitRange>,
}

/// The worker endpoint. Its local thread count is the worker's own
/// configuration; a request's `total_threads` numbers the coordinator's
/// requests and does not size the local search.
#[derive(Debug, Clone, Copy, PartialEq, Eq, Structural)]
pub struct MyTaskService {
    pub local_threads: u64,
}

/// The outcomes are one per local unit, each within its share and finished.
pub open spec fn outcomes_valid(local_threads: nat, duration_secs: nat, s: Seq<UnitOutcome>) -> bool {
    &&& local_threads >= 1
    &&& s.len() == local_threads
    &&& forall|k: int| 0 <= k < s.len()
        ==> unit_finished(#[trigger] s[k], share_width(local_threads), duration_secs)
}

/// `n`, capped at the largest `i64`.
pub open spec fn cap_i64(n: int) -> int {
    if n > i64::MAX as int { i64::MAX as int } else { n }
}

proof fn lemma_examined_sum_step(s: Seq<UnitOutcome>, k: int)
    requires
        0 <= k < s.len(),
    ensures
        examined_sum(s.subrange(0, k + 1)) == examined_sum(s.subrange(0, k)) + s[k].examined,
{
    assert(s.subrange(0, k + 1).drop_last() =~= s.subrange(0, k));
}

impl MyTaskService {
    /// A worker endpoint that searches with `local_threads` units.
    pub fn new(local_threads: u64) -> (r: Result<MyTaskService, BenchError>)
        ensures
            local_threads >= 1 ==> r == Ok::<MyTaskService, BenchError>(MyTaskService { local_threads }),
            local_threads == 0 ==> r == Err::<MyTaskService, BenchError>(BenchError::ConfigurationError(ConfigIssue::ZeroThreads)),
    {
        if local_threads == 0 {
            Err(BenchError::ConfigurationError(ConfigIssue::ZeroThreads))
        } else {
            Ok(MyTaskService { local_threads })
        }
    }

    /// Validates a request and plans its search: a challenge of other than
    /// 32 bytes is malformed; a budget of zero or fewer seconds, a request
    /// that counts fewer than one dispatched request, or a worker without
    /// units, is a configuration error.
    pub fn prepare(&self, req: &TaskRequest) -> (r: Result<SearchJob, BenchError>)
        ensures
            req.challenge@.len() != CHALLENGE_LEN
                ==> r == Err::<SearchJob, BenchError>(BenchError::MalformedRequest),
            req.challenge@.len() == CHALLENGE_LEN && req.test_duration <= 0
                ==> r == Err::<SearchJob, BenchError>(BenchError::ConfigurationError(ConfigIssue::NonPositiveDuration)),
            req.challenge@.len() == CHALLENGE_LEN && req.test_duration > 0 && req.total_threads < 1
                ==> r == Err::<SearchJob, BenchError>(BenchError::ConfigurationError(ConfigIssue::NoWorkers)),
            req.challenge@.len() == CHALLENGE_LEN && req.test_duration > 0 && req.total_threads >= 1
                && self.local_threads == 0
                ==> r == Err::<SearchJob, BenchError>(BenchError::ConfigurationError(ConfigIssue::ZeroThreads)),
            req.challenge@.len() == CHALLENGE_LEN && req.test_duration > 0 && req.total_threads >= 1
                && self.local_threads >= 1
                ==> (r matches Ok(job) && job.challenge.bytes@ == req.challenge@
                    && job.duration_secs == req.test_duration
                    && job.units@.len() == self.local_threads
                    && (forall|k: int| 0 <= k < job.units@.len()
                        ==> #[trigger] job.units@[k].is_share(self.local_threads as nat, k as nat))
                    && (forall|k: int| 0 <= k < job.units@.len() ==> #[trigger] job.units@[k].wf())),
    {
        let challenge = match Challenge::from_bytes(&req.challenge) {
            Ok(c) => c,
            Err(e) => {
                return Err(e);
            },
        };
        if req.test_duration <= 0 {
            return Err(BenchError::ConfigurationError(ConfigIssue::NonPositiveDuration));
        }
        if req.total_threads < 1 {
            return Err(BenchError::ConfigurationError(ConfigIssue::NoWorkers));
        }
        if self.local_threads == 0 {
            return Err(BenchError::ConfigurationError(ConfigIssue::ZeroThreads));
        }
        let units = partition_plan(self.local_threads);
        Ok(SearchJob { challenge, duration_secs: req.test_duration as u64, units })
    }

    /// Combines the outcomes of the local search units into the response.
    /// The outcomes must be one per local unit, each within its share and
    /// finished by its budget; otherwise the search failed.
    pub fn finish(&self, duration_secs: u64, outcomes: &Vec<UnitOutcome>) -> (r: Result<TaskResponse, BenchError>)
        ensures
            outcomes_valid(self.local_threads as nat, duration_secs as nat, outcomes@)
                ==> r == Ok::<TaskResponse, BenchError>(TaskResponse { nonce_count: cap_i64(examined_sum(outcomes@)) as i64 }),
            !outcomes_valid(self.local_threads as nat, duration_secs as nat, outcomes@)
                ==> r == Err::<TaskResponse, BenchError>(BenchError::SearchFailure),
            r matches Ok(resp) ==> resp.nonce_count >= 0,
    {
        let t = self.local_threads;
        if t == 0 || outcomes.len() as u64 != t {
            return Err(BenchError::SearchFailure);
        }
        let width = MAX_CANDIDATE / t;
        let ghost w = share_width(t as nat);
        let mut total: u64 = 0;
        let mut k: usize = 0;
        while k < outcomes.len()
            invariant
                t >= 1,
                outcomes@.len() == t,
                width == w,
                w == share_width(t as nat),
                k <= outcomes@.len(),
                total as int == examined_sum(outcomes@.subrange(0, k as int)),
                total as int <= k * w,
                forall|j: int| 0 <= j < k ==> unit_finished(#[trigger] outcomes@[j], w, duration_secs as nat),
            decreases outcomes@.len() - k,
        {
            let o = outcomes[k];
            let finished = o.examined <= width && (o.examined == width || o.elapsed_secs >= duration_secs)
                && (width == 0 || o.examined >= 1);
            if !finished {
                return Err(BenchError::SearchFailure);
            }
            proof {
                lemma_examined_sum_step(outcomes@, k as int);
                assert((k + 1) * w <= (t as nat) * w) by (nonlinear_arith)
                    requires
                        k + 1 <= t,
                ;
                assert((t as nat) * w <= MAX_CANDIDATE as nat) by (nonlinear_arith)
                    requires
                        w == MAX_CANDIDATE as nat / (t as nat),
                        t >= 1,
                ;
                assert(k * w + w == (k + 1) * w) by (nonlinear_arith);
            }
            total = total + o.examined;
            k = k + 1;
        }
        assert(outcomes@.subrange(0, outcomes@.len() as int) =~= outcomes@);
        let nonce_count: i64 = if total > i64::MAX as u64 { i64::MAX } else { total as i64 };
        Ok(TaskResponse { nonce_count })
    }
}

impl Default for MyTaskService {
    /// A worker endpoint that searches with a single unit.
    fn default() -> (r: MyTaskService)
        ensures
            r.local_threads == 1,
    {
        MyTaskService { local_threads: 1 }
    }
}

} // verus!
