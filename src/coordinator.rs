use vstd::prelude::*;
use crate::challenge::Challenge;
use crate::error::{BenchError, ConfigIssue};
use crate::service::TaskRequest;

verus! {

/// How one dispatched call ended.
#[derive(Debug, Clone, Copy, PartialEq, Eq, Structural)]
pub enum WorkerOutcome {
    /// The worker answered with this examined count.
    Answered(i64),
    /// No channel could be established to the worker.
    Unreachable,
    /// The call returned an error.
    Failed,
}

/// The headline figures of a run: the examined total and the rate per second.
#[derive(Debug, Clone, Copy, PartialEq, Eq, Structural)]
pub struct AggregateResult {
    pub total_examined: u64,
    pub rate: u64,
}

/// The configuration issue of a run, checked in this order, if any.
pub open spec fn config_issue(threads: u64, test_duration: i64, worker_count: usize) -> Option<ConfigIssue> {
    if test_duration <= 0 {
        Some(ConfigIssue::NonPositiveDuration)
    } else if worker_count == 0 {
        Some(ConfigIssue::NoWorkers)
    } else if threads == 0 {
        Some(ConfigIssue::ZeroThreads)
    } else if worker_count > i32::MAX as usize {
        Some(ConfigIssue::TooManyWorkers)
    } else {
        None
    }
}

/// Checks a run's configuration before anything is dispatched.
pub fn check_config(threads: u64, test_duration: i64, worker_count: usize) -> (r: Result<(), BenchError>)
    ensures
        config_issue(threads, test_duration, worker_count) matches Some(i)
            ==> r == Err::<(), BenchError>(BenchError::ConfigurationError(i)),
        config_issue(threads, test_duration, worker_count) is None ==> r is Ok,
{
    if test_duration <= 0 {
        Err(BenchError::ConfigurationError(ConfigIssue::NonPositiveDuration))
    } else if worker_count == 0 {
        Err(BenchError::ConfigurationError(ConfigIssue::NoWorkers))
    } else if threads == 0 {
        Err(BenchError::ConfigurationError(ConfigIssue::ZeroThreads))
    } else if worker_count > i32::MAX as usize {
        Err(BenchError::ConfigurationError(ConfigIssue::TooManyWorkers))
    } else {
        Ok(())
    }
}

/// Request `i` of a run over `n` workers.
pub open spec fn is_request(r: TaskRequest, challenge: Challenge, i: int, n: int, test_duration: i64) -> bool {
    &&& r.thread_id == i
    &&& r.total_threads == n
    &&& r.challenge@ == challenge.bytes@
    &&& r.test_duration == test_duration
}

/// One request per worker, in the order of the workers: request `i` carries
/// position `i`, the number of workers, the shared challenge and the budget.
pub fn build_requests(challenge: &Challenge, worker_count: usize, test_duration: i64) -> (r: Vec<TaskRequest>)
    requires
        worker_count <= i32::MAX,
    ensures
        r@.len() == worker_count,
        forall|i: int| 0 <= i < r@.len()
            ==> is_request(#[trigger] r@[i], *challenge, i, worker_count as int, test_duration),
{
    let mut requests: Vec<TaskRequest> = Vec::new();
    let mut i: usize = 0;
    while i < worker_count
        invariant
            worker_count <= i32::MAX,
            i <= worker_count,
            requests@.len() == i,
            forall|j: int| 0 <= j < i
                ==> is_request(#[trigger] requests@[j], *challenge, j, worker_count as int, test_duration),
        decreases worker_count - i,
    {
        let req = TaskRequest {
            thread_id: i as i32,
            total_threads: worker_count as i32,
            challenge: challenge.to_vec(),
            test_duration,
        };
        requests.push(req);
        i = i + 1;
    }
    requests
}

/// Plans a run: the configuration is checked first, so a refused run
/// yields no request at all; otherwise one request per worker.
pub fn plan_run(challenge: &Challenge, threads: u64, test_duration: i64, worker_count: usize) -> (r: Result<Vec<TaskRequest>, BenchError>)
    ensures
        config_issue(threads, test_duration, worker_count) matches Some(i)
            ==> r == Err::<Vec<TaskRequest>, BenchError>(BenchError::ConfigurationError(i)),
        config_issue(threads, test_duration, worker_count) is None ==> (r matches Ok(v)
            && v@.len() == worker_count
            && forall|i: int| 0 <= i < v@.len()
                ==> is_request(#[trigger] v@[i], *challenge, i, worker_count as int, test_duration)),
{
    match check_config(threads, test_duration, worker_count) {
        Err(e) => Err(e),
        Ok(()) => Ok(build_requests(challenge, worker_count, test_duration)),
    }
}

/// A call that ended with a usable count.
pub open spec fn is_counted(o: WorkerOutcome) -> bool {
    o matches WorkerOutcome::Answered(c) && c >= 0
}

/// The error that the outcome of call `i` stands for, where it is not counted.
pub open spec fn failure_of(o: WorkerOutcome, i: int) -> BenchError {
    match o {
        WorkerOutcome::Unreachable => BenchError::ConnectionFailure(i as usize),
        _ => BenchError::RemoteFailure(i as usize),
    }
}

/// The examined count of a counted call.
pub open spec fn count_of(o: WorkerOutcome) -> u64 {
    match o {
        WorkerOutcome::Answered(c) => c as u64,
        _ => 0,
    }
}

/// Takes the counts out of the outcomes of all calls, in order. The first
/// call that is not counted fails the run: an unreachable worker as a
/// connection failure, an error or a negative count as a remote failure.
pub fn collect_counts(outcomes: &Vec<WorkerOutcome>) -> (r: Result<Vec<u64>, BenchError>)
    ensures
        (forall|i: int| 0 <= i < outcomes@.len() ==> is_counted(#[trigger] outcomes@[i])) ==> (r matches Ok(v)
            && v@.len() == outcomes@.len()
            && forall|i: int| 0 <= i < v@.len() ==> #[trigger] v@[i] == count_of(outcomes@[i])),
        (exists|i: int| 0 <= i < outcomes@.len() && !is_counted(#[trigger] outcomes@[i])) ==> r is Err,
        r matches Err(e) ==> exists|i: int| 0 <= i < outcomes@.len()
            && !is_counted(#[trigger] outcomes@[i])
            && (forall|j: int| 0 <= j < i ==> is_counted(#[trigger] outcomes@[j]))
            && e == failure_of(outcomes@[i], i),
{
    let mut counts: Vec<u64> = Vec::new();
    let mut i: usize = 0;
    while i < outcomes.len()
        invariant
            i <= outcomes@.len(),
            counts@.len() == i,
            forall|j: int| 0 <= j < i ==> is_counted(#[trigger] outcomes@[j]),
            forall|j: int| 0 <= j < i ==> #[trigger] counts@[j] == count_of(outcomes@[j]),
        decreases outcomes@.len() - i,
    {
        match outcomes[i] {
            WorkerOutcome::Answered(c) => {
                if c < 0 {
                    assert(!is_counted(outcomes@[i as int]));
                    return Err(BenchError::RemoteFailure(i));
                }
                counts.push(c as u64);
            },
            WorkerOutcome::Unreachable => {
                assert(!is_counted(outcomes@[i as int]));
                return Err(BenchError::ConnectionFailure(i));
            },
            WorkerOutcome::Failed => {
                assert(!is_counted(outcomes@[i as int]));
                return Err(BenchError::RemoteFailure(i));
            },
        }
        i = i + 1;
    }
    Ok(counts)
}

/// The sum of a sequence of counts.
pub open spec fn count_sum(s: Seq<u64>) -> int
    decreases s.len(),
{
    if s.len() == 0 {
        0
    } else {
        count_sum(s.drop_last()) + s.last()
    }
}

/// `n`, capped at the largest `u64`.
pub open spec fn cap_u64(n: int) -> int {
    if n > u64::MAX as int { u64::MAX as int } else { n }
}

proof fn lemma_count_sum_step(s: Seq<u64>, k: int)
    requires
        0 <= k < s.len(),
    ensures
        count_sum(s.subrange(0, k + 1)) == count_sum(s.subrange(0, k)) + s[k],
{
    assert(s.subrange(0, k + 1).drop_last() =~= s.subrange(0, k));
}

proof fn lemma_count_sum_nonneg(s: Seq<u64>)
    ensures
        count_sum(s) >= 0,
    decreases s.len(),
{
    if s.len() > 0 {
        lemma_count_sum_nonneg(s.drop_last());
    }
}

proof fn lemma_count_sum_remove(s: Seq<u64>, k: int)
    requires
        0 <= k < s.len(),
    ensures
        count_sum(s) == count_sum(s.remove(k)) + s[k],
    decreases s.len(),
{
    if k == s.len() - 1 {
        assert(s.remove(k) =~= s.drop_last());
    } else {
        lemma_count_sum_remove(s.drop_last(), k);
        assert(s.drop_last().remove(k) =~= s.remove(k).drop_last());
        assert(s.remove(k).last() == s.last());
    }
}

/// The aggregate total does not depend on the order in which the counts
/// arrived: any two arrival orders of the same counts give the same sum,
/// and so the same total and rate.
pub proof fn lemma_total_order_independent(a: Seq<u64>, b: Seq<u64>)
    requires
        a.to_multiset() == b.to_multiset(),
    ensures
        count_sum(a) == count_sum(b),
        cap_u64(count_sum(a)) == cap_u64(count_sum(b)),
    decreases a.len(),
{
    broadcast use vstd::seq_lib::group_to_multiset_ensures, vstd::multiset::group_multiset_axioms;

    if a.len() == 0 {
        vstd::seq_lib::to_multiset_len(a);
        vstd::seq_lib::to_multiset_len(b);
        assert(b.len() == 0);
        assert(b =~= Seq::<u64>::empty());
        assert(a =~= Seq::<u64>::empty());
    } else {
        let x = a.last();
        let rest = a.drop_last();
        assert(a =~= rest.push(x));
        assert(b.to_multiset().count(x) > 0);
        assert(b.contains(x));
        let k = choose|k: int| 0 <= k < b.len() && b[k] == x;
        assert(b.remove(k).to_multiset() =~= rest.to_multiset());
        lemma_total_order_independent(rest, b.remove(k));
        lemma_count_sum_remove(b, k);
    }
}

proof fn lemma_count_sum_concat(a: Seq<u64>, b: Seq<u64>)
    ensures
        count_sum(a + b) == count_sum(a) + count_sum(b),
    decreases b.len(),
{
    if b.len() == 0 {
        assert(a + b =~= a);
    } else {
        lemma_count_sum_concat(a, b.drop_last());
        assert((a + b).drop_last() =~= a + b.drop_last());
    }
}

/// Two batches of counts sum the same whichever arrived first, and summing
/// three batches does not depend on how they are grouped.
pub proof fn lemma_total_batches(a: Seq<u64>, b: Seq<u64>, c: Seq<u64>)
    ensures
        count_sum(a + b) == count_sum(a) + count_sum(b),
        count_sum(a + b) == count_sum(b + a),
        count_sum((a + b) + c) == count_sum(a + (b + c)),
{
    lemma_count_sum_concat(a, b);
    lemma_count_sum_concat(b, a);
    lemma_count_sum_concat(a + b, c);
    lemma_count_sum_concat(b, c);
    lemma_count_sum_concat(a, b + c);
}

/// Sums the counts of all workers, saturating at the largest `u64`, and
/// divides the total by the budget in seconds. A budget of zero or fewer
/// seconds is a configuration error, never a division by zero.
pub fn aggregate(counts: &Vec<u64>, test_duration: i64) -> (r: Result<AggregateResult, BenchError>)
    ensures
        test_duration <= 0 ==> r == Err::<AggregateResult, BenchError>(
            BenchError::ConfigurationError(ConfigIssue::NonPositiveDuration)),
        test_duration > 0 ==> (r matches Ok(a)
            && a.total_examined == cap_u64(count_sum(counts@))
            && a.rate == a.total_examined / (test_duration as u64)),
{
    if test_duration <= 0 {
        return Err(BenchError::ConfigurationError(ConfigIssue::NonPositiveDuration));
    }
    let mut total: u64 = 0;
    let mut k: usize = 0;
    while k < counts.len()
        invariant
            k <= counts@.len(),
            total as int == cap_u64(count_sum(counts@.subrange(0, k as int))),
        decreases counts@.len() - k,
    {
        proof {
            lemma_count_sum_step(counts@, k as int);
            lemma_count_sum_nonneg(counts@.subrange(0, k as int));
        }
        total = total.saturating_add(counts[k]);
        k = k + 1;
    }
    assert(counts@.subrange(0, counts@.len() as int) =~= counts@);
    let rate = total / (test_duration as u64);
    Ok(AggregateResult { total_examined: total, rate })
}

} // verus!
