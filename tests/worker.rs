use hashbench::challenge::Challenge;
use hashbench::error::{BenchError, ConfigIssue};
use hashbench::partition::UnitRange;
use hashbench::search::{search_unit, UnitOutcome};
use hashbench::service::{MyTaskService, TaskRequest, TaskResponse};

fn request(challenge_len: usize, test_duration: i64) -> TaskRequest {
    TaskRequest { thread_id: 0, total_threads: 1, challenge: vec![7u8; challenge_len], test_duration }
}

#[test]
fn challenge_of_31_bytes_is_malformed() {
    assert_eq!(Challenge::from_bytes(&vec![0u8; 31]), Err(BenchError::MalformedRequest));
    assert_eq!(Challenge::from_bytes(&vec![0u8; 33]), Err(BenchError::MalformedRequest));
    assert_eq!(Challenge::from_bytes(&vec![]), Err(BenchError::MalformedRequest));
}

#[test]
fn challenge_round_trip() {
    let bytes: Vec<u8> = (0u8..32).collect();
    let c = Challenge::from_bytes(&bytes).unwrap();
    assert_eq!(c.bytes[5], 5);
    assert_eq!(c.to_vec(), bytes);
    assert_eq!(Challenge::zeroed().to_vec(), vec![0u8; 32]);
}

#[test]
fn digest_is_deterministic_and_not_the_input() {
    let c = Challenge::zeroed();
    let d1 = c.digest(0);
    let d2 = c.digest(0);
    assert_eq!(d1, d2);
    let e1 = c.digest(1);
    assert_eq!(e1, c.digest(1));
    if let (Some(a), Some(b)) = (d1, e1) {
        assert_ne!(a, b);
        assert_ne!(a, c.bytes);
    }
}

#[test]
fn unit_stops_at_end_of_range() {
    let c = Challenge::zeroed();
    let o = search_unit(&c, UnitRange { start: 10, width: 3 }, 1000);
    assert_eq!(o.examined, 3);
    assert_eq!(o.last_digest, c.digest(12));
}

#[test]
fn unit_runs_for_its_budget() {
    let c = Challenge::zeroed();
    let o = search_unit(&c, UnitRange { start: 0, width: u64::MAX }, 1);
    assert!(o.examined >= 1);
    assert!(o.elapsed_secs >= 1);
}

#[test]
fn unit_at_top_of_space_does_not_overflow() {
    let c = Challenge::zeroed();
    let o = search_unit(&c, UnitRange { start: u64::MAX - 2, width: 2 }, 1000);
    assert_eq!(o.examined, 2);
    assert_eq!(o.last_digest, c.digest(u64::MAX - 1));
}

#[test]
fn service_needs_a_thread() {
    assert_eq!(MyTaskService::new(0), Err(BenchError::ConfigurationError(ConfigIssue::ZeroThreads)));
    assert_eq!(MyTaskService::new(3), Ok(MyTaskService { local_threads: 3 }));
    assert_eq!(MyTaskService::default().local_threads, 1);
}

#[test]
fn prepare_rejects_malformed_challenge() {
    let s = MyTaskService::new(2).unwrap();
    assert_eq!(s.prepare(&request(31, 5)), Err(BenchError::MalformedRequest));
    assert_eq!(s.prepare(&request(31, 0)), Err(BenchError::MalformedRequest));
}

#[test]
fn prepare_rejects_nonpositive_duration() {
    let s = MyTaskService::new(2).unwrap();
    let e = Err(BenchError::ConfigurationError(ConfigIssue::NonPositiveDuration));
    assert_eq!(s.prepare(&request(32, 0)), e);
    assert_eq!(s.prepare(&request(32, -4)), e);
    let none = MyTaskService { local_threads: 0 };
    assert_eq!(none.prepare(&request(32, 4)), Err(BenchError::ConfigurationError(ConfigIssue::ZeroThreads)));
}

#[test]
fn prepare_plans_local_units() {
    let s = MyTaskService::new(2).unwrap();
    let job = s.prepare(&request(32, 9)).unwrap();
    assert_eq!(job.challenge.bytes, [7u8; 32]);
    assert_eq!(job.duration_secs, 9);
    assert_eq!(job.units.len(), 2);
    assert_eq!(job.units[1].start, u64::MAX / 2);
}

#[test]
fn finish_sums_unit_counts() {
    let s = MyTaskService::new(2).unwrap();
    let outcomes = vec![
        UnitOutcome { examined: 40, elapsed_secs: 3, last_digest: None },
        UnitOutcome { examined: 2, elapsed_secs: 5, last_digest: None },
    ];
    assert_eq!(s.finish(3, &outcomes), Ok(TaskResponse { nonce_count: 42 }));
}

#[test]
fn finish_rejects_bad_outcomes() {
    let s = MyTaskService::new(2).unwrap();
    let one = vec![UnitOutcome { examined: 4, elapsed_secs: 3, last_digest: None }];
    assert_eq!(s.finish(3, &one), Err(BenchError::SearchFailure));
    let early = vec![
        UnitOutcome { examined: 4, elapsed_secs: 3, last_digest: None },
        UnitOutcome { examined: 4, elapsed_secs: 2, last_digest: None },
    ];
    assert_eq!(s.finish(3, &early), Err(BenchError::SearchFailure));
    let none = vec![
        UnitOutcome { examined: 4, elapsed_secs: 3, last_digest: None },
        UnitOutcome { examined: 0, elapsed_secs: 3, last_digest: None },
    ];
    assert_eq!(s.finish(3, &none), Err(BenchError::SearchFailure));
    let too_many = vec![
        UnitOutcome { examined: 4, elapsed_secs: 3, last_digest: None },
        UnitOutcome { examined: u64::MAX / 2 + 1, elapsed_secs: 3, last_digest: None },
    ];
    assert_eq!(s.finish(3, &too_many), Err(BenchError::SearchFailure));
}

#[test]
fn finish_caps_count_at_i64_max() {
    let s = MyTaskService::new(1).unwrap();
    let all = vec![UnitOutcome { examined: u64::MAX, elapsed_secs: 0, last_digest: None }];
    assert_eq!(s.finish(3, &all), Ok(TaskResponse { nonce_count: i64::MAX }));
}

#[test]
fn prepare_rejects_request_without_dispatch_count() {
    let s = MyTaskService::new(2).unwrap();
    let e = Err(BenchError::ConfigurationError(ConfigIssue::NoWorkers));
    let mut req = request(32, 5);
    req.total_threads = 0;
    assert_eq!(s.prepare(&req), e);
    req.total_threads = -3;
    assert_eq!(s.prepare(&req), e);
    req.challenge = vec![7u8; 31];
    assert_eq!(s.prepare(&req), Err(BenchError::MalformedRequest));
}
