use dmzj2pdf::retry::{
    RetryPolicy, RetrySchedule, RetryStep, BASE_DELAY_SECS, DEFAULT_RETRIES, NANOS_PER_SEC,
};

fn run(retries: usize, attempts: Vec<Result<u32, String>>) -> (Option<Result<u32, String>>, usize) {
    let mut schedule = RetryPolicy::with_retries(retries).schedule();
    let mut used = 0;
    for attempt in attempts {
        used += 1;
        match schedule.on_attempt(attempt) {
            RetryStep::Deliver(value) => return (Some(Ok(value)), used),
            RetryStep::GiveUp(error) => return (Some(Err(error)), used),
            RetryStep::Wait { delay_nanos } => {
                assert!(delay_nanos <= BASE_DELAY_SECS as u64 * NANOS_PER_SEC);
            }
        }
    }
    (None, used)
}

fn err(text: &str) -> Result<u32, String> {
    Err(text.to_string())
}

#[test]
fn policy_defaults() {
    assert_eq!(BASE_DELAY_SECS, 10);
    assert_eq!(DEFAULT_RETRIES, 5);
    let policy = RetryPolicy::with_retries(DEFAULT_RETRIES);
    assert_eq!(policy.base_delay_secs, 10);
    assert_eq!(policy.retries, 5);
    let schedule = policy.schedule();
    assert_eq!(schedule.remaining, 5);
    assert_eq!(schedule.base_delay_secs, 10);
}

#[test]
fn first_attempt_success_is_delivered() {
    assert_eq!(run(5, vec![Ok(9)]), (Some(Ok(9)), 1));
}

#[test]
fn success_after_failures_is_delivered_unchanged() {
    let attempts = vec![err("a"), err("b"), Ok(77), err("never seen")];
    assert_eq!(run(5, attempts), (Some(Ok(77)), 3));
}

#[test]
fn success_on_last_allowed_attempt() {
    let attempts = vec![err("a"), err("b"), err("c"), Ok(1)];
    assert_eq!(run(3, attempts), (Some(Ok(1)), 4));
}

#[test]
fn exhausted_retries_surface_last_error() {
    let attempts = vec![err("first"), err("second"), err("third"), Ok(5)];
    assert_eq!(run(2, attempts), (Some(Err("third".to_string())), 3));
}

#[test]
fn no_retries_gives_up_at_once() {
    assert_eq!(run(0, vec![err("only"), Ok(1)]), (Some(Err("only".to_string())), 1));
}

#[test]
fn still_waiting_while_retries_are_left() {
    assert_eq!(run(5, vec![err("a"), err("b")]), (None, 2));
}

#[test]
fn each_failure_uses_one_retry() {
    let mut schedule = RetrySchedule { base_delay_secs: 1, remaining: 2 };
    assert!(matches!(schedule.on_attempt(err("x")), RetryStep::Wait { .. }));
    assert_eq!(schedule.remaining, 1);
    assert!(matches!(schedule.on_attempt(err("y")), RetryStep::Wait { .. }));
    assert_eq!(schedule.remaining, 0);
    assert!(matches!(schedule.on_attempt(err("z")), RetryStep::GiveUp(e) if e == "z"));
    assert_eq!(schedule.remaining, 0);
    assert_eq!(schedule.base_delay_secs, 1);
}

#[test]
fn success_uses_no_retry() {
    let mut schedule = RetrySchedule { base_delay_secs: 1, remaining: 2 };
    let step: RetryStep<u32, String> = schedule.on_attempt(Ok(3));
    assert!(matches!(step, RetryStep::Deliver(3)));
    assert_eq!(schedule.remaining, 2);
}

#[test]
fn decide_uses_given_delay() {
    let mut schedule = RetrySchedule { base_delay_secs: 10, remaining: 1 };
    let step: RetryStep<u32, String> = schedule.decide(err("x"), 1234);
    assert!(matches!(step, RetryStep::Wait { delay_nanos: 1234 }));
    let step: RetryStep<u32, String> = schedule.decide(err("y"), 1234);
    assert!(matches!(step, RetryStep::GiveUp(e) if e == "y"));
}

#[test]
fn jittered_delays_stay_below_base_and_vary() {
    let base_secs: u32 = 1000;
    let bound = base_secs as u64 * NANOS_PER_SEC;
    let mut schedule = RetrySchedule { base_delay_secs: base_secs, remaining: 300 };
    let mut delays: Vec<u64> = Vec::new();
    for _ in 0..300 {
        match schedule.on_attempt(err("again")) {
            RetryStep::Wait { delay_nanos } => delays.push(delay_nanos),
            _ => panic!("a retry was left"),
        }
    }
    assert_eq!(delays.len(), 300);
    assert!(delays.iter().all(|d| *d <= bound));
    assert!(delays.iter().any(|d| *d > base_secs as u64));
    assert!(delays.iter().any(|d| *d != delays[0]));
}

#[test]
fn zero_base_delay_never_waits() {
    let mut schedule = RetrySchedule { base_delay_secs: 0, remaining: 1 };
    assert!(matches!(schedule.on_attempt(err("x")), RetryStep::Wait { delay_nanos: 0 }));
}

#[test]
fn success_and_last_failure_need_no_delay() {
    let mut schedule = RetrySchedule { base_delay_secs: 1000, remaining: 0 };
    let step: RetryStep<u32, String> = schedule.on_attempt(Ok(8));
    assert!(matches!(step, RetryStep::Deliver(8)));
    assert!(matches!(schedule.on_attempt(err("last")), RetryStep::GiveUp(e) if e == "last"));
    assert_eq!(schedule.remaining, 0);
}
