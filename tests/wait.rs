use appium_client::wait::{lookup_outcome, Lookup, Poll, Step, Wait, WaitError, DEFAULT_INTERVAL_MS, DEFAULT_TIMEOUT_MS};
use fantoccini::error::CmdError;

/// Runs a wait against a simulated clock: each lookup returns at once with
/// `stub(attempt, now)`, and each pause moves the clock by its length.
fn simulate(w: Wait, stub: impl Fn(u64, u64) -> Lookup<&'static str, &'static str>) -> (Result<&'static str, WaitError<&'static str>>, u64, u64) {
    let mut poll: Poll = w.start();
    let mut now: u64 = 0;
    loop {
        match poll.begin_round::<&str, &str>(now) {
            Step::Done(r) => return (r, poll.attempts, now),
            Step::Attempt => {}
            Step::Sleep(_) => unreachable!(),
        }
        match poll.end_round(stub(poll.attempts, now)) {
            Step::Done(r) => return (r, poll.attempts, now),
            Step::Sleep(ms) => now += ms,
            Step::Attempt => unreachable!(),
        }
    }
}

#[test]
fn wait_defaults_and_builders() {
    let w = Wait::new();
    assert_eq!((w.timeout_ms, w.interval_ms), (DEFAULT_TIMEOUT_MS, DEFAULT_INTERVAL_MS));
    assert_eq!((w.timeout_ms, w.interval_ms), (30000, 250));
    let w = w.at_most(1000).check_every(100);
    assert_eq!((w.timeout_ms, w.interval_ms), (1000, 100));
    assert_eq!(w.start(), Poll { timeout_ms: 1000, interval_ms: 100, attempts: 0 });
}

#[test]
fn wait_succeeds_after_misses() {
    let w = Wait::new().at_most(1000).check_every(250);
    let (r, attempts, _) = simulate(w, |k, _| if k <= 3 { Lookup::NotFoundYet } else { Lookup::Found("el") });
    assert!(matches!(r, Ok("el")));
    assert_eq!(attempts, 4);
}

#[test]
fn wait_times_out_when_never_found() {
    let w = Wait::new().at_most(1000).check_every(250);
    let (r, attempts, elapsed) = simulate(w, |_, _| Lookup::NotFoundYet);
    assert!(matches!(r, Err(WaitError::TimedOut)));
    assert!(elapsed >= 1000);
    assert_eq!(elapsed, 1250);
    assert_eq!(attempts, 5);
}

#[test]
fn wait_with_zero_timeout_tries_once() {
    let w = Wait::new().at_most(0).check_every(10);
    let (r, attempts, _) = simulate(w, |_, _| Lookup::NotFoundYet);
    assert!(matches!(r, Err(WaitError::TimedOut)));
    assert_eq!(attempts, 1);
}

#[test]
fn wait_fails_fast_on_other_errors() {
    let w = Wait::new().at_most(5000).check_every(1);
    let (r, attempts, elapsed) = simulate(w, |_, _| Lookup::Failed("transport"));
    assert!(matches!(r, Err(WaitError::Failed("transport"))));
    assert_eq!(attempts, 1);
    assert_eq!(elapsed, 0);
}

#[test]
fn wait_finds_element_that_appears_at_800_ms() {
    let w = Wait::new().at_most(1000).check_every(250);
    let (r, _, elapsed) = simulate(w, |_, now| if now < 800 { Lookup::NotFoundYet } else { Lookup::Found("el") });
    assert!(matches!(r, Ok("el")));
    assert!(elapsed < 1050);
}

#[test]
fn round_steps_one_by_one() {
    let mut p = Wait::new().at_most(100).check_every(40).start();
    assert!(matches!(p.begin_round::<u8, u8>(0), Step::Attempt));
    assert_eq!(p.attempts, 1);
    assert!(matches!(p.end_round::<u8, u8>(Lookup::NotFoundYet), Step::Sleep(40)));
    assert!(matches!(p.begin_round::<u8, u8>(100), Step::Attempt));
    assert!(matches!(p.begin_round::<u8, u8>(101), Step::Done(Err(WaitError::TimedOut))));
    assert_eq!(p.attempts, 2);
}

#[test]
fn lookup_outcome_sorts_results() {
    assert!(matches!(lookup_outcome::<u8>(Ok(7)), Lookup::Found(7)));
    assert!(matches!(lookup_outcome::<u8>(Err(CmdError::WaitTimeout)), Lookup::Failed(CmdError::WaitTimeout)));
    assert!(matches!(
        lookup_outcome::<u8>(Err(CmdError::NotJson("x".to_string()))),
        Lookup::Failed(CmdError::NotJson(_))
    ));
}

#[test]
fn round_at_attempt_limit_times_out() {
    let mut p = Poll { timeout_ms: 1000, interval_ms: 10, attempts: u64::MAX };
    assert!(matches!(p.begin_round::<u8, u8>(0), Step::Done(Err(WaitError::TimedOut))));
    assert_eq!(p.attempts, u64::MAX);
}
