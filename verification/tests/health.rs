use service_supervisor::health::{probe_url, wait_ready, HealthAction, HealthChecker, Readiness};

#[test]
fn probe_url_names_the_port() {
    assert_eq!(probe_url(8787), "http://localhost:8787/health");
    assert_eq!(probe_url(80), "http://localhost:80/health");
    assert_eq!(probe_url(0), "http://localhost:0/health");
}

#[test]
fn retries_are_the_full_intervals_in_the_timeout() {
    assert_eq!(HealthChecker::new(8787, 1000, 250).retries_left, 4);
    assert_eq!(HealthChecker::new(8787, 999, 250).retries_left, 3);
    assert_eq!(HealthChecker::new(8787, 249, 250).retries_left, 0);
    assert_eq!(HealthChecker::new(8787, 0, 250).retries_left, 0);
    assert_eq!(HealthChecker::new(8787, u64::MAX, 1).retries_left, u64::MAX);
}

#[test]
fn zero_interval_allows_one_probe_only() {
    let mut checker = HealthChecker::new(8787, 5000, 0);
    assert_eq!(checker.retries_left, 0);
    assert_eq!(checker.on_probe(false), HealthAction::Done(Readiness::TimedOut));
}

#[test]
fn new_checker_is_undecided() {
    let checker = HealthChecker::new(3000, 1000, 100);
    assert_eq!(
        checker,
        HealthChecker { port: 3000, poll_interval_ms: 100, retries_left: 10, verdict: None }
    );
}

#[test]
fn first_answer_ends_the_check_as_ready() {
    let mut checker = HealthChecker::new(8787, 1000, 250);
    assert_eq!(checker.on_probe(true), HealthAction::Done(Readiness::Ready));
    assert_eq!(checker.verdict, Some(Readiness::Ready));
    assert_eq!(checker.retries_left, 4);
}

#[test]
fn failed_probe_asks_for_another_after_the_interval() {
    let mut checker = HealthChecker::new(8787, 1000, 250);
    assert_eq!(checker.on_probe(false), HealthAction::ProbeAfter(250));
    assert_eq!(checker.retries_left, 3);
    assert_eq!(checker.verdict, None);
}

#[test]
fn check_times_out_when_the_retries_are_used_up() {
    let mut checker = HealthChecker::new(8787, 500, 250);
    assert_eq!(checker.on_probe(false), HealthAction::ProbeAfter(250));
    assert_eq!(checker.on_probe(false), HealthAction::ProbeAfter(250));
    assert_eq!(checker.on_probe(false), HealthAction::Done(Readiness::TimedOut));
    assert_eq!(checker.verdict, Some(Readiness::TimedOut));
}

#[test]
fn late_answer_within_the_retries_is_ready() {
    let mut checker = HealthChecker::new(8787, 500, 250);
    assert_eq!(checker.on_probe(false), HealthAction::ProbeAfter(250));
    assert_eq!(checker.on_probe(false), HealthAction::ProbeAfter(250));
    assert_eq!(checker.on_probe(true), HealthAction::Done(Readiness::Ready));
}

#[test]
fn finished_check_repeats_its_verdict() {
    let mut timed_out = HealthChecker::new(8787, 0, 100);
    assert_eq!(timed_out.on_probe(false), HealthAction::Done(Readiness::TimedOut));
    let before = HealthChecker { port: 8787, poll_interval_ms: 100, retries_left: 0, verdict: Some(Readiness::TimedOut) };
    assert_eq!(timed_out, before);
    assert_eq!(timed_out.on_probe(true), HealthAction::Done(Readiness::TimedOut));
    assert_eq!(timed_out, before);
    let mut ready = HealthChecker::new(8787, 1000, 100);
    ready.on_probe(true);
    assert_eq!(ready.on_probe(false), HealthAction::Done(Readiness::Ready));
    assert_eq!(ready.retries_left, 10);
}

#[test]
fn check_never_asks_for_more_probes_than_allowed() {
    let mut checker = HealthChecker::new(8787, 1000, 100);
    let mut probes: u32 = 0;
    loop {
        probes += 1;
        match checker.on_probe(false) {
            HealthAction::ProbeAfter(ms) => assert_eq!(ms, 100),
            HealthAction::Done(verdict) => {
                assert_eq!(verdict, Readiness::TimedOut);
                break;
            }
        }
    }
    assert_eq!(probes, 11);
}

#[test]
fn wait_ready_without_probes_is_undecided() {
    assert_eq!(wait_ready(8787, 1000, 250, &vec![]), None);
}

#[test]
fn wait_ready_is_ready_at_the_first_answer() {
    assert_eq!(wait_ready(8787, 1000, 250, &vec![true]), Some(Readiness::Ready));
    assert_eq!(wait_ready(8787, 1000, 250, &vec![false, false, true]), Some(Readiness::Ready));
    assert_eq!(wait_ready(8787, 1000, 250, &vec![false, true, false]), Some(Readiness::Ready));
}

#[test]
fn wait_ready_is_undecided_while_retries_are_left() {
    assert_eq!(wait_ready(8787, 1000, 250, &vec![false]), None);
    assert_eq!(wait_ready(8787, 1000, 250, &vec![false, false, false, false]), None);
}

#[test]
fn wait_ready_times_out_after_the_last_retry() {
    assert_eq!(
        wait_ready(8787, 1000, 250, &vec![false, false, false, false, false]),
        Some(Readiness::TimedOut)
    );
    assert_eq!(wait_ready(8787, 0, 0, &vec![false]), Some(Readiness::TimedOut));
}

#[test]
fn wait_ready_ignores_answers_after_the_timeout() {
    assert_eq!(wait_ready(8787, 250, 250, &vec![false, false, true]), Some(Readiness::TimedOut));
    assert_eq!(wait_ready(8787, 250, 250, &vec![false, true, true]), Some(Readiness::Ready));
}

#[test]
fn timeout_warning_names_the_port() {
    assert_eq!(
        service_supervisor::health::timeout_warning(8787),
        "[Desktop] Server on port 8787 did not become ready in time"
    );
}
