use devpod_exoscale::error::SshError;
use devpod_exoscale::health::{HealthCheck, Probe, HEALTH_CHECK_ATTEMPTS, HEALTH_CHECK_DELAY_SECS};

#[test]
fn never_accepting_host_gets_five_attempts_then_fails() {
    let mut hc = HealthCheck::new("198.51.100.9".to_string());
    let mut attempts = 0;
    let mut waits = Vec::new();
    let failure = loop {
        attempts += 1;
        match hc.after_attempt(false) {
            Probe::RetryAfter { seconds } => waits.push(seconds),
            Probe::GiveUp(e) => break e,
            Probe::Ready => panic!("never accepted"),
        }
    };
    assert_eq!(attempts, 5);
    assert_eq!(HEALTH_CHECK_ATTEMPTS, 5);
    assert_eq!(waits, vec![5, 5, 5, 5]);
    assert_eq!(HEALTH_CHECK_DELAY_SECS, 5);
    match failure {
        SshError::HealthCheckFailed(host) => assert_eq!(host, "198.51.100.9"),
        other => panic!("unexpected {:?}", other),
    }
    assert!(hc.finished);
}

#[test]
fn host_accepting_on_third_attempt_is_ready_without_further_wait() {
    let mut hc = HealthCheck::new("h".to_string());
    assert!(matches!(hc.after_attempt(false), Probe::RetryAfter { seconds: 5 }));
    assert!(matches!(hc.after_attempt(false), Probe::RetryAfter { seconds: 5 }));
    assert!(matches!(hc.after_attempt(true), Probe::Ready));
    assert_eq!(hc.attempts, 3);
    assert!(hc.finished);
}

#[test]
fn host_accepting_at_once_is_ready() {
    let mut hc = HealthCheck::new("h".to_string());
    assert!(matches!(hc.after_attempt(true), Probe::Ready));
    assert_eq!(hc.attempts, 1);
}

#[test]
fn single_attempt_budget_gives_up_at_once() {
    let mut hc = HealthCheck::with_budget("h".to_string(), 1, 2);
    assert!(matches!(hc.after_attempt(false), Probe::GiveUp(SshError::HealthCheckFailed(_))));
}

#[test]
fn accepted_on_last_attempt_is_ready() {
    let mut hc = HealthCheck::new("h".to_string());
    for _ in 0..4 {
        assert!(matches!(hc.after_attempt(false), Probe::RetryAfter { .. }));
    }
    assert!(matches!(hc.after_attempt(true), Probe::Ready));
}
