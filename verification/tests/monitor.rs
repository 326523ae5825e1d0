use fgp::daemon::{DaemonReply, Probe};
use fgp::monitor::{
    attempt_restart, classify, get_service_state, handle_state_change, log_line,
    notification_for, restart_failed, restart_log, restart_outcome, Monitor, Notification,
    RestartDecision, RestartReport, RestartTracker, ServiceState, Transition, WatchdogConfig,
};
use fgp::monitor::ServiceState::{Error, Running, Stopped, Unhealthy};
use serde_json::Value;

fn json(text: &str) -> Value {
    serde_json::from_str(text).unwrap()
}

fn health(ok: bool, result: Option<&str>) -> Probe {
    Probe::Answered(DaemonReply { ok, result: result.map(json), error: None })
}

fn notice(title: &str, message: &str) -> Notification {
    Notification { title: title.to_string(), message: message.to_string() }
}

const STATES: [ServiceState; 4] = [Running, Stopped, Unhealthy, Error];

#[test]
fn state_of_a_service_without_endpoint_is_stopped() {
    assert_eq!(get_service_state(&Probe::Unreachable), ServiceState::Stopped);
}

#[test]
fn state_of_a_service_whose_query_fails_is_error() {
    assert_eq!(get_service_state(&Probe::ConnectFailed), ServiceState::Error);
    assert_eq!(get_service_state(&Probe::CallFailed), ServiceState::Error);
    assert_eq!(get_service_state(&health(false, Some("{\"status\":\"healthy\"}"))), ServiceState::Error);
}

#[test]
fn state_follows_the_status_word() {
    for (status, state) in [
        ("healthy", ServiceState::Running),
        ("running", ServiceState::Running),
        ("degraded", ServiceState::Unhealthy),
        ("unhealthy", ServiceState::Unhealthy),
        ("starting", ServiceState::Running),
        ("", ServiceState::Running),
    ] {
        let result = format!("{{\"status\":\"{}\"}}", status);
        assert_eq!(get_service_state(&health(true, Some(&result))), state);
    }
}

#[test]
fn state_without_status_word_is_running() {
    assert_eq!(get_service_state(&health(true, None)), ServiceState::Running);
    assert_eq!(get_service_state(&health(true, Some("{}"))), ServiceState::Running);
    assert_eq!(get_service_state(&health(true, Some("{\"status\":3}"))), ServiceState::Running);
    assert_eq!(get_service_state(&health(true, Some("\"degraded\""))), ServiceState::Running);
}

#[test]
fn transitions_follow_the_table() {
    assert_eq!(classify(Running, Error), Transition::Crashed);
    assert_eq!(classify(Running, Stopped), Transition::Stopped);
    assert_eq!(classify(Running, Unhealthy), Transition::Degraded);
    assert_eq!(classify(Unhealthy, Running), Transition::Recovered);
    assert_eq!(classify(Error, Running), Transition::Started);
    assert_eq!(classify(Stopped, Running), Transition::Started);
    for (prev, current) in [
        (Running, Running),
        (Error, Stopped),
        (Stopped, Error),
        (Unhealthy, Error),
        (Unhealthy, Stopped),
        (Error, Unhealthy),
        (Stopped, Unhealthy),
        (Error, Error),
    ] {
        assert_eq!(classify(prev, current), Transition::Other);
    }
}

#[test]
fn notifications_follow_the_table() {
    assert_eq!(
        notification_for("gmail", Running, Error),
        Some(notice("FGP Service Crashed", "gmail daemon crashed"))
    );
    assert_eq!(
        notification_for("gmail", Running, Stopped),
        Some(notice("FGP Service Stopped", "gmail daemon stopped unexpectedly"))
    );
    assert_eq!(
        notification_for("gmail", Running, Unhealthy),
        Some(notice("FGP Service Unhealthy", "gmail daemon is unhealthy"))
    );
    assert_eq!(
        notification_for("gmail", Unhealthy, Running),
        Some(notice("FGP Service Recovered", "gmail daemon recovered"))
    );
    assert_eq!(
        notification_for("gmail", Error, Running),
        Some(notice("FGP Service Started", "gmail daemon is now running"))
    );
    assert_eq!(
        notification_for("gmail", Stopped, Running),
        Some(notice("FGP Service Started", "gmail daemon started"))
    );
    assert_eq!(notification_for("gmail", Error, Stopped), None);
    assert_eq!(notification_for("gmail", Running, Running), None);
}

#[test]
fn crash_and_recovery_restart_once_and_reset_the_counter() {
    let mut monitor = Monitor::new(WatchdogConfig::new(true, 2, 5));
    assert_eq!(monitor.check_service("gmail", ServiceState::Running), None);
    let crash = monitor.check_service("gmail", ServiceState::Error).unwrap();
    assert_eq!(crash.transition, Transition::Crashed);
    assert_eq!(crash.notification, Some(notice("FGP Service Crashed", "gmail daemon crashed")));
    assert_eq!(crash.restart, RestartDecision::Restart { attempt: 1, delay_secs: 5 });
    assert_eq!(monitor.attempts_for("gmail"), 1);
    let back = monitor.check_service("gmail", ServiceState::Running).unwrap();
    assert_eq!(back.transition, Transition::Started);
    assert_eq!(back.restart, RestartDecision::Stay);
    assert_eq!(monitor.attempts_for("gmail"), 0);
    assert_eq!(monitor.last_state("gmail"), Some(ServiceState::Running));
}

#[test]
fn second_crash_without_recovery_is_refused_at_limit_one() {
    let config = WatchdogConfig::new(true, 1, 0);
    let mut tracker = RestartTracker::new();
    let first =
        handle_state_change("gmail", ServiceState::Running, ServiceState::Error, &config, &mut tracker);
    assert_eq!(first.restart, RestartDecision::Restart { attempt: 1, delay_secs: 0 });
    let second =
        handle_state_change("gmail", ServiceState::Running, ServiceState::Error, &config, &mut tracker);
    assert_eq!(
        second.restart,
        RestartDecision::Refused {
            attempt: 2,
            notification: notice("FGP Restart Limit Reached", "gmail exceeded 1 restart attempts"),
        }
    );
    assert_eq!(second.notification, Some(notice("FGP Service Crashed", "gmail daemon crashed")));
    assert_eq!(tracker.attempts_for("gmail"), 2);
    let third =
        handle_state_change("gmail", ServiceState::Running, ServiceState::Stopped, &config, &mut tracker);
    assert!(matches!(third.restart, RestartDecision::Refused { attempt: 3, .. }));
    assert_eq!(tracker.attempts_for("gmail"), 3);
}

#[test]
fn degradation_and_recovery_notify_once_and_never_restart() {
    for enabled in [true, false] {
        let config = WatchdogConfig::new(enabled, 1, 0);
        let mut tracker = RestartTracker::new();
        let down = handle_state_change(
            "gmail",
            ServiceState::Running,
            ServiceState::Unhealthy,
            &config,
            &mut tracker,
        );
        assert_eq!(down.transition, Transition::Degraded);
        assert_eq!(down.notification, Some(notice("FGP Service Unhealthy", "gmail daemon is unhealthy")));
        assert_eq!(down.restart, RestartDecision::Stay);
        let up = handle_state_change(
            "gmail",
            ServiceState::Unhealthy,
            ServiceState::Running,
            &config,
            &mut tracker,
        );
        assert_eq!(up.transition, Transition::Recovered);
        assert_eq!(up.notification, Some(notice("FGP Service Recovered", "gmail daemon recovered")));
        assert_eq!(up.restart, RestartDecision::Stay);
        assert_eq!(tracker.attempts_for("gmail"), 0);
    }
}

#[test]
fn disabled_watchdog_notifies_but_never_restarts() {
    let config = WatchdogConfig::new(false, 0, 1);
    let mut tracker = RestartTracker::new();
    let change =
        handle_state_change("s", ServiceState::Running, ServiceState::Stopped, &config, &mut tracker);
    assert_eq!(change.notification, Some(notice("FGP Service Stopped", "s daemon stopped unexpectedly")));
    assert_eq!(change.restart, RestartDecision::Stay);
    assert_eq!(tracker.attempts_for("s"), 0);
}

#[test]
fn only_crash_and_stop_of_a_running_service_restart() {
    let config = WatchdogConfig::new(true, 0, 1);
    for prev in STATES {
        for current in STATES {
            let mut tracker = RestartTracker::new();
            let change = handle_state_change("s", prev, current, &config, &mut tracker);
            let due = prev == ServiceState::Running
                && (current == ServiceState::Error || current == ServiceState::Stopped);
            assert_eq!(change.restart != RestartDecision::Stay, due);
            assert_eq!(tracker.attempts_for("s"), if due { 1 } else { 0 });
        }
    }
}

#[test]
fn unlimited_restarts_are_never_refused() {
    let config = WatchdogConfig::new(true, 0, 3);
    let mut tracker = RestartTracker::new();
    for attempt in 1..=20u32 {
        assert_eq!(
            attempt_restart("s", &config, &mut tracker),
            RestartDecision::Restart { attempt, delay_secs: 3 }
        );
    }
}

#[test]
fn restarts_are_allowed_up_to_the_limit() {
    let config = WatchdogConfig::new(true, 3, 0);
    let mut tracker = RestartTracker::new();
    for attempt in 1..=3u32 {
        assert_eq!(
            attempt_restart("s", &config, &mut tracker),
            RestartDecision::Restart { attempt, delay_secs: 0 }
        );
    }
    assert_eq!(
        attempt_restart("s", &config, &mut tracker),
        RestartDecision::Refused {
            attempt: 4,
            notification: notice("FGP Restart Limit Reached", "s exceeded 3 restart attempts"),
        }
    );
    assert_eq!(tracker.attempts_for("other"), 0);
}

#[test]
fn counters_are_kept_per_service() {
    let config = WatchdogConfig::new(true, 1, 0);
    let mut tracker = RestartTracker::default();
    assert!(matches!(attempt_restart("a", &config, &mut tracker), RestartDecision::Restart { attempt: 1, .. }));
    assert!(matches!(attempt_restart("b", &config, &mut tracker), RestartDecision::Restart { attempt: 1, .. }));
    assert!(matches!(attempt_restart("a", &config, &mut tracker), RestartDecision::Refused { attempt: 2, .. }));
    tracker.clear("a");
    assert_eq!(tracker.attempts_for("a"), 0);
    assert_eq!(tracker.attempts_for("b"), 1);
}

#[test]
fn failed_restart_is_notified() {
    assert_eq!(
        restart_failed("gmail", "manifest missing"),
        notice("FGP Restart Failed", "Failed to restart gmail: manifest missing")
    );
}

#[test]
fn first_observation_and_unchanged_state_bring_nothing() {
    let mut monitor = Monitor::new(WatchdogConfig::new(true, 1, 0));
    assert_eq!(monitor.last_state("s"), None);
    assert_eq!(monitor.check_service("s", ServiceState::Error), None);
    assert_eq!(monitor.check_service("s", ServiceState::Error), None);
    assert_eq!(monitor.last_state("s"), Some(ServiceState::Error));
    assert_eq!(monitor.attempts_for("s"), 0);
}

#[test]
fn other_transitions_are_only_classified() {
    let mut monitor = Monitor::new(WatchdogConfig::new(true, 1, 0));
    monitor.check_service("s", ServiceState::Error);
    let change = monitor.check_service("s", ServiceState::Stopped).unwrap();
    assert_eq!(change.transition, Transition::Other);
    assert_eq!(change.notification, None);
    assert_eq!(change.restart, RestartDecision::Stay);
}

#[test]
fn repeated_crashes_with_recovery_in_between_always_restart() {
    let mut monitor = Monitor::new(WatchdogConfig::new(true, 1, 2));
    monitor.check_service("s", ServiceState::Running);
    for _ in 0..3 {
        let crash = monitor.check_service("s", ServiceState::Stopped).unwrap();
        assert_eq!(crash.restart, RestartDecision::Restart { attempt: 1, delay_secs: 2 });
        let back = monitor.check_service("s", ServiceState::Running).unwrap();
        assert_eq!(back.notification, Some(notice("FGP Service Started", "s daemon started")));
        assert_eq!(monitor.attempts_for("s"), 0);
    }
}

#[test]
fn config_keeps_its_settings() {
    let config = WatchdogConfig::new(true, 0, 7);
    assert!(config.enabled);
    assert_eq!(config.max_restarts, 0);
    assert_eq!(config.restart_delay_secs, 7);
    assert!(!config.is_limited());
    assert!(WatchdogConfig::new(false, 2, 0).is_limited());
    assert_eq!(Monitor::new(config).config().restart_delay_secs, 7);
}

#[test]
fn log_lines_name_the_service_and_what_happened() {
    assert_eq!(log_line("gmail", Running, Error), "gmail crashed");
    assert_eq!(log_line("gmail", Running, Stopped), "gmail stopped");
    assert_eq!(log_line("gmail", Running, Unhealthy), "gmail is unhealthy");
    assert_eq!(log_line("gmail", Unhealthy, Running), "gmail recovered");
    assert_eq!(log_line("gmail", Error, Running), "gmail started");
    assert_eq!(log_line("gmail", Stopped, Running), "gmail started");
}

#[test]
fn other_changes_are_logged_with_their_states() {
    for prev in STATES {
        for current in STATES {
            if classify(prev, current) == Transition::Other {
                assert_eq!(
                    log_line("s", prev, current),
                    format!("s state: {:?} \u{2192} {:?}", prev, current)
                );
            }
        }
    }
    let mut tracker = RestartTracker::new();
    let change = handle_state_change("s", Error, Unhealthy, &WatchdogConfig::new(true, 1, 0), &mut tracker);
    assert_eq!(change.log, "s state: Error \u{2192} Unhealthy");
    assert_eq!(change.notification, None);
}

#[test]
fn state_names_are_those_of_the_variants() {
    for state in STATES {
        assert_eq!(state.name(), format!("{:?}", state));
    }
}

#[test]
fn restart_decisions_are_logged() {
    let limited = WatchdogConfig::new(true, 3, 0);
    let unlimited = WatchdogConfig::new(true, 0, 0);
    let restart = RestartDecision::Restart { attempt: 2, delay_secs: 0 };
    assert_eq!(restart_log("s", &limited, &restart), Some("Restarting s (attempt 2/3)...".to_string()));
    assert_eq!(restart_log("s", &unlimited, &restart), Some("Restarting s (attempt 2)...".to_string()));
    let mut tracker = RestartTracker::new();
    let one = WatchdogConfig::new(true, 1, 0);
    attempt_restart("s", &one, &mut tracker);
    let refused = attempt_restart("s", &one, &mut tracker);
    assert_eq!(
        restart_log("s", &one, &refused),
        Some("s exceeded max restarts (1), not restarting".to_string())
    );
    assert_eq!(restart_log("s", &one, &RestartDecision::Stay), None);
}

#[test]
fn restart_outcome_is_logged_and_a_failure_notified() {
    assert_eq!(
        restart_outcome("gmail", &Ok(())),
        RestartReport { log: "gmail restart initiated".to_string(), notification: None }
    );
    assert_eq!(
        restart_outcome("gmail", &Err("boom".to_string())),
        RestartReport {
            log: "Failed to restart gmail: boom".to_string(),
            notification: Some(notice("FGP Restart Failed", "Failed to restart gmail: boom")),
        }
    );
}

#[test]
fn failed_restart_leaves_the_counter_alone() {
    let mut monitor = Monitor::new(WatchdogConfig::new(true, 2, 0));
    monitor.check_service("s", Running);
    monitor.check_service("s", Error);
    restart_outcome("s", &Err("boom".to_string()));
    assert_eq!(monitor.attempts_for("s"), 1);
}
