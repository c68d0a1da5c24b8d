use auth_bridge::bridge::{is_valid_auth_url, run_authorization, session_result};
use auth_bridge::channel::{report_callback, CallbackChannel};
use auth_bridge::errors::BridgeError;
use auth_bridge::matcher::{match_redirect, Provider, RedirectMatch};
use auth_bridge::outcome::{classify_callback, CallbackOutcome};
use auth_bridge::session::{
    decide_tick, run_session, AuthorizationSession, PollObservation, SessionOutcome, TickDecision,
    AUTH_TIMEOUT_MS, MAX_POLL_TICKS,
};

fn quiet() -> PollObservation {
    PollObservation { callback: None, surface_alive: true }
}

fn success(code: &str) -> CallbackOutcome {
    CallbackOutcome::Success { code: code.to_string() }
}

#[test]
fn test_oauth_callback_with_code() {
    let code = Some("test_authorization_code".to_string());
    let error = None;
    let window_label = "oauth-window".to_string();
    assert_eq!(window_label, "oauth-window");

    let outcome = classify_callback(code, error);
    let result = session_result(match outcome {
        CallbackOutcome::Success { code } => SessionOutcome::Succeeded { code },
        CallbackOutcome::Failure { reason } => SessionOutcome::Failed { reason },
    });

    assert!(result.is_ok());
    let result = result.unwrap();
    assert_eq!(result.success, true);
    assert_eq!(result.code.as_deref(), Some("test_authorization_code"));
}

#[test]
fn test_oauth_callback_with_error() {
    let code = None;
    let error = Some("access_denied".to_string());
    let window_label = "oauth-window".to_string();
    assert_eq!(window_label, "oauth-window");

    let outcome = classify_callback(code, error);
    let result = session_result(match outcome {
        CallbackOutcome::Success { code } => SessionOutcome::Succeeded { code },
        CallbackOutcome::Failure { reason } => SessionOutcome::Failed { reason },
    });

    assert!(result.is_ok());
    let result = result.unwrap();
    assert_eq!(result.success, false);
    assert_eq!(result.reason.as_deref(), Some("access_denied"));
}

#[test]
fn test_callback_without_parameters_names_missing_result() {
    let outcome = classify_callback(None, None);
    match outcome {
        CallbackOutcome::Failure { reason } => {
            assert_eq!(reason, "missing authorization result")
        }
        CallbackOutcome::Success { .. } => panic!("a parameterless callback must not succeed"),
    }
}

#[test]
fn test_channel_first_writer_wins() {
    let mut channel = CallbackChannel::new();
    assert!(channel.peek().is_none());

    assert!(channel.offer(success("first")));
    assert!(!channel.offer(success("second")));

    match channel.peek() {
        Some(CallbackOutcome::Success { code }) => assert_eq!(code, "first"),
        other => panic!("unexpected slot contents: {:?}", other),
    }
    // reads do not consume
    assert!(channel.peek().is_some());

    channel.clear();
    assert!(channel.peek().is_none());
    assert!(channel.offer(success("third")));
}

#[test]
fn test_report_callback_routes_into_channel() {
    let mut channel = CallbackChannel::new();
    report_callback(&mut channel, Some("abc123".to_string()), None);
    // a second report cannot overwrite the first
    report_callback(&mut channel, None, Some("late_error".to_string()));

    match channel.peek() {
        Some(CallbackOutcome::Success { code }) => assert_eq!(code, "abc123"),
        other => panic!("unexpected slot contents: {:?}", other),
    }
}

#[test]
fn test_match_redirect_baidu_code() {
    let m = match_redirect("https://alistgo.com/tool/baidu/callback?code=abc123&state=xyz");
    match m {
        RedirectMatch::Match { provider, outcome } => {
            assert_eq!(provider, Provider::Baidu);
            match outcome {
                CallbackOutcome::Success { code } => assert_eq!(code, "abc123"),
                other => panic!("expected a code, got {:?}", other),
            }
        }
        RedirectMatch::NoMatch => panic!("registered callback did not match"),
    }
}

#[test]
fn test_match_redirect_error_parameter() {
    let m = match_redirect("https://example.com/qwen-callback?error=access_denied");
    match m {
        RedirectMatch::Match { provider, outcome } => {
            assert_eq!(provider, Provider::Qwen);
            match outcome {
                CallbackOutcome::Failure { reason } => assert_eq!(reason, "access_denied"),
                other => panic!("expected a failure, got {:?}", other),
            }
        }
        RedirectMatch::NoMatch => panic!("registered callback did not match"),
    }
}

#[test]
fn test_match_redirect_code_wins_over_error() {
    let m = match_redirect("https://alistgo.com/tool/baidu/callback?error=denied&code=ok42");
    match m {
        RedirectMatch::Match { outcome: CallbackOutcome::Success { code }, .. } => {
            assert_eq!(code, "ok42")
        }
        other => panic!("expected the code to win, got {:?}", other),
    }
}

#[test]
fn test_match_redirect_empty_code_falls_through() {
    // an empty code does not count; the first non-empty value of a name wins
    let m = match_redirect("https://alistgo.com/tool/baidu/callback?code=&code=second");
    match m {
        RedirectMatch::Match { outcome: CallbackOutcome::Success { code }, .. } => {
            assert_eq!(code, "second")
        }
        other => panic!("expected the second code, got {:?}", other),
    }
}

#[test]
fn test_match_redirect_callback_without_result() {
    let m = match_redirect("https://alistgo.com/tool/baidu/callback");
    match m {
        RedirectMatch::Match { outcome: CallbackOutcome::Failure { reason }, .. } => {
            assert_eq!(reason, "missing authorization result")
        }
        other => panic!("expected a missing-result failure, got {:?}", other),
    }
}

#[test]
fn test_match_redirect_ignores_other_urls() {
    assert!(matches!(
        match_redirect("https://openapi.baidu.com/oauth/2.0/authorize?response_type=code"),
        RedirectMatch::NoMatch
    ));
    // a pattern hidden in the query is not a callback location
    assert!(matches!(
        match_redirect("https://passport.example.com/login?next=alistgo.com/tool/baidu/callback"),
        RedirectMatch::NoMatch
    ));
}

#[test]
fn test_auth_url_validation() {
    assert!(is_valid_auth_url("https://openapi.baidu.com/oauth/2.0/authorize"));
    assert!(is_valid_auth_url("http://localhost/auth"));
    assert!(!is_valid_auth_url(""));
    assert!(!is_valid_auth_url("https://"));
    assert!(!is_valid_auth_url("ftp://example.com"));
    assert!(!is_valid_auth_url("not a url"));
}

#[test]
fn test_scenario_callback_before_timeout() {
    // a few quiet polls, then the callback arrives
    let mut obs = vec![quiet(), quiet(), quiet()];
    obs.push(PollObservation { callback: Some(success("abc123")), surface_alive: true });

    let result = run_authorization("https://openapi.baidu.com/oauth/2.0/authorize", &obs);
    let result = result.expect("a delivered callback is a normal result");
    assert_eq!(result.success, true);
    assert_eq!(result.code.as_deref(), Some("abc123"));
    assert_eq!(result.reason, None);
}

#[test]
fn test_scenario_surface_closed_by_user() {
    let obs = vec![
        quiet(),
        quiet(),
        PollObservation { callback: None, surface_alive: false },
    ];

    let result = run_authorization("https://openapi.baidu.com/oauth/2.0/authorize", &obs);
    let result = result.expect("user cancellation is a normal result");
    assert_eq!(result.success, false);
    assert_eq!(result.code, None);
    assert_eq!(result.reason.as_deref(), Some("user_cancelled"));
}

#[test]
fn test_scenario_timeout() {
    // nothing ever happens: the deadline elapses and the coordinator closes
    // the still-open surface
    let obs: Vec<PollObservation> = Vec::new();

    let run = run_session(&obs);
    assert!(matches!(run.outcome, SessionOutcome::TimedOut));
    assert!(run.closed_by_coordinator);
    assert_eq!(run.ticks, MAX_POLL_TICKS);

    let result = run_authorization("https://openapi.baidu.com/oauth/2.0/authorize", &obs);
    match result {
        Err(BridgeError::AuthorizationTimeout) => {}
        other => panic!("expected the timeout error, got {:?}", other),
    }
}

#[test]
fn test_callback_wins_over_close_in_same_tick() {
    // the callback outcome and the window close land in the same poll tick:
    // the outcome decides the session, not the cancellation
    let obs = vec![PollObservation {
        callback: Some(success("same-tick")),
        surface_alive: false,
    }];

    let run = run_session(&obs);
    match run.outcome {
        SessionOutcome::Succeeded { code } => assert_eq!(code, "same-tick"),
        other => panic!("the callback must win, got {:?}", other),
    }
    assert!(!run.closed_by_coordinator);
}

#[test]
fn test_failure_callback_wins_over_deadline() {
    let d = decide_tick(
        &Some(CallbackOutcome::Failure { reason: "denied".to_string() }),
        false,
        1_000_000,
    );
    match d {
        TickDecision::Finish { outcome: SessionOutcome::Failed { reason } } => {
            assert_eq!(reason, "denied")
        }
        other => panic!("the failure must win, got {:?}", other),
    }
}

#[test]
fn test_session_duration_bounded() {
    // even a session that only ever times out ends within the deadline plus
    // one poll
    let run = run_session(&Vec::new());
    assert!(run.ticks <= MAX_POLL_TICKS);
    let duration_ms = run.ticks * auth_bridge::session::POLL_INTERVAL_MS;
    assert!(duration_ms <= auth_bridge::session::AUTH_TIMEOUT_MS + auth_bridge::session::POLL_INTERVAL_MS);
}

#[test]
fn test_session_object_lifecycle() {
    let mut session = AuthorizationSession::start("oauth-window".to_string(), 1000);
    assert_eq!(session.label, "oauth-window");

    // awaiting: nothing observed yet
    assert!(matches!(session.poll(true, 1000), TickDecision::Continue));

    // the first report fills the slot; the second is ignored
    session.report(Some("abc123".to_string()), None);
    session.report(None, Some("late".to_string()));
    match session.poll(true, 1100) {
        TickDecision::Finish { outcome: SessionOutcome::Succeeded { code } } => {
            assert_eq!(code, "abc123")
        }
        other => panic!("the first report must decide, got {:?}", other),
    }
}

#[test]
fn test_session_object_deadline() {
    let session = AuthorizationSession::start("oauth-window".to_string(), 5000);
    assert!(matches!(
        session.poll(true, 5000 + AUTH_TIMEOUT_MS - 1),
        TickDecision::Continue
    ));
    assert!(matches!(
        session.poll(true, 5000 + AUTH_TIMEOUT_MS),
        TickDecision::Finish { outcome: SessionOutcome::TimedOut }
    ));
    // a closed surface is cancellation, not timeout, before the deadline
    assert!(matches!(
        session.poll(false, 5001),
        TickDecision::Finish { outcome: SessionOutcome::Cancelled }
    ));
}

#[test]
fn test_invalid_url_rejected_before_any_surface() {
    let result = run_authorization("nonsense", &vec![quiet()]);
    match result {
        Err(BridgeError::InvalidInput { message }) => {
            assert_eq!(message, "invalid authorization URL")
        }
        other => panic!("expected invalid input, got {:?}", other),
    }
}
