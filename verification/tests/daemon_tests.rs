use focustime::daemon::{
    bearer_header, daemon_endpoint_url, epoch_secs_from, generate_token, parse_bound_port,
    readiness_step, ready_timeout_error, request_has_valid_token, route_api_request, start_background,
    started_result, status, stop_plan, stop_poll_step, stop_requested_result, token_from_drawn, ApiMethod, ApiRoute,
    DaemonConnectionInfo, DaemonProbe, DaemonState, DaemonStatusResult, ReadyStep, StartPlan, StopPlan,
    StopPoll,
};

fn state() -> DaemonState {
    DaemonState {
        pid: 4242,
        host: "127.0.0.1".to_string(),
        port: 43123,
        token: "secret-token".to_string(),
        started_at_epoch_secs: 1_700_000_000,
    }
}

fn info() -> DaemonConnectionInfo {
    DaemonConnectionInfo {
        pid: 4242,
        host: "127.0.0.1".to_string(),
        port: 43123,
        started_at_epoch_secs: 1_700_000_000,
    }
}

#[test]
fn status_is_running_only_when_the_recorded_daemon_answers() {
    let none = status(&DaemonProbe::NoState);
    assert!(!none.result.running && none.result.info.is_none() && !none.clear_stale_state);

    let answered = status(&DaemonProbe::Answered(state()));
    assert!(answered.result.running);
    assert_eq!(answered.result.info, Some(info()));
    assert!(!answered.clear_stale_state);

    let stale = status(&DaemonProbe::Unreachable(state()));
    assert!(!stale.result.running);
    assert_eq!(stale.result.info, Some(info()));
    assert!(stale.clear_stale_state);
}

#[test]
fn start_reports_a_running_daemon_or_spawns_a_child() {
    let running = DaemonStatusResult { running: true, info: Some(info()) };
    match start_background(None, &running) {
        Ok(StartPlan::AlreadyRunning(result)) => {
            assert!(result.already_running);
            assert_eq!(result.info, info());
        },
        _ => panic!("a running daemon is reported"),
    }

    let stopped = DaemonStatusResult { running: false, info: None };
    match start_background(Some(43123), &stopped) {
        Ok(StartPlan::Spawn(args)) => {
            assert_eq!(args, vec!["--daemon-start".to_string(), "--daemon-port=43123".to_string()]);
        },
        _ => panic!("a stopped daemon is spawned"),
    }
    match start_background(None, &stopped) {
        Ok(StartPlan::Spawn(args)) => assert_eq!(args, vec!["--daemon-start".to_string()]),
        _ => panic!("a stopped daemon is spawned"),
    }

    let broken = DaemonStatusResult { running: true, info: None };
    match start_background(None, &broken) {
        Err(error) => assert_eq!(error, "Daemon status is running but metadata is missing."),
        Ok(_) => panic!("missing metadata is an error"),
    }

    let started = started_result(&state());
    assert!(!started.already_running);
    assert_eq!(started.info, info());
}

#[test]
fn readiness_waits_for_the_child_record() {
    match readiness_step(4242, Some("exit status: 1"), None) {
        ReadyStep::Failed(error) => {
            assert_eq!(error, "Daemon process exited early with status exit status: 1.");
        },
        _ => panic!("an exited child fails the start"),
    }
    assert!(matches!(readiness_step(4242, None, Some(&state())), ReadyStep::ProbeHealth));
    assert!(matches!(readiness_step(7, None, Some(&state())), ReadyStep::Wait));
    assert!(matches!(readiness_step(4242, None, None), ReadyStep::Wait));
    assert_eq!(ready_timeout_error(), "Daemon did not become ready before timeout.");
}

#[test]
fn stop_asks_only_an_answering_daemon() {
    match stop_plan(&DaemonProbe::NoState) {
        StopPlan::Finished { result, clear_stale_state } => {
            assert!(!result.was_running && !result.stopped && result.info.is_none());
            assert!(!clear_stale_state);
        },
        StopPlan::RequestStop => panic!("nothing to stop"),
    }
    match stop_plan(&DaemonProbe::Unreachable(state())) {
        StopPlan::Finished { result, clear_stale_state } => {
            assert_eq!(result.info, Some(info()));
            assert!(clear_stale_state);
        },
        StopPlan::RequestStop => panic!("a stale record is cleared, not stopped"),
    }
    assert!(matches!(stop_plan(&DaemonProbe::Answered(state())), StopPlan::RequestStop));

    assert_eq!(stop_poll_step(&StopPoll::RecordGone), (true, false));
    assert_eq!(stop_poll_step(&StopPoll::NoAnswer), (true, true));
    assert_eq!(stop_poll_step(&StopPoll::StillAnswering), (false, false));

    let stopped = stop_requested_result(&state(), true);
    assert!(stopped.was_running && stopped.stopped);
    assert_eq!(stopped.info, Some(info()));
}

#[test]
fn api_urls_and_tokens() {
    assert_eq!(daemon_endpoint_url(&state(), "/v1/health"), "http://127.0.0.1:43123/v1/health");
    assert_eq!(bearer_header("abc"), "Bearer abc");
    assert!(request_has_valid_token(Some("Bearer abc"), "abc"));
    assert!(!request_has_valid_token(Some("Bearer abd"), "abc"));
    assert!(!request_has_valid_token(Some("abc"), "abc"));
    assert!(!request_has_valid_token(None, "abc"));
}

#[test]
fn bound_ports_are_read_after_the_last_colon() {
    assert_eq!(parse_bound_port("127.0.0.1:43123"), Ok(43123));
    assert_eq!(parse_bound_port("[::1]:8080"), Ok(8080));
    assert_eq!(
        parse_bound_port("127.0.0.1:abc"),
        Err("Failed to parse daemon server port from `127.0.0.1:abc`: invalid digit found in string".to_string())
    );
    assert_eq!(
        parse_bound_port("127.0.0.1:70000"),
        Err("Failed to parse daemon server port from `127.0.0.1:70000`: number too large to fit in target type".to_string())
    );
    assert_eq!(
        parse_bound_port("127.0.0.1:"),
        Err("Failed to parse daemon server port from `127.0.0.1:`: cannot parse integer from empty string".to_string())
    );
}

#[test]
fn epoch_seconds_saturate_and_default_to_zero() {
    assert_eq!(epoch_secs_from(Some(1_700_000_000)), 1_700_000_000);
    assert_eq!(epoch_secs_from(Some(u64::MAX)), i64::MAX);
    assert_eq!(epoch_secs_from(None), 0);
}

#[test]
fn api_requests_are_routed_only_for_loopback_clients_with_the_token() {
    let token = "tok";
    let auth = Some("Bearer tok");
    assert_eq!(route_api_request(true, auth, token, ApiMethod::Get, "/v1/health"), ApiRoute::Health);
    assert_eq!(route_api_request(true, auth, token, ApiMethod::Get, "/v1/status?verbose=1"), ApiRoute::Status);
    assert_eq!(route_api_request(true, auth, token, ApiMethod::Post, "/v1/timer/start"), ApiRoute::TimerStart);
    assert_eq!(route_api_request(true, auth, token, ApiMethod::Post, "/v1/daemon/stop"), ApiRoute::DaemonStop);
    assert_eq!(
        route_api_request(false, auth, token, ApiMethod::Get, "/v1/health"),
        ApiRoute::Reject {
            status: 403,
            code: "forbidden".to_string(),
            message: "Only loopback clients can access the local API.".to_string(),
        }
    );
    assert_eq!(
        route_api_request(true, Some("Bearer nope"), token, ApiMethod::Get, "/v1/health"),
        ApiRoute::Reject {
            status: 401,
            code: "unauthorized".to_string(),
            message: "Missing or invalid bearer token.".to_string(),
        }
    );
    assert_eq!(
        route_api_request(true, auth, token, ApiMethod::Post, "/v1/health?x=1"),
        ApiRoute::Reject {
            status: 404,
            code: "not_found".to_string(),
            message: "Unknown endpoint `/v1/health`.".to_string(),
        }
    );
}

#[test]
fn generated_tokens_are_url_safe_base64_of_32_bytes() {
    let token = generate_token().expect("the system random source is available");
    assert_eq!(token.len(), 43);
    assert!(token.chars().all(|c| c.is_ascii_alphanumeric() || c == '-' || c == '_'));
    let other = generate_token().unwrap();
    assert_ne!(token, other);
}

#[test]
fn token_from_drawn_encodes_the_drawn_bytes() {
    assert_eq!(token_from_drawn(Ok(vec![0xfb, 0xff])), Ok("-_8".to_string()));
    assert_eq!(token_from_drawn(Ok(b"Man".to_vec())), Ok("TWFu".to_string()));
    assert_eq!(token_from_drawn(Ok(vec![0u8; 32])), Ok("A".repeat(43)));
}

#[test]
fn token_from_drawn_wraps_the_source_error() {
    assert_eq!(
        token_from_drawn(Err("no entropy".to_string())),
        Err("Failed to generate daemon auth token: no entropy".to_string())
    );
}
