use balancebeam::health::{
    apply_probe_outcomes, health_check_interval, is_healthy, probe_request, ProbeError,
    ProbeOutcome, ProbeRequest, HEALTHY_STATUS, HOST_HEADER, PROBE_METHOD,
};
use balancebeam::router::{route, RouteError};
use balancebeam::upstreams::UpstreamsState;
use rand::rngs::StdRng;
use rand::SeedableRng;

#[test]
fn only_status_200_is_healthy() {
    assert_eq!(HEALTHY_STATUS, 200);
    assert!(is_healthy(ProbeOutcome::Status(200)));
    assert!(!is_healthy(ProbeOutcome::Status(500)));
    assert!(!is_healthy(ProbeOutcome::Status(204)));
    assert!(!is_healthy(ProbeOutcome::Status(301)));
    assert!(!is_healthy(ProbeOutcome::Status(404)));
    assert!(!is_healthy(ProbeOutcome::ConnectFailed));
    assert!(!is_healthy(ProbeOutcome::WriteFailed));
    assert!(!is_healthy(ProbeOutcome::ReadFailed));
}

#[test]
fn interval_zero_switches_health_checks_off() {
    assert_eq!(health_check_interval(0), None);
    assert_eq!(health_check_interval(1), Some(1));
    assert_eq!(health_check_interval(10), Some(10));
}

#[test]
fn a_round_of_probes_sets_every_flag() {
    let mut state = UpstreamsState::new(4);
    state.set_dead(3);
    apply_probe_outcomes(
        &mut state,
        &[
            ProbeOutcome::Status(200),
            ProbeOutcome::ConnectFailed,
            ProbeOutcome::Status(503),
            ProbeOutcome::Status(200),
        ],
    );
    assert!(state.is_alive(0));
    assert!(!state.is_alive(1));
    assert!(!state.is_alive(2));
    assert!(state.is_alive(3));
    assert_eq!(state.live_count(), 2);
}

#[test]
fn failing_upstream_is_excluded_until_it_answers_200_again() {
    let mut state = UpstreamsState::new(2);
    apply_probe_outcomes(&mut state, &[ProbeOutcome::Status(200), ProbeOutcome::Status(500)]);
    assert!(!state.is_alive(1));
    let mut rng = StdRng::seed_from_u64(11);
    let mut round: usize = 0;
    while round < 100 {
        assert_eq!(route(&state, &mut rng), Ok(0));
        round += 1;
    }
    apply_probe_outcomes(&mut state, &[ProbeOutcome::Status(200), ProbeOutcome::Status(200)]);
    assert!(state.is_alive(1));
    let mut chosen: Vec<bool> = vec![false; 2];
    round = 0;
    while round < 400 {
        chosen[route(&state, &mut rng).unwrap()] = true;
        round += 1;
    }
    assert_eq!(chosen, vec![true, true]);
}

#[test]
fn a_round_in_which_every_probe_fails_leaves_nothing_to_route_to() {
    let mut state = UpstreamsState::new(2);
    apply_probe_outcomes(&mut state, &[ProbeOutcome::ReadFailed, ProbeOutcome::WriteFailed]);
    assert!(state.all_dead());
    let mut rng = StdRng::seed_from_u64(12);
    assert_eq!(route(&state, &mut rng), Err(RouteError::AllDead));
}

#[test]
fn probe_asks_for_the_probe_path_of_the_upstream() {
    assert_eq!(PROBE_METHOD, "GET");
    assert_eq!(HOST_HEADER, "Host");
    assert_eq!(
        probe_request("/health", "127.0.0.1:8080"),
        ProbeRequest { target: "/health".to_string(), host: "127.0.0.1:8080".to_string() }
    );
}

#[test]
fn probe_becomes_a_get_for_the_probe_path_with_the_upstream_as_host() {
    let probe = probe_request("/health", "127.0.0.1:8080").to_http().unwrap();
    assert_eq!(probe.method(), http::Method::GET);
    assert_eq!(probe.uri().path(), "/health");
    assert_eq!(probe.headers().len(), 1);
    assert_eq!(probe.headers().get("host").unwrap().as_bytes(), b"127.0.0.1:8080");
    assert!(probe.body().is_empty());
    let root = probe_request("/", "example.org").to_http().unwrap();
    assert_eq!(root.uri().path(), "/");
    assert_eq!(root.headers().get("host").unwrap().as_bytes(), b"example.org");
}

#[test]
fn probe_for_an_unusable_path_is_refused() {
    assert_eq!(
        probe_request("/a b", "127.0.0.1:8080").to_http().err(),
        Some(ProbeError::InvalidRequest)
    );
    assert_eq!(
        probe_request("", "127.0.0.1:8080").to_http().err(),
        Some(ProbeError::InvalidRequest)
    );
}

#[test]
fn host_is_refused_for_control_characters_only() {
    assert_eq!(probe_request("/", "bad\nhost").to_http().err(), Some(ProbeError::InvalidRequest));
    assert_eq!(probe_request("/", "bad\u{7f}").to_http().err(), Some(ProbeError::InvalidRequest));
    assert_eq!(probe_request("/", "bad\u{1f}").to_http().err(), Some(ProbeError::InvalidRequest));
    assert!(probe_request("/", "with\ttab").to_http().is_ok());
    assert!(probe_request("/", "with space").to_http().is_ok());
    assert!(probe_request("/", "b\u{fc}cher.example").to_http().is_ok());
    assert!(probe_request("/", "").to_http().is_ok());
}
