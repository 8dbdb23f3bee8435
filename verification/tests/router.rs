use balancebeam::router::{nth_live, route, route_after_failure, RouteError};
use balancebeam::upstreams::UpstreamsState;
use rand::rngs::StdRng;
use rand::SeedableRng;

fn seeded(seed: u64) -> StdRng {
    StdRng::seed_from_u64(seed)
}

#[test]
fn route_fails_when_all_are_dead() {
    let mut state = UpstreamsState::new(3);
    state.set_dead(0);
    state.set_dead(1);
    state.set_dead(2);
    let mut rng = seeded(1);
    assert_eq!(route(&state, &mut rng), Err(RouteError::AllDead));
    assert_eq!(route(&UpstreamsState::new(0), &mut rng), Err(RouteError::AllDead));
}

#[test]
fn route_never_selects_a_dead_upstream() {
    let mut state = UpstreamsState::new(5);
    state.set_dead(1);
    state.set_dead(4);
    let mut seen: Vec<bool> = vec![false; 5];
    let mut rng = seeded(2);
    let mut round: usize = 0;
    while round < 500 {
        let idx: usize = route(&state, &mut rng).unwrap();
        assert!(idx < 5);
        assert!(state.is_alive(idx));
        seen[idx] = true;
        round += 1;
    }
    assert_eq!(seen, vec![true, false, true, true, false]);
}

#[test]
fn route_stays_below_the_upstream_count() {
    let state = UpstreamsState::new(3);
    let mut rng = StdRng::from_entropy();
    let mut round: usize = 0;
    while round < 200 {
        assert!(route(&state, &mut rng).unwrap() < 3);
        round += 1;
    }
}

#[test]
fn nth_live_skips_the_dead() {
    let mut state = UpstreamsState::new(6);
    state.set_dead(0);
    state.set_dead(3);
    assert_eq!(nth_live(&state, 0), 1);
    assert_eq!(nth_live(&state, 1), 2);
    assert_eq!(nth_live(&state, 2), 4);
    assert_eq!(nth_live(&state, 3), 5);
    let all = UpstreamsState::new(4);
    assert_eq!(nth_live(&all, 0), 0);
    assert_eq!(nth_live(&all, 3), 3);
}

#[test]
fn a_failed_upstream_is_marked_dead_and_not_chosen_again() {
    let mut state = UpstreamsState::new(2);
    let mut rng = seeded(3);
    let next = route_after_failure(&mut state, 1, &mut rng);
    assert_eq!(next, Ok(0));
    assert!(!state.is_alive(1));
    assert!(state.is_alive(0));
    assert_eq!(state.live_count(), 1);
    let last = route_after_failure(&mut state, 0, &mut rng);
    assert_eq!(last, Err(RouteError::AllDead));
    assert!(state.all_dead());
}

#[test]
fn hundred_connections_land_on_the_live_upstream() {
    // Upstream 1 refuses every connection; upstream 0 accepts.
    let mut state = UpstreamsState::new(2);
    let mut rng = seeded(4);
    let mut refused: usize = 0;
    let mut connection: usize = 0;
    while connection < 100 {
        let mut choice = route(&state, &mut rng);
        let connected: usize;
        loop {
            let idx: usize = choice.expect("a live upstream is left");
            if idx == 0 {
                connected = idx;
                break;
            }
            refused += 1;
            choice = route_after_failure(&mut state, idx, &mut rng);
        }
        assert_eq!(connected, 0);
        connection += 1;
    }
    assert!(refused <= 1);
    if refused == 1 {
        assert!(!state.is_alive(1));
    }
    assert!(state.is_alive(0));
}

#[test]
fn failures_exhaust_the_pool_in_as_many_steps_as_upstreams() {
    let n: usize = 8;
    let mut state = UpstreamsState::new(n);
    let mut rng = seeded(5);
    let mut choice = route(&state, &mut rng);
    let mut attempts: usize = 0;
    while let Ok(idx) = choice {
        assert!(state.is_alive(idx));
        attempts += 1;
        choice = route_after_failure(&mut state, idx, &mut rng);
    }
    assert_eq!(attempts, n);
    assert_eq!(choice, Err(RouteError::AllDead));
    assert!(state.all_dead());
}

#[test]
fn the_same_seed_gives_the_same_routes() {
    let mut state = UpstreamsState::new(9);
    state.set_dead(4);
    let mut first = seeded(77);
    let mut second = seeded(77);
    let mut round: usize = 0;
    while round < 50 {
        assert_eq!(route(&state, &mut first), route(&state, &mut second));
        round += 1;
    }
}
