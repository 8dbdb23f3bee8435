use balancebeam::upstreams::UpstreamsState;

fn flags(state: &UpstreamsState) -> Vec<bool> {
    let mut out: Vec<bool> = Vec::new();
    let mut i: usize = 0;
    while i < state.len() {
        out.push(state.is_alive(i));
        i += 1;
    }
    out
}

fn count_true(flags: &[bool]) -> usize {
    let mut n: usize = 0;
    for f in flags {
        if *f {
            n += 1;
        }
    }
    n
}

#[test]
fn new_registry_has_every_upstream_alive() {
    let state = UpstreamsState::new(4);
    assert_eq!(state.len(), 4);
    assert_eq!(state.live_count(), 4);
    assert_eq!(flags(&state), vec![true, true, true, true]);
    assert!(!state.all_dead());
}

#[test]
fn registry_without_upstreams_is_all_dead() {
    let state = UpstreamsState::new(0);
    assert_eq!(state.len(), 0);
    assert_eq!(state.live_count(), 0);
    assert!(state.all_dead());
}

#[test]
fn set_dead_then_set_alive_round_trips() {
    let mut i: usize = 0;
    while i < 5 {
        let mut state = UpstreamsState::new(5);
        state.set_dead(i);
        assert!(!state.is_alive(i));
        assert_eq!(state.live_count(), 4);
        state.set_alive(i);
        assert!(state.is_alive(i));
        assert_eq!(state.live_count(), 5);
        assert_eq!(flags(&state), vec![true; 5]);
        i += 1;
    }
}

#[test]
fn marking_twice_is_a_no_op() {
    let mut state = UpstreamsState::new(3);
    state.set_dead(1);
    state.set_dead(1);
    assert_eq!(flags(&state), vec![true, false, true]);
    assert_eq!(state.live_count(), 2);
    state.set_alive(1);
    state.set_alive(1);
    assert_eq!(flags(&state), vec![true, true, true]);
    assert_eq!(state.live_count(), 3);
    state.set_alive(0);
    assert_eq!(state.live_count(), 3);
}

#[test]
fn live_count_tracks_the_flags_through_any_sequence() {
    let n: usize = 7;
    let mut state = UpstreamsState::new(n);
    let mut seed: u64 = 0x2545_f491_4f6c_dd1d;
    let mut step: usize = 0;
    while step < 2000 {
        seed ^= seed << 13;
        seed ^= seed >> 7;
        seed ^= seed << 17;
        let idx: usize = (seed % (n as u64)) as usize;
        if (seed >> 32) % 2 == 0 {
            state.set_dead(idx);
            assert!(!state.is_alive(idx));
        } else {
            state.set_alive(idx);
            assert!(state.is_alive(idx));
        }
        let now = flags(&state);
        assert_eq!(state.live_count(), count_true(&now));
        assert_eq!(state.all_dead(), count_true(&now) == 0);
        assert_eq!(state.len(), n);
        step += 1;
    }
}

#[test]
fn all_dead_only_once_every_index_is_dead() {
    let mut state = UpstreamsState::new(3);
    state.set_dead(0);
    assert!(!state.all_dead());
    state.set_dead(2);
    assert!(!state.all_dead());
    state.set_dead(1);
    assert!(state.all_dead());
    assert_eq!(state.live_count(), 0);
    state.set_alive(2);
    assert!(!state.all_dead());
    assert_eq!(state.live_count(), 1);
}

#[test]
fn reset_from_probe_results_replaces_every_flag() {
    let mut state = UpstreamsState::new(4);
    state.set_dead(3);
    state.reset_from_probe_results(&[false, true, false, true]);
    assert_eq!(flags(&state), vec![false, true, false, true]);
    assert_eq!(state.live_count(), 2);
    state.reset_from_probe_results(&[false, false, false, false]);
    assert!(state.all_dead());
    state.reset_from_probe_results(&[true, true, true, true]);
    assert_eq!(state.live_count(), 4);
}
