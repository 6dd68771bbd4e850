use scrapyard_planet::state::engine::{can_sustain_charging, EngineStatus};
use scrapyard_planet::state::game_state::EngineState;

const SECOND: u64 = 1_000_000;

fn status(state: EngineState, stress: u64, escape_timer: u64, nanite_alert: u64) -> EngineStatus {
    EngineStatus { state, stress, escape_timer, nanite_alert }
}

#[test]
fn a_new_engine_is_idle() {
    let e = EngineStatus::new(60 * SECOND);
    assert_eq!(e, status(EngineState::Idle, 0, 60 * SECOND, 10_000_000));
}

#[test]
fn a_quarter_repaired_sustains_charging() {
    assert!(can_sustain_charging(1, 4));
    assert!(can_sustain_charging(4, 4));
    assert!(can_sustain_charging(25, 100));
    assert!(!can_sustain_charging(24, 100));
    assert!(!can_sustain_charging(0, 4));
    assert!(!can_sustain_charging(0, 0));
    assert!(!can_sustain_charging(1, 5));
}

#[test]
fn an_idle_engine_starts_charging() {
    let mut e = EngineStatus::new(60 * SECOND);
    let t = e.tick(4, 4, SECOND, false);
    assert_eq!(e, status(EngineState::Charging, 1_010_000, 59 * SECOND, 10_100_000));
    assert_eq!(t.status, e);
    assert!(!t.escaped);
    assert!(!t.cascade);
    assert!(!t.boss);
    assert_eq!(t.hull_damage, 0);
}

#[test]
fn an_engine_never_repaired_stays_idle() {
    let mut e = EngineStatus::new(60 * SECOND);
    let mut t = 0;
    while t < 10_000 {
        let tick = e.tick(0, 4, SECOND, false);
        assert_eq!(e.state, EngineState::Idle);
        assert!(!tick.escaped);
        t += 1;
    }
    assert_eq!(e.escape_timer, 60 * SECOND);
    assert_eq!(e.stress, 0);
    assert_eq!(e.nanite_alert, 10_000_000 + 10_000 * 100_000);
}

#[test]
fn an_engine_without_room_stays_idle() {
    let mut e = status(EngineState::Charging, 5 * SECOND, 60 * SECOND, 0);
    e.tick(0, 0, SECOND, false);
    assert_eq!(e.state, EngineState::Idle);
    assert_eq!(e.stress, 3 * SECOND);
    assert_eq!(e.escape_timer, 60 * SECOND);
}

#[test]
fn the_escape_timer_counts_down_by_the_repaired_fraction() {
    let mut e = EngineStatus::new(60 * SECOND);
    e.tick(1, 4, SECOND, false);
    assert_eq!(e.escape_timer, 60 * SECOND - 250_000);
    e.tick(3, 4, SECOND, false);
    assert_eq!(e.escape_timer, 60 * SECOND - 1_000_000);
    e.tick(2, 3, 100, false);
    assert_eq!(e.escape_timer, 60 * SECOND - 1_000_066);
}

#[test]
fn the_escape_timer_stands_still_while_idle() {
    let mut e = status(EngineState::Idle, 40 * SECOND, 30 * SECOND, 0);
    let mut t = 0;
    while t < 4 {
        e.tick(4, 4, SECOND, false);
        assert_eq!(e.state, EngineState::Idle);
        assert_eq!(e.escape_timer, 30 * SECOND);
        t += 1;
    }
    assert_eq!(e.stress, 32 * SECOND);
}

#[test]
fn a_fully_repaired_engine_escapes_after_sixty_seconds_of_charging() {
    let mut e = status(EngineState::Idle, 0, 60 * SECOND, 0);
    let mut t = 1;
    while t < 60 {
        let tick = e.tick(4, 4, SECOND, false);
        assert_eq!(e.state, EngineState::Charging);
        assert_eq!(e.escape_timer, (60 - t) * SECOND);
        assert!(!tick.escaped);
        assert!(!tick.cascade);
        t += 1;
    }
    let tick = e.tick(4, 4, SECOND, false);
    assert!(tick.escaped);
    assert_eq!(e.state, EngineState::Escaped);
    assert_eq!(e.escape_timer, 0);
}

#[test]
fn uneven_frames_escape_when_their_sum_reaches_the_timer() {
    let mut e = status(EngineState::Idle, 0, 60 * SECOND, 0);
    let frames = [16_667u64, 33_333, 8_000, 16_667, 50_000];
    let mut charged: u64 = 0;
    let mut i = 0;
    while e.state != EngineState::Escaped {
        assert!(charged < 60 * SECOND);
        let dt = frames[i % frames.len()];
        e.tick(7, 7, dt, false);
        charged += dt;
        i += 1;
    }
    assert!(charged >= 60 * SECOND);
    assert!(charged < 60 * SECOND + 50_000);
}

#[test]
fn a_half_repaired_engine_takes_twice_as_long() {
    let mut e = status(EngineState::Idle, 0, 10 * SECOND, 0);
    let mut t = 0;
    while e.state != EngineState::Escaped {
        e.tick(2, 4, SECOND, false);
        t += 1;
    }
    assert_eq!(t, 20);
}

#[test]
fn an_escaped_engine_stays_escaped() {
    let mut e = status(EngineState::Escaped, 5, 0, 7);
    let t = e.tick(4, 4, SECOND, false);
    assert_eq!(e, status(EngineState::Escaped, 5, 0, 100_007));
    assert!(!t.escaped);
}

#[test]
fn stress_decays_while_idle_and_stops_at_zero() {
    let mut e = status(EngineState::Idle, 5 * SECOND, 60 * SECOND, 0);
    e.tick(0, 4, SECOND, false);
    assert_eq!(e.stress, 3 * SECOND);
    e.tick(0, 4, SECOND, false);
    assert_eq!(e.stress, SECOND);
    e.tick(0, 4, SECOND, false);
    assert_eq!(e.stress, 0);
    e.tick(0, 4, u64::MAX, false);
    assert_eq!(e.stress, 0);
}

#[test]
fn stress_grows_with_the_alert() {
    let mut e = status(EngineState::Charging, 0, 600 * SECOND, 20_000_000 - 100_000);
    e.tick(4, 4, SECOND, true);
    assert_eq!(e.nanite_alert, 20_000_000);
    assert_eq!(e.stress, 2 * SECOND);
}

#[test]
fn the_alert_grows_in_every_state() {
    let mut idle = status(EngineState::Idle, 0, 60 * SECOND, 0);
    idle.tick(0, 0, 10 * SECOND, false);
    assert_eq!(idle.nanite_alert, 1_000_000);
    let mut escaped = status(EngineState::Escaped, 0, 0, 0);
    escaped.tick(4, 4, 10 * SECOND, false);
    assert_eq!(escaped.nanite_alert, 1_000_000);
    let mut full = status(EngineState::Idle, 0, 0, u64::MAX - 1);
    full.tick(0, 0, 10 * SECOND, false);
    assert_eq!(full.nanite_alert, u64::MAX);
}

#[test]
fn critical_stress_forces_the_engine_idle() {
    let mut e = status(EngineState::Charging, 61_000_000, 30 * SECOND, 10_000_000);
    let t = e.tick(4, 4, SECOND, true);
    assert_eq!(e.state, EngineState::Idle);
    assert_eq!(e.stress, 59_000_000);
    assert_eq!(e.escape_timer, 30 * SECOND);
    assert!(!t.cascade);
}

#[test]
fn just_below_critical_the_engine_keeps_charging_into_the_cascade() {
    let mut e = status(EngineState::Charging, 60_999_999, 30 * SECOND, 10_000_000 - 100_000);
    let t = e.tick(4, 4, SECOND, false);
    assert_eq!(e.state, EngineState::Charging);
    assert_eq!(e.stress, 61_999_999);
    assert!(t.cascade);
    assert!(t.boss);
    assert_eq!(t.hull_damage, 5_000);
    assert_eq!(e.nanite_alert, 18_000_000);
    assert_eq!(e.escape_timer, 30 * SECOND - SECOND + 5 * SECOND);
    let t = e.tick(4, 4, SECOND, true);
    assert_eq!(e.state, EngineState::Idle);
    assert!(!t.cascade);
    assert!(!t.boss);
}

#[test]
fn the_cascade_calls_no_boss_where_one_is() {
    let mut e = status(EngineState::Idle, 70_000_000, 30 * SECOND, 10_000_000);
    let t = e.tick(4, 4, SECOND, true);
    assert_eq!(e.state, EngineState::Idle);
    assert!(t.cascade);
    assert!(!t.boss);
    assert_eq!(t.hull_damage, 5_000);
    assert_eq!(e.nanite_alert, 10_100_000);
    assert_eq!(e.escape_timer, 30 * SECOND);
}

#[test]
fn cascade_damage_is_in_proportion_to_the_frame() {
    let mut e = status(EngineState::Idle, 200_000_000, 30 * SECOND, 0);
    assert_eq!(e.tick(0, 0, 16_667, true).hull_damage, 83);
    assert_eq!(e.tick(0, 0, 0, true).hull_damage, 0);
    assert_eq!(e.tick(0, 0, 2 * SECOND, true).hull_damage, 10_000);
}

#[test]
fn the_engine_restarts_only_at_or_below_the_unstable_stress() {
    let mut e = status(EngineState::Charging, 61_000_000, 600 * SECOND, 0);
    let mut t = 1;
    while t <= 15 {
        e.tick(4, 4, SECOND, true);
        assert_eq!(e.state, EngineState::Idle);
        assert_eq!(e.stress, 61_000_000 - 2 * t * SECOND);
        t += 1;
    }
    assert_eq!(e.stress, 31_000_000);
    e.tick(4, 4, SECOND, true);
    assert_eq!(e.state, EngineState::Charging);
}

#[test]
fn one_above_the_unstable_stress_the_engine_stays_idle() {
    let mut e = status(EngineState::Idle, 31_000_001, 600 * SECOND, 0);
    e.tick(4, 4, 0, true);
    assert_eq!(e.state, EngineState::Idle);
    let mut e = status(EngineState::Idle, 31_000_000, 600 * SECOND, 0);
    e.tick(4, 4, 0, true);
    assert_eq!(e.state, EngineState::Charging);
}

#[test]
fn escape_and_cascade_on_the_same_tick() {
    let mut e = status(EngineState::Charging, 60_500_000, SECOND, 10_000_000 - 100_000);
    let t = e.tick(4, 4, SECOND, false);
    assert!(t.escaped);
    assert!(t.cascade);
    assert_eq!(e.state, EngineState::Escaped);
    assert_eq!(e.escape_timer, 0);
}

#[test]
fn a_frame_of_no_time_changes_no_quantity() {
    let mut e = status(EngineState::Charging, 7, 9, 11);
    e.tick(4, 4, 0, false);
    assert_eq!(e, status(EngineState::Charging, 7, 9, 11));
}
