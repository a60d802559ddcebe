use hollowknight_autosplit_wasm::hit_counter::{
    delta_string, HitCounter, HitEffect, HitObservation, VariableValue,
};

fn quiet() -> HitObservation {
    HitObservation {
        recoil: Some(false),
        hazard: Some(false),
        dead: Some(false),
        health: Some(5),
        scene_name: Some("Town".to_string()),
        game_state: Some(4),
    }
}

fn set_int(name: &'static str, v: i64) -> HitEffect {
    HitEffect::SetVariable(name, VariableValue::Int(v))
}

fn set_text(name: &'static str, v: &str) -> HitEffect {
    HitEffect::SetVariable(name, VariableValue::Text(v.to_string()))
}

#[test]
fn delta_string_signs() {
    assert_eq!(delta_string(3), "+3");
    assert_eq!(delta_string(-2), "\u{2212}2");
    assert_eq!(delta_string(0), "0");
    assert_eq!(delta_string(1234567), "+1234567");
    assert_eq!(delta_string(i64::MIN), "\u{2212}9223372036854775808");
}

#[test]
fn new_counter_shows_zero() {
    let mut h = HitCounter::new(false, None);
    assert_eq!(h.hits(), 0);
    assert_eq!(
        h.take_effects(),
        vec![set_int("hits", 0), set_int("segment hits", 0)]
    );
    assert!(h.take_effects().is_empty());
}

#[test]
fn add_hit_counts_segment_and_delta() {
    let mut h = HitCounter::new(false, None);
    h.take_effects();
    h.update_variables(1, 3, Some(vec![0, 2]), true, &quiet());
    h.take_effects();
    h.add_hit();
    assert_eq!(h.hits(), 1);
    assert_eq!(h.segments_hits(), &vec![0, 1]);
    assert_eq!(
        h.take_effects(),
        vec![set_int("hits", 1), set_int("segment hits", 1), set_text("delta hits", "\u{2212}1")]
    );
}

#[test]
fn hits_counted_on_rising_edges_only() {
    let mut h = HitCounter::new(false, None);
    h.update_variables(1, 3, None, true, &quiet());
    let mut o = quiet();
    o.recoil = Some(true);
    h.update_variables(1, 3, None, true, &o);
    assert_eq!(h.hits(), 1);
    h.update_variables(1, 3, None, true, &o);
    assert_eq!(h.hits(), 1);
    h.update_variables(1, 3, None, true, &quiet());
    h.update_variables(1, 3, None, true, &o);
    assert_eq!(h.hits(), 2);
}

#[test]
fn no_hits_while_timer_stopped() {
    let mut h = HitCounter::new(false, None);
    let mut o = quiet();
    o.hazard = Some(true);
    h.update_variables(0, 3, None, false, &o);
    assert_eq!(h.hits(), 0);
}

#[test]
fn death_and_zero_health_count_once() {
    let mut h = HitCounter::new(false, None);
    let mut o = quiet();
    o.health = Some(0);
    h.update_variables(1, 3, None, true, &o);
    assert_eq!(h.hits(), 1);
    o.dead = Some(true);
    h.update_variables(1, 3, None, true, &o);
    assert_eq!(h.hits(), 1);
}

#[test]
fn dream_fall_counts_when_enabled() {
    let mut h = HitCounter::new(true, None);
    let mut o = quiet();
    o.scene_name = Some("Dream_01_False_Knight".to_string());
    o.game_state = Some(6);
    h.update_variables(1, 3, None, true, &o);
    o.game_state = Some(3);
    h.update_variables(1, 3, None, true, &o);
    assert_eq!(h.hits(), 1);

    let mut g = HitCounter::new(false, None);
    let mut p = quiet();
    p.scene_name = Some("Dream_01_False_Knight".to_string());
    p.game_state = Some(6);
    g.update_variables(1, 3, None, true, &p);
    p.game_state = Some(3);
    g.update_variables(1, 3, None, true, &p);
    assert_eq!(g.hits(), 0);
}

#[test]
fn pace_keeps_best_segments() {
    let mut h = HitCounter::new(false, Some(vec![0, 5]));
    h.update_variables(1, 3, Some(vec![0, 5]), true, &quiet());
    h.add_hit();
    h.update_variables(2, 3, None, true, &quiet());
    assert_eq!(h.comparison_hits(), &vec![0, 1]);
}

#[test]
fn reset_stores_comparison() {
    let mut h = HitCounter::new(false, Some(vec![0, 3]));
    h.take_effects();
    h.reset();
    assert_eq!(
        h.take_effects(),
        vec![
            HitEffect::StoreComparison(vec![0, 3]),
            set_int("hits", 0),
            set_int("segment hits", 0)
        ]
    );
    assert_eq!(h.hits(), 0);
}

#[test]
fn game_time_shows_hits() {
    let mut h = HitCounter::new(false, None);
    h.take_effects();
    h.update_game_time(0, 3, None, false, &quiet());
    let e = h.take_effects();
    assert_eq!(e.first(), Some(&HitEffect::PauseGameTime));
    assert_eq!(e.last(), Some(&HitEffect::SetGameTimeSeconds(0)));
}
