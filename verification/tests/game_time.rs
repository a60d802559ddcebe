use hollowknight_autosplit_wasm::game_time::{timing_method_game_time, GameTimeMain, GameTimePlusVars};
use hollowknight_autosplit_wasm::hit_counter::{HitCounter, HitEffect, HitObservation, VariableValue};
use hollowknight_autosplit_wasm::load_remover::{is_none_or_empty, GameTimeAction, LoadObservation, LoadRemover};
use hollowknight_autosplit_wasm::scenes::{GAME_STATE_MAIN_MENU, GAME_STATE_PLAYING, UI_STATE_PLAYING};
use hollowknight_autosplit_wasm::settings_gui::{HitsMethod, TimingMethod};
use hollowknight_autosplit_wasm::timer::{ManualChange, Timer, TimerState};

fn playing() -> LoadObservation {
    LoadObservation {
        ui_state: Some(UI_STATE_PLAYING),
        scene_name: Some("Town".to_string()),
        next_scene: Some("Town".to_string()),
        teleporting: Some(false),
        game_state: Some(GAME_STATE_PLAYING),
        hazard_respawning: Some(false),
        accepting_input: Some(true),
        hero_transition_state: Some(0),
        tile_map_dirty: Some(false),
        uses_scene_transition_routine: Some(false),
    }
}

fn no_hits() -> HitObservation {
    HitObservation {
        recoil: Some(false),
        hazard: Some(false),
        dead: Some(false),
        health: Some(5),
        scene_name: Some("Town".to_string()),
        game_state: Some(GAME_STATE_PLAYING),
    }
}

#[test]
fn none_or_empty_names() {
    assert!(is_none_or_empty(None));
    assert!(is_none_or_empty(Some("")));
    assert!(!is_none_or_empty(Some("Town")));
}

#[test]
fn load_remover_pauses_when_timer_not_running() {
    let mut l = LoadRemover::new();
    assert_eq!(l.update_game_time(false, &playing()), GameTimeAction::Pause);
}

#[test]
fn load_remover_resumes_while_playing() {
    let mut l = LoadRemover::new();
    assert_eq!(l.update_game_time(true, &playing()), GameTimeAction::Resume);
}

#[test]
fn load_remover_pauses_during_loads() {
    let mut l = LoadRemover::new();
    let mut o = playing();
    o.next_scene = Some("Crossroads_01".to_string());
    o.ui_state = Some(0);
    assert_eq!(l.update_game_time(true, &o), GameTimeAction::Pause);
    let mut o = playing();
    o.tile_map_dirty = Some(true);
    assert_eq!(l.update_game_time(true, &o), GameTimeAction::Pause);
}

#[test]
fn load_remover_waits_for_teleport_after_menu() {
    let mut l = LoadRemover::new();
    let mut menu = playing();
    menu.game_state = Some(GAME_STATE_MAIN_MENU);
    menu.accepting_input = Some(true);
    menu.ui_state = Some(UI_STATE_PLAYING);
    l.update_game_time(true, &menu);
    // From the main menu into play: paused until the teleport.
    assert_eq!(l.update_game_time(true, &playing()), GameTimeAction::Pause);
    let mut tp = playing();
    tp.teleporting = Some(true);
    assert_eq!(l.update_game_time(true, &tp), GameTimeAction::Pause);
    assert_eq!(l.update_game_time(true, &playing()), GameTimeAction::Resume);
}

#[test]
fn hits_timing_sets_game_time_to_hits() {
    let mut g = timing_method_game_time(TimingMethod::HitsDamage, HitsMethod::NoHits, None);
    g.take_effects();
    let mut o = no_hits();
    o.recoil = Some(true);
    assert_eq!(g.update_game_time(1, 3, None, true, &o, &playing()), None);
    let e = g.take_effects();
    assert_eq!(e.first(), Some(&HitEffect::PauseGameTime));
    assert_eq!(e.last(), Some(&HitEffect::SetGameTimeSeconds(1)));
    assert!(e.contains(&HitEffect::SetVariable("hits", VariableValue::Int(1))));
}

#[test]
fn load_removed_time_with_hit_variables() {
    let mut g = timing_method_game_time(TimingMethod::LoadRemovedTime, HitsMethod::HitsDamage, None);
    let e = g.take_effects();
    assert_eq!(
        e,
        vec![
            HitEffect::SetVariable("hits", VariableValue::Int(0)),
            HitEffect::SetVariable("segment hits", VariableValue::Int(0)),
        ]
    );
    let mut o = no_hits();
    o.hazard = Some(true);
    assert_eq!(g.update_game_time(1, 3, None, true, &o, &playing()), Some(GameTimeAction::Resume));
    let e = g.take_effects();
    assert!(e.contains(&HitEffect::SetVariable("hits", VariableValue::Int(1))));
    assert!(!e.contains(&HitEffect::PauseGameTime));
}

#[test]
fn take_effects_main_first_then_vars() {
    let g = GameTimePlusVars::new(GameTimeMain::HitCounter(HitCounter::new(false, None)));
    let mut g = g.with_var(HitCounter::new(true, None));
    let e = g.take_effects();
    assert_eq!(e.len(), 4);
    assert!(g.take_effects().is_empty());
}

#[test]
fn reset_starts_a_new_attempt() {
    let mut g = timing_method_game_time(TimingMethod::HitsDamage, HitsMethod::NoHits, None);
    let mut o = no_hits();
    o.dead = Some(true);
    g.update_game_time(1, 3, None, true, &o, &playing());
    g.take_effects();
    g.reset();
    let e = g.take_effects();
    assert!(e.contains(&HitEffect::SetVariable("hits", VariableValue::Int(0))));
}

#[test]
fn manual_reset_resets_the_game_time() {
    let mut g = timing_method_game_time(TimingMethod::HitsDamage, HitsMethod::NoHits, None);
    let mut o = no_hits();
    o.dead = Some(true);
    g.update_game_time(1, 3, None, true, &o, &playing());
    g.take_effects();
    let mut t = Timer::new(3, vec![], TimerState::NotRunning);
    assert_eq!(t.update(TimerState::Running, &mut g), Some(ManualChange::Start));
    let e = g.take_effects();
    assert!(e.contains(&HitEffect::SetVariable("hits", VariableValue::Int(0))));
    assert_eq!(t.update(TimerState::Running, &mut g), None);
    assert!(g.take_effects().is_empty());
}
