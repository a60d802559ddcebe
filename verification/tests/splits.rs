use hollowknight_autosplit_wasm::autosplit::{
    auto_reset_states, end_tick, splits, tick_step, AutoSplitterState, StepOutcome,
};
use hollowknight_autosplit_wasm::settings_gui::{HitsMethod, SettingsGui, TimingMethod};
use hollowknight_autosplit_wasm::settings_value::SettingsValue;
use hollowknight_autosplit_wasm::continuous_rules::continuous_splits;
use hollowknight_autosplit_wasm::game_time::{GameTimeMain, GameTimePlusVars};
use hollowknight_autosplit_wasm::load_remover::LoadRemover;
use hollowknight_autosplit_wasm::player_data::PlayerDataStore;
use hollowknight_autosplit_wasm::readings::GameReadings;
use hollowknight_autosplit_wasm::scenes::{SceneStore, GAME_STATE_ENTERING_LEVEL, GAME_STATE_PLAYING};
use hollowknight_autosplit_wasm::split_rules::transition_splits;
use hollowknight_autosplit_wasm::splits::Split;
use hollowknight_autosplit_wasm::timer::{HostCommand, SplitterAction, Timer, TimerState};

fn game_time() -> GameTimePlusVars {
    GameTimePlusVars::new(GameTimeMain::LoadRemover(LoadRemover::new()))
}

#[test]
fn bench_any_splits_at_a_bench() {
    let mut pds = PlayerDataStore::new();
    let mut r = GameReadings::unread();
    assert_eq!(continuous_splits(&Split::BenchAny, &r, &mut pds), SplitterAction::Pass);
    r.at_bench = Some(false);
    assert_eq!(continuous_splits(&Split::BenchAny, &r, &mut pds), SplitterAction::Pass);
    r.at_bench = Some(true);
    assert_eq!(continuous_splits(&Split::BenchAny, &r, &mut pds), SplitterAction::Split);
}

#[test]
fn mothwing_cloak_splits_on_dash() {
    let mut pds = PlayerDataStore::new();
    let mut r = GameReadings::unread();
    r.has_dash = Some(false);
    assert_eq!(continuous_splits(&Split::MothwingCloak, &r, &mut pds), SplitterAction::Pass);
    r.has_dash = Some(true);
    assert_eq!(continuous_splits(&Split::MothwingCloak, &r, &mut pds), SplitterAction::Split);
}

#[test]
fn bronze_wave_counts_kills_since_entry() {
    let mut pds = PlayerDataStore::new();
    let mut r = GameReadings::unread();
    r.game_state = Some(GAME_STATE_PLAYING);
    r.kills_col_shield = Some(5);
    assert_eq!(continuous_splits(&Split::Bronze1a, &r, &mut pds), SplitterAction::Pass);
    assert_eq!(pds.remembered_i32("kills_col_shield_on_entry"), Some(5));
    r.kills_col_shield = Some(4);
    assert_eq!(continuous_splits(&Split::Bronze1a, &r, &mut pds), SplitterAction::Split);
}

#[test]
fn bronze_wave_forgets_entry_while_loading() {
    let mut pds = PlayerDataStore::new();
    let mut r = GameReadings::unread();
    r.game_state = Some(GAME_STATE_PLAYING);
    r.kills_col_shield = Some(5);
    continuous_splits(&Split::Bronze1a, &r, &mut pds);
    r.game_state = Some(GAME_STATE_ENTERING_LEVEL);
    r.kills_col_shield = Some(4);
    assert_eq!(continuous_splits(&Split::Bronze1a, &r, &mut pds), SplitterAction::Pass);
    assert_eq!(pds.remembered_i32("kills_col_shield_on_entry"), None);
}

#[test]
fn kings_pass_on_transition_to_town() {
    let mut ss = SceneStore::new();
    let mut pds = PlayerDataStore::new();
    let r = GameReadings::unread();
    assert!(ss.transition_now(Some("Tutorial_01".to_string()), Some("Tutorial_01".to_string())));
    let t = ss.transition_now(Some("Tutorial_01".to_string()), Some("Town".to_string()));
    assert!(t);
    let p = ss.pair();
    assert_eq!((p.old, p.current), ("Tutorial_01", "Town"));
    assert_eq!(transition_splits(&Split::KingsPass, &p, &r, &mut pds), SplitterAction::Split);
}

#[test]
fn a_split_fires_once_per_transition() {
    let mut ss = SceneStore::new();
    let mut pds = PlayerDataStore::new();
    let r = GameReadings::unread();
    ss.transition_now(Some("Tutorial_01".to_string()), Some("Tutorial_01".to_string()));
    let t = ss.transition_now(Some("Tutorial_01".to_string()), Some("Town".to_string()));
    assert_eq!(splits(&Split::KingsPass, &r, t, &mut ss, &mut pds), SplitterAction::Split);
    assert!(ss.split_this_transition());
    let t2 = ss.transition_now(Some("Tutorial_01".to_string()), Some("Town".to_string()));
    assert!(!t2);
    assert_eq!(splits(&Split::KingsPass, &r, t2, &mut ss, &mut pds), SplitterAction::Pass);
}

#[test]
fn tick_step_splits_and_advances() {
    let list = vec![Split::StartNewGame, Split::BenchAny, Split::EndingSplit];
    let mut timer = Timer::new(3, vec![], TimerState::Running);
    let mut gt = game_time();
    let mut ss = SceneStore::new();
    let mut pds = PlayerDataStore::new();
    let mut r = GameReadings::unread();
    // At index 0, the start split waits for a new game.
    assert_eq!(tick_step(&list, &mut timer, &mut gt, &r, false, &mut ss, &mut pds), StepOutcome::Done);
    assert_eq!(timer.i(), 0);
    // Force the index to the bench split by a manual start.
    timer.update(TimerState::NotRunning, &mut ());
    timer.update(TimerState::Running, &mut ());
    assert_eq!(timer.i(), 1);
    timer.take_commands();
    assert_eq!(tick_step(&list, &mut timer, &mut gt, &r, false, &mut ss, &mut pds), StepOutcome::Done);
    r.at_bench = Some(true);
    assert_eq!(tick_step(&list, &mut timer, &mut gt, &r, false, &mut ss, &mut pds), StepOutcome::Split);
    assert_eq!(timer.i(), 2);
    assert_eq!(timer.take_commands(), vec![HostCommand::Split]);
}

#[test]
fn tick_step_past_the_end_does_nothing() {
    let list = vec![Split::BenchAny];
    let mut timer = Timer::new(1, vec![], TimerState::Ended);
    timer.update(TimerState::NotRunning, &mut ());
    timer.update(TimerState::Running, &mut ());
    assert_eq!(timer.i(), 1);
    let mut gt = game_time();
    let mut ss = SceneStore::new();
    let mut pds = PlayerDataStore::new();
    let mut r = GameReadings::unread();
    r.at_bench = Some(true);
    assert_eq!(tick_step(&list, &mut timer, &mut gt, &r, false, &mut ss, &mut pds), StepOutcome::Done);
    assert_eq!(timer.i(), 1);
}

#[test]
fn end_tick_from_menu_forgets_everything() {
    let mut ss = SceneStore::new();
    let mut pds = PlayerDataStore::new();
    let mut r = GameReadings::unread();
    r.game_state = Some(GAME_STATE_PLAYING);
    r.kills_col_shield = Some(5);
    continuous_splits(&Split::Bronze1a, &r, &mut pds);
    assert_eq!(pds.remembered_i32("kills_col_shield_on_entry"), Some(5));
    end_tick(false, &ss, &mut pds);
    assert_eq!(pds.remembered_i32("kills_col_shield_on_entry"), Some(5));
    ss.transition_now(Some("Town".to_string()), Some("Town".to_string()));
    let t = ss.transition_now(Some("Town".to_string()), Some("Crossroads_01".to_string()));
    end_tick(t, &ss, &mut pds);
    assert_eq!(pds.remembered_i32("kills_col_shield_on_entry"), None);
}

#[test]
fn auto_reset_states_follow_the_splits() {
    assert_eq!(
        auto_reset_states(&[Split::StartNewGame, Split::EndingSplit]),
        vec![TimerState::NotRunning, TimerState::Ended]
    );
    assert_eq!(auto_reset_states(&[Split::BenchAny, Split::EndingSplit]), vec![]);
    assert_eq!(auto_reset_states(&[]), vec![]);
}

#[test]
fn state_takes_changed_settings() {
    let mut st = AutoSplitterState::new(
        TimingMethod::LoadRemovedTime,
        HitsMethod::NoHits,
        vec![],
        None,
        TimerState::NotRunning,
    );
    let mut gui = SettingsGui::new();
    let mut m = vec![
        ("timing_method".to_string(), SettingsValue::Str("HitsDamage".to_string())),
        (
            "splits".to_string(),
            SettingsValue::List(vec![
                SettingsValue::Str("StartNewGame".to_string()),
                SettingsValue::Str("EndingSplit".to_string()),
            ]),
        ),
    ];
    gui.update_from(&mut m);
    st.check_state_change(&gui, Some(vec![0, 4]));
    assert_eq!(st.timing_method, TimingMethod::HitsDamage);
    assert_eq!(st.splits, vec![Split::StartNewGame, Split::EndingSplit]);
    assert_eq!(st.timer.n(), 2);
    assert!(st.timer.is_auto_reset_safe());
    // While running, the timing method is not changed.
    st.timer.update(TimerState::Running, &mut ());
    gui.timing_method = TimingMethod::LoadRemovedTime;
    st.check_state_change(&gui, None);
    assert_eq!(st.timing_method, TimingMethod::HitsDamage);
}

#[test]
fn player_data_events_added() {
    let mut pds = PlayerDataStore::new();
    let mut r = GameReadings::unread();
    r.game_state = Some(GAME_STATE_PLAYING);
    r.ghost_coins = Some(2);
    assert!(!pds.incremented_ghost_coins(&r));
    r.ghost_coins = Some(3);
    assert!(pds.incremented_ghost_coins(&r));
    r.grey_prince_defeats = Some(0);
    assert!(!pds.incremented_grey_prince_defeats(&r));
    r.grey_prince_defeats = Some(1);
    assert!(pds.incremented_grey_prince_defeats(&r));
    r.white_defender_defeats = Some(4);
    assert!(!pds.incremented_white_defender_defeats(&r));
    r.white_defender_defeats = Some(6);
    assert!(!pds.incremented_white_defender_defeats(&r));
    assert!(!pds.can_overcharm(&r));
    r.can_overcharm = Some(true);
    assert!(pds.can_overcharm(&r));
    r.game_state = Some(GAME_STATE_ENTERING_LEVEL);
    r.can_overcharm = Some(false);
    assert!(pds.can_overcharm(&r));
}

#[test]
fn bosses_dead_for_a_tick() {
    let mut pds = PlayerDataStore::new();
    let mut r = GameReadings::unread();
    r.game_state = Some(GAME_STATE_PLAYING);
    r.killed_traitor_lord = Some(true);
    assert!(!pds.traitor_lord_been_dead_for_a_tick(&r));
    assert!(pds.traitor_lord_been_dead_for_a_tick(&r));
    r.killed_hive_knight = Some(false);
    r.version = Some(vec![1, 5, 78, 11833]);
    assert!(!pds.hive_knight_been_dead_for_a_tick(&r));
    r.version = Some(vec![1, 2, 2, 1]);
    assert!(pds.hive_knight_been_dead_for_a_tick(&r));
}

#[test]
fn mushroom_brawler_arena_counts_two() {
    let mut pds = PlayerDataStore::new();
    let mut r = GameReadings::unread();
    r.game_state = Some(GAME_STATE_PLAYING);
    r.kills_mushroom_brawler = Some(6);
    assert_eq!(pds.mushroom_brawler_arena(&r), None);
    r.kills_mushroom_brawler = Some(5);
    assert_eq!(pds.mushroom_brawler_arena(&r), None);
    r.kills_mushroom_brawler = Some(4);
    assert_eq!(pds.mushroom_brawler_arena(&r), Some(true));
}
