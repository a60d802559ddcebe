use hollowknight_autosplit_wasm::splits::{auto_reset_safe, Split};
use hollowknight_autosplit_wasm::timer::{
    is_timer_state_between_runs, should_skip, should_split, should_split_skip, HostCommand,
    ManualChange, SplitterAction, Timer, TimerState,
};

#[test]
fn should_functions() {
    assert_eq!(should_split(true), SplitterAction::Split);
    assert_eq!(should_split(false), SplitterAction::Pass);
    assert_eq!(should_skip(true), SplitterAction::Skip);
    assert_eq!(should_skip(false), SplitterAction::Pass);
    assert_eq!(should_split_skip(Some(true)), SplitterAction::Split);
    assert_eq!(should_split_skip(Some(false)), SplitterAction::Skip);
    assert_eq!(should_split_skip(None), SplitterAction::Pass);
}

#[test]
fn or_else_only_on_pass() {
    assert_eq!(SplitterAction::Pass.or_else(|| SplitterAction::Skip), SplitterAction::Skip);
    assert_eq!(SplitterAction::Split.or_else(|| SplitterAction::Skip), SplitterAction::Split);
}

#[test]
fn between_runs() {
    assert!(is_timer_state_between_runs(TimerState::NotRunning));
    assert!(is_timer_state_between_runs(TimerState::Ended));
    assert!(!is_timer_state_between_runs(TimerState::Running));
    assert!(!is_timer_state_between_runs(TimerState::Paused));
}

#[test]
fn run_through_splits() {
    let mut t = Timer::new(3, vec![], TimerState::NotRunning);
    let mut none = ();
    t.action(SplitterAction::Split, &mut none);
    assert_eq!(t.i(), 1);
    assert_eq!(t.state(), TimerState::Running);
    t.action(SplitterAction::Split, &mut none);
    t.action(SplitterAction::Split, &mut none);
    assert_eq!(t.i(), 3);
    assert_eq!(t.state(), TimerState::Ended);
    assert_eq!(
        t.take_commands(),
        vec![HostCommand::Reset, HostCommand::Start, HostCommand::Split, HostCommand::Split]
    );
}

#[test]
fn auto_reset_safe_ends_at_zero() {
    let mut t = Timer::new(2, vec![TimerState::NotRunning, TimerState::Ended], TimerState::NotRunning);
    let mut none = ();
    t.action(SplitterAction::Split, &mut none);
    t.action(SplitterAction::Split, &mut none);
    assert_eq!(t.state(), TimerState::Ended);
    assert_eq!(t.i(), 0);
}

#[test]
fn manual_split_never_ends() {
    let mut t = Timer::new(3, vec![], TimerState::NotRunning);
    let mut none = ();
    t.action(SplitterAction::ManualSplit, &mut none);
    assert_eq!(t.i(), 0);
    t.action(SplitterAction::Split, &mut none);
    t.action(SplitterAction::ManualSplit, &mut none);
    assert_eq!(t.i(), 2);
    t.action(SplitterAction::ManualSplit, &mut none);
    assert_eq!(t.i(), 2);
}

#[test]
fn manual_changes_detected() {
    let mut t = Timer::new(3, vec![], TimerState::NotRunning);
    let mut none = ();
    assert_eq!(t.update(TimerState::Running, &mut none), Some(ManualChange::Start));
    assert_eq!(t.i(), 1);
    assert_eq!(t.update(TimerState::Running, &mut none), None);
    assert_eq!(t.update(TimerState::Ended, &mut none), Some(ManualChange::EndSplit));
    assert_eq!(t.i(), 3);
    assert_eq!(t.update(TimerState::NotRunning, &mut none), Some(ManualChange::Reset));
    assert_eq!(t.i(), 0);
}

#[test]
fn reset_action_resets() {
    let mut t = Timer::new(3, vec![], TimerState::NotRunning);
    let mut none = ();
    t.action(SplitterAction::Split, &mut none);
    t.action(SplitterAction::Reset, &mut none);
    assert_eq!(t.i(), 0);
    assert_eq!(t.state(), TimerState::NotRunning);
}

#[test]
fn auto_reset_safe_cases() {
    assert!(auto_reset_safe(&[Split::StartNewGame, Split::EndingSplit]));
    assert!(!auto_reset_safe(&[Split::StartAnyGame, Split::EndingSplit]));
    assert!(!auto_reset_safe(&[Split::StartNewGame, Split::StartNewGame, Split::EndingSplit]));
    assert!(!auto_reset_safe(&[Split::StartNewGame, Split::EndingSplit, Split::Menu]));
    assert!(!auto_reset_safe(&[Split::StartNewGame, Split::LegacyStart, Split::EndingA]));
    assert!(auto_reset_safe(&[Split::StartNewGame, Split::Menu, Split::RadianceP]));
    assert!(!auto_reset_safe(&[]));
}

#[test]
fn index_stays_within_the_splits() {
    let mut t = Timer::new(2, vec![], TimerState::NotRunning);
    assert_eq!(t.update(TimerState::Running, &mut ()), Some(ManualChange::Start));
    assert_eq!(t.i(), 1);
    t.action(SplitterAction::Skip, &mut ());
    assert_eq!(t.i(), 2);
    assert_eq!(t.state(), TimerState::Ended);
    assert_eq!(t.update(TimerState::NotRunning, &mut ()), Some(ManualChange::Reset));
    assert_eq!(t.i(), 0);
    assert_eq!(t.update(TimerState::Ended, &mut ()), Some(ManualChange::EndSplit));
    assert_eq!(t.i(), 2);
}

#[test]
fn manual_end_split_with_auto_reset_goes_to_zero() {
    let mut t = Timer::new(3, vec![TimerState::NotRunning, TimerState::Ended], TimerState::NotRunning);
    assert_eq!(t.update(TimerState::Running, &mut ()), Some(ManualChange::Start));
    assert_eq!(t.i(), 1);
    assert_eq!(t.update(TimerState::Ended, &mut ()), Some(ManualChange::EndSplit));
    assert_eq!(t.i(), 0);
}
