//! The decisions of one tick of the auto splitter: which action the current
//! split asks for, and what the timer does about it.

use vstd::prelude::*;

use crate::continuous_rules::{continuous_splits, spec_continuous_splits};
use crate::game_time::{spec_game_time_for, spec_reset_all, timing_method_game_time, GameTimePlusVars};
use crate::hit_counter::spec_stored;
use crate::player_data::{PlayerDataStore, PlayerDataView};
use crate::readings::GameReadings;
use crate::scenes::{spec_pair, SceneStore, SceneStoreView, MENU_TITLE};
use crate::split_rules::{
    spec_transition_once_splits,
    spec_transition_splits,
    transition_once_splits,
    transition_splits,
};
use crate::settings_gui::{HitsMethod, SettingsGui, TimingMethod};
use crate::splits::{auto_reset_safe, spec_auto_reset_safe, Split};
use crate::text::str_eq;
use crate::timer::{
    spec_action,
    spec_timer_reset,
    spec_between_runs,
    HostCommand,
    Resettable,
    SplitterAction,
    Timer,
    TimerState,
    TimerView,
};

verus! {

/// What split `s` asks for: its continuous rule first; then, once per
/// transition, its rule for the first tick of a transition; then, on a
/// transition, its transition rule. Any action but `Pass` marks the
/// transition as split.
pub open spec fn spec_splits(
    v: PlayerDataView,
    ss: SceneStoreView,
    s: Split,
    r: &GameReadings,
    trans_now: bool,
) -> (PlayerDataView, SceneStoreView, SplitterAction) {
    let (p1, a1) = spec_continuous_splits(v, s, r);
    let (old, cur) = spec_pair(ss);
    let (p2, a) = if a1 != SplitterAction::Pass {
        (p1, a1)
    } else {
        let a2 = if !ss.split_this_transition {
            spec_transition_once_splits(s, old, cur, r)
        } else {
            SplitterAction::Pass
        };
        if a2 != SplitterAction::Pass {
            (p1, a2)
        } else if trans_now {
            spec_transition_splits(p1, s, old, cur, r)
        } else {
            (p1, SplitterAction::Pass)
        }
    };
    (
        p2,
        if a != SplitterAction::Pass {
            SceneStoreView { split_this_transition: true, ..ss }
        } else {
            ss
        },
        a,
    )
}

/// What split `s` asks for on this tick.
pub fn splits(
    s: &Split,
    r: &GameReadings,
    trans_now: bool,
    ss: &mut SceneStore,
    pds: &mut PlayerDataStore,
) -> (a: SplitterAction)
    requires
        old(pds).wf(),
        old(ss).wf(),
    ensures
        final(pds).wf(),
        final(ss).wf(),
        (final(pds)@, final(ss)@, a) == spec_splits(old(pds)@, old(ss)@, *s, r, trans_now),
{
    let a1 = continuous_splits(s, r, pds);
    let a = if a1 != SplitterAction::Pass {
        a1
    } else {
        let pair = ss.pair();
        let a2 = if !ss.split_this_transition() {
            transition_once_splits(s, &pair, r)
        } else {
            SplitterAction::Pass
        };
        if a2 != SplitterAction::Pass {
            a2
        } else if trans_now {
            transition_splits(s, &pair, r, pds)
        } else {
            SplitterAction::Pass
        }
    };
    if a != SplitterAction::Pass {
        ss.mark_split();
    }
    a
}

/// What the embedding program does after one step of the tick.
#[derive(Clone, Copy, Debug, PartialEq, Eq, Structural)]
pub enum StepOutcome {
    /// A split happened: wait a tick, clear the `item` variable, end the tick.
    Split,
    /// A split was skipped or the attempt reset: wait a tick, then step again.
    Again,
    /// Nothing more this tick.
    Done,
}

/// Whether the auto reset starts or resets the attempt: the first split asks
/// to split or to reset.
pub open spec fn spec_auto_reset_acts(a0: SplitterAction) -> bool {
    a0 == SplitterAction::Split || a0 == SplitterAction::Reset
}

/// Carries out `a` on the timer and, when it restarts the attempt, on the game time.
fn act(timer: &mut Timer, gt: &mut GameTimePlusVars, a: SplitterAction)
    requires
        old(timer)@.i < usize::MAX,
        old(gt).wf(),
    ensures
        final(timer)@ == spec_action(old(timer)@, a),
        final(gt).wf(),
        (a == SplitterAction::Reset || (a == SplitterAction::Split && old(timer)@.i == 0))
            ==> final(gt)@ == spec_reset_all(old(gt)@),
        !(a == SplitterAction::Reset || (a == SplitterAction::Split && old(timer)@.i == 0))
            ==> final(gt)@ == old(gt)@,
{
    let restarts = a == SplitterAction::Reset || (a == SplitterAction::Split && timer.i() == 0);
    let mut none = ();
    timer.action(a, &mut none);
    if restarts {
        gt.reset();
    }
}

/// One step of a tick: the split at the timer's index says what it asks for,
/// and the timer carries it out. A split ends the tick; a skip or a reset lets
/// the next split be asked after a tick; when nothing happens and auto reset
/// is safe, the first split is asked whether to start or reset the attempt
/// again.
pub fn tick_step(
    split_list: &Vec<Split>,
    timer: &mut Timer,
    gt: &mut GameTimePlusVars,
    r: &GameReadings,
    trans_now: bool,
    ss: &mut SceneStore,
    pds: &mut PlayerDataStore,
) -> (o: StepOutcome)
    requires
        old(pds).wf(),
        old(ss).wf(),
        old(gt).wf(),
    ensures
        final(pds).wf(),
        final(ss).wf(),
        final(gt).wf(),
        old(timer)@.i >= split_list@.len() ==> {
            &&& o == StepOutcome::Done
            &&& final(timer)@ == old(timer)@
            &&& final(pds)@ == old(pds)@
            &&& final(ss)@ == old(ss)@
            &&& final(gt)@ == old(gt)@
        },
        old(timer)@.i < split_list@.len() ==> {
            let (p1, ss1, a) = spec_splits(
                old(pds)@,
                old(ss)@,
                split_list@[old(timer)@.i as int],
                r,
                trans_now,
            );
            match a {
                SplitterAction::Split | SplitterAction::ManualSplit => {
                    &&& o == StepOutcome::Split
                    &&& final(timer)@ == spec_action(old(timer)@, a)
                    &&& final(pds)@ == p1
                    &&& final(ss)@ == ss1
                },
                SplitterAction::Skip | SplitterAction::Reset => {
                    &&& o == StepOutcome::Again
                    &&& final(timer)@ == spec_action(old(timer)@, a)
                    &&& final(pds)@ == p1
                    &&& final(ss)@ == ss1
                },
                SplitterAction::Pass => {
                    &&& o == StepOutcome::Done
                    &&& if old(timer)@.auto_reset.contains(old(timer)@.state) && split_list@.len() > 0 {
                        let (p2, ss2, a0) = spec_splits(p1, ss1, split_list@[0], r, trans_now);
                        &&& final(pds)@ == p2
                        &&& final(ss)@ == ss2
                        &&& final(timer)@ == if spec_auto_reset_acts(a0) {
                            spec_action(spec_timer_reset(old(timer)@), a0)
                        } else {
                            old(timer)@
                        }
                    } else {
                        &&& final(pds)@ == p1
                        &&& final(ss)@ == ss1
                        &&& final(timer)@ == old(timer)@
                    }
                },
            }
        },
{
    let i = timer.i();
    if i >= split_list.len() {
        return StepOutcome::Done;
    }
    let a = splits(&split_list[i], r, trans_now, ss, pds);
    match a {
        SplitterAction::Split | SplitterAction::ManualSplit => {
            act(timer, gt, a);
            StepOutcome::Split
        },
        SplitterAction::Skip | SplitterAction::Reset => {
            act(timer, gt, a);
            StepOutcome::Again
        },
        SplitterAction::Pass => {
            if timer.is_auto_reset_safe() && split_list.len() > 0 {
                let a0 = splits(&split_list[0], r, trans_now, ss, pds);
                if a0 == SplitterAction::Split || a0 == SplitterAction::Reset {
                    timer.reset();
                    act(timer, gt, a0);
                }
            }
            StepOutcome::Done
        },
    }
}

/// After the tick's steps: on a transition, player data is forgotten when
/// coming from the main menu, and only what was remembered on entering a room
/// otherwise.
pub fn end_tick(trans_now: bool, ss: &SceneStore, pds: &mut PlayerDataStore)
    requires
        old(pds).wf(),
    ensures
        final(pds).wf(),
        !trans_now ==> final(pds)@ == old(pds)@,
        trans_now && spec_pair(ss@).0 == MENU_TITLE@ ==> final(pds)@ == (PlayerDataView {
            ints: Map::empty(),
            bools: Map::empty(),
        }),
        trans_now && spec_pair(ss@).0 != MENU_TITLE@ ==> final(pds)@ == (PlayerDataView {
            ints: old(pds)@.ints.restrict(
                old(pds)@.ints.dom().filter(
                    |k: Seq<char>| !crate::text::spec_ends_with(k, "_on_entry"@),
                ),
            ),
            bools: old(pds)@.bools.restrict(
                old(pds)@.bools.dom().filter(
                    |k: Seq<char>| !crate::text::spec_ends_with(k, "_on_entry"@),
                ),
            ),
        }),
{
    if trans_now {
        if str_eq(ss.pair().old, MENU_TITLE) {
            pds.reset();
        } else {
            pds.clean_on_entry();
        }
    }
}

/// The timer states in which the first split may start the attempt anew: not
/// running and ended, when the splits make that safe; none otherwise.
pub open spec fn spec_auto_reset_states(s: Seq<Split>) -> Seq<TimerState> {
    if spec_auto_reset_safe(s) {
        seq![TimerState::NotRunning, TimerState::Ended]
    } else {
        Seq::empty()
    }
}

/// The timer states in which the first split may start the attempt anew.
pub fn auto_reset_states(s: &[Split]) -> (r: Vec<TimerState>)
    ensures
        r@ == spec_auto_reset_states(s@),
{
    if auto_reset_safe(s) {
        vec![TimerState::NotRunning, TimerState::Ended]
    } else {
        Vec::new()
    }
}

/// What the auto splitter keeps between ticks: the settings in use, the game
/// time and the timer.
pub struct AutoSplitterState {
    pub timing_method: TimingMethod,
    pub hits_method: HitsMethod,
    pub splits: Vec<Split>,
    pub game_time: GameTimePlusVars,
    pub timer: Timer,
}

impl AutoSplitterState {
    /// The state for the settings chosen, with the timer in the state that
    /// the host reports; `stored` is the comparison of hits stored in the settings.
    pub fn new(
        timing_method: TimingMethod,
        hits_method: HitsMethod,
        splits: Vec<Split>,
        stored: Option<Vec<i64>>,
        asr_state: TimerState,
    ) -> (st: AutoSplitterState)
        ensures
            st.timing_method == timing_method,
            st.hits_method == hits_method,
            st.splits@ == splits@,
            st.game_time.wf(),
            st.game_time@ == spec_game_time_for(timing_method, hits_method, spec_stored(stored)),
            st.timer@ == (TimerView {
                state: asr_state,
                last_state: asr_state,
                i: 0,
                n: splits@.len(),
                auto_reset: spec_auto_reset_states(splits@),
                commands: Seq::empty(),
            }),
    {
        let game_time = timing_method_game_time(timing_method, hits_method, stored);
        let auto = auto_reset_states(splits.as_slice());
        let timer = Timer::new(splits.len(), auto, asr_state);
        AutoSplitterState { timing_method, hits_method, splits, game_time, timer }
    }

    /// Takes changed settings in: between runs, a new timing method or hit
    /// counter gets a new game time (starting from the comparison `stored`);
    /// new splits are taken at any time, with the timer renewed for them.
    pub fn check_state_change(&mut self, gui: &SettingsGui, stored: Option<Vec<i64>>)
        requires
            old(self).game_time.wf(),
            gui.splits.wf(),
        ensures
            final(self).game_time.wf(),
            final(self).splits@ == gui.splits.items(),
            ({
                let between = spec_between_runs(old(self).timer@.state);
                let changed = gui.timing_method != old(self).timing_method || gui.hit_counter
                    != old(self).hits_method;
                &&& between ==> final(self).timing_method == gui.timing_method
                    && final(self).hits_method == gui.hit_counter
                &&& !between ==> final(self).timing_method == old(self).timing_method
                    && final(self).hits_method == old(self).hits_method
                &&& final(self).game_time@ == if between && changed {
                    spec_game_time_for(gui.timing_method, gui.hit_counter, spec_stored(stored))
                } else {
                    old(self).game_time@
                }
            }),
            final(self).timer@ == if gui.splits.items() != old(self).splits@ {
                TimerView {
                    n: gui.splits.items().len(),
                    auto_reset: spec_auto_reset_states(gui.splits.items()),
                    ..old(self).timer@
                }
            } else {
                old(self).timer@
            },
    {
        if self.timer.is_timer_state_between_runs() {
            let a = gui.check_timing_method(&mut self.timing_method);
            let b = gui.check_hit_counter(&mut self.hits_method);
            if a.is_some() || b.is_some() {
                self.game_time = timing_method_game_time(self.timing_method, self.hits_method, stored);
            }
        }
        if let Some(new_splits) = gui.check_splits(&mut self.splits) {
            let auto = auto_reset_states(new_splits.as_slice());
            self.timer.renew(new_splits.len(), auto);
        }
    }
}

} // verus!
