//! What the game time shows: the load-removed time or the hits of a hit
//! counter, with further hit counters kept as variables beside it.

use vstd::prelude::*;

use crate::hit_counter::{
    spec_ended,
    spec_new_counter,
    spec_reset,
    spec_stored,
    spec_update_game_time,
    spec_update_variables,
    HitCounter,
    HitCounterView,
    HitEffect,
    HitEffectView,
    HitObservation,
};
use crate::load_remover::{
    spec_load_update,
    GameTimeAction,
    LoadObservation,
    LoadRemover,
    LoadRemoverView,
};
use crate::scenes::GAME_STATE_INACTIVE;
use crate::settings_gui::{HitsMethod, TimingMethod};
use crate::timer::Resettable;

verus! {

/// What sets the game time.
pub enum GameTimeMain {
    LoadRemover(LoadRemover),
    HitCounter(HitCounter),
}

/// The abstract state of a [`GameTimeMain`].
pub enum GameTimeMainView {
    LoadRemover(LoadRemoverView),
    HitCounter(HitCounterView),
}

impl View for GameTimeMain {
    type V = GameTimeMainView;

    open spec fn view(&self) -> GameTimeMainView {
        match self {
            GameTimeMain::LoadRemover(l) => GameTimeMainView::LoadRemover(l@),
            GameTimeMain::HitCounter(h) => GameTimeMainView::HitCounter(h@),
        }
    }
}

/// Every part after a new attempt.
pub open spec fn spec_reset_all(v: GameTimePlusVarsView) -> GameTimePlusVarsView {
    GameTimePlusVarsView {
        main: match v.main {
            GameTimeMainView::LoadRemover(l) => GameTimeMainView::LoadRemover(l),
            GameTimeMainView::HitCounter(h) => GameTimeMainView::HitCounter(spec_reset(h)),
        },
        vars: v.vars.map_values(|h: HitCounterView| spec_reset(h)),
    }
}

/// A hit counter with its queue of requests emptied.
pub open spec fn spec_cleared(h: HitCounterView) -> HitCounterView {
    HitCounterView { effects: Seq::empty(), ..h }
}

/// The requests queued by the main part.
pub open spec fn main_effects(m: GameTimeMainView) -> Seq<HitEffectView> {
    match m {
        GameTimeMainView::HitCounter(h) => h.effects,
        GameTimeMainView::LoadRemover(_) => Seq::empty(),
    }
}

/// The requests queued by the hit counters `vars`, in order.
pub open spec fn vars_effects(vars: Seq<HitCounterView>) -> Seq<HitEffectView>
    decreases vars.len(),
{
    if vars.len() == 0 {
        Seq::empty()
    } else {
        vars_effects(vars.drop_last()) + vars.last().effects
    }
}

/// Every part with its queue of requests emptied.
pub open spec fn spec_clear_all(v: GameTimePlusVarsView) -> GameTimePlusVarsView {
    GameTimePlusVarsView {
        main: match v.main {
            GameTimeMainView::LoadRemover(l) => GameTimeMainView::LoadRemover(l),
            GameTimeMainView::HitCounter(h) => GameTimeMainView::HitCounter(spec_cleared(h)),
        },
        vars: v.vars.map_values(|h: HitCounterView| spec_cleared(h)),
    }
}

/// The game time, with hit counters kept as variables beside it.
pub struct GameTimePlusVars {
    main: GameTimeMain,
    vars: Vec<HitCounter>,
}

/// The abstract state of a [`GameTimePlusVars`].
pub struct GameTimePlusVarsView {
    pub main: GameTimeMainView,
    pub vars: Seq<HitCounterView>,
}

impl View for GameTimePlusVars {
    type V = GameTimePlusVarsView;

    closed spec fn view(&self) -> GameTimePlusVarsView {
        GameTimePlusVarsView { main: self.main@, vars: self.vars@.map_values(|h: HitCounter| h@) }
    }
}

/// A copy of the stored comparison.
fn copy_stored(s: &Option<Vec<i64>>) -> (r: Option<Vec<i64>>)
    ensures
        spec_stored(r) == spec_stored(*s),
{
    match s {
        Some(v) => {
            let c = v.clone();
            assert(c@ =~= v@);
            Some(c)
        },
        None => None,
    }
}

impl GameTimePlusVars {
    /// Every hit counter is consistent.
    pub closed spec fn wf(&self) -> bool {
        &&& match self.main {
            GameTimeMain::HitCounter(h) => h.wf(),
            GameTimeMain::LoadRemover(_) => true,
        }
        &&& forall|k: int| 0 <= k < self.vars@.len() ==> #[trigger] self.vars@[k].wf()
    }

    /// Every hit counter can count the hits of one more tick without overflow.
    pub open spec fn has_room(&self) -> bool {
        &&& match self@.main {
            GameTimeMainView::HitCounter(h) => h.hits + 4 <= i64::MAX,
            GameTimeMainView::LoadRemover(_) => true,
        }
        &&& forall|k: int| 0 <= k < self@.vars.len() ==> #[trigger] self@.vars[k].hits + 4 <= i64::MAX
    }

    /// The game time set by `main`, with no variables beside it.
    pub fn new(main: GameTimeMain) -> (g: GameTimePlusVars)
        requires
            match main {
                GameTimeMain::HitCounter(h) => h.wf(),
                GameTimeMain::LoadRemover(_) => true,
            },
        ensures
            g.wf(),
            g@ == (GameTimePlusVarsView { main: main@, vars: Seq::empty() }),
    {
        let g = GameTimePlusVars { main, vars: Vec::new() };
        assert(g@.vars =~= Seq::<HitCounterView>::empty());
        g
    }

    /// The same, with the hit counter `var` kept as variables too.
    pub fn with_var(self, var: HitCounter) -> (g: GameTimePlusVars)
        requires
            self.wf(),
            var.wf(),
        ensures
            g.wf(),
            g@ == (GameTimePlusVarsView { main: self@.main, vars: self@.vars.push(var@) }),
    {
        let ghost before = self@;
        let mut g = self;
        g.vars.push(var);
        assert(g@.vars =~= before.vars.push(var@));
        g
    }

    /// Whether one more tick can be counted by every hit counter without
    /// overflow.
    pub fn room_for_tick(&self) -> (r: bool)
        ensures
            r == self.has_room(),
    {
        let main_ok = match &self.main {
            GameTimeMain::HitCounter(h) => h.hits() <= i64::MAX - 4,
            GameTimeMain::LoadRemover(_) => true,
        };
        if !main_ok {
            return false;
        }
        let mut k: usize = 0;
        while k < self.vars.len()
            invariant
                k <= self.vars@.len(),
                forall|j: int| 0 <= j < k ==> #[trigger] self@.vars[j].hits + 4 <= i64::MAX,
            decreases self.vars@.len() - k,
        {
            assert(self@.vars[k as int] == self.vars@[k as int]@);
            if self.vars[k].hits() > i64::MAX - 4 {
                return false;
            }
            k = k + 1;
        }
        true
    }

    /// Whether following the timer to index `timer_i` will read the stored
    /// comparison in some hit counter.
    pub fn needs_stored_comparison(&self, timer_i: usize) -> (r: bool)
        ensures
            r == ((match self@.main {
                GameTimeMainView::HitCounter(h) => timer_i != h.i && h.i == 0,
                GameTimeMainView::LoadRemover(_) => false,
            }) || exists|k: int|
                0 <= k < self@.vars.len() && timer_i != #[trigger] self@.vars[k].i
                    && self@.vars[k].i == 0),
    {
        let main_needs = match &self.main {
            GameTimeMain::HitCounter(h) => h.needs_stored_comparison(timer_i),
            GameTimeMain::LoadRemover(_) => false,
        };
        if main_needs {
            return true;
        }
        let mut k: usize = 0;
        while k < self.vars.len()
            invariant
                k <= self.vars@.len(),
                forall|j: int|
                    0 <= j < k ==> !(timer_i != #[trigger] self@.vars[j].i && self@.vars[j].i
                        == 0),
            decreases self.vars@.len() - k,
        {
            assert(self@.vars[k as int] == self.vars@[k as int]@);
            if self.vars[k].needs_stored_comparison(timer_i) {
                return true;
            }
            k = k + 1;
        }
        false
    }

    /// A new attempt, for every part.
    pub fn reset(&mut self)
        ensures
            final(self).wf(),
            final(self)@ == spec_reset_all(old(self)@),
    {
        match &mut self.main {
            GameTimeMain::LoadRemover(l) => l.reset(),
            GameTimeMain::HitCounter(h) => h.reset(),
        }
        let ghost before = self.vars@;
        let ghost m = self.main;
        let mut k: usize = 0;
        while k < self.vars.len()
            invariant
                self.main == m,
                match m {
                    GameTimeMain::HitCounter(h) => h.wf(),
                    GameTimeMain::LoadRemover(_) => true,
                },
                k <= self.vars@.len(),
                self.vars@.len() == before.len(),
                forall|j: int| 0 <= j < k ==> #[trigger] self.vars@[j].wf(),
                forall|j: int| 0 <= j < k ==> #[trigger] self.vars@[j]@ == spec_reset(before[j]@),
                forall|j: int| k <= j < self.vars@.len() ==> #[trigger] self.vars@[j] == before[j],
            decreases self.vars@.len() - k,
        {
            let mut h = self.vars.remove(k);
            h.reset();
            self.vars.insert(k, h);
            k = k + 1;
        }
        assert(self@.vars =~= old(self)@.vars.map_values(|h: HitCounterView| spec_reset(h)));
    }

    /// The attempt ended, for every part.
    pub fn ended(&mut self)
        requires
            old(self).wf(),
        ensures
            final(self).wf(),
            final(self)@.main == match old(self)@.main {
                GameTimeMainView::LoadRemover(l) => GameTimeMainView::LoadRemover(l),
                GameTimeMainView::HitCounter(h) => GameTimeMainView::HitCounter(spec_ended(h)),
            },
            final(self)@.vars == old(self)@.vars.map_values(|h: HitCounterView| spec_ended(h)),
    {
        match &mut self.main {
            GameTimeMain::LoadRemover(l) => l.ended(),
            GameTimeMain::HitCounter(h) => h.ended(),
        }
        let ghost before = self.vars@;
        let ghost m = self.main;
        let mut k: usize = 0;
        while k < self.vars.len()
            invariant
                self.main == m,
                k <= self.vars@.len(),
                self.vars@.len() == before.len(),
                forall|j: int| 0 <= j < self.vars@.len() ==> #[trigger] self.vars@[j].wf(),
                forall|j: int| 0 <= j < k ==> #[trigger] self.vars@[j]@ == spec_ended(before[j]@),
                forall|j: int| k <= j < self.vars@.len() ==> #[trigger] self.vars@[j] == before[j],
            decreases self.vars@.len() - k,
        {
            let mut h = self.vars.remove(k);
            h.ended();
            self.vars.insert(k, h);
            k = k + 1;
        }
        assert(self@.vars =~= old(self)@.vars.map_values(|h: HitCounterView| spec_ended(h)));
    }

    /// One tick of the game time: the main part sets it, and each hit
    /// counter kept as variables updates its variables. The timer is at index
    /// `timer_i` of `timer_n` and running or not; `stored` is the stored
    /// comparison; the observations are what was read from the game. A load
    /// remover's request is returned.
    pub fn update_game_time(
        &mut self,
        timer_i: usize,
        timer_n: usize,
        stored: Option<Vec<i64>>,
        timer_running: bool,
        hits: &HitObservation,
        loads: &LoadObservation,
    ) -> (a: Option<GameTimeAction>)
        requires
            old(self).wf(),
            old(self).has_room(),
            timer_i < usize::MAX,
        ensures
            final(self).wf(),
            match old(self)@.main {
                GameTimeMainView::LoadRemover(l) => {
                    let (l2, act) = spec_load_update(l, timer_running, *loads);
                    final(self)@.main == GameTimeMainView::LoadRemover(l2) && a == Some(act)
                },
                GameTimeMainView::HitCounter(h) => {
                    &&& final(self)@.main == GameTimeMainView::HitCounter(
                        spec_update_game_time(
                            h,
                            timer_i as nat,
                            timer_n as nat,
                            spec_stored(stored),
                            timer_running,
                            *hits,
                        ),
                    )
                    &&& a is None
                },
            },
            final(self)@.vars == old(self)@.vars.map_values(
                |h: HitCounterView|
                    spec_update_variables(
                        h,
                        timer_i as nat,
                        timer_n as nat,
                        spec_stored(stored),
                        timer_running,
                        *hits,
                    ),
            ),
    {
        let a = match &mut self.main {
            GameTimeMain::LoadRemover(l) => Some(l.update_game_time(timer_running, loads)),
            GameTimeMain::HitCounter(h) => {
                let s = copy_stored(&stored);
                h.update_game_time(timer_i, timer_n, s, timer_running, hits);
                None
            },
        };
        let ghost before = self.vars@;
        proof {
            assert(before == old(self).vars@);
            assert forall|j: int| 0 <= j < before.len() implies #[trigger] before[j]@.hits + 4
                <= i64::MAX by {
                assert(old(self)@.vars[j] == before[j]@);
            }
        }
        let ghost m = self.main;
        let mut k: usize = 0;
        while k < self.vars.len()
            invariant
                self.main == m,
                k <= self.vars@.len(),
                timer_i < usize::MAX,
                self.vars@.len() == before.len(),
                forall|j: int| 0 <= j < self.vars@.len() ==> #[trigger] self.vars@[j].wf(),
                forall|j: int| 0 <= j < before.len() ==> #[trigger] before[j]@.hits + 4 <= i64::MAX,
                forall|j: int|
                    0 <= j < k ==> #[trigger] self.vars@[j]@ == spec_update_variables(
                        before[j]@,
                        timer_i as nat,
                        timer_n as nat,
                        spec_stored(stored),
                        timer_running,
                        *hits,
                    ),
                forall|j: int| k <= j < self.vars@.len() ==> #[trigger] self.vars@[j] == before[j],
            decreases self.vars@.len() - k,
        {
            let mut h = self.vars.remove(k);
            let s = copy_stored(&stored);
            h.update_variables(timer_i, timer_n, s, timer_running, hits);
            self.vars.insert(k, h);
            k = k + 1;
        }
        assert(self@.vars =~= old(self)@.vars.map_values(
            |h: HitCounterView|
                spec_update_variables(
                    h,
                    timer_i as nat,
                    timer_n as nat,
                    spec_stored(stored),
                    timer_running,
                    *hits,
                ),
        ));
        a
    }

    /// Hands over the requests that the hit counters queued, the main part's
    /// first, and empties their queues.
    pub fn take_effects(&mut self) -> (r: Vec<HitEffect>)
        requires
            old(self).wf(),
        ensures
            final(self).wf(),
            r@.map_values(|e: HitEffect| e@) == main_effects(old(self)@.main) + vars_effects(
                old(self)@.vars,
            ),
            final(self)@ == spec_clear_all(old(self)@),
    {
        let mut r = match &mut self.main {
            GameTimeMain::HitCounter(h) => h.take_effects(),
            GameTimeMain::LoadRemover(_) => Vec::new(),
        };
        proof {
            assert(r@.map_values(|e: HitEffect| e@) =~= main_effects(old(self)@.main));
        }
        let ghost before = self.vars@;
        let ghost m = self.main;
        let mut k: usize = 0;
        while k < self.vars.len()
            invariant
                self.main == m,
                match m {
                    GameTimeMain::HitCounter(h) => h.wf(),
                    GameTimeMain::LoadRemover(_) => true,
                },
                k <= self.vars@.len(),
                self.vars@.len() == before.len(),
                forall|j: int| 0 <= j < self.vars@.len() ==> #[trigger] self.vars@[j].wf(),
                forall|j: int| 0 <= j < k ==> #[trigger] self.vars@[j]@ == spec_cleared(before[j]@),
                forall|j: int| k <= j < self.vars@.len() ==> #[trigger] self.vars@[j] == before[j],
                r@.map_values(|e: HitEffect| e@) == main_effects(old(self)@.main) + vars_effects(
                    before.map_values(|h: HitCounter| h@).take(k as int),
                ),
            decreases self.vars@.len() - k,
        {
            let ghost r0 = r@;
            let mut h = self.vars.remove(k);
            let mut e = h.take_effects();
            let ghost ev = e@;
            r.append(&mut e);
            self.vars.insert(k, h);
            proof {
                let bv = before.map_values(|h: HitCounter| h@);
                assert(bv.take(k + 1).drop_last() =~= bv.take(k as int));
                assert(bv.take(k + 1).last() == before[k as int]@);
                assert(r@ =~= r0 + ev);
                assert(r@.map_values(|e: HitEffect| e@) =~= r0.map_values(|e: HitEffect| e@)
                    + ev.map_values(|e: HitEffect| e@));
            }
            k = k + 1;
        }
        proof {
            assert(before.map_values(|h: HitCounter| h@).take(k as int) =~= old(self)@.vars);
            assert(self@.vars =~= old(self)@.vars.map_values(|h: HitCounterView| spec_cleared(h)));
        }
        r
    }
}

impl Resettable for GameTimePlusVars {
    open spec fn spec_is_reset(old: GameTimePlusVars, new: GameTimePlusVars) -> bool {
        new.wf() && new@ == spec_reset_all(old@)
    }

    fn reset(&mut self) {
        GameTimePlusVars::reset(self);
    }
}

/// What keeps the game time for `timing_method`, new: the load remover, with
/// a new hit counter as variables beside it when `hits_method` counts hits; or
/// a new hit counter. Hit counters start from the comparison `stored`.
pub open spec fn spec_game_time_for(
    timing_method: TimingMethod,
    hits_method: HitsMethod,
    stored: Seq<i64>,
) -> GameTimePlusVarsView {
    let lr = LoadRemoverView { look_for_teleporting: false, last_game_state: GAME_STATE_INACTIVE };
    match timing_method {
        TimingMethod::LoadRemovedTime => GameTimePlusVarsView {
            main: GameTimeMainView::LoadRemover(lr),
            vars: match hits_method {
                HitsMethod::NoHits => Seq::empty(),
                HitsMethod::HitsDreamFalls => seq![spec_new_counter(true, stored)],
                HitsMethod::HitsDamage => seq![spec_new_counter(false, stored)],
            },
        },
        TimingMethod::HitsDreamFalls => GameTimePlusVarsView {
            main: GameTimeMainView::HitCounter(spec_new_counter(true, stored)),
            vars: Seq::empty(),
        },
        TimingMethod::HitsDamage => GameTimePlusVarsView {
            main: GameTimeMainView::HitCounter(spec_new_counter(false, stored)),
            vars: Seq::empty(),
        },
    }
}

/// What keeps the game time for a timing method, with a hit counter as
/// variables beside the load remover when hits are counted too; `stored` is
/// the stored comparison of hits.
pub fn timing_method_game_time(
    timing_method: TimingMethod,
    hits_method: HitsMethod,
    stored: Option<Vec<i64>>,
) -> (g: GameTimePlusVars)
    ensures
        g.wf(),
        g@ == spec_game_time_for(timing_method, hits_method, spec_stored(stored)),
{
    match timing_method {
        TimingMethod::LoadRemovedTime => {
            let g = GameTimePlusVars::new(GameTimeMain::LoadRemover(LoadRemover::new()));
            match hits_method {
                HitsMethod::NoHits => g,
                HitsMethod::HitsDreamFalls => g.with_var(HitCounter::new(true, stored)),
                HitsMethod::HitsDamage => g.with_var(HitCounter::new(false, stored)),
            }
        },
        TimingMethod::HitsDreamFalls => GameTimePlusVars::new(
            GameTimeMain::HitCounter(HitCounter::new(true, stored)),
        ),
        TimingMethod::HitsDamage => GameTimePlusVars::new(
            GameTimeMain::HitCounter(HitCounter::new(false, stored)),
        ),
    }
}

} // verus!
