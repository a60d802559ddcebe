//! What an auto splitter can ask of the timer, and the timer's own bookkeeping.
//!
//! The timer host (LiveSplit) does not report which autosplit the run is on,
//! so [`Timer`] keeps that index itself. Everything the host must be told is
//! queued as [`HostCommand`]s, which the embedding program drains and performs.

use vstd::prelude::*;

verus! {

/// What a split condition asks the timer to do on this tick.
#[derive(Clone, Copy, Debug, PartialEq, Eq, Structural, PartialOrd, Ord)]
pub enum SplitterAction {
    Pass,
    Split,
    Skip,
    Reset,
    ManualSplit,
}

impl Default for SplitterAction {
    fn default() -> (r: Self)
        ensures
            r == SplitterAction::Pass,
    {
        SplitterAction::Pass
    }
}

impl SplitterAction {
    /// Keeps any action other than `Pass`; on `Pass`, asks `f` instead.
    pub fn or_else<F: FnOnce() -> SplitterAction>(self, f: F) -> (r: SplitterAction)
        requires
            self == SplitterAction::Pass ==> f.requires(()),
        ensures
            self != SplitterAction::Pass ==> r == self,
            self == SplitterAction::Pass ==> f.ensures((), r),
    {
        match self {
            SplitterAction::Pass => f(),
            a => a,
        }
    }
}

/// The first action unless it is `Pass`, else the second: what `or_else`
/// returns when its closure gives `b`.
pub open spec fn spec_or_else(a: SplitterAction, b: SplitterAction) -> SplitterAction {
    if a == SplitterAction::Pass {
        b
    } else {
        a
    }
}

/// Choosing the first action that is not `Pass` is associative, and `Pass`
/// is neutral on either side: chained `or_else` calls ask each closure in
/// turn until one gives an action.
pub proof fn lemma_or_else_laws(a: SplitterAction, b: SplitterAction, c: SplitterAction)
    ensures
        spec_or_else(spec_or_else(a, b), c) == spec_or_else(a, spec_or_else(b, c)),
        spec_or_else(a, SplitterAction::Pass) == a,
        spec_or_else(SplitterAction::Pass, b) == b,
{
}

/// `Split` when `b` holds, otherwise `Pass`.
pub open spec fn spec_should_split(b: bool) -> SplitterAction {
    if b {
        SplitterAction::Split
    } else {
        SplitterAction::Pass
    }
}

/// `Skip` when `b` holds, otherwise `Pass`.
pub open spec fn spec_should_skip(b: bool) -> SplitterAction {
    if b {
        SplitterAction::Skip
    } else {
        SplitterAction::Pass
    }
}

/// `Split` when `b` holds, otherwise `Pass`.
pub fn should_split(b: bool) -> (r: SplitterAction)
    ensures
        r == spec_should_split(b),
{
    if b {
        SplitterAction::Split
    } else {
        SplitterAction::Pass
    }
}

/// `Skip` when `b` holds, otherwise `Pass`.
pub fn should_skip(b: bool) -> (r: SplitterAction)
    ensures
        r == spec_should_skip(b),
{
    if b {
        SplitterAction::Skip
    } else {
        SplitterAction::Pass
    }
}

/// `Split` on `Some(true)`, `Skip` on `Some(false)`, `Pass` on `None`.
pub open spec fn spec_should_split_skip(mb: Option<bool>) -> SplitterAction {
    match mb {
        Some(true) => SplitterAction::Split,
        Some(false) => SplitterAction::Skip,
        None => SplitterAction::Pass,
    }
}

/// `Split` on `Some(true)`, `Skip` on `Some(false)`, `Pass` on `None`.
pub fn should_split_skip(mb: Option<bool>) -> (r: SplitterAction)
    ensures
        r == spec_should_split_skip(mb),
{
    match mb {
        Some(true) => SplitterAction::Split,
        Some(false) => SplitterAction::Skip,
        None => SplitterAction::Pass,
    }
}

/// The run state that the timer host reports.
#[derive(Clone, Copy, Debug, PartialEq, Eq, Structural)]
pub enum TimerState {
    NotRunning,
    Running,
    Paused,
    Ended,
}

/// No attempt is in progress: the timer is reset or finished.
pub open spec fn spec_between_runs(s: TimerState) -> bool {
    s == TimerState::NotRunning || s == TimerState::Ended
}

/// Whether `s` lies between two runs (not running, or ended).
pub fn is_timer_state_between_runs(s: TimerState) -> (r: bool)
    ensures
        r == spec_between_runs(s),
{
    s == TimerState::NotRunning || s == TimerState::Ended
}

/// A request for the timer host.
#[derive(Clone, Copy, Debug, PartialEq, Eq, Structural)]
pub enum HostCommand {
    Reset,
    Start,
    Split,
    SkipSplit,
}

/// A change that the user made on the timer host by hand.
#[derive(Clone, Copy, Debug, PartialEq, Eq, Structural)]
pub enum ManualChange {
    Reset,
    Start,
    EndSplit,
}

/// Something that is restarted together with the timer.
pub trait Resettable: Sized {
    /// Whether `new` is `old` restarted for a new attempt.
    spec fn spec_is_reset(old: Self, new: Self) -> bool;

    /// Restarts for a new attempt.
    fn reset(&mut self)
        ensures
            Self::spec_is_reset(*old(self), *final(self)),
    ;

    /// Called when the attempt ends; nothing by default.
    fn ended(&mut self) {
    }
}

impl Resettable for () {
    open spec fn spec_is_reset(old: (), new: ()) -> bool {
        true
    }

    fn reset(&mut self) {
    }
}

/// Whether `s` is one of `states`.
pub fn state_in(states: &Vec<TimerState>, s: TimerState) -> (r: bool)
    ensures
        r == states@.contains(s),
{
    let mut k: usize = 0;
    while k < states.len()
        invariant
            k <= states.len(),
            forall|j: int| 0 <= j < k ==> states@[j] != s,
        decreases states.len() - k,
    {
        if states[k] == s {
            assert(states@[k as int] == s);
            return true;
        }
        k = k + 1;
    }
    false
}

/// The abstract state of a [`Timer`].
pub struct TimerView {
    pub state: TimerState,
    pub last_state: TimerState,
    pub i: nat,
    pub n: nat,
    pub auto_reset: Seq<TimerState>,
    pub commands: Seq<HostCommand>,
}

/// The timer state after `a` (the index, the run state and the queued
/// commands), given the state before.
pub open spec fn spec_action(v: TimerView, a: SplitterAction) -> TimerView {
    let w = match a {
        SplitterAction::Pass => v,
        SplitterAction::Reset => TimerView {
            state: TimerState::NotRunning,
            i: 0,
            commands: v.commands.push(HostCommand::Reset),
            ..v
        },
        SplitterAction::Skip => TimerView {
            i: v.i + 1,
            commands: v.commands.push(HostCommand::SkipSplit),
            ..v
        },
        SplitterAction::Split => if v.i == 0 {
            TimerView {
                state: TimerState::Running,
                i: 1,
                commands: v.commands.push(HostCommand::Reset).push(HostCommand::Start),
                ..v
            }
        } else {
            TimerView { i: v.i + 1, commands: v.commands.push(HostCommand::Split), ..v }
        },
        SplitterAction::ManualSplit => if 0 < v.i && v.i + 1 < v.n {
            TimerView { i: v.i + 1, ..v }
        } else {
            v
        },
    };
    if w.n <= w.i {
        TimerView {
            state: TimerState::Ended,
            i: if w.auto_reset.contains(TimerState::Ended) { 0 } else { w.i },
            ..w
        }
    } else {
        w
    }
}

/// Whether `a` restarts the components that run with the timer.
pub open spec fn spec_action_resets_others(v: TimerView, a: SplitterAction) -> bool {
    a == SplitterAction::Reset || (a == SplitterAction::Split && v.i == 0)
}

/// The timer state after the host reported `asr_state`.
pub open spec fn spec_update(v: TimerView, asr_state: TimerState) -> TimerView {
    if asr_state == v.state || asr_state == v.last_state {
        TimerView { last_state: asr_state, ..v }
    } else {
        let i = match asr_state {
            TimerState::NotRunning => 0,
            TimerState::Running => if spec_between_runs(v.state) { 1 } else { v.i },
            TimerState::Ended => if v.auto_reset.contains(TimerState::Ended) { 0 } else { v.n },
            TimerState::Paused => v.i,
        };
        TimerView { state: asr_state, last_state: asr_state, i, ..v }
    }
}

/// The manual change that the host's report reveals, if any.
pub open spec fn spec_update_change(v: TimerView, asr_state: TimerState) -> Option<ManualChange> {
    if asr_state == v.state || asr_state == v.last_state {
        None
    } else {
        match asr_state {
            TimerState::NotRunning => Some(ManualChange::Reset),
            TimerState::Running => if spec_between_runs(v.state) {
                Some(ManualChange::Start)
            } else {
                None
            },
            TimerState::Ended => Some(ManualChange::EndSplit),
            TimerState::Paused => None,
        }
    }
}

/// Keeps track of the autosplit index, because the timer host does not.
pub struct Timer {
    /// The timer state.
    state: TimerState,
    /// The last state the host reported, in case the host is a tad out of date.
    last_state: TimerState,
    /// Index into the list of autosplits including start and end.
    /// 0: either not running, or ended with auto-reset safe;
    /// [1, n): running; n: ended without auto-reset safe.
    i: usize,
    /// Number of autosplits including both start and end.
    n: usize,
    /// The timer states in which it is safe to use auto-reset.
    auto_reset: Vec<TimerState>,
    /// Requests for the host that have not been performed yet.
    commands: Vec<HostCommand>,
}

impl View for Timer {
    type V = TimerView;

    closed spec fn view(&self) -> TimerView {
        TimerView {
            state: self.state,
            last_state: self.last_state,
            i: self.i as nat,
            n: self.n as nat,
            auto_reset: self.auto_reset@,
            commands: self.commands@,
        }
    }
}

/// The timer after a reset: not running, before the first autosplit, having
/// asked the host to reset.
pub open spec fn spec_timer_reset(v: TimerView) -> TimerView {
    TimerView {
        state: TimerState::NotRunning,
        i: 0,
        commands: v.commands.push(HostCommand::Reset),
        ..v
    }
}

impl Resettable for Timer {
    open spec fn spec_is_reset(old: Timer, new: Timer) -> bool {
        new@ == spec_timer_reset(old@)
    }

    fn reset(&mut self) {
        self.commands.push(HostCommand::Reset);
        self.state = TimerState::NotRunning;
        self.i = 0;
    }
}

impl Timer {
    /// A timer for `n` autosplits, starting from the state that the host reports.
    pub fn new(n: usize, auto_reset: Vec<TimerState>, asr_state: TimerState) -> (t: Timer)
        ensures
            t@ == (TimerView {
                state: asr_state,
                last_state: asr_state,
                i: 0,
                n: n as nat,
                auto_reset: auto_reset@,
                commands: Seq::empty(),
            }),
    {
        Timer { state: asr_state, last_state: asr_state, i: 0, n, auto_reset, commands: Vec::new() }
    }

    /// Takes a new number of autosplits and new auto-reset states.
    pub fn renew(&mut self, n: usize, auto_reset: Vec<TimerState>)
        ensures
            final(self)@ == (TimerView { n: n as nat, auto_reset: auto_reset@, ..old(self)@ }),
    {
        self.n = n;
        self.auto_reset = auto_reset;
    }

    pub fn i(&self) -> (r: usize)
        ensures
            r == self@.i,
    {
        self.i
    }

    pub fn n(&self) -> (r: usize)
        ensures
            r == self@.n,
    {
        self.n
    }

    pub fn state(&self) -> (r: TimerState)
        ensures
            r == self@.state,
    {
        self.state
    }

    /// Whether auto-reset is safe in the current state.
    pub fn is_auto_reset_safe(&self) -> (r: bool)
        ensures
            r == self@.auto_reset.contains(self@.state),
    {
        state_in(&self.auto_reset, self.state)
    }

    pub fn is_timer_state_between_runs(&self) -> (r: bool)
        ensures
            r == spec_between_runs(self@.state),
    {
        is_timer_state_between_runs(self.state)
    }

    /// Hands over the queued host commands, oldest first, and empties the queue.
    pub fn take_commands(&mut self) -> (r: Vec<HostCommand>)
        ensures
            r@ == old(self)@.commands,
            final(self)@ == (TimerView { commands: Seq::empty(), ..old(self)@ }),
    {
        let mut r = Vec::new();
        std::mem::swap(&mut r, &mut self.commands);
        r
    }

    /// Follows the state that the host reports, and detects manual resets,
    /// starts and end-splits; `r` is reset on a manual reset or start.
    pub fn update<R: Resettable>(&mut self, asr_state: TimerState, r: &mut R) -> (c: Option<
        ManualChange,
    >)
        ensures
            final(self)@ == spec_update(old(self)@, asr_state),
            c == spec_update_change(old(self)@, asr_state),
            !(c == Some(ManualChange::Reset) || c == Some(ManualChange::Start)) ==> *final(r)
                == *old(r),
            (c == Some(ManualChange::Reset) || c == Some(ManualChange::Start)) ==> R::spec_is_reset(
                *old(r),
                *final(r),
            ),
    {
        if asr_state == self.state || asr_state == self.last_state {
            self.last_state = asr_state;
            return None;
        }
        let mut change = None;
        match asr_state {
            TimerState::NotRunning => {
                self.i = 0;
                r.reset();
                change = Some(ManualChange::Reset);
            },
            TimerState::Running => {
                if is_timer_state_between_runs(self.state) {
                    self.i = 1;
                    r.reset();
                    change = Some(ManualChange::Start);
                }
            },
            TimerState::Ended => {
                if state_in(&self.auto_reset, TimerState::Ended) {
                    self.i = 0;
                } else {
                    self.i = self.n;
                }
                change = Some(ManualChange::EndSplit);
            },
            TimerState::Paused => {},
        }
        self.state = asr_state;
        self.last_state = asr_state;
        change
    }

    /// Carries out `a`: queues the host commands it needs, moves the autosplit
    /// index, and ends the attempt once the index reaches the number of splits.
    pub fn action<R: Resettable>(&mut self, a: SplitterAction, r: &mut R)
        requires
            old(self)@.i < usize::MAX,
        ensures
            final(self)@ == spec_action(old(self)@, a),
            !spec_action_resets_others(old(self)@, a) ==> *final(r) == *old(r),
            spec_action_resets_others(old(self)@, a) ==> R::spec_is_reset(*old(r), *final(r)),
    {
        match a {
            SplitterAction::Pass => {},
            SplitterAction::Reset => {
                self.reset();
                r.reset();
            },
            SplitterAction::Skip => {
                self.commands.push(HostCommand::SkipSplit);
                self.i = self.i + 1;
            },
            SplitterAction::Split => {
                if self.i == 0 {
                    self.commands.push(HostCommand::Reset);
                    self.commands.push(HostCommand::Start);
                    r.reset();
                    self.state = TimerState::Running;
                } else {
                    self.commands.push(HostCommand::Split);
                }
                self.i = self.i + 1;
            },
            SplitterAction::ManualSplit => {
                if 0 < self.i && self.i + 1 < self.n {
                    self.i = self.i + 1;
                }
            },
        }
        if self.n <= self.i {
            self.state = TimerState::Ended;
            if self.is_auto_reset_safe() {
                self.i = 0;
            }
        }
    }
}

/// Once an action is carried out, the autosplit index lies below the number
/// of autosplits, or the attempt has ended.
pub proof fn lemma_action_ends_at_last_split(v: TimerView, a: SplitterAction)
    ensures
        spec_action(v, a).i < spec_action(v, a).n || spec_action(v, a).state == TimerState::Ended,
{
}

/// The autosplit index and the number of autosplits fit a machine word.
pub proof fn lemma_timer_bounds(t: &Timer)
    ensures
        t@.i <= usize::MAX,
        t@.n <= usize::MAX,
{
}

/// A reset action always leaves a timer that is not running, before the first
/// autosplit, having asked the host to reset.
pub proof fn lemma_reset_action(v: TimerView)
    ensures
        spec_action(v, SplitterAction::Reset).i == 0,
        spec_action(v, SplitterAction::Reset).commands.last() == HostCommand::Reset,
        v.n > 0 ==> spec_action(v, SplitterAction::Reset).state == TimerState::NotRunning,
{
}

/// A manual split never starts an attempt and never moves the index onto the
/// last autosplit: the end of a run is always left to a real split.
pub proof fn lemma_manual_split_keeps_end(v: TimerView)
    requires
        v.i < v.n,
    ensures
        spec_action(v, SplitterAction::ManualSplit).i == v.i || spec_action(
            v,
            SplitterAction::ManualSplit,
        ).i == v.i + 1,
        spec_action(v, SplitterAction::ManualSplit).i < v.n,
        spec_action(v, SplitterAction::ManualSplit).commands == v.commands,
        spec_action(v, SplitterAction::ManualSplit).state == v.state,
{
}

/// Seeing the same host state twice in a row changes nothing.
pub proof fn lemma_update_idempotent(v: TimerView, s: TimerState)
    ensures
        spec_update(spec_update(v, s), s) == spec_update(v, s),
        spec_update_change(spec_update(v, s), s) is None,
{
}

/// The autosplit index stays within the autosplits: an action taken before
/// the last autosplit leaves the index at most at the number of autosplits.
pub proof fn lemma_action_index_within(v: TimerView, a: SplitterAction)
    requires
        v.i < v.n,
    ensures
        spec_action(v, a).i <= v.n,
        spec_action(v, a).n == v.n,
{
}

/// What the host reports keeps the autosplit index within the autosplits, and
/// a reset seen on the host puts it before the first autosplit.
pub proof fn lemma_update_index_within(v: TimerView, s: TimerState)
    requires
        v.i <= v.n,
        1 <= v.n,
    ensures
        spec_update(v, s).i <= v.n,
        spec_update(v, s).n == v.n,
        s == TimerState::NotRunning && s != v.state && s != v.last_state ==> spec_update(v, s).i == 0,
{
}

/// What the host's run state does to the autosplit index: resuming from a
/// pause or seeing the run still running keeps it; a pause keeps it; only a
/// start seen while no attempt is in progress puts it at the first split.
pub proof fn lemma_running_keeps_index(v: TimerView)
    ensures
        v.state == TimerState::Running || v.state == TimerState::Paused ==> spec_update(
            v,
            TimerState::Running,
        ).i == v.i,
        spec_update(v, TimerState::Paused).i == v.i,
        (v.state == TimerState::NotRunning || v.state == TimerState::Ended) && v.last_state
            != TimerState::Running ==> spec_update(v, TimerState::Running).i == 1,
{
}

} // verus!
