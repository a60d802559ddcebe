//! Counting hits: a run's total, the hits of each segment, and the comparison
//! against the best run so far.
//!
//! The counter never talks to the timer host itself: each change it wants the
//! host to see is queued as a [`HitEffect`], and the caller carries them out.

use vstd::prelude::*;

use crate::scenes::{
    is_dream,
    spec_is_dream,
    GAME_STATE_ENTERING_LEVEL,
    GAME_STATE_EXITING_LEVEL,
    GAME_STATE_PLAYING,
};
use crate::settings_value::{
    dict_get,
    dict_insert,
    lemma_dict_get_insert,
    lemma_svs_len_pub,
    spec_dict_get,
    spec_dict_insert,
    sv,
    svd,
    svs,
    SValue,
    SettingsValue,
};
use crate::text::{decimal_string, spec_decimal, str_eq};

verus! {

/// The dash to show where there is nothing to compare against.
pub const DASH: &'static str = "\u{2014}";

/// The minus sign for negative numbers.
pub const MINUS: &'static str = "\u{2212}";

/// The plus sign for positive numbers.
pub const PLUS: &'static str = "+";

/// The text of a difference of hits: a plus sign before a positive number, a
/// minus sign before the magnitude of a negative one, and `0` for zero.
pub open spec fn spec_delta_string(i: int) -> Seq<char> {
    if i > 0 {
        PLUS@ + spec_decimal(i as nat)
    } else if i < 0 {
        MINUS@ + spec_decimal((-i) as nat)
    } else {
        spec_decimal(0)
    }
}

/// The text of a difference that may lie outside `i64`.
fn delta_text(i: i128) -> (r: String)
    requires
        -(u64::MAX as int) <= i <= u64::MAX,
    ensures
        r@ == spec_delta_string(i as int),
{
    if i > 0 {
        let s = String::from_str(PLUS);
        s.concat(decimal_string(i as u64).as_str())
    } else if i < 0 {
        let m = (0i128 - i) as u64;
        let s = String::from_str(MINUS);
        s.concat(decimal_string(m).as_str())
    } else {
        decimal_string(0)
    }
}

/// The text of a difference of hits against the comparison.
pub fn delta_string(i: i64) -> (r: String)
    ensures
        r@ == spec_delta_string(i as int),
{
    delta_text(i as i128)
}

/// The sum of a sequence of counts.
pub open spec fn sum(s: Seq<i64>) -> int
    decreases s.len(),
{
    if s.len() == 0 {
        0
    } else {
        sum(s.drop_last()) + s.last()
    }
}

/// No count is negative.
pub open spec fn all_nonneg(s: Seq<i64>) -> bool {
    forall|k: int| 0 <= k < s.len() ==> s[k] >= 0
}

/// Changing one count changes the sum by the same amount.
pub proof fn lemma_sum_update(s: Seq<i64>, k: int, v: i64)
    requires
        0 <= k < s.len(),
    ensures
        sum(s.update(k, v)) == sum(s) - s[k] + v,
    decreases s.len(),
{
    if k == s.len() - 1 {
        assert(s.update(k, v).drop_last() =~= s.drop_last());
    } else {
        lemma_sum_update(s.drop_last(), k, v);
        assert(s.update(k, v).drop_last() =~= s.drop_last().update(k, v));
    }
}

/// With no negative counts, each count is at most the sum, and the sum is not negative.
pub proof fn lemma_sum_bounds(s: Seq<i64>)
    requires
        all_nonneg(s),
    ensures
        sum(s) >= 0,
        forall|k: int| 0 <= k < s.len() ==> s[k] <= sum(s),
    decreases s.len(),
{
    if s.len() > 0 {
        lemma_sum_bounds(s.drop_last());
        assert forall|k: int| 0 <= k < s.len() implies s[k] <= sum(s) by {
            if k < s.len() - 1 {
                assert(s.drop_last()[k] == s[k]);
            }
        }
    }
}

/// `s` grown to `len` entries by appending `value`; never shrunk.
pub open spec fn spec_grow(s: Seq<i64>, len: int, value: i64) -> Seq<i64> {
    if len > s.len() {
        s + Seq::new((len - s.len()) as nat, |_k: int| value)
    } else {
        s
    }
}

/// Growing with zeros keeps the sum.
pub proof fn lemma_grow_zero_sum(s: Seq<i64>, len: int)
    ensures
        sum(spec_grow(s, len, 0)) == sum(s),
    decreases len - s.len(),
{
    if len > s.len() {
        let g = spec_grow(s, len, 0);
        lemma_grow_zero_sum(s, len - 1);
        assert(g.drop_last() =~= spec_grow(s, len - 1, 0));
    }
}

/// A value the timer host shows in a custom variable.
#[derive(Clone, Debug, PartialEq)]
pub enum VariableValue {
    Int(i64),
    Text(String),
}

/// Something the hit counter asks of the timer host.
#[derive(Clone, Debug, PartialEq)]
pub enum HitEffect {
    /// Sets a custom variable.
    SetVariable(&'static str, VariableValue),
    /// Stores the comparison hits in the settings.
    StoreComparison(Vec<i64>),
    /// Pauses the game time.
    PauseGameTime,
    /// Sets the game time to a number of seconds.
    SetGameTimeSeconds(i64),
}

/// What a [`HitEffect`] asks, over plain values.
pub enum HitEffectView {
    SetInt(Seq<char>, int),
    SetText(Seq<char>, Seq<char>),
    StoreComparison(Seq<i64>),
    PauseGameTime,
    SetGameTimeSeconds(int),
}

impl View for HitEffect {
    type V = HitEffectView;

    open spec fn view(&self) -> HitEffectView {
        match self {
            HitEffect::SetVariable(name, VariableValue::Int(x)) => HitEffectView::SetInt(
                name@,
                *x as int,
            ),
            HitEffect::SetVariable(name, VariableValue::Text(t)) => HitEffectView::SetText(
                name@,
                t@,
            ),
            HitEffect::StoreComparison(v) => HitEffectView::StoreComparison(v@),
            HitEffect::PauseGameTime => HitEffectView::PauseGameTime,
            HitEffect::SetGameTimeSeconds(s) => HitEffectView::SetGameTimeSeconds(*s as int),
        }
    }
}

/// The abstract state of a [`HitCounter`], with the requests it has queued.
pub struct HitCounterView {
    pub count_dream_falling: bool,
    pub hits: i64,
    pub segments_hits: Seq<i64>,
    pub comparison_hits: Seq<i64>,
    pub i: nat,
    pub n: Option<nat>,
    pub last_recoil: bool,
    pub last_hazard: bool,
    pub last_dead_or_0: bool,
    pub last_exiting_level: Option<Seq<char>>,
    pub effects: Seq<HitEffectView>,
}

/// The total number of hits is the sum of the hits of each segment, none negative.
pub open spec fn hits_are_segment_sum(v: HitCounterView) -> bool {
    v.hits == sum(v.segments_hits) && all_nonneg(v.segments_hits)
}

/// Every comparison entry is at most what it was before; none was dropped.
pub open spec fn comparison_not_worse(before: Seq<i64>, after: Seq<i64>) -> bool {
    &&& before.len() <= after.len()
    &&& forall|k: int| 0 <= k < before.len() ==> after[k] <= before[k]
}

/// `v` with `es` queued after its requests.
pub open spec fn with_effects(v: HitCounterView, es: Seq<HitEffectView>) -> HitCounterView {
    HitCounterView { effects: v.effects + es, ..v }
}

/// The comparison kept on pace at index `i`: grown to `i` entries with the
/// current hits, and the entry of the segment just finished lowered to the
/// current hits if those are fewer.
pub open spec fn spec_pace(c: Seq<i64>, i: int, hits: i64) -> Seq<i64> {
    let g = spec_grow(c, i, hits);
    if 1 <= i {
        g.update(i - 1, if hits < g[i - 1] { hits } else { g[i - 1] })
    } else {
        g
    }
}

/// The text shown as the difference against the comparison at index `i`.
pub open spec fn spec_delta_text(hits: i64, c: Seq<i64>, i: int) -> Seq<char> {
    if 0 <= i < c.len() {
        spec_delta_string(hits - c[i])
    } else {
        DASH@
    }
}

/// One hit: counted in the total and in the segment at the current index.
pub open spec fn spec_add_hit(v: HitCounterView) -> HitCounterView {
    let hits = (v.hits + 1) as i64;
    let g = spec_grow(v.segments_hits, v.i + 1int, 0);
    let s = (g[v.i as int] + 1) as i64;
    HitCounterView {
        hits,
        segments_hits: g.update(v.i as int, s),
        effects: v.effects + seq![
            HitEffectView::SetInt("hits"@, hits as int),
            HitEffectView::SetInt("segment hits"@, s as int),
            HitEffectView::SetText("delta hits"@, spec_delta_text(hits, v.comparison_hits, v.i as int)),
        ],
        ..v
    }
}

/// A hit on a consistent counter adds exactly one to the total and to the
/// count of the current segment, and keeps the counter consistent.
pub proof fn lemma_add_hit_counts_one(v: HitCounterView)
    requires
        hits_are_segment_sum(v),
        v.hits < i64::MAX,
    ensures
        spec_add_hit(v).hits == v.hits + 1,
        spec_add_hit(v).segments_hits.len() == spec_grow(v.segments_hits, v.i + 1int, 0).len(),
        spec_add_hit(v).segments_hits[v.i as int] == spec_grow(v.segments_hits, v.i + 1int, 0)[v.i as int]
            + 1,
        forall|k: int|
            0 <= k < spec_add_hit(v).segments_hits.len() && k != v.i ==> spec_add_hit(v).segments_hits[k]
                == spec_grow(v.segments_hits, v.i + 1int, 0)[k],
        hits_are_segment_sum(spec_add_hit(v)),
{
    let g = spec_grow(v.segments_hits, v.i + 1int, 0);
    lemma_sum_bounds(v.segments_hits);
    lemma_grow_zero_sum(v.segments_hits, v.i + 1int);
    assert(all_nonneg(g));
    lemma_sum_bounds(g);
    assert(g[v.i as int] <= sum(g));
    let s = (g[v.i as int] + 1) as i64;
    lemma_sum_update(g, v.i as int, s);
    assert(all_nonneg(g.update(v.i as int, s)));
}

/// The comparison kept on pace at the current index.
pub open spec fn spec_add_pace(v: HitCounterView) -> HitCounterView {
    HitCounterView { comparison_hits: spec_pace(v.comparison_hits, v.i as int, v.hits), ..v }
}

/// The attempt ended: the comparison is kept on pace at the last index, and
/// the best run's hits are shown.
pub open spec fn spec_ended(v: HitCounterView) -> HitCounterView {
    match v.n {
        None => v,
        Some(n) => {
            let c = spec_pace(v.comparison_hits, n as int, v.hits);
            HitCounterView {
                comparison_hits: c,
                effects: if 1 <= n {
                    v.effects.push(HitEffectView::SetInt("pb hits"@, c[n - 1] as int))
                } else {
                    v.effects
                },
                ..v
            }
        },
    }
}

/// A new attempt: no hits, no segments, index 0; the comparison is stored.
pub open spec fn spec_reset(v: HitCounterView) -> HitCounterView {
    HitCounterView {
        hits: 0,
        segments_hits: Seq::empty(),
        i: 0,
        effects: v.effects + seq![
            HitEffectView::StoreComparison(v.comparison_hits),
            HitEffectView::SetInt("hits"@, 0),
            HitEffectView::SetInt("segment hits"@, 0),
        ],
        ..v
    }
}

/// Follows the timer's index `i` (of `n`): on a change, the comparison is
/// loaded (`stored`) when leaving index 0 or stored when coming back to it, the
/// segments grow to cover `i`, the segment, comparison and difference are
/// shown, and the comparison is kept on pace.
pub open spec fn spec_sync(v: HitCounterView, i: nat, n: nat, stored: Seq<i64>) -> HitCounterView {
    if i == v.i {
        v
    } else {
        let c = if v.i == 0 {
            stored
        } else {
            v.comparison_hits
        };
        let store_e = if v.i != 0 && i == 0 {
            seq![HitEffectView::StoreComparison(v.comparison_hits)]
        } else {
            Seq::empty()
        };
        let g = spec_grow(v.segments_hits, i + 1int, 0);
        let against = if i < c.len() {
            seq![
                HitEffectView::SetInt("comparison hits"@, c[i as int] as int),
                HitEffectView::SetText("delta hits"@, spec_delta_string(v.hits - c[i as int])),
            ]
        } else {
            seq![
                HitEffectView::SetText("comparison hits"@, DASH@),
                HitEffectView::SetText("delta hits"@, DASH@),
            ]
        };
        HitCounterView {
            comparison_hits: spec_pace(c, i as int, v.hits),
            segments_hits: g,
            i,
            n: Some(n),
            effects: v.effects + store_e + seq![
                HitEffectView::SetInt("segment hits"@, g[i as int] as int),
            ] + against,
            ..v
        }
    }
}

/// What is read from the game in one tick, for counting hits.
pub struct HitObservation {
    pub recoil: Option<bool>,
    pub hazard: Option<bool>,
    pub dead: Option<bool>,
    pub health: Option<i32>,
    pub scene_name: Option<String>,
    pub game_state: Option<i32>,
}

/// A hit on the rising edge of a flag.
pub open spec fn spec_edge(v: HitCounterView, last: bool, now: bool) -> HitCounterView {
    if !last && now {
        spec_add_hit(v)
    } else {
        v
    }
}

/// The hero is dead, or at zero health while playing.
pub open spec fn spec_dead_or_0(o: HitObservation) -> bool {
    o.dead == Some(true) || (o.health == Some(0i32) && o.game_state == Some(GAME_STATE_PLAYING))
}

/// A fall out of a dream: entering the dream scene that was being exited.
pub open spec fn spec_dream_fall(v: HitCounterView, o: HitObservation) -> HitCounterView {
    if !v.count_dream_falling {
        v
    } else {
        match o.scene_name {
            None => v,
            Some(s) => {
                let fell = o.game_state == Some(GAME_STATE_ENTERING_LEVEL)
                    && v.last_exiting_level == Some(s@) && spec_is_dream(s@);
                let w = if fell {
                    spec_add_hit(v)
                } else {
                    v
                };
                HitCounterView {
                    last_exiting_level: if o.game_state == Some(GAME_STATE_EXITING_LEVEL) {
                        if w.last_exiting_level is None {
                            Some(s@)
                        } else {
                            w.last_exiting_level
                        }
                    } else {
                        None
                    },
                    ..w
                }
            },
        }
    }
}

/// The hits of one tick: recoil, hazard respawn, death or zero health, and
/// (when counted) a fall out of a dream, each on its rising edge.
pub open spec fn spec_observe(v: HitCounterView, o: HitObservation) -> HitCounterView {
    spec_dream_fall(spec_observe_edges(v, o), o)
}

/// The hits of one tick on the rising edges of recoil, hazard respawn, and
/// death or zero health.
pub open spec fn spec_observe_edges(v: HitCounterView, o: HitObservation) -> HitCounterView {
    let v1 = match o.recoil {
        Some(r) => HitCounterView { last_recoil: r, ..spec_edge(v, v.last_recoil, r) },
        None => v,
    };
    let v2 = match o.hazard {
        Some(h) => HitCounterView { last_hazard: h, ..spec_edge(v1, v1.last_hazard, h) },
        None => v1,
    };
    let d = spec_dead_or_0(o);
    HitCounterView { last_dead_or_0: d, ..spec_edge(v2, v2.last_dead_or_0, d) }
}

/// One tick of the counter's variables: follow the timer's index, then count
/// the hits of the tick if the timer is running.
pub open spec fn spec_update_variables(
    v: HitCounterView,
    i: nat,
    n: nat,
    stored: Seq<i64>,
    running: bool,
    o: HitObservation,
) -> HitCounterView {
    let w = spec_sync(v, i, n, stored);
    if running {
        spec_observe(w, o)
    } else {
        w
    }
}

/// One tick with the game time showing hits: pause the game time, update the
/// variables, then set the game time to the number of hits.
pub open spec fn spec_update_game_time(
    v: HitCounterView,
    i: nat,
    n: nat,
    stored: Seq<i64>,
    running: bool,
    o: HitObservation,
) -> HitCounterView {
    let w = spec_update_variables(
        with_effects(v, seq![HitEffectView::PauseGameTime]),
        i,
        n,
        stored,
        running,
        o,
    );
    with_effects(w, seq![HitEffectView::SetGameTimeSeconds(w.hits as int)])
}

/// A new counter at zero hits with the comparison `stored`, having asked the
/// host to show zero hits.
pub open spec fn spec_new_counter(count_dream_falling: bool, stored: Seq<i64>) -> HitCounterView {
    HitCounterView {
        count_dream_falling,
        hits: 0,
        segments_hits: Seq::empty(),
        comparison_hits: stored,
        i: 0,
        n: None,
        last_recoil: false,
        last_hazard: false,
        last_dead_or_0: false,
        last_exiting_level: None,
        effects: seq![HitEffectView::SetInt("hits"@, 0), HitEffectView::SetInt("segment hits"@, 0)],
    }
}

/// The stored comparison, or none.
pub open spec fn spec_stored(stored: Option<Vec<i64>>) -> Seq<i64> {
    match stored {
        Some(v) => v@,
        None => Seq::empty(),
    }
}

/// Counts hits, as damage taken, hazard respawns, deaths, and (optionally)
/// falls out of a dream.
pub struct HitCounter {
    count_dream_falling: bool,
    hits: i64,
    /// Up to the number of autosplits: 0 at index 0, then the hits of each segment.
    segments_hits: Vec<i64>,
    /// Up to the number of autosplits: 0 at index 0, then the cumulative hits
    /// of the best run up through the end of each segment.
    comparison_hits: Vec<i64>,
    /// Index into the list of autosplits, as the timer keeps it.
    i: usize,
    /// Number of autosplits including both start and end, once known.
    n: Option<usize>,
    last_recoil: bool,
    last_hazard: bool,
    last_dead_or_0: bool,
    last_exiting_level: Option<String>,
    effects: Vec<HitEffect>,
}

impl View for HitCounter {
    type V = HitCounterView;

    closed spec fn view(&self) -> HitCounterView {
        HitCounterView {
            count_dream_falling: self.count_dream_falling,
            hits: self.hits,
            segments_hits: self.segments_hits@,
            comparison_hits: self.comparison_hits@,
            i: self.i as nat,
            n: match self.n {
                Some(n) => Some(n as nat),
                None => None,
            },
            last_recoil: self.last_recoil,
            last_hazard: self.last_hazard,
            last_dead_or_0: self.last_dead_or_0,
            last_exiting_level: match self.last_exiting_level {
                Some(s) => Some(s@),
                None => None,
            },
            effects: self.effects@.map_values(|e: HitEffect| e@),
        }
    }
}

/// Grows `v` to `len` entries by appending `value`; never shrinks it.
fn grow_to(v: &mut Vec<i64>, len: usize, value: i64)
    ensures
        final(v)@ == spec_grow(old(v)@, len as int, value),
{
    let ghost before = v@;
    while v.len() < len
        invariant
            v@.len() <= (if len > before.len() { len as nat } else { before.len() }),
            v@.len() >= before.len(),
            v@.subrange(0, before.len() as int) == before,
            forall|k: int| before.len() <= k < v@.len() ==> v@[k] == value,
        decreases len - v@.len(),
    {
        v.push(value);
    }
    assert forall|k: int| 0 <= k < before.len() implies v@[k] == before[k] by {
        assert(v@.subrange(0, before.len() as int)[k] == before[k]);
    }
    assert(v@ =~= spec_grow(before, len as int, value));
}

impl HitCounter {
    /// The hit counter is consistent: the total is the sum of the segments,
    /// none of them negative.
    pub open spec fn wf(&self) -> bool {
        hits_are_segment_sum(self@)
    }

    /// Queues a request for the timer host.
    fn emit(&mut self, e: HitEffect)
        ensures
            final(self)@ == with_effects(old(self)@, seq![e@]),
    {
        let ghost before = self.effects@;
        self.effects.push(e);
        proof {
            assert(self.effects@.map_values(|e: HitEffect| e@) =~= before.map_values(
                |e: HitEffect| e@,
            ) + seq![e@]);
        }
    }

    /// A new counter at zero hits; `stored` is the comparison stored in the settings.
    pub fn new(count_dream_falling: bool, stored: Option<Vec<i64>>) -> (h: HitCounter)
        ensures
            h.wf(),
            h@ == spec_new_counter(count_dream_falling, spec_stored(stored)),
    {
        let comparison_hits = match stored {
            Some(v) => v,
            None => Vec::new(),
        };
        let mut h = HitCounter {
            count_dream_falling,
            hits: 0,
            segments_hits: Vec::new(),
            comparison_hits,
            i: 0,
            n: None,
            last_recoil: false,
            last_hazard: false,
            last_dead_or_0: false,
            last_exiting_level: None,
            effects: Vec::new(),
        };
        proof {
            assert(h.effects@.map_values(|e: HitEffect| e@) =~= Seq::<HitEffectView>::empty());
        }
        h.emit(HitEffect::SetVariable("hits", VariableValue::Int(0)));
        h.emit(HitEffect::SetVariable("segment hits", VariableValue::Int(0)));
        proof {
            assert(h@.effects =~= seq![
                HitEffectView::SetInt("hits"@, 0),
                HitEffectView::SetInt("segment hits"@, 0),
            ]);
        }
        h
    }

    /// Hands over the queued requests for the timer host and empties the queue.
    pub fn take_effects(&mut self) -> (r: Vec<HitEffect>)
        ensures
            r@.map_values(|e: HitEffect| e@) == old(self)@.effects,
            final(self)@ == (HitCounterView { effects: Seq::empty(), ..old(self)@ }),
            final(self).wf() == old(self).wf(),
    {
        let mut r = Vec::new();
        std::mem::swap(&mut r, &mut self.effects);
        proof {
            assert(self.effects@.map_values(|e: HitEffect| e@) =~= Seq::<HitEffectView>::empty());
        }
        r
    }

    /// The total number of hits of this attempt.
    pub fn hits(&self) -> (r: i64)
        ensures
            r == self@.hits,
    {
        self.hits
    }

    /// The timer index the counter last followed.
    pub fn i(&self) -> (r: usize)
        ensures
            r == self@.i,
    {
        self.i
    }

    /// The comparison hits, as they would be stored.
    pub fn comparison_hits(&self) -> (r: &Vec<i64>)
        ensures
            r@ == self@.comparison_hits,
    {
        &self.comparison_hits
    }

    /// The hits of each segment of the current attempt.
    pub fn segments_hits(&self) -> (r: &Vec<i64>)
        ensures
            r@ == self@.segments_hits,
    {
        &self.segments_hits
    }

    /// Whether following the timer to index `timer_i` will read the stored
    /// comparison: the index changes and the counter is at index 0.
    pub fn needs_stored_comparison(&self, timer_i: usize) -> (r: bool)
        ensures
            r == (timer_i != self@.i && self@.i == 0),
    {
        timer_i != self.i && self.i == 0
    }

    /// Keeps the comparison on pace at index `len`.
    fn pace(&mut self, len: usize)
        ensures
            final(self)@ == (HitCounterView {
                comparison_hits: spec_pace(old(self)@.comparison_hits, len as int, old(self)@.hits),
                ..old(self)@
            }),
    {
        grow_to(&mut self.comparison_hits, len, self.hits);
        if 1 <= len {
            let c = self.comparison_hits[len - 1];
            let m = if self.hits < c {
                self.hits
            } else {
                c
            };
            self.comparison_hits.set(len - 1, m);
        }
    }

    /// The attempt ended: the best-run comparison for the last segment becomes
    /// the smaller of what it was and this attempt's hits.
    pub fn ended(&mut self)
        ensures
            final(self)@ == spec_ended(old(self)@),
            final(self).wf() == old(self).wf(),
    {
        let ghost v = self@;
        let n = match self.n {
            Some(n) => n,
            None => return ,
        };
        self.pace(n);
        if 1 <= n {
            let pb = self.comparison_hits[n - 1];
            self.emit(HitEffect::SetVariable("pb hits", VariableValue::Int(pb)));
        }
        proof {
            assert(self@.effects =~= spec_ended(v).effects);
        }
    }

    /// A new attempt: no hits, no segments; the comparison is stored.
    pub fn reset(&mut self)
        ensures
            final(self).wf(),
            final(self)@ == spec_reset(old(self)@),
    {
        let ghost v = self@;
        self.hits = 0;
        self.segments_hits = Vec::new();
        let stored = self.comparison_hits.clone();
        proof {
            assert(stored@ =~= self.comparison_hits@);
        }
        self.emit(HitEffect::StoreComparison(stored));
        self.i = 0;
        self.emit(HitEffect::SetVariable("hits", VariableValue::Int(0)));
        self.emit(HitEffect::SetVariable("segment hits", VariableValue::Int(0)));
        proof {
            assert(self.segments_hits@ =~= Seq::<i64>::empty());
            assert(self@.effects =~= spec_reset(v).effects);
        }
    }

    /// The text of the difference against the comparison at the current index.
    fn delta_now(&self) -> (r: String)
        ensures
            r@ == spec_delta_text(self@.hits, self@.comparison_hits, self@.i as int),
    {
        if self.i < self.comparison_hits.len() {
            let c = self.comparison_hits[self.i];
            delta_text(self.hits as i128 - c as i128)
        } else {
            String::from_str(DASH)
        }
    }

    /// Counts one hit, in the total and in the current segment.
    pub fn add_hit(&mut self)
        requires
            old(self).wf(),
            old(self)@.hits < i64::MAX,
            old(self)@.i < usize::MAX,
        ensures
            final(self).wf(),
            final(self)@ == spec_add_hit(old(self)@),
    {
        let ghost v = self@;
        let ghost g = spec_grow(v.segments_hits, v.i + 1int, 0);
        proof {
            lemma_sum_bounds(v.segments_hits);
            lemma_grow_zero_sum(v.segments_hits, v.i + 1int);
            assert(all_nonneg(g));
            lemma_sum_bounds(g);
        }
        self.hits = self.hits + 1;
        grow_to(&mut self.segments_hits, self.i + 1, 0);
        let s = self.segments_hits[self.i] + 1;
        self.segments_hits.set(self.i, s);
        proof {
            lemma_sum_update(g, v.i as int, s);
        }
        let h = self.hits;
        self.emit(HitEffect::SetVariable("hits", VariableValue::Int(h)));
        self.emit(HitEffect::SetVariable("segment hits", VariableValue::Int(s)));
        let d = self.delta_now();
        self.emit(HitEffect::SetVariable("delta hits", VariableValue::Text(d)));
        proof {
            assert(self@.effects =~= spec_add_hit(v).effects);
        }
    }

    /// Keeps the comparison on pace: it grows to the current index with the
    /// current hits, and the entry of the segment just finished becomes the
    /// smaller of what it was and the current hits.
    pub fn add_pace(&mut self)
        ensures
            final(self)@ == spec_add_pace(old(self)@),
            final(self).wf() == old(self).wf(),
    {
        let i = self.i;
        self.pace(i);
    }

    /// Follows the timer to index `timer_i` of `timer_n`; `stored` is the
    /// stored comparison, read when [`Self::needs_stored_comparison`] says so.
    fn sync(&mut self, timer_i: usize, timer_n: usize, stored: Option<Vec<i64>>)
        requires
            old(self).wf(),
            timer_i < usize::MAX,
        ensures
            final(self).wf(),
            final(self)@ == spec_sync(old(self)@, timer_i as nat, timer_n as nat, spec_stored(stored)),
    {
        let ghost v = self@;
        if timer_i == self.i {
            return ;
        }
        if self.i == 0 {
            self.comparison_hits = match stored {
                Some(c) => c,
                None => Vec::new(),
            };
        } else if timer_i == 0 {
            let c = self.comparison_hits.clone();
            proof {
                assert(c@ =~= self.comparison_hits@);
            }
            self.emit(HitEffect::StoreComparison(c));
        }
        self.i = timer_i;
        self.n = Some(timer_n);
        proof {
            lemma_grow_zero_sum(v.segments_hits, timer_i + 1);
        }
        grow_to(&mut self.segments_hits, timer_i + 1, 0);
        let s = self.segments_hits[timer_i];
        self.emit(HitEffect::SetVariable("segment hits", VariableValue::Int(s)));
        if timer_i < self.comparison_hits.len() {
            let c = self.comparison_hits[timer_i];
            self.emit(HitEffect::SetVariable("comparison hits", VariableValue::Int(c)));
            let d = delta_text(self.hits as i128 - c as i128);
            self.emit(HitEffect::SetVariable("delta hits", VariableValue::Text(d)));
        } else {
            self.emit(
                HitEffect::SetVariable("comparison hits", VariableValue::Text(String::from_str(DASH))),
            );
            self.emit(
                HitEffect::SetVariable("delta hits", VariableValue::Text(String::from_str(DASH))),
            );
        }
        self.add_pace();
        proof {
            assert(self@.effects =~= spec_sync(v, timer_i as nat, timer_n as nat, spec_stored(stored)).effects);
        }
    }

    /// One hit on the rising edge of a flag.
    fn edge(&mut self, last: bool, now: bool)
        requires
            old(self).wf(),
            old(self)@.hits < i64::MAX,
            old(self)@.i < usize::MAX,
        ensures
            final(self).wf(),
            final(self)@ == spec_edge(old(self)@, last, now),
    {
        if !last && now {
            self.add_hit();
        }
    }

    /// Counts the hits of one tick.
    fn observe(&mut self, o: &HitObservation)
        requires
            old(self).wf(),
            old(self)@.hits + 4 <= i64::MAX,
            old(self)@.i < usize::MAX,
        ensures
            final(self).wf(),
            final(self)@ == spec_observe(old(self)@, *o),
    {
        self.observe_edges(o);
        self.dream_fall(o);
    }

    /// Counts the hits of one tick on the rising edges of the flags.
    fn observe_edges(&mut self, o: &HitObservation)
        requires
            old(self).wf(),
            old(self)@.hits + 4 <= i64::MAX,
            old(self)@.i < usize::MAX,
        ensures
            final(self).wf(),
            final(self)@ == spec_observe_edges(old(self)@, *o),
            final(self)@.hits <= old(self)@.hits + 3,
    {
        if let Some(r) = o.recoil {
            let last = self.last_recoil;
            self.edge(last, r);
            self.last_recoil = r;
        }
        if let Some(h) = o.hazard {
            let last = self.last_hazard;
            self.edge(last, h);
            self.last_hazard = h;
        }
        let d = match o.dead {
            Some(true) => true,
            _ => match (o.health, o.game_state) {
                (Some(hp), Some(gs)) => hp == 0 && gs == GAME_STATE_PLAYING,
                _ => false,
            },
        };
        let last = self.last_dead_or_0;
        self.edge(last, d);
        self.last_dead_or_0 = d;
    }

    /// Counts a fall out of a dream, when such falls are counted.
    fn dream_fall(&mut self, o: &HitObservation)
        requires
            old(self).wf(),
            old(self)@.hits < i64::MAX,
            old(self)@.i < usize::MAX,
        ensures
            final(self).wf(),
            final(self)@ == spec_dream_fall(old(self)@, *o),
    {
        if self.count_dream_falling {
            if let Some(s) = &o.scene_name {
                let entering = match o.game_state {
                    Some(gs) => gs == GAME_STATE_ENTERING_LEVEL,
                    None => false,
                };
                let exiting = match o.game_state {
                    Some(gs) => gs == GAME_STATE_EXITING_LEVEL,
                    None => false,
                };
                let same = match &self.last_exiting_level {
                    Some(l) => str_eq(l.as_str(), s.as_str()),
                    None => false,
                };
                if entering && same && is_dream(s.as_str()) {
                    self.add_hit();
                }
                if exiting {
                    if self.last_exiting_level.is_none() {
                        self.last_exiting_level = Some(s.clone());
                    }
                } else {
                    self.last_exiting_level = None;
                }
            }
        }
    }

    /// One tick of the counter's variables: follows the timer to index
    /// `timer_i` of `timer_n` and, while the timer runs, counts the hits read
    /// from the game.
    pub fn update_variables(
        &mut self,
        timer_i: usize,
        timer_n: usize,
        stored: Option<Vec<i64>>,
        timer_running: bool,
        o: &HitObservation,
    )
        requires
            old(self).wf(),
            old(self)@.hits + 4 <= i64::MAX,
            timer_i < usize::MAX,
        ensures
            final(self).wf(),
            final(self)@ == spec_update_variables(
                old(self)@,
                timer_i as nat,
                timer_n as nat,
                spec_stored(stored),
                timer_running,
                *o,
            ),
    {
        self.sync(timer_i, timer_n, stored);
        if timer_running {
            self.observe(o);
        }
    }

    /// One tick with the game time showing hits: pauses the game time, updates
    /// the variables, and sets the game time to the number of hits.
    pub fn update_game_time(
        &mut self,
        timer_i: usize,
        timer_n: usize,
        stored: Option<Vec<i64>>,
        timer_running: bool,
        o: &HitObservation,
    )
        requires
            old(self).wf(),
            old(self)@.hits + 4 <= i64::MAX,
            timer_i < usize::MAX,
        ensures
            final(self).wf(),
            final(self)@ == spec_update_game_time(
                old(self)@,
                timer_i as nat,
                timer_n as nat,
                spec_stored(stored),
                timer_running,
                *o,
            ),
    {
        self.emit(HitEffect::PauseGameTime);
        self.update_variables(timer_i, timer_n, stored, timer_running, o);
        let h = self.hits;
        self.emit(HitEffect::SetGameTimeSeconds(h));
    }
}

/// Keeping the comparison on pace never makes an entry worse and never drops one.
pub proof fn lemma_pace_not_worse(c: Seq<i64>, i: int, hits: i64)
    ensures
        comparison_not_worse(c, spec_pace(c, i, hits)),
{
}

/// After keeping pace at index `i >= 1`, the entry of the segment just finished
/// is at most the current hits.
pub proof fn lemma_pace_at_most_hits(c: Seq<i64>, i: int, hits: i64)
    requires
        1 <= i,
    ensures
        spec_pace(c, i, hits).len() >= i,
        spec_pace(c, i, hits)[i - 1] <= hits,
{
}

/// Reset clears the attempt and keeps the comparison, which it stores.
pub proof fn lemma_reset_keeps_comparison(v: HitCounterView)
    ensures
        spec_reset(v).comparison_hits == v.comparison_hits,
        spec_reset(v).hits == 0,
        hits_are_segment_sum(spec_reset(v)),
        spec_reset(v).effects[v.effects.len() as int] == HitEffectView::StoreComparison(v.comparison_hits),
{
}

/// The stored comparison: the leading whole numbers of the list.
pub open spec fn spec_i64_prefix(l: Seq<SValue>) -> Seq<i64>
    decreases l.len(),
{
    if l.len() == 0 {
        Seq::empty()
    } else {
        match l[0] {
            SValue::I64(i) => seq![i as i64] + spec_i64_prefix(l.drop_first()),
            _ => Seq::empty(),
        }
    }
}

/// The comparison stored in the settings under `comparison_hits`: the
/// leading whole numbers of the list stored there, if a list is.
pub open spec fn spec_load_comparison(m: Seq<(Seq<char>, SValue)>) -> Option<Seq<i64>> {
    match spec_dict_get(m, "comparison_hits"@) {
        Some(SValue::List(l)) => Some(spec_i64_prefix(l)),
        _ => None,
    }
}

/// The comparison stored in the settings `m`, if a list is stored.
pub fn load_comparison_hits(m: &Vec<(String, SettingsValue)>) -> (r: Option<Vec<i64>>)
    ensures
        match r {
            Some(v) => spec_load_comparison(svd(m@)) == Some(v@),
            None => spec_load_comparison(svd(m@)) is None,
        },
{
    let l = match dict_get(m, "comparison_hits") {
        Some(SettingsValue::List(l)) => l,
        _ => return None,
    };
    proof {
        lemma_svs_len_pub(l@);
    }
    let mut r: Vec<i64> = Vec::new();
    let mut i: usize = 0;
    proof {
        assert(spec_load_comparison(svd(m@)) == Some(spec_i64_prefix(svs(l@))));
        assert(svs(l@).skip(0) =~= svs(l@));
        assert(r@ + spec_i64_prefix(svs(l@)) =~= spec_i64_prefix(svs(l@)));
    }
    while i < l.len()
        invariant
            i <= l@.len(),
            svs(l@).len() == l@.len(),
            forall|j: int| 0 <= j < l@.len() ==> #[trigger] svs(l@)[j] == sv(l@[j]),
            spec_i64_prefix(svs(l@)) == r@ + spec_i64_prefix(svs(l@).skip(i as int)),
            spec_load_comparison(svd(m@)) == Some(spec_i64_prefix(svs(l@))),
        decreases l@.len() - i,
    {
        let ghost rest = svs(l@).skip(i as int);
        proof {
            assert(rest[0] == svs(l@)[i as int]);
            assert(rest.drop_first() =~= svs(l@).skip(i + 1));
        }
        match &l[i] {
            SettingsValue::I64(x) => {
                r.push(*x);
                proof {
                    assert(spec_i64_prefix(rest) == seq![*x] + spec_i64_prefix(rest.drop_first()));
                    assert(r@ + spec_i64_prefix(svs(l@).skip(i + 1)) =~= (r@.drop_last() + seq![*x])
                        + spec_i64_prefix(svs(l@).skip(i + 1)));
                }
            },
            _ => {
                proof {
                    assert(!(sv(l@[i as int]) is I64));
                    assert(spec_i64_prefix(rest) =~= Seq::<i64>::empty());
                    assert(r@ + spec_i64_prefix(rest) =~= r@);
                    assert(spec_i64_prefix(svs(l@)) =~= r@);
                }
                return Some(r);
            },
        }
        i = i + 1;
    }
    proof {
        assert(svs(l@).skip(i as int) =~= Seq::<SValue>::empty());
        assert(spec_i64_prefix(svs(l@)) =~= r@);
    }
    Some(r)
}

/// The comparison as a list of settings values.
pub open spec fn spec_comparison_list(c: Seq<i64>) -> Seq<SValue> {
    Seq::new(c.len(), |i: int| SValue::I64(c[i] as int))
}

/// Stores the comparison `c` in the settings `m` under `comparison_hits`.
pub fn store_comparison_hits(m: &mut Vec<(String, SettingsValue)>, c: &[i64])
    ensures
        svd(final(m)@) == spec_dict_insert(
            svd(old(m)@),
            "comparison_hits"@,
            SValue::List(spec_comparison_list(c@)),
        ),
{
    let mut l: Vec<SettingsValue> = Vec::new();
    let mut i: usize = 0;
    while i < c.len()
        invariant
            i <= c@.len(),
            svs(l@) =~= spec_comparison_list(c@).take(i as int),
        decreases c@.len() - i,
    {
        let ghost l0 = l@;
        l.push(SettingsValue::I64(c[i]));
        proof {
            assert(l@.drop_last() =~= l0);
            assert(sv(l@.last()) == SValue::I64(c@[i as int] as int));
            assert(svs(l@) == svs(l0).push(SValue::I64(c@[i as int] as int)));
            assert(spec_comparison_list(c@).take(i + 1).drop_last() =~= spec_comparison_list(
                c@,
            ).take(i as int));
        }
        i = i + 1;
    }
    proof {
        assert(spec_comparison_list(c@).take(c@.len() as int) =~= spec_comparison_list(c@));
    }
    dict_insert(m, String::from_str("comparison_hits"), SettingsValue::List(l));
}

proof fn lemma_prefix_of_list(c: Seq<i64>)
    ensures
        spec_i64_prefix(spec_comparison_list(c)) == c,
    decreases c.len(),
{
    if c.len() > 0 {
        lemma_prefix_of_list(c.drop_first());
        assert(spec_comparison_list(c).drop_first() =~= spec_comparison_list(c.drop_first()));
        assert(seq![c[0]] + c.drop_first() =~= c);
    } else {
        assert(spec_comparison_list(c) =~= Seq::<SValue>::empty());
    }
}

/// The comparison read back from the settings is the one stored last.
pub proof fn lemma_comparison_round_trip(m: Seq<(Seq<char>, SValue)>, c: Seq<i64>)
    ensures
        spec_load_comparison(
            spec_dict_insert(m, "comparison_hits"@, SValue::List(spec_comparison_list(c))),
        ) == Some(c),
{
    lemma_dict_get_insert(m, "comparison_hits"@, SValue::List(spec_comparison_list(c)));
    lemma_prefix_of_list(c);
}

/// Keeping pace at index `i` (from 1 on): the comparison grows to at least `i`
/// entries, new entries holding the current hits; the finished segment's
/// entry `i - 1` becomes the smaller of its old value and the current hits,
/// or the current hits when it is new; every other old entry stays.
pub proof fn lemma_pace_entries(c: Seq<i64>, i: int, hits: i64)
    requires
        1 <= i,
    ensures
        spec_pace(c, i, hits).len() == if c.len() >= i {
            c.len() as int
        } else {
            i
        },
        spec_pace(c, i, hits)[i - 1] == if i - 1 < c.len() {
            if hits < c[i - 1] {
                hits
            } else {
                c[i - 1]
            }
        } else {
            hits
        },
        forall|k: int| 0 <= k < c.len() && k != i - 1 ==> spec_pace(c, i, hits)[k] == c[k],
        forall|k: int| c.len() <= k < i ==> spec_pace(c, i, hits)[k] == hits,
{
}

/// Moving the timer to a new split `i` (from 1 on) records the finished
/// segment in the comparison of the next ticks: the comparison in use (the
/// stored one when no attempt was in progress) gets at entry `i - 1` the
/// smaller of that entry and the hits so far, or the hits so far when it had
/// no such entry.
pub proof fn lemma_update_records_finished_segment(
    v: HitCounterView,
    i: nat,
    n: nat,
    stored: Seq<i64>,
    running: bool,
    o: HitObservation,
)
    requires
        1 <= i,
        i != v.i,
    ensures
        ({
            let c = if v.i == 0 {
                stored
            } else {
                v.comparison_hits
            };
            let w = spec_update_variables(v, i, n, stored, running, o);
            &&& w.comparison_hits.len() >= i
            &&& w.comparison_hits[i - 1] == if i - 1 < c.len() {
                if v.hits < c[i - 1] {
                    v.hits
                } else {
                    c[i - 1]
                }
            } else {
                v.hits
            }
        }),
{
    let c = if v.i == 0 {
        stored
    } else {
        v.comparison_hits
    };
    lemma_pace_entries(c, i as int, v.hits);
}

} // verus!
