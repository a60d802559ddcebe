//! The settings of the auto splitter: the timing method, the hit counter and
//! the list of splits, and how changes to them are noticed.

use vstd::prelude::*;

use crate::radio_button::{
    find_name_from,
    find_value_from,
    spec_options_str,
    spec_options_value,
    RadioButtonOption,
    RadioButtonOptions,
};
use crate::list_settings::{spec_list_key, spec_map_list, spec_update_list_settings};
use crate::settings_value::{svd, SValue, SettingsValue};
use crate::splits::Split;
use crate::store::{
    choice_read,
    insert_choice_into,
    is_choice_read,
    lemma_insert_str_reads_back,
    spec_insert_str,
};
use crate::ugly_list::UglyList;

verus! {

/// What the game time of the timer shows.
#[derive(Clone, Copy, Debug, PartialEq, Eq, Structural, PartialOrd, Ord, Hash)]
pub enum TimingMethod {
    /// Load Removed Time
    LoadRemovedTime,
    /// Hits / dream falls
    HitsDreamFalls,
    /// Hits / damage
    HitsDamage,
}

impl Default for TimingMethod {
    fn default() -> (r: Self)
        ensures
            r == TimingMethod::LoadRemovedTime,
    {
        TimingMethod::LoadRemovedTime
    }
}

/// The options of the timing method, in order.
pub open spec fn timing_method_options() -> Seq<RadioButtonOption<'static, TimingMethod>> {
    seq![
        RadioButtonOption { value: TimingMethod::LoadRemovedTime, key: "LoadRemovedTime", alias: None, description: "Load Removed Time", tooltip: None },
        RadioButtonOption { value: TimingMethod::HitsDreamFalls, key: "HitsDreamFalls", alias: None, description: "Hits / dream falls", tooltip: None },
        RadioButtonOption { value: TimingMethod::HitsDamage, key: "HitsDamage", alias: None, description: "Hits / damage", tooltip: None },
    ]
}

impl RadioButtonOptions for TimingMethod {
    open spec fn spec_radio_button_options() -> Seq<RadioButtonOption<'static, TimingMethod>> {
        timing_method_options()
    }

    fn radio_button_options() -> (r: Vec<RadioButtonOption<'static, TimingMethod>>) {
        let r = vec![
            RadioButtonOption { value: TimingMethod::LoadRemovedTime, key: "LoadRemovedTime", alias: None, description: "Load Removed Time", tooltip: None },
            RadioButtonOption { value: TimingMethod::HitsDreamFalls, key: "HitsDreamFalls", alias: None, description: "Hits / dream falls", tooltip: None },
            RadioButtonOption { value: TimingMethod::HitsDamage, key: "HitsDamage", alias: None, description: "Hits / damage", tooltip: None },
        ];
        assert(r@ =~= timing_method_options());
        r
    }

    fn same_option(&self, other: &Self) -> (r: bool) {
        *self == *other
    }
}

/// Which hits a hit counter beside the load remover counts.
#[derive(Clone, Copy, Debug, PartialEq, Eq, Structural, PartialOrd, Ord, Hash)]
pub enum HitsMethod {
    /// None
    NoHits,
    /// Hits / dream falls
    HitsDreamFalls,
    /// Hits / damage
    HitsDamage,
}

impl Default for HitsMethod {
    fn default() -> (r: Self)
        ensures
            r == HitsMethod::NoHits,
    {
        HitsMethod::NoHits
    }
}

/// The options of the hit counter, in order.
pub open spec fn hits_method_options() -> Seq<RadioButtonOption<'static, HitsMethod>> {
    seq![
        RadioButtonOption { value: HitsMethod::NoHits, key: "None", alias: None, description: "None", tooltip: None },
        RadioButtonOption { value: HitsMethod::HitsDreamFalls, key: "HitsDreamFalls", alias: None, description: "Hits / dream falls", tooltip: None },
        RadioButtonOption { value: HitsMethod::HitsDamage, key: "HitsDamage", alias: None, description: "Hits / damage", tooltip: None },
    ]
}

impl RadioButtonOptions for HitsMethod {
    open spec fn spec_radio_button_options() -> Seq<RadioButtonOption<'static, HitsMethod>> {
        hits_method_options()
    }

    fn radio_button_options() -> (r: Vec<RadioButtonOption<'static, HitsMethod>>) {
        let r = vec![
            RadioButtonOption { value: HitsMethod::NoHits, key: "None", alias: None, description: "None", tooltip: None },
            RadioButtonOption { value: HitsMethod::HitsDreamFalls, key: "HitsDreamFalls", alias: None, description: "Hits / dream falls", tooltip: None },
            RadioButtonOption { value: HitsMethod::HitsDamage, key: "HitsDamage", alias: None, description: "Hits / damage", tooltip: None },
        ];
        assert(r@ =~= hits_method_options());
        r
    }

    fn same_option(&self, other: &Self) -> (r: bool) {
        *self == *other
    }
}

/// Whether two lists of splits are the same, split by split.
pub fn same_splits(a: &[Split], b: &[Split]) -> (r: bool)
    ensures
        r == (a@ == b@),
{
    if a.len() != b.len() {
        return false;
    }
    let mut i: usize = 0;
    while i < a.len()
        invariant
            a@.len() == b@.len(),
            i <= a@.len(),
            forall|j: int| 0 <= j < i ==> a@[j] == b@[j],
        decreases a@.len() - i,
    {
        if a[i] != b[i] {
            return false;
        }
        i = i + 1;
    }
    assert(a@ =~= b@);
    true
}

/// The settings as the GUI holds them.
pub struct SettingsGui {
    pub timing_method: TimingMethod,
    pub hit_counter: HitsMethod,
    pub splits: UglyList<Split>,
}

impl SettingsGui {
    /// The settings before any have been read: the defaults, and no splits.
    pub fn new() -> (g: SettingsGui)
        ensures
            g.timing_method == TimingMethod::LoadRemovedTime,
            g.hit_counter == HitsMethod::NoHits,
            g.splits.wf(),
            g.splits.items().len() == 0,
    {
        SettingsGui {
            timing_method: TimingMethod::LoadRemovedTime,
            hit_counter: HitsMethod::NoHits,
            splits: UglyList::new(),
        }
    }

    /// Reads the settings from the map: the timing method, the hit counter,
    /// and the list of splits, whose edit is applied to the map (see
    /// `UglyList::update_from`).
    pub fn update_from(&mut self, m: &mut Vec<(String, SettingsValue)>)
        requires
            old(self).splits.wf(),
            spec_map_list(svd(old(m)@), "splits"@).len() <= i64::MAX,
        ensures
            final(self).splits.wf(),
            is_choice_read(svd(old(m)@), "timing_method"@, final(self).timing_method),
            is_choice_read(svd(old(m)@), "hit_counter"@, final(self).hit_counter),
            svd(final(m)@) == spec_update_list_settings(svd(old(m)@), "splits"@).0,
            final(self).splits.items().len() == spec_update_list_settings(
                svd(old(m)@),
                "splits"@,
            ).1,
            forall|i: int|
                0 <= i < final(self).splits.items().len() ==> is_choice_read(
                    svd(final(m)@),
                    spec_list_key("splits"@, i, "_item"@),
                    #[trigger] final(self).splits.items()[i],
                ),
    {
        self.timing_method = choice_read(m, "timing_method");
        self.hit_counter = choice_read(m, "hit_counter");
        self.splits.update_from(m, "splits");
    }

    /// Stores the timing method and the hit counter where they differ from
    /// the map; returns whether the map changed.
    pub fn insert_into(&self, m: &mut Vec<(String, SettingsValue)>) -> (r: bool)
        ensures
            ({
                let (m1, a) = spec_insert_str(
                    svd(old(m)@),
                    "timing_method"@,
                    spec_options_str(self.timing_method),
                );
                let (m2, b) = spec_insert_str(m1, "hit_counter"@, spec_options_str(self.hit_counter));
                svd(final(m)@) == m2 && r == (a || b)
            }),
    {
        let a = insert_choice_into(&self.timing_method, m, "timing_method");
        let b = insert_choice_into(&self.hit_counter, m, "hit_counter");
        a || b
    }

    /// The timing method chosen.
    pub fn get_timing_method(&self) -> (r: TimingMethod)
        ensures
            r == self.timing_method,
    {
        self.timing_method
    }

    /// The hit counter chosen.
    pub fn get_hit_counter(&self) -> (r: HitsMethod)
        ensures
            r == self.hit_counter,
    {
        self.hit_counter
    }

    /// The splits of the list, in order.
    pub fn get_splits(&self) -> (r: Vec<Split>)
        requires
            self.splits.wf(),
        ensures
            r@ == self.splits.items(),
    {
        let l = self.splits.get_list();
        let mut r: Vec<Split> = Vec::new();
        let mut i: usize = 0;
        while i < l.len()
            invariant
                l@.len() == self.splits.items().len(),
                forall|k: int| 0 <= k < l@.len() ==> *l@[k] == self.splits.items()[k],
                i <= l@.len(),
                r@.len() == i,
                forall|k: int| 0 <= k < i ==> r@[k] == self.splits.items()[k],
            decreases l@.len() - i,
        {
            r.push(*l[i]);
            i = i + 1;
        }
        assert(r@ =~= self.splits.items());
        r
    }

    /// Notices a change of the timing method: when the one chosen differs from
    /// `timing_method`, that becomes it and is returned.
    pub fn check_timing_method(&self, timing_method: &mut TimingMethod) -> (r: Option<
        TimingMethod,
    >)
        ensures
            *final(timing_method) == self.timing_method,
            r == if self.timing_method != *old(timing_method) {
                Some(self.timing_method)
            } else {
                None
            },
    {
        let new_timing_method = self.get_timing_method();
        if new_timing_method != *timing_method {
            *timing_method = new_timing_method;
            Some(new_timing_method)
        } else {
            None
        }
    }

    /// Notices a change of the hit counter: when the one chosen differs from
    /// `hit_counter`, that becomes it and is returned.
    pub fn check_hit_counter(&self, hit_counter: &mut HitsMethod) -> (r: Option<HitsMethod>)
        ensures
            *final(hit_counter) == self.hit_counter,
            r == if self.hit_counter != *old(hit_counter) {
                Some(self.hit_counter)
            } else {
                None
            },
    {
        let new_hit_counter = self.get_hit_counter();
        if new_hit_counter != *hit_counter {
            *hit_counter = new_hit_counter;
            Some(new_hit_counter)
        } else {
            None
        }
    }

    /// Notices a change of the splits: when the list differs from `splits`,
    /// that becomes it and the new list is returned.
    pub fn check_splits(&self, splits: &mut Vec<Split>) -> (r: Option<Vec<Split>>)
        requires
            self.splits.wf(),
        ensures
            final(splits)@ == self.splits.items(),
            match r {
                Some(v) => v@ == self.splits.items() && self.splits.items() != old(splits)@,
                None => self.splits.items() == old(splits)@,
            },
    {
        let new_splits = self.get_splits();
        if !same_splits(new_splits.as_slice(), splits.as_slice()) {
            *splits = new_splits.clone();
            proof {
                assert(new_splits@ =~= splits@);
            }
            Some(new_splits)
        } else {
            None
        }
    }
}

/// A timing method stored by its key reads back as itself.
pub proof fn lemma_timing_method_reads_back(m: Seq<(Seq<char>, SValue)>, key: Seq<char>, v: TimingMethod)
    ensures
        is_choice_read(spec_insert_str(m, key, spec_options_str(v)).0, key, v),
{
    reveal_strlit("LoadRemovedTime");
    reveal_strlit("HitsDreamFalls");
    reveal_strlit("HitsDamage");
    reveal_with_fuel(find_value_from, 4);
    reveal_with_fuel(find_name_from, 4);
    lemma_insert_str_reads_back(m, key, spec_options_str(v));
    let o = timing_method_options();
    assert(o[0].key@ == "LoadRemovedTime"@ && "LoadRemovedTime"@.len() == 15);
    assert(o[1].key@ == "HitsDreamFalls"@ && "HitsDreamFalls"@.len() == 14);
    assert(o[2].key@ == "HitsDamage"@ && "HitsDamage"@.len() == 10);
    assert(o[0].key@ != o[1].key@);
    assert(o[0].key@ != o[2].key@);
    assert(o[1].key@ != o[2].key@);
    match v {
        TimingMethod::LoadRemovedTime => {
            assert(find_value_from(o, v, 0) == Some(0int));
            assert(find_name_from(o, o[0].key@, 0) == Some(0int));
        },
        TimingMethod::HitsDreamFalls => {
            assert(find_value_from(o, v, 0) == Some(1int));
            assert(find_name_from(o, o[1].key@, 0) == Some(1int));
        },
        TimingMethod::HitsDamage => {
            assert(find_value_from(o, v, 0) == Some(2int));
            assert(find_name_from(o, o[2].key@, 0) == Some(2int));
        },
    }
}

/// A hit counter choice stored by its key reads back as itself.
pub proof fn lemma_hits_method_reads_back(m: Seq<(Seq<char>, SValue)>, key: Seq<char>, v: HitsMethod)
    ensures
        is_choice_read(spec_insert_str(m, key, spec_options_str(v)).0, key, v),
{
    reveal_strlit("None");
    reveal_strlit("HitsDreamFalls");
    reveal_strlit("HitsDamage");
    reveal_with_fuel(find_value_from, 4);
    reveal_with_fuel(find_name_from, 4);
    lemma_insert_str_reads_back(m, key, spec_options_str(v));
    let o = hits_method_options();
    assert(o[0].key@ == "None"@ && "None"@.len() == 4);
    assert(o[1].key@ == "HitsDreamFalls"@ && "HitsDreamFalls"@.len() == 14);
    assert(o[2].key@ == "HitsDamage"@ && "HitsDamage"@.len() == 10);
    assert(o[0].key@ != o[1].key@);
    assert(o[0].key@ != o[2].key@);
    assert(o[1].key@ != o[2].key@);
    match v {
        HitsMethod::NoHits => {
            assert(find_value_from(o, v, 0) == Some(0int));
            assert(find_name_from(o, o[0].key@, 0) == Some(0int));
        },
        HitsMethod::HitsDreamFalls => {
            assert(find_value_from(o, v, 0) == Some(1int));
            assert(find_name_from(o, o[1].key@, 0) == Some(1int));
        },
        HitsMethod::HitsDamage => {
            assert(find_value_from(o, v, 0) == Some(2int));
            assert(find_name_from(o, o[2].key@, 0) == Some(2int));
        },
    }
}

} // verus!
