//! Remembered player data: values read from the game are kept, so that a
//! split can still be judged while the game is in a menu, and so that a
//! change between two readings can be seen.

use vstd::prelude::*;

use crate::keyed::KeyedStore;
use crate::readings::{GameReadings, spec_in_save, spec_sly_shop_finished, spec_grub_waterways_isma};
use crate::text::spec_ends_with;

verus! {

/// What a map holds under `k`, if anything.
pub open spec fn lookup<V>(m: Map<Seq<char>, V>, k: Seq<char>) -> Option<V> {
    if m.dom().contains(k) {
        Some(m[k])
    } else {
        None
    }
}

/// The abstract state of a [`PlayerDataStore`].
pub struct PlayerDataView {
    pub ints: Map<Seq<char>, i32>,
    pub bools: Map<Seq<char>, bool>,
}

/// Reading a flag: while in a save file a fresh reading is kept and returned,
/// otherwise the remembered value is returned.
pub open spec fn spec_get_bool(v: PlayerDataView, key: Seq<char>, non_menu: bool, read: Option<
    bool,
>) -> (PlayerDataView, Option<bool>) {
    match read {
        Some(b) if non_menu => (PlayerDataView { bools: v.bools.insert(key, b), ..v }, Some(b)),
        _ => (v, lookup(v.bools, key)),
    }
}

/// Reading a number, in the same way as [`spec_get_bool`].
pub open spec fn spec_get_i32(v: PlayerDataView, key: Seq<char>, non_menu: bool, read: Option<
    i32,
>) -> (PlayerDataView, Option<i32>) {
    match read {
        Some(i) if non_menu => (PlayerDataView { ints: v.ints.insert(key, i), ..v }, Some(i)),
        _ => (v, lookup(v.ints, key)),
    }
}

/// A flag that changed since the remembered value: the new value, or `None`
/// when either value is missing or they agree. A reading of `true`, or any
/// reading in a save file, is remembered.
pub open spec fn spec_changed_bool(
    v: PlayerDataView,
    key: Seq<char>,
    non_menu: bool,
    read: Option<bool>,
) -> (PlayerDataView, Option<bool>) {
    let stored = lookup(v.bools, key);
    let w = match read {
        Some(b) if b || non_menu => PlayerDataView { bools: v.bools.insert(key, b), ..v },
        _ => v,
    };
    let r = match (read, stored) {
        (Some(a), Some(b)) => if a == b { None } else { Some(a) },
        _ => None,
    };
    (w, r)
}

/// The change of a number since the remembered value. A non-zero reading,
/// or any reading in a save file, is remembered.
pub open spec fn spec_changed_i32_delta(
    v: PlayerDataView,
    key: Seq<char>,
    non_menu: bool,
    read: Option<i32>,
) -> (PlayerDataView, Option<int>) {
    let stored = lookup(v.ints, key);
    let w = match read {
        Some(i) if i != 0 || non_menu => PlayerDataView { ints: v.ints.insert(key, i), ..v },
        _ => v,
    };
    let r = match (read, stored) {
        (Some(a), Some(b)) => Some(a - b),
        _ => None,
    };
    (w, r)
}

/// The kill count remembered on entering a room: outside of continuous play
/// it is forgotten; otherwise the first reading is remembered.
pub open spec fn spec_kills_on_entry(
    v: PlayerDataView,
    key: Seq<char>,
    non_continuous: bool,
    read: Option<i32>,
) -> (PlayerDataView, Option<i32>) {
    if non_continuous {
        (PlayerDataView { ints: v.ints.remove(key), ..v }, None)
    } else {
        match lookup(v.ints, key) {
            Some(k) => (v, Some(k)),
            None => match read {
                Some(k) => (PlayerDataView { ints: v.ints.insert(key, k), ..v }, Some(k)),
                None => (v, None),
            },
        }
    }
}

/// Whether `d` of an enemy have been killed since entering: `Some(true)` when
/// the journal count fell by at least `d`, `Some(false)` when it reached zero
/// without that, `None` when neither happened yet.
pub open spec fn spec_kills_decreased_by(
    v: PlayerDataView,
    key: Seq<char>,
    non_continuous: bool,
    read: Option<i32>,
    d: i32,
) -> (PlayerDataView, Option<bool>) {
    let (w, e) = spec_kills_on_entry(v, key, non_continuous, read);
    let r = match e {
        None => None,
        Some(on_entry) => match read {
            None => None,
            Some(now) => if now + d <= on_entry {
                Some(true)
            } else if now == 0 {
                Some(false)
            } else {
                None
            },
        },
    };
    (w, r)
}

/// Whether a boss has been dead for a whole tick: the first tick it is seen
/// dead is remembered, the next one answers `true`.
pub open spec fn spec_been_dead_for_a_tick(
    v: PlayerDataView,
    key: Seq<char>,
    non_continuous: bool,
    read: Option<bool>,
) -> (PlayerDataView, bool) {
    if non_continuous {
        (PlayerDataView { bools: v.bools.remove(key), ..v }, false)
    } else if lookup(v.bools, key) == Some(true) {
        (v, true)
    } else {
        match read {
            Some(b) => (PlayerDataView { bools: v.bools.insert(key, b), ..v }, false),
            None => (v, false),
        }
    }
}

/// A healing focus that gained health, or that kept full health while using at
/// least 33 soul, with the four charms of the Pure Snail build equipped.
pub open spec fn spec_pure_snail(
    v: PlayerDataView,
    focusing: Option<bool>,
    charms: (Option<bool>, Option<bool>, Option<bool>, Option<bool>),
    health: Option<i32>,
    max_health: Option<i32>,
    mpcharge: Option<i32>,
) -> (PlayerDataView, bool) {
    match focusing {
        None => (v, false),
        Some(false) => {
            let v1 = match health {
                Some(h) => PlayerDataView {
                    ints: v.ints.insert("health_before_focus"@, h),
                    ..v
                },
                None => v,
            };
            let v2 = match mpcharge {
                Some(m) => PlayerDataView {
                    ints: v1.ints.insert("mpcharge_before_focus"@, m),
                    ..v1
                },
                None => v1,
            };
            (v2, false)
        },
        Some(true) => {
            let r = charms.0 == Some(true) && charms.1 == Some(true) && charms.2 == Some(true)
                && charms.3 == Some(true) && match (
                lookup(v.ints, "health_before_focus"@),
                health,
            ) {
                (Some(before), Some(h)) => before < h || (match max_health {
                    Some(mh) => h == mh && match (
                        lookup(v.ints, "mpcharge_before_focus"@),
                        mpcharge,
                    ) {
                        (Some(mbefore), Some(m)) => m + 33 <= mbefore,
                        _ => false,
                    },
                    None => false,
                }),
                _ => false,
            };
            (v, r)
        },
    }
}

/// A remembered flag read through [`spec_get_bool`], `false` when there is none.
pub open spec fn spec_flag(v: PlayerDataView, key: Seq<char>, in_save: bool, read: Option<bool>) -> (
    PlayerDataView,
    bool,
) {
    let (w, o) = spec_get_bool(v, key, in_save, read);
    (
        w,
        match o {
            Some(b) => b,
            None => false,
        },
    )
}

/// A remembered number read through [`spec_get_i32`], 0 when there is none.
pub open spec fn spec_count(v: PlayerDataView, key: Seq<char>, in_save: bool, read: Option<i32>) -> (
    PlayerDataView,
    i32,
) {
    let (w, o) = spec_get_i32(v, key, in_save, read);
    (
        w,
        match o {
            Some(n) => n,
            None => 0,
        },
    )
}

/// Player data remembered between ticks, by name.
pub struct PlayerDataStore {
    map_i32: KeyedStore<i32>,
    map_bool: KeyedStore<bool>,
}

impl View for PlayerDataStore {
    type V = PlayerDataView;

    closed spec fn view(&self) -> PlayerDataView {
        PlayerDataView { ints: self.map_i32@, bools: self.map_bool@ }
    }
}

impl PlayerDataStore {
    pub closed spec fn wf(&self) -> bool {
        self.map_i32.wf() && self.map_bool.wf()
    }

    pub fn new() -> (r: PlayerDataStore)
        ensures
            r.wf(),
            r@ == (PlayerDataView { ints: Map::empty(), bools: Map::empty() }),
    {
        PlayerDataStore { map_i32: KeyedStore::new(), map_bool: KeyedStore::new() }
    }

    /// Forgets everything, as when returning to the main menu.
    pub fn reset(&mut self)
        ensures
            final(self).wf(),
            final(self)@ == (PlayerDataView { ints: Map::empty(), bools: Map::empty() }),
    {
        self.map_i32.clear();
        self.map_bool.clear();
    }

    /// Forgets the values remembered on entering a room (names ending in
    /// `_on_entry`), as when entering another save file.
    pub fn clean_on_entry(&mut self)
        requires
            old(self).wf(),
        ensures
            final(self).wf(),
            final(self)@ == (PlayerDataView {
                ints: old(self)@.ints.restrict(
                    old(self)@.ints.dom().filter(|k: Seq<char>| !spec_ends_with(k, "_on_entry"@)),
                ),
                bools: old(self)@.bools.restrict(
                    old(self)@.bools.dom().filter(|k: Seq<char>| !spec_ends_with(k, "_on_entry"@)),
                ),
            }),
    {
        self.map_i32.retain_not_ending_with("_on_entry");
        self.map_bool.retain_not_ending_with("_on_entry");
    }

    /// The number remembered under `key`, if any.
    pub fn remembered_i32(&self, key: &'static str) -> (r: Option<i32>)
        requires
            self.wf(),
        ensures
            r == lookup(self@.ints, key@),
    {
        self.map_i32.get(key)
    }

    /// A flag, fresh when in a save file and readable, remembered otherwise.
    pub fn get_bool(&mut self, key: &'static str, non_menu: bool, read: Option<bool>) -> (r: Option<
        bool,
    >)
        requires
            old(self).wf(),
        ensures
            final(self).wf(),
            (final(self)@, r) == spec_get_bool(old(self)@, key@, non_menu, read),
    {
        if non_menu {
            if let Some(b) = read {
                self.map_bool.insert(key, b);
                return Some(b);
            }
        }
        self.map_bool.get(key)
    }

    /// A number, fresh when in a save file and readable, remembered otherwise.
    pub fn get_i32(&mut self, key: &'static str, non_menu: bool, read: Option<i32>) -> (r: Option<
        i32,
    >)
        requires
            old(self).wf(),
        ensures
            final(self).wf(),
            (final(self)@, r) == spec_get_i32(old(self)@, key@, non_menu, read),
    {
        if non_menu {
            if let Some(i) = read {
                self.map_i32.insert(key, i);
                return Some(i);
            }
        }
        self.map_i32.get(key)
    }

    /// The new value of a flag when it differs from the remembered one.
    pub fn changed_bool(&mut self, key: &'static str, non_menu: bool, read: Option<bool>) -> (r:
        Option<bool>)
        requires
            old(self).wf(),
        ensures
            final(self).wf(),
            (final(self)@, r) == spec_changed_bool(old(self)@, key@, non_menu, read),
    {
        let stored = self.map_bool.get(key);
        match read {
            Some(b) => {
                if b || non_menu {
                    self.map_bool.insert(key, b);
                }
            },
            None => {},
        }
        match (read, stored) {
            (Some(a), Some(b)) => if a == b {
                None
            } else {
                Some(a)
            },
            _ => None,
        }
    }

    /// How much a number changed since the remembered value.
    pub fn changed_i32_delta(&mut self, key: &'static str, non_menu: bool, read: Option<i32>) -> (r:
        Option<i64>)
        requires
            old(self).wf(),
        ensures
            final(self).wf(),
            final(self)@ == spec_changed_i32_delta(old(self)@, key@, non_menu, read).0,
            match r {
                Some(d) => spec_changed_i32_delta(old(self)@, key@, non_menu, read).1 == Some(
                    d as int,
                ),
                None => spec_changed_i32_delta(old(self)@, key@, non_menu, read).1 is None,
            },
    {
        let stored = self.map_i32.get(key);
        match read {
            Some(i) => {
                if i != 0 || non_menu {
                    self.map_i32.insert(key, i);
                }
            },
            None => {},
        }
        match (read, stored) {
            (Some(a), Some(b)) => Some(a as i64 - b as i64),
            _ => None,
        }
    }

    /// The number went up by exactly one.
    pub fn incremented_i32(&mut self, key: &'static str, non_menu: bool, read: Option<i32>) -> (r:
        bool)
        requires
            old(self).wf(),
        ensures
            final(self).wf(),
            final(self)@ == spec_changed_i32_delta(old(self)@, key@, non_menu, read).0,
            r == (spec_changed_i32_delta(old(self)@, key@, non_menu, read).1 == Some(1int)),
    {
        match self.changed_i32_delta(key, non_menu, read) {
            Some(d) => d == 1,
            None => false,
        }
    }

    /// The number went up.
    pub fn increased_i32(&mut self, key: &'static str, non_menu: bool, read: Option<i32>) -> (r:
        bool)
        requires
            old(self).wf(),
        ensures
            final(self).wf(),
            final(self)@ == spec_changed_i32_delta(old(self)@, key@, non_menu, read).0,
            r == (match spec_changed_i32_delta(old(self)@, key@, non_menu, read).1 {
                Some(d) => 0 < d,
                None => false,
            }),
    {
        match self.changed_i32_delta(key, non_menu, read) {
            Some(d) => 0 < d,
            None => false,
        }
    }

    /// The number went down by exactly one.
    pub fn decremented_i32(&mut self, key: &'static str, non_menu: bool, read: Option<i32>) -> (r:
        bool)
        requires
            old(self).wf(),
        ensures
            final(self).wf(),
            final(self)@ == spec_changed_i32_delta(old(self)@, key@, non_menu, read).0,
            r == (spec_changed_i32_delta(old(self)@, key@, non_menu, read).1 == Some(-1int)),
    {
        match self.changed_i32_delta(key, non_menu, read) {
            Some(d) => d == -1,
            None => false,
        }
    }

    /// The kill count remembered on entering the current room.
    pub fn kills_on_entry(&mut self, key: &'static str, non_continuous: bool, read: Option<i32>) -> (r:
        Option<i32>)
        requires
            old(self).wf(),
        ensures
            final(self).wf(),
            (final(self)@, r) == spec_kills_on_entry(old(self)@, key@, non_continuous, read),
    {
        if non_continuous {
            self.map_i32.remove(key);
            return None;
        }
        match self.map_i32.get(key) {
            Some(k) => Some(k),
            None => match read {
                Some(k) => {
                    self.map_i32.insert(key, k);
                    Some(k)
                },
                None => None,
            },
        }
    }

    /// Whether `d` of an enemy have been killed since entering the room.
    pub fn kills_decreased_by(
        &mut self,
        key: &'static str,
        non_continuous: bool,
        read: Option<i32>,
        d: i32,
    ) -> (r: Option<bool>)
        requires
            old(self).wf(),
        ensures
            final(self).wf(),
            (final(self)@, r) == spec_kills_decreased_by(
                old(self)@,
                key@,
                non_continuous,
                read,
                d,
            ),
    {
        match self.kills_on_entry(key, non_continuous, read) {
            None => None,
            Some(on_entry) => match read {
                None => None,
                Some(now) => {
                    if now as i64 + d as i64 <= on_entry as i64 {
                        Some(true)
                    } else if now == 0 {
                        Some(false)
                    } else {
                        None
                    }
                },
            },
        }
    }

    /// Whether a boss has been seen dead on an earlier tick.
    pub fn been_dead_for_a_tick(
        &mut self,
        key: &'static str,
        non_continuous: bool,
        read: Option<bool>,
    ) -> (r: bool)
        requires
            old(self).wf(),
        ensures
            final(self).wf(),
            (final(self)@, r) == spec_been_dead_for_a_tick(old(self)@, key@, non_continuous, read),
    {
        if non_continuous {
            self.map_bool.remove(key);
            return false;
        }
        match self.map_bool.get(key) {
            Some(true) => true,
            _ => {
                match read {
                    Some(b) => {
                        self.map_bool.insert(key, b);
                    },
                    None => {},
                }
                false
            },
        }
    }

    /// Whether a focus with the Pure Snail build gained health or kept full
    /// health while spending soul.
    pub fn pure_snail(
        &mut self,
        focusing: Option<bool>,
        charms: (Option<bool>, Option<bool>, Option<bool>, Option<bool>),
        health: Option<i32>,
        max_health: Option<i32>,
        mpcharge: Option<i32>,
    ) -> (r: bool)
        requires
            old(self).wf(),
        ensures
            final(self).wf(),
            (final(self)@, r) == spec_pure_snail(
                old(self)@,
                focusing,
                charms,
                health,
                max_health,
                mpcharge,
            ),
    {
        match focusing {
            None => false,
            Some(false) => {
                if let Some(h) = health {
                    self.map_i32.insert("health_before_focus", h);
                }
                if let Some(m) = mpcharge {
                    self.map_i32.insert("mpcharge_before_focus", m);
                }
                false
            },
            Some(true) => {
                if charms.0 != Some(true) || charms.1 != Some(true) || charms.2 != Some(true)
                    || charms.3 != Some(true) {
                    return false;
                }
                let health_before_focus = match self.map_i32.get("health_before_focus") {
                    Some(h) => h,
                    None => return false,
                };
                let h = match health {
                    Some(h) => h,
                    None => return false,
                };
                if health_before_focus < h {
                    return true;
                }
                let mh = match max_health {
                    Some(mh) => mh,
                    None => return false,
                };
                if h != mh {
                    return false;
                }
                let mpcharge_before_focus = match self.map_i32.get("mpcharge_before_focus") {
                    Some(m) => m,
                    None => return false,
                };
                let m = match mpcharge {
                    Some(m) => m,
                    None => return false,
                };
                m as i64 + 33 <= mpcharge_before_focus as i64
            },
        }
    }

    /// The remembered `cornifer_at_home` flag, `false` when never seen.
    pub fn cornifer_at_home(&mut self, r: &GameReadings) -> (b: bool)
        requires
            old(self).wf(),
        ensures
            final(self).wf(),
            (final(self)@, b) == spec_flag(old(self)@, "cornifer_at_home"@, spec_in_save(r), r.cornifer_at_home),
    {
        let read = r.cornifer_at_home;
        match self.get_bool("cornifer_at_home", r.in_save(), read) {
            Some(b) => b,
            None => false,
        }
    }

    /// The remembered `has_lantern` flag, `false` when never seen.
    pub fn has_lantern(&mut self, r: &GameReadings) -> (b: bool)
        requires
            old(self).wf(),
        ensures
            final(self).wf(),
            (final(self)@, b) == spec_flag(old(self)@, "has_lantern"@, spec_in_save(r), r.has_lantern),
    {
        let read = r.has_lantern;
        match self.get_bool("has_lantern", r.in_save(), read) {
            Some(b) => b,
            None => false,
        }
    }

    /// The remembered `zote_rescued_buzzer` flag, `false` when never seen.
    pub fn zote_rescued_buzzer(&mut self, r: &GameReadings) -> (b: bool)
        requires
            old(self).wf(),
        ensures
            final(self).wf(),
            (final(self)@, b) == spec_flag(old(self)@, "zote_rescued_buzzer"@, spec_in_save(r), r.zote_rescued_buzzer),
    {
        let read = r.zote_rescued_buzzer;
        match self.get_bool("zote_rescued_buzzer", r.in_save(), read) {
            Some(b) => b,
            None => false,
        }
    }

    /// The remembered `has_dash` flag, `false` when never seen.
    pub fn has_dash(&mut self, r: &GameReadings) -> (b: bool)
        requires
            old(self).wf(),
        ensures
            final(self).wf(),
            (final(self)@, b) == spec_flag(old(self)@, "has_dash"@, spec_in_save(r), r.has_dash),
    {
        let read = r.has_dash;
        match self.get_bool("has_dash", r.in_save(), read) {
            Some(b) => b,
            None => false,
        }
    }

    /// The remembered `mega_moss_charger_defeated` flag, `false` when never seen.
    pub fn mega_moss_charger_defeated(&mut self, r: &GameReadings) -> (b: bool)
        requires
            old(self).wf(),
        ensures
            final(self).wf(),
            (final(self)@, b) == spec_flag(old(self)@, "mega_moss_charger_defeated"@, spec_in_save(r), r.mega_moss_charger_defeated),
    {
        let read = r.mega_moss_charger_defeated;
        match self.get_bool("mega_moss_charger_defeated", r.in_save(), read) {
            Some(b) => b,
            None => false,
        }
    }

    /// The remembered `killed_ghost_hu` flag, `false` when never seen.
    pub fn killed_ghost_hu(&mut self, r: &GameReadings) -> (b: bool)
        requires
            old(self).wf(),
        ensures
            final(self).wf(),
            (final(self)@, b) == spec_flag(old(self)@, "killed_ghost_hu"@, spec_in_save(r), r.killed_ghost_hu),
    {
        let read = r.killed_ghost_hu;
        match self.get_bool("killed_ghost_hu", r.in_save(), read) {
            Some(b) => b,
            None => false,
        }
    }

    /// The remembered `got_charm_31` flag, `false` when never seen.
    pub fn got_charm_31(&mut self, r: &GameReadings) -> (b: bool)
        requires
            old(self).wf(),
        ensures
            final(self).wf(),
            (final(self)@, b) == spec_flag(old(self)@, "got_charm_31"@, spec_in_save(r), r.got_charm_31),
    {
        let read = r.got_charm_31;
        match self.get_bool("got_charm_31", r.in_save(), read) {
            Some(b) => b,
            None => false,
        }
    }

    /// The remembered `has_wall_jump` flag, `false` when never seen.
    pub fn has_wall_jump(&mut self, r: &GameReadings) -> (b: bool)
        requires
            old(self).wf(),
        ensures
            final(self).wf(),
            (final(self)@, b) == spec_flag(old(self)@, "has_wall_jump"@, spec_in_save(r), r.has_wall_jump),
    {
        let read = r.has_wall_jump;
        match self.get_bool("has_wall_jump", r.in_save(), read) {
            Some(b) => b,
            None => false,
        }
    }

    /// The remembered `has_dream_nail` flag, `false` when never seen.
    pub fn has_dream_nail(&mut self, r: &GameReadings) -> (b: bool)
        requires
            old(self).wf(),
        ensures
            final(self).wf(),
            (final(self)@, b) == spec_flag(old(self)@, "has_dream_nail"@, spec_in_save(r), r.has_dream_nail),
    {
        let read = r.has_dream_nail;
        match self.get_bool("has_dream_nail", r.in_save(), read) {
            Some(b) => b,
            None => false,
        }
    }

    /// The remembered `has_dream_gate` flag, `false` when never seen.
    pub fn has_dream_gate(&mut self, r: &GameReadings) -> (b: bool)
        requires
            old(self).wf(),
        ensures
            final(self).wf(),
            (final(self)@, b) == spec_flag(old(self)@, "has_dream_gate"@, spec_in_save(r), r.has_dream_gate),
    {
        let read = r.has_dream_gate;
        match self.get_bool("has_dream_gate", r.in_save(), read) {
            Some(b) => b,
            None => false,
        }
    }

    /// The remembered `killed_gorgeous_husk` flag, `false` when never seen.
    pub fn killed_gorgeous_husk(&mut self, r: &GameReadings) -> (b: bool)
        requires
            old(self).wf(),
        ensures
            final(self).wf(),
            (final(self)@, b) == spec_flag(old(self)@, "killed_gorgeous_husk"@, spec_in_save(r), r.killed_gorgeous_husk),
    {
        let read = r.killed_gorgeous_husk;
        match self.get_bool("killed_gorgeous_husk", r.in_save(), read) {
            Some(b) => b,
            None => false,
        }
    }

    /// The remembered `killed_black_knight` flag, `false` when never seen.
    pub fn killed_black_knight(&mut self, r: &GameReadings) -> (b: bool)
        requires
            old(self).wf(),
        ensures
            final(self).wf(),
            (final(self)@, b) == spec_flag(old(self)@, "killed_black_knight"@, spec_in_save(r), r.killed_black_knight),
    {
        let read = r.killed_black_knight;
        match self.get_bool("killed_black_knight", r.in_save(), read) {
            Some(b) => b,
            None => false,
        }
    }

    /// The remembered `collector_defeated` flag, `false` when never seen.
    pub fn collector_defeated(&mut self, r: &GameReadings) -> (b: bool)
        requires
            old(self).wf(),
        ensures
            final(self).wf(),
            (final(self)@, b) == spec_flag(old(self)@, "collector_defeated"@, spec_in_save(r), r.collector_defeated),
    {
        let read = r.collector_defeated;
        match self.get_bool("collector_defeated", r.in_save(), read) {
            Some(b) => b,
            None => false,
        }
    }

    /// The remembered `has_acid_armour` flag, `false` when never seen.
    pub fn has_acid_armour(&mut self, r: &GameReadings) -> (b: bool)
        requires
            old(self).wf(),
        ensures
            final(self).wf(),
            (final(self)@, b) == spec_flag(old(self)@, "has_acid_armour"@, spec_in_save(r), r.has_acid_armour),
    {
        let read = r.has_acid_armour;
        match self.get_bool("has_acid_armour", r.in_save(), read) {
            Some(b) => b,
            None => false,
        }
    }

    /// The remembered `killed_infected_knight` flag, `false` when never seen.
    pub fn killed_infected_knight(&mut self, r: &GameReadings) -> (b: bool)
        requires
            old(self).wf(),
        ensures
            final(self).wf(),
            (final(self)@, b) == spec_flag(old(self)@, "killed_infected_knight"@, spec_in_save(r), r.killed_infected_knight),
    {
        let read = r.killed_infected_knight;
        match self.get_bool("killed_infected_knight", r.in_save(), read) {
            Some(b) => b,
            None => false,
        }
    }

    /// The remembered `has_double_jump` flag, `false` when never seen.
    pub fn has_double_jump(&mut self, r: &GameReadings) -> (b: bool)
        requires
            old(self).wf(),
        ensures
            final(self).wf(),
            (final(self)@, b) == spec_flag(old(self)@, "has_double_jump"@, spec_in_save(r), r.has_double_jump),
    {
        let read = r.has_double_jump;
        match self.get_bool("has_double_jump", r.in_save(), read) {
            Some(b) => b,
            None => false,
        }
    }

    /// The remembered `got_shade_charm` flag, `false` when never seen.
    pub fn got_shade_charm(&mut self, r: &GameReadings) -> (b: bool)
        requires
            old(self).wf(),
        ensures
            final(self).wf(),
            (final(self)@, b) == spec_flag(old(self)@, "got_shade_charm"@, spec_in_save(r), r.got_shade_charm),
    {
        let read = r.got_shade_charm;
        match self.get_bool("got_shade_charm", r.in_save(), read) {
            Some(b) => b,
            None => false,
        }
    }

    /// The remembered `colosseum_bronze_completed` flag, `false` when never seen.
    pub fn colosseum_bronze_completed(&mut self, r: &GameReadings) -> (b: bool)
        requires
            old(self).wf(),
        ensures
            final(self).wf(),
            (final(self)@, b) == spec_flag(old(self)@, "colosseum_bronze_completed"@, spec_in_save(r), r.colosseum_bronze_completed),
    {
        let read = r.colosseum_bronze_completed;
        match self.get_bool("colosseum_bronze_completed", r.in_save(), read) {
            Some(b) => b,
            None => false,
        }
    }

    /// The remembered `colosseum_silver_completed` flag, `false` when never seen.
    pub fn colosseum_silver_completed(&mut self, r: &GameReadings) -> (b: bool)
        requires
            old(self).wf(),
        ensures
            final(self).wf(),
            (final(self)@, b) == spec_flag(old(self)@, "colosseum_silver_completed"@, spec_in_save(r), r.colosseum_silver_completed),
    {
        let read = r.colosseum_silver_completed;
        match self.get_bool("colosseum_silver_completed", r.in_save(), read) {
            Some(b) => b,
            None => false,
        }
    }

    /// The remembered `colosseum_gold_completed` flag, `false` when never seen.
    pub fn colosseum_gold_completed(&mut self, r: &GameReadings) -> (b: bool)
        requires
            old(self).wf(),
        ensures
            final(self).wf(),
            (final(self)@, b) == spec_flag(old(self)@, "colosseum_gold_completed"@, spec_in_save(r), r.colosseum_gold_completed),
    {
        let read = r.colosseum_gold_completed;
        match self.get_bool("colosseum_gold_completed", r.in_save(), read) {
            Some(b) => b,
            None => false,
        }
    }

    /// The remembered `sly_shop_finished` flag, `false` when never seen.
    pub fn sly_shop_finished(&mut self, r: &GameReadings) -> (b: bool)
        requires
            old(self).wf(),
        ensures
            final(self).wf(),
            (final(self)@, b) == spec_flag(old(self)@, "sly_shop_finished"@, spec_in_save(r), spec_sly_shop_finished(r)),
    {
        let read = r.sly_shop_finished();
        match self.get_bool("sly_shop_finished", r.in_save(), read) {
            Some(b) => b,
            None => false,
        }
    }

    /// The remembered `grub_waterways_isma` flag, `false` when never seen.
    pub fn grub_waterways_isma(&mut self, r: &GameReadings) -> (b: bool)
        requires
            old(self).wf(),
        ensures
            final(self).wf(),
            (final(self)@, b) == spec_flag(old(self)@, "grub_waterways_isma"@, spec_in_save(r), spec_grub_waterways_isma(r)),
    {
        let read = r.grub_waterways_isma();
        match self.get_bool("grub_waterways_isma", r.in_save(), read) {
            Some(b) => b,
            None => false,
        }
    }

    /// The remembered `guardians_defeated` count, 0 when never seen.
    pub fn guardians_defeated(&mut self, r: &GameReadings) -> (n: i32)
        requires
            old(self).wf(),
        ensures
            final(self).wf(),
            (final(self)@, n) == spec_count(old(self)@, "guardians_defeated"@, spec_in_save(r), r.guardians_defeated),
    {
        match self.get_i32("guardians_defeated", r.in_save(), r.guardians_defeated) {
            Some(n) => n,
            None => 0,
        }
    }

    /// The remembered `fireball_level` count, 0 when never seen.
    pub fn get_fireball_level(&mut self, r: &GameReadings) -> (n: i32)
        requires
            old(self).wf(),
        ensures
            final(self).wf(),
            (final(self)@, n) == spec_count(old(self)@, "fireball_level"@, spec_in_save(r), r.fireball_level),
    {
        match self.get_i32("fireball_level", r.in_save(), r.fireball_level) {
            Some(n) => n,
            None => 0,
        }
    }

    /// The remembered `quake_level` count, 0 when never seen.
    pub fn get_quake_level(&mut self, r: &GameReadings) -> (n: i32)
        requires
            old(self).wf(),
        ensures
            final(self).wf(),
            (final(self)@, n) == spec_count(old(self)@, "quake_level"@, spec_in_save(r), r.quake_level),
    {
        match self.get_i32("quake_level", r.in_save(), r.quake_level) {
            Some(n) => n,
            None => 0,
        }
    }
}

} // verus!
