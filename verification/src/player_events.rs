//! Player-data events that splits wait for: items obtained, numbers that
//! went up or down, and the waves of the Colosseum of Fools.

use vstd::prelude::*;

use crate::player_data::{
    lookup,
    spec_changed_bool,
    spec_changed_i32_delta,
    spec_kills_decreased_by,
    spec_been_dead_for_a_tick,
    spec_flag,
    spec_kills_on_entry,
    spec_pure_snail,
    PlayerDataStore,
    PlayerDataView,
};
use crate::readings::{
    hive_knight_doesnt_exist,
    spec_hive_knight_doesnt_exist,
    spec_in_save,
    spec_non_continuous,
    GameReadings,
};

verus! {

/// The Pure Snail check on what was read from the game.
pub open spec fn spec_pds_pure_snail(v: PlayerDataView, r: &GameReadings) -> (PlayerDataView, bool) {
    spec_pure_snail(
        v,
        r.focusing,
        (r.equipped_charm_5, r.equipped_charm_7, r.equipped_charm_17, r.equipped_charm_28),
        r.health,
        r.max_health,
        r.mpcharge,
    )
}

/// Whether the wave is cleared: `Some(true)` when the journal kill counts fell since entering the room (spitter by at least 3); `Some(false)` when a count reached zero first; `None` before either.
pub open spec fn spec_pds_aspid_hunter_arena(v: PlayerDataView, r: &GameReadings) -> (PlayerDataView, Option<bool>) {
    spec_kills_decreased_by(v, "kills_spitter_on_entry"@, spec_non_continuous(r), r.kills_spitter, 3)
}

/// Whether the wave is cleared: `Some(true)` when the journal kill counts fell since entering the room (col_roller by at least 13); `Some(false)` when a count reached zero first; `None` before either.
pub open spec fn spec_pds_bronze10(v: PlayerDataView, r: &GameReadings) -> (PlayerDataView, Option<bool>) {
    spec_kills_decreased_by(v, "kills_col_roller_on_entry"@, spec_non_continuous(r), r.kills_col_roller, 13)
}

/// Whether the wave is cleared: `Some(true)` when the journal kill counts fell since entering the room (bursting_bouncer by at least 2); `Some(false)` when a count reached zero first; `None` before either.
pub open spec fn spec_pds_bronze11a(v: PlayerDataView, r: &GameReadings) -> (PlayerDataView, Option<bool>) {
    spec_kills_decreased_by(v, "kills_bursting_bouncer_on_entry"@, spec_non_continuous(r), r.kills_bursting_bouncer, 2)
}

/// Whether the wave is cleared: `Some(true)` when the journal kill counts fell since entering the room (bursting_bouncer by at least 5); `Some(false)` when a count reached zero first; `None` before either.
pub open spec fn spec_pds_bronze11b(v: PlayerDataView, r: &GameReadings) -> (PlayerDataView, Option<bool>) {
    spec_kills_decreased_by(v, "kills_bursting_bouncer_on_entry"@, spec_non_continuous(r), r.kills_bursting_bouncer, 5)
}

/// Whether the wave is cleared: `Some(true)` when the journal kill counts fell since entering the room (col_shield by at least 1); `Some(false)` when a count reached zero first; `None` before either.
pub open spec fn spec_pds_bronze1a(v: PlayerDataView, r: &GameReadings) -> (PlayerDataView, Option<bool>) {
    spec_kills_decreased_by(v, "kills_col_shield_on_entry"@, spec_non_continuous(r), r.kills_col_shield, 1)
}

/// Whether the wave is cleared: `Some(true)` when the journal kill counts fell since entering the room (col_shield by at least 3); `Some(false)` when a count reached zero first; `None` before either.
pub open spec fn spec_pds_bronze1b(v: PlayerDataView, r: &GameReadings) -> (PlayerDataView, Option<bool>) {
    spec_kills_decreased_by(v, "kills_col_shield_on_entry"@, spec_non_continuous(r), r.kills_col_shield, 3)
}

/// Whether the wave is cleared: `Some(true)` when the journal kill counts fell since entering the room (col_roller by at least 2); `Some(false)` when a count reached zero first; `None` before either.
pub open spec fn spec_pds_bronze1c(v: PlayerDataView, r: &GameReadings) -> (PlayerDataView, Option<bool>) {
    spec_kills_decreased_by(v, "kills_col_roller_on_entry"@, spec_non_continuous(r), r.kills_col_roller, 2)
}

/// Whether the wave is cleared: `Some(true)` when the journal kill counts fell since entering the room (col_roller by at least 7); `Some(false)` when a count reached zero first; `None` before either.
pub open spec fn spec_pds_bronze2(v: PlayerDataView, r: &GameReadings) -> (PlayerDataView, Option<bool>) {
    spec_kills_decreased_by(v, "kills_col_roller_on_entry"@, spec_non_continuous(r), r.kills_col_roller, 7)
}

/// Whether the wave is cleared: `Some(true)` when the journal kill counts fell since entering the room (col_miner by at least 1); `Some(false)` when a count reached zero first; `None` before either.
pub open spec fn spec_pds_bronze3a(v: PlayerDataView, r: &GameReadings) -> (PlayerDataView, Option<bool>) {
    spec_kills_decreased_by(v, "kills_col_miner_on_entry"@, spec_non_continuous(r), r.kills_col_miner, 1)
}

/// Whether the wave is cleared: `Some(true)` when the journal kill counts fell since entering the room (col_miner by at least 3); `Some(false)` when a count reached zero first; `None` before either.
pub open spec fn spec_pds_bronze3b(v: PlayerDataView, r: &GameReadings) -> (PlayerDataView, Option<bool>) {
    spec_kills_decreased_by(v, "kills_col_miner_on_entry"@, spec_non_continuous(r), r.kills_col_miner, 3)
}

/// Whether the wave is cleared: `Some(true)` when the journal kill counts fell since entering the room (spitter by at least 2); `Some(false)` when a count reached zero first; `None` before either.
pub open spec fn spec_pds_bronze4(v: PlayerDataView, r: &GameReadings) -> (PlayerDataView, Option<bool>) {
    spec_kills_decreased_by(v, "kills_spitter_on_entry"@, spec_non_continuous(r), r.kills_spitter, 2)
}

/// Whether the wave is cleared: `Some(true)` when the journal kill counts fell since entering the room (spitter by at least 4); `Some(false)` when a count reached zero first; `None` before either.
pub open spec fn spec_pds_bronze5(v: PlayerDataView, r: &GameReadings) -> (PlayerDataView, Option<bool>) {
    spec_kills_decreased_by(v, "kills_spitter_on_entry"@, spec_non_continuous(r), r.kills_spitter, 4)
}

/// Whether the wave is cleared: `Some(true)` when the journal kill counts fell since entering the room (col_miner by at least 6); `Some(false)` when a count reached zero first; `None` before either.
pub open spec fn spec_pds_bronze6(v: PlayerDataView, r: &GameReadings) -> (PlayerDataView, Option<bool>) {
    spec_kills_decreased_by(v, "kills_col_miner_on_entry"@, spec_non_continuous(r), r.kills_col_miner, 6)
}

/// Whether the wave is cleared: `Some(true)` when the journal kill counts fell since entering the room (spitter by at least 6; col_roller by at least 9); `Some(false)` when a count reached zero first; `None` before either.
pub open spec fn spec_pds_bronze7(v: PlayerDataView, r: &GameReadings) -> (PlayerDataView, Option<bool>) {
    {
        let (k0, o0) = spec_kills_decreased_by(v, "kills_spitter_on_entry"@, spec_non_continuous(r), r.kills_spitter, 6);
        match o0 {
            Some(true) => spec_kills_decreased_by(k0, "kills_col_roller_on_entry"@, spec_non_continuous(r), r.kills_col_roller, 9),
            _ => (k0, o0),
        }
    }
}

/// Whether the wave is cleared: `Some(true)` when the journal kill counts fell since entering the room (buzzer by at least 4); `Some(false)` when a count reached zero first; `None` before either.
pub open spec fn spec_pds_bronze8a(v: PlayerDataView, r: &GameReadings) -> (PlayerDataView, Option<bool>) {
    spec_kills_decreased_by(v, "kills_buzzer_on_entry"@, spec_non_continuous(r), r.kills_buzzer, 4)
}

/// Whether the wave is cleared: `Some(true)` when the journal kill counts fell since entering the room (big_buzzer by at least 1); `Some(false)` when a count reached zero first; `None` before either.
pub open spec fn spec_pds_bronze8b(v: PlayerDataView, r: &GameReadings) -> (PlayerDataView, Option<bool>) {
    spec_kills_decreased_by(v, "kills_big_buzzer_on_entry"@, spec_non_continuous(r), r.kills_big_buzzer, 1)
}

/// Whether the wave is cleared: `Some(true)` when the journal kill counts fell since entering the room (spitter by at least 8; col_roller by at least 10; col_miner by at least 9; col_shield by at least 5); `Some(false)` when a count reached zero first; `None` before either.
pub open spec fn spec_pds_bronze9(v: PlayerDataView, r: &GameReadings) -> (PlayerDataView, Option<bool>) {
    {
        let (k0, o0) = spec_kills_decreased_by(v, "kills_spitter_on_entry"@, spec_non_continuous(r), r.kills_spitter, 8);
        match o0 {
            Some(true) => {
        let (k1, o1) = spec_kills_decreased_by(k0, "kills_col_roller_on_entry"@, spec_non_continuous(r), r.kills_col_roller, 10);
        match o1 {
            Some(true) => {
        let (k2, o2) = spec_kills_decreased_by(k1, "kills_col_miner_on_entry"@, spec_non_continuous(r), r.kills_col_miner, 9);
        match o2 {
            Some(true) => spec_kills_decreased_by(k2, "kills_col_shield_on_entry"@, spec_non_continuous(r), r.kills_col_shield, 5),
            _ => (k2, o2),
        }
    },
            _ => (k1, o1),
        }
    },
            _ => (k0, o0),
        }
    }
}

/// Whether the wave is cleared: `Some(true)` when the journal kill counts fell since entering the room (big_fly by at least 2); `Some(false)` when a count reached zero first; `None` before either.
pub open spec fn spec_pds_bronze_end(v: PlayerDataView, r: &GameReadings) -> (PlayerDataView, Option<bool>) {
    spec_kills_decreased_by(v, "kills_big_fly_on_entry"@, spec_non_continuous(r), r.kills_big_fly, 2)
}

/// `stag_position` changed.
pub open spec fn spec_pds_changed_stag_position(v: PlayerDataView, r: &GameReadings) -> (PlayerDataView, bool) {
    let (w, d) = spec_changed_i32_delta(v, "stag_position"@, spec_in_save(r), r.stag_position);
    (w, match d { Some(x) => x != 0, None => false })
}

/// `travelling` changed to `true`.
pub open spec fn spec_pds_changed_travelling_true(v: PlayerDataView, r: &GameReadings) -> (PlayerDataView, bool) {
    let (w, c) = spec_changed_bool(v, "travelling"@, spec_in_save(r), r.travelling);
    (w, c == Some(true))
}

/// `kills_zombie_miner` went down by exactly one since it was last remembered.
pub open spec fn spec_pds_decremented_kills_zombie_miner(v: PlayerDataView, r: &GameReadings) -> (PlayerDataView, bool) {
    let (w, d) = spec_changed_i32_delta(v, "kills_zombie_miner"@, spec_in_save(r), r.kills_zombie_miner);
    (w, d == Some(-1int))
}

/// `simple_keys` went down by exactly one since it was last remembered.
pub open spec fn spec_pds_decremented_simple_keys(v: PlayerDataView, r: &GameReadings) -> (PlayerDataView, bool) {
    let (w, d) = spec_changed_i32_delta(v, "simple_keys"@, spec_in_save(r), r.simple_keys);
    (w, d == Some(-1int))
}

/// Whether the wave is cleared: `Some(true)` when the journal kill counts fell since entering the room (col_worm by at least 1; col_miner by at least 1; col_shield by at least 2; spitter by at least 1; col_flying_sentry by at least 2; col_roller by at least 2); `Some(false)` when a count reached zero first; `None` before either.
pub open spec fn spec_pds_gold1(v: PlayerDataView, r: &GameReadings) -> (PlayerDataView, Option<bool>) {
    let (p0, _) = spec_kills_on_entry(v, "kills_col_worm_on_entry"@, spec_non_continuous(r), r.kills_col_worm);
    let (p1, _) = spec_kills_on_entry(p0, "kills_col_miner_on_entry"@, spec_non_continuous(r), r.kills_col_miner);
    let (p2, _) = spec_kills_on_entry(p1, "kills_col_mosquito_on_entry"@, spec_non_continuous(r), r.kills_col_mosquito);
    let (p3, _) = spec_kills_on_entry(p2, "kills_col_shield_on_entry"@, spec_non_continuous(r), r.kills_col_shield);
    let (p4, _) = spec_kills_on_entry(p3, "kills_spitter_on_entry"@, spec_non_continuous(r), r.kills_spitter);
    let (p5, _) = spec_kills_on_entry(p4, "kills_col_flying_sentry_on_entry"@, spec_non_continuous(r), r.kills_col_flying_sentry);
    let (p6, _) = spec_kills_on_entry(p5, "kills_col_roller_on_entry"@, spec_non_continuous(r), r.kills_col_roller);
    {
        let (k0, o0) = spec_kills_decreased_by(p6, "kills_col_worm_on_entry"@, spec_non_continuous(r), r.kills_col_worm, 1);
        match o0 {
            Some(true) => {
        let (k1, o1) = spec_kills_decreased_by(k0, "kills_col_miner_on_entry"@, spec_non_continuous(r), r.kills_col_miner, 1);
        match o1 {
            Some(true) => {
        let (k2, o2) = spec_kills_decreased_by(k1, "kills_col_shield_on_entry"@, spec_non_continuous(r), r.kills_col_shield, 2);
        match o2 {
            Some(true) => {
        let (k3, o3) = spec_kills_decreased_by(k2, "kills_spitter_on_entry"@, spec_non_continuous(r), r.kills_spitter, 1);
        match o3 {
            Some(true) => {
        let (k4, o4) = spec_kills_decreased_by(k3, "kills_col_flying_sentry_on_entry"@, spec_non_continuous(r), r.kills_col_flying_sentry, 2);
        match o4 {
            Some(true) => spec_kills_decreased_by(k4, "kills_col_roller_on_entry"@, spec_non_continuous(r), r.kills_col_roller, 2),
            _ => (k4, o4),
        }
    },
            _ => (k3, o3),
        }
    },
            _ => (k2, o2),
        }
    },
            _ => (k1, o1),
        }
    },
            _ => (k0, o0),
        }
    }
}

/// Whether the wave is cleared: `Some(true)` when the journal kill counts fell since entering the room (electric_mage by at least 3; mage by at least 4); `Some(false)` when a count reached zero first; `None` before either.
pub open spec fn spec_pds_gold10(v: PlayerDataView, r: &GameReadings) -> (PlayerDataView, Option<bool>) {
    let (p0, _) = spec_kills_on_entry(v, "kills_electric_mage_on_entry"@, spec_non_continuous(r), r.kills_electric_mage);
    let (p1, _) = spec_kills_on_entry(p0, "kills_mage_on_entry"@, spec_non_continuous(r), r.kills_mage);
    {
        let (k0, o0) = spec_kills_decreased_by(p1, "kills_electric_mage_on_entry"@, spec_non_continuous(r), r.kills_electric_mage, 3);
        match o0 {
            Some(true) => spec_kills_decreased_by(k0, "kills_mage_on_entry"@, spec_non_continuous(r), r.kills_mage, 4),
            _ => (k0, o0),
        }
    }
}

/// Whether the wave is cleared: `Some(true)` when the journal kill counts fell since entering the room (mage_knight by at least 2; mage by at least 5); `Some(false)` when a count reached zero first; `None` before either.
pub open spec fn spec_pds_gold11(v: PlayerDataView, r: &GameReadings) -> (PlayerDataView, Option<bool>) {
    {
        let (k0, o0) = spec_kills_decreased_by(v, "kills_mage_knight_on_entry"@, spec_non_continuous(r), r.kills_mage_knight, 2);
        match o0 {
            Some(true) => spec_kills_decreased_by(k0, "kills_mage_on_entry"@, spec_non_continuous(r), r.kills_mage, 5),
            _ => (k0, o0),
        }
    }
}

/// Whether the wave is cleared: `Some(true)` when the journal kill counts fell since entering the room (col_flying_sentry by at least 7; col_miner by at least 4; lesser_mawlek by at least 4); `Some(false)` when a count reached zero first; `None` before either.
pub open spec fn spec_pds_gold12a(v: PlayerDataView, r: &GameReadings) -> (PlayerDataView, Option<bool>) {
    let (p0, _) = spec_kills_on_entry(v, "kills_lesser_mawlek_on_entry"@, spec_non_continuous(r), r.kills_lesser_mawlek);
    {
        let (k0, o0) = spec_kills_decreased_by(p0, "kills_col_flying_sentry_on_entry"@, spec_non_continuous(r), r.kills_col_flying_sentry, 7);
        match o0 {
            Some(true) => {
        let (k1, o1) = spec_kills_decreased_by(k0, "kills_col_miner_on_entry"@, spec_non_continuous(r), r.kills_col_miner, 4);
        match o1 {
            Some(true) => spec_kills_decreased_by(k1, "kills_lesser_mawlek_on_entry"@, spec_non_continuous(r), r.kills_lesser_mawlek, 4),
            _ => (k1, o1),
        }
    },
            _ => (k0, o0),
        }
    }
}

/// Whether the wave is cleared: `Some(true)` when the journal kill counts fell since entering the room (mawlek by at least 1); `Some(false)` when a count reached zero first; `None` before either.
pub open spec fn spec_pds_gold12b(v: PlayerDataView, r: &GameReadings) -> (PlayerDataView, Option<bool>) {
    spec_kills_decreased_by(v, "kills_mawlek_on_entry"@, spec_non_continuous(r), r.kills_mawlek, 1)
}

/// Whether the wave is cleared: `Some(true)` when the journal kill counts fell since entering the room (col_mosquito by at least 10; spitter by at least 7; mantis_heavy_flyer by at least 5); `Some(false)` when a count reached zero first; `None` before either.
pub open spec fn spec_pds_gold14a(v: PlayerDataView, r: &GameReadings) -> (PlayerDataView, Option<bool>) {
    {
        let (k0, o0) = spec_kills_decreased_by(v, "kills_col_mosquito_on_entry"@, spec_non_continuous(r), r.kills_col_mosquito, 10);
        match o0 {
            Some(true) => {
        let (k1, o1) = spec_kills_decreased_by(k0, "kills_spitter_on_entry"@, spec_non_continuous(r), r.kills_spitter, 7);
        match o1 {
            Some(true) => spec_kills_decreased_by(k1, "kills_mantis_heavy_flyer_on_entry"@, spec_non_continuous(r), r.kills_mantis_heavy_flyer, 5),
            _ => (k1, o1),
        }
    },
            _ => (k0, o0),
        }
    }
}

/// Whether the wave is cleared: `Some(true)` when the journal kill counts fell since entering the room (col_flying_sentry by at least 10; blobble by at least 7); `Some(false)` when a count reached zero first; `None` before either.
pub open spec fn spec_pds_gold14b(v: PlayerDataView, r: &GameReadings) -> (PlayerDataView, Option<bool>) {
    {
        let (k0, o0) = spec_kills_decreased_by(v, "kills_col_flying_sentry_on_entry"@, spec_non_continuous(r), r.kills_col_flying_sentry, 10);
        match o0 {
            Some(true) => spec_kills_decreased_by(k0, "kills_blobble_on_entry"@, spec_non_continuous(r), r.kills_blobble, 7),
            _ => (k0, o0),
        }
    }
}

/// Whether the wave is cleared: `Some(true)` when the journal kill counts fell since entering the room (col_mosquito by at least 12); `Some(false)` when a count reached zero first; `None` before either.
pub open spec fn spec_pds_gold15(v: PlayerDataView, r: &GameReadings) -> (PlayerDataView, Option<bool>) {
    spec_kills_decreased_by(v, "kills_col_mosquito_on_entry"@, spec_non_continuous(r), r.kills_col_mosquito, 12)
}

/// Whether the wave is cleared: `Some(true)` when the journal kill counts fell since entering the room (col_hopper by at least 25); `Some(false)` when a count reached zero first; `None` before either.
pub open spec fn spec_pds_gold16(v: PlayerDataView, r: &GameReadings) -> (PlayerDataView, Option<bool>) {
    spec_kills_decreased_by(v, "kills_col_hopper_on_entry"@, spec_non_continuous(r), r.kills_col_hopper, 25)
}

/// Whether the wave is cleared: `Some(true)` when the journal kill counts fell since entering the room (col_worm by at least 6; col_miner by at least 5; col_shield by at least 4; mantis_heavy_flyer by at least 6; heavy_mantis by at least 3; col_flying_sentry by at least 11); `Some(false)` when a count reached zero first; `None` before either.
pub open spec fn spec_pds_gold17a(v: PlayerDataView, r: &GameReadings) -> (PlayerDataView, Option<bool>) {
    {
        let (k0, o0) = spec_kills_decreased_by(v, "kills_col_worm_on_entry"@, spec_non_continuous(r), r.kills_col_worm, 6);
        match o0 {
            Some(true) => {
        let (k1, o1) = spec_kills_decreased_by(k0, "kills_col_miner_on_entry"@, spec_non_continuous(r), r.kills_col_miner, 5);
        match o1 {
            Some(true) => {
        let (k2, o2) = spec_kills_decreased_by(k1, "kills_col_shield_on_entry"@, spec_non_continuous(r), r.kills_col_shield, 4);
        match o2 {
            Some(true) => {
        let (k3, o3) = spec_kills_decreased_by(k2, "kills_mantis_heavy_flyer_on_entry"@, spec_non_continuous(r), r.kills_mantis_heavy_flyer, 6);
        match o3 {
            Some(true) => {
        let (k4, o4) = spec_kills_decreased_by(k3, "kills_heavy_mantis_on_entry"@, spec_non_continuous(r), r.kills_heavy_mantis, 3);
        match o4 {
            Some(true) => spec_kills_decreased_by(k4, "kills_col_flying_sentry_on_entry"@, spec_non_continuous(r), r.kills_col_flying_sentry, 11),
            _ => (k4, o4),
        }
    },
            _ => (k3, o3),
        }
    },
            _ => (k2, o2),
        }
    },
            _ => (k1, o1),
        }
    },
            _ => (k0, o0),
        }
    }
}

/// Whether the wave is cleared: `Some(true)` when the journal kill counts fell since entering the room (col_worm by at least 7; col_shield by at least 5; mage by at least 6; electric_mage by at least 4); `Some(false)` when a count reached zero first; `None` before either.
pub open spec fn spec_pds_gold17b(v: PlayerDataView, r: &GameReadings) -> (PlayerDataView, Option<bool>) {
    {
        let (k0, o0) = spec_kills_decreased_by(v, "kills_col_worm_on_entry"@, spec_non_continuous(r), r.kills_col_worm, 7);
        match o0 {
            Some(true) => {
        let (k1, o1) = spec_kills_decreased_by(k0, "kills_col_shield_on_entry"@, spec_non_continuous(r), r.kills_col_shield, 5);
        match o1 {
            Some(true) => {
        let (k2, o2) = spec_kills_decreased_by(k1, "kills_mage_on_entry"@, spec_non_continuous(r), r.kills_mage, 6);
        match o2 {
            Some(true) => spec_kills_decreased_by(k2, "kills_electric_mage_on_entry"@, spec_non_continuous(r), r.kills_electric_mage, 4),
            _ => (k2, o2),
        }
    },
            _ => (k1, o1),
        }
    },
            _ => (k0, o0),
        }
    }
}

/// Whether the wave is cleared: `Some(true)` when the journal kill counts fell since entering the room (col_roller by at least 4; col_worm by at least 8; col_shield by at least 6; col_miner by at least 6; col_flying_sentry by at least 12); `Some(false)` when a count reached zero first; `None` before either.
pub open spec fn spec_pds_gold17c(v: PlayerDataView, r: &GameReadings) -> (PlayerDataView, Option<bool>) {
    {
        let (k0, o0) = spec_kills_decreased_by(v, "kills_col_roller_on_entry"@, spec_non_continuous(r), r.kills_col_roller, 4);
        match o0 {
            Some(true) => {
        let (k1, o1) = spec_kills_decreased_by(k0, "kills_col_worm_on_entry"@, spec_non_continuous(r), r.kills_col_worm, 8);
        match o1 {
            Some(true) => {
        let (k2, o2) = spec_kills_decreased_by(k1, "kills_col_shield_on_entry"@, spec_non_continuous(r), r.kills_col_shield, 6);
        match o2 {
            Some(true) => {
        let (k3, o3) = spec_kills_decreased_by(k2, "kills_col_miner_on_entry"@, spec_non_continuous(r), r.kills_col_miner, 6);
        match o3 {
            Some(true) => spec_kills_decreased_by(k3, "kills_col_flying_sentry_on_entry"@, spec_non_continuous(r), r.kills_col_flying_sentry, 12),
            _ => (k3, o3),
        }
    },
            _ => (k2, o2),
        }
    },
            _ => (k1, o1),
        }
    },
            _ => (k0, o0),
        }
    }
}

/// Whether the wave is cleared: `Some(true)` when the journal kill counts fell since entering the room (col_flying_sentry by at least 3; angry_buzzer by at least 2); `Some(false)` when a count reached zero first; `None` before either.
pub open spec fn spec_pds_gold3(v: PlayerDataView, r: &GameReadings) -> (PlayerDataView, Option<bool>) {
    let (p0, _) = spec_kills_on_entry(v, "kills_blobble_on_entry"@, spec_non_continuous(r), r.kills_blobble);
    let (p1, _) = spec_kills_on_entry(p0, "kills_angry_buzzer_on_entry"@, spec_non_continuous(r), r.kills_angry_buzzer);
    {
        let (k0, o0) = spec_kills_decreased_by(p1, "kills_col_flying_sentry_on_entry"@, spec_non_continuous(r), r.kills_col_flying_sentry, 3);
        match o0 {
            Some(true) => spec_kills_decreased_by(k0, "kills_angry_buzzer_on_entry"@, spec_non_continuous(r), r.kills_angry_buzzer, 2),
            _ => (k0, o0),
        }
    }
}

/// Whether the wave is cleared: `Some(true)` when the journal kill counts fell since entering the room (col_worm by at least 3; ceiling_dropper by at least 6); `Some(false)` when a count reached zero first; `None` before either.
pub open spec fn spec_pds_gold4(v: PlayerDataView, r: &GameReadings) -> (PlayerDataView, Option<bool>) {
    let (p0, _) = spec_kills_on_entry(v, "kills_ceiling_dropper_on_entry"@, spec_non_continuous(r), r.kills_ceiling_dropper);
    {
        let (k0, o0) = spec_kills_decreased_by(p0, "kills_col_worm_on_entry"@, spec_non_continuous(r), r.kills_col_worm, 3);
        match o0 {
            Some(true) => spec_kills_decreased_by(k0, "kills_ceiling_dropper_on_entry"@, spec_non_continuous(r), r.kills_ceiling_dropper, 6),
            _ => (k0, o0),
        }
    }
}

/// Whether the wave is cleared: `Some(true)` when the journal kill counts fell since entering the room (col_hopper by at least 3); `Some(false)` when a count reached zero first; `None` before either.
pub open spec fn spec_pds_gold5(v: PlayerDataView, r: &GameReadings) -> (PlayerDataView, Option<bool>) {
    spec_kills_decreased_by(v, "kills_col_hopper_on_entry"@, spec_non_continuous(r), r.kills_col_hopper, 3)
}

/// Whether the wave is cleared: `Some(true)` when the journal kill counts fell since entering the room (col_hopper by at least 8); `Some(false)` when a count reached zero first; `None` before either.
pub open spec fn spec_pds_gold6(v: PlayerDataView, r: &GameReadings) -> (PlayerDataView, Option<bool>) {
    spec_kills_decreased_by(v, "kills_col_hopper_on_entry"@, spec_non_continuous(r), r.kills_col_hopper, 8)
}

/// Whether the wave is cleared: `Some(true)` when the journal kill counts fell since entering the room (col_hopper by at least 11); `Some(false)` when a count reached zero first; `None` before either.
pub open spec fn spec_pds_gold7(v: PlayerDataView, r: &GameReadings) -> (PlayerDataView, Option<bool>) {
    spec_kills_decreased_by(v, "kills_col_hopper_on_entry"@, spec_non_continuous(r), r.kills_col_hopper, 11)
}

/// Whether the wave is cleared: `Some(true)` when the journal kill counts fell since entering the room (col_mosquito by at least 6; col_flying_sentry by at least 5); `Some(false)` when a count reached zero first; `None` before either.
pub open spec fn spec_pds_gold8(v: PlayerDataView, r: &GameReadings) -> (PlayerDataView, Option<bool>) {
    {
        let (k0, o0) = spec_kills_decreased_by(v, "kills_col_mosquito_on_entry"@, spec_non_continuous(r), r.kills_col_mosquito, 6);
        match o0 {
            Some(true) => spec_kills_decreased_by(k0, "kills_col_flying_sentry_on_entry"@, spec_non_continuous(r), r.kills_col_flying_sentry, 5),
            _ => (k0, o0),
        }
    }
}

/// Whether the wave is cleared: `Some(true)` when the journal kill counts fell since entering the room (col_mosquito by at least 4; spitter by at least 5; col_flying_sentry by at least 4); `Some(false)` when a count reached zero first; `None` before either.
pub open spec fn spec_pds_gold8a(v: PlayerDataView, r: &GameReadings) -> (PlayerDataView, Option<bool>) {
    {
        let (k0, o0) = spec_kills_decreased_by(v, "kills_col_mosquito_on_entry"@, spec_non_continuous(r), r.kills_col_mosquito, 4);
        match o0 {
            Some(true) => {
        let (k1, o1) = spec_kills_decreased_by(k0, "kills_spitter_on_entry"@, spec_non_continuous(r), r.kills_spitter, 5);
        match o1 {
            Some(true) => spec_kills_decreased_by(k1, "kills_col_flying_sentry_on_entry"@, spec_non_continuous(r), r.kills_col_flying_sentry, 4),
            _ => (k1, o1),
        }
    },
            _ => (k0, o0),
        }
    }
}

/// Whether the wave is cleared: `Some(true)` when the journal kill counts fell since entering the room (col_shield by at least 3; col_worm by at least 5; spitter by at least 6; heavy_mantis by at least 2; mantis_heavy_flyer by at least 4); `Some(false)` when a count reached zero first; `None` before either.
pub open spec fn spec_pds_gold9a(v: PlayerDataView, r: &GameReadings) -> (PlayerDataView, Option<bool>) {
    let (p0, _) = spec_kills_on_entry(v, "kills_heavy_mantis_on_entry"@, spec_non_continuous(r), r.kills_heavy_mantis);
    let (p1, _) = spec_kills_on_entry(p0, "kills_mantis_heavy_flyer_on_entry"@, spec_non_continuous(r), r.kills_mantis_heavy_flyer);
    {
        let (k0, o0) = spec_kills_decreased_by(p1, "kills_col_shield_on_entry"@, spec_non_continuous(r), r.kills_col_shield, 3);
        match o0 {
            Some(true) => {
        let (k1, o1) = spec_kills_decreased_by(k0, "kills_col_worm_on_entry"@, spec_non_continuous(r), r.kills_col_worm, 5);
        match o1 {
            Some(true) => {
        let (k2, o2) = spec_kills_decreased_by(k1, "kills_spitter_on_entry"@, spec_non_continuous(r), r.kills_spitter, 6);
        match o2 {
            Some(true) => {
        let (k3, o3) = spec_kills_decreased_by(k2, "kills_heavy_mantis_on_entry"@, spec_non_continuous(r), r.kills_heavy_mantis, 2);
        match o3 {
            Some(true) => spec_kills_decreased_by(k3, "kills_mantis_heavy_flyer_on_entry"@, spec_non_continuous(r), r.kills_mantis_heavy_flyer, 4),
            _ => (k3, o3),
        }
    },
            _ => (k2, o2),
        }
    },
            _ => (k1, o1),
        }
    },
            _ => (k0, o0),
        }
    }
}

/// Whether the wave is cleared: `Some(true)` when the journal kill counts fell since entering the room (mage_knight by at least 1); `Some(false)` when a count reached zero first; `None` before either.
pub open spec fn spec_pds_gold9b(v: PlayerDataView, r: &GameReadings) -> (PlayerDataView, Option<bool>) {
    let (p0, _) = spec_kills_on_entry(v, "kills_mage_on_entry"@, spec_non_continuous(r), r.kills_mage);
    spec_kills_decreased_by(p0, "kills_mage_knight_on_entry"@, spec_non_continuous(r), r.kills_mage_knight, 1)
}

/// Whether the wave is cleared: `Some(true)` when the journal kill counts fell since entering the room (lobster_lancer by at least 1); `Some(false)` when a count reached zero first; `None` before either.
pub open spec fn spec_pds_gold_end(v: PlayerDataView, r: &GameReadings) -> (PlayerDataView, Option<bool>) {
    spec_kills_decreased_by(v, "kills_lobster_lancer_on_entry"@, spec_non_continuous(r), r.kills_lobster_lancer, 1)
}

/// `royal_charm_state` went up since it was last remembered.
pub open spec fn spec_pds_increased_royal_charm_state(v: PlayerDataView, r: &GameReadings) -> (PlayerDataView, bool) {
    let (w, d) = spec_changed_i32_delta(v, "royal_charm_state"@, spec_in_save(r), r.royal_charm_state);
    (w, match d { Some(x) => 0 < x, None => false })
}

/// `charm_slots` went up by exactly one since it was last remembered.
pub open spec fn spec_pds_incremented_charm_slots(v: PlayerDataView, r: &GameReadings) -> (PlayerDataView, bool) {
    let (w, d) = spec_changed_i32_delta(v, "charm_slots"@, spec_in_save(r), r.charm_slots);
    (w, d == Some(1int))
}

/// `dream_orbs` went up by exactly one since it was last remembered.
pub open spec fn spec_pds_incremented_dream_orbs(v: PlayerDataView, r: &GameReadings) -> (PlayerDataView, bool) {
    let (w, d) = spec_changed_i32_delta(v, "dream_orbs"@, spec_in_save(r), r.dream_orbs);
    (w, d == Some(1int))
}

/// `grubs_collected` went up by exactly one since it was last remembered.
pub open spec fn spec_pds_incremented_grubs_collected(v: PlayerDataView, r: &GameReadings) -> (PlayerDataView, bool) {
    let (w, d) = spec_changed_i32_delta(v, "grubs_collected"@, spec_in_save(r), r.grubs_collected);
    (w, d == Some(1int))
}

/// `ore` went up by exactly one since it was last remembered.
pub open spec fn spec_pds_incremented_ore(v: PlayerDataView, r: &GameReadings) -> (PlayerDataView, bool) {
    let (w, d) = spec_changed_i32_delta(v, "ore"@, spec_in_save(r), r.ore);
    (w, d == Some(1int))
}

/// `rancid_eggs` went up by exactly one since it was last remembered.
pub open spec fn spec_pds_incremented_rancid_eggs(v: PlayerDataView, r: &GameReadings) -> (PlayerDataView, bool) {
    let (w, d) = spec_changed_i32_delta(v, "rancid_eggs"@, spec_in_save(r), r.rancid_eggs);
    (w, d == Some(1int))
}

/// `simple_keys` went up by exactly one since it was last remembered.
pub open spec fn spec_pds_incremented_simple_keys(v: PlayerDataView, r: &GameReadings) -> (PlayerDataView, bool) {
    let (w, d) = spec_changed_i32_delta(v, "simple_keys"@, spec_in_save(r), r.simple_keys);
    (w, d == Some(1int))
}

/// `trinket1` went up by exactly one since it was last remembered.
pub open spec fn spec_pds_incremented_trinket1(v: PlayerDataView, r: &GameReadings) -> (PlayerDataView, bool) {
    let (w, d) = spec_changed_i32_delta(v, "trinket1"@, spec_in_save(r), r.trinket1);
    (w, d == Some(1int))
}

/// `trinket2` went up by exactly one since it was last remembered.
pub open spec fn spec_pds_incremented_trinket2(v: PlayerDataView, r: &GameReadings) -> (PlayerDataView, bool) {
    let (w, d) = spec_changed_i32_delta(v, "trinket2"@, spec_in_save(r), r.trinket2);
    (w, d == Some(1int))
}

/// `trinket3` went up by exactly one since it was last remembered.
pub open spec fn spec_pds_incremented_trinket3(v: PlayerDataView, r: &GameReadings) -> (PlayerDataView, bool) {
    let (w, d) = spec_changed_i32_delta(v, "trinket3"@, spec_in_save(r), r.trinket3);
    (w, d == Some(1int))
}

/// `trinket4` went up by exactly one since it was last remembered.
pub open spec fn spec_pds_incremented_trinket4(v: PlayerDataView, r: &GameReadings) -> (PlayerDataView, bool) {
    let (w, d) = spec_changed_i32_delta(v, "trinket4"@, spec_in_save(r), r.trinket4);
    (w, d == Some(1int))
}

/// Whether the wave is cleared: `Some(true)` when the journal kill counts fell since entering the room (oblobble by at least 2); `Some(false)` when a count reached zero first; `None` before either.
pub open spec fn spec_pds_killed_oblobbles(v: PlayerDataView, r: &GameReadings) -> (PlayerDataView, Option<bool>) {
    spec_kills_decreased_by(v, "kills_oblobble_on_entry"@, spec_non_continuous(r), r.kills_oblobble, 2)
}

/// A mask shard was obtained: the base health went up by one, or the heart pieces went up by one to fewer than 4.
pub open spec fn spec_pds_obtained_mask_shard(v: PlayerDataView, r: &GameReadings) -> (PlayerDataView, bool) {
    let (wa, da) = spec_changed_i32_delta(v, "max_health_base"@, spec_in_save(r), r.max_health_base);
    if da == Some(1int) {
        (wa, true)
    } else {
        let (wb, db) = spec_changed_i32_delta(wa, "heart_pieces"@, spec_in_save(r), r.heart_pieces);
        (wb, db == Some(1int) && match lookup(wb.ints, "heart_pieces"@) { Some(s) => s < 4, None => false })
    }
}

/// A vessel fragment was obtained: the soul reserve went up, or the fragments went up by one to fewer than 3.
pub open spec fn spec_pds_obtained_vessel_fragment(v: PlayerDataView, r: &GameReadings) -> (PlayerDataView, bool) {
    let (wa, da) = spec_changed_i32_delta(v, "mp_reserve_max"@, spec_in_save(r), r.mp_reserve_max);
    if match da { Some(x) => 0 < x, None => false } {
        (wa, true)
    } else {
        let (wb, db) = spec_changed_i32_delta(wa, "vessel_fragments"@, spec_in_save(r), r.vessel_fragments);
        (wb, db == Some(1int) && match lookup(wb.ints, "vessel_fragments"@) { Some(s) => s < 3, None => false })
    }
}

/// `soul_limited` changed to `false`.
pub open spec fn spec_pds_shade_killed(v: PlayerDataView, r: &GameReadings) -> (PlayerDataView, bool) {
    let (w, c) = spec_changed_bool(v, "soul_limited"@, spec_in_save(r), r.soul_limited);
    (w, c == Some(false))
}

/// Whether the wave is cleared: `Some(true)` when the journal kill counts fell since entering the room (col_worm by at least 2; col_flying_sentry by at least 3); `Some(false)` when a count reached zero first; `None` before either.
pub open spec fn spec_pds_silver1(v: PlayerDataView, r: &GameReadings) -> (PlayerDataView, Option<bool>) {
    let (p0, _) = spec_kills_on_entry(v, "kills_col_worm_on_entry"@, spec_non_continuous(r), r.kills_col_worm);
    let (p1, _) = spec_kills_on_entry(p0, "kills_col_flying_sentry_on_entry"@, spec_non_continuous(r), r.kills_col_flying_sentry);
    {
        let (k0, o0) = spec_kills_decreased_by(p1, "kills_col_worm_on_entry"@, spec_non_continuous(r), r.kills_col_worm, 2);
        match o0 {
            Some(true) => spec_kills_decreased_by(k0, "kills_col_flying_sentry_on_entry"@, spec_non_continuous(r), r.kills_col_flying_sentry, 3),
            _ => (k0, o0),
        }
    }
}

/// Whether the wave is cleared: `Some(true)` when the journal kill counts fell since entering the room (grub_mimic by at least 1); `Some(false)` when a count reached zero first; `None` before either.
pub open spec fn spec_pds_silver10(v: PlayerDataView, r: &GameReadings) -> (PlayerDataView, Option<bool>) {
    spec_kills_decreased_by(v, "kills_grub_mimic_on_entry"@, spec_non_continuous(r), r.kills_grub_mimic, 1)
}

/// Whether the wave is cleared: `Some(true)` when the journal kill counts fell since entering the room (col_mosquito by at least 9; col_flying_sentry by at least 6; col_worm by at least 4); `Some(false)` when a count reached zero first; `None` before either.
pub open spec fn spec_pds_silver11(v: PlayerDataView, r: &GameReadings) -> (PlayerDataView, Option<bool>) {
    {
        let (k0, o0) = spec_kills_decreased_by(v, "kills_col_mosquito_on_entry"@, spec_non_continuous(r), r.kills_col_mosquito, 9);
        match o0 {
            Some(true) => {
        let (k1, o1) = spec_kills_decreased_by(k0, "kills_col_flying_sentry_on_entry"@, spec_non_continuous(r), r.kills_col_flying_sentry, 6);
        match o1 {
            Some(true) => spec_kills_decreased_by(k1, "kills_col_worm_on_entry"@, spec_non_continuous(r), r.kills_col_worm, 4),
            _ => (k1, o1),
        }
    },
            _ => (k0, o0),
        }
    }
}

/// Whether the wave is cleared: `Some(true)` when the journal kill counts fell since entering the room (col_flying_sentry by at least 7; col_worm by at least 5); `Some(false)` when a count reached zero first; `None` before either.
pub open spec fn spec_pds_silver12(v: PlayerDataView, r: &GameReadings) -> (PlayerDataView, Option<bool>) {
    {
        let (k0, o0) = spec_kills_decreased_by(v, "kills_col_flying_sentry_on_entry"@, spec_non_continuous(r), r.kills_col_flying_sentry, 7);
        match o0 {
            Some(true) => spec_kills_decreased_by(k0, "kills_col_worm_on_entry"@, spec_non_continuous(r), r.kills_col_worm, 5),
            _ => (k0, o0),
        }
    }
}

/// Whether the wave is cleared: `Some(true)` when the journal kill counts fell since entering the room (col_mosquito by at least 12; col_flying_sentry by at least 8); `Some(false)` when a count reached zero first; `None` before either.
pub open spec fn spec_pds_silver13(v: PlayerDataView, r: &GameReadings) -> (PlayerDataView, Option<bool>) {
    {
        let (k0, o0) = spec_kills_decreased_by(v, "kills_col_mosquito_on_entry"@, spec_non_continuous(r), r.kills_col_mosquito, 12);
        match o0 {
            Some(true) => spec_kills_decreased_by(k0, "kills_col_flying_sentry_on_entry"@, spec_non_continuous(r), r.kills_col_flying_sentry, 8),
            _ => (k0, o0),
        }
    }
}

/// Whether the wave is cleared: `Some(true)` when the journal kill counts fell since entering the room (col_mosquito by at least 14; col_flying_sentry by at least 11); `Some(false)` when a count reached zero first; `None` before either.
pub open spec fn spec_pds_silver14(v: PlayerDataView, r: &GameReadings) -> (PlayerDataView, Option<bool>) {
    {
        let (k0, o0) = spec_kills_decreased_by(v, "kills_col_mosquito_on_entry"@, spec_non_continuous(r), r.kills_col_mosquito, 14);
        match o0 {
            Some(true) => spec_kills_decreased_by(k0, "kills_col_flying_sentry_on_entry"@, spec_non_continuous(r), r.kills_col_flying_sentry, 11),
            _ => (k0, o0),
        }
    }
}

/// Whether the wave is cleared: `Some(true)` when the journal kill counts fell since entering the room (blobble by at least 9); `Some(false)` when a count reached zero first; `None` before either.
pub open spec fn spec_pds_silver15(v: PlayerDataView, r: &GameReadings) -> (PlayerDataView, Option<bool>) {
    spec_kills_decreased_by(v, "kills_blobble_on_entry"@, spec_non_continuous(r), r.kills_blobble, 9)
}

/// Whether the wave is cleared: `Some(true)` when the journal kill counts fell since entering the room (blobble by at least 13); `Some(false)` when a count reached zero first; `None` before either.
pub open spec fn spec_pds_silver16(v: PlayerDataView, r: &GameReadings) -> (PlayerDataView, Option<bool>) {
    spec_kills_decreased_by(v, "kills_blobble_on_entry"@, spec_non_continuous(r), r.kills_blobble, 13)
}

/// Whether the wave is cleared: `Some(true)` when the journal kill counts fell since entering the room (col_mosquito by at least 2); `Some(false)` when a count reached zero first; `None` before either.
pub open spec fn spec_pds_silver2(v: PlayerDataView, r: &GameReadings) -> (PlayerDataView, Option<bool>) {
    spec_kills_decreased_by(v, "kills_col_mosquito_on_entry"@, spec_non_continuous(r), r.kills_col_mosquito, 2)
}

/// Whether the wave is cleared: `Some(true)` when the journal kill counts fell since entering the room (col_mosquito by at least 4); `Some(false)` when a count reached zero first; `None` before either.
pub open spec fn spec_pds_silver3(v: PlayerDataView, r: &GameReadings) -> (PlayerDataView, Option<bool>) {
    spec_kills_decreased_by(v, "kills_col_mosquito_on_entry"@, spec_non_continuous(r), r.kills_col_mosquito, 4)
}

/// Whether the wave is cleared: `Some(true)` when the journal kill counts fell since entering the room (col_mosquito by at least 5; col_flying_sentry by at least 4); `Some(false)` when a count reached zero first; `None` before either.
pub open spec fn spec_pds_silver4(v: PlayerDataView, r: &GameReadings) -> (PlayerDataView, Option<bool>) {
    {
        let (k0, o0) = spec_kills_decreased_by(v, "kills_col_mosquito_on_entry"@, spec_non_continuous(r), r.kills_col_mosquito, 5);
        match o0 {
            Some(true) => spec_kills_decreased_by(k0, "kills_col_flying_sentry_on_entry"@, spec_non_continuous(r), r.kills_col_flying_sentry, 4),
            _ => (k0, o0),
        }
    }
}

/// Whether the wave is cleared: `Some(true)` when the journal kill counts fell since entering the room (bursting_bouncer by at least 5; col_mosquito by at least 7; super_spitter by at least 2); `Some(false)` when a count reached zero first; `None` before either.
pub open spec fn spec_pds_silver5(v: PlayerDataView, r: &GameReadings) -> (PlayerDataView, Option<bool>) {
    let (p0, _) = spec_kills_on_entry(v, "kills_super_spitter_on_entry"@, spec_non_continuous(r), r.kills_super_spitter);
    {
        let (k0, o0) = spec_kills_decreased_by(p0, "kills_bursting_bouncer_on_entry"@, spec_non_continuous(r), r.kills_bursting_bouncer, 5);
        match o0 {
            Some(true) => {
        let (k1, o1) = spec_kills_decreased_by(k0, "kills_col_mosquito_on_entry"@, spec_non_continuous(r), r.kills_col_mosquito, 7);
        match o1 {
            Some(true) => spec_kills_decreased_by(k1, "kills_super_spitter_on_entry"@, spec_non_continuous(r), r.kills_super_spitter, 2),
            _ => (k1, o1),
        }
    },
            _ => (k0, o0),
        }
    }
}

/// Whether the wave is cleared: `Some(true)` when the journal kill counts fell since entering the room (col_worm by at least 3; ceiling_dropper by at least 3); `Some(false)` when a count reached zero first; `None` before either.
pub open spec fn spec_pds_silver6(v: PlayerDataView, r: &GameReadings) -> (PlayerDataView, Option<bool>) {
    let (p0, _) = spec_kills_on_entry(v, "kills_ceiling_dropper_on_entry"@, spec_non_continuous(r), r.kills_ceiling_dropper);
    {
        let (k0, o0) = spec_kills_decreased_by(p0, "kills_col_worm_on_entry"@, spec_non_continuous(r), r.kills_col_worm, 3);
        match o0 {
            Some(true) => spec_kills_decreased_by(k0, "kills_ceiling_dropper_on_entry"@, spec_non_continuous(r), r.kills_ceiling_dropper, 3),
            _ => (k0, o0),
        }
    }
}

/// Whether the wave is cleared: `Some(true)` when the journal kill counts fell since entering the room (ceiling_dropper by at least 4); `Some(false)` when a count reached zero first; `None` before either.
pub open spec fn spec_pds_silver7(v: PlayerDataView, r: &GameReadings) -> (PlayerDataView, Option<bool>) {
    spec_kills_decreased_by(v, "kills_ceiling_dropper_on_entry"@, spec_non_continuous(r), r.kills_ceiling_dropper, 4)
}

/// Whether the wave is cleared: `Some(true)` when the journal kill counts fell since entering the room (giant_hopper by at least 1); `Some(false)` when a count reached zero first; `None` before either.
pub open spec fn spec_pds_silver8(v: PlayerDataView, r: &GameReadings) -> (PlayerDataView, Option<bool>) {
    spec_kills_decreased_by(v, "kills_giant_hopper_on_entry"@, spec_non_continuous(r), r.kills_giant_hopper, 1)
}

/// Whether the wave is cleared: `Some(true)` when the journal kill counts fell since entering the room (giant_hopper by at least 2); `Some(false)` when a count reached zero first; `None` before either.
pub open spec fn spec_pds_silver9(v: PlayerDataView, r: &GameReadings) -> (PlayerDataView, Option<bool>) {
    spec_kills_decreased_by(v, "kills_giant_hopper_on_entry"@, spec_non_continuous(r), r.kills_giant_hopper, 2)
}

/// Whether the wave is cleared: `Some(true)` when the journal kill counts fell since entering the room (oblobble by at least 2); `Some(false)` when a count reached zero first; `None` before either.
pub open spec fn spec_pds_silver_end(v: PlayerDataView, r: &GameReadings) -> (PlayerDataView, Option<bool>) {
    spec_kills_decreased_by(v, "kills_oblobble_on_entry"@, spec_non_continuous(r), r.kills_oblobble, 2)
}

/// `ghost_coins` went up by exactly one since it was last remembered.
pub open spec fn spec_pds_incremented_ghost_coins(v: PlayerDataView, r: &GameReadings) -> (PlayerDataView, bool) {
    let (w, d) = spec_changed_i32_delta(v, "ghost_coins"@, spec_in_save(r), r.ghost_coins);
    (w, d == Some(1int))
}

/// `grey_prince_defeats` went up by exactly one since it was last remembered.
pub open spec fn spec_pds_incremented_grey_prince_defeats(v: PlayerDataView, r: &GameReadings) -> (
    PlayerDataView,
    bool,
) {
    let (w, d) = spec_changed_i32_delta(v, "grey_prince_defeats"@, spec_in_save(r), r.grey_prince_defeats);
    (w, d == Some(1int))
}

/// `white_defender_defeats` went up by exactly one since it was last remembered.
pub open spec fn spec_pds_incremented_white_defender_defeats(v: PlayerDataView, r: &GameReadings) -> (
    PlayerDataView,
    bool,
) {
    let (w, d) = spec_changed_i32_delta(v, "white_defender_defeats"@, spec_in_save(r), r.white_defender_defeats);
    (w, d == Some(1int))
}

/// Whether the player can overcharm, as read in a save file or last remembered.
pub open spec fn spec_pds_can_overcharm(v: PlayerDataView, r: &GameReadings) -> (PlayerDataView, bool) {
    spec_flag(v, "can_overcharm"@, spec_in_save(r), r.can_overcharm)
}

/// The Traitor Lord has been dead for at least a tick.
pub open spec fn spec_pds_traitor_lord_been_dead_for_a_tick(v: PlayerDataView, r: &GameReadings) -> (
    PlayerDataView,
    bool,
) {
    spec_been_dead_for_a_tick(v, "killed_traitor_lord"@, spec_non_continuous(r), r.killed_traitor_lord)
}

/// The Hive Knight does not exist in this version of the game, or has been
/// dead for at least a tick.
pub open spec fn spec_pds_hive_knight_been_dead_for_a_tick(v: PlayerDataView, r: &GameReadings) -> (
    PlayerDataView,
    bool,
) {
    if spec_hive_knight_doesnt_exist(r.version) {
        (v, true)
    } else {
        spec_been_dead_for_a_tick(v, "killed_hive_knight"@, spec_non_continuous(r), r.killed_hive_knight)
    }
}

/// The Shrumal Ogres of the arena are beaten: two killed since entering the room.
pub open spec fn spec_pds_mushroom_brawler_arena(v: PlayerDataView, r: &GameReadings) -> (
    PlayerDataView,
    Option<bool>,
) {
    spec_kills_decreased_by(
        v,
        "kills_mushroom_brawler_on_entry"@,
        spec_non_continuous(r),
        r.kills_mushroom_brawler,
        2,
    )
}

impl PlayerDataStore {
    /// `ghost_coins` went up by exactly one since it was last remembered.
    pub fn incremented_ghost_coins(&mut self, r: &GameReadings) -> (b: bool)
        requires
            old(self).wf(),
        ensures
            final(self).wf(),
            (final(self)@, b) == spec_pds_incremented_ghost_coins(old(self)@, r),
    {
        self.incremented_i32("ghost_coins", r.in_save(), r.ghost_coins)
    }

    /// `grey_prince_defeats` went up by exactly one since it was last remembered.
    pub fn incremented_grey_prince_defeats(&mut self, r: &GameReadings) -> (b: bool)
        requires
            old(self).wf(),
        ensures
            final(self).wf(),
            (final(self)@, b) == spec_pds_incremented_grey_prince_defeats(old(self)@, r),
    {
        self.incremented_i32("grey_prince_defeats", r.in_save(), r.grey_prince_defeats)
    }

    /// `white_defender_defeats` went up by exactly one since it was last remembered.
    pub fn incremented_white_defender_defeats(&mut self, r: &GameReadings) -> (b: bool)
        requires
            old(self).wf(),
        ensures
            final(self).wf(),
            (final(self)@, b) == spec_pds_incremented_white_defender_defeats(old(self)@, r),
    {
        self.incremented_i32("white_defender_defeats", r.in_save(), r.white_defender_defeats)
    }

    /// Whether the player can overcharm, as read in a save file or last remembered.
    pub fn can_overcharm(&mut self, r: &GameReadings) -> (b: bool)
        requires
            old(self).wf(),
        ensures
            final(self).wf(),
            (final(self)@, b) == spec_pds_can_overcharm(old(self)@, r),
    {
        match self.get_bool("can_overcharm", r.in_save(), r.can_overcharm) {
            Some(b) => b,
            None => false,
        }
    }

    /// The Traitor Lord has been dead for at least a tick.
    pub fn traitor_lord_been_dead_for_a_tick(&mut self, r: &GameReadings) -> (b: bool)
        requires
            old(self).wf(),
        ensures
            final(self).wf(),
            (final(self)@, b) == spec_pds_traitor_lord_been_dead_for_a_tick(old(self)@, r),
    {
        self.been_dead_for_a_tick("killed_traitor_lord", r.non_continuous(), r.killed_traitor_lord)
    }

    /// The Hive Knight does not exist in this version of the game, or has been
    /// dead for at least a tick.
    pub fn hive_knight_been_dead_for_a_tick(&mut self, r: &GameReadings) -> (b: bool)
        requires
            old(self).wf(),
        ensures
            final(self).wf(),
            (final(self)@, b) == spec_pds_hive_knight_been_dead_for_a_tick(old(self)@, r),
    {
        hive_knight_doesnt_exist(&r.version) || self.been_dead_for_a_tick(
            "killed_hive_knight",
            r.non_continuous(),
            r.killed_hive_knight,
        )
    }

    /// The Shrumal Ogres of the arena are beaten: `Some(true)` when two were
    /// killed since entering the room, `Some(false)` when the count reached
    /// zero first, `None` before either.
    pub fn mushroom_brawler_arena(&mut self, r: &GameReadings) -> (b: Option<bool>)
        requires
            old(self).wf(),
        ensures
            final(self).wf(),
            (final(self)@, b) == spec_pds_mushroom_brawler_arena(old(self)@, r),
    {
        self.kills_decreased_by("kills_mushroom_brawler_on_entry", r.non_continuous(), r.kills_mushroom_brawler, 2)
    }

    /// Whether the wave is cleared: `Some(true)` when the journal kill counts fell since entering the room (spitter by at least 3); `Some(false)` when a count reached zero first; `None` before either.
    pub fn aspid_hunter_arena(&mut self, r: &GameReadings) -> (b: Option<bool>)
        requires
            old(self).wf(),
        ensures
            final(self).wf(),
            (final(self)@, b) == spec_pds_aspid_hunter_arena(old(self)@, r),
    {
        self.kills_decreased_by("kills_spitter_on_entry", r.non_continuous(), r.kills_spitter, 3)
    }

    /// Whether the wave is cleared: `Some(true)` when the journal kill counts fell since entering the room (col_roller by at least 13); `Some(false)` when a count reached zero first; `None` before either.
    pub fn bronze10(&mut self, r: &GameReadings) -> (b: Option<bool>)
        requires
            old(self).wf(),
        ensures
            final(self).wf(),
            (final(self)@, b) == spec_pds_bronze10(old(self)@, r),
    {
        self.kills_decreased_by("kills_col_roller_on_entry", r.non_continuous(), r.kills_col_roller, 13)
    }

    /// Whether the wave is cleared: `Some(true)` when the journal kill counts fell since entering the room (bursting_bouncer by at least 2); `Some(false)` when a count reached zero first; `None` before either.
    pub fn bronze11a(&mut self, r: &GameReadings) -> (b: Option<bool>)
        requires
            old(self).wf(),
        ensures
            final(self).wf(),
            (final(self)@, b) == spec_pds_bronze11a(old(self)@, r),
    {
        self.kills_decreased_by("kills_bursting_bouncer_on_entry", r.non_continuous(), r.kills_bursting_bouncer, 2)
    }

    /// Whether the wave is cleared: `Some(true)` when the journal kill counts fell since entering the room (bursting_bouncer by at least 5); `Some(false)` when a count reached zero first; `None` before either.
    pub fn bronze11b(&mut self, r: &GameReadings) -> (b: Option<bool>)
        requires
            old(self).wf(),
        ensures
            final(self).wf(),
            (final(self)@, b) == spec_pds_bronze11b(old(self)@, r),
    {
        self.kills_decreased_by("kills_bursting_bouncer_on_entry", r.non_continuous(), r.kills_bursting_bouncer, 5)
    }

    /// Whether the wave is cleared: `Some(true)` when the journal kill counts fell since entering the room (col_shield by at least 1); `Some(false)` when a count reached zero first; `None` before either.
    pub fn bronze1a(&mut self, r: &GameReadings) -> (b: Option<bool>)
        requires
            old(self).wf(),
        ensures
            final(self).wf(),
            (final(self)@, b) == spec_pds_bronze1a(old(self)@, r),
    {
        self.kills_decreased_by("kills_col_shield_on_entry", r.non_continuous(), r.kills_col_shield, 1)
    }

    /// Whether the wave is cleared: `Some(true)` when the journal kill counts fell since entering the room (col_shield by at least 3); `Some(false)` when a count reached zero first; `None` before either.
    pub fn bronze1b(&mut self, r: &GameReadings) -> (b: Option<bool>)
        requires
            old(self).wf(),
        ensures
            final(self).wf(),
            (final(self)@, b) == spec_pds_bronze1b(old(self)@, r),
    {
        self.kills_decreased_by("kills_col_shield_on_entry", r.non_continuous(), r.kills_col_shield, 3)
    }

    /// Whether the wave is cleared: `Some(true)` when the journal kill counts fell since entering the room (col_roller by at least 2); `Some(false)` when a count reached zero first; `None` before either.
    pub fn bronze1c(&mut self, r: &GameReadings) -> (b: Option<bool>)
        requires
            old(self).wf(),
        ensures
            final(self).wf(),
            (final(self)@, b) == spec_pds_bronze1c(old(self)@, r),
    {
        self.kills_decreased_by("kills_col_roller_on_entry", r.non_continuous(), r.kills_col_roller, 2)
    }

    /// Whether the wave is cleared: `Some(true)` when the journal kill counts fell since entering the room (col_roller by at least 7); `Some(false)` when a count reached zero first; `None` before either.
    pub fn bronze2(&mut self, r: &GameReadings) -> (b: Option<bool>)
        requires
            old(self).wf(),
        ensures
            final(self).wf(),
            (final(self)@, b) == spec_pds_bronze2(old(self)@, r),
    {
        self.kills_decreased_by("kills_col_roller_on_entry", r.non_continuous(), r.kills_col_roller, 7)
    }

    /// Whether the wave is cleared: `Some(true)` when the journal kill counts fell since entering the room (col_miner by at least 1); `Some(false)` when a count reached zero first; `None` before either.
    pub fn bronze3a(&mut self, r: &GameReadings) -> (b: Option<bool>)
        requires
            old(self).wf(),
        ensures
            final(self).wf(),
            (final(self)@, b) == spec_pds_bronze3a(old(self)@, r),
    {
        self.kills_decreased_by("kills_col_miner_on_entry", r.non_continuous(), r.kills_col_miner, 1)
    }

    /// Whether the wave is cleared: `Some(true)` when the journal kill counts fell since entering the room (col_miner by at least 3); `Some(false)` when a count reached zero first; `None` before either.
    pub fn bronze3b(&mut self, r: &GameReadings) -> (b: Option<bool>)
        requires
            old(self).wf(),
        ensures
            final(self).wf(),
            (final(self)@, b) == spec_pds_bronze3b(old(self)@, r),
    {
        self.kills_decreased_by("kills_col_miner_on_entry", r.non_continuous(), r.kills_col_miner, 3)
    }

    /// Whether the wave is cleared: `Some(true)` when the journal kill counts fell since entering the room (spitter by at least 2); `Some(false)` when a count reached zero first; `None` before either.
    pub fn bronze4(&mut self, r: &GameReadings) -> (b: Option<bool>)
        requires
            old(self).wf(),
        ensures
            final(self).wf(),
            (final(self)@, b) == spec_pds_bronze4(old(self)@, r),
    {
        self.kills_decreased_by("kills_spitter_on_entry", r.non_continuous(), r.kills_spitter, 2)
    }

    /// Whether the wave is cleared: `Some(true)` when the journal kill counts fell since entering the room (spitter by at least 4); `Some(false)` when a count reached zero first; `None` before either.
    pub fn bronze5(&mut self, r: &GameReadings) -> (b: Option<bool>)
        requires
            old(self).wf(),
        ensures
            final(self).wf(),
            (final(self)@, b) == spec_pds_bronze5(old(self)@, r),
    {
        self.kills_decreased_by("kills_spitter_on_entry", r.non_continuous(), r.kills_spitter, 4)
    }

    /// Whether the wave is cleared: `Some(true)` when the journal kill counts fell since entering the room (col_miner by at least 6); `Some(false)` when a count reached zero first; `None` before either.
    pub fn bronze6(&mut self, r: &GameReadings) -> (b: Option<bool>)
        requires
            old(self).wf(),
        ensures
            final(self).wf(),
            (final(self)@, b) == spec_pds_bronze6(old(self)@, r),
    {
        self.kills_decreased_by("kills_col_miner_on_entry", r.non_continuous(), r.kills_col_miner, 6)
    }

    /// Whether the wave is cleared: `Some(true)` when the journal kill counts fell since entering the room (spitter by at least 6; col_roller by at least 9); `Some(false)` when a count reached zero first; `None` before either.
    pub fn bronze7(&mut self, r: &GameReadings) -> (b: Option<bool>)
        requires
            old(self).wf(),
        ensures
            final(self).wf(),
            (final(self)@, b) == spec_pds_bronze7(old(self)@, r),
    {
        match self.kills_decreased_by("kills_spitter_on_entry", r.non_continuous(), r.kills_spitter, 6) {
            Some(true) => {},
            o => return o,
        }
        self.kills_decreased_by("kills_col_roller_on_entry", r.non_continuous(), r.kills_col_roller, 9)
    }

    /// Whether the wave is cleared: `Some(true)` when the journal kill counts fell since entering the room (buzzer by at least 4); `Some(false)` when a count reached zero first; `None` before either.
    pub fn bronze8a(&mut self, r: &GameReadings) -> (b: Option<bool>)
        requires
            old(self).wf(),
        ensures
            final(self).wf(),
            (final(self)@, b) == spec_pds_bronze8a(old(self)@, r),
    {
        self.kills_decreased_by("kills_buzzer_on_entry", r.non_continuous(), r.kills_buzzer, 4)
    }

    /// Whether the wave is cleared: `Some(true)` when the journal kill counts fell since entering the room (big_buzzer by at least 1); `Some(false)` when a count reached zero first; `None` before either.
    pub fn bronze8b(&mut self, r: &GameReadings) -> (b: Option<bool>)
        requires
            old(self).wf(),
        ensures
            final(self).wf(),
            (final(self)@, b) == spec_pds_bronze8b(old(self)@, r),
    {
        self.kills_decreased_by("kills_big_buzzer_on_entry", r.non_continuous(), r.kills_big_buzzer, 1)
    }

    /// Whether the wave is cleared: `Some(true)` when the journal kill counts fell since entering the room (spitter by at least 8; col_roller by at least 10; col_miner by at least 9; col_shield by at least 5); `Some(false)` when a count reached zero first; `None` before either.
    pub fn bronze9(&mut self, r: &GameReadings) -> (b: Option<bool>)
        requires
            old(self).wf(),
        ensures
            final(self).wf(),
            (final(self)@, b) == spec_pds_bronze9(old(self)@, r),
    {
        match self.kills_decreased_by("kills_spitter_on_entry", r.non_continuous(), r.kills_spitter, 8) {
            Some(true) => {},
            o => return o,
        }
        match self.kills_decreased_by("kills_col_roller_on_entry", r.non_continuous(), r.kills_col_roller, 10) {
            Some(true) => {},
            o => return o,
        }
        match self.kills_decreased_by("kills_col_miner_on_entry", r.non_continuous(), r.kills_col_miner, 9) {
            Some(true) => {},
            o => return o,
        }
        self.kills_decreased_by("kills_col_shield_on_entry", r.non_continuous(), r.kills_col_shield, 5)
    }

    /// Whether the wave is cleared: `Some(true)` when the journal kill counts fell since entering the room (big_fly by at least 2); `Some(false)` when a count reached zero first; `None` before either.
    pub fn bronze_end(&mut self, r: &GameReadings) -> (b: Option<bool>)
        requires
            old(self).wf(),
        ensures
            final(self).wf(),
            (final(self)@, b) == spec_pds_bronze_end(old(self)@, r),
    {
        self.kills_decreased_by("kills_big_fly_on_entry", r.non_continuous(), r.kills_big_fly, 2)
    }

    /// `stag_position` changed.
    pub fn changed_stag_position(&mut self, r: &GameReadings) -> (b: bool)
        requires
            old(self).wf(),
        ensures
            final(self).wf(),
            (final(self)@, b) == spec_pds_changed_stag_position(old(self)@, r),
    {
        match self.changed_i32_delta("stag_position", r.in_save(), r.stag_position) {
            Some(x) => x != 0,
            None => false,
        }
    }

    /// `travelling` changed to `true`.
    pub fn changed_travelling_true(&mut self, r: &GameReadings) -> (b: bool)
        requires
            old(self).wf(),
        ensures
            final(self).wf(),
            (final(self)@, b) == spec_pds_changed_travelling_true(old(self)@, r),
    {
        self.changed_bool("travelling", r.in_save(), r.travelling) == Some(true)
    }

    /// `kills_zombie_miner` went down by exactly one since it was last remembered.
    pub fn decremented_kills_zombie_miner(&mut self, r: &GameReadings) -> (b: bool)
        requires
            old(self).wf(),
        ensures
            final(self).wf(),
            (final(self)@, b) == spec_pds_decremented_kills_zombie_miner(old(self)@, r),
    {
        self.decremented_i32("kills_zombie_miner", r.in_save(), r.kills_zombie_miner)
    }

    /// `simple_keys` went down by exactly one since it was last remembered.
    pub fn decremented_simple_keys(&mut self, r: &GameReadings) -> (b: bool)
        requires
            old(self).wf(),
        ensures
            final(self).wf(),
            (final(self)@, b) == spec_pds_decremented_simple_keys(old(self)@, r),
    {
        self.decremented_i32("simple_keys", r.in_save(), r.simple_keys)
    }

    /// Whether the wave is cleared: `Some(true)` when the journal kill counts fell since entering the room (col_worm by at least 1; col_miner by at least 1; col_shield by at least 2; spitter by at least 1; col_flying_sentry by at least 2; col_roller by at least 2); `Some(false)` when a count reached zero first; `None` before either.
    pub fn gold1(&mut self, r: &GameReadings) -> (b: Option<bool>)
        requires
            old(self).wf(),
        ensures
            final(self).wf(),
            (final(self)@, b) == spec_pds_gold1(old(self)@, r),
    {
        self.kills_on_entry("kills_col_worm_on_entry", r.non_continuous(), r.kills_col_worm);
        self.kills_on_entry("kills_col_miner_on_entry", r.non_continuous(), r.kills_col_miner);
        self.kills_on_entry("kills_col_mosquito_on_entry", r.non_continuous(), r.kills_col_mosquito);
        self.kills_on_entry("kills_col_shield_on_entry", r.non_continuous(), r.kills_col_shield);
        self.kills_on_entry("kills_spitter_on_entry", r.non_continuous(), r.kills_spitter);
        self.kills_on_entry("kills_col_flying_sentry_on_entry", r.non_continuous(), r.kills_col_flying_sentry);
        self.kills_on_entry("kills_col_roller_on_entry", r.non_continuous(), r.kills_col_roller);
        match self.kills_decreased_by("kills_col_worm_on_entry", r.non_continuous(), r.kills_col_worm, 1) {
            Some(true) => {},
            o => return o,
        }
        match self.kills_decreased_by("kills_col_miner_on_entry", r.non_continuous(), r.kills_col_miner, 1) {
            Some(true) => {},
            o => return o,
        }
        match self.kills_decreased_by("kills_col_shield_on_entry", r.non_continuous(), r.kills_col_shield, 2) {
            Some(true) => {},
            o => return o,
        }
        match self.kills_decreased_by("kills_spitter_on_entry", r.non_continuous(), r.kills_spitter, 1) {
            Some(true) => {},
            o => return o,
        }
        match self.kills_decreased_by("kills_col_flying_sentry_on_entry", r.non_continuous(), r.kills_col_flying_sentry, 2) {
            Some(true) => {},
            o => return o,
        }
        self.kills_decreased_by("kills_col_roller_on_entry", r.non_continuous(), r.kills_col_roller, 2)
    }

    /// Whether the wave is cleared: `Some(true)` when the journal kill counts fell since entering the room (electric_mage by at least 3; mage by at least 4); `Some(false)` when a count reached zero first; `None` before either.
    pub fn gold10(&mut self, r: &GameReadings) -> (b: Option<bool>)
        requires
            old(self).wf(),
        ensures
            final(self).wf(),
            (final(self)@, b) == spec_pds_gold10(old(self)@, r),
    {
        self.kills_on_entry("kills_electric_mage_on_entry", r.non_continuous(), r.kills_electric_mage);
        self.kills_on_entry("kills_mage_on_entry", r.non_continuous(), r.kills_mage);
        match self.kills_decreased_by("kills_electric_mage_on_entry", r.non_continuous(), r.kills_electric_mage, 3) {
            Some(true) => {},
            o => return o,
        }
        self.kills_decreased_by("kills_mage_on_entry", r.non_continuous(), r.kills_mage, 4)
    }

    /// Whether the wave is cleared: `Some(true)` when the journal kill counts fell since entering the room (mage_knight by at least 2; mage by at least 5); `Some(false)` when a count reached zero first; `None` before either.
    pub fn gold11(&mut self, r: &GameReadings) -> (b: Option<bool>)
        requires
            old(self).wf(),
        ensures
            final(self).wf(),
            (final(self)@, b) == spec_pds_gold11(old(self)@, r),
    {
        match self.kills_decreased_by("kills_mage_knight_on_entry", r.non_continuous(), r.kills_mage_knight, 2) {
            Some(true) => {},
            o => return o,
        }
        self.kills_decreased_by("kills_mage_on_entry", r.non_continuous(), r.kills_mage, 5)
    }

    /// Whether the wave is cleared: `Some(true)` when the journal kill counts fell since entering the room (col_flying_sentry by at least 7; col_miner by at least 4; lesser_mawlek by at least 4); `Some(false)` when a count reached zero first; `None` before either.
    pub fn gold12a(&mut self, r: &GameReadings) -> (b: Option<bool>)
        requires
            old(self).wf(),
        ensures
            final(self).wf(),
            (final(self)@, b) == spec_pds_gold12a(old(self)@, r),
    {
        self.kills_on_entry("kills_lesser_mawlek_on_entry", r.non_continuous(), r.kills_lesser_mawlek);
        match self.kills_decreased_by("kills_col_flying_sentry_on_entry", r.non_continuous(), r.kills_col_flying_sentry, 7) {
            Some(true) => {},
            o => return o,
        }
        match self.kills_decreased_by("kills_col_miner_on_entry", r.non_continuous(), r.kills_col_miner, 4) {
            Some(true) => {},
            o => return o,
        }
        self.kills_decreased_by("kills_lesser_mawlek_on_entry", r.non_continuous(), r.kills_lesser_mawlek, 4)
    }

    /// Whether the wave is cleared: `Some(true)` when the journal kill counts fell since entering the room (mawlek by at least 1); `Some(false)` when a count reached zero first; `None` before either.
    pub fn gold12b(&mut self, r: &GameReadings) -> (b: Option<bool>)
        requires
            old(self).wf(),
        ensures
            final(self).wf(),
            (final(self)@, b) == spec_pds_gold12b(old(self)@, r),
    {
        self.kills_decreased_by("kills_mawlek_on_entry", r.non_continuous(), r.kills_mawlek, 1)
    }

    /// Whether the wave is cleared: `Some(true)` when the journal kill counts fell since entering the room (col_mosquito by at least 10; spitter by at least 7; mantis_heavy_flyer by at least 5); `Some(false)` when a count reached zero first; `None` before either.
    pub fn gold14a(&mut self, r: &GameReadings) -> (b: Option<bool>)
        requires
            old(self).wf(),
        ensures
            final(self).wf(),
            (final(self)@, b) == spec_pds_gold14a(old(self)@, r),
    {
        match self.kills_decreased_by("kills_col_mosquito_on_entry", r.non_continuous(), r.kills_col_mosquito, 10) {
            Some(true) => {},
            o => return o,
        }
        match self.kills_decreased_by("kills_spitter_on_entry", r.non_continuous(), r.kills_spitter, 7) {
            Some(true) => {},
            o => return o,
        }
        self.kills_decreased_by("kills_mantis_heavy_flyer_on_entry", r.non_continuous(), r.kills_mantis_heavy_flyer, 5)
    }

    /// Whether the wave is cleared: `Some(true)` when the journal kill counts fell since entering the room (col_flying_sentry by at least 10; blobble by at least 7); `Some(false)` when a count reached zero first; `None` before either.
    pub fn gold14b(&mut self, r: &GameReadings) -> (b: Option<bool>)
        requires
            old(self).wf(),
        ensures
            final(self).wf(),
            (final(self)@, b) == spec_pds_gold14b(old(self)@, r),
    {
        match self.kills_decreased_by("kills_col_flying_sentry_on_entry", r.non_continuous(), r.kills_col_flying_sentry, 10) {
            Some(true) => {},
            o => return o,
        }
        self.kills_decreased_by("kills_blobble_on_entry", r.non_continuous(), r.kills_blobble, 7)
    }

    /// Whether the wave is cleared: `Some(true)` when the journal kill counts fell since entering the room (col_mosquito by at least 12); `Some(false)` when a count reached zero first; `None` before either.
    pub fn gold15(&mut self, r: &GameReadings) -> (b: Option<bool>)
        requires
            old(self).wf(),
        ensures
            final(self).wf(),
            (final(self)@, b) == spec_pds_gold15(old(self)@, r),
    {
        self.kills_decreased_by("kills_col_mosquito_on_entry", r.non_continuous(), r.kills_col_mosquito, 12)
    }

    /// Whether the wave is cleared: `Some(true)` when the journal kill counts fell since entering the room (col_hopper by at least 25); `Some(false)` when a count reached zero first; `None` before either.
    pub fn gold16(&mut self, r: &GameReadings) -> (b: Option<bool>)
        requires
            old(self).wf(),
        ensures
            final(self).wf(),
            (final(self)@, b) == spec_pds_gold16(old(self)@, r),
    {
        self.kills_decreased_by("kills_col_hopper_on_entry", r.non_continuous(), r.kills_col_hopper, 25)
    }

    /// Whether the wave is cleared: `Some(true)` when the journal kill counts fell since entering the room (col_worm by at least 6; col_miner by at least 5; col_shield by at least 4; mantis_heavy_flyer by at least 6; heavy_mantis by at least 3; col_flying_sentry by at least 11); `Some(false)` when a count reached zero first; `None` before either.
    pub fn gold17a(&mut self, r: &GameReadings) -> (b: Option<bool>)
        requires
            old(self).wf(),
        ensures
            final(self).wf(),
            (final(self)@, b) == spec_pds_gold17a(old(self)@, r),
    {
        match self.kills_decreased_by("kills_col_worm_on_entry", r.non_continuous(), r.kills_col_worm, 6) {
            Some(true) => {},
            o => return o,
        }
        match self.kills_decreased_by("kills_col_miner_on_entry", r.non_continuous(), r.kills_col_miner, 5) {
            Some(true) => {},
            o => return o,
        }
        match self.kills_decreased_by("kills_col_shield_on_entry", r.non_continuous(), r.kills_col_shield, 4) {
            Some(true) => {},
            o => return o,
        }
        match self.kills_decreased_by("kills_mantis_heavy_flyer_on_entry", r.non_continuous(), r.kills_mantis_heavy_flyer, 6) {
            Some(true) => {},
            o => return o,
        }
        match self.kills_decreased_by("kills_heavy_mantis_on_entry", r.non_continuous(), r.kills_heavy_mantis, 3) {
            Some(true) => {},
            o => return o,
        }
        self.kills_decreased_by("kills_col_flying_sentry_on_entry", r.non_continuous(), r.kills_col_flying_sentry, 11)
    }

    /// Whether the wave is cleared: `Some(true)` when the journal kill counts fell since entering the room (col_worm by at least 7; col_shield by at least 5; mage by at least 6; electric_mage by at least 4); `Some(false)` when a count reached zero first; `None` before either.
    pub fn gold17b(&mut self, r: &GameReadings) -> (b: Option<bool>)
        requires
            old(self).wf(),
        ensures
            final(self).wf(),
            (final(self)@, b) == spec_pds_gold17b(old(self)@, r),
    {
        match self.kills_decreased_by("kills_col_worm_on_entry", r.non_continuous(), r.kills_col_worm, 7) {
            Some(true) => {},
            o => return o,
        }
        match self.kills_decreased_by("kills_col_shield_on_entry", r.non_continuous(), r.kills_col_shield, 5) {
            Some(true) => {},
            o => return o,
        }
        match self.kills_decreased_by("kills_mage_on_entry", r.non_continuous(), r.kills_mage, 6) {
            Some(true) => {},
            o => return o,
        }
        self.kills_decreased_by("kills_electric_mage_on_entry", r.non_continuous(), r.kills_electric_mage, 4)
    }

    /// Whether the wave is cleared: `Some(true)` when the journal kill counts fell since entering the room (col_roller by at least 4; col_worm by at least 8; col_shield by at least 6; col_miner by at least 6; col_flying_sentry by at least 12); `Some(false)` when a count reached zero first; `None` before either.
    pub fn gold17c(&mut self, r: &GameReadings) -> (b: Option<bool>)
        requires
            old(self).wf(),
        ensures
            final(self).wf(),
            (final(self)@, b) == spec_pds_gold17c(old(self)@, r),
    {
        match self.kills_decreased_by("kills_col_roller_on_entry", r.non_continuous(), r.kills_col_roller, 4) {
            Some(true) => {},
            o => return o,
        }
        match self.kills_decreased_by("kills_col_worm_on_entry", r.non_continuous(), r.kills_col_worm, 8) {
            Some(true) => {},
            o => return o,
        }
        match self.kills_decreased_by("kills_col_shield_on_entry", r.non_continuous(), r.kills_col_shield, 6) {
            Some(true) => {},
            o => return o,
        }
        match self.kills_decreased_by("kills_col_miner_on_entry", r.non_continuous(), r.kills_col_miner, 6) {
            Some(true) => {},
            o => return o,
        }
        self.kills_decreased_by("kills_col_flying_sentry_on_entry", r.non_continuous(), r.kills_col_flying_sentry, 12)
    }

    /// Whether the wave is cleared: `Some(true)` when the journal kill counts fell since entering the room (col_flying_sentry by at least 3; angry_buzzer by at least 2); `Some(false)` when a count reached zero first; `None` before either.
    pub fn gold3(&mut self, r: &GameReadings) -> (b: Option<bool>)
        requires
            old(self).wf(),
        ensures
            final(self).wf(),
            (final(self)@, b) == spec_pds_gold3(old(self)@, r),
    {
        self.kills_on_entry("kills_blobble_on_entry", r.non_continuous(), r.kills_blobble);
        self.kills_on_entry("kills_angry_buzzer_on_entry", r.non_continuous(), r.kills_angry_buzzer);
        match self.kills_decreased_by("kills_col_flying_sentry_on_entry", r.non_continuous(), r.kills_col_flying_sentry, 3) {
            Some(true) => {},
            o => return o,
        }
        self.kills_decreased_by("kills_angry_buzzer_on_entry", r.non_continuous(), r.kills_angry_buzzer, 2)
    }

    /// Whether the wave is cleared: `Some(true)` when the journal kill counts fell since entering the room (col_worm by at least 3; ceiling_dropper by at least 6); `Some(false)` when a count reached zero first; `None` before either.
    pub fn gold4(&mut self, r: &GameReadings) -> (b: Option<bool>)
        requires
            old(self).wf(),
        ensures
            final(self).wf(),
            (final(self)@, b) == spec_pds_gold4(old(self)@, r),
    {
        self.kills_on_entry("kills_ceiling_dropper_on_entry", r.non_continuous(), r.kills_ceiling_dropper);
        match self.kills_decreased_by("kills_col_worm_on_entry", r.non_continuous(), r.kills_col_worm, 3) {
            Some(true) => {},
            o => return o,
        }
        self.kills_decreased_by("kills_ceiling_dropper_on_entry", r.non_continuous(), r.kills_ceiling_dropper, 6)
    }

    /// Whether the wave is cleared: `Some(true)` when the journal kill counts fell since entering the room (col_hopper by at least 3); `Some(false)` when a count reached zero first; `None` before either.
    pub fn gold5(&mut self, r: &GameReadings) -> (b: Option<bool>)
        requires
            old(self).wf(),
        ensures
            final(self).wf(),
            (final(self)@, b) == spec_pds_gold5(old(self)@, r),
    {
        self.kills_decreased_by("kills_col_hopper_on_entry", r.non_continuous(), r.kills_col_hopper, 3)
    }

    /// Whether the wave is cleared: `Some(true)` when the journal kill counts fell since entering the room (col_hopper by at least 8); `Some(false)` when a count reached zero first; `None` before either.
    pub fn gold6(&mut self, r: &GameReadings) -> (b: Option<bool>)
        requires
            old(self).wf(),
        ensures
            final(self).wf(),
            (final(self)@, b) == spec_pds_gold6(old(self)@, r),
    {
        self.kills_decreased_by("kills_col_hopper_on_entry", r.non_continuous(), r.kills_col_hopper, 8)
    }

    /// Whether the wave is cleared: `Some(true)` when the journal kill counts fell since entering the room (col_hopper by at least 11); `Some(false)` when a count reached zero first; `None` before either.
    pub fn gold7(&mut self, r: &GameReadings) -> (b: Option<bool>)
        requires
            old(self).wf(),
        ensures
            final(self).wf(),
            (final(self)@, b) == spec_pds_gold7(old(self)@, r),
    {
        self.kills_decreased_by("kills_col_hopper_on_entry", r.non_continuous(), r.kills_col_hopper, 11)
    }

    /// Whether the wave is cleared: `Some(true)` when the journal kill counts fell since entering the room (col_mosquito by at least 6; col_flying_sentry by at least 5); `Some(false)` when a count reached zero first; `None` before either.
    pub fn gold8(&mut self, r: &GameReadings) -> (b: Option<bool>)
        requires
            old(self).wf(),
        ensures
            final(self).wf(),
            (final(self)@, b) == spec_pds_gold8(old(self)@, r),
    {
        match self.kills_decreased_by("kills_col_mosquito_on_entry", r.non_continuous(), r.kills_col_mosquito, 6) {
            Some(true) => {},
            o => return o,
        }
        self.kills_decreased_by("kills_col_flying_sentry_on_entry", r.non_continuous(), r.kills_col_flying_sentry, 5)
    }

    /// Whether the wave is cleared: `Some(true)` when the journal kill counts fell since entering the room (col_mosquito by at least 4; spitter by at least 5; col_flying_sentry by at least 4); `Some(false)` when a count reached zero first; `None` before either.
    pub fn gold8a(&mut self, r: &GameReadings) -> (b: Option<bool>)
        requires
            old(self).wf(),
        ensures
            final(self).wf(),
            (final(self)@, b) == spec_pds_gold8a(old(self)@, r),
    {
        match self.kills_decreased_by("kills_col_mosquito_on_entry", r.non_continuous(), r.kills_col_mosquito, 4) {
            Some(true) => {},
            o => return o,
        }
        match self.kills_decreased_by("kills_spitter_on_entry", r.non_continuous(), r.kills_spitter, 5) {
            Some(true) => {},
            o => return o,
        }
        self.kills_decreased_by("kills_col_flying_sentry_on_entry", r.non_continuous(), r.kills_col_flying_sentry, 4)
    }

    /// Whether the wave is cleared: `Some(true)` when the journal kill counts fell since entering the room (col_shield by at least 3; col_worm by at least 5; spitter by at least 6; heavy_mantis by at least 2; mantis_heavy_flyer by at least 4); `Some(false)` when a count reached zero first; `None` before either.
    pub fn gold9a(&mut self, r: &GameReadings) -> (b: Option<bool>)
        requires
            old(self).wf(),
        ensures
            final(self).wf(),
            (final(self)@, b) == spec_pds_gold9a(old(self)@, r),
    {
        self.kills_on_entry("kills_heavy_mantis_on_entry", r.non_continuous(), r.kills_heavy_mantis);
        self.kills_on_entry("kills_mantis_heavy_flyer_on_entry", r.non_continuous(), r.kills_mantis_heavy_flyer);
        match self.kills_decreased_by("kills_col_shield_on_entry", r.non_continuous(), r.kills_col_shield, 3) {
            Some(true) => {},
            o => return o,
        }
        match self.kills_decreased_by("kills_col_worm_on_entry", r.non_continuous(), r.kills_col_worm, 5) {
            Some(true) => {},
            o => return o,
        }
        match self.kills_decreased_by("kills_spitter_on_entry", r.non_continuous(), r.kills_spitter, 6) {
            Some(true) => {},
            o => return o,
        }
        match self.kills_decreased_by("kills_heavy_mantis_on_entry", r.non_continuous(), r.kills_heavy_mantis, 2) {
            Some(true) => {},
            o => return o,
        }
        self.kills_decreased_by("kills_mantis_heavy_flyer_on_entry", r.non_continuous(), r.kills_mantis_heavy_flyer, 4)
    }

    /// Whether the wave is cleared: `Some(true)` when the journal kill counts fell since entering the room (mage_knight by at least 1); `Some(false)` when a count reached zero first; `None` before either.
    pub fn gold9b(&mut self, r: &GameReadings) -> (b: Option<bool>)
        requires
            old(self).wf(),
        ensures
            final(self).wf(),
            (final(self)@, b) == spec_pds_gold9b(old(self)@, r),
    {
        self.kills_on_entry("kills_mage_on_entry", r.non_continuous(), r.kills_mage);
        self.kills_decreased_by("kills_mage_knight_on_entry", r.non_continuous(), r.kills_mage_knight, 1)
    }

    /// Whether the wave is cleared: `Some(true)` when the journal kill counts fell since entering the room (lobster_lancer by at least 1); `Some(false)` when a count reached zero first; `None` before either.
    pub fn gold_end(&mut self, r: &GameReadings) -> (b: Option<bool>)
        requires
            old(self).wf(),
        ensures
            final(self).wf(),
            (final(self)@, b) == spec_pds_gold_end(old(self)@, r),
    {
        self.kills_decreased_by("kills_lobster_lancer_on_entry", r.non_continuous(), r.kills_lobster_lancer, 1)
    }

    /// `royal_charm_state` went up since it was last remembered.
    pub fn increased_royal_charm_state(&mut self, r: &GameReadings) -> (b: bool)
        requires
            old(self).wf(),
        ensures
            final(self).wf(),
            (final(self)@, b) == spec_pds_increased_royal_charm_state(old(self)@, r),
    {
        self.increased_i32("royal_charm_state", r.in_save(), r.royal_charm_state)
    }

    /// `charm_slots` went up by exactly one since it was last remembered.
    pub fn incremented_charm_slots(&mut self, r: &GameReadings) -> (b: bool)
        requires
            old(self).wf(),
        ensures
            final(self).wf(),
            (final(self)@, b) == spec_pds_incremented_charm_slots(old(self)@, r),
    {
        self.incremented_i32("charm_slots", r.in_save(), r.charm_slots)
    }

    /// `dream_orbs` went up by exactly one since it was last remembered.
    pub fn incremented_dream_orbs(&mut self, r: &GameReadings) -> (b: bool)
        requires
            old(self).wf(),
        ensures
            final(self).wf(),
            (final(self)@, b) == spec_pds_incremented_dream_orbs(old(self)@, r),
    {
        self.incremented_i32("dream_orbs", r.in_save(), r.dream_orbs)
    }

    /// `grubs_collected` went up by exactly one since it was last remembered.
    pub fn incremented_grubs_collected(&mut self, r: &GameReadings) -> (b: bool)
        requires
            old(self).wf(),
        ensures
            final(self).wf(),
            (final(self)@, b) == spec_pds_incremented_grubs_collected(old(self)@, r),
    {
        self.incremented_i32("grubs_collected", r.in_save(), r.grubs_collected)
    }

    /// `ore` went up by exactly one since it was last remembered.
    pub fn incremented_ore(&mut self, r: &GameReadings) -> (b: bool)
        requires
            old(self).wf(),
        ensures
            final(self).wf(),
            (final(self)@, b) == spec_pds_incremented_ore(old(self)@, r),
    {
        self.incremented_i32("ore", r.in_save(), r.ore)
    }

    /// `rancid_eggs` went up by exactly one since it was last remembered.
    pub fn incremented_rancid_eggs(&mut self, r: &GameReadings) -> (b: bool)
        requires
            old(self).wf(),
        ensures
            final(self).wf(),
            (final(self)@, b) == spec_pds_incremented_rancid_eggs(old(self)@, r),
    {
        self.incremented_i32("rancid_eggs", r.in_save(), r.rancid_eggs)
    }

    /// `simple_keys` went up by exactly one since it was last remembered.
    pub fn incremented_simple_keys(&mut self, r: &GameReadings) -> (b: bool)
        requires
            old(self).wf(),
        ensures
            final(self).wf(),
            (final(self)@, b) == spec_pds_incremented_simple_keys(old(self)@, r),
    {
        self.incremented_i32("simple_keys", r.in_save(), r.simple_keys)
    }

    /// `trinket1` went up by exactly one since it was last remembered.
    pub fn incremented_trinket1(&mut self, r: &GameReadings) -> (b: bool)
        requires
            old(self).wf(),
        ensures
            final(self).wf(),
            (final(self)@, b) == spec_pds_incremented_trinket1(old(self)@, r),
    {
        self.incremented_i32("trinket1", r.in_save(), r.trinket1)
    }

    /// `trinket2` went up by exactly one since it was last remembered.
    pub fn incremented_trinket2(&mut self, r: &GameReadings) -> (b: bool)
        requires
            old(self).wf(),
        ensures
            final(self).wf(),
            (final(self)@, b) == spec_pds_incremented_trinket2(old(self)@, r),
    {
        self.incremented_i32("trinket2", r.in_save(), r.trinket2)
    }

    /// `trinket3` went up by exactly one since it was last remembered.
    pub fn incremented_trinket3(&mut self, r: &GameReadings) -> (b: bool)
        requires
            old(self).wf(),
        ensures
            final(self).wf(),
            (final(self)@, b) == spec_pds_incremented_trinket3(old(self)@, r),
    {
        self.incremented_i32("trinket3", r.in_save(), r.trinket3)
    }

    /// `trinket4` went up by exactly one since it was last remembered.
    pub fn incremented_trinket4(&mut self, r: &GameReadings) -> (b: bool)
        requires
            old(self).wf(),
        ensures
            final(self).wf(),
            (final(self)@, b) == spec_pds_incremented_trinket4(old(self)@, r),
    {
        self.incremented_i32("trinket4", r.in_save(), r.trinket4)
    }

    /// Whether the wave is cleared: `Some(true)` when the journal kill counts fell since entering the room (oblobble by at least 2); `Some(false)` when a count reached zero first; `None` before either.
    pub fn killed_oblobbles(&mut self, r: &GameReadings) -> (b: Option<bool>)
        requires
            old(self).wf(),
        ensures
            final(self).wf(),
            (final(self)@, b) == spec_pds_killed_oblobbles(old(self)@, r),
    {
        self.kills_decreased_by("kills_oblobble_on_entry", r.non_continuous(), r.kills_oblobble, 2)
    }

    /// A mask shard was obtained: the base health went up by one, or the heart pieces went up by one to fewer than 4.
    pub fn obtained_mask_shard(&mut self, r: &GameReadings) -> (b: bool)
        requires
            old(self).wf(),
        ensures
            final(self).wf(),
            (final(self)@, b) == spec_pds_obtained_mask_shard(old(self)@, r),
    {
        if self.incremented_i32("max_health_base", r.in_save(), r.max_health_base) {
            return true;
        }
        self.incremented_i32("heart_pieces", r.in_save(), r.heart_pieces) && match self.remembered_i32("heart_pieces") {
            Some(s) => s < 4,
            None => false,
        }
    }

    /// A vessel fragment was obtained: the soul reserve went up, or the fragments went up by one to fewer than 3.
    pub fn obtained_vessel_fragment(&mut self, r: &GameReadings) -> (b: bool)
        requires
            old(self).wf(),
        ensures
            final(self).wf(),
            (final(self)@, b) == spec_pds_obtained_vessel_fragment(old(self)@, r),
    {
        if self.increased_i32("mp_reserve_max", r.in_save(), r.mp_reserve_max) {
            return true;
        }
        self.incremented_i32("vessel_fragments", r.in_save(), r.vessel_fragments) && match self.remembered_i32("vessel_fragments") {
            Some(s) => s < 3,
            None => false,
        }
    }

    /// `soul_limited` changed to `false`.
    pub fn shade_killed(&mut self, r: &GameReadings) -> (b: bool)
        requires
            old(self).wf(),
        ensures
            final(self).wf(),
            (final(self)@, b) == spec_pds_shade_killed(old(self)@, r),
    {
        self.changed_bool("soul_limited", r.in_save(), r.soul_limited) == Some(false)
    }

    /// Whether the wave is cleared: `Some(true)` when the journal kill counts fell since entering the room (col_worm by at least 2; col_flying_sentry by at least 3); `Some(false)` when a count reached zero first; `None` before either.
    pub fn silver1(&mut self, r: &GameReadings) -> (b: Option<bool>)
        requires
            old(self).wf(),
        ensures
            final(self).wf(),
            (final(self)@, b) == spec_pds_silver1(old(self)@, r),
    {
        self.kills_on_entry("kills_col_worm_on_entry", r.non_continuous(), r.kills_col_worm);
        self.kills_on_entry("kills_col_flying_sentry_on_entry", r.non_continuous(), r.kills_col_flying_sentry);
        match self.kills_decreased_by("kills_col_worm_on_entry", r.non_continuous(), r.kills_col_worm, 2) {
            Some(true) => {},
            o => return o,
        }
        self.kills_decreased_by("kills_col_flying_sentry_on_entry", r.non_continuous(), r.kills_col_flying_sentry, 3)
    }

    /// Whether the wave is cleared: `Some(true)` when the journal kill counts fell since entering the room (grub_mimic by at least 1); `Some(false)` when a count reached zero first; `None` before either.
    pub fn silver10(&mut self, r: &GameReadings) -> (b: Option<bool>)
        requires
            old(self).wf(),
        ensures
            final(self).wf(),
            (final(self)@, b) == spec_pds_silver10(old(self)@, r),
    {
        self.kills_decreased_by("kills_grub_mimic_on_entry", r.non_continuous(), r.kills_grub_mimic, 1)
    }

    /// Whether the wave is cleared: `Some(true)` when the journal kill counts fell since entering the room (col_mosquito by at least 9; col_flying_sentry by at least 6; col_worm by at least 4); `Some(false)` when a count reached zero first; `None` before either.
    pub fn silver11(&mut self, r: &GameReadings) -> (b: Option<bool>)
        requires
            old(self).wf(),
        ensures
            final(self).wf(),
            (final(self)@, b) == spec_pds_silver11(old(self)@, r),
    {
        match self.kills_decreased_by("kills_col_mosquito_on_entry", r.non_continuous(), r.kills_col_mosquito, 9) {
            Some(true) => {},
            o => return o,
        }
        match self.kills_decreased_by("kills_col_flying_sentry_on_entry", r.non_continuous(), r.kills_col_flying_sentry, 6) {
            Some(true) => {},
            o => return o,
        }
        self.kills_decreased_by("kills_col_worm_on_entry", r.non_continuous(), r.kills_col_worm, 4)
    }

    /// Whether the wave is cleared: `Some(true)` when the journal kill counts fell since entering the room (col_flying_sentry by at least 7; col_worm by at least 5); `Some(false)` when a count reached zero first; `None` before either.
    pub fn silver12(&mut self, r: &GameReadings) -> (b: Option<bool>)
        requires
            old(self).wf(),
        ensures
            final(self).wf(),
            (final(self)@, b) == spec_pds_silver12(old(self)@, r),
    {
        match self.kills_decreased_by("kills_col_flying_sentry_on_entry", r.non_continuous(), r.kills_col_flying_sentry, 7) {
            Some(true) => {},
            o => return o,
        }
        self.kills_decreased_by("kills_col_worm_on_entry", r.non_continuous(), r.kills_col_worm, 5)
    }

    /// Whether the wave is cleared: `Some(true)` when the journal kill counts fell since entering the room (col_mosquito by at least 12; col_flying_sentry by at least 8); `Some(false)` when a count reached zero first; `None` before either.
    pub fn silver13(&mut self, r: &GameReadings) -> (b: Option<bool>)
        requires
            old(self).wf(),
        ensures
            final(self).wf(),
            (final(self)@, b) == spec_pds_silver13(old(self)@, r),
    {
        match self.kills_decreased_by("kills_col_mosquito_on_entry", r.non_continuous(), r.kills_col_mosquito, 12) {
            Some(true) => {},
            o => return o,
        }
        self.kills_decreased_by("kills_col_flying_sentry_on_entry", r.non_continuous(), r.kills_col_flying_sentry, 8)
    }

    /// Whether the wave is cleared: `Some(true)` when the journal kill counts fell since entering the room (col_mosquito by at least 14; col_flying_sentry by at least 11); `Some(false)` when a count reached zero first; `None` before either.
    pub fn silver14(&mut self, r: &GameReadings) -> (b: Option<bool>)
        requires
            old(self).wf(),
        ensures
            final(self).wf(),
            (final(self)@, b) == spec_pds_silver14(old(self)@, r),
    {
        match self.kills_decreased_by("kills_col_mosquito_on_entry", r.non_continuous(), r.kills_col_mosquito, 14) {
            Some(true) => {},
            o => return o,
        }
        self.kills_decreased_by("kills_col_flying_sentry_on_entry", r.non_continuous(), r.kills_col_flying_sentry, 11)
    }

    /// Whether the wave is cleared: `Some(true)` when the journal kill counts fell since entering the room (blobble by at least 9); `Some(false)` when a count reached zero first; `None` before either.
    pub fn silver15(&mut self, r: &GameReadings) -> (b: Option<bool>)
        requires
            old(self).wf(),
        ensures
            final(self).wf(),
            (final(self)@, b) == spec_pds_silver15(old(self)@, r),
    {
        self.kills_decreased_by("kills_blobble_on_entry", r.non_continuous(), r.kills_blobble, 9)
    }

    /// Whether the wave is cleared: `Some(true)` when the journal kill counts fell since entering the room (blobble by at least 13); `Some(false)` when a count reached zero first; `None` before either.
    pub fn silver16(&mut self, r: &GameReadings) -> (b: Option<bool>)
        requires
            old(self).wf(),
        ensures
            final(self).wf(),
            (final(self)@, b) == spec_pds_silver16(old(self)@, r),
    {
        self.kills_decreased_by("kills_blobble_on_entry", r.non_continuous(), r.kills_blobble, 13)
    }

    /// Whether the wave is cleared: `Some(true)` when the journal kill counts fell since entering the room (col_mosquito by at least 2); `Some(false)` when a count reached zero first; `None` before either.
    pub fn silver2(&mut self, r: &GameReadings) -> (b: Option<bool>)
        requires
            old(self).wf(),
        ensures
            final(self).wf(),
            (final(self)@, b) == spec_pds_silver2(old(self)@, r),
    {
        self.kills_decreased_by("kills_col_mosquito_on_entry", r.non_continuous(), r.kills_col_mosquito, 2)
    }

    /// Whether the wave is cleared: `Some(true)` when the journal kill counts fell since entering the room (col_mosquito by at least 4); `Some(false)` when a count reached zero first; `None` before either.
    pub fn silver3(&mut self, r: &GameReadings) -> (b: Option<bool>)
        requires
            old(self).wf(),
        ensures
            final(self).wf(),
            (final(self)@, b) == spec_pds_silver3(old(self)@, r),
    {
        self.kills_decreased_by("kills_col_mosquito_on_entry", r.non_continuous(), r.kills_col_mosquito, 4)
    }

    /// Whether the wave is cleared: `Some(true)` when the journal kill counts fell since entering the room (col_mosquito by at least 5; col_flying_sentry by at least 4); `Some(false)` when a count reached zero first; `None` before either.
    pub fn silver4(&mut self, r: &GameReadings) -> (b: Option<bool>)
        requires
            old(self).wf(),
        ensures
            final(self).wf(),
            (final(self)@, b) == spec_pds_silver4(old(self)@, r),
    {
        match self.kills_decreased_by("kills_col_mosquito_on_entry", r.non_continuous(), r.kills_col_mosquito, 5) {
            Some(true) => {},
            o => return o,
        }
        self.kills_decreased_by("kills_col_flying_sentry_on_entry", r.non_continuous(), r.kills_col_flying_sentry, 4)
    }

    /// Whether the wave is cleared: `Some(true)` when the journal kill counts fell since entering the room (bursting_bouncer by at least 5; col_mosquito by at least 7; super_spitter by at least 2); `Some(false)` when a count reached zero first; `None` before either.
    pub fn silver5(&mut self, r: &GameReadings) -> (b: Option<bool>)
        requires
            old(self).wf(),
        ensures
            final(self).wf(),
            (final(self)@, b) == spec_pds_silver5(old(self)@, r),
    {
        self.kills_on_entry("kills_super_spitter_on_entry", r.non_continuous(), r.kills_super_spitter);
        match self.kills_decreased_by("kills_bursting_bouncer_on_entry", r.non_continuous(), r.kills_bursting_bouncer, 5) {
            Some(true) => {},
            o => return o,
        }
        match self.kills_decreased_by("kills_col_mosquito_on_entry", r.non_continuous(), r.kills_col_mosquito, 7) {
            Some(true) => {},
            o => return o,
        }
        self.kills_decreased_by("kills_super_spitter_on_entry", r.non_continuous(), r.kills_super_spitter, 2)
    }

    /// Whether the wave is cleared: `Some(true)` when the journal kill counts fell since entering the room (col_worm by at least 3; ceiling_dropper by at least 3); `Some(false)` when a count reached zero first; `None` before either.
    pub fn silver6(&mut self, r: &GameReadings) -> (b: Option<bool>)
        requires
            old(self).wf(),
        ensures
            final(self).wf(),
            (final(self)@, b) == spec_pds_silver6(old(self)@, r),
    {
        self.kills_on_entry("kills_ceiling_dropper_on_entry", r.non_continuous(), r.kills_ceiling_dropper);
        match self.kills_decreased_by("kills_col_worm_on_entry", r.non_continuous(), r.kills_col_worm, 3) {
            Some(true) => {},
            o => return o,
        }
        self.kills_decreased_by("kills_ceiling_dropper_on_entry", r.non_continuous(), r.kills_ceiling_dropper, 3)
    }

    /// Whether the wave is cleared: `Some(true)` when the journal kill counts fell since entering the room (ceiling_dropper by at least 4); `Some(false)` when a count reached zero first; `None` before either.
    pub fn silver7(&mut self, r: &GameReadings) -> (b: Option<bool>)
        requires
            old(self).wf(),
        ensures
            final(self).wf(),
            (final(self)@, b) == spec_pds_silver7(old(self)@, r),
    {
        self.kills_decreased_by("kills_ceiling_dropper_on_entry", r.non_continuous(), r.kills_ceiling_dropper, 4)
    }

    /// Whether the wave is cleared: `Some(true)` when the journal kill counts fell since entering the room (giant_hopper by at least 1); `Some(false)` when a count reached zero first; `None` before either.
    pub fn silver8(&mut self, r: &GameReadings) -> (b: Option<bool>)
        requires
            old(self).wf(),
        ensures
            final(self).wf(),
            (final(self)@, b) == spec_pds_silver8(old(self)@, r),
    {
        self.kills_decreased_by("kills_giant_hopper_on_entry", r.non_continuous(), r.kills_giant_hopper, 1)
    }

    /// Whether the wave is cleared: `Some(true)` when the journal kill counts fell since entering the room (giant_hopper by at least 2); `Some(false)` when a count reached zero first; `None` before either.
    pub fn silver9(&mut self, r: &GameReadings) -> (b: Option<bool>)
        requires
            old(self).wf(),
        ensures
            final(self).wf(),
            (final(self)@, b) == spec_pds_silver9(old(self)@, r),
    {
        self.kills_decreased_by("kills_giant_hopper_on_entry", r.non_continuous(), r.kills_giant_hopper, 2)
    }

    /// Whether the wave is cleared: `Some(true)` when the journal kill counts fell since entering the room (oblobble by at least 2); `Some(false)` when a count reached zero first; `None` before either.
    pub fn silver_end(&mut self, r: &GameReadings) -> (b: Option<bool>)
        requires
            old(self).wf(),
        ensures
            final(self).wf(),
            (final(self)@, b) == spec_pds_silver_end(old(self)@, r),
    {
        self.kills_decreased_by("kills_oblobble_on_entry", r.non_continuous(), r.kills_oblobble, 2)
    }

    /// Whether a focus of the Pure Snail build gained health or spent soul at
    /// full health, by what was read from the game.
    pub fn pure_snail_now(&mut self, r: &GameReadings) -> (b: bool)
        requires
            old(self).wf(),
        ensures
            final(self).wf(),
            (final(self)@, b) == spec_pds_pure_snail(old(self)@, r),
    {
        self.pure_snail(
            r.focusing,
            (r.equipped_charm_5, r.equipped_charm_7, r.equipped_charm_17, r.equipped_charm_28),
            r.health,
            r.max_health,
            r.mpcharge,
        )
    }
}


} // verus!
