//! When a split fires at any moment, from what was read from the game.

use vstd::prelude::*;

use crate::player_data::{spec_count, spec_flag, PlayerDataStore, PlayerDataView};
use crate::player_events::{
    spec_pds_aspid_hunter_arena,
    spec_pds_bronze10,
    spec_pds_bronze11a,
    spec_pds_bronze11b,
    spec_pds_bronze1a,
    spec_pds_bronze1b,
    spec_pds_bronze1c,
    spec_pds_bronze2,
    spec_pds_bronze3a,
    spec_pds_bronze3b,
    spec_pds_bronze4,
    spec_pds_bronze5,
    spec_pds_bronze6,
    spec_pds_bronze7,
    spec_pds_bronze8a,
    spec_pds_bronze8b,
    spec_pds_bronze9,
    spec_pds_bronze_end,
    spec_pds_changed_stag_position,
    spec_pds_changed_travelling_true,
    spec_pds_decremented_kills_zombie_miner,
    spec_pds_decremented_simple_keys,
    spec_pds_gold1,
    spec_pds_gold10,
    spec_pds_gold11,
    spec_pds_gold12a,
    spec_pds_gold12b,
    spec_pds_gold14a,
    spec_pds_gold14b,
    spec_pds_gold15,
    spec_pds_gold16,
    spec_pds_gold17a,
    spec_pds_gold17b,
    spec_pds_gold17c,
    spec_pds_gold3,
    spec_pds_gold4,
    spec_pds_gold5,
    spec_pds_gold6,
    spec_pds_gold7,
    spec_pds_gold8,
    spec_pds_gold8a,
    spec_pds_gold9a,
    spec_pds_gold9b,
    spec_pds_gold_end,
    spec_pds_increased_royal_charm_state,
    spec_pds_incremented_charm_slots,
    spec_pds_incremented_dream_orbs,
    spec_pds_incremented_grubs_collected,
    spec_pds_incremented_ore,
    spec_pds_incremented_rancid_eggs,
    spec_pds_incremented_simple_keys,
    spec_pds_incremented_trinket1,
    spec_pds_incremented_trinket2,
    spec_pds_incremented_trinket3,
    spec_pds_incremented_trinket4,
    spec_pds_killed_oblobbles,
    spec_pds_obtained_mask_shard,
    spec_pds_obtained_vessel_fragment,
    spec_pds_pure_snail,
    spec_pds_shade_killed,
    spec_pds_silver1,
    spec_pds_silver10,
    spec_pds_silver11,
    spec_pds_silver12,
    spec_pds_silver13,
    spec_pds_silver14,
    spec_pds_silver15,
    spec_pds_silver16,
    spec_pds_silver2,
    spec_pds_silver3,
    spec_pds_silver4,
    spec_pds_silver5,
    spec_pds_silver6,
    spec_pds_silver7,
    spec_pds_silver8,
    spec_pds_silver9,
    spec_pds_silver_end,
};
use crate::readings::{
    has_scene,
    or_zero,
    spec_has_scene,
    spec_in_save,
    spec_or_zero,
    spec_ore_gross,
    spec_sly_shop_finished,
    spec_sold_trinkets_geo,
    GameReadings,
};
use crate::scenes::{is_menu, spec_is_menu, GAME_STATE_PLAYING};
use crate::splits::Split;
use crate::text::{spec_starts_with, starts_with, str_eq};
use crate::timer::{
    should_skip,
    should_split,
    should_split_skip,
    spec_should_skip,
    spec_should_split,
    spec_should_split_skip,
    SplitterAction,
};

verus! {

/// The splits of group 0.
pub open spec fn in_continuous_group_0(s: Split) -> bool {
    s == Split::ManualSplit || s == Split::RandoWake || s == Split::BenchAny || s == Split::PlayerDeath || s == Split::ShadeKilled || s == Split::Lurien || s == Split::Monomon || s == Split::Hegemol || s == Split::Dreamer1 || s == Split::Dreamer2 || s == Split::Dreamer3 || s == Split::MenuDreamer3
}

/// What the splits of group 0 ask for.
#[verifier::opaque]
pub open spec fn spec_continuous_group_0(v: PlayerDataView, s: Split, r: &GameReadings) -> (
    PlayerDataView,
    SplitterAction,
) {
    match s {
        Split::ManualSplit => (v, SplitterAction::ManualSplit),
        Split::RandoWake => (v, spec_should_split((match r.disable_pause { Some(d) => !d, None => false }) && (match r.game_state { Some(s) => s == GAME_STATE_PLAYING, None => false }) && (match r.scene_name { Some(s) => !spec_is_menu(s@), None => false }))),
        Split::BenchAny => (v, spec_should_split((match r.at_bench { Some(b) => b, None => false }))),
        Split::PlayerDeath => (v, spec_should_split((match r.health { Some(h) => h == 0, None => false }))),
        Split::ShadeKilled => {
            let (w, b) = { let (v1, x1) = spec_pds_shade_killed(v, r); if x1 { (v1, true) } else { (v1, false) } };
            (w, spec_should_split(b))
        },
        Split::Lurien => (v, spec_should_split((match r.mask_broken_lurien { Some(b) => b, None => false }))),
        Split::Monomon => (v, spec_should_split((match r.mask_broken_monomon { Some(b) => b, None => false }))),
        Split::Hegemol => (v, spec_should_split((match r.mask_broken_hegemol { Some(b) => b, None => false }))),
        Split::Dreamer1 => (v, spec_should_split((match r.guardians_defeated { Some(d) => 1 <= d, None => false }))),
        Split::Dreamer2 => (v, spec_should_split((match r.guardians_defeated { Some(d) => 2 <= d, None => false }))),
        Split::Dreamer3 => (v, spec_should_split((match r.guardians_defeated { Some(d) => 3 <= d, None => false }))),
        Split::MenuDreamer3 => (spec_count(v, "guardians_defeated"@, spec_in_save(r), r.guardians_defeated).0, SplitterAction::Pass),
        _ => (v, SplitterAction::Pass),
    }
}

/// The splits of group 1.
pub open spec fn in_continuous_group_1(s: Split) -> bool {
    s == Split::LurienDreamer || s == Split::MonomonDreamer || s == Split::HegemolDreamer || s == Split::MrMushroom1 || s == Split::MrMushroom2 || s == Split::MrMushroom3 || s == Split::MrMushroom4 || s == Split::MrMushroom5 || s == Split::MrMushroom6 || s == Split::MrMushroom7 || s == Split::VengefulSpirit || s == Split::TransVS
}

/// What the splits of group 1 ask for.
#[verifier::opaque]
pub open spec fn spec_continuous_group_1(v: PlayerDataView, s: Split, r: &GameReadings) -> (
    PlayerDataView,
    SplitterAction,
) {
    match s {
        Split::LurienDreamer => (v, spec_should_split((match r.lurien_defeated { Some(d) => d, None => false }))),
        Split::MonomonDreamer => (v, spec_should_split((match r.monomon_defeated { Some(d) => d, None => false }))),
        Split::HegemolDreamer => (v, spec_should_split((match r.hegemol_defeated { Some(d) => d, None => false }))),
        Split::MrMushroom1 => (v, spec_should_split((match r.mr_mushroom_state { Some(s) => 2 <= s, None => false }))),
        Split::MrMushroom2 => (v, spec_should_split((match r.mr_mushroom_state { Some(s) => 3 <= s, None => false }))),
        Split::MrMushroom3 => (v, spec_should_split((match r.mr_mushroom_state { Some(s) => 4 <= s, None => false }))),
        Split::MrMushroom4 => (v, spec_should_split((match r.mr_mushroom_state { Some(s) => 5 <= s, None => false }))),
        Split::MrMushroom5 => (v, spec_should_split((match r.mr_mushroom_state { Some(s) => 6 <= s, None => false }))),
        Split::MrMushroom6 => (v, spec_should_split((match r.mr_mushroom_state { Some(s) => 7 <= s, None => false }))),
        Split::MrMushroom7 => (v, spec_should_split((match r.mr_mushroom_state { Some(s) => 8 <= s, None => false }))),
        Split::VengefulSpirit => (v, spec_should_split((match r.fireball_level { Some(l) => 1 <= l, None => false }))),
        Split::TransVS => (spec_count(v, "fireball_level"@, spec_in_save(r), r.fireball_level).0, SplitterAction::Pass),
        _ => (v, SplitterAction::Pass),
    }
}

/// The splits of group 2.
pub open spec fn in_continuous_group_2(s: Split) -> bool {
    s == Split::ShadeSoul || s == Split::TransShadeSoul || s == Split::MenuShadeSoul || s == Split::DesolateDive || s == Split::DescendingDark || s == Split::TransDescendingDark || s == Split::HowlingWraiths || s == Split::AbyssShriek || s == Split::MothwingCloak || s == Split::MenuCloak || s == Split::ShadeCloak || s == Split::MantisClaw
}

/// What the splits of group 2 ask for.
#[verifier::opaque]
pub open spec fn spec_continuous_group_2(v: PlayerDataView, s: Split, r: &GameReadings) -> (
    PlayerDataView,
    SplitterAction,
) {
    match s {
        Split::ShadeSoul => (v, spec_should_split((match r.fireball_level { Some(l) => 2 <= l, None => false }))),
        Split::TransShadeSoul => (spec_count(v, "fireball_level"@, spec_in_save(r), r.fireball_level).0, SplitterAction::Pass),
        Split::MenuShadeSoul => (spec_count(v, "fireball_level"@, spec_in_save(r), r.fireball_level).0, SplitterAction::Pass),
        Split::DesolateDive => (v, spec_should_split((match r.quake_level { Some(l) => 1 <= l, None => false }))),
        Split::DescendingDark => (v, spec_should_split((match r.quake_level { Some(l) => 2 <= l, None => false }))),
        Split::TransDescendingDark => (spec_count(v, "quake_level"@, spec_in_save(r), r.quake_level).0, SplitterAction::Pass),
        Split::HowlingWraiths => (v, spec_should_split((match r.scream_level { Some(l) => 1 <= l, None => false }))),
        Split::AbyssShriek => (v, spec_should_split((match r.scream_level { Some(l) => 2 <= l, None => false }))),
        Split::MothwingCloak => (v, spec_should_split((match r.has_dash { Some(d) => d, None => false }))),
        Split::MenuCloak => (spec_flag(v, "has_dash"@, spec_in_save(r), r.has_dash).0, SplitterAction::Pass),
        Split::ShadeCloak => (v, spec_should_split((match r.has_shadow_dash { Some(s) => s, None => false }))),
        Split::MantisClaw => (v, spec_should_split((match r.has_wall_jump { Some(w) => w, None => false }))),
        _ => (v, SplitterAction::Pass),
    }
}

/// The splits of group 3.
pub open spec fn in_continuous_group_3(s: Split) -> bool {
    s == Split::TransClaw || s == Split::MenuClaw || s == Split::MonarchWings || s == Split::MenuWings || s == Split::CrystalHeart || s == Split::IsmasTear || s == Split::TransTear || s == Split::MenuIsmasTear || s == Split::CycloneSlash || s == Split::DashSlash || s == Split::GreatSlash || s == Split::DreamNail
}

/// What the splits of group 3 ask for.
#[verifier::opaque]
pub open spec fn spec_continuous_group_3(v: PlayerDataView, s: Split, r: &GameReadings) -> (
    PlayerDataView,
    SplitterAction,
) {
    match s {
        Split::TransClaw => (spec_flag(v, "has_wall_jump"@, spec_in_save(r), r.has_wall_jump).0, SplitterAction::Pass),
        Split::MenuClaw => (spec_flag(v, "has_wall_jump"@, spec_in_save(r), r.has_wall_jump).0, SplitterAction::Pass),
        Split::MonarchWings => (v, spec_should_split((match r.has_double_jump { Some(w) => w, None => false }))),
        Split::MenuWings => (spec_flag(v, "has_double_jump"@, spec_in_save(r), r.has_double_jump).0, SplitterAction::Pass),
        Split::CrystalHeart => (v, spec_should_split((match r.has_super_dash { Some(s) => s, None => false }))),
        Split::IsmasTear => (v, spec_should_split((match r.has_acid_armour { Some(a) => a, None => false }))),
        Split::TransTear => (spec_flag(v, "has_acid_armour"@, spec_in_save(r), r.has_acid_armour).0, SplitterAction::Pass),
        Split::MenuIsmasTear => (spec_flag(v, "has_acid_armour"@, spec_in_save(r), r.has_acid_armour).0, SplitterAction::Pass),
        Split::CycloneSlash => (v, spec_should_split((match r.has_cyclone { Some(s) => s, None => false }))),
        Split::DashSlash => (v, spec_should_split((match r.has_upward_slash { Some(s) => s, None => false }))),
        Split::GreatSlash => (v, spec_should_split((match r.has_dash_slash { Some(s) => s, None => false }))),
        Split::DreamNail => (v, spec_should_split((match r.has_dream_nail { Some(d) => d, None => false }))),
        _ => (v, SplitterAction::Pass),
    }
}

/// The splits of group 4.
pub open spec fn in_continuous_group_4(s: Split) -> bool {
    s == Split::MenuDreamNail || s == Split::DreamGate || s == Split::MenuDreamGate || s == Split::DreamNail2 || s == Split::CityKey || s == Split::LumaflyLantern || s == Split::LumaflyLanternTransition || s == Split::SimpleKey || s == Split::OnObtainSimpleKey || s == Split::OnUseSimpleKey || s == Split::SlyKey || s == Split::ElegantKey
}

/// What the splits of group 4 ask for.
#[verifier::opaque]
pub open spec fn spec_continuous_group_4(v: PlayerDataView, s: Split, r: &GameReadings) -> (
    PlayerDataView,
    SplitterAction,
) {
    match s {
        Split::MenuDreamNail => (spec_flag(v, "has_dream_nail"@, spec_in_save(r), r.has_dream_nail).0, SplitterAction::Pass),
        Split::DreamGate => (v, spec_should_split((match r.has_dream_gate { Some(d) => d, None => false }))),
        Split::MenuDreamGate => (spec_flag(v, "has_dream_gate"@, spec_in_save(r), r.has_dream_gate).0, SplitterAction::Pass),
        Split::DreamNail2 => (v, spec_should_split((match r.dream_nail_upgraded { Some(d) => d, None => false }))),
        Split::CityKey => (v, spec_should_split((match r.has_city_key { Some(k) => k, None => false }))),
        Split::LumaflyLantern => (v, spec_should_split((match r.has_lantern { Some(l) => l, None => false }))),
        Split::LumaflyLanternTransition => (spec_flag(v, "has_lantern"@, spec_in_save(r), r.has_lantern).0, SplitterAction::Pass),
        Split::SimpleKey => (v, spec_should_split((match r.simple_keys { Some(k) => 1 <= k, None => false }))),
        Split::OnObtainSimpleKey => {
            let (w, b) = { let (v1, x1) = spec_pds_incremented_simple_keys(v, r); if x1 { (v1, true) } else { (v1, false) } };
            (w, spec_should_split(b))
        },
        Split::OnUseSimpleKey => {
            let (w, b) = { let (v1, x1) = spec_pds_decremented_simple_keys(v, r); if x1 { (v1, true) } else { (v1, false) } };
            (w, spec_should_split(b))
        },
        Split::SlyKey => (v, spec_should_split((match r.has_sly_key { Some(k) => k, None => false }))),
        Split::ElegantKey => (v, spec_should_split((match r.has_white_key { Some(k) => k, None => false }))),
        _ => (v, SplitterAction::Pass),
    }
}

/// The splits of group 5.
pub open spec fn in_continuous_group_5(s: Split) -> bool {
    s == Split::LoveKey || s == Split::PaleLurkerKey || s == Split::SlySimpleKey || s == Split::KingsBrand || s == Split::TramPass || s == Split::NailUpgrade1 || s == Split::NailUpgrade2 || s == Split::NailUpgrade3 || s == Split::NailUpgrade4 || s == Split::OnObtainPaleOre || s == Split::Ore1 || s == Split::Ore2
}

/// What the splits of group 5 ask for.
#[verifier::opaque]
pub open spec fn spec_continuous_group_5(v: PlayerDataView, s: Split, r: &GameReadings) -> (
    PlayerDataView,
    SplitterAction,
) {
    match s {
        Split::LoveKey => (v, spec_should_split((match r.has_love_key { Some(k) => k, None => false }))),
        Split::PaleLurkerKey => (v, spec_should_split((match r.got_lurker_key { Some(k) => k, None => false }))),
        Split::SlySimpleKey => (v, spec_should_split((match r.sly_simple_key { Some(k) => k, None => false }))),
        Split::KingsBrand => (v, spec_should_split((match r.has_kings_brand { Some(k) => k, None => false }))),
        Split::TramPass => (v, spec_should_split((match r.has_tram_pass { Some(k) => k, None => false }))),
        Split::NailUpgrade1 => (v, spec_should_split((match r.nail_smith_upgrades { Some(n) => 1 <= n, None => false }))),
        Split::NailUpgrade2 => (v, spec_should_split((match r.nail_smith_upgrades { Some(n) => 2 <= n, None => false }))),
        Split::NailUpgrade3 => (v, spec_should_split((match r.nail_smith_upgrades { Some(n) => 3 <= n, None => false }))),
        Split::NailUpgrade4 => (v, spec_should_split((match r.nail_smith_upgrades { Some(n) => 4 <= n, None => false }))),
        Split::OnObtainPaleOre => {
            let (w, b) = { let (v1, x1) = spec_pds_incremented_ore(v, r); if x1 { (v1, true) } else { (v1, false) } };
            (w, spec_should_split(b))
        },
        Split::Ore1 => (v, spec_should_split((match spec_ore_gross(r) { Some(o) => 1 <= o, None => false }))),
        Split::Ore2 => (v, spec_should_split((match spec_ore_gross(r) { Some(o) => 2 <= o, None => false }))),
        _ => (v, SplitterAction::Pass),
    }
}

/// The splits of group 6.
pub open spec fn in_continuous_group_6(s: Split) -> bool {
    s == Split::Ore3 || s == Split::Ore4 || s == Split::Ore5 || s == Split::Ore6 || s == Split::PaleOre || s == Split::OnObtainMaskShard || s == Split::MaskFragment1 || s == Split::MaskFragment2 || s == Split::MaskFragment3 || s == Split::Mask1 || s == Split::MaskFragment5 || s == Split::MaskFragment6
}

/// What the splits of group 6 ask for.
#[verifier::opaque]
pub open spec fn spec_continuous_group_6(v: PlayerDataView, s: Split, r: &GameReadings) -> (
    PlayerDataView,
    SplitterAction,
) {
    match s {
        Split::Ore3 => (v, spec_should_split((match spec_ore_gross(r) { Some(o) => 3 <= o, None => false }))),
        Split::Ore4 => (v, spec_should_split((match spec_ore_gross(r) { Some(o) => 4 <= o, None => false }))),
        Split::Ore5 => (v, spec_should_split((match spec_ore_gross(r) { Some(o) => 5 <= o, None => false }))),
        Split::Ore6 => (v, spec_should_split((match spec_ore_gross(r) { Some(o) => 6 <= o, None => false }))),
        Split::PaleOre => (v, spec_should_split((match r.ore { Some(o) => 0 < o, None => false }))),
        Split::OnObtainMaskShard => {
            let (w, b) = { let (v1, x1) = spec_pds_obtained_mask_shard(v, r); if x1 { (v1, true) } else { (v1, false) } };
            (w, spec_should_split(b))
        },
        Split::MaskFragment1 => (v, spec_should_split((match r.max_health_base { Some(h) => h == 5, None => false }) && (match r.heart_pieces { Some(p) => p == 1, None => false }))),
        Split::MaskFragment2 => (v, spec_should_split((match r.max_health_base { Some(h) => h == 5, None => false }) && (match r.heart_pieces { Some(p) => p == 2, None => false }))),
        Split::MaskFragment3 => (v, spec_should_split((match r.max_health_base { Some(h) => h == 5, None => false }) && (match r.heart_pieces { Some(p) => p == 3, None => false }))),
        Split::Mask1 => (v, spec_should_split((match r.max_health_base { Some(h) => h == 6, None => false }))),
        Split::MaskFragment5 => (v, spec_should_split((match r.heart_pieces { Some(s) => s == 5 || ((match r.max_health_base { Some(h) => h == 6, None => false }) && s == 1), None => false }))),
        Split::MaskFragment6 => (v, spec_should_split((match r.heart_pieces { Some(s) => s == 6 || ((match r.max_health_base { Some(h) => h == 6, None => false }) && s == 2), None => false }))),
        _ => (v, SplitterAction::Pass),
    }
}

/// The splits of group 7.
pub open spec fn in_continuous_group_7(s: Split) -> bool {
    s == Split::MaskFragment7 || s == Split::Mask2 || s == Split::MaskFragment9 || s == Split::MaskFragment10 || s == Split::MaskFragment11 || s == Split::Mask3 || s == Split::MaskFragment13 || s == Split::MaskFragment14 || s == Split::MaskFragment15 || s == Split::Mask4 || s == Split::MaskShardMawlek || s == Split::MaskShardGrubfather
}

/// What the splits of group 7 ask for.
#[verifier::opaque]
pub open spec fn spec_continuous_group_7(v: PlayerDataView, s: Split, r: &GameReadings) -> (
    PlayerDataView,
    SplitterAction,
) {
    match s {
        Split::MaskFragment7 => (v, spec_should_split((match r.heart_pieces { Some(s) => s == 7 || ((match r.max_health_base { Some(h) => h == 6, None => false }) && s == 3), None => false }))),
        Split::Mask2 => (v, spec_should_split((match r.max_health_base { Some(h) => h == 7, None => false }))),
        Split::MaskFragment9 => (v, spec_should_split((match r.heart_pieces { Some(s) => s == 9 || ((match r.max_health_base { Some(h) => h == 7, None => false }) && s == 1), None => false }))),
        Split::MaskFragment10 => (v, spec_should_split((match r.heart_pieces { Some(s) => s == 10 || ((match r.max_health_base { Some(h) => h == 7, None => false }) && s == 2), None => false }))),
        Split::MaskFragment11 => (v, spec_should_split((match r.heart_pieces { Some(s) => s == 11 || ((match r.max_health_base { Some(h) => h == 7, None => false }) && s == 3), None => false }))),
        Split::Mask3 => (v, spec_should_split((match r.max_health_base { Some(h) => h == 8, None => false }))),
        Split::MaskFragment13 => (v, spec_should_split((match r.heart_pieces { Some(s) => s == 13 || ((match r.max_health_base { Some(h) => h == 8, None => false }) && s == 1), None => false }))),
        Split::MaskFragment14 => (v, spec_should_split((match r.heart_pieces { Some(s) => s == 14 || ((match r.max_health_base { Some(h) => h == 8, None => false }) && s == 2), None => false }))),
        Split::MaskFragment15 => (v, spec_should_split((match r.heart_pieces { Some(s) => s == 15 || ((match r.max_health_base { Some(h) => h == 8, None => false }) && s == 3), None => false }))),
        Split::Mask4 => (v, spec_should_split((match r.max_health_base { Some(h) => h == 9, None => false }))),
        Split::MaskShardMawlek => {
            let (w, b) = if (match r.scene_name { Some(s) => s@ == "Crossroads_09"@, None => false }) { { let (v1, x1) = spec_pds_obtained_mask_shard(v, r); if x1 { (v1, true) } else { (v1, false) } } } else { (v, false) };
            (w, spec_should_split(b))
        },
        Split::MaskShardGrubfather => {
            let (w, b) = if (match r.scene_name { Some(s) => s@ == "Crossroads_38"@, None => false }) { { let (v1, x1) = spec_pds_obtained_mask_shard(v, r); if x1 { (v1, true) } else { (v1, false) } } } else { (v, false) };
            (w, spec_should_split(b))
        },
        _ => (v, SplitterAction::Pass),
    }
}

/// The splits of group 8.
pub open spec fn in_continuous_group_8(s: Split) -> bool {
    s == Split::MaskShardBretta || s == Split::MaskShardQueensStation || s == Split::MaskShardEnragedGuardian || s == Split::MaskShardSeer || s == Split::MaskShardGoam || s == Split::MaskShardStoneSanctuary || s == Split::MaskShardWaterways || s == Split::MaskShardFungalCore || s == Split::MaskShardHive || s == Split::MaskShardFlower || s == Split::OnObtainVesselFragment || s == Split::VesselFragment1
}

/// What the splits of group 8 ask for.
#[verifier::opaque]
pub open spec fn spec_continuous_group_8(v: PlayerDataView, s: Split, r: &GameReadings) -> (
    PlayerDataView,
    SplitterAction,
) {
    match s {
        Split::MaskShardBretta => {
            let (w, b) = if (match r.scene_name { Some(s) => s@ == "Room_Bretta"@, None => false }) { { let (v1, x1) = spec_pds_obtained_mask_shard(v, r); if x1 { (v1, true) } else { (v1, false) } } } else { (v, false) };
            (w, spec_should_split(b))
        },
        Split::MaskShardQueensStation => {
            let (w, b) = if (match r.scene_name { Some(s) => s@ == "Fungus2_01"@, None => false }) { { let (v1, x1) = spec_pds_obtained_mask_shard(v, r); if x1 { (v1, true) } else { (v1, false) } } } else { (v, false) };
            (w, spec_should_split(b))
        },
        Split::MaskShardEnragedGuardian => {
            let (w, b) = if (match r.scene_name { Some(s) => s@ == "Mines_32"@, None => false }) { { let (v1, x1) = spec_pds_obtained_mask_shard(v, r); if x1 { (v1, true) } else { (v1, false) } } } else { (v, false) };
            (w, spec_should_split(b))
        },
        Split::MaskShardSeer => {
            let (w, b) = if (match r.scene_name { Some(s) => s@ == "RestingGrounds_07"@, None => false }) { { let (v1, x1) = spec_pds_obtained_mask_shard(v, r); if x1 { (v1, true) } else { (v1, false) } } } else { (v, false) };
            (w, spec_should_split(b))
        },
        Split::MaskShardGoam => {
            let (w, b) = if (match r.scene_name { Some(s) => s@ == "Crossroads_13"@, None => false }) { { let (v1, x1) = spec_pds_obtained_mask_shard(v, r); if x1 { (v1, true) } else { (v1, false) } } } else { (v, false) };
            (w, spec_should_split(b))
        },
        Split::MaskShardStoneSanctuary => {
            let (w, b) = if (match r.scene_name { Some(s) => s@ == "Fungus1_36"@, None => false }) { { let (v1, x1) = spec_pds_obtained_mask_shard(v, r); if x1 { (v1, true) } else { (v1, false) } } } else { (v, false) };
            (w, spec_should_split(b))
        },
        Split::MaskShardWaterways => {
            let (w, b) = if (match r.scene_name { Some(s) => s@ == "Waterways_04b"@, None => false }) { { let (v1, x1) = spec_pds_obtained_mask_shard(v, r); if x1 { (v1, true) } else { (v1, false) } } } else { (v, false) };
            (w, spec_should_split(b))
        },
        Split::MaskShardFungalCore => {
            let (w, b) = if (match r.scene_name { Some(s) => s@ == "Fungus2_25"@, None => false }) { { let (v1, x1) = spec_pds_obtained_mask_shard(v, r); if x1 { (v1, true) } else { (v1, false) } } } else { (v, false) };
            (w, spec_should_split(b))
        },
        Split::MaskShardHive => {
            let (w, b) = if (match r.scene_name { Some(s) => s@ == "Hive_04"@, None => false }) { { let (v1, x1) = spec_pds_obtained_mask_shard(v, r); if x1 { (v1, true) } else { (v1, false) } } } else { (v, false) };
            (w, spec_should_split(b))
        },
        Split::MaskShardFlower => {
            let (w, b) = if (match r.scene_name { Some(s) => s@ == "Room_Mansion"@, None => false }) { { let (v1, x1) = spec_pds_obtained_mask_shard(v, r); if x1 { (v1, true) } else { (v1, false) } } } else { (v, false) };
            (w, spec_should_split(b))
        },
        Split::OnObtainVesselFragment => {
            let (w, b) = { let (v1, x1) = spec_pds_obtained_vessel_fragment(v, r); if x1 { (v1, true) } else { (v1, false) } };
            (w, spec_should_split(b))
        },
        Split::VesselFragment1 => (v, spec_should_split((match r.mp_reserve_max { Some(mp) => mp == 0, None => false }) && (match r.vessel_fragments { Some(f) => f == 1, None => false }))),
        _ => (v, SplitterAction::Pass),
    }
}

/// The splits of group 9.
pub open spec fn in_continuous_group_9(s: Split) -> bool {
    s == Split::VesselFragment2 || s == Split::Vessel1 || s == Split::VesselFragment4 || s == Split::VesselFragment5 || s == Split::Vessel2 || s == Split::VesselFragment7 || s == Split::VesselFragment8 || s == Split::Vessel3 || s == Split::VesselFragGreenpath || s == Split::VesselFragCrossroadsLift || s == Split::VesselFragKingsStation || s == Split::VesselFragGarpedes
}

/// What the splits of group 9 ask for.
#[verifier::opaque]
pub open spec fn spec_continuous_group_9(v: PlayerDataView, s: Split, r: &GameReadings) -> (
    PlayerDataView,
    SplitterAction,
) {
    match s {
        Split::VesselFragment2 => (v, spec_should_split((match r.mp_reserve_max { Some(mp) => mp == 0, None => false }) && (match r.vessel_fragments { Some(f) => f == 2, None => false }))),
        Split::Vessel1 => (v, spec_should_split((match r.mp_reserve_max { Some(mp) => mp == 33, None => false }))),
        Split::VesselFragment4 => (v, spec_should_split((match r.vessel_fragments { Some(f) => f == 4 || ((match r.mp_reserve_max { Some(mp) => mp == 33, None => false }) && f == 1), None => false }))),
        Split::VesselFragment5 => (v, spec_should_split((match r.vessel_fragments { Some(f) => f == 5 || ((match r.mp_reserve_max { Some(mp) => mp == 33, None => false }) && f == 2), None => false }))),
        Split::Vessel2 => (v, spec_should_split((match r.mp_reserve_max { Some(mp) => mp == 66, None => false }))),
        Split::VesselFragment7 => (v, spec_should_split((match r.vessel_fragments { Some(f) => f == 7 || ((match r.mp_reserve_max { Some(mp) => mp == 66, None => false }) && f == 1), None => false }))),
        Split::VesselFragment8 => (v, spec_should_split((match r.vessel_fragments { Some(f) => f == 8 || ((match r.mp_reserve_max { Some(mp) => mp == 66, None => false }) && f == 2), None => false }))),
        Split::Vessel3 => (v, spec_should_split((match r.mp_reserve_max { Some(mp) => mp == 99, None => false }))),
        Split::VesselFragGreenpath => {
            let (w, b) = if (match r.scene_name { Some(s) => s@ == "Fungus1_13"@, None => false }) { { let (v1, x1) = spec_pds_obtained_vessel_fragment(v, r); if x1 { (v1, true) } else { (v1, false) } } } else { (v, false) };
            (w, spec_should_split(b))
        },
        Split::VesselFragCrossroadsLift => {
            let (w, b) = if (match r.scene_name { Some(s) => s@ == "Crossroads_37"@, None => false }) { { let (v1, x1) = spec_pds_obtained_vessel_fragment(v, r); if x1 { (v1, true) } else { (v1, false) } } } else { (v, false) };
            (w, spec_should_split(b))
        },
        Split::VesselFragKingsStation => {
            let (w, b) = if (match r.scene_name { Some(s) => s@ == "Ruins2_09"@, None => false }) { { let (v1, x1) = spec_pds_obtained_vessel_fragment(v, r); if x1 { (v1, true) } else { (v1, false) } } } else { (v, false) };
            (w, spec_should_split(b))
        },
        Split::VesselFragGarpedes => {
            let (w, b) = if (match r.scene_name { Some(s) => s@ == "Deepnest_38"@, None => false }) { { let (v1, x1) = spec_pds_obtained_vessel_fragment(v, r); if x1 { (v1, true) } else { (v1, false) } } } else { (v, false) };
            (w, spec_should_split(b))
        },
        _ => (v, SplitterAction::Pass),
    }
}

/// The splits of group 10.
pub open spec fn in_continuous_group_10(s: Split) -> bool {
    s == Split::VesselFragStagNest || s == Split::VesselFragSeer || s == Split::VesselFragFountain || s == Split::NotchShrumalOgres || s == Split::NotchSalubra1 || s == Split::NotchSalubra2 || s == Split::NotchSalubra3 || s == Split::NotchSalubra4 || s == Split::NotchFogCanyon || s == Split::NotchGrimm || s == Split::OnObtainCharmNotch || s == Split::GatheringSwarm
}

/// What the splits of group 10 ask for.
#[verifier::opaque]
pub open spec fn spec_continuous_group_10(v: PlayerDataView, s: Split, r: &GameReadings) -> (
    PlayerDataView,
    SplitterAction,
) {
    match s {
        Split::VesselFragStagNest => {
            let (w, b) = if (match r.scene_name { Some(s) => s@ == "Cliffs_03"@, None => false }) { { let (v1, x1) = spec_pds_obtained_vessel_fragment(v, r); if x1 { (v1, true) } else { (v1, false) } } } else { (v, false) };
            (w, spec_should_split(b))
        },
        Split::VesselFragSeer => {
            let (w, b) = if (match r.scene_name { Some(s) => s@ == "RestingGrounds_07"@, None => false }) { { let (v1, x1) = spec_pds_obtained_vessel_fragment(v, r); if x1 { (v1, true) } else { (v1, false) } } } else { (v, false) };
            (w, spec_should_split(b))
        },
        Split::VesselFragFountain => {
            let (w, b) = if (match r.scene_name { Some(s) => s@ == "Abyss_04"@, None => false }) { { let (v1, x1) = spec_pds_obtained_vessel_fragment(v, r); if x1 { (v1, true) } else { (v1, false) } } } else { (v, false) };
            (w, spec_should_split(b))
        },
        Split::NotchShrumalOgres => (v, spec_should_split((match r.notch_shroom_ogres { Some(n) => n, None => false }))),
        Split::NotchSalubra1 => (v, spec_should_split((match r.salubra_notch1 { Some(n) => n, None => false }))),
        Split::NotchSalubra2 => (v, spec_should_split((match r.salubra_notch2 { Some(n) => n, None => false }))),
        Split::NotchSalubra3 => (v, spec_should_split((match r.salubra_notch3 { Some(n) => n, None => false }))),
        Split::NotchSalubra4 => (v, spec_should_split((match r.salubra_notch4 { Some(n) => n, None => false }))),
        Split::NotchFogCanyon => (v, spec_should_split((match r.notch_fog_canyon { Some(n) => n, None => false }))),
        Split::NotchGrimm => (v, spec_should_split((match r.got_grimm_notch { Some(n) => n, None => false }))),
        Split::OnObtainCharmNotch => {
            let (w, b) = { let (v1, x1) = spec_pds_incremented_charm_slots(v, r); if x1 { (v1, true) } else { (v1, false) } };
            (w, spec_should_split(b))
        },
        Split::GatheringSwarm => (v, spec_should_split((match r.got_charm_1 { Some(c) => c, None => false }))),
        _ => (v, SplitterAction::Pass),
    }
}

/// The splits of group 11.
pub open spec fn in_continuous_group_11(s: Split) -> bool {
    s == Split::WaywardCompass || s == Split::Grubsong || s == Split::StalwartShell || s == Split::BaldurShell || s == Split::FuryOfTheFallen || s == Split::QuickFocus || s == Split::LifebloodHeart || s == Split::LifebloodCore || s == Split::DefendersCrest || s == Split::Flukenest || s == Split::ThornsOfAgony || s == Split::MarkOfPride
}

/// What the splits of group 11 ask for.
#[verifier::opaque]
pub open spec fn spec_continuous_group_11(v: PlayerDataView, s: Split, r: &GameReadings) -> (
    PlayerDataView,
    SplitterAction,
) {
    match s {
        Split::WaywardCompass => (v, spec_should_split((match r.got_charm_2 { Some(c) => c, None => false }))),
        Split::Grubsong => (v, spec_should_split((match r.got_charm_3 { Some(c) => c, None => false }))),
        Split::StalwartShell => (v, spec_should_split((match r.got_charm_4 { Some(c) => c, None => false }))),
        Split::BaldurShell => (v, spec_should_split((match r.got_charm_5 { Some(c) => c, None => false }))),
        Split::FuryOfTheFallen => (v, spec_should_split((match r.got_charm_6 { Some(c) => c, None => false }))),
        Split::QuickFocus => (v, spec_should_split((match r.got_charm_7 { Some(c) => c, None => false }))),
        Split::LifebloodHeart => (v, spec_should_split((match r.got_charm_8 { Some(c) => c, None => false }))),
        Split::LifebloodCore => (v, spec_should_split((match r.got_charm_9 { Some(c) => c, None => false }))),
        Split::DefendersCrest => (v, spec_should_split((match r.got_charm_10 { Some(c) => c, None => false }))),
        Split::Flukenest => (v, spec_should_split((match r.got_charm_11 { Some(c) => c, None => false }))),
        Split::ThornsOfAgony => (v, spec_should_split((match r.got_charm_12 { Some(c) => c, None => false }))),
        Split::MarkOfPride => (v, spec_should_split((match r.got_charm_13 { Some(c) => c, None => false }))),
        _ => (v, SplitterAction::Pass),
    }
}

/// The splits of group 12.
pub open spec fn in_continuous_group_12(s: Split) -> bool {
    s == Split::SteadyBody || s == Split::HeavyBlow || s == Split::SharpShadow || s == Split::SporeShroom || s == Split::Longnail || s == Split::ShamanStone || s == Split::SoulCatcher || s == Split::SoulEater || s == Split::GlowingWomb || s == Split::NailmastersGlory || s == Split::JonisBlessing || s == Split::ShapeOfUnn
}

/// What the splits of group 12 ask for.
#[verifier::opaque]
pub open spec fn spec_continuous_group_12(v: PlayerDataView, s: Split, r: &GameReadings) -> (
    PlayerDataView,
    SplitterAction,
) {
    match s {
        Split::SteadyBody => (v, spec_should_split((match r.got_charm_14 { Some(c) => c, None => false }))),
        Split::HeavyBlow => (v, spec_should_split((match r.got_charm_15 { Some(c) => c, None => false }))),
        Split::SharpShadow => (v, spec_should_split((match r.got_charm_16 { Some(c) => c, None => false }))),
        Split::SporeShroom => (v, spec_should_split((match r.got_charm_17 { Some(c) => c, None => false }))),
        Split::Longnail => (v, spec_should_split((match r.got_charm_18 { Some(c) => c, None => false }))),
        Split::ShamanStone => (v, spec_should_split((match r.got_charm_19 { Some(c) => c, None => false }))),
        Split::SoulCatcher => (v, spec_should_split((match r.got_charm_20 { Some(c) => c, None => false }))),
        Split::SoulEater => (v, spec_should_split((match r.got_charm_21 { Some(c) => c, None => false }))),
        Split::GlowingWomb => (v, spec_should_split((match r.got_charm_22 { Some(c) => c, None => false }))),
        Split::NailmastersGlory => (v, spec_should_split((match r.got_charm_26 { Some(c) => c, None => false }))),
        Split::JonisBlessing => (v, spec_should_split((match r.got_charm_27 { Some(c) => c, None => false }))),
        Split::ShapeOfUnn => (v, spec_should_split((match r.got_charm_28 { Some(c) => c, None => false }))),
        _ => (v, SplitterAction::Pass),
    }
}

/// The splits of group 13.
pub open spec fn in_continuous_group_13(s: Split) -> bool {
    s == Split::Hiveblood || s == Split::DreamWielder || s == Split::Dashmaster || s == Split::MenuDashmaster || s == Split::QuickSlash || s == Split::SpellTwister || s == Split::DeepFocus || s == Split::GrubberflysElegy || s == Split::Sprintmaster || s == Split::Dreamshield || s == Split::Weaversong || s == Split::FragileHeart
}

/// What the splits of group 13 ask for.
#[verifier::opaque]
pub open spec fn spec_continuous_group_13(v: PlayerDataView, s: Split, r: &GameReadings) -> (
    PlayerDataView,
    SplitterAction,
) {
    match s {
        Split::Hiveblood => (v, spec_should_split((match r.got_charm_29 { Some(c) => c, None => false }))),
        Split::DreamWielder => (v, spec_should_split((match r.got_charm_30 { Some(c) => c, None => false }))),
        Split::Dashmaster => (v, spec_should_split((match r.got_charm_31 { Some(c) => c, None => false }))),
        Split::MenuDashmaster => (spec_flag(v, "got_charm_31"@, spec_in_save(r), r.got_charm_31).0, SplitterAction::Pass),
        Split::QuickSlash => (v, spec_should_split((match r.got_charm_32 { Some(c) => c, None => false }))),
        Split::SpellTwister => (v, spec_should_split((match r.got_charm_33 { Some(c) => c, None => false }))),
        Split::DeepFocus => (v, spec_should_split((match r.got_charm_34 { Some(c) => c, None => false }))),
        Split::GrubberflysElegy => (v, spec_should_split((match r.got_charm_35 { Some(c) => c, None => false }))),
        Split::Sprintmaster => (v, spec_should_split((match r.got_charm_37 { Some(c) => c, None => false }))),
        Split::Dreamshield => (v, spec_should_split((match r.got_charm_38 { Some(c) => c, None => false }))),
        Split::Weaversong => (v, spec_should_split((match r.got_charm_39 { Some(c) => c, None => false }))),
        Split::FragileHeart => (v, spec_should_split((match r.got_charm_23 { Some(c) => c, None => false }))),
        _ => (v, SplitterAction::Pass),
    }
}

/// The splits of group 14.
pub open spec fn in_continuous_group_14(s: Split) -> bool {
    s == Split::UnbreakableHeart || s == Split::FragileGreed || s == Split::UnbreakableGreed || s == Split::FragileStrength || s == Split::UnbreakableStrength || s == Split::AllBreakables || s == Split::AllUnbreakables || s == Split::Grimmchild || s == Split::Grimmchild2 || s == Split::Grimmchild3 || s == Split::Grimmchild4 || s == Split::CarefreeMelody
}

/// What the splits of group 14 ask for.
#[verifier::opaque]
pub open spec fn spec_continuous_group_14(v: PlayerDataView, s: Split, r: &GameReadings) -> (
    PlayerDataView,
    SplitterAction,
) {
    match s {
        Split::UnbreakableHeart => (v, spec_should_split((match r.fragile_health_unbreakable { Some(c) => c, None => false }))),
        Split::FragileGreed => (v, spec_should_split((match r.got_charm_24 { Some(c) => c, None => false }))),
        Split::UnbreakableGreed => (v, spec_should_split((match r.fragile_greed_unbreakable { Some(c) => c, None => false }))),
        Split::FragileStrength => (v, spec_should_split((match r.got_charm_25 { Some(c) => c, None => false }))),
        Split::UnbreakableStrength => (v, spec_should_split((match r.fragile_strength_unbreakable { Some(c) => c, None => false }))),
        Split::AllBreakables => (v, spec_should_split((match r.broken_charm_23 { Some(b) => b, None => false }) && (match r.broken_charm_24 { Some(b) => b, None => false }) && (match r.broken_charm_25 { Some(b) => b, None => false }))),
        Split::AllUnbreakables => (v, spec_should_split((match r.fragile_greed_unbreakable { Some(u) => u, None => false }) && (match r.fragile_health_unbreakable { Some(u) => u, None => false }) && (match r.fragile_strength_unbreakable { Some(u) => u, None => false }))),
        Split::Grimmchild => (v, spec_should_split((match r.got_charm_40 { Some(c) => c, None => false }) && (match r.grimm_child_level { Some(l) => l <= 4, None => false }))),
        Split::Grimmchild2 => (v, spec_should_split((match r.grimm_child_level { Some(l) => 2 <= l && l <= 4, None => false }))),
        Split::Grimmchild3 => (v, spec_should_split((match r.grimm_child_level { Some(l) => 3 <= l && l <= 4, None => false }))),
        Split::Grimmchild4 => (v, spec_should_split((match r.grimm_child_level { Some(l) => l == 4, None => false }))),
        Split::CarefreeMelody => (v, spec_should_split((match r.got_charm_40 { Some(c) => c, None => false }) && (match r.grimm_child_level { Some(l) => l == 5, None => false }))),
        _ => (v, SplitterAction::Pass),
    }
}

/// The splits of group 15.
pub open spec fn in_continuous_group_15(s: Split) -> bool {
    s == Split::Flame1 || s == Split::Flame2 || s == Split::Flame3 || s == Split::BrummFlame || s == Split::WhiteFragmentLeft || s == Split::WhiteFragmentRight || s == Split::OnObtainWhiteFragment || s == Split::Kingsoul || s == Split::VoidHeart || s == Split::MenuVoidHeart || s == Split::RidingStag || s == Split::StagMoved
}

/// What the splits of group 15 ask for.
#[verifier::opaque]
pub open spec fn spec_continuous_group_15(v: PlayerDataView, s: Split, r: &GameReadings) -> (
    PlayerDataView,
    SplitterAction,
) {
    match s {
        Split::Flame1 => (v, spec_should_split((match r.flames_collected { Some(f) => 1 <= f, None => false }))),
        Split::Flame2 => (v, spec_should_split((match r.flames_collected { Some(f) => 2 <= f, None => false }))),
        Split::Flame3 => (v, spec_should_split((match r.flames_collected { Some(f) => 3 <= f, None => false }))),
        Split::BrummFlame => (v, spec_should_split((match r.got_brumms_flame { Some(f) => f, None => false }))),
        Split::WhiteFragmentLeft => (v, spec_should_split((match r.got_queen_fragment { Some(c) => c, None => false }))),
        Split::WhiteFragmentRight => (v, spec_should_split((match r.got_king_fragment { Some(c) => c, None => false }))),
        Split::OnObtainWhiteFragment => {
            let (w, b) = { let (v1, x1) = spec_pds_increased_royal_charm_state(v, r); if x1 { (v1, true) } else { (v1, false) } };
            (w, spec_should_split(b))
        },
        Split::Kingsoul => (v, spec_should_split((match r.charm_cost_36 { Some(c) => c == 5, None => false }) && (match r.royal_charm_state { Some(s) => s == 3, None => false }))),
        Split::VoidHeart => (v, spec_should_split((match r.got_shade_charm { Some(c) => c, None => false }))),
        Split::MenuVoidHeart => (spec_flag(v, "got_shade_charm"@, spec_in_save(r), r.got_shade_charm).0, SplitterAction::Pass),
        Split::RidingStag => {
            let (w, b) = { let (v1, x1) = spec_pds_changed_travelling_true(v, r); if x1 { (v1, true) } else { (v1, false) } };
            (w, spec_should_split(b))
        },
        Split::StagMoved => {
            let (w, b) = { let (v1, x1) = spec_pds_changed_stag_position(v, r); if x1 { (v1, true) } else { (v1, false) } };
            (w, spec_should_split(b))
        },
        _ => (v, SplitterAction::Pass),
    }
}

/// The splits of group 16.
pub open spec fn in_continuous_group_16(s: Split) -> bool {
    s == Split::CrossroadsStation || s == Split::GreenpathStation || s == Split::QueensStationStation || s == Split::StoreroomsStation || s == Split::KingsStationStation || s == Split::RestingGroundsStation || s == Split::HiddenStationStation || s == Split::DeepnestStation || s == Split::QueensGardensStation || s == Split::StagnestStation || s == Split::OnObtainWanderersJournal || s == Split::AllSeals
}

/// What the splits of group 16 ask for.
#[verifier::opaque]
pub open spec fn spec_continuous_group_16(v: PlayerDataView, s: Split, r: &GameReadings) -> (
    PlayerDataView,
    SplitterAction,
) {
    match s {
        Split::CrossroadsStation => (v, spec_should_split((match r.opened_crossroads { Some(o) => o, None => false }))),
        Split::GreenpathStation => (v, spec_should_split((match r.opened_greenpath { Some(o) => o, None => false }))),
        Split::QueensStationStation => (v, spec_should_split((match r.opened_fungal_wastes { Some(o) => o, None => false }))),
        Split::StoreroomsStation => (v, spec_should_split((match r.opened_ruins1 { Some(o) => o, None => false }))),
        Split::KingsStationStation => (v, spec_should_split((match r.opened_ruins2 { Some(o) => o, None => false }))),
        Split::RestingGroundsStation => (v, spec_should_split((match r.opened_resting_grounds { Some(o) => o, None => false }))),
        Split::HiddenStationStation => (v, spec_should_split((match r.opened_hidden_station { Some(o) => o, None => false }))),
        Split::DeepnestStation => (v, spec_should_split((match r.opened_deepnest { Some(o) => o, None => false }))),
        Split::QueensGardensStation => (v, spec_should_split((match r.opened_royal_gardens { Some(o) => o, None => false }))),
        Split::StagnestStation => (v, spec_should_split((match r.next_scene_name { Some(n) => n@ == "Cliffs_03"@, None => false }) && (match r.travelling { Some(t) => t, None => false }) && (match r.opened_stag_nest { Some(o) => o, None => false }))),
        Split::OnObtainWanderersJournal => {
            let (w, b) = { let (v1, x1) = spec_pds_incremented_trinket1(v, r); if x1 { (v1, true) } else { (v1, false) } };
            (w, spec_should_split(b))
        },
        Split::AllSeals => (v, spec_should_split(17 <= spec_or_zero(r.trinket2) + spec_or_zero(r.sold_trinket2))),
        _ => (v, SplitterAction::Pass),
    }
}

/// The splits of group 17.
pub open spec fn in_continuous_group_17(s: Split) -> bool {
    s == Split::OnObtainHallownestSeal || s == Split::SoulSanctumSeal || s == Split::OnObtainKingsIdol || s == Split::GladeIdol || s == Split::DungDefenderIdol || s == Split::ArcaneEgg8 || s == Split::OnObtainArcaneEgg || s == Split::OnObtainRancidEgg || s == Split::Grub1 || s == Split::Grub2 || s == Split::Grub3 || s == Split::Grub4
}

/// What the splits of group 17 ask for.
#[verifier::opaque]
pub open spec fn spec_continuous_group_17(v: PlayerDataView, s: Split, r: &GameReadings) -> (
    PlayerDataView,
    SplitterAction,
) {
    match s {
        Split::OnObtainHallownestSeal => {
            let (w, b) = { let (v1, x1) = spec_pds_incremented_trinket2(v, r); if x1 { (v1, true) } else { (v1, false) } };
            (w, spec_should_split(b))
        },
        Split::SoulSanctumSeal => {
            let (w, b) = { let (v1, x1) = spec_pds_incremented_trinket2(v, r); if x1 { (v1, (match r.scene_name { Some(s) => spec_starts_with(s@, "Ruins1_32"@), None => false })) } else { (v1, false) } };
            (w, spec_should_split(b))
        },
        Split::OnObtainKingsIdol => {
            let (w, b) = { let (v1, x1) = spec_pds_incremented_trinket3(v, r); if x1 { (v1, true) } else { (v1, false) } };
            (w, spec_should_split(b))
        },
        Split::GladeIdol => {
            let (w, b) = { let (v1, x1) = spec_pds_incremented_trinket3(v, r); if x1 { (v1, (match r.scene_name { Some(s) => spec_starts_with(s@, "RestingGrounds_08"@), None => false })) } else { (v1, false) } };
            (w, spec_should_split(b))
        },
        Split::DungDefenderIdol => {
            let (w, b) = { let (v1, x1) = spec_pds_incremented_trinket3(v, r); if x1 { (v1, (match r.scene_name { Some(s) => spec_starts_with(s@, "Waterways_15"@), None => false })) } else { (v1, false) } };
            (w, spec_should_split(b))
        },
        Split::ArcaneEgg8 => (v, spec_should_split(8 <= spec_or_zero(r.trinket4) + spec_or_zero(r.sold_trinket4))),
        Split::OnObtainArcaneEgg => {
            let (w, b) = { let (v1, x1) = spec_pds_incremented_trinket4(v, r); if x1 { (v1, true) } else { (v1, false) } };
            (w, spec_should_split(b))
        },
        Split::OnObtainRancidEgg => {
            let (w, b) = { let (v1, x1) = spec_pds_incremented_rancid_eggs(v, r); if x1 { (v1, true) } else { (v1, false) } };
            (w, spec_should_split(b))
        },
        Split::Grub1 => (v, spec_should_split((match r.grubs_collected { Some(g) => g == 1, None => false }))),
        Split::Grub2 => (v, spec_should_split((match r.grubs_collected { Some(g) => g == 2, None => false }))),
        Split::Grub3 => (v, spec_should_split((match r.grubs_collected { Some(g) => g == 3, None => false }))),
        Split::Grub4 => (v, spec_should_split((match r.grubs_collected { Some(g) => g == 4, None => false }))),
        _ => (v, SplitterAction::Pass),
    }
}

/// The splits of group 18.
pub open spec fn in_continuous_group_18(s: Split) -> bool {
    s == Split::Grub5 || s == Split::Grub6 || s == Split::Grub7 || s == Split::Grub8 || s == Split::Grub9 || s == Split::Grub10 || s == Split::Grub11 || s == Split::Grub12 || s == Split::Grub13 || s == Split::Grub14 || s == Split::Grub15 || s == Split::Grub16
}

/// What the splits of group 18 ask for.
#[verifier::opaque]
pub open spec fn spec_continuous_group_18(v: PlayerDataView, s: Split, r: &GameReadings) -> (
    PlayerDataView,
    SplitterAction,
) {
    match s {
        Split::Grub5 => (v, spec_should_split((match r.grubs_collected { Some(g) => g == 5, None => false }))),
        Split::Grub6 => (v, spec_should_split((match r.grubs_collected { Some(g) => g == 6, None => false }))),
        Split::Grub7 => (v, spec_should_split((match r.grubs_collected { Some(g) => g == 7, None => false }))),
        Split::Grub8 => (v, spec_should_split((match r.grubs_collected { Some(g) => g == 8, None => false }))),
        Split::Grub9 => (v, spec_should_split((match r.grubs_collected { Some(g) => g == 9, None => false }))),
        Split::Grub10 => (v, spec_should_split((match r.grubs_collected { Some(g) => g == 10, None => false }))),
        Split::Grub11 => (v, spec_should_split((match r.grubs_collected { Some(g) => g == 11, None => false }))),
        Split::Grub12 => (v, spec_should_split((match r.grubs_collected { Some(g) => g == 12, None => false }))),
        Split::Grub13 => (v, spec_should_split((match r.grubs_collected { Some(g) => g == 13, None => false }))),
        Split::Grub14 => (v, spec_should_split((match r.grubs_collected { Some(g) => g == 14, None => false }))),
        Split::Grub15 => (v, spec_should_split((match r.grubs_collected { Some(g) => g == 15, None => false }))),
        Split::Grub16 => (v, spec_should_split((match r.grubs_collected { Some(g) => g == 16, None => false }))),
        _ => (v, SplitterAction::Pass),
    }
}

/// The splits of group 19.
pub open spec fn in_continuous_group_19(s: Split) -> bool {
    s == Split::Grub17 || s == Split::Grub18 || s == Split::Grub19 || s == Split::Grub20 || s == Split::Grub21 || s == Split::Grub22 || s == Split::Grub23 || s == Split::Grub24 || s == Split::Grub25 || s == Split::Grub26 || s == Split::Grub27 || s == Split::Grub28
}

/// What the splits of group 19 ask for.
#[verifier::opaque]
pub open spec fn spec_continuous_group_19(v: PlayerDataView, s: Split, r: &GameReadings) -> (
    PlayerDataView,
    SplitterAction,
) {
    match s {
        Split::Grub17 => (v, spec_should_split((match r.grubs_collected { Some(g) => g == 17, None => false }))),
        Split::Grub18 => (v, spec_should_split((match r.grubs_collected { Some(g) => g == 18, None => false }))),
        Split::Grub19 => (v, spec_should_split((match r.grubs_collected { Some(g) => g == 19, None => false }))),
        Split::Grub20 => (v, spec_should_split((match r.grubs_collected { Some(g) => g == 20, None => false }))),
        Split::Grub21 => (v, spec_should_split((match r.grubs_collected { Some(g) => g == 21, None => false }))),
        Split::Grub22 => (v, spec_should_split((match r.grubs_collected { Some(g) => g == 22, None => false }))),
        Split::Grub23 => (v, spec_should_split((match r.grubs_collected { Some(g) => g == 23, None => false }))),
        Split::Grub24 => (v, spec_should_split((match r.grubs_collected { Some(g) => g == 24, None => false }))),
        Split::Grub25 => (v, spec_should_split((match r.grubs_collected { Some(g) => g == 25, None => false }))),
        Split::Grub26 => (v, spec_should_split((match r.grubs_collected { Some(g) => g == 26, None => false }))),
        Split::Grub27 => (v, spec_should_split((match r.grubs_collected { Some(g) => g == 27, None => false }))),
        Split::Grub28 => (v, spec_should_split((match r.grubs_collected { Some(g) => g == 28, None => false }))),
        _ => (v, SplitterAction::Pass),
    }
}

/// The splits of group 20.
pub open spec fn in_continuous_group_20(s: Split) -> bool {
    s == Split::Grub29 || s == Split::Grub30 || s == Split::Grub31 || s == Split::Grub32 || s == Split::Grub33 || s == Split::Grub34 || s == Split::Grub35 || s == Split::Grub36 || s == Split::Grub37 || s == Split::Grub38 || s == Split::Grub39 || s == Split::Grub40
}

/// What the splits of group 20 ask for.
#[verifier::opaque]
pub open spec fn spec_continuous_group_20(v: PlayerDataView, s: Split, r: &GameReadings) -> (
    PlayerDataView,
    SplitterAction,
) {
    match s {
        Split::Grub29 => (v, spec_should_split((match r.grubs_collected { Some(g) => g == 29, None => false }))),
        Split::Grub30 => (v, spec_should_split((match r.grubs_collected { Some(g) => g == 30, None => false }))),
        Split::Grub31 => (v, spec_should_split((match r.grubs_collected { Some(g) => g == 31, None => false }))),
        Split::Grub32 => (v, spec_should_split((match r.grubs_collected { Some(g) => g == 32, None => false }))),
        Split::Grub33 => (v, spec_should_split((match r.grubs_collected { Some(g) => g == 33, None => false }))),
        Split::Grub34 => (v, spec_should_split((match r.grubs_collected { Some(g) => g == 34, None => false }))),
        Split::Grub35 => (v, spec_should_split((match r.grubs_collected { Some(g) => g == 35, None => false }))),
        Split::Grub36 => (v, spec_should_split((match r.grubs_collected { Some(g) => g == 36, None => false }))),
        Split::Grub37 => (v, spec_should_split((match r.grubs_collected { Some(g) => g == 37, None => false }))),
        Split::Grub38 => (v, spec_should_split((match r.grubs_collected { Some(g) => g == 38, None => false }))),
        Split::Grub39 => (v, spec_should_split((match r.grubs_collected { Some(g) => g == 39, None => false }))),
        Split::Grub40 => (v, spec_should_split((match r.grubs_collected { Some(g) => g == 40, None => false }))),
        _ => (v, SplitterAction::Pass),
    }
}

/// The splits of group 21.
pub open spec fn in_continuous_group_21(s: Split) -> bool {
    s == Split::Grub41 || s == Split::Grub42 || s == Split::Grub43 || s == Split::Grub44 || s == Split::Grub45 || s == Split::Grub46 || s == Split::OnObtainGrub || s == Split::GrubBasinDive || s == Split::GrubBasinWings || s == Split::GrubCityBelowLoveTower || s == Split::GrubCityBelowSanctum || s == Split::GrubCityCollectorAll
}

/// What the splits of group 21 ask for.
#[verifier::opaque]
pub open spec fn spec_continuous_group_21(v: PlayerDataView, s: Split, r: &GameReadings) -> (
    PlayerDataView,
    SplitterAction,
) {
    match s {
        Split::Grub41 => (v, spec_should_split((match r.grubs_collected { Some(g) => g == 41, None => false }))),
        Split::Grub42 => (v, spec_should_split((match r.grubs_collected { Some(g) => g == 42, None => false }))),
        Split::Grub43 => (v, spec_should_split((match r.grubs_collected { Some(g) => g == 43, None => false }))),
        Split::Grub44 => (v, spec_should_split((match r.grubs_collected { Some(g) => g == 44, None => false }))),
        Split::Grub45 => (v, spec_should_split((match r.grubs_collected { Some(g) => g == 45, None => false }))),
        Split::Grub46 => (v, spec_should_split((match r.grubs_collected { Some(g) => g == 46, None => false }))),
        Split::OnObtainGrub => {
            let (w, b) = { let (v1, x1) = spec_pds_incremented_grubs_collected(v, r); if x1 { (v1, true) } else { (v1, false) } };
            (w, spec_should_split(b))
        },
        Split::GrubBasinDive => {
            let (w, b) = { let (v1, x1) = spec_pds_incremented_grubs_collected(v, r); if x1 { (v1, (match r.scene_name { Some(s) => s@ == "Abyss_17"@, None => false })) } else { (v1, false) } };
            (w, spec_should_split(b))
        },
        Split::GrubBasinWings => {
            let (w, b) = { let (v1, x1) = spec_pds_incremented_grubs_collected(v, r); if x1 { (v1, (match r.scene_name { Some(s) => s@ == "Abyss_19"@, None => false })) } else { (v1, false) } };
            (w, spec_should_split(b))
        },
        Split::GrubCityBelowLoveTower => {
            let (w, b) = { let (v1, x1) = spec_pds_incremented_grubs_collected(v, r); if x1 { (v1, (match r.scene_name { Some(s) => s@ == "Ruins2_07"@, None => false })) } else { (v1, false) } };
            (w, spec_should_split(b))
        },
        Split::GrubCityBelowSanctum => {
            let (w, b) = { let (v1, x1) = spec_pds_incremented_grubs_collected(v, r); if x1 { (v1, (match r.scene_name { Some(s) => s@ == "Ruins1_05"@, None => false })) } else { (v1, false) } };
            (w, spec_should_split(b))
        },
        Split::GrubCityCollectorAll => (v, spec_should_split(spec_has_scene(r.scenes_grub_rescued, "Ruins2_11"@))),
        _ => (v, SplitterAction::Pass),
    }
}

/// The splits of group 22.
pub open spec fn in_continuous_group_22(s: Split) -> bool {
    s == Split::GrubCityCollector || s == Split::GrubCityGuardHouse || s == Split::GrubCitySanctum || s == Split::GrubCitySpire || s == Split::GrubCliffsBaldurShell || s == Split::GrubCrossroadsAcid || s == Split::GrubCrossroadsGuarded || s == Split::GrubCrossroadsSpikes || s == Split::GrubCrossroadsVengefly || s == Split::GrubCrossroadsWall || s == Split::GrubCrystalPeaksBottomLever || s == Split::GrubCrystalPeaksCrown
}

/// What the splits of group 22 ask for.
#[verifier::opaque]
pub open spec fn spec_continuous_group_22(v: PlayerDataView, s: Split, r: &GameReadings) -> (
    PlayerDataView,
    SplitterAction,
) {
    match s {
        Split::GrubCityCollector => {
            let (w, b) = { let (v1, x1) = spec_pds_incremented_grubs_collected(v, r); if x1 { (v1, (match r.scene_name { Some(s) => s@ == "Ruins2_11"@, None => false })) } else { (v1, false) } };
            (w, spec_should_split(b))
        },
        Split::GrubCityGuardHouse => {
            let (w, b) = { let (v1, x1) = spec_pds_incremented_grubs_collected(v, r); if x1 { (v1, (match r.scene_name { Some(s) => s@ == "Ruins_House_01"@, None => false })) } else { (v1, false) } };
            (w, spec_should_split(b))
        },
        Split::GrubCitySanctum => {
            let (w, b) = { let (v1, x1) = spec_pds_incremented_grubs_collected(v, r); if x1 { (v1, (match r.scene_name { Some(s) => s@ == "Ruins1_32"@, None => false })) } else { (v1, false) } };
            (w, spec_should_split(b))
        },
        Split::GrubCitySpire => {
            let (w, b) = { let (v1, x1) = spec_pds_incremented_grubs_collected(v, r); if x1 { (v1, (match r.scene_name { Some(s) => s@ == "Ruins2_03"@, None => false })) } else { (v1, false) } };
            (w, spec_should_split(b))
        },
        Split::GrubCliffsBaldurShell => {
            let (w, b) = { let (v1, x1) = spec_pds_incremented_grubs_collected(v, r); if x1 { (v1, (match r.scene_name { Some(s) => s@ == "Fungus1_28"@, None => false })) } else { (v1, false) } };
            (w, spec_should_split(b))
        },
        Split::GrubCrossroadsAcid => {
            let (w, b) = { let (v1, x1) = spec_pds_incremented_grubs_collected(v, r); if x1 { (v1, (match r.scene_name { Some(s) => s@ == "Crossroads_35"@, None => false })) } else { (v1, false) } };
            (w, spec_should_split(b))
        },
        Split::GrubCrossroadsGuarded => {
            let (w, b) = { let (v1, x1) = spec_pds_incremented_grubs_collected(v, r); if x1 { (v1, (match r.scene_name { Some(s) => s@ == "Crossroads_48"@, None => false })) } else { (v1, false) } };
            (w, spec_should_split(b))
        },
        Split::GrubCrossroadsSpikes => {
            let (w, b) = { let (v1, x1) = spec_pds_incremented_grubs_collected(v, r); if x1 { (v1, (match r.scene_name { Some(s) => s@ == "Crossroads_31"@, None => false })) } else { (v1, false) } };
            (w, spec_should_split(b))
        },
        Split::GrubCrossroadsVengefly => {
            let (w, b) = { let (v1, x1) = spec_pds_incremented_grubs_collected(v, r); if x1 { (v1, (match r.scene_name { Some(s) => s@ == "Crossroads_05"@, None => false })) } else { (v1, false) } };
            (w, spec_should_split(b))
        },
        Split::GrubCrossroadsWall => {
            let (w, b) = { let (v1, x1) = spec_pds_incremented_grubs_collected(v, r); if x1 { (v1, (match r.scene_name { Some(s) => s@ == "Crossroads_03"@, None => false })) } else { (v1, false) } };
            (w, spec_should_split(b))
        },
        Split::GrubCrystalPeaksBottomLever => {
            let (w, b) = { let (v1, x1) = spec_pds_incremented_grubs_collected(v, r); if x1 { (v1, (match r.scene_name { Some(s) => s@ == "Mines_04"@, None => false })) } else { (v1, false) } };
            (w, spec_should_split(b))
        },
        Split::GrubCrystalPeaksCrown => {
            let (w, b) = { let (v1, x1) = spec_pds_incremented_grubs_collected(v, r); if x1 { (v1, (match r.scene_name { Some(s) => s@ == "Mines_24"@, None => false })) } else { (v1, false) } };
            (w, spec_should_split(b))
        },
        _ => (v, SplitterAction::Pass),
    }
}

/// The splits of group 23.
pub open spec fn in_continuous_group_23(s: Split) -> bool {
    s == Split::GrubCrystalPeaksCrushers || s == Split::GrubCrystalPeaksCrystalHeart || s == Split::GrubCrystalPeaksMimics || s == Split::GrubCrystalPeaksMound || s == Split::GrubCrystalPeaksSpikes || s == Split::GrubDeepnestBeastsDen || s == Split::GrubDeepnestDark || s == Split::GrubDeepnestMimics || s == Split::GrubDeepnestNosk || s == Split::GrubDeepnestSpikes || s == Split::GrubFogCanyonArchives || s == Split::GrubFungalBouncy
}

/// What the splits of group 23 ask for.
#[verifier::opaque]
pub open spec fn spec_continuous_group_23(v: PlayerDataView, s: Split, r: &GameReadings) -> (
    PlayerDataView,
    SplitterAction,
) {
    match s {
        Split::GrubCrystalPeaksCrushers => {
            let (w, b) = { let (v1, x1) = spec_pds_incremented_grubs_collected(v, r); if x1 { (v1, (match r.scene_name { Some(s) => s@ == "Mines_19"@, None => false })) } else { (v1, false) } };
            (w, spec_should_split(b))
        },
        Split::GrubCrystalPeaksCrystalHeart => {
            let (w, b) = { let (v1, x1) = spec_pds_incremented_grubs_collected(v, r); if x1 { (v1, (match r.scene_name { Some(s) => s@ == "Mines_31"@, None => false })) } else { (v1, false) } };
            (w, spec_should_split(b))
        },
        Split::GrubCrystalPeaksMimics => {
            let (w, b) = { let (v1, x1) = spec_pds_incremented_grubs_collected(v, r); if x1 { (v1, (match r.scene_name { Some(s) => s@ == "Mines_16"@, None => false })) } else { (v1, false) } };
            (w, spec_should_split(b))
        },
        Split::GrubCrystalPeaksMound => {
            let (w, b) = { let (v1, x1) = spec_pds_incremented_grubs_collected(v, r); if x1 { (v1, (match r.scene_name { Some(s) => s@ == "Mines_35"@, None => false })) } else { (v1, false) } };
            (w, spec_should_split(b))
        },
        Split::GrubCrystalPeaksSpikes => {
            let (w, b) = { let (v1, x1) = spec_pds_incremented_grubs_collected(v, r); if x1 { (v1, (match r.scene_name { Some(s) => s@ == "Mines_03"@, None => false })) } else { (v1, false) } };
            (w, spec_should_split(b))
        },
        Split::GrubDeepnestBeastsDen => {
            let (w, b) = { let (v1, x1) = spec_pds_incremented_grubs_collected(v, r); if x1 { (v1, (match r.scene_name { Some(s) => s@ == "Deepnest_Spider_Town"@, None => false })) } else { (v1, false) } };
            (w, spec_should_split(b))
        },
        Split::GrubDeepnestDark => {
            let (w, b) = { let (v1, x1) = spec_pds_incremented_grubs_collected(v, r); if x1 { (v1, (match r.scene_name { Some(s) => s@ == "Deepnest_39"@, None => false })) } else { (v1, false) } };
            (w, spec_should_split(b))
        },
        Split::GrubDeepnestMimics => {
            let (w, b) = { let (v1, x1) = spec_pds_incremented_grubs_collected(v, r); if x1 { (v1, (match r.scene_name { Some(s) => s@ == "Deepnest_36"@, None => false })) } else { (v1, false) } };
            (w, spec_should_split(b))
        },
        Split::GrubDeepnestNosk => {
            let (w, b) = { let (v1, x1) = spec_pds_incremented_grubs_collected(v, r); if x1 { (v1, (match r.scene_name { Some(s) => s@ == "Deepnest_31"@, None => false })) } else { (v1, false) } };
            (w, spec_should_split(b))
        },
        Split::GrubDeepnestSpikes => {
            let (w, b) = { let (v1, x1) = spec_pds_incremented_grubs_collected(v, r); if x1 { (v1, (match r.scene_name { Some(s) => s@ == "Deepnest_03"@, None => false })) } else { (v1, false) } };
            (w, spec_should_split(b))
        },
        Split::GrubFogCanyonArchives => {
            let (w, b) = { let (v1, x1) = spec_pds_incremented_grubs_collected(v, r); if x1 { (v1, (match r.scene_name { Some(s) => s@ == "Fungus3_47"@, None => false })) } else { (v1, false) } };
            (w, spec_should_split(b))
        },
        Split::GrubFungalBouncy => {
            let (w, b) = { let (v1, x1) = spec_pds_incremented_grubs_collected(v, r); if x1 { (v1, (match r.scene_name { Some(s) => s@ == "Fungus2_18"@, None => false })) } else { (v1, false) } };
            (w, spec_should_split(b))
        },
        _ => (v, SplitterAction::Pass),
    }
}

/// The splits of group 24.
pub open spec fn in_continuous_group_24(s: Split) -> bool {
    s == Split::GrubFungalSporeShroom || s == Split::GrubGreenpathCornifer || s == Split::GrubGreenpathHunter || s == Split::GrubGreenpathMossKnight || s == Split::GrubGreenpathVesselFragment || s == Split::GrubHiveExternal || s == Split::GrubHiveInternal || s == Split::GrubKingdomsEdgeCenter || s == Split::GrubKingdomsEdgeOro || s == Split::GrubQueensGardensBelowStag || s == Split::GrubQueensGardensUpper || s == Split::GrubQueensGardensWhiteLady
}

/// What the splits of group 24 ask for.
#[verifier::opaque]
pub open spec fn spec_continuous_group_24(v: PlayerDataView, s: Split, r: &GameReadings) -> (
    PlayerDataView,
    SplitterAction,
) {
    match s {
        Split::GrubFungalSporeShroom => {
            let (w, b) = { let (v1, x1) = spec_pds_incremented_grubs_collected(v, r); if x1 { (v1, (match r.scene_name { Some(s) => s@ == "Fungus2_20"@, None => false })) } else { (v1, false) } };
            (w, spec_should_split(b))
        },
        Split::GrubGreenpathCornifer => {
            let (w, b) = { let (v1, x1) = spec_pds_incremented_grubs_collected(v, r); if x1 { (v1, (match r.scene_name { Some(s) => s@ == "Fungus1_06"@, None => false })) } else { (v1, false) } };
            (w, spec_should_split(b))
        },
        Split::GrubGreenpathHunter => {
            let (w, b) = { let (v1, x1) = spec_pds_incremented_grubs_collected(v, r); if x1 { (v1, (match r.scene_name { Some(s) => s@ == "Fungus1_07"@, None => false })) } else { (v1, false) } };
            (w, spec_should_split(b))
        },
        Split::GrubGreenpathMossKnight => {
            let (w, b) = { let (v1, x1) = spec_pds_incremented_grubs_collected(v, r); if x1 { (v1, (match r.scene_name { Some(s) => s@ == "Fungus1_21"@, None => false })) } else { (v1, false) } };
            (w, spec_should_split(b))
        },
        Split::GrubGreenpathVesselFragment => {
            let (w, b) = { let (v1, x1) = spec_pds_incremented_grubs_collected(v, r); if x1 { (v1, (match r.scene_name { Some(s) => s@ == "Fungus1_13"@, None => false })) } else { (v1, false) } };
            (w, spec_should_split(b))
        },
        Split::GrubHiveExternal => {
            let (w, b) = { let (v1, x1) = spec_pds_incremented_grubs_collected(v, r); if x1 { (v1, (match r.scene_name { Some(s) => s@ == "Hive_03"@, None => false })) } else { (v1, false) } };
            (w, spec_should_split(b))
        },
        Split::GrubHiveInternal => {
            let (w, b) = { let (v1, x1) = spec_pds_incremented_grubs_collected(v, r); if x1 { (v1, (match r.scene_name { Some(s) => s@ == "Hive_04"@, None => false })) } else { (v1, false) } };
            (w, spec_should_split(b))
        },
        Split::GrubKingdomsEdgeCenter => {
            let (w, b) = { let (v1, x1) = spec_pds_incremented_grubs_collected(v, r); if x1 { (v1, (match r.scene_name { Some(s) => s@ == "Deepnest_East_11"@, None => false })) } else { (v1, false) } };
            (w, spec_should_split(b))
        },
        Split::GrubKingdomsEdgeOro => {
            let (w, b) = { let (v1, x1) = spec_pds_incremented_grubs_collected(v, r); if x1 { (v1, (match r.scene_name { Some(s) => s@ == "Deepnest_East_14"@, None => false })) } else { (v1, false) } };
            (w, spec_should_split(b))
        },
        Split::GrubQueensGardensBelowStag => {
            let (w, b) = { let (v1, x1) = spec_pds_incremented_grubs_collected(v, r); if x1 { (v1, (match r.scene_name { Some(s) => s@ == "Fungus3_10"@, None => false })) } else { (v1, false) } };
            (w, spec_should_split(b))
        },
        Split::GrubQueensGardensUpper => {
            let (w, b) = { let (v1, x1) = spec_pds_incremented_grubs_collected(v, r); if x1 { (v1, (match r.scene_name { Some(s) => s@ == "Fungus3_22"@, None => false })) } else { (v1, false) } };
            (w, spec_should_split(b))
        },
        Split::GrubQueensGardensWhiteLady => {
            let (w, b) = { let (v1, x1) = spec_pds_incremented_grubs_collected(v, r); if x1 { (v1, (match r.scene_name { Some(s) => s@ == "Fungus3_48"@, None => false })) } else { (v1, false) } };
            (w, spec_should_split(b))
        },
        _ => (v, SplitterAction::Pass),
    }
}

/// The splits of group 25.
pub open spec fn in_continuous_group_25(s: Split) -> bool {
    s == Split::GrubRestingGroundsCrypts || s == Split::GrubWaterwaysCenter || s == Split::GrubWaterwaysHwurmps || s == Split::GrubWaterwaysIsma || s == Split::Mimic1 || s == Split::Mimic2 || s == Split::Mimic3 || s == Split::Mimic4 || s == Split::Mimic5 || s == Split::Essence100 || s == Split::Essence200 || s == Split::Essence300
}

/// What the splits of group 25 ask for.
#[verifier::opaque]
pub open spec fn spec_continuous_group_25(v: PlayerDataView, s: Split, r: &GameReadings) -> (
    PlayerDataView,
    SplitterAction,
) {
    match s {
        Split::GrubRestingGroundsCrypts => {
            let (w, b) = { let (v1, x1) = spec_pds_incremented_grubs_collected(v, r); if x1 { (v1, (match r.scene_name { Some(s) => s@ == "RestingGrounds_10"@, None => false })) } else { (v1, false) } };
            (w, spec_should_split(b))
        },
        Split::GrubWaterwaysCenter => {
            let (w, b) = { let (v1, x1) = spec_pds_incremented_grubs_collected(v, r); if x1 { (v1, (match r.scene_name { Some(s) => s@ == "Waterways_04"@, None => false })) } else { (v1, false) } };
            (w, spec_should_split(b))
        },
        Split::GrubWaterwaysHwurmps => {
            let (w, b) = { let (v1, x1) = spec_pds_incremented_grubs_collected(v, r); if x1 { (v1, (match r.scene_name { Some(s) => s@ == "Waterways_14"@, None => false })) } else { (v1, false) } };
            (w, spec_should_split(b))
        },
        Split::GrubWaterwaysIsma => {
            let (w, b) = { let (v1, x1) = spec_pds_incremented_grubs_collected(v, r); if x1 { (v1, (match r.scene_name { Some(s) => s@ == "Waterways_13"@, None => false })) } else { (v1, false) } };
            (w, spec_should_split(b))
        },
        Split::Mimic1 => (v, spec_should_split((match r.kills_grub_mimic { Some(k) => k == 4, None => false }))),
        Split::Mimic2 => (v, spec_should_split((match r.kills_grub_mimic { Some(k) => k == 3, None => false }))),
        Split::Mimic3 => (v, spec_should_split((match r.kills_grub_mimic { Some(k) => k == 2, None => false }))),
        Split::Mimic4 => (v, spec_should_split((match r.kills_grub_mimic { Some(k) => k == 1, None => false }))),
        Split::Mimic5 => (v, spec_should_split((match r.kills_grub_mimic { Some(k) => k == 0, None => false }))),
        Split::Essence100 => (v, spec_should_split((match r.dream_orbs { Some(o) => 100 <= o, None => false }))),
        Split::Essence200 => (v, spec_should_split((match r.dream_orbs { Some(o) => 200 <= o, None => false }))),
        Split::Essence300 => (v, spec_should_split((match r.dream_orbs { Some(o) => 300 <= o, None => false }))),
        _ => (v, SplitterAction::Pass),
    }
}

/// The splits of group 26.
pub open spec fn in_continuous_group_26(s: Split) -> bool {
    s == Split::Essence400 || s == Split::Essence500 || s == Split::Essence600 || s == Split::Essence700 || s == Split::Essence800 || s == Split::Essence900 || s == Split::Essence1000 || s == Split::Essence1100 || s == Split::Essence1200 || s == Split::Essence1300 || s == Split::Essence1400 || s == Split::Essence1500
}

/// What the splits of group 26 ask for.
#[verifier::opaque]
pub open spec fn spec_continuous_group_26(v: PlayerDataView, s: Split, r: &GameReadings) -> (
    PlayerDataView,
    SplitterAction,
) {
    match s {
        Split::Essence400 => (v, spec_should_split((match r.dream_orbs { Some(o) => 400 <= o, None => false }))),
        Split::Essence500 => (v, spec_should_split((match r.dream_orbs { Some(o) => 500 <= o, None => false }))),
        Split::Essence600 => (v, spec_should_split((match r.dream_orbs { Some(o) => 600 <= o, None => false }))),
        Split::Essence700 => (v, spec_should_split((match r.dream_orbs { Some(o) => 700 <= o, None => false }))),
        Split::Essence800 => (v, spec_should_split((match r.dream_orbs { Some(o) => 800 <= o, None => false }))),
        Split::Essence900 => (v, spec_should_split((match r.dream_orbs { Some(o) => 900 <= o, None => false }))),
        Split::Essence1000 => (v, spec_should_split((match r.dream_orbs { Some(o) => 1000 <= o, None => false }))),
        Split::Essence1100 => (v, spec_should_split((match r.dream_orbs { Some(o) => 1100 <= o, None => false }))),
        Split::Essence1200 => (v, spec_should_split((match r.dream_orbs { Some(o) => 1200 <= o, None => false }))),
        Split::Essence1300 => (v, spec_should_split((match r.dream_orbs { Some(o) => 1300 <= o, None => false }))),
        Split::Essence1400 => (v, spec_should_split((match r.dream_orbs { Some(o) => 1400 <= o, None => false }))),
        Split::Essence1500 => (v, spec_should_split((match r.dream_orbs { Some(o) => 1500 <= o, None => false }))),
        _ => (v, SplitterAction::Pass),
    }
}

/// The splits of group 27.
pub open spec fn in_continuous_group_27(s: Split) -> bool {
    s == Split::Essence1600 || s == Split::Essence1700 || s == Split::Essence1800 || s == Split::Essence1900 || s == Split::Essence2000 || s == Split::Essence2100 || s == Split::Essence2200 || s == Split::Essence2300 || s == Split::Essence2400 || s == Split::TreeCity || s == Split::TreeCliffs || s == Split::TreeCrossroads
}

/// What the splits of group 27 ask for.
#[verifier::opaque]
pub open spec fn spec_continuous_group_27(v: PlayerDataView, s: Split, r: &GameReadings) -> (
    PlayerDataView,
    SplitterAction,
) {
    match s {
        Split::Essence1600 => (v, spec_should_split((match r.dream_orbs { Some(o) => 1600 <= o, None => false }))),
        Split::Essence1700 => (v, spec_should_split((match r.dream_orbs { Some(o) => 1700 <= o, None => false }))),
        Split::Essence1800 => (v, spec_should_split((match r.dream_orbs { Some(o) => 1800 <= o, None => false }))),
        Split::Essence1900 => (v, spec_should_split((match r.dream_orbs { Some(o) => 1900 <= o, None => false }))),
        Split::Essence2000 => (v, spec_should_split((match r.dream_orbs { Some(o) => 2000 <= o, None => false }))),
        Split::Essence2100 => (v, spec_should_split((match r.dream_orbs { Some(o) => 2100 <= o, None => false }))),
        Split::Essence2200 => (v, spec_should_split((match r.dream_orbs { Some(o) => 2200 <= o, None => false }))),
        Split::Essence2300 => (v, spec_should_split((match r.dream_orbs { Some(o) => 2300 <= o, None => false }))),
        Split::Essence2400 => (v, spec_should_split((match r.dream_orbs { Some(o) => 2400 <= o, None => false }))),
        Split::TreeCity => (v, spec_should_split(spec_has_scene(r.scenes_encountered_dream_plant_c, "Ruins1_17"@))),
        Split::TreeCliffs => (v, spec_should_split(spec_has_scene(r.scenes_encountered_dream_plant_c, "Cliffs_01"@))),
        Split::TreeCrossroads => (v, spec_should_split(spec_has_scene(r.scenes_encountered_dream_plant_c, "Crossroads_07"@))),
        _ => (v, SplitterAction::Pass),
    }
}

/// The splits of group 28.
pub open spec fn in_continuous_group_28(s: Split) -> bool {
    s == Split::TreeDeepnest || s == Split::TreeGlade || s == Split::TreeGreenpath || s == Split::TreeHive || s == Split::TreeKingdomsEdge || s == Split::TreeLegEater || s == Split::TreeMantisVillage || s == Split::TreeMound || s == Split::TreePeak || s == Split::TreeQueensGardens || s == Split::TreeRestingGrounds || s == Split::TreeWaterways
}

/// What the splits of group 28 ask for.
#[verifier::opaque]
pub open spec fn spec_continuous_group_28(v: PlayerDataView, s: Split, r: &GameReadings) -> (
    PlayerDataView,
    SplitterAction,
) {
    match s {
        Split::TreeDeepnest => (v, spec_should_split(spec_has_scene(r.scenes_encountered_dream_plant_c, "Deepnest_39"@))),
        Split::TreeGlade => (v, spec_should_split(spec_has_scene(r.scenes_encountered_dream_plant_c, "RestingGrounds_08"@))),
        Split::TreeGreenpath => (v, spec_should_split(spec_has_scene(r.scenes_encountered_dream_plant_c, "Fungus1_13"@))),
        Split::TreeHive => (v, spec_should_split(spec_has_scene(r.scenes_encountered_dream_plant_c, "Hive_02"@))),
        Split::TreeKingdomsEdge => (v, spec_should_split(spec_has_scene(r.scenes_encountered_dream_plant_c, "Deepnest_East_07"@))),
        Split::TreeLegEater => (v, spec_should_split(spec_has_scene(r.scenes_encountered_dream_plant_c, "Fungus2_33"@))),
        Split::TreeMantisVillage => (v, spec_should_split(spec_has_scene(r.scenes_encountered_dream_plant_c, "Fungus2_17"@))),
        Split::TreeMound => (v, spec_should_split(spec_has_scene(r.scenes_encountered_dream_plant_c, "Crossroads_ShamanTemple"@))),
        Split::TreePeak => (v, spec_should_split(spec_has_scene(r.scenes_encountered_dream_plant_c, "Mines_23"@))),
        Split::TreeQueensGardens => (v, spec_should_split(spec_has_scene(r.scenes_encountered_dream_plant_c, "Fungus3_11"@))),
        Split::TreeRestingGrounds => (v, spec_should_split(spec_has_scene(r.scenes_encountered_dream_plant_c, "RestingGrounds_05"@))),
        Split::TreeWaterways => (v, spec_should_split(spec_has_scene(r.scenes_encountered_dream_plant_c, "Abyss_01"@))),
        _ => (v, SplitterAction::Pass),
    }
}

/// The splits of group 29.
pub open spec fn in_continuous_group_29(s: Split) -> bool {
    s == Split::OnObtainGhostMarissa || s == Split::OnObtainGhostCaelifFera || s == Split::OnObtainGhostPoggy || s == Split::OnObtainGhostGravedigger || s == Split::OnObtainGhostJoni || s == Split::MapDirtmouth || s == Split::MapCrossroads || s == Split::MapGreenpath || s == Split::MapFogCanyon || s == Split::MapRoyalGardens || s == Split::MapFungalWastes || s == Split::MapCity
}

/// What the splits of group 29 ask for.
#[verifier::opaque]
pub open spec fn spec_continuous_group_29(v: PlayerDataView, s: Split, r: &GameReadings) -> (
    PlayerDataView,
    SplitterAction,
) {
    match s {
        Split::OnObtainGhostMarissa => {
            let (w, b) = { let (v1, x1) = spec_pds_incremented_dream_orbs(v, r); if x1 { (v1, (match r.scene_name { Some(s) => s@ == "Ruins_Bathhouse"@, None => false })) } else { (v1, false) } };
            (w, spec_should_split(b))
        },
        Split::OnObtainGhostCaelifFera => {
            let (w, b) = { let (v1, x1) = spec_pds_incremented_dream_orbs(v, r); if x1 { (v1, (match r.scene_name { Some(s) => s@ == "Fungus1_24"@, None => false })) } else { (v1, false) } };
            (w, spec_should_split(b))
        },
        Split::OnObtainGhostPoggy => {
            let (w, b) = { let (v1, x1) = spec_pds_incremented_dream_orbs(v, r); if x1 { (v1, (match r.scene_name { Some(s) => s@ == "Ruins_Elevator"@, None => false })) } else { (v1, false) } };
            (w, spec_should_split(b))
        },
        Split::OnObtainGhostGravedigger => {
            let (w, b) = { let (v1, x1) = spec_pds_incremented_dream_orbs(v, r); if x1 { (v1, (match r.scene_name { Some(s) => s@ == "Town"@, None => false })) } else { (v1, false) } };
            (w, spec_should_split(b))
        },
        Split::OnObtainGhostJoni => {
            let (w, b) = { let (v1, x1) = spec_pds_incremented_dream_orbs(v, r); if x1 { (v1, (match r.scene_name { Some(s) => s@ == "Cliffs_05"@, None => false })) } else { (v1, false) } };
            (w, spec_should_split(b))
        },
        Split::MapDirtmouth => (v, spec_should_split((match r.map_dirtmouth { Some(m) => m, None => false }))),
        Split::MapCrossroads => (v, spec_should_split((match r.map_crossroads { Some(m) => m, None => false }))),
        Split::MapGreenpath => (v, spec_should_split((match r.map_greenpath { Some(m) => m, None => false }))),
        Split::MapFogCanyon => (v, spec_should_split((match r.map_fog_canyon { Some(m) => m, None => false }))),
        Split::MapRoyalGardens => (v, spec_should_split((match r.map_royal_gardens { Some(m) => m, None => false }))),
        Split::MapFungalWastes => (v, spec_should_split((match r.map_fungal_wastes { Some(m) => m, None => false }))),
        Split::MapCity => (v, spec_should_split((match r.map_city { Some(m) => m, None => false }))),
        _ => (v, SplitterAction::Pass),
    }
}

/// The splits of group 30.
pub open spec fn in_continuous_group_30(s: Split) -> bool {
    s == Split::MapWaterways || s == Split::MapMines || s == Split::MapDeepnest || s == Split::MapCliffs || s == Split::MapOutskirts || s == Split::MapRestingGrounds || s == Split::MapAbyss || s == Split::CorniferAtHome || s == Split::Dirtmouth || s == Split::SlyShopFinished || s == Split::ElderbugFlower || s == Split::TroupeMasterGrimm
}

/// What the splits of group 30 ask for.
#[verifier::opaque]
pub open spec fn spec_continuous_group_30(v: PlayerDataView, s: Split, r: &GameReadings) -> (
    PlayerDataView,
    SplitterAction,
) {
    match s {
        Split::MapWaterways => (v, spec_should_split((match r.map_waterways { Some(m) => m, None => false }))),
        Split::MapMines => (v, spec_should_split((match r.map_mines { Some(m) => m, None => false }))),
        Split::MapDeepnest => (v, spec_should_split((match r.map_deepnest { Some(m) => m, None => false }))),
        Split::MapCliffs => (v, spec_should_split((match r.map_cliffs { Some(m) => m, None => false }))),
        Split::MapOutskirts => (v, spec_should_split((match r.map_outskirts { Some(m) => m, None => false }))),
        Split::MapRestingGrounds => (v, spec_should_split((match r.map_resting_grounds { Some(m) => m, None => false }))),
        Split::MapAbyss => (v, spec_should_split((match r.map_abyss { Some(m) => m, None => false }))),
        Split::CorniferAtHome => (spec_flag(v, "cornifer_at_home"@, spec_in_save(r), r.cornifer_at_home).0, SplitterAction::Pass),
        Split::Dirtmouth => (v, spec_should_split((match r.visited_dirtmouth { Some(v) => v, None => false }))),
        Split::SlyShopFinished => (spec_flag(v, "sly_shop_finished"@, spec_in_save(r), spec_sly_shop_finished(r)).0, SplitterAction::Pass),
        Split::ElderbugFlower => (v, spec_should_split((match r.elderbug_gave_flower { Some(g) => g, None => false }))),
        Split::TroupeMasterGrimm => (v, spec_should_split((match r.killed_grimm { Some(k) => k, None => false }))),
        _ => (v, SplitterAction::Pass),
    }
}

/// The splits of group 31.
pub open spec fn in_continuous_group_31(s: Split) -> bool {
    s == Split::NightmareKingGrimm || s == Split::GreyPrince || s == Split::GreyPrinceEssence || s == Split::ForgottenCrossroads || s == Split::InfectedCrossroads || s == Split::MenderBug || s == Split::BroodingMawlek || s == Split::AspidHunter || s == Split::BenchCrossroadsStag || s == Split::GruzMother || s == Split::SlyRescued || s == Split::FalseKnight
}

/// What the splits of group 31 ask for.
#[verifier::opaque]
pub open spec fn spec_continuous_group_31(v: PlayerDataView, s: Split, r: &GameReadings) -> (
    PlayerDataView,
    SplitterAction,
) {
    match s {
        Split::NightmareKingGrimm => (v, spec_should_split((match r.killed_nightmare_grimm { Some(k) => k, None => false }))),
        Split::GreyPrince => (v, spec_should_split((match r.killed_grey_prince { Some(k) => k, None => false }))),
        Split::GreyPrinceEssence => (v, spec_should_split((match r.grey_prince_orbs_collected { Some(o) => o, None => false }))),
        Split::ForgottenCrossroads => (v, spec_should_split((match r.visited_crossroads { Some(v) => v, None => false }) && (match r.scene_name { Some(s) => spec_starts_with(s@, "Crossroads_"@), None => false }))),
        Split::InfectedCrossroads => (v, spec_should_split((match r.crossroads_infected { Some(i) => i, None => false }) && (match r.visited_crossroads { Some(v) => v, None => false }))),
        Split::MenderBug => (v, spec_should_split((match r.killed_mender_bug { Some(k) => k, None => false }))),
        Split::BroodingMawlek => (v, spec_should_split((match r.killed_mawlek { Some(k) => k, None => false }))),
        Split::AspidHunter => {
            let (w, o) = spec_pds_aspid_hunter_arena(v, r);
            (w, spec_should_split_skip(o))
        },
        Split::BenchCrossroadsStag => (v, spec_should_split((match r.at_bench { Some(b) => b, None => false }) && (match r.scene_name { Some(s) => s@ == "Crossroads_47"@, None => false }))),
        Split::GruzMother => (v, spec_should_split((match r.killed_big_fly { Some(f) => f, None => false }))),
        Split::SlyRescued => (v, spec_should_split((match r.sly_rescued { Some(s) => s, None => false }))),
        Split::FalseKnight => (v, spec_should_split((match r.killed_false_knight { Some(k) => k, None => false }))),
        _ => (v, SplitterAction::Pass),
    }
}

/// The splits of group 32.
pub open spec fn in_continuous_group_32(s: Split) -> bool {
    s == Split::FailedKnight || s == Split::FailedChampionEssence || s == Split::SalubrasBlessing || s == Split::PureSnail || s == Split::UnchainedHollowKnight || s == Split::HollowKnightBoss || s == Split::RadianceBoss || s == Split::Greenpath || s == Split::MossKnight || s == Split::Zote1 || s == Split::VengeflyKingTrans || s == Split::BenchGreenpathStag
}

/// What the splits of group 32 ask for.
#[verifier::opaque]
pub open spec fn spec_continuous_group_32(v: PlayerDataView, s: Split, r: &GameReadings) -> (
    PlayerDataView,
    SplitterAction,
) {
    match s {
        Split::FailedKnight => (v, spec_should_split((match r.false_knight_dream_defeated { Some(k) => k, None => false }))),
        Split::FailedChampionEssence => (v, spec_should_split((match r.false_knight_orbs_collected { Some(o) => o, None => false }))),
        Split::SalubrasBlessing => (v, spec_should_split((match r.salubra_blessing { Some(b) => b, None => false }))),
        Split::PureSnail => {
            let (w, b) = { let (v1, x1) = spec_pds_pure_snail(v, r); if x1 { (v1, true) } else { (v1, false) } };
            (w, spec_should_split(b))
        },
        Split::UnchainedHollowKnight => (v, spec_should_split((match r.unchained_hollow_knight { Some(u) => u, None => false }))),
        Split::HollowKnightBoss => (v, spec_should_split((match r.killed_hollow_knight { Some(k) => k, None => false }))),
        Split::RadianceBoss => (v, spec_should_split((match r.killed_final_boss { Some(k) => k, None => false }))),
        Split::Greenpath => (v, spec_should_split((match r.visited_greenpath { Some(v) => v, None => false }))),
        Split::MossKnight => (v, spec_should_split((match r.killed_moss_knight { Some(k) => k, None => false }))),
        Split::Zote1 => (v, spec_should_split((match r.zote_rescued_buzzer { Some(z) => z, None => false }))),
        Split::VengeflyKingTrans => (spec_flag(v, "zote_rescued_buzzer"@, spec_in_save(r), r.zote_rescued_buzzer).0, SplitterAction::Pass),
        Split::BenchGreenpathStag => (v, spec_should_split((match r.at_bench { Some(b) => b, None => false }) && (match r.scene_name { Some(s) => s@ == "Fungus1_16_alt"@, None => false }))),
        _ => (v, SplitterAction::Pass),
    }
}

/// The splits of group 33.
pub open spec fn in_continuous_group_33(s: Split) -> bool {
    s == Split::Hornet1 || s == Split::Aluba || s == Split::HuntersMark || s == Split::NoEyes || s == Split::NoEyesEssence || s == Split::MegaMossCharger || s == Split::MegaMossChargerTrans || s == Split::HappyCouplePlayerDataEvent || s == Split::FungalWastes || s == Split::BenchQueensStation || s == Split::ElderHu || s == Split::ElderHuEssence
}

/// What the splits of group 33 ask for.
#[verifier::opaque]
pub open spec fn spec_continuous_group_33(v: PlayerDataView, s: Split, r: &GameReadings) -> (
    PlayerDataView,
    SplitterAction,
) {
    match s {
        Split::Hornet1 => (v, spec_should_split((match r.killed_hornet { Some(k) => k, None => false }))),
        Split::Aluba => (v, spec_should_split((match r.killed_lazy_flyer { Some(k) => k, None => false }))),
        Split::HuntersMark => (v, spec_should_split((match r.killed_hunter_mark { Some(k) => k, None => false }))),
        Split::NoEyes => (v, spec_should_split((match r.killed_ghost_no_eyes { Some(k) => k, None => false }))),
        Split::NoEyesEssence => (v, spec_should_split((match r.no_eyes_defeated { Some(d) => d == 2, None => false }))),
        Split::MegaMossCharger => (v, spec_should_split((match r.mega_moss_charger_defeated { Some(k) => k, None => false }))),
        Split::MegaMossChargerTrans => (spec_flag(v, "mega_moss_charger_defeated"@, spec_in_save(r), r.mega_moss_charger_defeated).0, SplitterAction::Pass),
        Split::HappyCouplePlayerDataEvent => (v, spec_should_split((match r.nailsmith_convo_art { Some(c) => c, None => false }))),
        Split::FungalWastes => (v, spec_should_split((match r.visited_fungus { Some(v) => v, None => false }))),
        Split::BenchQueensStation => (v, spec_should_split((match r.at_bench { Some(b) => b, None => false }) && (match r.scene_name { Some(s) => s@ == "Fungus2_02"@, None => false }))),
        Split::ElderHu => (v, spec_should_split((match r.killed_ghost_hu { Some(k) => k, None => false }))),
        Split::ElderHuEssence => (v, spec_should_split((match r.elder_hu_defeated { Some(d) => d == 2, None => false }))),
        _ => (v, SplitterAction::Pass),
    }
}

/// The splits of group 34.
pub open spec fn in_continuous_group_34(s: Split) -> bool {
    s == Split::ElderHuTrans || s == Split::BrettaRescued || s == Split::MantisLords || s == Split::Gorb || s == Split::GorbEssence || s == Split::NightmareLantern || s == Split::NightmareLanternDestroyed || s == Split::RestingGrounds || s == Split::BenchRGStag || s == Split::Xero || s == Split::XeroEssence || s == Split::SpiritGladeOpen
}

/// What the splits of group 34 ask for.
#[verifier::opaque]
pub open spec fn spec_continuous_group_34(v: PlayerDataView, s: Split, r: &GameReadings) -> (
    PlayerDataView,
    SplitterAction,
) {
    match s {
        Split::ElderHuTrans => (spec_flag(v, "killed_ghost_hu"@, spec_in_save(r), r.killed_ghost_hu).0, SplitterAction::Pass),
        Split::BrettaRescued => (v, spec_should_split((match r.bretta_rescued { Some(b) => b, None => false }))),
        Split::MantisLords => (v, spec_should_split((match r.defeated_mantis_lords { Some(k) => k, None => false }))),
        Split::Gorb => (v, spec_should_split((match r.killed_ghost_aladar { Some(k) => k, None => false }))),
        Split::GorbEssence => (v, spec_should_split((match r.aladar_slug_defeated { Some(d) => d == 2, None => false }))),
        Split::NightmareLantern => (v, spec_should_split((match r.nightmare_lantern_lit { Some(l) => l, None => false }))),
        Split::NightmareLanternDestroyed => (v, spec_should_split((match r.destroyed_nightmare_lantern { Some(l) => l, None => false }))),
        Split::RestingGrounds => (v, spec_should_split((match r.visited_resting_grounds { Some(v) => v, None => false }))),
        Split::BenchRGStag => (v, spec_should_split((match r.at_bench { Some(b) => b, None => false }) && (match r.scene_name { Some(s) => s@ == "RestingGrounds_09"@, None => false }))),
        Split::Xero => (v, spec_should_split((match r.killed_ghost_xero { Some(k) => k, None => false }))),
        Split::XeroEssence => (v, spec_should_split((match r.xero_defeated { Some(d) => d == 2, None => false }))),
        Split::SpiritGladeOpen => (v, spec_should_split((match r.glade_door_opened { Some(o) => o, None => false }))),
        _ => (v, SplitterAction::Pass),
    }
}

/// The splits of group 35.
pub open spec fn in_continuous_group_35(s: Split) -> bool {
    s == Split::SeerDeparts || s == Split::MetGreyMourner || s == Split::GreyMournerSeerAscended || s == Split::CityGateOpen || s == Split::CityGateAndMantisLords || s == Split::CityOfTears || s == Split::GorgeousHusk || s == Split::TransGorgeousHusk || s == Split::MenuGorgeousHusk || s == Split::Lemm2 || s == Split::AllCharmNotchesLemm2CP || s == Split::TollBenchCity
}

/// What the splits of group 35 ask for.
#[verifier::opaque]
pub open spec fn spec_continuous_group_35(v: PlayerDataView, s: Split, r: &GameReadings) -> (
    PlayerDataView,
    SplitterAction,
) {
    match s {
        Split::SeerDeparts => (v, spec_should_split((match r.moth_departed { Some(d) => d, None => false }))),
        Split::MetGreyMourner => (v, spec_should_split((match r.met_xun { Some(m) => m, None => false }))),
        Split::GreyMournerSeerAscended => (v, spec_should_split((match r.met_xun { Some(m) => m, None => false }) && (match r.moth_departed { Some(d) => d, None => false }))),
        Split::CityGateOpen => (v, spec_should_split((match r.opened_city_gate { Some(o) => o, None => false }))),
        Split::CityGateAndMantisLords => (v, spec_should_split((match r.opened_city_gate { Some(o) => o, None => false }) && (match r.defeated_mantis_lords { Some(k) => k, None => false }))),
        Split::CityOfTears => (v, spec_should_split((match r.visited_ruins { Some(v) => v, None => false }))),
        Split::GorgeousHusk => {
            let (w, b) = { let (v1, x1) = spec_flag(v, "killed_gorgeous_husk"@, spec_in_save(r), r.killed_gorgeous_husk); if x1 { (v1, true) } else { (v1, false) } };
            (w, spec_should_split(b))
        },
        Split::TransGorgeousHusk => (spec_flag(v, "killed_gorgeous_husk"@, spec_in_save(r), r.killed_gorgeous_husk).0, SplitterAction::Pass),
        Split::MenuGorgeousHusk => (spec_flag(v, "killed_gorgeous_husk"@, spec_in_save(r), r.killed_gorgeous_husk).0, SplitterAction::Pass),
        Split::Lemm2 => (v, spec_should_split((match r.met_relic_dealer_shop { Some(m) => m, None => false }))),
        Split::AllCharmNotchesLemm2CP => (v, spec_should_split((match spec_sold_trinkets_geo(r) { Some(g) => 6100 <= g, None => false }))),
        Split::TollBenchCity => (v, spec_should_split((match r.toll_bench_city { Some(b) => b, None => false }))),
        _ => (v, SplitterAction::Pass),
    }
}

/// The splits of group 36.
pub open spec fn in_continuous_group_36(s: Split) -> bool {
    s == Split::KilledSoulTwister || s == Split::KilledSanctumWarrior || s == Split::SoulMasterEncountered || s == Split::SoulMasterPhase1 || s == Split::SoulMaster || s == Split::SoulTyrant || s == Split::SoulTyrantEssence || s == Split::SoulTyrantEssenceWithSanctumGrub || s == Split::BenchStorerooms || s == Split::BenchKingsStation || s == Split::BenchSpire || s == Split::BenchSpireGHS
}

/// What the splits of group 36 ask for.
#[verifier::opaque]
pub open spec fn spec_continuous_group_36(v: PlayerDataView, s: Split, r: &GameReadings) -> (
    PlayerDataView,
    SplitterAction,
) {
    match s {
        Split::KilledSoulTwister => (v, spec_should_split((match r.killed_mage { Some(k) => k, None => false }))),
        Split::KilledSanctumWarrior => (v, spec_should_split((match r.killed_mage_knight { Some(k) => k, None => false }))),
        Split::SoulMasterEncountered => (v, spec_should_split((match r.mage_lord_encountered { Some(b) => b, None => false }))),
        Split::SoulMasterPhase1 => (v, spec_should_split((match r.mage_lord_encountered_2 { Some(b) => b, None => false }))),
        Split::SoulMaster => (v, spec_should_split((match r.killed_mage_lord { Some(k) => k, None => false }))),
        Split::SoulTyrant => (v, spec_should_split((match r.mage_lord_dream_defeated { Some(k) => k, None => false }))),
        Split::SoulTyrantEssence => (v, spec_should_split((match r.mage_lord_orbs_collected { Some(o) => o, None => false }))),
        Split::SoulTyrantEssenceWithSanctumGrub => (v, spec_should_split((match r.mage_lord_orbs_collected { Some(o) => o, None => false }) && spec_has_scene(r.scenes_grub_rescued, "Ruins1_32"@))),
        Split::BenchStorerooms => (v, spec_should_split((match r.at_bench { Some(b) => b, None => false }) && (match r.scene_name { Some(s) => s@ == "Ruins1_29"@, None => false }))),
        Split::BenchKingsStation => (v, spec_should_split((match r.at_bench { Some(b) => b, None => false }) && (match r.scene_name { Some(s) => s@ == "Ruins2_08"@, None => false }))),
        Split::BenchSpire => (v, spec_should_split((match r.at_bench { Some(b) => b, None => false }) && (match r.scene_name { Some(s) => s@ == "Ruins1_18"@, None => false }))),
        Split::BenchSpireGHS => (v, spec_should_split((match r.at_bench { Some(b) => b, None => false }) && (match r.scene_name { Some(s) => s@ == "Ruins1_18"@, None => false }) && (match r.kills_great_shield_zombie { Some(k) => k < 10, None => false }))),
        _ => (v, SplitterAction::Pass),
    }
}

/// The splits of group 37.
pub open spec fn in_continuous_group_37(s: Split) -> bool {
    s == Split::WatcherChandelier || s == Split::BlackKnight || s == Split::BlackKnightTrans || s == Split::Collector || s == Split::TransCollector || s == Split::NailsmithKilled || s == Split::NailsmithChoice || s == Split::CrystalPeak || s == Split::HuskMiner || s == Split::CrystalGuardian1 || s == Split::CrystalGuardian2 || s == Split::MineLiftOpened
}

/// What the splits of group 37 ask for.
#[verifier::opaque]
pub open spec fn spec_continuous_group_37(v: PlayerDataView, s: Split, r: &GameReadings) -> (
    PlayerDataView,
    SplitterAction,
) {
    match s {
        Split::WatcherChandelier => (v, spec_should_split((match r.watcher_chandelier { Some(c) => c, None => false }))),
        Split::BlackKnight => (v, spec_should_split((match r.killed_black_knight { Some(k) => k, None => false }))),
        Split::BlackKnightTrans => (spec_flag(v, "killed_black_knight"@, spec_in_save(r), r.killed_black_knight).0, SplitterAction::Pass),
        Split::Collector => (v, spec_should_split((match r.collector_defeated { Some(k) => k, None => false }))),
        Split::TransCollector => (spec_flag(v, "collector_defeated"@, spec_in_save(r), r.collector_defeated).0, SplitterAction::Pass),
        Split::NailsmithKilled => (v, spec_should_split((match r.nailsmith_killed { Some(k) => k, None => false }))),
        Split::NailsmithChoice => (v, if (match r.nailsmith_killed { Some(k) => k, None => false }) { SplitterAction::Split } else { spec_should_skip(match r.nailsmith_spared { Some(s) => s, None => false }) }),
        Split::CrystalPeak => (v, spec_should_split((match r.visited_mines { Some(v) => v, None => false }))),
        Split::HuskMiner => {
            let (w, b) = { let (v1, x1) = spec_pds_decremented_kills_zombie_miner(v, r); if x1 { (v1, true) } else { (v1, false) } };
            (w, spec_should_split(b))
        },
        Split::CrystalGuardian1 => (v, spec_should_split((match r.defeated_mega_beam_miner { Some(k) => k, None => false }))),
        Split::CrystalGuardian2 => (v, spec_should_split((match r.kills_mega_beam_miner { Some(k) => k == 0, None => false }))),
        Split::MineLiftOpened => (v, spec_should_split((match r.mine_lift_opened { Some(o) => o, None => false }))),
        _ => (v, SplitterAction::Pass),
    }
}

/// The splits of group 38.
pub open spec fn in_continuous_group_38(s: Split) -> bool {
    s == Split::WaterwaysManhole || s == Split::RoyalWaterways || s == Split::DungDefender || s == Split::WhiteDefender || s == Split::WhiteDefenderEssence || s == Split::MetEmilitia || s == Split::GivenEmilitiaFlower || s == Split::Flukemarm || s == Split::Abyss || s == Split::SavedCloth || s == Split::TollBenchBasin || s == Split::BrokenVessel
}

/// What the splits of group 38 ask for.
#[verifier::opaque]
pub open spec fn spec_continuous_group_38(v: PlayerDataView, s: Split, r: &GameReadings) -> (
    PlayerDataView,
    SplitterAction,
) {
    match s {
        Split::WaterwaysManhole => (v, spec_should_split((match r.opened_waterways_manhole { Some(o) => o, None => false }))),
        Split::RoyalWaterways => (v, spec_should_split((match r.visited_waterways { Some(v) => v, None => false }))),
        Split::DungDefender => (v, spec_should_split((match r.killed_dung_defender { Some(k) => k, None => false }))),
        Split::WhiteDefender => (v, spec_should_split((match r.killed_white_defender { Some(k) => k, None => false }))),
        Split::WhiteDefenderEssence => (v, spec_should_split((match r.white_defender_orbs_collected { Some(o) => o, None => false }))),
        Split::MetEmilitia => (v, spec_should_split((match r.met_emilitia { Some(m) => m, None => false }))),
        Split::GivenEmilitiaFlower => (v, spec_should_split((match r.given_emilitia_flower { Some(g) => g, None => false }))),
        Split::Flukemarm => (v, spec_should_split((match r.killed_fluke_mother { Some(k) => k, None => false }))),
        Split::Abyss => (v, spec_should_split((match r.visited_abyss { Some(v) => v, None => false }))),
        Split::SavedCloth => (v, spec_should_split((match r.saved_cloth { Some(s) => s, None => false }))),
        Split::TollBenchBasin => (v, spec_should_split((match r.toll_bench_abyss { Some(b) => b, None => false }))),
        Split::BrokenVessel => (v, spec_should_split((match r.killed_infected_knight { Some(k) => k, None => false }))),
        _ => (v, SplitterAction::Pass),
    }
}

/// The splits of group 39.
pub open spec fn in_continuous_group_39(s: Split) -> bool {
    s == Split::BrokenVesselTrans || s == Split::LostKin || s == Split::LostKinEssence || s == Split::BenchHiddenStation || s == Split::WhitePalace || s == Split::WhitePalaceOrb1 || s == Split::WhitePalaceOrb3 || s == Split::WhitePalaceOrb2 || s == Split::PathOfPain || s == Split::WhitePalaceSecretRoom || s == Split::KingdomsEdge || s == Split::Hive
}

/// What the splits of group 39 ask for.
#[verifier::opaque]
pub open spec fn spec_continuous_group_39(v: PlayerDataView, s: Split, r: &GameReadings) -> (
    PlayerDataView,
    SplitterAction,
) {
    match s {
        Split::BrokenVesselTrans => (spec_flag(v, "killed_infected_knight"@, spec_in_save(r), r.killed_infected_knight).0, SplitterAction::Pass),
        Split::LostKin => (v, spec_should_split((match r.infected_knight_dream_defeated { Some(k) => k, None => false }))),
        Split::LostKinEssence => (v, spec_should_split((match r.infected_knight_orbs_collected { Some(o) => o, None => false }))),
        Split::BenchHiddenStation => (v, spec_should_split((match r.at_bench { Some(b) => b, None => false }) && (match r.scene_name { Some(s) => s@ == "Abyss_22"@, None => false }))),
        Split::WhitePalace => (v, spec_should_split((match r.visited_white_palace { Some(v) => v, None => false }))),
        Split::WhitePalaceOrb1 => (v, spec_should_split((match r.white_palace_orb_1 { Some(o) => o, None => false }))),
        Split::WhitePalaceOrb3 => (v, spec_should_split((match r.white_palace_orb_3 { Some(o) => o, None => false }))),
        Split::WhitePalaceOrb2 => (v, spec_should_split((match r.white_palace_orb_2 { Some(o) => o, None => false }))),
        Split::PathOfPain => (v, spec_should_split((match r.new_data_binding_seal { Some(n) => n, None => false }))),
        Split::WhitePalaceSecretRoom => (v, spec_should_split((match r.white_palace_secret_room_visited { Some(v) => v, None => false }))),
        Split::KingdomsEdge => (v, spec_should_split((match r.visited_outskirts { Some(v) => v, None => false }))),
        Split::Hive => (v, spec_should_split((match r.visited_hive { Some(v) => v, None => false }))),
        _ => (v, SplitterAction::Pass),
    }
}

/// The splits of group 40.
pub open spec fn in_continuous_group_40(s: Split) -> bool {
    s == Split::HiveKnight || s == Split::GreatHopper || s == Split::GivenOroFlower || s == Split::Hornet2 || s == Split::Markoth || s == Split::MarkothEssence || s == Split::LittleFool || s == Split::ColosseumBronzeUnlocked || s == Split::Colosseum || s == Split::Bronze1a || s == Split::Bronze1b || s == Split::Bronze1c
}

/// What the splits of group 40 ask for.
#[verifier::opaque]
pub open spec fn spec_continuous_group_40(v: PlayerDataView, s: Split, r: &GameReadings) -> (
    PlayerDataView,
    SplitterAction,
) {
    match s {
        Split::HiveKnight => (v, spec_should_split((match r.killed_hive_knight { Some(k) => k, None => false }))),
        Split::GreatHopper => (v, spec_should_split((match r.killed_giant_hopper { Some(k) => k, None => false }))),
        Split::GivenOroFlower => (v, spec_should_split((match r.given_oro_flower { Some(g) => g, None => false }))),
        Split::Hornet2 => (v, spec_should_split((match r.hornet_outskirts_defeated { Some(k) => k, None => false }))),
        Split::Markoth => (v, spec_should_split((match r.killed_ghost_markoth { Some(k) => k, None => false }))),
        Split::MarkothEssence => (v, spec_should_split((match r.markoth_defeated { Some(d) => d == 2, None => false }))),
        Split::LittleFool => (v, spec_should_split((match r.little_fool_met { Some(m) => m, None => false }))),
        Split::ColosseumBronzeUnlocked => (v, spec_should_split((match r.colosseum_bronze_opened { Some(o) => o, None => false }))),
        Split::Colosseum => (v, spec_should_split((match r.seen_colosseum_title { Some(s) => s, None => false }))),
        Split::Bronze1a => {
            let (w, o) = spec_pds_bronze1a(v, r);
            (w, spec_should_split_skip(o))
        },
        Split::Bronze1b => {
            let (w, o) = spec_pds_bronze1b(v, r);
            (w, spec_should_split_skip(o))
        },
        Split::Bronze1c => {
            let (w, o) = spec_pds_bronze1c(v, r);
            (w, spec_should_split_skip(o))
        },
        _ => (v, SplitterAction::Pass),
    }
}

/// The splits of group 41.
pub open spec fn in_continuous_group_41(s: Split) -> bool {
    s == Split::Bronze2 || s == Split::Bronze3a || s == Split::Bronze3b || s == Split::Bronze4 || s == Split::Bronze5 || s == Split::Bronze6 || s == Split::Bronze7 || s == Split::Bronze8a || s == Split::Bronze8b || s == Split::Bronze9 || s == Split::Bronze10 || s == Split::Bronze11a
}

/// What the splits of group 41 ask for.
#[verifier::opaque]
pub open spec fn spec_continuous_group_41(v: PlayerDataView, s: Split, r: &GameReadings) -> (
    PlayerDataView,
    SplitterAction,
) {
    match s {
        Split::Bronze2 => {
            let (w, o) = spec_pds_bronze2(v, r);
            (w, spec_should_split_skip(o))
        },
        Split::Bronze3a => {
            let (w, o) = spec_pds_bronze3a(v, r);
            (w, spec_should_split_skip(o))
        },
        Split::Bronze3b => {
            let (w, o) = spec_pds_bronze3b(v, r);
            (w, spec_should_split_skip(o))
        },
        Split::Bronze4 => {
            let (w, o) = spec_pds_bronze4(v, r);
            (w, spec_should_split_skip(o))
        },
        Split::Bronze5 => {
            let (w, o) = spec_pds_bronze5(v, r);
            (w, spec_should_split_skip(o))
        },
        Split::Bronze6 => {
            let (w, o) = spec_pds_bronze6(v, r);
            (w, spec_should_split_skip(o))
        },
        Split::Bronze7 => {
            let (w, o) = spec_pds_bronze7(v, r);
            (w, spec_should_split_skip(o))
        },
        Split::Bronze8a => {
            let (w, o) = spec_pds_bronze8a(v, r);
            (w, spec_should_split_skip(o))
        },
        Split::Bronze8b => {
            let (w, o) = spec_pds_bronze8b(v, r);
            (w, spec_should_split_skip(o))
        },
        Split::Bronze9 => {
            let (w, o) = spec_pds_bronze9(v, r);
            (w, spec_should_split_skip(o))
        },
        Split::Bronze10 => {
            let (w, o) = spec_pds_bronze10(v, r);
            (w, spec_should_split_skip(o))
        },
        Split::Bronze11a => {
            let (w, o) = spec_pds_bronze11a(v, r);
            (w, spec_should_split_skip(o))
        },
        _ => (v, SplitterAction::Pass),
    }
}

/// The splits of group 42.
pub open spec fn in_continuous_group_42(s: Split) -> bool {
    s == Split::Bronze11b || s == Split::BronzeEnd || s == Split::ZoteKilled || s == Split::ColosseumBronze || s == Split::ColosseumBronzeExit || s == Split::ColosseumSilverUnlocked || s == Split::Silver1 || s == Split::Silver2 || s == Split::Silver3 || s == Split::Silver4 || s == Split::Silver5 || s == Split::Silver6
}

/// What the splits of group 42 ask for.
#[verifier::opaque]
pub open spec fn spec_continuous_group_42(v: PlayerDataView, s: Split, r: &GameReadings) -> (
    PlayerDataView,
    SplitterAction,
) {
    match s {
        Split::Bronze11b => {
            let (w, o) = spec_pds_bronze11b(v, r);
            (w, spec_should_split_skip(o))
        },
        Split::BronzeEnd => {
            let (w, o) = spec_pds_bronze_end(v, r);
            (w, spec_should_split_skip(o))
        },
        Split::ZoteKilled => (v, spec_should_split((match r.killed_zote { Some(k) => k, None => false }))),
        Split::ColosseumBronze => (v, spec_should_split((match r.colosseum_bronze_completed { Some(c) => c, None => false }))),
        Split::ColosseumBronzeExit => (spec_flag(v, "colosseum_bronze_completed"@, spec_in_save(r), r.colosseum_bronze_completed).0, SplitterAction::Pass),
        Split::ColosseumSilverUnlocked => (v, spec_should_split((match r.colosseum_silver_opened { Some(o) => o, None => false }))),
        Split::Silver1 => {
            let (w, o) = spec_pds_silver1(v, r);
            (w, spec_should_split_skip(o))
        },
        Split::Silver2 => {
            let (w, o) = spec_pds_silver2(v, r);
            (w, spec_should_split_skip(o))
        },
        Split::Silver3 => {
            let (w, o) = spec_pds_silver3(v, r);
            (w, spec_should_split_skip(o))
        },
        Split::Silver4 => {
            let (w, o) = spec_pds_silver4(v, r);
            (w, spec_should_split_skip(o))
        },
        Split::Silver5 => {
            let (w, o) = spec_pds_silver5(v, r);
            (w, spec_should_split_skip(o))
        },
        Split::Silver6 => {
            let (w, o) = spec_pds_silver6(v, r);
            (w, spec_should_split_skip(o))
        },
        _ => (v, SplitterAction::Pass),
    }
}

/// The splits of group 43.
pub open spec fn in_continuous_group_43(s: Split) -> bool {
    s == Split::Silver7 || s == Split::Silver8 || s == Split::Silver9 || s == Split::Silver10 || s == Split::Silver11 || s == Split::Silver12 || s == Split::Silver13 || s == Split::Silver14 || s == Split::Silver15 || s == Split::Silver16 || s == Split::SilverEnd || s == Split::KilledOblobbles
}

/// What the splits of group 43 ask for.
#[verifier::opaque]
pub open spec fn spec_continuous_group_43(v: PlayerDataView, s: Split, r: &GameReadings) -> (
    PlayerDataView,
    SplitterAction,
) {
    match s {
        Split::Silver7 => {
            let (w, o) = spec_pds_silver7(v, r);
            (w, spec_should_split_skip(o))
        },
        Split::Silver8 => {
            let (w, o) = spec_pds_silver8(v, r);
            (w, spec_should_split_skip(o))
        },
        Split::Silver9 => {
            let (w, o) = spec_pds_silver9(v, r);
            (w, spec_should_split_skip(o))
        },
        Split::Silver10 => {
            let (w, o) = spec_pds_silver10(v, r);
            (w, spec_should_split_skip(o))
        },
        Split::Silver11 => {
            let (w, o) = spec_pds_silver11(v, r);
            (w, spec_should_split_skip(o))
        },
        Split::Silver12 => {
            let (w, o) = spec_pds_silver12(v, r);
            (w, spec_should_split_skip(o))
        },
        Split::Silver13 => {
            let (w, o) = spec_pds_silver13(v, r);
            (w, spec_should_split_skip(o))
        },
        Split::Silver14 => {
            let (w, o) = spec_pds_silver14(v, r);
            (w, spec_should_split_skip(o))
        },
        Split::Silver15 => {
            let (w, o) = spec_pds_silver15(v, r);
            (w, spec_should_split_skip(o))
        },
        Split::Silver16 => {
            let (w, o) = spec_pds_silver16(v, r);
            (w, spec_should_split_skip(o))
        },
        Split::SilverEnd => {
            let (w, o) = spec_pds_silver_end(v, r);
            (w, spec_should_split_skip(o))
        },
        Split::KilledOblobbles => {
            let (w, o) = spec_pds_killed_oblobbles(v, r);
            (w, spec_should_split_skip(o))
        },
        _ => (v, SplitterAction::Pass),
    }
}

/// The splits of group 44.
pub open spec fn in_continuous_group_44(s: Split) -> bool {
    s == Split::ColosseumSilver || s == Split::ColosseumSilverExit || s == Split::ColosseumGoldUnlocked || s == Split::Gold1 || s == Split::Gold3 || s == Split::Gold4 || s == Split::Gold5 || s == Split::Gold6 || s == Split::Gold7 || s == Split::Gold8a || s == Split::Gold8 || s == Split::Gold9a
}

/// What the splits of group 44 ask for.
#[verifier::opaque]
pub open spec fn spec_continuous_group_44(v: PlayerDataView, s: Split, r: &GameReadings) -> (
    PlayerDataView,
    SplitterAction,
) {
    match s {
        Split::ColosseumSilver => (v, spec_should_split((match r.colosseum_silver_completed { Some(c) => c, None => false }))),
        Split::ColosseumSilverExit => (spec_flag(v, "colosseum_silver_completed"@, spec_in_save(r), r.colosseum_silver_completed).0, SplitterAction::Pass),
        Split::ColosseumGoldUnlocked => (v, spec_should_split((match r.colosseum_gold_opened { Some(o) => o, None => false }))),
        Split::Gold1 => {
            let (w, o) = spec_pds_gold1(v, r);
            (w, spec_should_split_skip(o))
        },
        Split::Gold3 => {
            let (w, o) = spec_pds_gold3(v, r);
            (w, spec_should_split_skip(o))
        },
        Split::Gold4 => {
            let (w, o) = spec_pds_gold4(v, r);
            (w, spec_should_split_skip(o))
        },
        Split::Gold5 => {
            let (w, o) = spec_pds_gold5(v, r);
            (w, spec_should_split_skip(o))
        },
        Split::Gold6 => {
            let (w, o) = spec_pds_gold6(v, r);
            (w, spec_should_split_skip(o))
        },
        Split::Gold7 => {
            let (w, o) = spec_pds_gold7(v, r);
            (w, spec_should_split_skip(o))
        },
        Split::Gold8a => {
            let (w, o) = spec_pds_gold8a(v, r);
            (w, spec_should_split_skip(o))
        },
        Split::Gold8 => {
            let (w, o) = spec_pds_gold8(v, r);
            (w, spec_should_split_skip(o))
        },
        Split::Gold9a => {
            let (w, o) = spec_pds_gold9a(v, r);
            (w, spec_should_split_skip(o))
        },
        _ => (v, SplitterAction::Pass),
    }
}

/// The splits of group 45.
pub open spec fn in_continuous_group_45(s: Split) -> bool {
    s == Split::Gold9b || s == Split::Gold10 || s == Split::Gold11 || s == Split::Gold12a || s == Split::Gold12b || s == Split::Gold14a || s == Split::Gold14b || s == Split::Gold15 || s == Split::Gold16 || s == Split::Gold17a || s == Split::Gold17b || s == Split::Gold17c
}

/// What the splits of group 45 ask for.
#[verifier::opaque]
pub open spec fn spec_continuous_group_45(v: PlayerDataView, s: Split, r: &GameReadings) -> (
    PlayerDataView,
    SplitterAction,
) {
    match s {
        Split::Gold9b => {
            let (w, o) = spec_pds_gold9b(v, r);
            (w, spec_should_split_skip(o))
        },
        Split::Gold10 => {
            let (w, o) = spec_pds_gold10(v, r);
            (w, spec_should_split_skip(o))
        },
        Split::Gold11 => {
            let (w, o) = spec_pds_gold11(v, r);
            (w, spec_should_split_skip(o))
        },
        Split::Gold12a => {
            let (w, o) = spec_pds_gold12a(v, r);
            (w, spec_should_split_skip(o))
        },
        Split::Gold12b => {
            let (w, o) = spec_pds_gold12b(v, r);
            (w, spec_should_split_skip(o))
        },
        Split::Gold14a => {
            let (w, o) = spec_pds_gold14a(v, r);
            (w, spec_should_split_skip(o))
        },
        Split::Gold14b => {
            let (w, o) = spec_pds_gold14b(v, r);
            (w, spec_should_split_skip(o))
        },
        Split::Gold15 => {
            let (w, o) = spec_pds_gold15(v, r);
            (w, spec_should_split_skip(o))
        },
        Split::Gold16 => {
            let (w, o) = spec_pds_gold16(v, r);
            (w, spec_should_split_skip(o))
        },
        Split::Gold17a => {
            let (w, o) = spec_pds_gold17a(v, r);
            (w, spec_should_split_skip(o))
        },
        Split::Gold17b => {
            let (w, o) = spec_pds_gold17b(v, r);
            (w, spec_should_split_skip(o))
        },
        Split::Gold17c => {
            let (w, o) = spec_pds_gold17c(v, r);
            (w, spec_should_split_skip(o))
        },
        _ => (v, SplitterAction::Pass),
    }
}

/// The splits of group 46.
pub open spec fn in_continuous_group_46(s: Split) -> bool {
    s == Split::GoldEnd || s == Split::GodTamer || s == Split::ColosseumGold || s == Split::ColosseumGoldExit || s == Split::FogCanyon || s == Split::UumuuEncountered || s == Split::Uumuu || s == Split::QueensGardens || s == Split::TollBenchQG || s == Split::FlowerQuest || s == Split::Marmu || s == Split::MarmuEssence
}

/// What the splits of group 46 ask for.
#[verifier::opaque]
pub open spec fn spec_continuous_group_46(v: PlayerDataView, s: Split, r: &GameReadings) -> (
    PlayerDataView,
    SplitterAction,
) {
    match s {
        Split::GoldEnd => {
            let (w, o) = spec_pds_gold_end(v, r);
            (w, spec_should_split_skip(o))
        },
        Split::GodTamer => (v, spec_should_split((match r.killed_lobster_lancer { Some(k) => k, None => false }))),
        Split::ColosseumGold => (v, spec_should_split((match r.colosseum_gold_completed { Some(c) => c, None => false }))),
        Split::ColosseumGoldExit => (spec_flag(v, "colosseum_gold_completed"@, spec_in_save(r), r.colosseum_gold_completed).0, SplitterAction::Pass),
        Split::FogCanyon => (v, spec_should_split((match r.visited_fog_canyon { Some(v) => v, None => false }))),
        Split::UumuuEncountered => (v, spec_should_split((match r.encountered_mega_jelly { Some(b) => b, None => false }))),
        Split::Uumuu => (v, spec_should_split((match r.killed_mega_jellyfish { Some(k) => k, None => false }))),
        Split::QueensGardens => (v, spec_should_split((match r.visited_royal_gardens { Some(v) => v, None => false }))),
        Split::TollBenchQG => (v, spec_should_split((match r.toll_bench_queens_gardens { Some(b) => b, None => false }))),
        Split::FlowerQuest => (v, spec_should_split((match r.xun_flower_given { Some(g) => g, None => false }))),
        Split::Marmu => (v, spec_should_split((match r.killed_ghost_marmu { Some(k) => k, None => false }))),
        Split::MarmuEssence => (v, spec_should_split((match r.mum_caterpillar_defeated { Some(d) => d == 2, None => false }))),
        _ => (v, SplitterAction::Pass),
    }
}

/// The splits of group 47.
pub open spec fn in_continuous_group_47(s: Split) -> bool {
    s == Split::BenchQGStag || s == Split::TraitorLord || s == Split::GivenWhiteLadyFlower || s == Split::Deepnest || s == Split::DeepnestSpa || s == Split::Zote2 || s == Split::TramDeepnest || s == Split::Nosk || s == Split::Galien || s == Split::GalienEssence || s == Split::BeastsDenTrapBench || s == Split::GodTuner
}

/// What the splits of group 47 ask for.
#[verifier::opaque]
pub open spec fn spec_continuous_group_47(v: PlayerDataView, s: Split, r: &GameReadings) -> (
    PlayerDataView,
    SplitterAction,
) {
    match s {
        Split::BenchQGStag => (v, spec_should_split((match r.at_bench { Some(b) => b, None => false }) && (match r.scene_name { Some(s) => s@ == "Fungus3_40"@, None => false }))),
        Split::TraitorLord => (v, spec_should_split((match r.killed_traitor_lord { Some(k) => k, None => false }))),
        Split::GivenWhiteLadyFlower => (v, spec_should_split((match r.given_white_lady_flower { Some(g) => g, None => false }))),
        Split::Deepnest => (v, spec_should_split((match r.visited_deepnest { Some(v) => v, None => false }))),
        Split::DeepnestSpa => (v, spec_should_split((match r.visited_deepnest_spa { Some(v) => v, None => false }))),
        Split::Zote2 => (v, spec_should_split((match r.zote_rescued_deepnest { Some(z) => z, None => false }))),
        Split::TramDeepnest => (v, spec_should_split((match r.opened_tram_lower { Some(o) => o, None => false }))),
        Split::Nosk => (v, spec_should_split((match r.killed_mimic_spider { Some(k) => k, None => false }))),
        Split::Galien => (v, spec_should_split((match r.killed_ghost_galien { Some(k) => k, None => false }))),
        Split::GalienEssence => (v, spec_should_split((match r.galien_defeated { Some(d) => d == 2, None => false }))),
        Split::BeastsDenTrapBench => (v, spec_should_split((match r.spider_capture { Some(c) => c, None => false }))),
        Split::GodTuner => (v, spec_should_split((match r.has_godfinder { Some(g) => g, None => false }))),
        _ => (v, SplitterAction::Pass),
    }
}

/// The splits of group 48.
pub open spec fn in_continuous_group_48(s: Split) -> bool {
    s == Split::GivenGodseekerFlower || s == Split::Godhome || s == Split::EternalOrdealUnlocked || s == Split::EternalOrdealAchieved || s == Split::MatoOroNailBros || s == Split::Pantheon1 || s == Split::SheoPaintmaster || s == Split::Pantheon2 || s == Split::SlyNailsage || s == Split::Pantheon3 || s == Split::PureVessel || s == Split::Pantheon4
}

/// What the splits of group 48 ask for.
#[verifier::opaque]
pub open spec fn spec_continuous_group_48(v: PlayerDataView, s: Split, r: &GameReadings) -> (
    PlayerDataView,
    SplitterAction,
) {
    match s {
        Split::GivenGodseekerFlower => (v, spec_should_split((match r.given_godseeker_flower { Some(g) => g, None => false }))),
        Split::Godhome => (v, spec_should_split((match r.visited_godhome { Some(v) => v, None => false }))),
        Split::EternalOrdealUnlocked => (v, spec_should_split((match r.zote_statue_wall_broken { Some(b) => b, None => false }))),
        Split::EternalOrdealAchieved => (v, spec_should_split((match r.ordeal_achieved { Some(a) => a, None => false }))),
        Split::MatoOroNailBros => (v, spec_should_split((match r.killed_nail_bros { Some(k) => k, None => false }))),
        Split::Pantheon1 => (v, spec_should_split((match r.boss_door_state_tier1 { Some(c) => c.completed, None => false }))),
        Split::SheoPaintmaster => (v, spec_should_split((match r.killed_paintmaster { Some(k) => k, None => false }))),
        Split::Pantheon2 => (v, spec_should_split((match r.boss_door_state_tier2 { Some(c) => c.completed, None => false }))),
        Split::SlyNailsage => (v, spec_should_split((match r.killed_nailsage { Some(k) => k, None => false }))),
        Split::Pantheon3 => (v, spec_should_split((match r.boss_door_state_tier3 { Some(c) => c.completed, None => false }))),
        Split::PureVessel => (v, spec_should_split((match r.killed_hollow_knight_prime { Some(k) => k, None => false }))),
        Split::Pantheon4 => (v, spec_should_split((match r.boss_door_state_tier4 { Some(c) => c.completed, None => false }))),
        _ => (v, SplitterAction::Pass),
    }
}

/// The splits of group 49.
pub open spec fn in_continuous_group_49(s: Split) -> bool {
    s == Split::Pantheon5
}

/// What the splits of group 49 ask for.
#[verifier::opaque]
pub open spec fn spec_continuous_group_49(v: PlayerDataView, s: Split, r: &GameReadings) -> (
    PlayerDataView,
    SplitterAction,
) {
    match s {
        Split::Pantheon5 => (v, spec_should_split((match r.boss_door_state_tier5 { Some(c) => c.completed, None => false }))),
        _ => (v, SplitterAction::Pass),
    }
}

/// What a split asks for at any moment, by what was read from the game,
/// and the player data remembered afterwards.
pub open spec fn spec_continuous_splits(v: PlayerDataView, s: Split, r: &GameReadings) -> (
    PlayerDataView,
    SplitterAction,
) {
    if in_continuous_group_0(s) {
        spec_continuous_group_0(v, s, r)
    } else if in_continuous_group_1(s) {
        spec_continuous_group_1(v, s, r)
    } else if in_continuous_group_2(s) {
        spec_continuous_group_2(v, s, r)
    } else if in_continuous_group_3(s) {
        spec_continuous_group_3(v, s, r)
    } else if in_continuous_group_4(s) {
        spec_continuous_group_4(v, s, r)
    } else if in_continuous_group_5(s) {
        spec_continuous_group_5(v, s, r)
    } else if in_continuous_group_6(s) {
        spec_continuous_group_6(v, s, r)
    } else if in_continuous_group_7(s) {
        spec_continuous_group_7(v, s, r)
    } else if in_continuous_group_8(s) {
        spec_continuous_group_8(v, s, r)
    } else if in_continuous_group_9(s) {
        spec_continuous_group_9(v, s, r)
    } else if in_continuous_group_10(s) {
        spec_continuous_group_10(v, s, r)
    } else if in_continuous_group_11(s) {
        spec_continuous_group_11(v, s, r)
    } else if in_continuous_group_12(s) {
        spec_continuous_group_12(v, s, r)
    } else if in_continuous_group_13(s) {
        spec_continuous_group_13(v, s, r)
    } else if in_continuous_group_14(s) {
        spec_continuous_group_14(v, s, r)
    } else if in_continuous_group_15(s) {
        spec_continuous_group_15(v, s, r)
    } else if in_continuous_group_16(s) {
        spec_continuous_group_16(v, s, r)
    } else if in_continuous_group_17(s) {
        spec_continuous_group_17(v, s, r)
    } else if in_continuous_group_18(s) {
        spec_continuous_group_18(v, s, r)
    } else if in_continuous_group_19(s) {
        spec_continuous_group_19(v, s, r)
    } else if in_continuous_group_20(s) {
        spec_continuous_group_20(v, s, r)
    } else if in_continuous_group_21(s) {
        spec_continuous_group_21(v, s, r)
    } else if in_continuous_group_22(s) {
        spec_continuous_group_22(v, s, r)
    } else if in_continuous_group_23(s) {
        spec_continuous_group_23(v, s, r)
    } else if in_continuous_group_24(s) {
        spec_continuous_group_24(v, s, r)
    } else if in_continuous_group_25(s) {
        spec_continuous_group_25(v, s, r)
    } else if in_continuous_group_26(s) {
        spec_continuous_group_26(v, s, r)
    } else if in_continuous_group_27(s) {
        spec_continuous_group_27(v, s, r)
    } else if in_continuous_group_28(s) {
        spec_continuous_group_28(v, s, r)
    } else if in_continuous_group_29(s) {
        spec_continuous_group_29(v, s, r)
    } else if in_continuous_group_30(s) {
        spec_continuous_group_30(v, s, r)
    } else if in_continuous_group_31(s) {
        spec_continuous_group_31(v, s, r)
    } else if in_continuous_group_32(s) {
        spec_continuous_group_32(v, s, r)
    } else if in_continuous_group_33(s) {
        spec_continuous_group_33(v, s, r)
    } else if in_continuous_group_34(s) {
        spec_continuous_group_34(v, s, r)
    } else if in_continuous_group_35(s) {
        spec_continuous_group_35(v, s, r)
    } else if in_continuous_group_36(s) {
        spec_continuous_group_36(v, s, r)
    } else if in_continuous_group_37(s) {
        spec_continuous_group_37(v, s, r)
    } else if in_continuous_group_38(s) {
        spec_continuous_group_38(v, s, r)
    } else if in_continuous_group_39(s) {
        spec_continuous_group_39(v, s, r)
    } else if in_continuous_group_40(s) {
        spec_continuous_group_40(v, s, r)
    } else if in_continuous_group_41(s) {
        spec_continuous_group_41(v, s, r)
    } else if in_continuous_group_42(s) {
        spec_continuous_group_42(v, s, r)
    } else if in_continuous_group_43(s) {
        spec_continuous_group_43(v, s, r)
    } else if in_continuous_group_44(s) {
        spec_continuous_group_44(v, s, r)
    } else if in_continuous_group_45(s) {
        spec_continuous_group_45(v, s, r)
    } else if in_continuous_group_46(s) {
        spec_continuous_group_46(v, s, r)
    } else if in_continuous_group_47(s) {
        spec_continuous_group_47(v, s, r)
    } else if in_continuous_group_48(s) {
        spec_continuous_group_48(v, s, r)
    } else if in_continuous_group_49(s) {
        spec_continuous_group_49(v, s, r)
    } else {
        (v, SplitterAction::Pass)
    }
}

fn continuous_splits_0(s: &Split, r: &GameReadings, pds: &mut PlayerDataStore) -> (a: SplitterAction)
    requires
        old(pds).wf(),
    ensures
        final(pds).wf(),
        (final(pds)@, a) == spec_continuous_group_0(old(pds)@, *s, r),
{
    proof {
        reveal(spec_continuous_group_0);
    }
    match s {
        Split::ManualSplit => SplitterAction::ManualSplit,
        Split::RandoWake => should_split((match r.disable_pause { Some(d) => !d, None => false }) && (match r.game_state { Some(s) => s == GAME_STATE_PLAYING, None => false }) && (match &r.scene_name { Some(s) => !is_menu(s.as_str()), None => false })),
        Split::BenchAny => should_split((match r.at_bench { Some(b) => b, None => false })),
        Split::PlayerDeath => should_split((match r.health { Some(h) => h == 0, None => false })),
        Split::ShadeKilled => should_split(pds.shade_killed(r)),
        Split::Lurien => should_split((match r.mask_broken_lurien { Some(b) => b, None => false })),
        Split::Monomon => should_split((match r.mask_broken_monomon { Some(b) => b, None => false })),
        Split::Hegemol => should_split((match r.mask_broken_hegemol { Some(b) => b, None => false })),
        Split::Dreamer1 => should_split((match r.guardians_defeated { Some(d) => 1 <= d, None => false })),
        Split::Dreamer2 => should_split((match r.guardians_defeated { Some(d) => 2 <= d, None => false })),
        Split::Dreamer3 => should_split((match r.guardians_defeated { Some(d) => 3 <= d, None => false })),
        Split::MenuDreamer3 => {
            pds.guardians_defeated(r);
            should_split(false)
        },
        _ => should_split(false),
    }
}

fn continuous_splits_1(s: &Split, r: &GameReadings, pds: &mut PlayerDataStore) -> (a: SplitterAction)
    requires
        old(pds).wf(),
    ensures
        final(pds).wf(),
        (final(pds)@, a) == spec_continuous_group_1(old(pds)@, *s, r),
{
    proof {
        reveal(spec_continuous_group_1);
    }
    match s {
        Split::LurienDreamer => should_split((match r.lurien_defeated { Some(d) => d, None => false })),
        Split::MonomonDreamer => should_split((match r.monomon_defeated { Some(d) => d, None => false })),
        Split::HegemolDreamer => should_split((match r.hegemol_defeated { Some(d) => d, None => false })),
        Split::MrMushroom1 => should_split((match r.mr_mushroom_state { Some(s) => 2 <= s, None => false })),
        Split::MrMushroom2 => should_split((match r.mr_mushroom_state { Some(s) => 3 <= s, None => false })),
        Split::MrMushroom3 => should_split((match r.mr_mushroom_state { Some(s) => 4 <= s, None => false })),
        Split::MrMushroom4 => should_split((match r.mr_mushroom_state { Some(s) => 5 <= s, None => false })),
        Split::MrMushroom5 => should_split((match r.mr_mushroom_state { Some(s) => 6 <= s, None => false })),
        Split::MrMushroom6 => should_split((match r.mr_mushroom_state { Some(s) => 7 <= s, None => false })),
        Split::MrMushroom7 => should_split((match r.mr_mushroom_state { Some(s) => 8 <= s, None => false })),
        Split::VengefulSpirit => should_split((match r.fireball_level { Some(l) => 1 <= l, None => false })),
        Split::TransVS => {
            pds.get_fireball_level(r);
            should_split(false)
        },
        _ => should_split(false),
    }
}

fn continuous_splits_2(s: &Split, r: &GameReadings, pds: &mut PlayerDataStore) -> (a: SplitterAction)
    requires
        old(pds).wf(),
    ensures
        final(pds).wf(),
        (final(pds)@, a) == spec_continuous_group_2(old(pds)@, *s, r),
{
    proof {
        reveal(spec_continuous_group_2);
    }
    match s {
        Split::ShadeSoul => should_split((match r.fireball_level { Some(l) => 2 <= l, None => false })),
        Split::TransShadeSoul => {
            pds.get_fireball_level(r);
            should_split(false)
        },
        Split::MenuShadeSoul => {
            pds.get_fireball_level(r);
            should_split(false)
        },
        Split::DesolateDive => should_split((match r.quake_level { Some(l) => 1 <= l, None => false })),
        Split::DescendingDark => should_split((match r.quake_level { Some(l) => 2 <= l, None => false })),
        Split::TransDescendingDark => {
            pds.get_quake_level(r);
            should_split(false)
        },
        Split::HowlingWraiths => should_split((match r.scream_level { Some(l) => 1 <= l, None => false })),
        Split::AbyssShriek => should_split((match r.scream_level { Some(l) => 2 <= l, None => false })),
        Split::MothwingCloak => should_split((match r.has_dash { Some(d) => d, None => false })),
        Split::MenuCloak => {
            pds.has_dash(r);
            should_split(false)
        },
        Split::ShadeCloak => should_split((match r.has_shadow_dash { Some(s) => s, None => false })),
        Split::MantisClaw => should_split((match r.has_wall_jump { Some(w) => w, None => false })),
        _ => should_split(false),
    }
}

fn continuous_splits_3(s: &Split, r: &GameReadings, pds: &mut PlayerDataStore) -> (a: SplitterAction)
    requires
        old(pds).wf(),
    ensures
        final(pds).wf(),
        (final(pds)@, a) == spec_continuous_group_3(old(pds)@, *s, r),
{
    proof {
        reveal(spec_continuous_group_3);
    }
    match s {
        Split::TransClaw => {
            pds.has_wall_jump(r);
            should_split(false)
        },
        Split::MenuClaw => {
            pds.has_wall_jump(r);
            should_split(false)
        },
        Split::MonarchWings => should_split((match r.has_double_jump { Some(w) => w, None => false })),
        Split::MenuWings => {
            pds.has_double_jump(r);
            should_split(false)
        },
        Split::CrystalHeart => should_split((match r.has_super_dash { Some(s) => s, None => false })),
        Split::IsmasTear => should_split((match r.has_acid_armour { Some(a) => a, None => false })),
        Split::TransTear => {
            pds.has_acid_armour(r);
            should_split(false)
        },
        Split::MenuIsmasTear => {
            pds.has_acid_armour(r);
            should_split(false)
        },
        Split::CycloneSlash => should_split((match r.has_cyclone { Some(s) => s, None => false })),
        Split::DashSlash => should_split((match r.has_upward_slash { Some(s) => s, None => false })),
        Split::GreatSlash => should_split((match r.has_dash_slash { Some(s) => s, None => false })),
        Split::DreamNail => should_split((match r.has_dream_nail { Some(d) => d, None => false })),
        _ => should_split(false),
    }
}

fn continuous_splits_4(s: &Split, r: &GameReadings, pds: &mut PlayerDataStore) -> (a: SplitterAction)
    requires
        old(pds).wf(),
    ensures
        final(pds).wf(),
        (final(pds)@, a) == spec_continuous_group_4(old(pds)@, *s, r),
{
    proof {
        reveal(spec_continuous_group_4);
    }
    match s {
        Split::MenuDreamNail => {
            pds.has_dream_nail(r);
            should_split(false)
        },
        Split::DreamGate => should_split((match r.has_dream_gate { Some(d) => d, None => false })),
        Split::MenuDreamGate => {
            pds.has_dream_gate(r);
            should_split(false)
        },
        Split::DreamNail2 => should_split((match r.dream_nail_upgraded { Some(d) => d, None => false })),
        Split::CityKey => should_split((match r.has_city_key { Some(k) => k, None => false })),
        Split::LumaflyLantern => should_split((match r.has_lantern { Some(l) => l, None => false })),
        Split::LumaflyLanternTransition => {
            pds.has_lantern(r);
            should_split(false)
        },
        Split::SimpleKey => should_split((match r.simple_keys { Some(k) => 1 <= k, None => false })),
        Split::OnObtainSimpleKey => should_split(pds.incremented_simple_keys(r)),
        Split::OnUseSimpleKey => should_split(pds.decremented_simple_keys(r)),
        Split::SlyKey => should_split((match r.has_sly_key { Some(k) => k, None => false })),
        Split::ElegantKey => should_split((match r.has_white_key { Some(k) => k, None => false })),
        _ => should_split(false),
    }
}

fn continuous_splits_5(s: &Split, r: &GameReadings, pds: &mut PlayerDataStore) -> (a: SplitterAction)
    requires
        old(pds).wf(),
    ensures
        final(pds).wf(),
        (final(pds)@, a) == spec_continuous_group_5(old(pds)@, *s, r),
{
    proof {
        reveal(spec_continuous_group_5);
    }
    match s {
        Split::LoveKey => should_split((match r.has_love_key { Some(k) => k, None => false })),
        Split::PaleLurkerKey => should_split((match r.got_lurker_key { Some(k) => k, None => false })),
        Split::SlySimpleKey => should_split((match r.sly_simple_key { Some(k) => k, None => false })),
        Split::KingsBrand => should_split((match r.has_kings_brand { Some(k) => k, None => false })),
        Split::TramPass => should_split((match r.has_tram_pass { Some(k) => k, None => false })),
        Split::NailUpgrade1 => should_split((match r.nail_smith_upgrades { Some(n) => 1 <= n, None => false })),
        Split::NailUpgrade2 => should_split((match r.nail_smith_upgrades { Some(n) => 2 <= n, None => false })),
        Split::NailUpgrade3 => should_split((match r.nail_smith_upgrades { Some(n) => 3 <= n, None => false })),
        Split::NailUpgrade4 => should_split((match r.nail_smith_upgrades { Some(n) => 4 <= n, None => false })),
        Split::OnObtainPaleOre => should_split(pds.incremented_ore(r)),
        Split::Ore1 => should_split((match r.ore_gross() { Some(o) => 1 <= o, None => false })),
        Split::Ore2 => should_split((match r.ore_gross() { Some(o) => 2 <= o, None => false })),
        _ => should_split(false),
    }
}

fn continuous_splits_6(s: &Split, r: &GameReadings, pds: &mut PlayerDataStore) -> (a: SplitterAction)
    requires
        old(pds).wf(),
    ensures
        final(pds).wf(),
        (final(pds)@, a) == spec_continuous_group_6(old(pds)@, *s, r),
{
    proof {
        reveal(spec_continuous_group_6);
    }
    match s {
        Split::Ore3 => should_split((match r.ore_gross() { Some(o) => 3 <= o, None => false })),
        Split::Ore4 => should_split((match r.ore_gross() { Some(o) => 4 <= o, None => false })),
        Split::Ore5 => should_split((match r.ore_gross() { Some(o) => 5 <= o, None => false })),
        Split::Ore6 => should_split((match r.ore_gross() { Some(o) => 6 <= o, None => false })),
        Split::PaleOre => should_split((match r.ore { Some(o) => 0 < o, None => false })),
        Split::OnObtainMaskShard => should_split(pds.obtained_mask_shard(r)),
        Split::MaskFragment1 => should_split((match r.max_health_base { Some(h) => h == 5, None => false }) && (match r.heart_pieces { Some(p) => p == 1, None => false })),
        Split::MaskFragment2 => should_split((match r.max_health_base { Some(h) => h == 5, None => false }) && (match r.heart_pieces { Some(p) => p == 2, None => false })),
        Split::MaskFragment3 => should_split((match r.max_health_base { Some(h) => h == 5, None => false }) && (match r.heart_pieces { Some(p) => p == 3, None => false })),
        Split::Mask1 => should_split((match r.max_health_base { Some(h) => h == 6, None => false })),
        Split::MaskFragment5 => should_split((match r.heart_pieces { Some(s) => s == 5 || ((match r.max_health_base { Some(h) => h == 6, None => false }) && s == 1), None => false })),
        Split::MaskFragment6 => should_split((match r.heart_pieces { Some(s) => s == 6 || ((match r.max_health_base { Some(h) => h == 6, None => false }) && s == 2), None => false })),
        _ => should_split(false),
    }
}

fn continuous_splits_7(s: &Split, r: &GameReadings, pds: &mut PlayerDataStore) -> (a: SplitterAction)
    requires
        old(pds).wf(),
    ensures
        final(pds).wf(),
        (final(pds)@, a) == spec_continuous_group_7(old(pds)@, *s, r),
{
    proof {
        reveal(spec_continuous_group_7);
    }
    match s {
        Split::MaskFragment7 => should_split((match r.heart_pieces { Some(s) => s == 7 || ((match r.max_health_base { Some(h) => h == 6, None => false }) && s == 3), None => false })),
        Split::Mask2 => should_split((match r.max_health_base { Some(h) => h == 7, None => false })),
        Split::MaskFragment9 => should_split((match r.heart_pieces { Some(s) => s == 9 || ((match r.max_health_base { Some(h) => h == 7, None => false }) && s == 1), None => false })),
        Split::MaskFragment10 => should_split((match r.heart_pieces { Some(s) => s == 10 || ((match r.max_health_base { Some(h) => h == 7, None => false }) && s == 2), None => false })),
        Split::MaskFragment11 => should_split((match r.heart_pieces { Some(s) => s == 11 || ((match r.max_health_base { Some(h) => h == 7, None => false }) && s == 3), None => false })),
        Split::Mask3 => should_split((match r.max_health_base { Some(h) => h == 8, None => false })),
        Split::MaskFragment13 => should_split((match r.heart_pieces { Some(s) => s == 13 || ((match r.max_health_base { Some(h) => h == 8, None => false }) && s == 1), None => false })),
        Split::MaskFragment14 => should_split((match r.heart_pieces { Some(s) => s == 14 || ((match r.max_health_base { Some(h) => h == 8, None => false }) && s == 2), None => false })),
        Split::MaskFragment15 => should_split((match r.heart_pieces { Some(s) => s == 15 || ((match r.max_health_base { Some(h) => h == 8, None => false }) && s == 3), None => false })),
        Split::Mask4 => should_split((match r.max_health_base { Some(h) => h == 9, None => false })),
        Split::MaskShardMawlek => should_split((match &r.scene_name { Some(s) => str_eq(s.as_str(), "Crossroads_09"), None => false }) && pds.obtained_mask_shard(r)),
        Split::MaskShardGrubfather => should_split((match &r.scene_name { Some(s) => str_eq(s.as_str(), "Crossroads_38"), None => false }) && pds.obtained_mask_shard(r)),
        _ => should_split(false),
    }
}

fn continuous_splits_8(s: &Split, r: &GameReadings, pds: &mut PlayerDataStore) -> (a: SplitterAction)
    requires
        old(pds).wf(),
    ensures
        final(pds).wf(),
        (final(pds)@, a) == spec_continuous_group_8(old(pds)@, *s, r),
{
    proof {
        reveal(spec_continuous_group_8);
    }
    match s {
        Split::MaskShardBretta => should_split((match &r.scene_name { Some(s) => str_eq(s.as_str(), "Room_Bretta"), None => false }) && pds.obtained_mask_shard(r)),
        Split::MaskShardQueensStation => should_split((match &r.scene_name { Some(s) => str_eq(s.as_str(), "Fungus2_01"), None => false }) && pds.obtained_mask_shard(r)),
        Split::MaskShardEnragedGuardian => should_split((match &r.scene_name { Some(s) => str_eq(s.as_str(), "Mines_32"), None => false }) && pds.obtained_mask_shard(r)),
        Split::MaskShardSeer => should_split((match &r.scene_name { Some(s) => str_eq(s.as_str(), "RestingGrounds_07"), None => false }) && pds.obtained_mask_shard(r)),
        Split::MaskShardGoam => should_split((match &r.scene_name { Some(s) => str_eq(s.as_str(), "Crossroads_13"), None => false }) && pds.obtained_mask_shard(r)),
        Split::MaskShardStoneSanctuary => should_split((match &r.scene_name { Some(s) => str_eq(s.as_str(), "Fungus1_36"), None => false }) && pds.obtained_mask_shard(r)),
        Split::MaskShardWaterways => should_split((match &r.scene_name { Some(s) => str_eq(s.as_str(), "Waterways_04b"), None => false }) && pds.obtained_mask_shard(r)),
        Split::MaskShardFungalCore => should_split((match &r.scene_name { Some(s) => str_eq(s.as_str(), "Fungus2_25"), None => false }) && pds.obtained_mask_shard(r)),
        Split::MaskShardHive => should_split((match &r.scene_name { Some(s) => str_eq(s.as_str(), "Hive_04"), None => false }) && pds.obtained_mask_shard(r)),
        Split::MaskShardFlower => should_split((match &r.scene_name { Some(s) => str_eq(s.as_str(), "Room_Mansion"), None => false }) && pds.obtained_mask_shard(r)),
        Split::OnObtainVesselFragment => should_split(pds.obtained_vessel_fragment(r)),
        Split::VesselFragment1 => should_split((match r.mp_reserve_max { Some(mp) => mp == 0, None => false }) && (match r.vessel_fragments { Some(f) => f == 1, None => false })),
        _ => should_split(false),
    }
}

fn continuous_splits_9(s: &Split, r: &GameReadings, pds: &mut PlayerDataStore) -> (a: SplitterAction)
    requires
        old(pds).wf(),
    ensures
        final(pds).wf(),
        (final(pds)@, a) == spec_continuous_group_9(old(pds)@, *s, r),
{
    proof {
        reveal(spec_continuous_group_9);
    }
    match s {
        Split::VesselFragment2 => should_split((match r.mp_reserve_max { Some(mp) => mp == 0, None => false }) && (match r.vessel_fragments { Some(f) => f == 2, None => false })),
        Split::Vessel1 => should_split((match r.mp_reserve_max { Some(mp) => mp == 33, None => false })),
        Split::VesselFragment4 => should_split((match r.vessel_fragments { Some(f) => f == 4 || ((match r.mp_reserve_max { Some(mp) => mp == 33, None => false }) && f == 1), None => false })),
        Split::VesselFragment5 => should_split((match r.vessel_fragments { Some(f) => f == 5 || ((match r.mp_reserve_max { Some(mp) => mp == 33, None => false }) && f == 2), None => false })),
        Split::Vessel2 => should_split((match r.mp_reserve_max { Some(mp) => mp == 66, None => false })),
        Split::VesselFragment7 => should_split((match r.vessel_fragments { Some(f) => f == 7 || ((match r.mp_reserve_max { Some(mp) => mp == 66, None => false }) && f == 1), None => false })),
        Split::VesselFragment8 => should_split((match r.vessel_fragments { Some(f) => f == 8 || ((match r.mp_reserve_max { Some(mp) => mp == 66, None => false }) && f == 2), None => false })),
        Split::Vessel3 => should_split((match r.mp_reserve_max { Some(mp) => mp == 99, None => false })),
        Split::VesselFragGreenpath => should_split((match &r.scene_name { Some(s) => str_eq(s.as_str(), "Fungus1_13"), None => false }) && pds.obtained_vessel_fragment(r)),
        Split::VesselFragCrossroadsLift => should_split((match &r.scene_name { Some(s) => str_eq(s.as_str(), "Crossroads_37"), None => false }) && pds.obtained_vessel_fragment(r)),
        Split::VesselFragKingsStation => should_split((match &r.scene_name { Some(s) => str_eq(s.as_str(), "Ruins2_09"), None => false }) && pds.obtained_vessel_fragment(r)),
        Split::VesselFragGarpedes => should_split((match &r.scene_name { Some(s) => str_eq(s.as_str(), "Deepnest_38"), None => false }) && pds.obtained_vessel_fragment(r)),
        _ => should_split(false),
    }
}

fn continuous_splits_10(s: &Split, r: &GameReadings, pds: &mut PlayerDataStore) -> (a: SplitterAction)
    requires
        old(pds).wf(),
    ensures
        final(pds).wf(),
        (final(pds)@, a) == spec_continuous_group_10(old(pds)@, *s, r),
{
    proof {
        reveal(spec_continuous_group_10);
    }
    match s {
        Split::VesselFragStagNest => should_split((match &r.scene_name { Some(s) => str_eq(s.as_str(), "Cliffs_03"), None => false }) && pds.obtained_vessel_fragment(r)),
        Split::VesselFragSeer => should_split((match &r.scene_name { Some(s) => str_eq(s.as_str(), "RestingGrounds_07"), None => false }) && pds.obtained_vessel_fragment(r)),
        Split::VesselFragFountain => should_split((match &r.scene_name { Some(s) => str_eq(s.as_str(), "Abyss_04"), None => false }) && pds.obtained_vessel_fragment(r)),
        Split::NotchShrumalOgres => should_split((match r.notch_shroom_ogres { Some(n) => n, None => false })),
        Split::NotchSalubra1 => should_split((match r.salubra_notch1 { Some(n) => n, None => false })),
        Split::NotchSalubra2 => should_split((match r.salubra_notch2 { Some(n) => n, None => false })),
        Split::NotchSalubra3 => should_split((match r.salubra_notch3 { Some(n) => n, None => false })),
        Split::NotchSalubra4 => should_split((match r.salubra_notch4 { Some(n) => n, None => false })),
        Split::NotchFogCanyon => should_split((match r.notch_fog_canyon { Some(n) => n, None => false })),
        Split::NotchGrimm => should_split((match r.got_grimm_notch { Some(n) => n, None => false })),
        Split::OnObtainCharmNotch => should_split(pds.incremented_charm_slots(r)),
        Split::GatheringSwarm => should_split((match r.got_charm_1 { Some(c) => c, None => false })),
        _ => should_split(false),
    }
}

fn continuous_splits_11(s: &Split, r: &GameReadings, pds: &mut PlayerDataStore) -> (a: SplitterAction)
    requires
        old(pds).wf(),
    ensures
        final(pds).wf(),
        (final(pds)@, a) == spec_continuous_group_11(old(pds)@, *s, r),
{
    proof {
        reveal(spec_continuous_group_11);
    }
    match s {
        Split::WaywardCompass => should_split((match r.got_charm_2 { Some(c) => c, None => false })),
        Split::Grubsong => should_split((match r.got_charm_3 { Some(c) => c, None => false })),
        Split::StalwartShell => should_split((match r.got_charm_4 { Some(c) => c, None => false })),
        Split::BaldurShell => should_split((match r.got_charm_5 { Some(c) => c, None => false })),
        Split::FuryOfTheFallen => should_split((match r.got_charm_6 { Some(c) => c, None => false })),
        Split::QuickFocus => should_split((match r.got_charm_7 { Some(c) => c, None => false })),
        Split::LifebloodHeart => should_split((match r.got_charm_8 { Some(c) => c, None => false })),
        Split::LifebloodCore => should_split((match r.got_charm_9 { Some(c) => c, None => false })),
        Split::DefendersCrest => should_split((match r.got_charm_10 { Some(c) => c, None => false })),
        Split::Flukenest => should_split((match r.got_charm_11 { Some(c) => c, None => false })),
        Split::ThornsOfAgony => should_split((match r.got_charm_12 { Some(c) => c, None => false })),
        Split::MarkOfPride => should_split((match r.got_charm_13 { Some(c) => c, None => false })),
        _ => should_split(false),
    }
}

fn continuous_splits_12(s: &Split, r: &GameReadings, pds: &mut PlayerDataStore) -> (a: SplitterAction)
    requires
        old(pds).wf(),
    ensures
        final(pds).wf(),
        (final(pds)@, a) == spec_continuous_group_12(old(pds)@, *s, r),
{
    proof {
        reveal(spec_continuous_group_12);
    }
    match s {
        Split::SteadyBody => should_split((match r.got_charm_14 { Some(c) => c, None => false })),
        Split::HeavyBlow => should_split((match r.got_charm_15 { Some(c) => c, None => false })),
        Split::SharpShadow => should_split((match r.got_charm_16 { Some(c) => c, None => false })),
        Split::SporeShroom => should_split((match r.got_charm_17 { Some(c) => c, None => false })),
        Split::Longnail => should_split((match r.got_charm_18 { Some(c) => c, None => false })),
        Split::ShamanStone => should_split((match r.got_charm_19 { Some(c) => c, None => false })),
        Split::SoulCatcher => should_split((match r.got_charm_20 { Some(c) => c, None => false })),
        Split::SoulEater => should_split((match r.got_charm_21 { Some(c) => c, None => false })),
        Split::GlowingWomb => should_split((match r.got_charm_22 { Some(c) => c, None => false })),
        Split::NailmastersGlory => should_split((match r.got_charm_26 { Some(c) => c, None => false })),
        Split::JonisBlessing => should_split((match r.got_charm_27 { Some(c) => c, None => false })),
        Split::ShapeOfUnn => should_split((match r.got_charm_28 { Some(c) => c, None => false })),
        _ => should_split(false),
    }
}

fn continuous_splits_13(s: &Split, r: &GameReadings, pds: &mut PlayerDataStore) -> (a: SplitterAction)
    requires
        old(pds).wf(),
    ensures
        final(pds).wf(),
        (final(pds)@, a) == spec_continuous_group_13(old(pds)@, *s, r),
{
    proof {
        reveal(spec_continuous_group_13);
    }
    match s {
        Split::Hiveblood => should_split((match r.got_charm_29 { Some(c) => c, None => false })),
        Split::DreamWielder => should_split((match r.got_charm_30 { Some(c) => c, None => false })),
        Split::Dashmaster => should_split((match r.got_charm_31 { Some(c) => c, None => false })),
        Split::MenuDashmaster => {
            pds.got_charm_31(r);
            should_split(false)
        },
        Split::QuickSlash => should_split((match r.got_charm_32 { Some(c) => c, None => false })),
        Split::SpellTwister => should_split((match r.got_charm_33 { Some(c) => c, None => false })),
        Split::DeepFocus => should_split((match r.got_charm_34 { Some(c) => c, None => false })),
        Split::GrubberflysElegy => should_split((match r.got_charm_35 { Some(c) => c, None => false })),
        Split::Sprintmaster => should_split((match r.got_charm_37 { Some(c) => c, None => false })),
        Split::Dreamshield => should_split((match r.got_charm_38 { Some(c) => c, None => false })),
        Split::Weaversong => should_split((match r.got_charm_39 { Some(c) => c, None => false })),
        Split::FragileHeart => should_split((match r.got_charm_23 { Some(c) => c, None => false })),
        _ => should_split(false),
    }
}

fn continuous_splits_14(s: &Split, r: &GameReadings, pds: &mut PlayerDataStore) -> (a: SplitterAction)
    requires
        old(pds).wf(),
    ensures
        final(pds).wf(),
        (final(pds)@, a) == spec_continuous_group_14(old(pds)@, *s, r),
{
    proof {
        reveal(spec_continuous_group_14);
    }
    match s {
        Split::UnbreakableHeart => should_split((match r.fragile_health_unbreakable { Some(c) => c, None => false })),
        Split::FragileGreed => should_split((match r.got_charm_24 { Some(c) => c, None => false })),
        Split::UnbreakableGreed => should_split((match r.fragile_greed_unbreakable { Some(c) => c, None => false })),
        Split::FragileStrength => should_split((match r.got_charm_25 { Some(c) => c, None => false })),
        Split::UnbreakableStrength => should_split((match r.fragile_strength_unbreakable { Some(c) => c, None => false })),
        Split::AllBreakables => should_split((match r.broken_charm_23 { Some(b) => b, None => false }) && (match r.broken_charm_24 { Some(b) => b, None => false }) && (match r.broken_charm_25 { Some(b) => b, None => false })),
        Split::AllUnbreakables => should_split((match r.fragile_greed_unbreakable { Some(u) => u, None => false }) && (match r.fragile_health_unbreakable { Some(u) => u, None => false }) && (match r.fragile_strength_unbreakable { Some(u) => u, None => false })),
        Split::Grimmchild => should_split((match r.got_charm_40 { Some(c) => c, None => false }) && (match r.grimm_child_level { Some(l) => l <= 4, None => false })),
        Split::Grimmchild2 => should_split((match r.grimm_child_level { Some(l) => 2 <= l && l <= 4, None => false })),
        Split::Grimmchild3 => should_split((match r.grimm_child_level { Some(l) => 3 <= l && l <= 4, None => false })),
        Split::Grimmchild4 => should_split((match r.grimm_child_level { Some(l) => l == 4, None => false })),
        Split::CarefreeMelody => should_split((match r.got_charm_40 { Some(c) => c, None => false }) && (match r.grimm_child_level { Some(l) => l == 5, None => false })),
        _ => should_split(false),
    }
}

fn continuous_splits_15(s: &Split, r: &GameReadings, pds: &mut PlayerDataStore) -> (a: SplitterAction)
    requires
        old(pds).wf(),
    ensures
        final(pds).wf(),
        (final(pds)@, a) == spec_continuous_group_15(old(pds)@, *s, r),
{
    proof {
        reveal(spec_continuous_group_15);
    }
    match s {
        Split::Flame1 => should_split((match r.flames_collected { Some(f) => 1 <= f, None => false })),
        Split::Flame2 => should_split((match r.flames_collected { Some(f) => 2 <= f, None => false })),
        Split::Flame3 => should_split((match r.flames_collected { Some(f) => 3 <= f, None => false })),
        Split::BrummFlame => should_split((match r.got_brumms_flame { Some(f) => f, None => false })),
        Split::WhiteFragmentLeft => should_split((match r.got_queen_fragment { Some(c) => c, None => false })),
        Split::WhiteFragmentRight => should_split((match r.got_king_fragment { Some(c) => c, None => false })),
        Split::OnObtainWhiteFragment => should_split(pds.increased_royal_charm_state(r)),
        Split::Kingsoul => should_split((match r.charm_cost_36 { Some(c) => c == 5, None => false }) && (match r.royal_charm_state { Some(s) => s == 3, None => false })),
        Split::VoidHeart => should_split((match r.got_shade_charm { Some(c) => c, None => false })),
        Split::MenuVoidHeart => {
            pds.got_shade_charm(r);
            should_split(false)
        },
        Split::RidingStag => should_split(pds.changed_travelling_true(r)),
        Split::StagMoved => should_split(pds.changed_stag_position(r)),
        _ => should_split(false),
    }
}

fn continuous_splits_16(s: &Split, r: &GameReadings, pds: &mut PlayerDataStore) -> (a: SplitterAction)
    requires
        old(pds).wf(),
    ensures
        final(pds).wf(),
        (final(pds)@, a) == spec_continuous_group_16(old(pds)@, *s, r),
{
    proof {
        reveal(spec_continuous_group_16);
    }
    match s {
        Split::CrossroadsStation => should_split((match r.opened_crossroads { Some(o) => o, None => false })),
        Split::GreenpathStation => should_split((match r.opened_greenpath { Some(o) => o, None => false })),
        Split::QueensStationStation => should_split((match r.opened_fungal_wastes { Some(o) => o, None => false })),
        Split::StoreroomsStation => should_split((match r.opened_ruins1 { Some(o) => o, None => false })),
        Split::KingsStationStation => should_split((match r.opened_ruins2 { Some(o) => o, None => false })),
        Split::RestingGroundsStation => should_split((match r.opened_resting_grounds { Some(o) => o, None => false })),
        Split::HiddenStationStation => should_split((match r.opened_hidden_station { Some(o) => o, None => false })),
        Split::DeepnestStation => should_split((match r.opened_deepnest { Some(o) => o, None => false })),
        Split::QueensGardensStation => should_split((match r.opened_royal_gardens { Some(o) => o, None => false })),
        Split::StagnestStation => should_split((match &r.next_scene_name { Some(n) => str_eq(n.as_str(), "Cliffs_03"), None => false }) && (match r.travelling { Some(t) => t, None => false }) && (match r.opened_stag_nest { Some(o) => o, None => false })),
        Split::OnObtainWanderersJournal => should_split(pds.incremented_trinket1(r)),
        Split::AllSeals => should_split(17 <= or_zero(r.trinket2) as i64 + or_zero(r.sold_trinket2) as i64),
        _ => should_split(false),
    }
}

fn continuous_splits_17(s: &Split, r: &GameReadings, pds: &mut PlayerDataStore) -> (a: SplitterAction)
    requires
        old(pds).wf(),
    ensures
        final(pds).wf(),
        (final(pds)@, a) == spec_continuous_group_17(old(pds)@, *s, r),
{
    proof {
        reveal(spec_continuous_group_17);
    }
    match s {
        Split::OnObtainHallownestSeal => should_split(pds.incremented_trinket2(r)),
        Split::SoulSanctumSeal => should_split(pds.incremented_trinket2(r) && (match &r.scene_name { Some(s) => starts_with(s.as_str(), "Ruins1_32"), None => false })),
        Split::OnObtainKingsIdol => should_split(pds.incremented_trinket3(r)),
        Split::GladeIdol => should_split(pds.incremented_trinket3(r) && (match &r.scene_name { Some(s) => starts_with(s.as_str(), "RestingGrounds_08"), None => false })),
        Split::DungDefenderIdol => should_split(pds.incremented_trinket3(r) && (match &r.scene_name { Some(s) => starts_with(s.as_str(), "Waterways_15"), None => false })),
        Split::ArcaneEgg8 => should_split(8 <= or_zero(r.trinket4) as i64 + or_zero(r.sold_trinket4) as i64),
        Split::OnObtainArcaneEgg => should_split(pds.incremented_trinket4(r)),
        Split::OnObtainRancidEgg => should_split(pds.incremented_rancid_eggs(r)),
        Split::Grub1 => should_split((match r.grubs_collected { Some(g) => g == 1, None => false })),
        Split::Grub2 => should_split((match r.grubs_collected { Some(g) => g == 2, None => false })),
        Split::Grub3 => should_split((match r.grubs_collected { Some(g) => g == 3, None => false })),
        Split::Grub4 => should_split((match r.grubs_collected { Some(g) => g == 4, None => false })),
        _ => should_split(false),
    }
}

fn continuous_splits_18(s: &Split, r: &GameReadings, pds: &mut PlayerDataStore) -> (a: SplitterAction)
    requires
        old(pds).wf(),
    ensures
        final(pds).wf(),
        (final(pds)@, a) == spec_continuous_group_18(old(pds)@, *s, r),
{
    proof {
        reveal(spec_continuous_group_18);
    }
    match s {
        Split::Grub5 => should_split((match r.grubs_collected { Some(g) => g == 5, None => false })),
        Split::Grub6 => should_split((match r.grubs_collected { Some(g) => g == 6, None => false })),
        Split::Grub7 => should_split((match r.grubs_collected { Some(g) => g == 7, None => false })),
        Split::Grub8 => should_split((match r.grubs_collected { Some(g) => g == 8, None => false })),
        Split::Grub9 => should_split((match r.grubs_collected { Some(g) => g == 9, None => false })),
        Split::Grub10 => should_split((match r.grubs_collected { Some(g) => g == 10, None => false })),
        Split::Grub11 => should_split((match r.grubs_collected { Some(g) => g == 11, None => false })),
        Split::Grub12 => should_split((match r.grubs_collected { Some(g) => g == 12, None => false })),
        Split::Grub13 => should_split((match r.grubs_collected { Some(g) => g == 13, None => false })),
        Split::Grub14 => should_split((match r.grubs_collected { Some(g) => g == 14, None => false })),
        Split::Grub15 => should_split((match r.grubs_collected { Some(g) => g == 15, None => false })),
        Split::Grub16 => should_split((match r.grubs_collected { Some(g) => g == 16, None => false })),
        _ => should_split(false),
    }
}

fn continuous_splits_19(s: &Split, r: &GameReadings, pds: &mut PlayerDataStore) -> (a: SplitterAction)
    requires
        old(pds).wf(),
    ensures
        final(pds).wf(),
        (final(pds)@, a) == spec_continuous_group_19(old(pds)@, *s, r),
{
    proof {
        reveal(spec_continuous_group_19);
    }
    match s {
        Split::Grub17 => should_split((match r.grubs_collected { Some(g) => g == 17, None => false })),
        Split::Grub18 => should_split((match r.grubs_collected { Some(g) => g == 18, None => false })),
        Split::Grub19 => should_split((match r.grubs_collected { Some(g) => g == 19, None => false })),
        Split::Grub20 => should_split((match r.grubs_collected { Some(g) => g == 20, None => false })),
        Split::Grub21 => should_split((match r.grubs_collected { Some(g) => g == 21, None => false })),
        Split::Grub22 => should_split((match r.grubs_collected { Some(g) => g == 22, None => false })),
        Split::Grub23 => should_split((match r.grubs_collected { Some(g) => g == 23, None => false })),
        Split::Grub24 => should_split((match r.grubs_collected { Some(g) => g == 24, None => false })),
        Split::Grub25 => should_split((match r.grubs_collected { Some(g) => g == 25, None => false })),
        Split::Grub26 => should_split((match r.grubs_collected { Some(g) => g == 26, None => false })),
        Split::Grub27 => should_split((match r.grubs_collected { Some(g) => g == 27, None => false })),
        Split::Grub28 => should_split((match r.grubs_collected { Some(g) => g == 28, None => false })),
        _ => should_split(false),
    }
}

fn continuous_splits_20(s: &Split, r: &GameReadings, pds: &mut PlayerDataStore) -> (a: SplitterAction)
    requires
        old(pds).wf(),
    ensures
        final(pds).wf(),
        (final(pds)@, a) == spec_continuous_group_20(old(pds)@, *s, r),
{
    proof {
        reveal(spec_continuous_group_20);
    }
    match s {
        Split::Grub29 => should_split((match r.grubs_collected { Some(g) => g == 29, None => false })),
        Split::Grub30 => should_split((match r.grubs_collected { Some(g) => g == 30, None => false })),
        Split::Grub31 => should_split((match r.grubs_collected { Some(g) => g == 31, None => false })),
        Split::Grub32 => should_split((match r.grubs_collected { Some(g) => g == 32, None => false })),
        Split::Grub33 => should_split((match r.grubs_collected { Some(g) => g == 33, None => false })),
        Split::Grub34 => should_split((match r.grubs_collected { Some(g) => g == 34, None => false })),
        Split::Grub35 => should_split((match r.grubs_collected { Some(g) => g == 35, None => false })),
        Split::Grub36 => should_split((match r.grubs_collected { Some(g) => g == 36, None => false })),
        Split::Grub37 => should_split((match r.grubs_collected { Some(g) => g == 37, None => false })),
        Split::Grub38 => should_split((match r.grubs_collected { Some(g) => g == 38, None => false })),
        Split::Grub39 => should_split((match r.grubs_collected { Some(g) => g == 39, None => false })),
        Split::Grub40 => should_split((match r.grubs_collected { Some(g) => g == 40, None => false })),
        _ => should_split(false),
    }
}

fn continuous_splits_21(s: &Split, r: &GameReadings, pds: &mut PlayerDataStore) -> (a: SplitterAction)
    requires
        old(pds).wf(),
    ensures
        final(pds).wf(),
        (final(pds)@, a) == spec_continuous_group_21(old(pds)@, *s, r),
{
    proof {
        reveal(spec_continuous_group_21);
    }
    match s {
        Split::Grub41 => should_split((match r.grubs_collected { Some(g) => g == 41, None => false })),
        Split::Grub42 => should_split((match r.grubs_collected { Some(g) => g == 42, None => false })),
        Split::Grub43 => should_split((match r.grubs_collected { Some(g) => g == 43, None => false })),
        Split::Grub44 => should_split((match r.grubs_collected { Some(g) => g == 44, None => false })),
        Split::Grub45 => should_split((match r.grubs_collected { Some(g) => g == 45, None => false })),
        Split::Grub46 => should_split((match r.grubs_collected { Some(g) => g == 46, None => false })),
        Split::OnObtainGrub => should_split(pds.incremented_grubs_collected(r)),
        Split::GrubBasinDive => should_split(pds.incremented_grubs_collected(r) && (match &r.scene_name { Some(s) => str_eq(s.as_str(), "Abyss_17"), None => false })),
        Split::GrubBasinWings => should_split(pds.incremented_grubs_collected(r) && (match &r.scene_name { Some(s) => str_eq(s.as_str(), "Abyss_19"), None => false })),
        Split::GrubCityBelowLoveTower => should_split(pds.incremented_grubs_collected(r) && (match &r.scene_name { Some(s) => str_eq(s.as_str(), "Ruins2_07"), None => false })),
        Split::GrubCityBelowSanctum => should_split(pds.incremented_grubs_collected(r) && (match &r.scene_name { Some(s) => str_eq(s.as_str(), "Ruins1_05"), None => false })),
        Split::GrubCityCollectorAll => should_split(has_scene(&r.scenes_grub_rescued, "Ruins2_11")),
        _ => should_split(false),
    }
}

fn continuous_splits_22(s: &Split, r: &GameReadings, pds: &mut PlayerDataStore) -> (a: SplitterAction)
    requires
        old(pds).wf(),
    ensures
        final(pds).wf(),
        (final(pds)@, a) == spec_continuous_group_22(old(pds)@, *s, r),
{
    proof {
        reveal(spec_continuous_group_22);
    }
    match s {
        Split::GrubCityCollector => should_split(pds.incremented_grubs_collected(r) && (match &r.scene_name { Some(s) => str_eq(s.as_str(), "Ruins2_11"), None => false })),
        Split::GrubCityGuardHouse => should_split(pds.incremented_grubs_collected(r) && (match &r.scene_name { Some(s) => str_eq(s.as_str(), "Ruins_House_01"), None => false })),
        Split::GrubCitySanctum => should_split(pds.incremented_grubs_collected(r) && (match &r.scene_name { Some(s) => str_eq(s.as_str(), "Ruins1_32"), None => false })),
        Split::GrubCitySpire => should_split(pds.incremented_grubs_collected(r) && (match &r.scene_name { Some(s) => str_eq(s.as_str(), "Ruins2_03"), None => false })),
        Split::GrubCliffsBaldurShell => should_split(pds.incremented_grubs_collected(r) && (match &r.scene_name { Some(s) => str_eq(s.as_str(), "Fungus1_28"), None => false })),
        Split::GrubCrossroadsAcid => should_split(pds.incremented_grubs_collected(r) && (match &r.scene_name { Some(s) => str_eq(s.as_str(), "Crossroads_35"), None => false })),
        Split::GrubCrossroadsGuarded => should_split(pds.incremented_grubs_collected(r) && (match &r.scene_name { Some(s) => str_eq(s.as_str(), "Crossroads_48"), None => false })),
        Split::GrubCrossroadsSpikes => should_split(pds.incremented_grubs_collected(r) && (match &r.scene_name { Some(s) => str_eq(s.as_str(), "Crossroads_31"), None => false })),
        Split::GrubCrossroadsVengefly => should_split(pds.incremented_grubs_collected(r) && (match &r.scene_name { Some(s) => str_eq(s.as_str(), "Crossroads_05"), None => false })),
        Split::GrubCrossroadsWall => should_split(pds.incremented_grubs_collected(r) && (match &r.scene_name { Some(s) => str_eq(s.as_str(), "Crossroads_03"), None => false })),
        Split::GrubCrystalPeaksBottomLever => should_split(pds.incremented_grubs_collected(r) && (match &r.scene_name { Some(s) => str_eq(s.as_str(), "Mines_04"), None => false })),
        Split::GrubCrystalPeaksCrown => should_split(pds.incremented_grubs_collected(r) && (match &r.scene_name { Some(s) => str_eq(s.as_str(), "Mines_24"), None => false })),
        _ => should_split(false),
    }
}

fn continuous_splits_23(s: &Split, r: &GameReadings, pds: &mut PlayerDataStore) -> (a: SplitterAction)
    requires
        old(pds).wf(),
    ensures
        final(pds).wf(),
        (final(pds)@, a) == spec_continuous_group_23(old(pds)@, *s, r),
{
    proof {
        reveal(spec_continuous_group_23);
    }
    match s {
        Split::GrubCrystalPeaksCrushers => should_split(pds.incremented_grubs_collected(r) && (match &r.scene_name { Some(s) => str_eq(s.as_str(), "Mines_19"), None => false })),
        Split::GrubCrystalPeaksCrystalHeart => should_split(pds.incremented_grubs_collected(r) && (match &r.scene_name { Some(s) => str_eq(s.as_str(), "Mines_31"), None => false })),
        Split::GrubCrystalPeaksMimics => should_split(pds.incremented_grubs_collected(r) && (match &r.scene_name { Some(s) => str_eq(s.as_str(), "Mines_16"), None => false })),
        Split::GrubCrystalPeaksMound => should_split(pds.incremented_grubs_collected(r) && (match &r.scene_name { Some(s) => str_eq(s.as_str(), "Mines_35"), None => false })),
        Split::GrubCrystalPeaksSpikes => should_split(pds.incremented_grubs_collected(r) && (match &r.scene_name { Some(s) => str_eq(s.as_str(), "Mines_03"), None => false })),
        Split::GrubDeepnestBeastsDen => should_split(pds.incremented_grubs_collected(r) && (match &r.scene_name { Some(s) => str_eq(s.as_str(), "Deepnest_Spider_Town"), None => false })),
        Split::GrubDeepnestDark => should_split(pds.incremented_grubs_collected(r) && (match &r.scene_name { Some(s) => str_eq(s.as_str(), "Deepnest_39"), None => false })),
        Split::GrubDeepnestMimics => should_split(pds.incremented_grubs_collected(r) && (match &r.scene_name { Some(s) => str_eq(s.as_str(), "Deepnest_36"), None => false })),
        Split::GrubDeepnestNosk => should_split(pds.incremented_grubs_collected(r) && (match &r.scene_name { Some(s) => str_eq(s.as_str(), "Deepnest_31"), None => false })),
        Split::GrubDeepnestSpikes => should_split(pds.incremented_grubs_collected(r) && (match &r.scene_name { Some(s) => str_eq(s.as_str(), "Deepnest_03"), None => false })),
        Split::GrubFogCanyonArchives => should_split(pds.incremented_grubs_collected(r) && (match &r.scene_name { Some(s) => str_eq(s.as_str(), "Fungus3_47"), None => false })),
        Split::GrubFungalBouncy => should_split(pds.incremented_grubs_collected(r) && (match &r.scene_name { Some(s) => str_eq(s.as_str(), "Fungus2_18"), None => false })),
        _ => should_split(false),
    }
}

fn continuous_splits_24(s: &Split, r: &GameReadings, pds: &mut PlayerDataStore) -> (a: SplitterAction)
    requires
        old(pds).wf(),
    ensures
        final(pds).wf(),
        (final(pds)@, a) == spec_continuous_group_24(old(pds)@, *s, r),
{
    proof {
        reveal(spec_continuous_group_24);
    }
    match s {
        Split::GrubFungalSporeShroom => should_split(pds.incremented_grubs_collected(r) && (match &r.scene_name { Some(s) => str_eq(s.as_str(), "Fungus2_20"), None => false })),
        Split::GrubGreenpathCornifer => should_split(pds.incremented_grubs_collected(r) && (match &r.scene_name { Some(s) => str_eq(s.as_str(), "Fungus1_06"), None => false })),
        Split::GrubGreenpathHunter => should_split(pds.incremented_grubs_collected(r) && (match &r.scene_name { Some(s) => str_eq(s.as_str(), "Fungus1_07"), None => false })),
        Split::GrubGreenpathMossKnight => should_split(pds.incremented_grubs_collected(r) && (match &r.scene_name { Some(s) => str_eq(s.as_str(), "Fungus1_21"), None => false })),
        Split::GrubGreenpathVesselFragment => should_split(pds.incremented_grubs_collected(r) && (match &r.scene_name { Some(s) => str_eq(s.as_str(), "Fungus1_13"), None => false })),
        Split::GrubHiveExternal => should_split(pds.incremented_grubs_collected(r) && (match &r.scene_name { Some(s) => str_eq(s.as_str(), "Hive_03"), None => false })),
        Split::GrubHiveInternal => should_split(pds.incremented_grubs_collected(r) && (match &r.scene_name { Some(s) => str_eq(s.as_str(), "Hive_04"), None => false })),
        Split::GrubKingdomsEdgeCenter => should_split(pds.incremented_grubs_collected(r) && (match &r.scene_name { Some(s) => str_eq(s.as_str(), "Deepnest_East_11"), None => false })),
        Split::GrubKingdomsEdgeOro => should_split(pds.incremented_grubs_collected(r) && (match &r.scene_name { Some(s) => str_eq(s.as_str(), "Deepnest_East_14"), None => false })),
        Split::GrubQueensGardensBelowStag => should_split(pds.incremented_grubs_collected(r) && (match &r.scene_name { Some(s) => str_eq(s.as_str(), "Fungus3_10"), None => false })),
        Split::GrubQueensGardensUpper => should_split(pds.incremented_grubs_collected(r) && (match &r.scene_name { Some(s) => str_eq(s.as_str(), "Fungus3_22"), None => false })),
        Split::GrubQueensGardensWhiteLady => should_split(pds.incremented_grubs_collected(r) && (match &r.scene_name { Some(s) => str_eq(s.as_str(), "Fungus3_48"), None => false })),
        _ => should_split(false),
    }
}

fn continuous_splits_25(s: &Split, r: &GameReadings, pds: &mut PlayerDataStore) -> (a: SplitterAction)
    requires
        old(pds).wf(),
    ensures
        final(pds).wf(),
        (final(pds)@, a) == spec_continuous_group_25(old(pds)@, *s, r),
{
    proof {
        reveal(spec_continuous_group_25);
    }
    match s {
        Split::GrubRestingGroundsCrypts => should_split(pds.incremented_grubs_collected(r) && (match &r.scene_name { Some(s) => str_eq(s.as_str(), "RestingGrounds_10"), None => false })),
        Split::GrubWaterwaysCenter => should_split(pds.incremented_grubs_collected(r) && (match &r.scene_name { Some(s) => str_eq(s.as_str(), "Waterways_04"), None => false })),
        Split::GrubWaterwaysHwurmps => should_split(pds.incremented_grubs_collected(r) && (match &r.scene_name { Some(s) => str_eq(s.as_str(), "Waterways_14"), None => false })),
        Split::GrubWaterwaysIsma => should_split(pds.incremented_grubs_collected(r) && (match &r.scene_name { Some(s) => str_eq(s.as_str(), "Waterways_13"), None => false })),
        Split::Mimic1 => should_split((match r.kills_grub_mimic { Some(k) => k == 4, None => false })),
        Split::Mimic2 => should_split((match r.kills_grub_mimic { Some(k) => k == 3, None => false })),
        Split::Mimic3 => should_split((match r.kills_grub_mimic { Some(k) => k == 2, None => false })),
        Split::Mimic4 => should_split((match r.kills_grub_mimic { Some(k) => k == 1, None => false })),
        Split::Mimic5 => should_split((match r.kills_grub_mimic { Some(k) => k == 0, None => false })),
        Split::Essence100 => should_split((match r.dream_orbs { Some(o) => 100 <= o, None => false })),
        Split::Essence200 => should_split((match r.dream_orbs { Some(o) => 200 <= o, None => false })),
        Split::Essence300 => should_split((match r.dream_orbs { Some(o) => 300 <= o, None => false })),
        _ => should_split(false),
    }
}

fn continuous_splits_26(s: &Split, r: &GameReadings, pds: &mut PlayerDataStore) -> (a: SplitterAction)
    requires
        old(pds).wf(),
    ensures
        final(pds).wf(),
        (final(pds)@, a) == spec_continuous_group_26(old(pds)@, *s, r),
{
    proof {
        reveal(spec_continuous_group_26);
    }
    match s {
        Split::Essence400 => should_split((match r.dream_orbs { Some(o) => 400 <= o, None => false })),
        Split::Essence500 => should_split((match r.dream_orbs { Some(o) => 500 <= o, None => false })),
        Split::Essence600 => should_split((match r.dream_orbs { Some(o) => 600 <= o, None => false })),
        Split::Essence700 => should_split((match r.dream_orbs { Some(o) => 700 <= o, None => false })),
        Split::Essence800 => should_split((match r.dream_orbs { Some(o) => 800 <= o, None => false })),
        Split::Essence900 => should_split((match r.dream_orbs { Some(o) => 900 <= o, None => false })),
        Split::Essence1000 => should_split((match r.dream_orbs { Some(o) => 1000 <= o, None => false })),
        Split::Essence1100 => should_split((match r.dream_orbs { Some(o) => 1100 <= o, None => false })),
        Split::Essence1200 => should_split((match r.dream_orbs { Some(o) => 1200 <= o, None => false })),
        Split::Essence1300 => should_split((match r.dream_orbs { Some(o) => 1300 <= o, None => false })),
        Split::Essence1400 => should_split((match r.dream_orbs { Some(o) => 1400 <= o, None => false })),
        Split::Essence1500 => should_split((match r.dream_orbs { Some(o) => 1500 <= o, None => false })),
        _ => should_split(false),
    }
}

fn continuous_splits_27(s: &Split, r: &GameReadings, pds: &mut PlayerDataStore) -> (a: SplitterAction)
    requires
        old(pds).wf(),
    ensures
        final(pds).wf(),
        (final(pds)@, a) == spec_continuous_group_27(old(pds)@, *s, r),
{
    proof {
        reveal(spec_continuous_group_27);
    }
    match s {
        Split::Essence1600 => should_split((match r.dream_orbs { Some(o) => 1600 <= o, None => false })),
        Split::Essence1700 => should_split((match r.dream_orbs { Some(o) => 1700 <= o, None => false })),
        Split::Essence1800 => should_split((match r.dream_orbs { Some(o) => 1800 <= o, None => false })),
        Split::Essence1900 => should_split((match r.dream_orbs { Some(o) => 1900 <= o, None => false })),
        Split::Essence2000 => should_split((match r.dream_orbs { Some(o) => 2000 <= o, None => false })),
        Split::Essence2100 => should_split((match r.dream_orbs { Some(o) => 2100 <= o, None => false })),
        Split::Essence2200 => should_split((match r.dream_orbs { Some(o) => 2200 <= o, None => false })),
        Split::Essence2300 => should_split((match r.dream_orbs { Some(o) => 2300 <= o, None => false })),
        Split::Essence2400 => should_split((match r.dream_orbs { Some(o) => 2400 <= o, None => false })),
        Split::TreeCity => should_split(has_scene(&r.scenes_encountered_dream_plant_c, "Ruins1_17")),
        Split::TreeCliffs => should_split(has_scene(&r.scenes_encountered_dream_plant_c, "Cliffs_01")),
        Split::TreeCrossroads => should_split(has_scene(&r.scenes_encountered_dream_plant_c, "Crossroads_07")),
        _ => should_split(false),
    }
}

fn continuous_splits_28(s: &Split, r: &GameReadings, pds: &mut PlayerDataStore) -> (a: SplitterAction)
    requires
        old(pds).wf(),
    ensures
        final(pds).wf(),
        (final(pds)@, a) == spec_continuous_group_28(old(pds)@, *s, r),
{
    proof {
        reveal(spec_continuous_group_28);
    }
    match s {
        Split::TreeDeepnest => should_split(has_scene(&r.scenes_encountered_dream_plant_c, "Deepnest_39")),
        Split::TreeGlade => should_split(has_scene(&r.scenes_encountered_dream_plant_c, "RestingGrounds_08")),
        Split::TreeGreenpath => should_split(has_scene(&r.scenes_encountered_dream_plant_c, "Fungus1_13")),
        Split::TreeHive => should_split(has_scene(&r.scenes_encountered_dream_plant_c, "Hive_02")),
        Split::TreeKingdomsEdge => should_split(has_scene(&r.scenes_encountered_dream_plant_c, "Deepnest_East_07")),
        Split::TreeLegEater => should_split(has_scene(&r.scenes_encountered_dream_plant_c, "Fungus2_33")),
        Split::TreeMantisVillage => should_split(has_scene(&r.scenes_encountered_dream_plant_c, "Fungus2_17")),
        Split::TreeMound => should_split(has_scene(&r.scenes_encountered_dream_plant_c, "Crossroads_ShamanTemple")),
        Split::TreePeak => should_split(has_scene(&r.scenes_encountered_dream_plant_c, "Mines_23")),
        Split::TreeQueensGardens => should_split(has_scene(&r.scenes_encountered_dream_plant_c, "Fungus3_11")),
        Split::TreeRestingGrounds => should_split(has_scene(&r.scenes_encountered_dream_plant_c, "RestingGrounds_05")),
        Split::TreeWaterways => should_split(has_scene(&r.scenes_encountered_dream_plant_c, "Abyss_01")),
        _ => should_split(false),
    }
}

fn continuous_splits_29(s: &Split, r: &GameReadings, pds: &mut PlayerDataStore) -> (a: SplitterAction)
    requires
        old(pds).wf(),
    ensures
        final(pds).wf(),
        (final(pds)@, a) == spec_continuous_group_29(old(pds)@, *s, r),
{
    proof {
        reveal(spec_continuous_group_29);
    }
    match s {
        Split::OnObtainGhostMarissa => should_split(pds.incremented_dream_orbs(r) && (match &r.scene_name { Some(s) => str_eq(s.as_str(), "Ruins_Bathhouse"), None => false })),
        Split::OnObtainGhostCaelifFera => should_split(pds.incremented_dream_orbs(r) && (match &r.scene_name { Some(s) => str_eq(s.as_str(), "Fungus1_24"), None => false })),
        Split::OnObtainGhostPoggy => should_split(pds.incremented_dream_orbs(r) && (match &r.scene_name { Some(s) => str_eq(s.as_str(), "Ruins_Elevator"), None => false })),
        Split::OnObtainGhostGravedigger => should_split(pds.incremented_dream_orbs(r) && (match &r.scene_name { Some(s) => str_eq(s.as_str(), "Town"), None => false })),
        Split::OnObtainGhostJoni => should_split(pds.incremented_dream_orbs(r) && (match &r.scene_name { Some(s) => str_eq(s.as_str(), "Cliffs_05"), None => false })),
        Split::MapDirtmouth => should_split((match r.map_dirtmouth { Some(m) => m, None => false })),
        Split::MapCrossroads => should_split((match r.map_crossroads { Some(m) => m, None => false })),
        Split::MapGreenpath => should_split((match r.map_greenpath { Some(m) => m, None => false })),
        Split::MapFogCanyon => should_split((match r.map_fog_canyon { Some(m) => m, None => false })),
        Split::MapRoyalGardens => should_split((match r.map_royal_gardens { Some(m) => m, None => false })),
        Split::MapFungalWastes => should_split((match r.map_fungal_wastes { Some(m) => m, None => false })),
        Split::MapCity => should_split((match r.map_city { Some(m) => m, None => false })),
        _ => should_split(false),
    }
}

fn continuous_splits_30(s: &Split, r: &GameReadings, pds: &mut PlayerDataStore) -> (a: SplitterAction)
    requires
        old(pds).wf(),
    ensures
        final(pds).wf(),
        (final(pds)@, a) == spec_continuous_group_30(old(pds)@, *s, r),
{
    proof {
        reveal(spec_continuous_group_30);
    }
    match s {
        Split::MapWaterways => should_split((match r.map_waterways { Some(m) => m, None => false })),
        Split::MapMines => should_split((match r.map_mines { Some(m) => m, None => false })),
        Split::MapDeepnest => should_split((match r.map_deepnest { Some(m) => m, None => false })),
        Split::MapCliffs => should_split((match r.map_cliffs { Some(m) => m, None => false })),
        Split::MapOutskirts => should_split((match r.map_outskirts { Some(m) => m, None => false })),
        Split::MapRestingGrounds => should_split((match r.map_resting_grounds { Some(m) => m, None => false })),
        Split::MapAbyss => should_split((match r.map_abyss { Some(m) => m, None => false })),
        Split::CorniferAtHome => {
            pds.cornifer_at_home(r);
            should_split(false)
        },
        Split::Dirtmouth => should_split((match r.visited_dirtmouth { Some(v) => v, None => false })),
        Split::SlyShopFinished => {
            pds.sly_shop_finished(r);
            should_split(false)
        },
        Split::ElderbugFlower => should_split((match r.elderbug_gave_flower { Some(g) => g, None => false })),
        Split::TroupeMasterGrimm => should_split((match r.killed_grimm { Some(k) => k, None => false })),
        _ => should_split(false),
    }
}

fn continuous_splits_31(s: &Split, r: &GameReadings, pds: &mut PlayerDataStore) -> (a: SplitterAction)
    requires
        old(pds).wf(),
    ensures
        final(pds).wf(),
        (final(pds)@, a) == spec_continuous_group_31(old(pds)@, *s, r),
{
    proof {
        reveal(spec_continuous_group_31);
    }
    match s {
        Split::NightmareKingGrimm => should_split((match r.killed_nightmare_grimm { Some(k) => k, None => false })),
        Split::GreyPrince => should_split((match r.killed_grey_prince { Some(k) => k, None => false })),
        Split::GreyPrinceEssence => should_split((match r.grey_prince_orbs_collected { Some(o) => o, None => false })),
        Split::ForgottenCrossroads => should_split((match r.visited_crossroads { Some(v) => v, None => false }) && (match &r.scene_name { Some(s) => starts_with(s.as_str(), "Crossroads_"), None => false })),
        Split::InfectedCrossroads => should_split((match r.crossroads_infected { Some(i) => i, None => false }) && (match r.visited_crossroads { Some(v) => v, None => false })),
        Split::MenderBug => should_split((match r.killed_mender_bug { Some(k) => k, None => false })),
        Split::BroodingMawlek => should_split((match r.killed_mawlek { Some(k) => k, None => false })),
        Split::AspidHunter => should_split_skip(pds.aspid_hunter_arena(r)),
        Split::BenchCrossroadsStag => should_split((match r.at_bench { Some(b) => b, None => false }) && (match &r.scene_name { Some(s) => str_eq(s.as_str(), "Crossroads_47"), None => false })),
        Split::GruzMother => should_split((match r.killed_big_fly { Some(f) => f, None => false })),
        Split::SlyRescued => should_split((match r.sly_rescued { Some(s) => s, None => false })),
        Split::FalseKnight => should_split((match r.killed_false_knight { Some(k) => k, None => false })),
        _ => should_split(false),
    }
}

fn continuous_splits_32(s: &Split, r: &GameReadings, pds: &mut PlayerDataStore) -> (a: SplitterAction)
    requires
        old(pds).wf(),
    ensures
        final(pds).wf(),
        (final(pds)@, a) == spec_continuous_group_32(old(pds)@, *s, r),
{
    proof {
        reveal(spec_continuous_group_32);
    }
    match s {
        Split::FailedKnight => should_split((match r.false_knight_dream_defeated { Some(k) => k, None => false })),
        Split::FailedChampionEssence => should_split((match r.false_knight_orbs_collected { Some(o) => o, None => false })),
        Split::SalubrasBlessing => should_split((match r.salubra_blessing { Some(b) => b, None => false })),
        Split::PureSnail => should_split(pds.pure_snail_now(r)),
        Split::UnchainedHollowKnight => should_split((match r.unchained_hollow_knight { Some(u) => u, None => false })),
        Split::HollowKnightBoss => should_split((match r.killed_hollow_knight { Some(k) => k, None => false })),
        Split::RadianceBoss => should_split((match r.killed_final_boss { Some(k) => k, None => false })),
        Split::Greenpath => should_split((match r.visited_greenpath { Some(v) => v, None => false })),
        Split::MossKnight => should_split((match r.killed_moss_knight { Some(k) => k, None => false })),
        Split::Zote1 => should_split((match r.zote_rescued_buzzer { Some(z) => z, None => false })),
        Split::VengeflyKingTrans => {
            pds.zote_rescued_buzzer(r);
            should_split(false)
        },
        Split::BenchGreenpathStag => should_split((match r.at_bench { Some(b) => b, None => false }) && (match &r.scene_name { Some(s) => str_eq(s.as_str(), "Fungus1_16_alt"), None => false })),
        _ => should_split(false),
    }
}

fn continuous_splits_33(s: &Split, r: &GameReadings, pds: &mut PlayerDataStore) -> (a: SplitterAction)
    requires
        old(pds).wf(),
    ensures
        final(pds).wf(),
        (final(pds)@, a) == spec_continuous_group_33(old(pds)@, *s, r),
{
    proof {
        reveal(spec_continuous_group_33);
    }
    match s {
        Split::Hornet1 => should_split((match r.killed_hornet { Some(k) => k, None => false })),
        Split::Aluba => should_split((match r.killed_lazy_flyer { Some(k) => k, None => false })),
        Split::HuntersMark => should_split((match r.killed_hunter_mark { Some(k) => k, None => false })),
        Split::NoEyes => should_split((match r.killed_ghost_no_eyes { Some(k) => k, None => false })),
        Split::NoEyesEssence => should_split((match r.no_eyes_defeated { Some(d) => d == 2, None => false })),
        Split::MegaMossCharger => should_split((match r.mega_moss_charger_defeated { Some(k) => k, None => false })),
        Split::MegaMossChargerTrans => {
            pds.mega_moss_charger_defeated(r);
            should_split(false)
        },
        Split::HappyCouplePlayerDataEvent => should_split((match r.nailsmith_convo_art { Some(c) => c, None => false })),
        Split::FungalWastes => should_split((match r.visited_fungus { Some(v) => v, None => false })),
        Split::BenchQueensStation => should_split((match r.at_bench { Some(b) => b, None => false }) && (match &r.scene_name { Some(s) => str_eq(s.as_str(), "Fungus2_02"), None => false })),
        Split::ElderHu => should_split((match r.killed_ghost_hu { Some(k) => k, None => false })),
        Split::ElderHuEssence => should_split((match r.elder_hu_defeated { Some(d) => d == 2, None => false })),
        _ => should_split(false),
    }
}

fn continuous_splits_34(s: &Split, r: &GameReadings, pds: &mut PlayerDataStore) -> (a: SplitterAction)
    requires
        old(pds).wf(),
    ensures
        final(pds).wf(),
        (final(pds)@, a) == spec_continuous_group_34(old(pds)@, *s, r),
{
    proof {
        reveal(spec_continuous_group_34);
    }
    match s {
        Split::ElderHuTrans => {
            pds.killed_ghost_hu(r);
            should_split(false)
        },
        Split::BrettaRescued => should_split((match r.bretta_rescued { Some(b) => b, None => false })),
        Split::MantisLords => should_split((match r.defeated_mantis_lords { Some(k) => k, None => false })),
        Split::Gorb => should_split((match r.killed_ghost_aladar { Some(k) => k, None => false })),
        Split::GorbEssence => should_split((match r.aladar_slug_defeated { Some(d) => d == 2, None => false })),
        Split::NightmareLantern => should_split((match r.nightmare_lantern_lit { Some(l) => l, None => false })),
        Split::NightmareLanternDestroyed => should_split((match r.destroyed_nightmare_lantern { Some(l) => l, None => false })),
        Split::RestingGrounds => should_split((match r.visited_resting_grounds { Some(v) => v, None => false })),
        Split::BenchRGStag => should_split((match r.at_bench { Some(b) => b, None => false }) && (match &r.scene_name { Some(s) => str_eq(s.as_str(), "RestingGrounds_09"), None => false })),
        Split::Xero => should_split((match r.killed_ghost_xero { Some(k) => k, None => false })),
        Split::XeroEssence => should_split((match r.xero_defeated { Some(d) => d == 2, None => false })),
        Split::SpiritGladeOpen => should_split((match r.glade_door_opened { Some(o) => o, None => false })),
        _ => should_split(false),
    }
}

fn continuous_splits_35(s: &Split, r: &GameReadings, pds: &mut PlayerDataStore) -> (a: SplitterAction)
    requires
        old(pds).wf(),
    ensures
        final(pds).wf(),
        (final(pds)@, a) == spec_continuous_group_35(old(pds)@, *s, r),
{
    proof {
        reveal(spec_continuous_group_35);
    }
    match s {
        Split::SeerDeparts => should_split((match r.moth_departed { Some(d) => d, None => false })),
        Split::MetGreyMourner => should_split((match r.met_xun { Some(m) => m, None => false })),
        Split::GreyMournerSeerAscended => should_split((match r.met_xun { Some(m) => m, None => false }) && (match r.moth_departed { Some(d) => d, None => false })),
        Split::CityGateOpen => should_split((match r.opened_city_gate { Some(o) => o, None => false })),
        Split::CityGateAndMantisLords => should_split((match r.opened_city_gate { Some(o) => o, None => false }) && (match r.defeated_mantis_lords { Some(k) => k, None => false })),
        Split::CityOfTears => should_split((match r.visited_ruins { Some(v) => v, None => false })),
        Split::GorgeousHusk => should_split(pds.killed_gorgeous_husk(r)),
        Split::TransGorgeousHusk => {
            pds.killed_gorgeous_husk(r);
            should_split(false)
        },
        Split::MenuGorgeousHusk => {
            pds.killed_gorgeous_husk(r);
            should_split(false)
        },
        Split::Lemm2 => should_split((match r.met_relic_dealer_shop { Some(m) => m, None => false })),
        Split::AllCharmNotchesLemm2CP => should_split((match r.sold_trinkets_geo() { Some(g) => 6100 <= g, None => false })),
        Split::TollBenchCity => should_split((match r.toll_bench_city { Some(b) => b, None => false })),
        _ => should_split(false),
    }
}

fn continuous_splits_36(s: &Split, r: &GameReadings, pds: &mut PlayerDataStore) -> (a: SplitterAction)
    requires
        old(pds).wf(),
    ensures
        final(pds).wf(),
        (final(pds)@, a) == spec_continuous_group_36(old(pds)@, *s, r),
{
    proof {
        reveal(spec_continuous_group_36);
    }
    match s {
        Split::KilledSoulTwister => should_split((match r.killed_mage { Some(k) => k, None => false })),
        Split::KilledSanctumWarrior => should_split((match r.killed_mage_knight { Some(k) => k, None => false })),
        Split::SoulMasterEncountered => should_split((match r.mage_lord_encountered { Some(b) => b, None => false })),
        Split::SoulMasterPhase1 => should_split((match r.mage_lord_encountered_2 { Some(b) => b, None => false })),
        Split::SoulMaster => should_split((match r.killed_mage_lord { Some(k) => k, None => false })),
        Split::SoulTyrant => should_split((match r.mage_lord_dream_defeated { Some(k) => k, None => false })),
        Split::SoulTyrantEssence => should_split((match r.mage_lord_orbs_collected { Some(o) => o, None => false })),
        Split::SoulTyrantEssenceWithSanctumGrub => should_split((match r.mage_lord_orbs_collected { Some(o) => o, None => false }) && has_scene(&r.scenes_grub_rescued, "Ruins1_32")),
        Split::BenchStorerooms => should_split((match r.at_bench { Some(b) => b, None => false }) && (match &r.scene_name { Some(s) => str_eq(s.as_str(), "Ruins1_29"), None => false })),
        Split::BenchKingsStation => should_split((match r.at_bench { Some(b) => b, None => false }) && (match &r.scene_name { Some(s) => str_eq(s.as_str(), "Ruins2_08"), None => false })),
        Split::BenchSpire => should_split((match r.at_bench { Some(b) => b, None => false }) && (match &r.scene_name { Some(s) => str_eq(s.as_str(), "Ruins1_18"), None => false })),
        Split::BenchSpireGHS => should_split((match r.at_bench { Some(b) => b, None => false }) && (match &r.scene_name { Some(s) => str_eq(s.as_str(), "Ruins1_18"), None => false }) && (match r.kills_great_shield_zombie { Some(k) => k < 10, None => false })),
        _ => should_split(false),
    }
}

fn continuous_splits_37(s: &Split, r: &GameReadings, pds: &mut PlayerDataStore) -> (a: SplitterAction)
    requires
        old(pds).wf(),
    ensures
        final(pds).wf(),
        (final(pds)@, a) == spec_continuous_group_37(old(pds)@, *s, r),
{
    proof {
        reveal(spec_continuous_group_37);
    }
    match s {
        Split::WatcherChandelier => should_split((match r.watcher_chandelier { Some(c) => c, None => false })),
        Split::BlackKnight => should_split((match r.killed_black_knight { Some(k) => k, None => false })),
        Split::BlackKnightTrans => {
            pds.killed_black_knight(r);
            should_split(false)
        },
        Split::Collector => should_split((match r.collector_defeated { Some(k) => k, None => false })),
        Split::TransCollector => {
            pds.collector_defeated(r);
            should_split(false)
        },
        Split::NailsmithKilled => should_split((match r.nailsmith_killed { Some(k) => k, None => false })),
        Split::NailsmithChoice => if (match r.nailsmith_killed { Some(k) => k, None => false }) {
            SplitterAction::Split
        } else {
            should_skip(match r.nailsmith_spared { Some(s) => s, None => false })
        },
        Split::CrystalPeak => should_split((match r.visited_mines { Some(v) => v, None => false })),
        Split::HuskMiner => should_split(pds.decremented_kills_zombie_miner(r)),
        Split::CrystalGuardian1 => should_split((match r.defeated_mega_beam_miner { Some(k) => k, None => false })),
        Split::CrystalGuardian2 => should_split((match r.kills_mega_beam_miner { Some(k) => k == 0, None => false })),
        Split::MineLiftOpened => should_split((match r.mine_lift_opened { Some(o) => o, None => false })),
        _ => should_split(false),
    }
}

fn continuous_splits_38(s: &Split, r: &GameReadings, pds: &mut PlayerDataStore) -> (a: SplitterAction)
    requires
        old(pds).wf(),
    ensures
        final(pds).wf(),
        (final(pds)@, a) == spec_continuous_group_38(old(pds)@, *s, r),
{
    proof {
        reveal(spec_continuous_group_38);
    }
    match s {
        Split::WaterwaysManhole => should_split((match r.opened_waterways_manhole { Some(o) => o, None => false })),
        Split::RoyalWaterways => should_split((match r.visited_waterways { Some(v) => v, None => false })),
        Split::DungDefender => should_split((match r.killed_dung_defender { Some(k) => k, None => false })),
        Split::WhiteDefender => should_split((match r.killed_white_defender { Some(k) => k, None => false })),
        Split::WhiteDefenderEssence => should_split((match r.white_defender_orbs_collected { Some(o) => o, None => false })),
        Split::MetEmilitia => should_split((match r.met_emilitia { Some(m) => m, None => false })),
        Split::GivenEmilitiaFlower => should_split((match r.given_emilitia_flower { Some(g) => g, None => false })),
        Split::Flukemarm => should_split((match r.killed_fluke_mother { Some(k) => k, None => false })),
        Split::Abyss => should_split((match r.visited_abyss { Some(v) => v, None => false })),
        Split::SavedCloth => should_split((match r.saved_cloth { Some(s) => s, None => false })),
        Split::TollBenchBasin => should_split((match r.toll_bench_abyss { Some(b) => b, None => false })),
        Split::BrokenVessel => should_split((match r.killed_infected_knight { Some(k) => k, None => false })),
        _ => should_split(false),
    }
}

fn continuous_splits_39(s: &Split, r: &GameReadings, pds: &mut PlayerDataStore) -> (a: SplitterAction)
    requires
        old(pds).wf(),
    ensures
        final(pds).wf(),
        (final(pds)@, a) == spec_continuous_group_39(old(pds)@, *s, r),
{
    proof {
        reveal(spec_continuous_group_39);
    }
    match s {
        Split::BrokenVesselTrans => {
            pds.killed_infected_knight(r);
            should_split(false)
        },
        Split::LostKin => should_split((match r.infected_knight_dream_defeated { Some(k) => k, None => false })),
        Split::LostKinEssence => should_split((match r.infected_knight_orbs_collected { Some(o) => o, None => false })),
        Split::BenchHiddenStation => should_split((match r.at_bench { Some(b) => b, None => false }) && (match &r.scene_name { Some(s) => str_eq(s.as_str(), "Abyss_22"), None => false })),
        Split::WhitePalace => should_split((match r.visited_white_palace { Some(v) => v, None => false })),
        Split::WhitePalaceOrb1 => should_split((match r.white_palace_orb_1 { Some(o) => o, None => false })),
        Split::WhitePalaceOrb3 => should_split((match r.white_palace_orb_3 { Some(o) => o, None => false })),
        Split::WhitePalaceOrb2 => should_split((match r.white_palace_orb_2 { Some(o) => o, None => false })),
        Split::PathOfPain => should_split((match r.new_data_binding_seal { Some(n) => n, None => false })),
        Split::WhitePalaceSecretRoom => should_split((match r.white_palace_secret_room_visited { Some(v) => v, None => false })),
        Split::KingdomsEdge => should_split((match r.visited_outskirts { Some(v) => v, None => false })),
        Split::Hive => should_split((match r.visited_hive { Some(v) => v, None => false })),
        _ => should_split(false),
    }
}

fn continuous_splits_40(s: &Split, r: &GameReadings, pds: &mut PlayerDataStore) -> (a: SplitterAction)
    requires
        old(pds).wf(),
    ensures
        final(pds).wf(),
        (final(pds)@, a) == spec_continuous_group_40(old(pds)@, *s, r),
{
    proof {
        reveal(spec_continuous_group_40);
    }
    match s {
        Split::HiveKnight => should_split((match r.killed_hive_knight { Some(k) => k, None => false })),
        Split::GreatHopper => should_split((match r.killed_giant_hopper { Some(k) => k, None => false })),
        Split::GivenOroFlower => should_split((match r.given_oro_flower { Some(g) => g, None => false })),
        Split::Hornet2 => should_split((match r.hornet_outskirts_defeated { Some(k) => k, None => false })),
        Split::Markoth => should_split((match r.killed_ghost_markoth { Some(k) => k, None => false })),
        Split::MarkothEssence => should_split((match r.markoth_defeated { Some(d) => d == 2, None => false })),
        Split::LittleFool => should_split((match r.little_fool_met { Some(m) => m, None => false })),
        Split::ColosseumBronzeUnlocked => should_split((match r.colosseum_bronze_opened { Some(o) => o, None => false })),
        Split::Colosseum => should_split((match r.seen_colosseum_title { Some(s) => s, None => false })),
        Split::Bronze1a => should_split_skip(pds.bronze1a(r)),
        Split::Bronze1b => should_split_skip(pds.bronze1b(r)),
        Split::Bronze1c => should_split_skip(pds.bronze1c(r)),
        _ => should_split(false),
    }
}

fn continuous_splits_41(s: &Split, r: &GameReadings, pds: &mut PlayerDataStore) -> (a: SplitterAction)
    requires
        old(pds).wf(),
    ensures
        final(pds).wf(),
        (final(pds)@, a) == spec_continuous_group_41(old(pds)@, *s, r),
{
    proof {
        reveal(spec_continuous_group_41);
    }
    match s {
        Split::Bronze2 => should_split_skip(pds.bronze2(r)),
        Split::Bronze3a => should_split_skip(pds.bronze3a(r)),
        Split::Bronze3b => should_split_skip(pds.bronze3b(r)),
        Split::Bronze4 => should_split_skip(pds.bronze4(r)),
        Split::Bronze5 => should_split_skip(pds.bronze5(r)),
        Split::Bronze6 => should_split_skip(pds.bronze6(r)),
        Split::Bronze7 => should_split_skip(pds.bronze7(r)),
        Split::Bronze8a => should_split_skip(pds.bronze8a(r)),
        Split::Bronze8b => should_split_skip(pds.bronze8b(r)),
        Split::Bronze9 => should_split_skip(pds.bronze9(r)),
        Split::Bronze10 => should_split_skip(pds.bronze10(r)),
        Split::Bronze11a => should_split_skip(pds.bronze11a(r)),
        _ => should_split(false),
    }
}

fn continuous_splits_42(s: &Split, r: &GameReadings, pds: &mut PlayerDataStore) -> (a: SplitterAction)
    requires
        old(pds).wf(),
    ensures
        final(pds).wf(),
        (final(pds)@, a) == spec_continuous_group_42(old(pds)@, *s, r),
{
    proof {
        reveal(spec_continuous_group_42);
    }
    match s {
        Split::Bronze11b => should_split_skip(pds.bronze11b(r)),
        Split::BronzeEnd => should_split_skip(pds.bronze_end(r)),
        Split::ZoteKilled => should_split((match r.killed_zote { Some(k) => k, None => false })),
        Split::ColosseumBronze => should_split((match r.colosseum_bronze_completed { Some(c) => c, None => false })),
        Split::ColosseumBronzeExit => {
            pds.colosseum_bronze_completed(r);
            should_split(false)
        },
        Split::ColosseumSilverUnlocked => should_split((match r.colosseum_silver_opened { Some(o) => o, None => false })),
        Split::Silver1 => should_split_skip(pds.silver1(r)),
        Split::Silver2 => should_split_skip(pds.silver2(r)),
        Split::Silver3 => should_split_skip(pds.silver3(r)),
        Split::Silver4 => should_split_skip(pds.silver4(r)),
        Split::Silver5 => should_split_skip(pds.silver5(r)),
        Split::Silver6 => should_split_skip(pds.silver6(r)),
        _ => should_split(false),
    }
}

fn continuous_splits_43(s: &Split, r: &GameReadings, pds: &mut PlayerDataStore) -> (a: SplitterAction)
    requires
        old(pds).wf(),
    ensures
        final(pds).wf(),
        (final(pds)@, a) == spec_continuous_group_43(old(pds)@, *s, r),
{
    proof {
        reveal(spec_continuous_group_43);
    }
    match s {
        Split::Silver7 => should_split_skip(pds.silver7(r)),
        Split::Silver8 => should_split_skip(pds.silver8(r)),
        Split::Silver9 => should_split_skip(pds.silver9(r)),
        Split::Silver10 => should_split_skip(pds.silver10(r)),
        Split::Silver11 => should_split_skip(pds.silver11(r)),
        Split::Silver12 => should_split_skip(pds.silver12(r)),
        Split::Silver13 => should_split_skip(pds.silver13(r)),
        Split::Silver14 => should_split_skip(pds.silver14(r)),
        Split::Silver15 => should_split_skip(pds.silver15(r)),
        Split::Silver16 => should_split_skip(pds.silver16(r)),
        Split::SilverEnd => should_split_skip(pds.silver_end(r)),
        Split::KilledOblobbles => should_split_skip(pds.killed_oblobbles(r)),
        _ => should_split(false),
    }
}

fn continuous_splits_44(s: &Split, r: &GameReadings, pds: &mut PlayerDataStore) -> (a: SplitterAction)
    requires
        old(pds).wf(),
    ensures
        final(pds).wf(),
        (final(pds)@, a) == spec_continuous_group_44(old(pds)@, *s, r),
{
    proof {
        reveal(spec_continuous_group_44);
    }
    match s {
        Split::ColosseumSilver => should_split((match r.colosseum_silver_completed { Some(c) => c, None => false })),
        Split::ColosseumSilverExit => {
            pds.colosseum_silver_completed(r);
            should_split(false)
        },
        Split::ColosseumGoldUnlocked => should_split((match r.colosseum_gold_opened { Some(o) => o, None => false })),
        Split::Gold1 => should_split_skip(pds.gold1(r)),
        Split::Gold3 => should_split_skip(pds.gold3(r)),
        Split::Gold4 => should_split_skip(pds.gold4(r)),
        Split::Gold5 => should_split_skip(pds.gold5(r)),
        Split::Gold6 => should_split_skip(pds.gold6(r)),
        Split::Gold7 => should_split_skip(pds.gold7(r)),
        Split::Gold8a => should_split_skip(pds.gold8a(r)),
        Split::Gold8 => should_split_skip(pds.gold8(r)),
        Split::Gold9a => should_split_skip(pds.gold9a(r)),
        _ => should_split(false),
    }
}

fn continuous_splits_45(s: &Split, r: &GameReadings, pds: &mut PlayerDataStore) -> (a: SplitterAction)
    requires
        old(pds).wf(),
    ensures
        final(pds).wf(),
        (final(pds)@, a) == spec_continuous_group_45(old(pds)@, *s, r),
{
    proof {
        reveal(spec_continuous_group_45);
    }
    match s {
        Split::Gold9b => should_split_skip(pds.gold9b(r)),
        Split::Gold10 => should_split_skip(pds.gold10(r)),
        Split::Gold11 => should_split_skip(pds.gold11(r)),
        Split::Gold12a => should_split_skip(pds.gold12a(r)),
        Split::Gold12b => should_split_skip(pds.gold12b(r)),
        Split::Gold14a => should_split_skip(pds.gold14a(r)),
        Split::Gold14b => should_split_skip(pds.gold14b(r)),
        Split::Gold15 => should_split_skip(pds.gold15(r)),
        Split::Gold16 => should_split_skip(pds.gold16(r)),
        Split::Gold17a => should_split_skip(pds.gold17a(r)),
        Split::Gold17b => should_split_skip(pds.gold17b(r)),
        Split::Gold17c => should_split_skip(pds.gold17c(r)),
        _ => should_split(false),
    }
}

fn continuous_splits_46(s: &Split, r: &GameReadings, pds: &mut PlayerDataStore) -> (a: SplitterAction)
    requires
        old(pds).wf(),
    ensures
        final(pds).wf(),
        (final(pds)@, a) == spec_continuous_group_46(old(pds)@, *s, r),
{
    proof {
        reveal(spec_continuous_group_46);
    }
    match s {
        Split::GoldEnd => should_split_skip(pds.gold_end(r)),
        Split::GodTamer => should_split((match r.killed_lobster_lancer { Some(k) => k, None => false })),
        Split::ColosseumGold => should_split((match r.colosseum_gold_completed { Some(c) => c, None => false })),
        Split::ColosseumGoldExit => {
            pds.colosseum_gold_completed(r);
            should_split(false)
        },
        Split::FogCanyon => should_split((match r.visited_fog_canyon { Some(v) => v, None => false })),
        Split::UumuuEncountered => should_split((match r.encountered_mega_jelly { Some(b) => b, None => false })),
        Split::Uumuu => should_split((match r.killed_mega_jellyfish { Some(k) => k, None => false })),
        Split::QueensGardens => should_split((match r.visited_royal_gardens { Some(v) => v, None => false })),
        Split::TollBenchQG => should_split((match r.toll_bench_queens_gardens { Some(b) => b, None => false })),
        Split::FlowerQuest => should_split((match r.xun_flower_given { Some(g) => g, None => false })),
        Split::Marmu => should_split((match r.killed_ghost_marmu { Some(k) => k, None => false })),
        Split::MarmuEssence => should_split((match r.mum_caterpillar_defeated { Some(d) => d == 2, None => false })),
        _ => should_split(false),
    }
}

fn continuous_splits_47(s: &Split, r: &GameReadings, pds: &mut PlayerDataStore) -> (a: SplitterAction)
    requires
        old(pds).wf(),
    ensures
        final(pds).wf(),
        (final(pds)@, a) == spec_continuous_group_47(old(pds)@, *s, r),
{
    proof {
        reveal(spec_continuous_group_47);
    }
    match s {
        Split::BenchQGStag => should_split((match r.at_bench { Some(b) => b, None => false }) && (match &r.scene_name { Some(s) => str_eq(s.as_str(), "Fungus3_40"), None => false })),
        Split::TraitorLord => should_split((match r.killed_traitor_lord { Some(k) => k, None => false })),
        Split::GivenWhiteLadyFlower => should_split((match r.given_white_lady_flower { Some(g) => g, None => false })),
        Split::Deepnest => should_split((match r.visited_deepnest { Some(v) => v, None => false })),
        Split::DeepnestSpa => should_split((match r.visited_deepnest_spa { Some(v) => v, None => false })),
        Split::Zote2 => should_split((match r.zote_rescued_deepnest { Some(z) => z, None => false })),
        Split::TramDeepnest => should_split((match r.opened_tram_lower { Some(o) => o, None => false })),
        Split::Nosk => should_split((match r.killed_mimic_spider { Some(k) => k, None => false })),
        Split::Galien => should_split((match r.killed_ghost_galien { Some(k) => k, None => false })),
        Split::GalienEssence => should_split((match r.galien_defeated { Some(d) => d == 2, None => false })),
        Split::BeastsDenTrapBench => should_split((match r.spider_capture { Some(c) => c, None => false })),
        Split::GodTuner => should_split((match r.has_godfinder { Some(g) => g, None => false })),
        _ => should_split(false),
    }
}

fn continuous_splits_48(s: &Split, r: &GameReadings, pds: &mut PlayerDataStore) -> (a: SplitterAction)
    requires
        old(pds).wf(),
    ensures
        final(pds).wf(),
        (final(pds)@, a) == spec_continuous_group_48(old(pds)@, *s, r),
{
    proof {
        reveal(spec_continuous_group_48);
    }
    match s {
        Split::GivenGodseekerFlower => should_split((match r.given_godseeker_flower { Some(g) => g, None => false })),
        Split::Godhome => should_split((match r.visited_godhome { Some(v) => v, None => false })),
        Split::EternalOrdealUnlocked => should_split((match r.zote_statue_wall_broken { Some(b) => b, None => false })),
        Split::EternalOrdealAchieved => should_split((match r.ordeal_achieved { Some(a) => a, None => false })),
        Split::MatoOroNailBros => should_split((match r.killed_nail_bros { Some(k) => k, None => false })),
        Split::Pantheon1 => should_split((match r.boss_door_state_tier1 { Some(c) => c.completed, None => false })),
        Split::SheoPaintmaster => should_split((match r.killed_paintmaster { Some(k) => k, None => false })),
        Split::Pantheon2 => should_split((match r.boss_door_state_tier2 { Some(c) => c.completed, None => false })),
        Split::SlyNailsage => should_split((match r.killed_nailsage { Some(k) => k, None => false })),
        Split::Pantheon3 => should_split((match r.boss_door_state_tier3 { Some(c) => c.completed, None => false })),
        Split::PureVessel => should_split((match r.killed_hollow_knight_prime { Some(k) => k, None => false })),
        Split::Pantheon4 => should_split((match r.boss_door_state_tier4 { Some(c) => c.completed, None => false })),
        _ => should_split(false),
    }
}

fn continuous_splits_49(s: &Split, r: &GameReadings, pds: &mut PlayerDataStore) -> (a: SplitterAction)
    requires
        old(pds).wf(),
    ensures
        final(pds).wf(),
        (final(pds)@, a) == spec_continuous_group_49(old(pds)@, *s, r),
{
    proof {
        reveal(spec_continuous_group_49);
    }
    match s {
        Split::Pantheon5 => should_split((match r.boss_door_state_tier5 { Some(c) => c.completed, None => false })),
        _ => should_split(false),
    }
}

/// What a split asks for at any moment, by what was read from the game.
pub fn continuous_splits(s: &Split, r: &GameReadings, pds: &mut PlayerDataStore) -> (a: SplitterAction)
    requires
        old(pds).wf(),
    ensures
        final(pds).wf(),
        (final(pds)@, a) == spec_continuous_splits(old(pds)@, *s, r),
{
    match s {
        Split::ManualSplit | Split::RandoWake | Split::BenchAny | Split::PlayerDeath | Split::ShadeKilled | Split::Lurien | Split::Monomon | Split::Hegemol | Split::Dreamer1 | Split::Dreamer2 | Split::Dreamer3 | Split::MenuDreamer3 => continuous_splits_0(s, r, pds),
        Split::LurienDreamer | Split::MonomonDreamer | Split::HegemolDreamer | Split::MrMushroom1 | Split::MrMushroom2 | Split::MrMushroom3 | Split::MrMushroom4 | Split::MrMushroom5 | Split::MrMushroom6 | Split::MrMushroom7 | Split::VengefulSpirit | Split::TransVS => continuous_splits_1(s, r, pds),
        Split::ShadeSoul | Split::TransShadeSoul | Split::MenuShadeSoul | Split::DesolateDive | Split::DescendingDark | Split::TransDescendingDark | Split::HowlingWraiths | Split::AbyssShriek | Split::MothwingCloak | Split::MenuCloak | Split::ShadeCloak | Split::MantisClaw => continuous_splits_2(s, r, pds),
        Split::TransClaw | Split::MenuClaw | Split::MonarchWings | Split::MenuWings | Split::CrystalHeart | Split::IsmasTear | Split::TransTear | Split::MenuIsmasTear | Split::CycloneSlash | Split::DashSlash | Split::GreatSlash | Split::DreamNail => continuous_splits_3(s, r, pds),
        Split::MenuDreamNail | Split::DreamGate | Split::MenuDreamGate | Split::DreamNail2 | Split::CityKey | Split::LumaflyLantern | Split::LumaflyLanternTransition | Split::SimpleKey | Split::OnObtainSimpleKey | Split::OnUseSimpleKey | Split::SlyKey | Split::ElegantKey => continuous_splits_4(s, r, pds),
        Split::LoveKey | Split::PaleLurkerKey | Split::SlySimpleKey | Split::KingsBrand | Split::TramPass | Split::NailUpgrade1 | Split::NailUpgrade2 | Split::NailUpgrade3 | Split::NailUpgrade4 | Split::OnObtainPaleOre | Split::Ore1 | Split::Ore2 => continuous_splits_5(s, r, pds),
        Split::Ore3 | Split::Ore4 | Split::Ore5 | Split::Ore6 | Split::PaleOre | Split::OnObtainMaskShard | Split::MaskFragment1 | Split::MaskFragment2 | Split::MaskFragment3 | Split::Mask1 | Split::MaskFragment5 | Split::MaskFragment6 => continuous_splits_6(s, r, pds),
        Split::MaskFragment7 | Split::Mask2 | Split::MaskFragment9 | Split::MaskFragment10 | Split::MaskFragment11 | Split::Mask3 | Split::MaskFragment13 | Split::MaskFragment14 | Split::MaskFragment15 | Split::Mask4 | Split::MaskShardMawlek | Split::MaskShardGrubfather => continuous_splits_7(s, r, pds),
        Split::MaskShardBretta | Split::MaskShardQueensStation | Split::MaskShardEnragedGuardian | Split::MaskShardSeer | Split::MaskShardGoam | Split::MaskShardStoneSanctuary | Split::MaskShardWaterways | Split::MaskShardFungalCore | Split::MaskShardHive | Split::MaskShardFlower | Split::OnObtainVesselFragment | Split::VesselFragment1 => continuous_splits_8(s, r, pds),
        Split::VesselFragment2 | Split::Vessel1 | Split::VesselFragment4 | Split::VesselFragment5 | Split::Vessel2 | Split::VesselFragment7 | Split::VesselFragment8 | Split::Vessel3 | Split::VesselFragGreenpath | Split::VesselFragCrossroadsLift | Split::VesselFragKingsStation | Split::VesselFragGarpedes => continuous_splits_9(s, r, pds),
        Split::VesselFragStagNest | Split::VesselFragSeer | Split::VesselFragFountain | Split::NotchShrumalOgres | Split::NotchSalubra1 | Split::NotchSalubra2 | Split::NotchSalubra3 | Split::NotchSalubra4 | Split::NotchFogCanyon | Split::NotchGrimm | Split::OnObtainCharmNotch | Split::GatheringSwarm => continuous_splits_10(s, r, pds),
        Split::WaywardCompass | Split::Grubsong | Split::StalwartShell | Split::BaldurShell | Split::FuryOfTheFallen | Split::QuickFocus | Split::LifebloodHeart | Split::LifebloodCore | Split::DefendersCrest | Split::Flukenest | Split::ThornsOfAgony | Split::MarkOfPride => continuous_splits_11(s, r, pds),
        Split::SteadyBody | Split::HeavyBlow | Split::SharpShadow | Split::SporeShroom | Split::Longnail | Split::ShamanStone | Split::SoulCatcher | Split::SoulEater | Split::GlowingWomb | Split::NailmastersGlory | Split::JonisBlessing | Split::ShapeOfUnn => continuous_splits_12(s, r, pds),
        Split::Hiveblood | Split::DreamWielder | Split::Dashmaster | Split::MenuDashmaster | Split::QuickSlash | Split::SpellTwister | Split::DeepFocus | Split::GrubberflysElegy | Split::Sprintmaster | Split::Dreamshield | Split::Weaversong | Split::FragileHeart => continuous_splits_13(s, r, pds),
        Split::UnbreakableHeart | Split::FragileGreed | Split::UnbreakableGreed | Split::FragileStrength | Split::UnbreakableStrength | Split::AllBreakables | Split::AllUnbreakables | Split::Grimmchild | Split::Grimmchild2 | Split::Grimmchild3 | Split::Grimmchild4 | Split::CarefreeMelody => continuous_splits_14(s, r, pds),
        Split::Flame1 | Split::Flame2 | Split::Flame3 | Split::BrummFlame | Split::WhiteFragmentLeft | Split::WhiteFragmentRight | Split::OnObtainWhiteFragment | Split::Kingsoul | Split::VoidHeart | Split::MenuVoidHeart | Split::RidingStag | Split::StagMoved => continuous_splits_15(s, r, pds),
        Split::CrossroadsStation | Split::GreenpathStation | Split::QueensStationStation | Split::StoreroomsStation | Split::KingsStationStation | Split::RestingGroundsStation | Split::HiddenStationStation | Split::DeepnestStation | Split::QueensGardensStation | Split::StagnestStation | Split::OnObtainWanderersJournal | Split::AllSeals => continuous_splits_16(s, r, pds),
        Split::OnObtainHallownestSeal | Split::SoulSanctumSeal | Split::OnObtainKingsIdol | Split::GladeIdol | Split::DungDefenderIdol | Split::ArcaneEgg8 | Split::OnObtainArcaneEgg | Split::OnObtainRancidEgg | Split::Grub1 | Split::Grub2 | Split::Grub3 | Split::Grub4 => continuous_splits_17(s, r, pds),
        Split::Grub5 | Split::Grub6 | Split::Grub7 | Split::Grub8 | Split::Grub9 | Split::Grub10 | Split::Grub11 | Split::Grub12 | Split::Grub13 | Split::Grub14 | Split::Grub15 | Split::Grub16 => continuous_splits_18(s, r, pds),
        Split::Grub17 | Split::Grub18 | Split::Grub19 | Split::Grub20 | Split::Grub21 | Split::Grub22 | Split::Grub23 | Split::Grub24 | Split::Grub25 | Split::Grub26 | Split::Grub27 | Split::Grub28 => continuous_splits_19(s, r, pds),
        Split::Grub29 | Split::Grub30 | Split::Grub31 | Split::Grub32 | Split::Grub33 | Split::Grub34 | Split::Grub35 | Split::Grub36 | Split::Grub37 | Split::Grub38 | Split::Grub39 | Split::Grub40 => continuous_splits_20(s, r, pds),
        Split::Grub41 | Split::Grub42 | Split::Grub43 | Split::Grub44 | Split::Grub45 | Split::Grub46 | Split::OnObtainGrub | Split::GrubBasinDive | Split::GrubBasinWings | Split::GrubCityBelowLoveTower | Split::GrubCityBelowSanctum | Split::GrubCityCollectorAll => continuous_splits_21(s, r, pds),
        Split::GrubCityCollector | Split::GrubCityGuardHouse | Split::GrubCitySanctum | Split::GrubCitySpire | Split::GrubCliffsBaldurShell | Split::GrubCrossroadsAcid | Split::GrubCrossroadsGuarded | Split::GrubCrossroadsSpikes | Split::GrubCrossroadsVengefly | Split::GrubCrossroadsWall | Split::GrubCrystalPeaksBottomLever | Split::GrubCrystalPeaksCrown => continuous_splits_22(s, r, pds),
        Split::GrubCrystalPeaksCrushers | Split::GrubCrystalPeaksCrystalHeart | Split::GrubCrystalPeaksMimics | Split::GrubCrystalPeaksMound | Split::GrubCrystalPeaksSpikes | Split::GrubDeepnestBeastsDen | Split::GrubDeepnestDark | Split::GrubDeepnestMimics | Split::GrubDeepnestNosk | Split::GrubDeepnestSpikes | Split::GrubFogCanyonArchives | Split::GrubFungalBouncy => continuous_splits_23(s, r, pds),
        Split::GrubFungalSporeShroom | Split::GrubGreenpathCornifer | Split::GrubGreenpathHunter | Split::GrubGreenpathMossKnight | Split::GrubGreenpathVesselFragment | Split::GrubHiveExternal | Split::GrubHiveInternal | Split::GrubKingdomsEdgeCenter | Split::GrubKingdomsEdgeOro | Split::GrubQueensGardensBelowStag | Split::GrubQueensGardensUpper | Split::GrubQueensGardensWhiteLady => continuous_splits_24(s, r, pds),
        Split::GrubRestingGroundsCrypts | Split::GrubWaterwaysCenter | Split::GrubWaterwaysHwurmps | Split::GrubWaterwaysIsma | Split::Mimic1 | Split::Mimic2 | Split::Mimic3 | Split::Mimic4 | Split::Mimic5 | Split::Essence100 | Split::Essence200 | Split::Essence300 => continuous_splits_25(s, r, pds),
        Split::Essence400 | Split::Essence500 | Split::Essence600 | Split::Essence700 | Split::Essence800 | Split::Essence900 | Split::Essence1000 | Split::Essence1100 | Split::Essence1200 | Split::Essence1300 | Split::Essence1400 | Split::Essence1500 => continuous_splits_26(s, r, pds),
        Split::Essence1600 | Split::Essence1700 | Split::Essence1800 | Split::Essence1900 | Split::Essence2000 | Split::Essence2100 | Split::Essence2200 | Split::Essence2300 | Split::Essence2400 | Split::TreeCity | Split::TreeCliffs | Split::TreeCrossroads => continuous_splits_27(s, r, pds),
        Split::TreeDeepnest | Split::TreeGlade | Split::TreeGreenpath | Split::TreeHive | Split::TreeKingdomsEdge | Split::TreeLegEater | Split::TreeMantisVillage | Split::TreeMound | Split::TreePeak | Split::TreeQueensGardens | Split::TreeRestingGrounds | Split::TreeWaterways => continuous_splits_28(s, r, pds),
        Split::OnObtainGhostMarissa | Split::OnObtainGhostCaelifFera | Split::OnObtainGhostPoggy | Split::OnObtainGhostGravedigger | Split::OnObtainGhostJoni | Split::MapDirtmouth | Split::MapCrossroads | Split::MapGreenpath | Split::MapFogCanyon | Split::MapRoyalGardens | Split::MapFungalWastes | Split::MapCity => continuous_splits_29(s, r, pds),
        Split::MapWaterways | Split::MapMines | Split::MapDeepnest | Split::MapCliffs | Split::MapOutskirts | Split::MapRestingGrounds | Split::MapAbyss | Split::CorniferAtHome | Split::Dirtmouth | Split::SlyShopFinished | Split::ElderbugFlower | Split::TroupeMasterGrimm => continuous_splits_30(s, r, pds),
        Split::NightmareKingGrimm | Split::GreyPrince | Split::GreyPrinceEssence | Split::ForgottenCrossroads | Split::InfectedCrossroads | Split::MenderBug | Split::BroodingMawlek | Split::AspidHunter | Split::BenchCrossroadsStag | Split::GruzMother | Split::SlyRescued | Split::FalseKnight => continuous_splits_31(s, r, pds),
        Split::FailedKnight | Split::FailedChampionEssence | Split::SalubrasBlessing | Split::PureSnail | Split::UnchainedHollowKnight | Split::HollowKnightBoss | Split::RadianceBoss | Split::Greenpath | Split::MossKnight | Split::Zote1 | Split::VengeflyKingTrans | Split::BenchGreenpathStag => continuous_splits_32(s, r, pds),
        Split::Hornet1 | Split::Aluba | Split::HuntersMark | Split::NoEyes | Split::NoEyesEssence | Split::MegaMossCharger | Split::MegaMossChargerTrans | Split::HappyCouplePlayerDataEvent | Split::FungalWastes | Split::BenchQueensStation | Split::ElderHu | Split::ElderHuEssence => continuous_splits_33(s, r, pds),
        Split::ElderHuTrans | Split::BrettaRescued | Split::MantisLords | Split::Gorb | Split::GorbEssence | Split::NightmareLantern | Split::NightmareLanternDestroyed | Split::RestingGrounds | Split::BenchRGStag | Split::Xero | Split::XeroEssence | Split::SpiritGladeOpen => continuous_splits_34(s, r, pds),
        Split::SeerDeparts | Split::MetGreyMourner | Split::GreyMournerSeerAscended | Split::CityGateOpen | Split::CityGateAndMantisLords | Split::CityOfTears | Split::GorgeousHusk | Split::TransGorgeousHusk | Split::MenuGorgeousHusk | Split::Lemm2 | Split::AllCharmNotchesLemm2CP | Split::TollBenchCity => continuous_splits_35(s, r, pds),
        Split::KilledSoulTwister | Split::KilledSanctumWarrior | Split::SoulMasterEncountered | Split::SoulMasterPhase1 | Split::SoulMaster | Split::SoulTyrant | Split::SoulTyrantEssence | Split::SoulTyrantEssenceWithSanctumGrub | Split::BenchStorerooms | Split::BenchKingsStation | Split::BenchSpire | Split::BenchSpireGHS => continuous_splits_36(s, r, pds),
        Split::WatcherChandelier | Split::BlackKnight | Split::BlackKnightTrans | Split::Collector | Split::TransCollector | Split::NailsmithKilled | Split::NailsmithChoice | Split::CrystalPeak | Split::HuskMiner | Split::CrystalGuardian1 | Split::CrystalGuardian2 | Split::MineLiftOpened => continuous_splits_37(s, r, pds),
        Split::WaterwaysManhole | Split::RoyalWaterways | Split::DungDefender | Split::WhiteDefender | Split::WhiteDefenderEssence | Split::MetEmilitia | Split::GivenEmilitiaFlower | Split::Flukemarm | Split::Abyss | Split::SavedCloth | Split::TollBenchBasin | Split::BrokenVessel => continuous_splits_38(s, r, pds),
        Split::BrokenVesselTrans | Split::LostKin | Split::LostKinEssence | Split::BenchHiddenStation | Split::WhitePalace | Split::WhitePalaceOrb1 | Split::WhitePalaceOrb3 | Split::WhitePalaceOrb2 | Split::PathOfPain | Split::WhitePalaceSecretRoom | Split::KingdomsEdge | Split::Hive => continuous_splits_39(s, r, pds),
        Split::HiveKnight | Split::GreatHopper | Split::GivenOroFlower | Split::Hornet2 | Split::Markoth | Split::MarkothEssence | Split::LittleFool | Split::ColosseumBronzeUnlocked | Split::Colosseum | Split::Bronze1a | Split::Bronze1b | Split::Bronze1c => continuous_splits_40(s, r, pds),
        Split::Bronze2 | Split::Bronze3a | Split::Bronze3b | Split::Bronze4 | Split::Bronze5 | Split::Bronze6 | Split::Bronze7 | Split::Bronze8a | Split::Bronze8b | Split::Bronze9 | Split::Bronze10 | Split::Bronze11a => continuous_splits_41(s, r, pds),
        Split::Bronze11b | Split::BronzeEnd | Split::ZoteKilled | Split::ColosseumBronze | Split::ColosseumBronzeExit | Split::ColosseumSilverUnlocked | Split::Silver1 | Split::Silver2 | Split::Silver3 | Split::Silver4 | Split::Silver5 | Split::Silver6 => continuous_splits_42(s, r, pds),
        Split::Silver7 | Split::Silver8 | Split::Silver9 | Split::Silver10 | Split::Silver11 | Split::Silver12 | Split::Silver13 | Split::Silver14 | Split::Silver15 | Split::Silver16 | Split::SilverEnd | Split::KilledOblobbles => continuous_splits_43(s, r, pds),
        Split::ColosseumSilver | Split::ColosseumSilverExit | Split::ColosseumGoldUnlocked | Split::Gold1 | Split::Gold3 | Split::Gold4 | Split::Gold5 | Split::Gold6 | Split::Gold7 | Split::Gold8a | Split::Gold8 | Split::Gold9a => continuous_splits_44(s, r, pds),
        Split::Gold9b | Split::Gold10 | Split::Gold11 | Split::Gold12a | Split::Gold12b | Split::Gold14a | Split::Gold14b | Split::Gold15 | Split::Gold16 | Split::Gold17a | Split::Gold17b | Split::Gold17c => continuous_splits_45(s, r, pds),
        Split::GoldEnd | Split::GodTamer | Split::ColosseumGold | Split::ColosseumGoldExit | Split::FogCanyon | Split::UumuuEncountered | Split::Uumuu | Split::QueensGardens | Split::TollBenchQG | Split::FlowerQuest | Split::Marmu | Split::MarmuEssence => continuous_splits_46(s, r, pds),
        Split::BenchQGStag | Split::TraitorLord | Split::GivenWhiteLadyFlower | Split::Deepnest | Split::DeepnestSpa | Split::Zote2 | Split::TramDeepnest | Split::Nosk | Split::Galien | Split::GalienEssence | Split::BeastsDenTrapBench | Split::GodTuner => continuous_splits_47(s, r, pds),
        Split::GivenGodseekerFlower | Split::Godhome | Split::EternalOrdealUnlocked | Split::EternalOrdealAchieved | Split::MatoOroNailBros | Split::Pantheon1 | Split::SheoPaintmaster | Split::Pantheon2 | Split::SlyNailsage | Split::Pantheon3 | Split::PureVessel | Split::Pantheon4 => continuous_splits_48(s, r, pds),
        Split::Pantheon5 => continuous_splits_49(s, r, pds),
        _ => should_split(false),
    }
}


/// The dreamer splits count the dreamers defeated: the first, second and
/// third dreamer splits fire once at least one, two and three dreamers are
/// defeated, and never while that number is unknown; they change no player data.
pub proof fn lemma_dreamers_split_on_count(v: PlayerDataView, r: &GameReadings)
    ensures
        spec_continuous_splits(v, Split::Dreamer1, r) == (v, if r.guardians_defeated matches Some(d)
            && d >= 1 {
            SplitterAction::Split
        } else {
            SplitterAction::Pass
        }),
        spec_continuous_splits(v, Split::Dreamer2, r) == (v, if r.guardians_defeated matches Some(d)
            && d >= 2 {
            SplitterAction::Split
        } else {
            SplitterAction::Pass
        }),
        spec_continuous_splits(v, Split::Dreamer3, r) == (v, if r.guardians_defeated matches Some(d)
            && d >= 3 {
            SplitterAction::Split
        } else {
            SplitterAction::Pass
        }),
{
    reveal(spec_continuous_group_0);
}

} // verus!
