//! Values read from the game's memory on one tick. Reading memory is the
//! embedding program's work; the library decides from these values.

use vstd::prelude::*;

use crate::scenes::{
    is_non_continuous_game_state,
    is_non_menu_game_state,
    spec_non_continuous_game_state,
    spec_non_menu_game_state,
};
use crate::asr_xml::{parse_i64, spec_parse_i64};
use crate::text::str_eq;

verus! {

/// The state of a Pantheon's door in the Godhome.
#[derive(Clone, Copy, Debug, PartialEq, Eq, Structural)]
pub struct BossSequenceDoorCompletion {
    pub can_unlock: bool,
    pub unlocked: bool,
    pub completed: bool,
    pub all_bindings: bool,
    pub no_hits: bool,
    pub bound_nail: bool,
    pub bound_shell: bool,
    pub bound_charms: bool,
    pub bound_soul: bool,
}

/// What the game's memory held on one tick; `None` where a value could not be read.
pub struct GameReadings {
    pub game_state: Option<i32>,
    pub health: Option<i32>,
    pub guardians_defeated: Option<i32>,
    pub fireball_level: Option<i32>,
    pub quake_level: Option<i32>,
    pub grimm_child_level: Option<i32>,
    pub flames_collected: Option<i32>,
    pub cornifer_at_home: Option<bool>,
    pub has_lantern: Option<bool>,
    pub got_charm_1: Option<bool>,
    pub got_charm_4: Option<bool>,
    pub got_charm_15: Option<bool>,
    pub got_charm_31: Option<bool>,
    pub got_charm_37: Option<bool>,
    pub sly_shell_frag4: Option<bool>,
    pub sly_vessel_frag2: Option<bool>,
    pub zote_rescued_buzzer: Option<bool>,
    pub has_dash: Option<bool>,
    pub mega_moss_charger_defeated: Option<bool>,
    pub killed_ghost_hu: Option<bool>,
    pub has_wall_jump: Option<bool>,
    pub has_dream_nail: Option<bool>,
    pub has_dream_gate: Option<bool>,
    pub killed_gorgeous_husk: Option<bool>,
    pub killed_black_knight: Option<bool>,
    pub collector_defeated: Option<bool>,
    pub has_acid_armour: Option<bool>,
    pub killed_infected_knight: Option<bool>,
    pub has_double_jump: Option<bool>,
    pub got_shade_charm: Option<bool>,
    pub colosseum_bronze_completed: Option<bool>,
    pub colosseum_silver_completed: Option<bool>,
    pub colosseum_gold_completed: Option<bool>,
    pub equipped_charm_40: Option<bool>,
    pub killed_hollow_knight: Option<bool>,
    pub scenes_grub_rescued: Option<Vec<String>>,
    pub aladar_slug_defeated: Option<i32>,
    pub at_bench: Option<bool>,
    pub boss_door_state_tier1: Option<BossSequenceDoorCompletion>,
    pub boss_door_state_tier2: Option<BossSequenceDoorCompletion>,
    pub boss_door_state_tier3: Option<BossSequenceDoorCompletion>,
    pub boss_door_state_tier4: Option<BossSequenceDoorCompletion>,
    pub boss_door_state_tier5: Option<BossSequenceDoorCompletion>,
    pub bretta_rescued: Option<bool>,
    pub broken_charm_23: Option<bool>,
    pub broken_charm_24: Option<bool>,
    pub broken_charm_25: Option<bool>,
    pub charm_cost_36: Option<i32>,
    pub colosseum_bronze_opened: Option<bool>,
    pub colosseum_gold_opened: Option<bool>,
    pub colosseum_silver_opened: Option<bool>,
    pub crossroads_infected: Option<bool>,
    pub defeated_mantis_lords: Option<bool>,
    pub defeated_mega_beam_miner: Option<bool>,
    pub destroyed_nightmare_lantern: Option<bool>,
    pub disable_pause: Option<bool>,
    pub dream_nail_upgraded: Option<bool>,
    pub dream_orbs: Option<i32>,
    pub elder_hu_defeated: Option<i32>,
    pub elderbug_gave_flower: Option<bool>,
    pub encountered_mega_jelly: Option<bool>,
    pub false_knight_dream_defeated: Option<bool>,
    pub false_knight_orbs_collected: Option<bool>,
    pub fragile_greed_unbreakable: Option<bool>,
    pub fragile_health_unbreakable: Option<bool>,
    pub fragile_strength_unbreakable: Option<bool>,
    pub galien_defeated: Option<i32>,
    pub next_scene_name: Option<String>,
    pub scene_name: Option<String>,
    pub scream_level: Option<i32>,
    pub given_emilitia_flower: Option<bool>,
    pub given_godseeker_flower: Option<bool>,
    pub given_oro_flower: Option<bool>,
    pub given_white_lady_flower: Option<bool>,
    pub glade_door_opened: Option<bool>,
    pub got_brumms_flame: Option<bool>,
    pub got_charm_10: Option<bool>,
    pub got_charm_11: Option<bool>,
    pub got_charm_12: Option<bool>,
    pub got_charm_13: Option<bool>,
    pub got_charm_14: Option<bool>,
    pub got_charm_16: Option<bool>,
    pub got_charm_17: Option<bool>,
    pub got_charm_18: Option<bool>,
    pub got_charm_19: Option<bool>,
    pub got_charm_2: Option<bool>,
    pub got_charm_20: Option<bool>,
    pub got_charm_21: Option<bool>,
    pub got_charm_22: Option<bool>,
    pub got_charm_23: Option<bool>,
    pub got_charm_24: Option<bool>,
    pub got_charm_25: Option<bool>,
    pub got_charm_26: Option<bool>,
    pub got_charm_27: Option<bool>,
    pub got_charm_28: Option<bool>,
    pub got_charm_29: Option<bool>,
    pub got_charm_3: Option<bool>,
    pub got_charm_30: Option<bool>,
    pub got_charm_32: Option<bool>,
    pub got_charm_33: Option<bool>,
    pub got_charm_34: Option<bool>,
    pub got_charm_35: Option<bool>,
    pub got_charm_38: Option<bool>,
    pub got_charm_39: Option<bool>,
    pub got_charm_40: Option<bool>,
    pub got_charm_5: Option<bool>,
    pub got_charm_6: Option<bool>,
    pub got_charm_7: Option<bool>,
    pub got_charm_8: Option<bool>,
    pub got_charm_9: Option<bool>,
    pub got_grimm_notch: Option<bool>,
    pub got_king_fragment: Option<bool>,
    pub got_lurker_key: Option<bool>,
    pub got_queen_fragment: Option<bool>,
    pub grey_prince_orbs_collected: Option<bool>,
    pub grubs_collected: Option<i32>,
    pub has_city_key: Option<bool>,
    pub has_cyclone: Option<bool>,
    pub has_dash_slash: Option<bool>,
    pub has_godfinder: Option<bool>,
    pub has_kings_brand: Option<bool>,
    pub has_love_key: Option<bool>,
    pub has_shadow_dash: Option<bool>,
    pub has_sly_key: Option<bool>,
    pub has_super_dash: Option<bool>,
    pub has_tram_pass: Option<bool>,
    pub has_upward_slash: Option<bool>,
    pub has_white_key: Option<bool>,
    pub heart_pieces: Option<i32>,
    pub hegemol_defeated: Option<bool>,
    pub hornet_outskirts_defeated: Option<bool>,
    pub infected_knight_dream_defeated: Option<bool>,
    pub infected_knight_orbs_collected: Option<bool>,
    pub killed_big_fly: Option<bool>,
    pub killed_dung_defender: Option<bool>,
    pub killed_false_knight: Option<bool>,
    pub killed_final_boss: Option<bool>,
    pub killed_fluke_mother: Option<bool>,
    pub killed_ghost_aladar: Option<bool>,
    pub killed_ghost_galien: Option<bool>,
    pub killed_ghost_markoth: Option<bool>,
    pub killed_ghost_marmu: Option<bool>,
    pub killed_ghost_no_eyes: Option<bool>,
    pub killed_ghost_xero: Option<bool>,
    pub killed_giant_hopper: Option<bool>,
    pub killed_grey_prince: Option<bool>,
    pub killed_grimm: Option<bool>,
    pub killed_hive_knight: Option<bool>,
    pub killed_hollow_knight_prime: Option<bool>,
    pub killed_hornet: Option<bool>,
    pub killed_hunter_mark: Option<bool>,
    pub killed_lazy_flyer: Option<bool>,
    pub killed_lobster_lancer: Option<bool>,
    pub killed_mage: Option<bool>,
    pub killed_mage_knight: Option<bool>,
    pub killed_mage_lord: Option<bool>,
    pub killed_mawlek: Option<bool>,
    pub killed_mega_jellyfish: Option<bool>,
    pub killed_mender_bug: Option<bool>,
    pub killed_mimic_spider: Option<bool>,
    pub killed_moss_knight: Option<bool>,
    pub killed_nail_bros: Option<bool>,
    pub killed_nailsage: Option<bool>,
    pub killed_nightmare_grimm: Option<bool>,
    pub killed_paintmaster: Option<bool>,
    pub killed_traitor_lord: Option<bool>,
    pub killed_white_defender: Option<bool>,
    pub killed_zote: Option<bool>,
    pub kills_great_shield_zombie: Option<i32>,
    pub kills_grub_mimic: Option<i32>,
    pub kills_mega_beam_miner: Option<i32>,
    pub little_fool_met: Option<bool>,
    pub lurien_defeated: Option<bool>,
    pub mage_lord_dream_defeated: Option<bool>,
    pub mage_lord_encountered: Option<bool>,
    pub mage_lord_encountered_2: Option<bool>,
    pub mage_lord_orbs_collected: Option<bool>,
    pub map_abyss: Option<bool>,
    pub map_city: Option<bool>,
    pub map_cliffs: Option<bool>,
    pub map_crossroads: Option<bool>,
    pub map_deepnest: Option<bool>,
    pub map_dirtmouth: Option<bool>,
    pub map_fog_canyon: Option<bool>,
    pub map_fungal_wastes: Option<bool>,
    pub map_greenpath: Option<bool>,
    pub map_mines: Option<bool>,
    pub map_outskirts: Option<bool>,
    pub map_resting_grounds: Option<bool>,
    pub map_royal_gardens: Option<bool>,
    pub map_waterways: Option<bool>,
    pub markoth_defeated: Option<i32>,
    pub mask_broken_hegemol: Option<bool>,
    pub mask_broken_lurien: Option<bool>,
    pub mask_broken_monomon: Option<bool>,
    pub max_health_base: Option<i32>,
    pub met_emilitia: Option<bool>,
    pub met_relic_dealer_shop: Option<bool>,
    pub met_xun: Option<bool>,
    pub mine_lift_opened: Option<bool>,
    pub monomon_defeated: Option<bool>,
    pub moth_departed: Option<bool>,
    pub mp_reserve_max: Option<i32>,
    pub mr_mushroom_state: Option<i32>,
    pub mum_caterpillar_defeated: Option<i32>,
    pub nail_smith_upgrades: Option<i32>,
    pub nailsmith_convo_art: Option<bool>,
    pub nailsmith_killed: Option<bool>,
    pub nailsmith_spared: Option<bool>,
    pub new_data_binding_seal: Option<bool>,
    pub nightmare_lantern_lit: Option<bool>,
    pub no_eyes_defeated: Option<i32>,
    pub notch_fog_canyon: Option<bool>,
    pub notch_shroom_ogres: Option<bool>,
    pub opened_city_gate: Option<bool>,
    pub opened_crossroads: Option<bool>,
    pub opened_deepnest: Option<bool>,
    pub opened_fungal_wastes: Option<bool>,
    pub opened_greenpath: Option<bool>,
    pub opened_hidden_station: Option<bool>,
    pub opened_resting_grounds: Option<bool>,
    pub opened_royal_gardens: Option<bool>,
    pub opened_ruins1: Option<bool>,
    pub opened_ruins2: Option<bool>,
    pub opened_stag_nest: Option<bool>,
    pub opened_tram_lower: Option<bool>,
    pub opened_waterways_manhole: Option<bool>,
    pub ordeal_achieved: Option<bool>,
    pub ore: Option<i32>,
    pub royal_charm_state: Option<i32>,
    pub salubra_blessing: Option<bool>,
    pub salubra_notch1: Option<bool>,
    pub salubra_notch2: Option<bool>,
    pub salubra_notch3: Option<bool>,
    pub salubra_notch4: Option<bool>,
    pub saved_cloth: Option<bool>,
    pub scenes_encountered_dream_plant_c: Option<Vec<String>>,
    pub seen_colosseum_title: Option<bool>,
    pub simple_keys: Option<i32>,
    pub sly_rescued: Option<bool>,
    pub sly_simple_key: Option<bool>,
    pub sold_trinket2: Option<i32>,
    pub sold_trinket4: Option<i32>,
    pub sold_trinket1: Option<i32>,
    pub sold_trinket3: Option<i32>,
    pub spider_capture: Option<bool>,
    pub toll_bench_abyss: Option<bool>,
    pub toll_bench_city: Option<bool>,
    pub toll_bench_queens_gardens: Option<bool>,
    pub travelling: Option<bool>,
    pub trinket2: Option<i32>,
    pub trinket4: Option<i32>,
    pub unchained_hollow_knight: Option<bool>,
    pub vessel_fragments: Option<i32>,
    pub visited_abyss: Option<bool>,
    pub visited_crossroads: Option<bool>,
    pub visited_deepnest: Option<bool>,
    pub visited_deepnest_spa: Option<bool>,
    pub visited_dirtmouth: Option<bool>,
    pub visited_fog_canyon: Option<bool>,
    pub visited_fungus: Option<bool>,
    pub visited_godhome: Option<bool>,
    pub visited_greenpath: Option<bool>,
    pub visited_hive: Option<bool>,
    pub visited_mines: Option<bool>,
    pub visited_outskirts: Option<bool>,
    pub visited_resting_grounds: Option<bool>,
    pub visited_royal_gardens: Option<bool>,
    pub visited_ruins: Option<bool>,
    pub visited_waterways: Option<bool>,
    pub visited_white_palace: Option<bool>,
    pub watcher_chandelier: Option<bool>,
    pub white_defender_orbs_collected: Option<bool>,
    pub white_palace_orb_1: Option<bool>,
    pub white_palace_orb_2: Option<bool>,
    pub white_palace_orb_3: Option<bool>,
    pub white_palace_secret_room_visited: Option<bool>,
    pub xero_defeated: Option<i32>,
    pub xun_flower_given: Option<bool>,
    pub zote_rescued_deepnest: Option<bool>,
    pub zote_statue_wall_broken: Option<bool>,
    pub kills_spitter: Option<i32>,
    pub kills_col_roller: Option<i32>,
    pub kills_bursting_bouncer: Option<i32>,
    pub kills_col_shield: Option<i32>,
    pub kills_col_miner: Option<i32>,
    pub kills_buzzer: Option<i32>,
    pub kills_big_buzzer: Option<i32>,
    pub kills_big_fly: Option<i32>,
    pub stag_position: Option<i32>,
    pub kills_zombie_miner: Option<i32>,
    pub kills_col_worm: Option<i32>,
    pub kills_col_mosquito: Option<i32>,
    pub kills_col_flying_sentry: Option<i32>,
    pub kills_electric_mage: Option<i32>,
    pub kills_mage: Option<i32>,
    pub kills_mage_knight: Option<i32>,
    pub kills_lesser_mawlek: Option<i32>,
    pub kills_mawlek: Option<i32>,
    pub kills_mantis_heavy_flyer: Option<i32>,
    pub kills_blobble: Option<i32>,
    pub kills_col_hopper: Option<i32>,
    pub kills_heavy_mantis: Option<i32>,
    pub kills_angry_buzzer: Option<i32>,
    pub kills_ceiling_dropper: Option<i32>,
    pub kills_lobster_lancer: Option<i32>,
    pub charm_slots: Option<i32>,
    pub rancid_eggs: Option<i32>,
    pub trinket1: Option<i32>,
    pub trinket3: Option<i32>,
    pub kills_oblobble: Option<i32>,
    pub focusing: Option<bool>,
    pub equipped_charm_5: Option<bool>,
    pub equipped_charm_7: Option<bool>,
    pub equipped_charm_17: Option<bool>,
    pub equipped_charm_28: Option<bool>,
    pub max_health: Option<i32>,
    pub mpcharge: Option<i32>,
    pub soul_limited: Option<bool>,
    pub kills_super_spitter: Option<i32>,
    pub kills_giant_hopper: Option<i32>,
    pub ghost_coins: Option<i32>,
    pub grey_prince_defeats: Option<i32>,
    pub white_defender_defeats: Option<i32>,
    pub can_overcharm: Option<bool>,
    pub kills_mushroom_brawler: Option<i32>,
    pub version: Option<Vec<i32>>,
}

/// The game is in a save file rather than a menu.
pub open spec fn spec_in_save(r: &GameReadings) -> bool {
    match r.game_state {
        Some(gs) => spec_non_menu_game_state(gs),
        None => false,
    }
}

/// Sly's shop is finished when everything it sells has been bought; `None`
/// when a value is missing before the answer is known.
pub open spec fn spec_sly_shop_finished(r: &GameReadings) -> Option<bool> {
    match r.has_lantern {
        None => None,
        Some(false) => Some(false),
        Some(true) => match r.got_charm_1 {
            None => None,
            Some(false) => Some(false),
            Some(true) => match r.got_charm_4 {
                None => None,
                Some(false) => Some(false),
                Some(true) => match r.got_charm_15 {
                    None => None,
                    Some(false) => Some(false),
                    Some(true) => match r.got_charm_37 {
                        None => None,
                        Some(false) => Some(false),
                        Some(true) => match r.sly_shell_frag4 {
                            None => None,
                            Some(false) => Some(false),
                            Some(true) => r.sly_vessel_frag2,
                        },
                    },
                },
            },
        },
    }
}

/// One of the names is `name`.
pub open spec fn spec_contains_scene(names: Seq<String>, name: Seq<char>) -> bool {
    exists|k: int| 0 <= k < names.len() && #[trigger] names[k]@ == name
}

/// The grub in Isma's Grove (scene `Waterways_13`) is among the rescued ones.
pub open spec fn spec_grub_waterways_isma(r: &GameReadings) -> Option<bool> {
    match r.scenes_grub_rescued {
        Some(v) => Some(spec_contains_scene(v@, "Waterways_13"@)),
        None => None,
    }
}


/// The game is in a state where play is not continuous (loading, entering or
/// leaving a level, or a menu).
pub open spec fn spec_non_continuous(r: &GameReadings) -> bool {
    match r.game_state {
        Some(gs) => spec_non_continuous_game_state(gs),
        None => false,
    }
}

/// A number, or zero when it could not be read.
pub open spec fn spec_or_zero(m: Option<i32>) -> int {
    match m {
        Some(x) => x as int,
        None => 0,
    }
}

/// A number, or zero when it could not be read.
pub fn or_zero(m: Option<i32>) -> (r: i32)
    ensures
        r == spec_or_zero(m),
{
    match m {
        Some(x) => x,
        None => 0,
    }
}

/// Whether the hero recoils from a hit, from the two flags that show it: yes
/// as soon as one of them is set; no when both were read unset; unknown
/// otherwise.
pub open spec fn spec_recoil(frozen: Option<bool>, recoiling: Option<bool>) -> Option<bool> {
    if frozen == Some(true) || recoiling == Some(true) {
        Some(true)
    } else if frozen is Some && recoiling is Some {
        Some(false)
    } else {
        None
    }
}

/// Whether the hero recoils from a hit, from the recoil-frozen and recoiling
/// flags.
pub fn hero_recoil(frozen: Option<bool>, recoiling: Option<bool>) -> (r: Option<bool>)
    ensures
        r == spec_recoil(frozen, recoiling),
{
    if frozen == Some(true) {
        return Some(true);
    }
    if recoiling == Some(true) {
        return Some(true);
    }
    match (frozen, recoiling) {
        (Some(f), Some(c)) => Some(f || c),
        _ => None,
    }
}

/// The offset of the UI state in the game versions whose numbering of UI
/// states is the one this library uses.
pub const UI_STATE_OFFSET_CURRENT: u32 = 0x124;

/// The UI state in this library's numbering: games whose UI state lies at
/// another offset lack two states, so their states from 2 on are shifted up by two.
pub open spec fn spec_ui_state(offset: u32, ui: i32) -> int {
    if offset != UI_STATE_OFFSET_CURRENT && ui >= 2 {
        ui + 2
    } else {
        ui as int
    }
}

/// The UI state read at `offset`, in this library's numbering.
pub fn ui_state(offset: u32, ui: i32) -> (r: i32)
    requires
        offset == UI_STATE_OFFSET_CURRENT || ui < 2 || ui <= i32::MAX - 2,
    ensures
        r == spec_ui_state(offset, ui),
{
    if offset != UI_STATE_OFFSET_CURRENT && ui >= 2 {
        ui + 2
    } else {
        ui
    }
}

/// The parts of `s` between dots, in order.
pub open spec fn spec_dot_parts(s: Seq<char>) -> Seq<Seq<char>>
    decreases s.len(),
{
    if s.len() == 0 {
        seq![Seq::empty()]
    } else {
        let parts = spec_dot_parts(s.drop_last());
        if s.last() == '.' {
            parts.push(Seq::empty())
        } else {
            parts.update(parts.len() - 1, parts.last().push(s.last()))
        }
    }
}

/// A part of a version number: its value when it reads as a 32-bit integer,
/// else 0.
pub open spec fn spec_version_part(p: Seq<char>) -> i32 {
    match spec_parse_i64(p) {
        Some(v) => if i32::MIN <= v && v <= i32::MAX {
            v as i32
        } else {
            0
        },
        None => 0,
    }
}

proof fn lemma_dot_parts_nonempty(s: Seq<char>)
    ensures
        spec_dot_parts(s).len() >= 1,
    decreases s.len(),
{
    if s.len() > 0 {
        lemma_dot_parts_nonempty(s.drop_last());
    }
}

/// The numbers of a version written with dots, such as `1.5.78.11833`; a part
/// that does not read as a 32-bit integer counts as 0.
pub fn version_numbers(s: &str) -> (r: Vec<i32>)
    ensures
        r@ == spec_dot_parts(s@).map_values(|p: Seq<char>| spec_version_part(p)),
{
    let n = s.unicode_len();
    let mut parts: Vec<&str> = Vec::new();
    let mut start: usize = 0;
    let mut i: usize = 0;
    proof {
        assert(s@.take(0) =~= Seq::<char>::empty());
        assert(parts@.map_values(|p: &str| p@).push(s@.subrange(0, 0)) =~= seq![Seq::<char>::empty()]);
    }
    while i < n
        invariant
            n == s@.len(),
            start <= i <= n,
            parts@.map_values(|p: &str| p@).push(s@.subrange(start as int, i as int))
                == spec_dot_parts(s@.take(i as int)),
        decreases n - i,
    {
        let c = s.get_char(i);
        let ghost before = parts@.map_values(|p: &str| p@).push(s@.subrange(start as int, i as int));
        proof {
            assert(s@.take(i + 1).drop_last() =~= s@.take(i as int));
            assert(s@.take(i + 1).last() == c);
        }
        if c == '.' {
            let part = s.substring_char(start, i);
            let ghost old_parts = parts@;
            parts.push(part);
            start = i + 1;
            proof {
                assert(parts@ == old_parts.push(part));
                assert(parts@.map_values(|p: &str| p@) =~= old_parts.map_values(|p: &str| p@).push(part@));
                assert(s@.subrange(start as int, i + 1) =~= Seq::<char>::empty());
                assert(parts@.map_values(|p: &str| p@).push(s@.subrange(start as int, i + 1))
                    =~= before.push(Seq::empty()));
            }
        } else {
            proof {
                assert(s@.subrange(start as int, i + 1) =~= s@.subrange(start as int, i as int).push(c));
                assert(parts@.map_values(|p: &str| p@).push(s@.subrange(start as int, i + 1))
                    =~= before.update(before.len() - 1, before.last().push(c)));
            }
        }
        i = i + 1;
    }
    let last = s.substring_char(start, n);
    parts.push(last);
    proof {
        assert(s@.take(n as int) =~= s@);
    }
    let ghost ps = parts@.map_values(|p: &str| p@);
    let mut r: Vec<i32> = Vec::new();
    let mut k: usize = 0;
    while k < parts.len()
        invariant
            k <= parts@.len(),
            ps == parts@.map_values(|p: &str| p@),
            ps == spec_dot_parts(s@),
            r@ =~= ps.take(k as int).map_values(|p: Seq<char>| spec_version_part(p)),
        decreases parts@.len() - k,
    {
        let v = match parse_i64(parts[k]) {
            Some(v) => if i32::MIN as i64 <= v && v <= i32::MAX as i64 {
                v as i32
            } else {
                0
            },
            None => 0,
        };
        proof {
            assert(ps[k as int] == parts@[k as int]@);
            assert(ps.take(k + 1).drop_last() =~= ps.take(k as int));
        }
        r.push(v);
        k = k + 1;
    }
    proof {
        assert(ps.take(ps.len() as int) =~= ps);
    }
    r
}

/// Whether the game's version predates the Hive Knight: version 1.2 or older.
pub open spec fn spec_hive_knight_doesnt_exist(version: Option<Vec<i32>>) -> bool {
    match version {
        Some(v) => v@.len() > 1 && v@[0] <= 1 && v@[1] <= 2,
        None => false,
    }
}

/// Whether the game's version predates the Hive Knight.
pub fn hive_knight_doesnt_exist(version: &Option<Vec<i32>>) -> (r: bool)
    ensures
        r == spec_hive_knight_doesnt_exist(*version),
{
    match version {
        Some(v) => v.len() > 1 && v[0] <= 1 && v[1] <= 2,
        None => false,
    }
}

/// Whether the game enters dream scenes by a scene transition routine: from
/// version 1.3 on, by the minor number; unknown without one.
pub open spec fn spec_uses_scene_transition_routine(version: Seq<i32>) -> Option<bool> {
    if version.len() > 1 {
        Some(version[1] >= 3)
    } else {
        None
    }
}

/// Whether the game of version `version` enters dream scenes by a scene
/// transition routine.
pub fn uses_scene_transition_routine(version: &[i32]) -> (r: Option<bool>)
    ensures
        r == spec_uses_scene_transition_routine(version@),
{
    if version.len() > 1 {
        Some(version[1] >= 3)
    } else {
        None
    }
}

/// The list was read and holds the scene `name`.
pub open spec fn spec_has_scene(list: Option<Vec<String>>, name: Seq<char>) -> bool {
    match list {
        Some(v) => spec_contains_scene(v@, name),
        None => false,
    }
}

/// Whether the list was read and holds the scene `name`.
pub fn has_scene(list: &Option<Vec<String>>, name: &str) -> (b: bool)
    ensures
        b == spec_has_scene(*list, name@),
{
    match list {
        None => false,
        Some(v) => {
            let mut k: usize = 0;
            while k < v.len()
                invariant
                    k <= v@.len(),
                    *list == Some(*v),
                    forall|j: int| 0 <= j < k ==> v@[j]@ != name@,
                decreases v@.len() - k,
            {
                if str_eq(v[k].as_str(), name) {
                    assert(spec_contains_scene(v@, name@));
                    return true;
                }
                k = k + 1;
            }
            false
        },
    }
}

/// The pale ore obtained in all: what the nailsmith's upgrades took
/// (0 + 1 + ... + (upgrades - 1)) plus what is held.
pub open spec fn spec_ore_gross(r: &GameReadings) -> Option<int> {
    match (r.nail_smith_upgrades, r.ore) {
        (Some(u), Some(o)) => Some((u * (u - 1)) / 2 + o),
        _ => None,
    }
}

/// The geo that selling relics brought: 200, 450, 800 and 1200 for each of
/// the four kinds.
pub open spec fn spec_sold_trinkets_geo(r: &GameReadings) -> Option<int> {
    match (r.sold_trinket1, r.sold_trinket2, r.sold_trinket3, r.sold_trinket4) {
        (Some(a), Some(b), Some(c), Some(d)) => Some(200 * a + 450 * b + 800 * c + 1200 * d),
        _ => None,
    }
}

impl GameReadings {
    /// Readings of a tick on which nothing could be read.
    pub fn unread() -> (r: GameReadings)
        ensures
            r == (GameReadings {
                game_state: None,
                health: None,
                guardians_defeated: None,
                fireball_level: None,
                quake_level: None,
                grimm_child_level: None,
                flames_collected: None,
                cornifer_at_home: None,
                has_lantern: None,
                got_charm_1: None,
                got_charm_4: None,
                got_charm_15: None,
                got_charm_31: None,
                got_charm_37: None,
                sly_shell_frag4: None,
                sly_vessel_frag2: None,
                zote_rescued_buzzer: None,
                has_dash: None,
                mega_moss_charger_defeated: None,
                killed_ghost_hu: None,
                has_wall_jump: None,
                has_dream_nail: None,
                has_dream_gate: None,
                killed_gorgeous_husk: None,
                killed_black_knight: None,
                collector_defeated: None,
                has_acid_armour: None,
                killed_infected_knight: None,
                has_double_jump: None,
                got_shade_charm: None,
                colosseum_bronze_completed: None,
                colosseum_silver_completed: None,
                colosseum_gold_completed: None,
                equipped_charm_40: None,
                killed_hollow_knight: None,
                scenes_grub_rescued: None,
                aladar_slug_defeated: None,
                at_bench: None,
                boss_door_state_tier1: None,
                boss_door_state_tier2: None,
                boss_door_state_tier3: None,
                boss_door_state_tier4: None,
                boss_door_state_tier5: None,
                bretta_rescued: None,
                broken_charm_23: None,
                broken_charm_24: None,
                broken_charm_25: None,
                charm_cost_36: None,
                colosseum_bronze_opened: None,
                colosseum_gold_opened: None,
                colosseum_silver_opened: None,
                crossroads_infected: None,
                defeated_mantis_lords: None,
                defeated_mega_beam_miner: None,
                destroyed_nightmare_lantern: None,
                disable_pause: None,
                dream_nail_upgraded: None,
                dream_orbs: None,
                elder_hu_defeated: None,
                elderbug_gave_flower: None,
                encountered_mega_jelly: None,
                false_knight_dream_defeated: None,
                false_knight_orbs_collected: None,
                fragile_greed_unbreakable: None,
                fragile_health_unbreakable: None,
                fragile_strength_unbreakable: None,
                galien_defeated: None,
                next_scene_name: None,
                scene_name: None,
                scream_level: None,
                given_emilitia_flower: None,
                given_godseeker_flower: None,
                given_oro_flower: None,
                given_white_lady_flower: None,
                glade_door_opened: None,
                got_brumms_flame: None,
                got_charm_10: None,
                got_charm_11: None,
                got_charm_12: None,
                got_charm_13: None,
                got_charm_14: None,
                got_charm_16: None,
                got_charm_17: None,
                got_charm_18: None,
                got_charm_19: None,
                got_charm_2: None,
                got_charm_20: None,
                got_charm_21: None,
                got_charm_22: None,
                got_charm_23: None,
                got_charm_24: None,
                got_charm_25: None,
                got_charm_26: None,
                got_charm_27: None,
                got_charm_28: None,
                got_charm_29: None,
                got_charm_3: None,
                got_charm_30: None,
                got_charm_32: None,
                got_charm_33: None,
                got_charm_34: None,
                got_charm_35: None,
                got_charm_38: None,
                got_charm_39: None,
                got_charm_40: None,
                got_charm_5: None,
                got_charm_6: None,
                got_charm_7: None,
                got_charm_8: None,
                got_charm_9: None,
                got_grimm_notch: None,
                got_king_fragment: None,
                got_lurker_key: None,
                got_queen_fragment: None,
                grey_prince_orbs_collected: None,
                grubs_collected: None,
                has_city_key: None,
                has_cyclone: None,
                has_dash_slash: None,
                has_godfinder: None,
                has_kings_brand: None,
                has_love_key: None,
                has_shadow_dash: None,
                has_sly_key: None,
                has_super_dash: None,
                has_tram_pass: None,
                has_upward_slash: None,
                has_white_key: None,
                heart_pieces: None,
                hegemol_defeated: None,
                hornet_outskirts_defeated: None,
                infected_knight_dream_defeated: None,
                infected_knight_orbs_collected: None,
                killed_big_fly: None,
                killed_dung_defender: None,
                killed_false_knight: None,
                killed_final_boss: None,
                killed_fluke_mother: None,
                killed_ghost_aladar: None,
                killed_ghost_galien: None,
                killed_ghost_markoth: None,
                killed_ghost_marmu: None,
                killed_ghost_no_eyes: None,
                killed_ghost_xero: None,
                killed_giant_hopper: None,
                killed_grey_prince: None,
                killed_grimm: None,
                killed_hive_knight: None,
                killed_hollow_knight_prime: None,
                killed_hornet: None,
                killed_hunter_mark: None,
                killed_lazy_flyer: None,
                killed_lobster_lancer: None,
                killed_mage: None,
                killed_mage_knight: None,
                killed_mage_lord: None,
                killed_mawlek: None,
                killed_mega_jellyfish: None,
                killed_mender_bug: None,
                killed_mimic_spider: None,
                killed_moss_knight: None,
                killed_nail_bros: None,
                killed_nailsage: None,
                killed_nightmare_grimm: None,
                killed_paintmaster: None,
                killed_traitor_lord: None,
                killed_white_defender: None,
                killed_zote: None,
                kills_great_shield_zombie: None,
                kills_grub_mimic: None,
                kills_mega_beam_miner: None,
                little_fool_met: None,
                lurien_defeated: None,
                mage_lord_dream_defeated: None,
                mage_lord_encountered: None,
                mage_lord_encountered_2: None,
                mage_lord_orbs_collected: None,
                map_abyss: None,
                map_city: None,
                map_cliffs: None,
                map_crossroads: None,
                map_deepnest: None,
                map_dirtmouth: None,
                map_fog_canyon: None,
                map_fungal_wastes: None,
                map_greenpath: None,
                map_mines: None,
                map_outskirts: None,
                map_resting_grounds: None,
                map_royal_gardens: None,
                map_waterways: None,
                markoth_defeated: None,
                mask_broken_hegemol: None,
                mask_broken_lurien: None,
                mask_broken_monomon: None,
                max_health_base: None,
                met_emilitia: None,
                met_relic_dealer_shop: None,
                met_xun: None,
                mine_lift_opened: None,
                monomon_defeated: None,
                moth_departed: None,
                mp_reserve_max: None,
                mr_mushroom_state: None,
                mum_caterpillar_defeated: None,
                nail_smith_upgrades: None,
                nailsmith_convo_art: None,
                nailsmith_killed: None,
                nailsmith_spared: None,
                new_data_binding_seal: None,
                nightmare_lantern_lit: None,
                no_eyes_defeated: None,
                notch_fog_canyon: None,
                notch_shroom_ogres: None,
                opened_city_gate: None,
                opened_crossroads: None,
                opened_deepnest: None,
                opened_fungal_wastes: None,
                opened_greenpath: None,
                opened_hidden_station: None,
                opened_resting_grounds: None,
                opened_royal_gardens: None,
                opened_ruins1: None,
                opened_ruins2: None,
                opened_stag_nest: None,
                opened_tram_lower: None,
                opened_waterways_manhole: None,
                ordeal_achieved: None,
                ore: None,
                royal_charm_state: None,
                salubra_blessing: None,
                salubra_notch1: None,
                salubra_notch2: None,
                salubra_notch3: None,
                salubra_notch4: None,
                saved_cloth: None,
                scenes_encountered_dream_plant_c: None,
                seen_colosseum_title: None,
                simple_keys: None,
                sly_rescued: None,
                sly_simple_key: None,
                sold_trinket2: None,
                sold_trinket4: None,
                sold_trinket1: None,
                sold_trinket3: None,
                spider_capture: None,
                toll_bench_abyss: None,
                toll_bench_city: None,
                toll_bench_queens_gardens: None,
                travelling: None,
                trinket2: None,
                trinket4: None,
                unchained_hollow_knight: None,
                vessel_fragments: None,
                visited_abyss: None,
                visited_crossroads: None,
                visited_deepnest: None,
                visited_deepnest_spa: None,
                visited_dirtmouth: None,
                visited_fog_canyon: None,
                visited_fungus: None,
                visited_godhome: None,
                visited_greenpath: None,
                visited_hive: None,
                visited_mines: None,
                visited_outskirts: None,
                visited_resting_grounds: None,
                visited_royal_gardens: None,
                visited_ruins: None,
                visited_waterways: None,
                visited_white_palace: None,
                watcher_chandelier: None,
                white_defender_orbs_collected: None,
                white_palace_orb_1: None,
                white_palace_orb_2: None,
                white_palace_orb_3: None,
                white_palace_secret_room_visited: None,
                xero_defeated: None,
                xun_flower_given: None,
                zote_rescued_deepnest: None,
                zote_statue_wall_broken: None,
                kills_spitter: None,
                kills_col_roller: None,
                kills_bursting_bouncer: None,
                kills_col_shield: None,
                kills_col_miner: None,
                kills_buzzer: None,
                kills_big_buzzer: None,
                kills_big_fly: None,
                stag_position: None,
                kills_zombie_miner: None,
                kills_col_worm: None,
                kills_col_mosquito: None,
                kills_col_flying_sentry: None,
                kills_electric_mage: None,
                kills_mage: None,
                kills_mage_knight: None,
                kills_lesser_mawlek: None,
                kills_mawlek: None,
                kills_mantis_heavy_flyer: None,
                kills_blobble: None,
                kills_col_hopper: None,
                kills_heavy_mantis: None,
                kills_angry_buzzer: None,
                kills_ceiling_dropper: None,
                kills_lobster_lancer: None,
                charm_slots: None,
                rancid_eggs: None,
                trinket1: None,
                trinket3: None,
                kills_oblobble: None,
                focusing: None,
                equipped_charm_5: None,
                equipped_charm_7: None,
                equipped_charm_17: None,
                equipped_charm_28: None,
                max_health: None,
                mpcharge: None,
                soul_limited: None,
                kills_super_spitter: None,
                kills_giant_hopper: None,
                ghost_coins: None,
                grey_prince_defeats: None,
                white_defender_defeats: None,
                can_overcharm: None,
                kills_mushroom_brawler: None,
                version: None,
            }),
    {
        GameReadings {
            game_state: None,
            health: None,
            guardians_defeated: None,
            fireball_level: None,
            quake_level: None,
            grimm_child_level: None,
            flames_collected: None,
            cornifer_at_home: None,
            has_lantern: None,
            got_charm_1: None,
            got_charm_4: None,
            got_charm_15: None,
            got_charm_31: None,
            got_charm_37: None,
            sly_shell_frag4: None,
            sly_vessel_frag2: None,
            zote_rescued_buzzer: None,
            has_dash: None,
            mega_moss_charger_defeated: None,
            killed_ghost_hu: None,
            has_wall_jump: None,
            has_dream_nail: None,
            has_dream_gate: None,
            killed_gorgeous_husk: None,
            killed_black_knight: None,
            collector_defeated: None,
            has_acid_armour: None,
            killed_infected_knight: None,
            has_double_jump: None,
            got_shade_charm: None,
            colosseum_bronze_completed: None,
            colosseum_silver_completed: None,
            colosseum_gold_completed: None,
            equipped_charm_40: None,
            killed_hollow_knight: None,
            scenes_grub_rescued: None,
            aladar_slug_defeated: None,
            at_bench: None,
            boss_door_state_tier1: None,
            boss_door_state_tier2: None,
            boss_door_state_tier3: None,
            boss_door_state_tier4: None,
            boss_door_state_tier5: None,
            bretta_rescued: None,
            broken_charm_23: None,
            broken_charm_24: None,
            broken_charm_25: None,
            charm_cost_36: None,
            colosseum_bronze_opened: None,
            colosseum_gold_opened: None,
            colosseum_silver_opened: None,
            crossroads_infected: None,
            defeated_mantis_lords: None,
            defeated_mega_beam_miner: None,
            destroyed_nightmare_lantern: None,
            disable_pause: None,
            dream_nail_upgraded: None,
            dream_orbs: None,
            elder_hu_defeated: None,
            elderbug_gave_flower: None,
            encountered_mega_jelly: None,
            false_knight_dream_defeated: None,
            false_knight_orbs_collected: None,
            fragile_greed_unbreakable: None,
            fragile_health_unbreakable: None,
            fragile_strength_unbreakable: None,
            galien_defeated: None,
            next_scene_name: None,
            scene_name: None,
            scream_level: None,
            given_emilitia_flower: None,
            given_godseeker_flower: None,
            given_oro_flower: None,
            given_white_lady_flower: None,
            glade_door_opened: None,
            got_brumms_flame: None,
            got_charm_10: None,
            got_charm_11: None,
            got_charm_12: None,
            got_charm_13: None,
            got_charm_14: None,
            got_charm_16: None,
            got_charm_17: None,
            got_charm_18: None,
            got_charm_19: None,
            got_charm_2: None,
            got_charm_20: None,
            got_charm_21: None,
            got_charm_22: None,
            got_charm_23: None,
            got_charm_24: None,
            got_charm_25: None,
            got_charm_26: None,
            got_charm_27: None,
            got_charm_28: None,
            got_charm_29: None,
            got_charm_3: None,
            got_charm_30: None,
            got_charm_32: None,
            got_charm_33: None,
            got_charm_34: None,
            got_charm_35: None,
            got_charm_38: None,
            got_charm_39: None,
            got_charm_40: None,
            got_charm_5: None,
            got_charm_6: None,
            got_charm_7: None,
            got_charm_8: None,
            got_charm_9: None,
            got_grimm_notch: None,
            got_king_fragment: None,
            got_lurker_key: None,
            got_queen_fragment: None,
            grey_prince_orbs_collected: None,
            grubs_collected: None,
            has_city_key: None,
            has_cyclone: None,
            has_dash_slash: None,
            has_godfinder: None,
            has_kings_brand: None,
            has_love_key: None,
            has_shadow_dash: None,
            has_sly_key: None,
            has_super_dash: None,
            has_tram_pass: None,
            has_upward_slash: None,
            has_white_key: None,
            heart_pieces: None,
            hegemol_defeated: None,
            hornet_outskirts_defeated: None,
            infected_knight_dream_defeated: None,
            infected_knight_orbs_collected: None,
            killed_big_fly: None,
            killed_dung_defender: None,
            killed_false_knight: None,
            killed_final_boss: None,
            killed_fluke_mother: None,
            killed_ghost_aladar: None,
            killed_ghost_galien: None,
            killed_ghost_markoth: None,
            killed_ghost_marmu: None,
            killed_ghost_no_eyes: None,
            killed_ghost_xero: None,
            killed_giant_hopper: None,
            killed_grey_prince: None,
            killed_grimm: None,
            killed_hive_knight: None,
            killed_hollow_knight_prime: None,
            killed_hornet: None,
            killed_hunter_mark: None,
            killed_lazy_flyer: None,
            killed_lobster_lancer: None,
            killed_mage: None,
            killed_mage_knight: None,
            killed_mage_lord: None,
            killed_mawlek: None,
            killed_mega_jellyfish: None,
            killed_mender_bug: None,
            killed_mimic_spider: None,
            killed_moss_knight: None,
            killed_nail_bros: None,
            killed_nailsage: None,
            killed_nightmare_grimm: None,
            killed_paintmaster: None,
            killed_traitor_lord: None,
            killed_white_defender: None,
            killed_zote: None,
            kills_great_shield_zombie: None,
            kills_grub_mimic: None,
            kills_mega_beam_miner: None,
            little_fool_met: None,
            lurien_defeated: None,
            mage_lord_dream_defeated: None,
            mage_lord_encountered: None,
            mage_lord_encountered_2: None,
            mage_lord_orbs_collected: None,
            map_abyss: None,
            map_city: None,
            map_cliffs: None,
            map_crossroads: None,
            map_deepnest: None,
            map_dirtmouth: None,
            map_fog_canyon: None,
            map_fungal_wastes: None,
            map_greenpath: None,
            map_mines: None,
            map_outskirts: None,
            map_resting_grounds: None,
            map_royal_gardens: None,
            map_waterways: None,
            markoth_defeated: None,
            mask_broken_hegemol: None,
            mask_broken_lurien: None,
            mask_broken_monomon: None,
            max_health_base: None,
            met_emilitia: None,
            met_relic_dealer_shop: None,
            met_xun: None,
            mine_lift_opened: None,
            monomon_defeated: None,
            moth_departed: None,
            mp_reserve_max: None,
            mr_mushroom_state: None,
            mum_caterpillar_defeated: None,
            nail_smith_upgrades: None,
            nailsmith_convo_art: None,
            nailsmith_killed: None,
            nailsmith_spared: None,
            new_data_binding_seal: None,
            nightmare_lantern_lit: None,
            no_eyes_defeated: None,
            notch_fog_canyon: None,
            notch_shroom_ogres: None,
            opened_city_gate: None,
            opened_crossroads: None,
            opened_deepnest: None,
            opened_fungal_wastes: None,
            opened_greenpath: None,
            opened_hidden_station: None,
            opened_resting_grounds: None,
            opened_royal_gardens: None,
            opened_ruins1: None,
            opened_ruins2: None,
            opened_stag_nest: None,
            opened_tram_lower: None,
            opened_waterways_manhole: None,
            ordeal_achieved: None,
            ore: None,
            royal_charm_state: None,
            salubra_blessing: None,
            salubra_notch1: None,
            salubra_notch2: None,
            salubra_notch3: None,
            salubra_notch4: None,
            saved_cloth: None,
            scenes_encountered_dream_plant_c: None,
            seen_colosseum_title: None,
            simple_keys: None,
            sly_rescued: None,
            sly_simple_key: None,
            sold_trinket2: None,
            sold_trinket4: None,
            sold_trinket1: None,
            sold_trinket3: None,
            spider_capture: None,
            toll_bench_abyss: None,
            toll_bench_city: None,
            toll_bench_queens_gardens: None,
            travelling: None,
            trinket2: None,
            trinket4: None,
            unchained_hollow_knight: None,
            vessel_fragments: None,
            visited_abyss: None,
            visited_crossroads: None,
            visited_deepnest: None,
            visited_deepnest_spa: None,
            visited_dirtmouth: None,
            visited_fog_canyon: None,
            visited_fungus: None,
            visited_godhome: None,
            visited_greenpath: None,
            visited_hive: None,
            visited_mines: None,
            visited_outskirts: None,
            visited_resting_grounds: None,
            visited_royal_gardens: None,
            visited_ruins: None,
            visited_waterways: None,
            visited_white_palace: None,
            watcher_chandelier: None,
            white_defender_orbs_collected: None,
            white_palace_orb_1: None,
            white_palace_orb_2: None,
            white_palace_orb_3: None,
            white_palace_secret_room_visited: None,
            xero_defeated: None,
            xun_flower_given: None,
            zote_rescued_deepnest: None,
            zote_statue_wall_broken: None,
            kills_spitter: None,
            kills_col_roller: None,
            kills_bursting_bouncer: None,
            kills_col_shield: None,
            kills_col_miner: None,
            kills_buzzer: None,
            kills_big_buzzer: None,
            kills_big_fly: None,
            stag_position: None,
            kills_zombie_miner: None,
            kills_col_worm: None,
            kills_col_mosquito: None,
            kills_col_flying_sentry: None,
            kills_electric_mage: None,
            kills_mage: None,
            kills_mage_knight: None,
            kills_lesser_mawlek: None,
            kills_mawlek: None,
            kills_mantis_heavy_flyer: None,
            kills_blobble: None,
            kills_col_hopper: None,
            kills_heavy_mantis: None,
            kills_angry_buzzer: None,
            kills_ceiling_dropper: None,
            kills_lobster_lancer: None,
            charm_slots: None,
            rancid_eggs: None,
            trinket1: None,
            trinket3: None,
            kills_oblobble: None,
            focusing: None,
            equipped_charm_5: None,
            equipped_charm_7: None,
            equipped_charm_17: None,
            equipped_charm_28: None,
            max_health: None,
            mpcharge: None,
            soul_limited: None,
            kills_super_spitter: None,
            kills_giant_hopper: None,
            ghost_coins: None,
            grey_prince_defeats: None,
            white_defender_defeats: None,
            can_overcharm: None,
            kills_mushroom_brawler: None,
            version: None,
        }
    }

    /// Whether play is not continuous.
    pub fn non_continuous(&self) -> (b: bool)
        ensures
            b == spec_non_continuous(self),
    {
        match self.game_state {
            Some(gs) => is_non_continuous_game_state(gs),
            None => false,
        }
    }

    /// The pale ore obtained in all, if the values could be read.
    pub fn ore_gross(&self) -> (g: Option<i64>)
        ensures
            match g {
                Some(x) => spec_ore_gross(self) == Some(x as int),
                None => spec_ore_gross(self) is None,
            },
    {
        match (self.nail_smith_upgrades, self.ore) {
            (Some(u), Some(o)) => {
                let u = u as i64;
                assert(-0x8000_0000 <= u <= 0x7fff_ffff);
                assert(u * (u - 1) <= 0x4000_0000_8000_0000) by (nonlinear_arith)
                    requires -0x8000_0000 <= u <= 0x7fff_ffff;
                assert(u * (u - 1) >= 0) by (nonlinear_arith)
                    requires -0x8000_0000 <= u <= 0x7fff_ffff;
                let t = (u * (u - 1)) / 2;
                Some(t + o as i64)
            },
            _ => None,
        }
    }

    /// The geo that selling relics brought, if the values could be read.
    pub fn sold_trinkets_geo(&self) -> (g: Option<i64>)
        ensures
            match g {
                Some(x) => spec_sold_trinkets_geo(self) == Some(x as int),
                None => spec_sold_trinkets_geo(self) is None,
            },
    {
        match (self.sold_trinket1, self.sold_trinket2, self.sold_trinket3, self.sold_trinket4) {
            (Some(a), Some(b), Some(c), Some(d)) => Some(
                200 * (a as i64) + 450 * (b as i64) + 800 * (c as i64) + 1200 * (d as i64),
            ),
            _ => None,
        }
    }

    /// Whether the game is in a save file rather than a menu.
    pub fn in_save(&self) -> (b: bool)
        ensures
            b == spec_in_save(self),
    {
        match self.game_state {
            Some(gs) => is_non_menu_game_state(gs),
            None => false,
        }
    }

    /// Whether everything in Sly's shop has been bought.
    pub fn sly_shop_finished(&self) -> (b: Option<bool>)
        ensures
            b == spec_sly_shop_finished(self),
    {
        let fields = [
            self.has_lantern,
            self.got_charm_1,
            self.got_charm_4,
            self.got_charm_15,
            self.got_charm_37,
            self.sly_shell_frag4,
        ];
        let mut k: usize = 0;
        while k < 6
            invariant
                k <= 6,
                fields@ == seq![
                    self.has_lantern,
                    self.got_charm_1,
                    self.got_charm_4,
                    self.got_charm_15,
                    self.got_charm_37,
                    self.sly_shell_frag4,
                ],
                forall|j: int| 0 <= j < k ==> fields@[j] == Some(true),
            decreases 6 - k,
        {
            match fields[k] {
                Some(true) => {},
                other => {
                    return other;
                },
            }
            k = k + 1;
        }
        self.sly_vessel_frag2
    }

    /// Whether the grub in Isma's Grove has been rescued.
    pub fn grub_waterways_isma(&self) -> (b: Option<bool>)
        ensures
            b == spec_grub_waterways_isma(self),
    {
        match &self.scenes_grub_rescued {
            None => None,
            Some(v) => {
                let mut k: usize = 0;
                while k < v.len()
                    invariant
                        k <= v@.len(),
                        self.scenes_grub_rescued == Some(*v),
                        forall|j: int| 0 <= j < k ==> v@[j]@ != "Waterways_13"@,
                    decreases v@.len() - k,
                {
                    if str_eq(v[k].as_str(), "Waterways_13") {
                        assert(v@[k as int]@ == "Waterways_13"@);
                        assert(spec_contains_scene(v@, "Waterways_13"@));
                        return Some(true);
                    }
                    k = k + 1;
                }
                Some(false)
            },
        }
    }
}

} // verus!
