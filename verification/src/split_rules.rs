//! When a split fires on a scene transition.

use vstd::prelude::*;

use crate::player_data::{spec_count, spec_flag, PlayerDataStore, PlayerDataView};
use crate::readings::{spec_grub_waterways_isma, spec_in_save, spec_sly_shop_finished, GameReadings};
use crate::scenes::{
    is_debug_save_state_scene, is_menu, is_opening_scene, is_play_scene,
    spec_debug_save_state_scene, spec_is_menu, spec_is_play_scene, spec_opening_scene, ScenePair,
    GAME_STATE_ENTERING_LEVEL, GG_ENTRANCE_CUTSCENE, MENU_TITLE,
};
use crate::splits::Split;
use crate::text::{spec_starts_with, starts_with, str_eq};
use crate::timer::{should_skip, should_split, spec_should_skip, spec_should_split, SplitterAction};

verus! {


/// What a split asks for on a transition from `old` to `cur`, and the player
/// data remembered afterwards.
pub open spec fn spec_transition_splits(
    v: PlayerDataView,
    s: Split,
    old: Seq<char>,
    cur: Seq<char>,
    r: &GameReadings,
) -> (PlayerDataView, SplitterAction) {
    match s {
        Split::EndingSplit => (v, spec_should_split(spec_starts_with(cur, "Cinematic_Ending"@))),
        Split::EndingA => (v, spec_should_split(cur == "Cinematic_Ending_A"@)),
        Split::EndingB => (v, spec_should_split(cur == "Cinematic_Ending_B"@)),
        Split::EndingC => (v, spec_should_split(cur == "Cinematic_Ending_C"@)),
        Split::EndingD => (v, spec_should_split(cur == "Cinematic_Ending_D"@)),
        Split::EndingE => (v, spec_should_split(cur == "Cinematic_Ending_E"@)),
        Split::Menu => (v, spec_should_split(cur == MENU_TITLE@)),
        Split::AnyTransition => (v, spec_should_split(cur != old && !(old.len() == 0 || cur.len() == 0 || spec_is_menu(old)))),
        Split::TransitionAfterSaveState => (v, spec_should_split(cur != old && !(old.len() == 0 || cur.len() == 0 || spec_is_menu(old) || spec_debug_save_state_scene(old) || spec_debug_save_state_scene(cur)))),
        Split::MenuDreamer3 => {
            let (w, b) = { let (v1, x1) = spec_count(v, "guardians_defeated"@, spec_in_save(r), r.guardians_defeated); if 3 <= x1 { (v1, cur == MENU_TITLE@) } else { (v1, false) } };
            (w, spec_should_split(b))
        },
        Split::CorniferAtHome => {
            let (w, b) = { let (v1, x1) = spec_flag(v, "cornifer_at_home"@, spec_in_save(r), r.cornifer_at_home); if x1 { (v1, spec_starts_with(old, "Town"@) && spec_starts_with(cur, "Room_mapper"@)) } else { (v1, false) } };
            (w, spec_should_split(b))
        },
        Split::KingsPass => (v, spec_should_split(old == "Tutorial_01"@ && cur == "Town"@)),
        Split::EnterDirtmouth => (v, spec_should_split(cur == "Town"@ && cur != old)),
        Split::KingsPassEnterFromTown => (v, spec_should_split(old == "Town"@ && cur == "Tutorial_01"@)),
        Split::SlyShopExit => (v, spec_should_split(old == "Room_shop"@ && cur != old)),
        Split::LumaflyLanternTransition => {
            let (w, b) = { let (v1, x1) = spec_flag(v, "has_lantern"@, spec_in_save(r), r.has_lantern); if x1 { (v1, !spec_starts_with(cur, "Room_shop"@)) } else { (v1, false) } };
            (w, spec_should_split(b))
        },
        Split::SlyShopFinished => {
            let (w, b) = { let (v1, x1) = spec_flag(v, "sly_shop_finished"@, spec_in_save(r), spec_sly_shop_finished(r)); if x1 { (v1, !spec_starts_with(cur, "Room_shop"@)) } else { (v1, false) } };
            (w, spec_should_split(b))
        },
        Split::EnterTMG => (v, spec_should_split(spec_starts_with(cur, "Grimm_Main_Tent"@) && cur != old && (match r.equipped_charm_40 { Some(e) => e, None => false }) && (match r.grimm_child_level { Some(l) => l == 2, None => false }) && (match r.flames_collected { Some(f) => 3 <= f, None => false }))),
        Split::EnterNKG => (v, spec_should_split(spec_starts_with(old, "Grimm_Main_Tent"@) && spec_starts_with(cur, "Grimm_Nightmare"@))),
        Split::EnterBroodingMawlek => (v, spec_should_split(cur == "Crossroads_09"@ && cur != old)),
        Split::AncestralMound => (v, spec_should_split(cur == "Crossroads_ShamanTemple"@ && cur != old)),
        Split::TransVS => {
            let (w, b) = { let (v1, x1) = spec_count(v, "fireball_level"@, spec_in_save(r), r.fireball_level); if 1 <= x1 { (v1, cur != old) } else { (v1, false) } };
            (w, spec_should_split(b))
        },
        Split::SalubraExit => (v, spec_should_split(old == "Room_Charm_Shop"@ && cur != old)),
        Split::EnterHollowKnight => (v, spec_should_split(cur == "Room_Final_Boss_Core"@ && cur != old)),
        Split::HollowKnightDreamnail => (
            v,
            if spec_starts_with(cur, "Dream_Final"@) && cur != old {
                SplitterAction::Split
            } else {
                spec_should_skip(r.killed_hollow_knight == Some(true))
            },
        ),
        Split::EnterGreenpath => (v, spec_should_split(spec_starts_with(cur, "Fungus1_01"@) && !spec_starts_with(old, "Fungus1_01"@))),
        Split::VengeflyKingTrans => {
            let (w, b) = { let (v1, x1) = spec_flag(v, "zote_rescued_buzzer"@, spec_in_save(r), r.zote_rescued_buzzer); if x1 { (v1, cur != old) } else { (v1, false) } };
            (w, spec_should_split(b))
        },
        Split::EnterHornet1 => (v, spec_should_split(spec_starts_with(cur, "Fungus1_04"@) && cur != old)),
        Split::MenuCloak => {
            let (w, b) = { let (v1, x1) = spec_flag(v, "has_dash"@, spec_in_save(r), r.has_dash); if x1 { (v1, cur == MENU_TITLE@) } else { (v1, false) } };
            (w, spec_should_split(b))
        },
        Split::MegaMossChargerTrans => {
            let (w, b) = { let (v1, x1) = spec_flag(v, "mega_moss_charger_defeated"@, spec_in_save(r), r.mega_moss_charger_defeated); if x1 { (v1, cur != old) } else { (v1, false) } };
            (w, spec_should_split(b))
        },
        Split::FungalWastesEntry => (v, spec_should_split((spec_starts_with(cur, "Fungus2_06"@) || spec_starts_with(cur, "Fungus2_03"@) || spec_starts_with(cur, "Fungus2_23"@) || spec_starts_with(cur, "Fungus2_20"@)) && cur != old)),
        Split::ElderHuTrans => {
            let (w, b) = { let (v1, x1) = spec_flag(v, "killed_ghost_hu"@, spec_in_save(r), r.killed_ghost_hu); if x1 { (v1, cur != old) } else { (v1, false) } };
            (w, spec_should_split(b))
        },
        Split::MenuDashmaster => {
            let (w, b) = { let (v1, x1) = spec_flag(v, "got_charm_31"@, spec_in_save(r), r.got_charm_31); if x1 { (v1, cur == MENU_TITLE@) } else { (v1, false) } };
            (w, spec_should_split(b))
        },
        Split::TransClaw => {
            let (w, b) = { let (v1, x1) = spec_flag(v, "has_wall_jump"@, spec_in_save(r), r.has_wall_jump); if x1 { (v1, cur != old) } else { (v1, false) } };
            (w, spec_should_split(b))
        },
        Split::MenuClaw => {
            let (w, b) = { let (v1, x1) = spec_flag(v, "has_wall_jump"@, spec_in_save(r), r.has_wall_jump); if x1 { (v1, cur == MENU_TITLE@) } else { (v1, false) } };
            (w, spec_should_split(b))
        },
        Split::BlueLake => (v, spec_should_split(spec_starts_with(cur, "Crossroads_50"@) && !spec_starts_with(old, "Crossroads_50"@))),
        Split::EnterAnyDream => (v, spec_should_split(spec_starts_with(cur, "Dream_"@) && cur != old)),
        Split::DreamNailExit => (v, spec_should_split(old == "Dream_Nailcollection"@ && cur == "RestingGrounds_07"@)),
        Split::MenuDreamNail => {
            let (w, b) = { let (v1, x1) = spec_flag(v, "has_dream_nail"@, spec_in_save(r), r.has_dream_nail); if x1 { (v1, cur == MENU_TITLE@) } else { (v1, false) } };
            (w, spec_should_split(b))
        },
        Split::MenuDreamGate => {
            let (w, b) = { let (v1, x1) = spec_flag(v, "has_dream_gate"@, spec_in_save(r), r.has_dream_gate); if x1 { (v1, cur == MENU_TITLE@) } else { (v1, false) } };
            (w, spec_should_split(b))
        },
        Split::CatacombsEntry => (v, spec_should_split(spec_starts_with(cur, "RestingGrounds_10"@) && !spec_starts_with(old, "RestingGrounds_10"@))),
        Split::TransGorgeousHusk => {
            let (w, b) = { let (v1, x1) = spec_flag(v, "killed_gorgeous_husk"@, spec_in_save(r), r.killed_gorgeous_husk); if x1 { (v1, cur != old) } else { (v1, false) } };
            (w, spec_should_split(b))
        },
        Split::MenuGorgeousHusk => {
            let (w, b) = { let (v1, x1) = spec_flag(v, "killed_gorgeous_husk"@, spec_in_save(r), r.killed_gorgeous_husk); if x1 { (v1, cur == MENU_TITLE@) } else { (v1, false) } };
            (w, spec_should_split(b))
        },
        Split::EnterRafters => (v, spec_should_split(cur == "Ruins1_03"@ && cur != old)),
        Split::EnterSanctum => (v, spec_should_split(spec_starts_with(cur, "Ruins1_23"@) && !spec_starts_with(old, "Ruins1_23"@))),
        Split::EnterSanctumWithShadeSoul => {
            let (w, b) = { let (v1, x1) = spec_count(v, "fireball_level"@, spec_in_save(r), r.fireball_level); if 2 <= x1 { (v1, spec_starts_with(cur, "Ruins1_23"@) && !spec_starts_with(old, "Ruins1_23"@)) } else { (v1, false) } };
            (w, spec_should_split(b))
        },
        Split::EnterSoulMaster => (v, spec_should_split(spec_starts_with(cur, "Ruins1_24"@) && cur != old)),
        Split::TransShadeSoul => {
            let (w, b) = { let (v1, x1) = spec_count(v, "fireball_level"@, spec_in_save(r), r.fireball_level); if 2 <= x1 { (v1, cur != old) } else { (v1, false) } };
            (w, spec_should_split(b))
        },
        Split::MenuShadeSoul => {
            let (w, b) = { let (v1, x1) = spec_count(v, "fireball_level"@, spec_in_save(r), r.fireball_level); if 2 <= x1 { (v1, cur == MENU_TITLE@) } else { (v1, false) } };
            (w, spec_should_split(b))
        },
        Split::EnterBlackKnight => (v, spec_should_split(cur == "Ruins2_03"@ && cur != old)),
        Split::BlackKnightTrans => {
            let (w, b) = { let (v1, x1) = spec_flag(v, "killed_black_knight"@, spec_in_save(r), r.killed_black_knight); if x1 { (v1, cur != old) } else { (v1, false) } };
            (w, spec_should_split(b))
        },
        Split::EnterLoveTower => (v, spec_should_split(spec_starts_with(cur, "Ruins2_11"@) && cur != old)),
        Split::TransCollector => {
            let (w, b) = { let (v1, x1) = spec_flag(v, "collector_defeated"@, spec_in_save(r), r.collector_defeated); if x1 { (v1, cur != old) } else { (v1, false) } };
            (w, spec_should_split(b))
        },
        Split::CrystalPeakEntry => (v, spec_should_split((spec_starts_with(cur, "Mines_02"@) || spec_starts_with(cur, "Mines_10"@)) && cur != old)),
        Split::EnterCrown => (v, spec_should_split(cur == "Mines_23"@ && cur != old)),
        Split::TransDescendingDark => {
            let (w, b) = { let (v1, x1) = spec_count(v, "quake_level"@, spec_in_save(r), r.quake_level); if 2 <= x1 { (v1, cur != old) } else { (v1, false) } };
            (w, spec_should_split(b))
        },
        Split::CrystalMoundExit => (v, spec_should_split(spec_starts_with(old, "Mines_35"@) && cur != old)),
        Split::WaterwaysEntry => (v, spec_should_split((spec_starts_with(cur, "Waterways_01"@) || spec_starts_with(cur, "Waterways_07"@)) && cur != old)),
        Split::TransTear => {
            let (w, b) = { let (v1, x1) = spec_flag(v, "has_acid_armour"@, spec_in_save(r), r.has_acid_armour); if x1 { (v1, cur != old) } else { (v1, false) } };
            (w, spec_should_split(b))
        },
        Split::TransTearWithGrub => {
            let (w, b) = { let (v1, x1) = spec_flag(v, "has_acid_armour"@, spec_in_save(r), r.has_acid_armour); if x1 { { let (v2, x2) = spec_flag(v1, "grub_waterways_isma"@, spec_in_save(r), spec_grub_waterways_isma(r)); if x2 { (v2, cur != old) } else { (v2, false) } } } else { (v1, false) } };
            (w, spec_should_split(b))
        },
        Split::MenuIsmasTear => {
            let (w, b) = { let (v1, x1) = spec_flag(v, "has_acid_armour"@, spec_in_save(r), r.has_acid_armour); if x1 { (v1, cur == MENU_TITLE@) } else { (v1, false) } };
            (w, spec_should_split(b))
        },
        Split::EnterJunkPit => (v, spec_should_split(cur == "GG_Waterways"@ && cur != old)),
        Split::BasinEntry => (v, spec_should_split(spec_starts_with(cur, "Abyss_04"@) && cur != old)),
        Split::Abyss19from18 => (v, spec_should_split(old == "Abyss_18"@ && cur == "Abyss_19"@)),
        Split::BrokenVesselTrans => {
            let (w, b) = { let (v1, x1) = spec_flag(v, "killed_infected_knight"@, spec_in_save(r), r.killed_infected_knight); if x1 { (v1, (match r.health { Some(h) => 0 < h, None => false })) } else { (v1, false) } };
            (w, spec_should_split(b))
        },
        Split::MenuWings => {
            let (w, b) = { let (v1, x1) = spec_flag(v, "has_double_jump"@, spec_in_save(r), r.has_double_jump); if x1 { (v1, cur == MENU_TITLE@) } else { (v1, false) } };
            (w, spec_should_split(b))
        },
        Split::MenuVoidHeart => {
            let (w, b) = { let (v1, x1) = spec_flag(v, "got_shade_charm"@, spec_in_save(r), r.got_shade_charm); if x1 { (v1, cur == MENU_TITLE@) } else { (v1, false) } };
            (w, spec_should_split(b))
        },
        Split::WhitePalaceEntry => (v, spec_should_split(spec_starts_with(cur, "White_Palace_11"@) && cur != old)),
        Split::WhitePalaceLowerEntry => (v, spec_should_split(spec_starts_with(cur, "White_Palace_01"@) && cur != old)),
        Split::WhitePalaceLowerOrb => (v, spec_should_split(spec_starts_with(cur, "White_Palace_02"@) && cur != old)),
        Split::WhitePalaceAtrium => (v, spec_should_split(spec_starts_with(cur, "White_Palace_03_hub"@) && cur != old)),
        Split::WhitePalaceLeftEntry => (v, spec_should_split(spec_starts_with(cur, "White_Palace_04"@) && cur != old)),
        Split::WhitePalaceLeftWingMid => (v, spec_should_split(spec_starts_with(old, "White_Palace_04"@) && spec_starts_with(cur, "White_Palace_14"@))),
        Split::WhitePalaceRightEntry => (v, spec_should_split(spec_starts_with(cur, "White_Palace_15"@) && cur != old)),
        Split::WhitePalaceRightClimb => (v, spec_should_split(spec_starts_with(old, "White_Palace_05"@) && spec_starts_with(cur, "White_Palace_16"@))),
        Split::WhitePalaceRightSqueeze => (v, spec_should_split(spec_starts_with(old, "White_Palace_16"@) && spec_starts_with(cur, "White_Palace_05"@))),
        Split::WhitePalaceRightDone => (v, spec_should_split(spec_starts_with(old, "White_Palace_05"@) && spec_starts_with(cur, "White_Palace_15"@))),
        Split::WhitePalaceTopEntry => (v, spec_should_split(spec_starts_with(old, "White_Palace_03_hub"@) && spec_starts_with(cur, "White_Palace_06"@))),
        Split::PathOfPainEntry => (v, spec_should_split(spec_starts_with(cur, "White_Palace_18"@) && spec_starts_with(old, "White_Palace_06"@))),
        Split::PathOfPainTransition1 => (v, spec_should_split(spec_starts_with(cur, "White_Palace_17"@) && spec_starts_with(old, "White_Palace_18"@))),
        Split::PathOfPainTransition2 => (v, spec_should_split(spec_starts_with(cur, "White_Palace_19"@) && spec_starts_with(old, "White_Palace_17"@))),
        Split::PathOfPainTransition3 => (v, spec_should_split(spec_starts_with(cur, "White_Palace_20"@) && spec_starts_with(old, "White_Palace_19"@))),
        Split::WhitePalaceTopClimb => (v, spec_should_split(spec_starts_with(old, "White_Palace_06"@) && spec_starts_with(cur, "White_Palace_07"@))),
        Split::WhitePalaceTopLeverRoom => (v, spec_should_split(spec_starts_with(old, "White_Palace_07"@) && spec_starts_with(cur, "White_Palace_12"@))),
        Split::WhitePalaceTopLastPlats => (v, spec_should_split(spec_starts_with(old, "White_Palace_12"@) && spec_starts_with(cur, "White_Palace_13"@))),
        Split::WhitePalaceThroneRoom => (v, spec_should_split(spec_starts_with(old, "White_Palace_13"@) && spec_starts_with(cur, "White_Palace_09"@))),
        Split::KingdomsEdgeEntry => (v, spec_should_split(spec_starts_with(cur, "Deepnest_East_03"@) && cur != old)),
        Split::HiveEntry => (v, spec_should_split(spec_starts_with(cur, "Hive_01"@) && cur != old)),
        Split::EnterHiveKnight => (v, spec_should_split(spec_starts_with(cur, "Hive_05"@) && cur != old)),
        Split::EnterHornet2 => (v, spec_should_split(spec_starts_with(cur, "Deepnest_East_Hornet"@) && cur != old)),
        Split::ColosseumBronzeEntry => (v, spec_should_split(old == "Room_Colosseum_01"@ && cur == "Room_Colosseum_Bronze"@)),
        Split::ColosseumBronzeExit => {
            let (w, b) = { let (v1, x1) = spec_flag(v, "colosseum_bronze_completed"@, spec_in_save(r), r.colosseum_bronze_completed); if x1 { (v1, !spec_starts_with(cur, "Room_Colosseum_Bronze"@)) } else { (v1, false) } };
            (w, spec_should_split(b))
        },
        Split::ColosseumSilverEntry => (v, spec_should_split(old == "Room_Colosseum_01"@ && cur == "Room_Colosseum_Silver"@)),
        Split::ColosseumSilverExit => {
            let (w, b) = { let (v1, x1) = spec_flag(v, "colosseum_silver_completed"@, spec_in_save(r), r.colosseum_silver_completed); if x1 { (v1, !spec_starts_with(cur, "Room_Colosseum_Silver"@)) } else { (v1, false) } };
            (w, spec_should_split(b))
        },
        Split::ColosseumGoldEntry => (v, spec_should_split(old == "Room_Colosseum_01"@ && cur == "Room_Colosseum_Gold"@)),
        Split::ColosseumGoldExit => {
            let (w, b) = { let (v1, x1) = spec_flag(v, "colosseum_gold_completed"@, spec_in_save(r), r.colosseum_gold_completed); if x1 { (v1, !spec_starts_with(cur, "Room_Colosseum_Gold"@)) } else { (v1, false) } };
            (w, spec_should_split(b))
        },
        Split::FogCanyonEntry => (v, spec_should_split((spec_starts_with(cur, "Fungus3_01"@) || spec_starts_with(cur, "Fungus3_02"@) || spec_starts_with(cur, "Fungus3_24"@) || spec_starts_with(cur, "Fungus3_26"@)) && cur != old)),
        Split::TeachersArchive => (v, spec_should_split(spec_starts_with(cur, "Fungus3_archive"@) && !spec_starts_with(old, "Fungus3_archive"@))),
        Split::QueensGardensEntry => (v, spec_should_split((spec_starts_with(cur, "Fungus3_34"@) || spec_starts_with(cur, "Deepnest_43"@)) && cur != old)),
        Split::QueensGardensPostArenaTransition => (v, spec_should_split(spec_starts_with(cur, "Fungus3_13"@) && cur != old)),
        Split::QueensGardensFrogsTrans => (v, spec_should_split(spec_starts_with(cur, "Fungus1_23"@) && cur != old)),
        Split::EnterDeepnest => (v, spec_should_split((spec_starts_with(cur, "Fungus2_25"@) || spec_starts_with(cur, "Deepnest_42"@) || spec_starts_with(cur, "Abyss_03b"@) || spec_starts_with(cur, "Deepnest_01b"@)) && cur != old)),
        Split::EnterNosk => (v, spec_should_split(spec_starts_with(cur, "Deepnest_32"@) && cur != old)),
        Split::EnterGodhome => (v, spec_should_split(spec_starts_with(cur, "GG_Atrium"@) && cur != old)),
        Split::Pantheon1to4Entry => (v, spec_should_split(spec_starts_with(cur, "GG_Boss_Door_Entrance"@) && cur != old)),
        Split::VengeflyKingP => (v, spec_should_split(spec_starts_with(old, "GG_Vengefly"@) && spec_starts_with(cur, "GG_Gruz_Mother"@))),
        Split::GruzMotherP => (v, spec_should_split(spec_starts_with(old, "GG_Gruz_Mother"@) && spec_starts_with(cur, "GG_False_Knight"@))),
        Split::FalseKnightP => (v, spec_should_split(spec_starts_with(old, "GG_False_Knight"@) && spec_starts_with(cur, "GG_Mega_Moss_Charger"@))),
        Split::MassiveMossChargerP => (v, spec_should_split(spec_starts_with(old, "GG_Mega_Moss_Charger"@) && spec_starts_with(cur, "GG_Hornet_1"@))),
        Split::Hornet1P => (v, spec_should_split(spec_starts_with(old, "GG_Hornet_1"@) && (spec_starts_with(cur, "GG_Spa"@) || spec_starts_with(cur, "GG_Engine"@)))),
        Split::GodhomeBench => (v, spec_should_split(spec_starts_with(old, "GG_Spa"@) && cur != old)),
        Split::GorbP => (v, spec_should_split(spec_starts_with(old, "GG_Ghost_Gorb"@) && spec_starts_with(cur, "GG_Dung_Defender"@))),
        Split::DungDefenderP => (v, spec_should_split(spec_starts_with(old, "GG_Dung_Defender"@) && spec_starts_with(cur, "GG_Mage_Knight"@))),
        Split::SoulWarriorP => (v, spec_should_split(spec_starts_with(old, "GG_Mage_Knight"@) && spec_starts_with(cur, "GG_Brooding_Mawlek"@))),
        Split::BroodingMawlekP => (v, spec_should_split(spec_starts_with(old, "GG_Brooding_Mawlek"@) && (spec_starts_with(cur, "GG_Engine"@) || spec_starts_with(cur, "GG_Nailmasters"@)))),
        Split::GodhomeLoreRoom => (v, spec_should_split((spec_starts_with(old, "GG_Engine"@) || spec_starts_with(old, "GG_Unn"@) || spec_starts_with(old, "GG_Wyrm"@)) && cur != old)),
        Split::OroMatoNailBrosP => (v, spec_should_split(spec_starts_with(old, "GG_Nailmasters"@) && (spec_starts_with(cur, "GG_End_Sequence"@) || spec_starts_with(cur, "GG_Spa"@)))),
        Split::XeroP => (v, spec_should_split(spec_starts_with(old, "GG_Ghost_Xero"@) && spec_starts_with(cur, "GG_Crystal_Guardian"@))),
        Split::CrystalGuardianP => (v, spec_should_split(spec_starts_with(old, "GG_Crystal_Guardian"@) && spec_starts_with(cur, "GG_Soul_Master"@))),
        Split::SoulMasterP => (v, spec_should_split(spec_starts_with(old, "GG_Soul_Master"@) && spec_starts_with(cur, "GG_Oblobbles"@))),
        Split::OblobblesP => (v, spec_should_split(spec_starts_with(old, "GG_Oblobbles"@) && spec_starts_with(cur, "GG_Mantis_Lords"@))),
        Split::MantisLordsP => (v, spec_should_split(spec_starts_with(old, "GG_Mantis_Lords"@) && spec_starts_with(cur, "GG_Spa"@))),
        Split::MarmuP => (v, spec_should_split(spec_starts_with(old, "GG_Ghost_Marmu"@) && (spec_starts_with(cur, "GG_Nosk"@) || spec_starts_with(cur, "GG_Flukemarm"@)))),
        Split::NoskP => (v, spec_should_split(spec_starts_with(old, "GG_Nosk"@) && spec_starts_with(cur, "GG_Flukemarm"@))),
        Split::FlukemarmP => (v, spec_should_split(spec_starts_with(old, "GG_Flukemarm"@) && spec_starts_with(cur, "GG_Broken_Vessel"@))),
        Split::BrokenVesselP => (v, spec_should_split(spec_starts_with(old, "GG_Broken_Vessel"@) && (spec_starts_with(cur, "GG_Engine"@) || spec_starts_with(cur, "GG_Ghost_Galien"@)))),
        Split::SheoPaintmasterP => (v, spec_should_split(spec_starts_with(old, "GG_Painter"@) && (spec_starts_with(cur, "GG_End_Sequence"@) || spec_starts_with(cur, "GG_Spa"@)))),
        Split::HiveKnightP => (v, spec_should_split(spec_starts_with(old, "GG_Hive_Knight"@) && spec_starts_with(cur, "GG_Ghost_Hu"@))),
        Split::ElderHuP => (v, spec_should_split(spec_starts_with(old, "GG_Ghost_Hu"@) && spec_starts_with(cur, "GG_Collector"@))),
        Split::CollectorP => (v, spec_should_split(spec_starts_with(old, "GG_Collector"@) && spec_starts_with(cur, "GG_God_Tamer"@))),
        Split::GodTamerP => (v, spec_should_split(spec_starts_with(old, "GG_God_Tamer"@) && spec_starts_with(cur, "GG_Grimm"@))),
        Split::TroupeMasterGrimmP => (v, spec_should_split(spec_starts_with(old, "GG_Grimm"@) && spec_starts_with(cur, "GG_Spa"@))),
        Split::GalienP => (v, spec_should_split(spec_starts_with(old, "GG_Ghost_Galien"@) && (spec_starts_with(cur, "GG_Grey_Prince_Zote"@) || spec_starts_with(cur, "GG_Painter"@) || spec_starts_with(cur, "GG_Uumuu"@)))),
        Split::GreyPrinceZoteP => (v, spec_should_split(spec_starts_with(old, "GG_Grey_Prince_Zote"@) && (spec_starts_with(cur, "GG_Uumuu"@) || spec_starts_with(cur, "GG_Failed_Champion"@)))),
        Split::UumuuP => (v, spec_should_split(spec_starts_with(old, "GG_Uumuu"@) && (spec_starts_with(cur, "GG_Hornet_2"@) || spec_starts_with(cur, "GG_Nosk_Hornet"@)))),
        Split::Hornet2P => (v, spec_should_split(spec_starts_with(old, "GG_Hornet_2"@) && (spec_starts_with(cur, "GG_Engine"@) || spec_starts_with(cur, "GG_Spa"@)))),
        Split::SlyP => (v, spec_should_split(spec_starts_with(old, "GG_Sly"@) && (spec_starts_with(cur, "GG_End_Sequence"@) || spec_starts_with(cur, "GG_Hornet_2"@)))),
        Split::EnragedGuardianP => (v, spec_should_split(spec_starts_with(old, "GG_Crystal_Guardian_2"@) && spec_starts_with(cur, "GG_Lost_Kin"@))),
        Split::LostKinP => (v, spec_should_split(spec_starts_with(old, "GG_Lost_Kin"@) && spec_starts_with(cur, "GG_Ghost_No_Eyes"@))),
        Split::NoEyesP => (v, spec_should_split(spec_starts_with(old, "GG_Ghost_No_Eyes"@) && spec_starts_with(cur, "GG_Traitor_Lord"@))),
        Split::TraitorLordP => (v, spec_should_split(spec_starts_with(old, "GG_Traitor_Lord"@) && spec_starts_with(cur, "GG_White_Defender"@))),
        Split::WhiteDefenderP => (v, spec_should_split(spec_starts_with(old, "GG_White_Defender"@) && spec_starts_with(cur, "GG_Spa"@))),
        Split::FailedChampionP => (v, spec_should_split(spec_starts_with(old, "GG_Failed_Champion"@) && (spec_starts_with(cur, "GG_Ghost_Markoth"@) || spec_starts_with(cur, "GG_Grimm_Nightmare"@)))),
        Split::MarkothP => (v, spec_should_split(spec_starts_with(old, "GG_Ghost_Markoth"@) && (spec_starts_with(cur, "GG_Watcher_Knights"@) || spec_starts_with(cur, "GG_Grey_Prince_Zote"@) || spec_starts_with(cur, "GG_Failed_Champion"@)))),
        Split::WatcherKnightsP => (v, spec_should_split(spec_starts_with(old, "GG_Watcher_Knights"@) && (spec_starts_with(cur, "GG_Soul_Tyrant"@) || spec_starts_with(cur, "GG_Uumuu"@)))),
        Split::SoulTyrantP => (v, spec_should_split(spec_starts_with(old, "GG_Soul_Tyrant"@) && (spec_starts_with(cur, "GG_Engine_Prime"@) || spec_starts_with(cur, "GG_Ghost_Markoth"@)))),
        Split::PureVesselP => (v, spec_should_split(spec_starts_with(old, "GG_Hollow_Knight"@) && (spec_starts_with(cur, "GG_End_Sequence"@) || spec_starts_with(cur, "GG_Radiance"@) || spec_starts_with(cur, "GG_Door_5_Finale"@)))),
        Split::Pantheon5Entry => (v, spec_should_split(spec_starts_with(cur, "GG_Vengefly_V"@) && spec_starts_with(old, "GG_Atrium_Roof"@))),
        Split::NoskHornetP => (v, spec_should_split(spec_starts_with(old, "GG_Nosk_Hornet"@) && spec_starts_with(cur, "GG_Sly"@))),
        Split::NightmareKingGrimmP => (v, spec_should_split(spec_starts_with(old, "GG_Grimm_Nightmare"@) && spec_starts_with(cur, "GG_Spa"@))),
        Split::RadianceP => (v, spec_should_split(spec_starts_with(old, "GG_Radiance"@) && spec_starts_with(cur, "Cinematic_Ending"@))),
        _ => (v, SplitterAction::Pass),
    }
}

#[verifier::rlimit(50)]
fn transition_splits_0(s: &Split, p: &ScenePair, r: &GameReadings, pds: &mut PlayerDataStore) -> (a:
    SplitterAction)
    requires
        old(pds).wf(),
        s == Split::EndingSplit || s == Split::EndingA || s == Split::EndingB || s == Split::EndingC || s == Split::EndingD || s == Split::EndingE || s == Split::Menu || s == Split::AnyTransition || s == Split::TransitionAfterSaveState || s == Split::MenuDreamer3 || s == Split::CorniferAtHome || s == Split::KingsPass,
    ensures
        final(pds).wf(),
        (final(pds)@, a) == spec_transition_splits(old(pds)@, *s, p.old@, p.current@, r),
{
    match s {
        Split::EndingSplit => should_split(starts_with(p.current, "Cinematic_Ending")),
        Split::EndingA => should_split(str_eq(p.current, "Cinematic_Ending_A")),
        Split::EndingB => should_split(str_eq(p.current, "Cinematic_Ending_B")),
        Split::EndingC => should_split(str_eq(p.current, "Cinematic_Ending_C")),
        Split::EndingD => should_split(str_eq(p.current, "Cinematic_Ending_D")),
        Split::EndingE => should_split(str_eq(p.current, "Cinematic_Ending_E")),
        Split::Menu => should_split(str_eq(p.current, MENU_TITLE)),
        Split::AnyTransition => should_split(!str_eq(p.current, p.old) && !(p.old.is_empty() || p.current.is_empty() || is_menu(p.old))),
        Split::TransitionAfterSaveState => should_split(!str_eq(p.current, p.old) && !(p.old.is_empty() || p.current.is_empty() || is_menu(p.old) || is_debug_save_state_scene(p.old) || is_debug_save_state_scene(p.current))),
        Split::MenuDreamer3 => should_split(3 <= pds.guardians_defeated(r) && str_eq(p.current, MENU_TITLE)),
        Split::CorniferAtHome => should_split(pds.cornifer_at_home(r) && starts_with(p.old, "Town") && starts_with(p.current, "Room_mapper")),
        Split::KingsPass => should_split(str_eq(p.old, "Tutorial_01") && str_eq(p.current, "Town")),
        _ => should_split(false),
    }
}

#[verifier::rlimit(50)]
fn transition_splits_1(s: &Split, p: &ScenePair, r: &GameReadings, pds: &mut PlayerDataStore) -> (a:
    SplitterAction)
    requires
        old(pds).wf(),
        s == Split::EnterDirtmouth || s == Split::KingsPassEnterFromTown || s == Split::SlyShopExit || s == Split::LumaflyLanternTransition || s == Split::SlyShopFinished || s == Split::EnterTMG || s == Split::EnterNKG || s == Split::EnterBroodingMawlek || s == Split::AncestralMound || s == Split::TransVS || s == Split::SalubraExit || s == Split::EnterHollowKnight,
    ensures
        final(pds).wf(),
        (final(pds)@, a) == spec_transition_splits(old(pds)@, *s, p.old@, p.current@, r),
{
    match s {
        Split::EnterDirtmouth => should_split(str_eq(p.current, "Town") && !str_eq(p.current, p.old)),
        Split::KingsPassEnterFromTown => should_split(str_eq(p.old, "Town") && str_eq(p.current, "Tutorial_01")),
        Split::SlyShopExit => should_split(str_eq(p.old, "Room_shop") && !str_eq(p.current, p.old)),
        Split::LumaflyLanternTransition => should_split(pds.has_lantern(r) && !starts_with(p.current, "Room_shop")),
        Split::SlyShopFinished => should_split(pds.sly_shop_finished(r) && !starts_with(p.current, "Room_shop")),
        Split::EnterTMG => should_split(starts_with(p.current, "Grimm_Main_Tent") && !str_eq(p.current, p.old) && (match r.equipped_charm_40 { Some(e) => e, None => false }) && (match r.grimm_child_level { Some(l) => l == 2, None => false }) && (match r.flames_collected { Some(f) => 3 <= f, None => false })),
        Split::EnterNKG => should_split(starts_with(p.old, "Grimm_Main_Tent") && starts_with(p.current, "Grimm_Nightmare")),
        Split::EnterBroodingMawlek => should_split(str_eq(p.current, "Crossroads_09") && !str_eq(p.current, p.old)),
        Split::AncestralMound => should_split(str_eq(p.current, "Crossroads_ShamanTemple") && !str_eq(p.current, p.old)),
        Split::TransVS => should_split(1 <= pds.get_fireball_level(r) && !str_eq(p.current, p.old)),
        Split::SalubraExit => should_split(str_eq(p.old, "Room_Charm_Shop") && !str_eq(p.current, p.old)),
        Split::EnterHollowKnight => should_split(str_eq(p.current, "Room_Final_Boss_Core") && !str_eq(p.current, p.old)),
        _ => should_split(false),
    }
}

#[verifier::rlimit(50)]
fn transition_splits_2(s: &Split, p: &ScenePair, r: &GameReadings, pds: &mut PlayerDataStore) -> (a:
    SplitterAction)
    requires
        old(pds).wf(),
        s == Split::HollowKnightDreamnail || s == Split::EnterGreenpath || s == Split::VengeflyKingTrans || s == Split::EnterHornet1 || s == Split::MenuCloak || s == Split::MegaMossChargerTrans || s == Split::FungalWastesEntry || s == Split::ElderHuTrans || s == Split::MenuDashmaster || s == Split::TransClaw || s == Split::MenuClaw || s == Split::BlueLake,
    ensures
        final(pds).wf(),
        (final(pds)@, a) == spec_transition_splits(old(pds)@, *s, p.old@, p.current@, r),
{
    match s {
        Split::HollowKnightDreamnail => {
            let a = should_split(starts_with(p.current, "Dream_Final") && !str_eq(p.current, p.old));
            if a != SplitterAction::Pass {
                a
            } else {
                should_skip(
                    match r.killed_hollow_knight {
                        Some(k) => k,
                        None => false,
                    },
                )
            }
        },
        Split::EnterGreenpath => should_split(starts_with(p.current, "Fungus1_01") && !starts_with(p.old, "Fungus1_01")),
        Split::VengeflyKingTrans => should_split(pds.zote_rescued_buzzer(r) && !str_eq(p.current, p.old)),
        Split::EnterHornet1 => should_split(starts_with(p.current, "Fungus1_04") && !str_eq(p.current, p.old)),
        Split::MenuCloak => should_split(pds.has_dash(r) && str_eq(p.current, MENU_TITLE)),
        Split::MegaMossChargerTrans => should_split(pds.mega_moss_charger_defeated(r) && !str_eq(p.current, p.old)),
        Split::FungalWastesEntry => should_split((starts_with(p.current, "Fungus2_06") || starts_with(p.current, "Fungus2_03") || starts_with(p.current, "Fungus2_23") || starts_with(p.current, "Fungus2_20")) && !str_eq(p.current, p.old)),
        Split::ElderHuTrans => should_split(pds.killed_ghost_hu(r) && !str_eq(p.current, p.old)),
        Split::MenuDashmaster => should_split(pds.got_charm_31(r) && str_eq(p.current, MENU_TITLE)),
        Split::TransClaw => should_split(pds.has_wall_jump(r) && !str_eq(p.current, p.old)),
        Split::MenuClaw => should_split(pds.has_wall_jump(r) && str_eq(p.current, MENU_TITLE)),
        Split::BlueLake => should_split(starts_with(p.current, "Crossroads_50") && !starts_with(p.old, "Crossroads_50")),
        _ => should_split(false),
    }
}

#[verifier::rlimit(50)]
fn transition_splits_3(s: &Split, p: &ScenePair, r: &GameReadings, pds: &mut PlayerDataStore) -> (a:
    SplitterAction)
    requires
        old(pds).wf(),
        s == Split::EnterAnyDream || s == Split::DreamNailExit || s == Split::MenuDreamNail || s == Split::MenuDreamGate || s == Split::CatacombsEntry || s == Split::TransGorgeousHusk || s == Split::MenuGorgeousHusk || s == Split::EnterRafters || s == Split::EnterSanctum || s == Split::EnterSanctumWithShadeSoul || s == Split::EnterSoulMaster || s == Split::TransShadeSoul,
    ensures
        final(pds).wf(),
        (final(pds)@, a) == spec_transition_splits(old(pds)@, *s, p.old@, p.current@, r),
{
    match s {
        Split::EnterAnyDream => should_split(starts_with(p.current, "Dream_") && !str_eq(p.current, p.old)),
        Split::DreamNailExit => should_split(str_eq(p.old, "Dream_Nailcollection") && str_eq(p.current, "RestingGrounds_07")),
        Split::MenuDreamNail => should_split(pds.has_dream_nail(r) && str_eq(p.current, MENU_TITLE)),
        Split::MenuDreamGate => should_split(pds.has_dream_gate(r) && str_eq(p.current, MENU_TITLE)),
        Split::CatacombsEntry => should_split(starts_with(p.current, "RestingGrounds_10") && !starts_with(p.old, "RestingGrounds_10")),
        Split::TransGorgeousHusk => should_split(pds.killed_gorgeous_husk(r) && !str_eq(p.current, p.old)),
        Split::MenuGorgeousHusk => should_split(pds.killed_gorgeous_husk(r) && str_eq(p.current, MENU_TITLE)),
        Split::EnterRafters => should_split(str_eq(p.current, "Ruins1_03") && !str_eq(p.current, p.old)),
        Split::EnterSanctum => should_split(starts_with(p.current, "Ruins1_23") && !starts_with(p.old, "Ruins1_23")),
        Split::EnterSanctumWithShadeSoul => should_split(2 <= pds.get_fireball_level(r) && starts_with(p.current, "Ruins1_23") && !starts_with(p.old, "Ruins1_23")),
        Split::EnterSoulMaster => should_split(starts_with(p.current, "Ruins1_24") && !str_eq(p.current, p.old)),
        Split::TransShadeSoul => should_split(2 <= pds.get_fireball_level(r) && !str_eq(p.current, p.old)),
        _ => should_split(false),
    }
}

#[verifier::rlimit(50)]
fn transition_splits_4(s: &Split, p: &ScenePair, r: &GameReadings, pds: &mut PlayerDataStore) -> (a:
    SplitterAction)
    requires
        old(pds).wf(),
        s == Split::MenuShadeSoul || s == Split::EnterBlackKnight || s == Split::BlackKnightTrans || s == Split::EnterLoveTower || s == Split::TransCollector || s == Split::CrystalPeakEntry || s == Split::EnterCrown || s == Split::TransDescendingDark || s == Split::CrystalMoundExit || s == Split::WaterwaysEntry || s == Split::TransTear || s == Split::TransTearWithGrub,
    ensures
        final(pds).wf(),
        (final(pds)@, a) == spec_transition_splits(old(pds)@, *s, p.old@, p.current@, r),
{
    match s {
        Split::MenuShadeSoul => should_split(2 <= pds.get_fireball_level(r) && str_eq(p.current, MENU_TITLE)),
        Split::EnterBlackKnight => should_split(str_eq(p.current, "Ruins2_03") && !str_eq(p.current, p.old)),
        Split::BlackKnightTrans => should_split(pds.killed_black_knight(r) && !str_eq(p.current, p.old)),
        Split::EnterLoveTower => should_split(starts_with(p.current, "Ruins2_11") && !str_eq(p.current, p.old)),
        Split::TransCollector => should_split(pds.collector_defeated(r) && !str_eq(p.current, p.old)),
        Split::CrystalPeakEntry => should_split((starts_with(p.current, "Mines_02") || starts_with(p.current, "Mines_10")) && !str_eq(p.current, p.old)),
        Split::EnterCrown => should_split(str_eq(p.current, "Mines_23") && !str_eq(p.current, p.old)),
        Split::TransDescendingDark => should_split(2 <= pds.get_quake_level(r) && !str_eq(p.current, p.old)),
        Split::CrystalMoundExit => should_split(starts_with(p.old, "Mines_35") && !str_eq(p.current, p.old)),
        Split::WaterwaysEntry => should_split((starts_with(p.current, "Waterways_01") || starts_with(p.current, "Waterways_07")) && !str_eq(p.current, p.old)),
        Split::TransTear => should_split(pds.has_acid_armour(r) && !str_eq(p.current, p.old)),
        Split::TransTearWithGrub => should_split(pds.has_acid_armour(r) && pds.grub_waterways_isma(r) && !str_eq(p.current, p.old)),
        _ => should_split(false),
    }
}

#[verifier::rlimit(50)]
fn transition_splits_5(s: &Split, p: &ScenePair, r: &GameReadings, pds: &mut PlayerDataStore) -> (a:
    SplitterAction)
    requires
        old(pds).wf(),
        s == Split::MenuIsmasTear || s == Split::EnterJunkPit || s == Split::BasinEntry || s == Split::Abyss19from18 || s == Split::BrokenVesselTrans || s == Split::MenuWings || s == Split::MenuVoidHeart || s == Split::WhitePalaceEntry || s == Split::WhitePalaceLowerEntry || s == Split::WhitePalaceLowerOrb || s == Split::WhitePalaceAtrium || s == Split::WhitePalaceLeftEntry,
    ensures
        final(pds).wf(),
        (final(pds)@, a) == spec_transition_splits(old(pds)@, *s, p.old@, p.current@, r),
{
    match s {
        Split::MenuIsmasTear => should_split(pds.has_acid_armour(r) && str_eq(p.current, MENU_TITLE)),
        Split::EnterJunkPit => should_split(str_eq(p.current, "GG_Waterways") && !str_eq(p.current, p.old)),
        Split::BasinEntry => should_split(starts_with(p.current, "Abyss_04") && !str_eq(p.current, p.old)),
        Split::Abyss19from18 => should_split(str_eq(p.old, "Abyss_18") && str_eq(p.current, "Abyss_19")),
        Split::BrokenVesselTrans => should_split(pds.killed_infected_knight(r) && (match r.health { Some(h) => 0 < h, None => false })),
        Split::MenuWings => should_split(pds.has_double_jump(r) && str_eq(p.current, MENU_TITLE)),
        Split::MenuVoidHeart => should_split(pds.got_shade_charm(r) && str_eq(p.current, MENU_TITLE)),
        Split::WhitePalaceEntry => should_split(starts_with(p.current, "White_Palace_11") && !str_eq(p.current, p.old)),
        Split::WhitePalaceLowerEntry => should_split(starts_with(p.current, "White_Palace_01") && !str_eq(p.current, p.old)),
        Split::WhitePalaceLowerOrb => should_split(starts_with(p.current, "White_Palace_02") && !str_eq(p.current, p.old)),
        Split::WhitePalaceAtrium => should_split(starts_with(p.current, "White_Palace_03_hub") && !str_eq(p.current, p.old)),
        Split::WhitePalaceLeftEntry => should_split(starts_with(p.current, "White_Palace_04") && !str_eq(p.current, p.old)),
        _ => should_split(false),
    }
}

#[verifier::rlimit(50)]
fn transition_splits_6(s: &Split, p: &ScenePair, r: &GameReadings, pds: &mut PlayerDataStore) -> (a:
    SplitterAction)
    requires
        old(pds).wf(),
        s == Split::WhitePalaceLeftWingMid || s == Split::WhitePalaceRightEntry || s == Split::WhitePalaceRightClimb || s == Split::WhitePalaceRightSqueeze || s == Split::WhitePalaceRightDone || s == Split::WhitePalaceTopEntry || s == Split::PathOfPainEntry || s == Split::PathOfPainTransition1 || s == Split::PathOfPainTransition2 || s == Split::PathOfPainTransition3 || s == Split::WhitePalaceTopClimb || s == Split::WhitePalaceTopLeverRoom,
    ensures
        final(pds).wf(),
        (final(pds)@, a) == spec_transition_splits(old(pds)@, *s, p.old@, p.current@, r),
{
    match s {
        Split::WhitePalaceLeftWingMid => should_split(starts_with(p.old, "White_Palace_04") && starts_with(p.current, "White_Palace_14")),
        Split::WhitePalaceRightEntry => should_split(starts_with(p.current, "White_Palace_15") && !str_eq(p.current, p.old)),
        Split::WhitePalaceRightClimb => should_split(starts_with(p.old, "White_Palace_05") && starts_with(p.current, "White_Palace_16")),
        Split::WhitePalaceRightSqueeze => should_split(starts_with(p.old, "White_Palace_16") && starts_with(p.current, "White_Palace_05")),
        Split::WhitePalaceRightDone => should_split(starts_with(p.old, "White_Palace_05") && starts_with(p.current, "White_Palace_15")),
        Split::WhitePalaceTopEntry => should_split(starts_with(p.old, "White_Palace_03_hub") && starts_with(p.current, "White_Palace_06")),
        Split::PathOfPainEntry => should_split(starts_with(p.current, "White_Palace_18") && starts_with(p.old, "White_Palace_06")),
        Split::PathOfPainTransition1 => should_split(starts_with(p.current, "White_Palace_17") && starts_with(p.old, "White_Palace_18")),
        Split::PathOfPainTransition2 => should_split(starts_with(p.current, "White_Palace_19") && starts_with(p.old, "White_Palace_17")),
        Split::PathOfPainTransition3 => should_split(starts_with(p.current, "White_Palace_20") && starts_with(p.old, "White_Palace_19")),
        Split::WhitePalaceTopClimb => should_split(starts_with(p.old, "White_Palace_06") && starts_with(p.current, "White_Palace_07")),
        Split::WhitePalaceTopLeverRoom => should_split(starts_with(p.old, "White_Palace_07") && starts_with(p.current, "White_Palace_12")),
        _ => should_split(false),
    }
}

#[verifier::rlimit(50)]
fn transition_splits_7(s: &Split, p: &ScenePair, r: &GameReadings, pds: &mut PlayerDataStore) -> (a:
    SplitterAction)
    requires
        old(pds).wf(),
        s == Split::WhitePalaceTopLastPlats || s == Split::WhitePalaceThroneRoom || s == Split::KingdomsEdgeEntry || s == Split::HiveEntry || s == Split::EnterHiveKnight || s == Split::EnterHornet2 || s == Split::ColosseumBronzeEntry || s == Split::ColosseumBronzeExit || s == Split::ColosseumSilverEntry || s == Split::ColosseumSilverExit || s == Split::ColosseumGoldEntry || s == Split::ColosseumGoldExit,
    ensures
        final(pds).wf(),
        (final(pds)@, a) == spec_transition_splits(old(pds)@, *s, p.old@, p.current@, r),
{
    match s {
        Split::WhitePalaceTopLastPlats => should_split(starts_with(p.old, "White_Palace_12") && starts_with(p.current, "White_Palace_13")),
        Split::WhitePalaceThroneRoom => should_split(starts_with(p.old, "White_Palace_13") && starts_with(p.current, "White_Palace_09")),
        Split::KingdomsEdgeEntry => should_split(starts_with(p.current, "Deepnest_East_03") && !str_eq(p.current, p.old)),
        Split::HiveEntry => should_split(starts_with(p.current, "Hive_01") && !str_eq(p.current, p.old)),
        Split::EnterHiveKnight => should_split(starts_with(p.current, "Hive_05") && !str_eq(p.current, p.old)),
        Split::EnterHornet2 => should_split(starts_with(p.current, "Deepnest_East_Hornet") && !str_eq(p.current, p.old)),
        Split::ColosseumBronzeEntry => should_split(str_eq(p.old, "Room_Colosseum_01") && str_eq(p.current, "Room_Colosseum_Bronze")),
        Split::ColosseumBronzeExit => should_split(pds.colosseum_bronze_completed(r) && !starts_with(p.current, "Room_Colosseum_Bronze")),
        Split::ColosseumSilverEntry => should_split(str_eq(p.old, "Room_Colosseum_01") && str_eq(p.current, "Room_Colosseum_Silver")),
        Split::ColosseumSilverExit => should_split(pds.colosseum_silver_completed(r) && !starts_with(p.current, "Room_Colosseum_Silver")),
        Split::ColosseumGoldEntry => should_split(str_eq(p.old, "Room_Colosseum_01") && str_eq(p.current, "Room_Colosseum_Gold")),
        Split::ColosseumGoldExit => should_split(pds.colosseum_gold_completed(r) && !starts_with(p.current, "Room_Colosseum_Gold")),
        _ => should_split(false),
    }
}

#[verifier::rlimit(50)]
fn transition_splits_8(s: &Split, p: &ScenePair, r: &GameReadings, pds: &mut PlayerDataStore) -> (a:
    SplitterAction)
    requires
        old(pds).wf(),
        s == Split::FogCanyonEntry || s == Split::TeachersArchive || s == Split::QueensGardensEntry || s == Split::QueensGardensPostArenaTransition || s == Split::QueensGardensFrogsTrans || s == Split::EnterDeepnest || s == Split::EnterNosk || s == Split::EnterGodhome || s == Split::Pantheon1to4Entry || s == Split::VengeflyKingP || s == Split::GruzMotherP || s == Split::FalseKnightP,
    ensures
        final(pds).wf(),
        (final(pds)@, a) == spec_transition_splits(old(pds)@, *s, p.old@, p.current@, r),
{
    match s {
        Split::FogCanyonEntry => should_split((starts_with(p.current, "Fungus3_01") || starts_with(p.current, "Fungus3_02") || starts_with(p.current, "Fungus3_24") || starts_with(p.current, "Fungus3_26")) && !str_eq(p.current, p.old)),
        Split::TeachersArchive => should_split(starts_with(p.current, "Fungus3_archive") && !starts_with(p.old, "Fungus3_archive")),
        Split::QueensGardensEntry => should_split((starts_with(p.current, "Fungus3_34") || starts_with(p.current, "Deepnest_43")) && !str_eq(p.current, p.old)),
        Split::QueensGardensPostArenaTransition => should_split(starts_with(p.current, "Fungus3_13") && !str_eq(p.current, p.old)),
        Split::QueensGardensFrogsTrans => should_split(starts_with(p.current, "Fungus1_23") && !str_eq(p.current, p.old)),
        Split::EnterDeepnest => should_split((starts_with(p.current, "Fungus2_25") || starts_with(p.current, "Deepnest_42") || starts_with(p.current, "Abyss_03b") || starts_with(p.current, "Deepnest_01b")) && !str_eq(p.current, p.old)),
        Split::EnterNosk => should_split(starts_with(p.current, "Deepnest_32") && !str_eq(p.current, p.old)),
        Split::EnterGodhome => should_split(starts_with(p.current, "GG_Atrium") && !str_eq(p.current, p.old)),
        Split::Pantheon1to4Entry => should_split(starts_with(p.current, "GG_Boss_Door_Entrance") && !str_eq(p.current, p.old)),
        Split::VengeflyKingP => should_split(starts_with(p.old, "GG_Vengefly") && starts_with(p.current, "GG_Gruz_Mother")),
        Split::GruzMotherP => should_split(starts_with(p.old, "GG_Gruz_Mother") && starts_with(p.current, "GG_False_Knight")),
        Split::FalseKnightP => should_split(starts_with(p.old, "GG_False_Knight") && starts_with(p.current, "GG_Mega_Moss_Charger")),
        _ => should_split(false),
    }
}

#[verifier::rlimit(50)]
fn transition_splits_9(s: &Split, p: &ScenePair, r: &GameReadings, pds: &mut PlayerDataStore) -> (a:
    SplitterAction)
    requires
        old(pds).wf(),
        s == Split::MassiveMossChargerP || s == Split::Hornet1P || s == Split::GodhomeBench || s == Split::GorbP || s == Split::DungDefenderP || s == Split::SoulWarriorP || s == Split::BroodingMawlekP || s == Split::GodhomeLoreRoom || s == Split::OroMatoNailBrosP || s == Split::XeroP || s == Split::CrystalGuardianP || s == Split::SoulMasterP,
    ensures
        final(pds).wf(),
        (final(pds)@, a) == spec_transition_splits(old(pds)@, *s, p.old@, p.current@, r),
{
    match s {
        Split::MassiveMossChargerP => should_split(starts_with(p.old, "GG_Mega_Moss_Charger") && starts_with(p.current, "GG_Hornet_1")),
        Split::Hornet1P => should_split(starts_with(p.old, "GG_Hornet_1") && (starts_with(p.current, "GG_Spa") || starts_with(p.current, "GG_Engine"))),
        Split::GodhomeBench => should_split(starts_with(p.old, "GG_Spa") && !str_eq(p.current, p.old)),
        Split::GorbP => should_split(starts_with(p.old, "GG_Ghost_Gorb") && starts_with(p.current, "GG_Dung_Defender")),
        Split::DungDefenderP => should_split(starts_with(p.old, "GG_Dung_Defender") && starts_with(p.current, "GG_Mage_Knight")),
        Split::SoulWarriorP => should_split(starts_with(p.old, "GG_Mage_Knight") && starts_with(p.current, "GG_Brooding_Mawlek")),
        Split::BroodingMawlekP => should_split(starts_with(p.old, "GG_Brooding_Mawlek") && (starts_with(p.current, "GG_Engine") || starts_with(p.current, "GG_Nailmasters"))),
        Split::GodhomeLoreRoom => should_split((starts_with(p.old, "GG_Engine") || starts_with(p.old, "GG_Unn") || starts_with(p.old, "GG_Wyrm")) && !str_eq(p.current, p.old)),
        Split::OroMatoNailBrosP => should_split(starts_with(p.old, "GG_Nailmasters") && (starts_with(p.current, "GG_End_Sequence") || starts_with(p.current, "GG_Spa"))),
        Split::XeroP => should_split(starts_with(p.old, "GG_Ghost_Xero") && starts_with(p.current, "GG_Crystal_Guardian")),
        Split::CrystalGuardianP => should_split(starts_with(p.old, "GG_Crystal_Guardian") && starts_with(p.current, "GG_Soul_Master")),
        Split::SoulMasterP => should_split(starts_with(p.old, "GG_Soul_Master") && starts_with(p.current, "GG_Oblobbles")),
        _ => should_split(false),
    }
}

#[verifier::rlimit(50)]
fn transition_splits_10(s: &Split, p: &ScenePair, r: &GameReadings, pds: &mut PlayerDataStore) -> (a:
    SplitterAction)
    requires
        old(pds).wf(),
        s == Split::OblobblesP || s == Split::MantisLordsP || s == Split::MarmuP || s == Split::NoskP || s == Split::FlukemarmP || s == Split::BrokenVesselP || s == Split::SheoPaintmasterP || s == Split::HiveKnightP || s == Split::ElderHuP || s == Split::CollectorP || s == Split::GodTamerP || s == Split::TroupeMasterGrimmP,
    ensures
        final(pds).wf(),
        (final(pds)@, a) == spec_transition_splits(old(pds)@, *s, p.old@, p.current@, r),
{
    match s {
        Split::OblobblesP => should_split(starts_with(p.old, "GG_Oblobbles") && starts_with(p.current, "GG_Mantis_Lords")),
        Split::MantisLordsP => should_split(starts_with(p.old, "GG_Mantis_Lords") && starts_with(p.current, "GG_Spa")),
        Split::MarmuP => should_split(starts_with(p.old, "GG_Ghost_Marmu") && (starts_with(p.current, "GG_Nosk") || starts_with(p.current, "GG_Flukemarm"))),
        Split::NoskP => should_split(starts_with(p.old, "GG_Nosk") && starts_with(p.current, "GG_Flukemarm")),
        Split::FlukemarmP => should_split(starts_with(p.old, "GG_Flukemarm") && starts_with(p.current, "GG_Broken_Vessel")),
        Split::BrokenVesselP => should_split(starts_with(p.old, "GG_Broken_Vessel") && (starts_with(p.current, "GG_Engine") || starts_with(p.current, "GG_Ghost_Galien"))),
        Split::SheoPaintmasterP => should_split(starts_with(p.old, "GG_Painter") && (starts_with(p.current, "GG_End_Sequence") || starts_with(p.current, "GG_Spa"))),
        Split::HiveKnightP => should_split(starts_with(p.old, "GG_Hive_Knight") && starts_with(p.current, "GG_Ghost_Hu")),
        Split::ElderHuP => should_split(starts_with(p.old, "GG_Ghost_Hu") && starts_with(p.current, "GG_Collector")),
        Split::CollectorP => should_split(starts_with(p.old, "GG_Collector") && starts_with(p.current, "GG_God_Tamer")),
        Split::GodTamerP => should_split(starts_with(p.old, "GG_God_Tamer") && starts_with(p.current, "GG_Grimm")),
        Split::TroupeMasterGrimmP => should_split(starts_with(p.old, "GG_Grimm") && starts_with(p.current, "GG_Spa")),
        _ => should_split(false),
    }
}

#[verifier::rlimit(50)]
fn transition_splits_11(s: &Split, p: &ScenePair, r: &GameReadings, pds: &mut PlayerDataStore) -> (a:
    SplitterAction)
    requires
        old(pds).wf(),
        s == Split::GalienP || s == Split::GreyPrinceZoteP || s == Split::UumuuP || s == Split::Hornet2P || s == Split::SlyP || s == Split::EnragedGuardianP || s == Split::LostKinP || s == Split::NoEyesP || s == Split::TraitorLordP || s == Split::WhiteDefenderP || s == Split::FailedChampionP || s == Split::MarkothP,
    ensures
        final(pds).wf(),
        (final(pds)@, a) == spec_transition_splits(old(pds)@, *s, p.old@, p.current@, r),
{
    match s {
        Split::GalienP => should_split(starts_with(p.old, "GG_Ghost_Galien") && (starts_with(p.current, "GG_Grey_Prince_Zote") || starts_with(p.current, "GG_Painter") || starts_with(p.current, "GG_Uumuu"))),
        Split::GreyPrinceZoteP => should_split(starts_with(p.old, "GG_Grey_Prince_Zote") && (starts_with(p.current, "GG_Uumuu") || starts_with(p.current, "GG_Failed_Champion"))),
        Split::UumuuP => should_split(starts_with(p.old, "GG_Uumuu") && (starts_with(p.current, "GG_Hornet_2") || starts_with(p.current, "GG_Nosk_Hornet"))),
        Split::Hornet2P => should_split(starts_with(p.old, "GG_Hornet_2") && (starts_with(p.current, "GG_Engine") || starts_with(p.current, "GG_Spa"))),
        Split::SlyP => should_split(starts_with(p.old, "GG_Sly") && (starts_with(p.current, "GG_End_Sequence") || starts_with(p.current, "GG_Hornet_2"))),
        Split::EnragedGuardianP => should_split(starts_with(p.old, "GG_Crystal_Guardian_2") && starts_with(p.current, "GG_Lost_Kin")),
        Split::LostKinP => should_split(starts_with(p.old, "GG_Lost_Kin") && starts_with(p.current, "GG_Ghost_No_Eyes")),
        Split::NoEyesP => should_split(starts_with(p.old, "GG_Ghost_No_Eyes") && starts_with(p.current, "GG_Traitor_Lord")),
        Split::TraitorLordP => should_split(starts_with(p.old, "GG_Traitor_Lord") && starts_with(p.current, "GG_White_Defender")),
        Split::WhiteDefenderP => should_split(starts_with(p.old, "GG_White_Defender") && starts_with(p.current, "GG_Spa")),
        Split::FailedChampionP => should_split(starts_with(p.old, "GG_Failed_Champion") && (starts_with(p.current, "GG_Ghost_Markoth") || starts_with(p.current, "GG_Grimm_Nightmare"))),
        Split::MarkothP => should_split(starts_with(p.old, "GG_Ghost_Markoth") && (starts_with(p.current, "GG_Watcher_Knights") || starts_with(p.current, "GG_Grey_Prince_Zote") || starts_with(p.current, "GG_Failed_Champion"))),
        _ => should_split(false),
    }
}

#[verifier::rlimit(50)]
fn transition_splits_12(s: &Split, p: &ScenePair, r: &GameReadings, pds: &mut PlayerDataStore) -> (a:
    SplitterAction)
    requires
        old(pds).wf(),
        s == Split::WatcherKnightsP || s == Split::SoulTyrantP || s == Split::PureVesselP || s == Split::Pantheon5Entry || s == Split::NoskHornetP || s == Split::NightmareKingGrimmP || s == Split::RadianceP,
    ensures
        final(pds).wf(),
        (final(pds)@, a) == spec_transition_splits(old(pds)@, *s, p.old@, p.current@, r),
{
    match s {
        Split::WatcherKnightsP => should_split(starts_with(p.old, "GG_Watcher_Knights") && (starts_with(p.current, "GG_Soul_Tyrant") || starts_with(p.current, "GG_Uumuu"))),
        Split::SoulTyrantP => should_split(starts_with(p.old, "GG_Soul_Tyrant") && (starts_with(p.current, "GG_Engine_Prime") || starts_with(p.current, "GG_Ghost_Markoth"))),
        Split::PureVesselP => should_split(starts_with(p.old, "GG_Hollow_Knight") && (starts_with(p.current, "GG_End_Sequence") || starts_with(p.current, "GG_Radiance") || starts_with(p.current, "GG_Door_5_Finale"))),
        Split::Pantheon5Entry => should_split(starts_with(p.current, "GG_Vengefly_V") && starts_with(p.old, "GG_Atrium_Roof")),
        Split::NoskHornetP => should_split(starts_with(p.old, "GG_Nosk_Hornet") && starts_with(p.current, "GG_Sly")),
        Split::NightmareKingGrimmP => should_split(starts_with(p.old, "GG_Grimm_Nightmare") && starts_with(p.current, "GG_Spa")),
        Split::RadianceP => should_split(starts_with(p.old, "GG_Radiance") && starts_with(p.current, "Cinematic_Ending")),
        _ => should_split(false),
    }
}

/// Whether the split `s` fires on the scene transition `p`.
pub fn transition_splits(s: &Split, p: &ScenePair, r: &GameReadings, pds: &mut PlayerDataStore) -> (a:
    SplitterAction)
    requires
        old(pds).wf(),
    ensures
        final(pds).wf(),
        (final(pds)@, a) == spec_transition_splits(old(pds)@, *s, p.old@, p.current@, r),
{
    match s {
        Split::EndingSplit | Split::EndingA | Split::EndingB | Split::EndingC | Split::EndingD | Split::EndingE | Split::Menu | Split::AnyTransition | Split::TransitionAfterSaveState | Split::MenuDreamer3 | Split::CorniferAtHome | Split::KingsPass => transition_splits_0(s, p, r, pds),
        Split::EnterDirtmouth | Split::KingsPassEnterFromTown | Split::SlyShopExit | Split::LumaflyLanternTransition | Split::SlyShopFinished | Split::EnterTMG | Split::EnterNKG | Split::EnterBroodingMawlek | Split::AncestralMound | Split::TransVS | Split::SalubraExit | Split::EnterHollowKnight => transition_splits_1(s, p, r, pds),
        Split::HollowKnightDreamnail | Split::EnterGreenpath | Split::VengeflyKingTrans | Split::EnterHornet1 | Split::MenuCloak | Split::MegaMossChargerTrans | Split::FungalWastesEntry | Split::ElderHuTrans | Split::MenuDashmaster | Split::TransClaw | Split::MenuClaw | Split::BlueLake => transition_splits_2(s, p, r, pds),
        Split::EnterAnyDream | Split::DreamNailExit | Split::MenuDreamNail | Split::MenuDreamGate | Split::CatacombsEntry | Split::TransGorgeousHusk | Split::MenuGorgeousHusk | Split::EnterRafters | Split::EnterSanctum | Split::EnterSanctumWithShadeSoul | Split::EnterSoulMaster | Split::TransShadeSoul => transition_splits_3(s, p, r, pds),
        Split::MenuShadeSoul | Split::EnterBlackKnight | Split::BlackKnightTrans | Split::EnterLoveTower | Split::TransCollector | Split::CrystalPeakEntry | Split::EnterCrown | Split::TransDescendingDark | Split::CrystalMoundExit | Split::WaterwaysEntry | Split::TransTear | Split::TransTearWithGrub => transition_splits_4(s, p, r, pds),
        Split::MenuIsmasTear | Split::EnterJunkPit | Split::BasinEntry | Split::Abyss19from18 | Split::BrokenVesselTrans | Split::MenuWings | Split::MenuVoidHeart | Split::WhitePalaceEntry | Split::WhitePalaceLowerEntry | Split::WhitePalaceLowerOrb | Split::WhitePalaceAtrium | Split::WhitePalaceLeftEntry => transition_splits_5(s, p, r, pds),
        Split::WhitePalaceLeftWingMid | Split::WhitePalaceRightEntry | Split::WhitePalaceRightClimb | Split::WhitePalaceRightSqueeze | Split::WhitePalaceRightDone | Split::WhitePalaceTopEntry | Split::PathOfPainEntry | Split::PathOfPainTransition1 | Split::PathOfPainTransition2 | Split::PathOfPainTransition3 | Split::WhitePalaceTopClimb | Split::WhitePalaceTopLeverRoom => transition_splits_6(s, p, r, pds),
        Split::WhitePalaceTopLastPlats | Split::WhitePalaceThroneRoom | Split::KingdomsEdgeEntry | Split::HiveEntry | Split::EnterHiveKnight | Split::EnterHornet2 | Split::ColosseumBronzeEntry | Split::ColosseumBronzeExit | Split::ColosseumSilverEntry | Split::ColosseumSilverExit | Split::ColosseumGoldEntry | Split::ColosseumGoldExit => transition_splits_7(s, p, r, pds),
        Split::FogCanyonEntry | Split::TeachersArchive | Split::QueensGardensEntry | Split::QueensGardensPostArenaTransition | Split::QueensGardensFrogsTrans | Split::EnterDeepnest | Split::EnterNosk | Split::EnterGodhome | Split::Pantheon1to4Entry | Split::VengeflyKingP | Split::GruzMotherP | Split::FalseKnightP => transition_splits_8(s, p, r, pds),
        Split::MassiveMossChargerP | Split::Hornet1P | Split::GodhomeBench | Split::GorbP | Split::DungDefenderP | Split::SoulWarriorP | Split::BroodingMawlekP | Split::GodhomeLoreRoom | Split::OroMatoNailBrosP | Split::XeroP | Split::CrystalGuardianP | Split::SoulMasterP => transition_splits_9(s, p, r, pds),
        Split::OblobblesP | Split::MantisLordsP | Split::MarmuP | Split::NoskP | Split::FlukemarmP | Split::BrokenVesselP | Split::SheoPaintmasterP | Split::HiveKnightP | Split::ElderHuP | Split::CollectorP | Split::GodTamerP | Split::TroupeMasterGrimmP => transition_splits_10(s, p, r, pds),
        Split::GalienP | Split::GreyPrinceZoteP | Split::UumuuP | Split::Hornet2P | Split::SlyP | Split::EnragedGuardianP | Split::LostKinP | Split::NoEyesP | Split::TraitorLordP | Split::WhiteDefenderP | Split::FailedChampionP | Split::MarkothP => transition_splits_11(s, p, r, pds),
        Split::WatcherKnightsP | Split::SoulTyrantP | Split::PureVesselP | Split::Pantheon5Entry | Split::NoskHornetP | Split::NightmareKingGrimmP | Split::RadianceP => transition_splits_12(s, p, r, pds),
        _ => should_split(false),
    }
}
/// Entering King's Pass as a level, which a new save file does first.
pub open spec fn spec_entering_kings_pass(cur: Seq<char>, r: &GameReadings) -> bool {
    cur == "Tutorial_01"@ && r.game_state == Some(GAME_STATE_ENTERING_LEVEL)
}

/// Entering King's Pass from the opening cutscenes of a new save file.
pub open spec fn spec_starting_kings_pass(old: Seq<char>, cur: Seq<char>, r: &GameReadings) -> bool {
    spec_opening_scene(old) && spec_entering_kings_pass(cur, r)
}

fn entering_kings_pass(p: &ScenePair, r: &GameReadings) -> (b: bool)
    ensures
        b == spec_entering_kings_pass(p.current@, r),
{
    str_eq(p.current, "Tutorial_01") && match r.game_state {
        Some(gs) => gs == GAME_STATE_ENTERING_LEVEL,
        None => false,
    }
}

fn starting_kings_pass(p: &ScenePair, r: &GameReadings) -> (b: bool)
    ensures
        b == spec_starting_kings_pass(p.old@, p.current@, r),
{
    is_opening_scene(p.old) && entering_kings_pass(p, r)
}

/// What a start split asks for on the transition from `old` to `cur`; these
/// fire at most once per transition.
pub open spec fn spec_transition_once_splits(
    s: Split,
    old: Seq<char>,
    cur: Seq<char>,
    r: &GameReadings,
) -> SplitterAction {
    match s {
        Split::StartNewGame => spec_should_split(
            spec_starting_kings_pass(old, cur, r) || (spec_is_menu(old) && cur
                == GG_ENTRANCE_CUTSCENE@),
        ),
        Split::StartAnyGame => spec_should_split(
            spec_starting_kings_pass(old, cur, r) || (spec_is_menu(old) && (cur
                == GG_ENTRANCE_CUTSCENE@ || spec_is_play_scene(cur))),
        ),
        Split::LegacyStart => spec_should_split(
            spec_entering_kings_pass(cur, r) || cur == GG_ENTRANCE_CUTSCENE@ || cur
                == "GG_Boss_Door_Entrance"@ || cur == "GG_Vengefly_V"@,
        ),
        _ => SplitterAction::Pass,
    }
}

/// Whether a start split fires on the scene transition `p`.
pub fn transition_once_splits(s: &Split, p: &ScenePair, r: &GameReadings) -> (a: SplitterAction)
    ensures
        a == spec_transition_once_splits(*s, p.old@, p.current@, r),
{
    match s {
        Split::StartNewGame => should_split(
            starting_kings_pass(p, r) || (is_menu(p.old) && str_eq(p.current, GG_ENTRANCE_CUTSCENE)),
        ),
        Split::StartAnyGame => should_split(
            starting_kings_pass(p, r) || (is_menu(p.old) && (str_eq(p.current, GG_ENTRANCE_CUTSCENE)
                || is_play_scene(p.current))),
        ),
        Split::LegacyStart => should_split(
            entering_kings_pass(p, r) || str_eq(p.current, GG_ENTRANCE_CUTSCENE) || str_eq(
                p.current,
                "GG_Boss_Door_Entrance",
            ) || str_eq(p.current, "GG_Vengefly_V"),
        ),
        _ => should_split(false),
    }
}

/// A new game starts the run exactly on entering King's Pass from one of the
/// opening cutscenes, or on entering the Godhome cutscene from a menu; no
/// other transition starts it.
pub proof fn lemma_start_new_game(old: Seq<char>, cur: Seq<char>, r: &GameReadings)
    ensures
        spec_transition_once_splits(Split::StartNewGame, old, cur, r) == if ((old == "Opening_Sequence"@
            || old == "Intro_Cutscene"@) && cur == "Tutorial_01"@ && r.game_state == Some(3i32)) || ((
        old == "Menu_Title"@ || old == "Quit_To_Menu"@ || old == "PermaDeath"@) && cur
            == "GG_Entrance_Cutscene"@) {
            SplitterAction::Split
        } else {
            SplitterAction::Pass
        },
{
}

} // verus!
