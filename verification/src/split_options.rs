//! The radio-button options of every split, in the order in which they are offered.

use vstd::prelude::*;

use crate::radio_button::{RadioButtonOption, RadioButtonOptions};
use crate::splits::Split;

verus! {

/// The number of options of [`Split`].
pub const SPLIT_COUNT: usize = 714;

/// The options at positions 0 to 47.
pub open spec fn split_option_chunk_0(i: usize) -> RadioButtonOption<'static, Split> {
    match i {
        0 => RadioButtonOption { value: Split::ManualSplit, key: "ManualSplit", alias: None, description: "Manual Split (Misc)", tooltip: Some("Never splits. Use this when you need to manually split while using ordered splits") },
        1 => RadioButtonOption { value: Split::StartNewGame, key: "StartNewGame", alias: None, description: "Start New Game (Start)", tooltip: Some("Splits when starting a new save file, including Normal, Steel Soul, and Godseeker mode") },
        2 => RadioButtonOption { value: Split::StartAnyGame, key: "StartAnyGame", alias: None, description: "Start Any Game (Start)", tooltip: Some("Splits when entering a new or existing save file") },
        3 => RadioButtonOption { value: Split::RandoWake, key: "RandoWake", alias: None, description: "Rando Wake (Event)", tooltip: Some("Splits when gaining control after waking up in Rando") },
        4 => RadioButtonOption { value: Split::LegacyStart, key: "LegacyStart", alias: None, description: "[DEPRECATED] Start Run (Start)", tooltip: Some("Splits when autosplitter version 3 would have automatically started runs") },
        5 => RadioButtonOption { value: Split::EndingSplit, key: "EndingSplit", alias: None, description: "Credits Roll (Event)", tooltip: Some("Splits on any credits rolling") },
        6 => RadioButtonOption { value: Split::EndingA, key: "EndingA", alias: None, description: "The Hollow Knight (Ending)", tooltip: Some("Splits on The Hollow Knight ending") },
        7 => RadioButtonOption { value: Split::EndingB, key: "EndingB", alias: None, description: "Sealed Siblings (Ending)", tooltip: Some("Splits on Sealed Siblings ending") },
        8 => RadioButtonOption { value: Split::EndingC, key: "EndingC", alias: None, description: "Dream No More (Ending)", tooltip: Some("Splits on Dream No More ending") },
        9 => RadioButtonOption { value: Split::EndingD, key: "EndingD", alias: None, description: "Embrace the Void (Ending)", tooltip: Some("Splits on Embrace the Void ending") },
        10 => RadioButtonOption { value: Split::EndingE, key: "EndingE", alias: None, description: "Delicate Flower (Ending)", tooltip: Some("Splits on Delicate Flower ending") },
        11 => RadioButtonOption { value: Split::Menu, key: "Menu", alias: None, description: "Main Menu (Menu)", tooltip: Some("Splits on the main menu") },
        12 => RadioButtonOption { value: Split::BenchAny, key: "BenchAny", alias: None, description: "Any Bench (Bench)", tooltip: Some("Splits when sitting on a bench") },
        13 => RadioButtonOption { value: Split::PlayerDeath, key: "PlayerDeath", alias: None, description: "Death (Event)", tooltip: Some("Splits when player HP is 0") },
        14 => RadioButtonOption { value: Split::ShadeKilled, key: "ShadeKilled", alias: None, description: "Shade Killed (Event)", tooltip: Some("Splits when the Shade is killed") },
        15 => RadioButtonOption { value: Split::AnyTransition, key: "AnyTransition", alias: None, description: "Any Transition (Transition)", tooltip: Some("Splits when the knight enters a transition (only one will split per transition)") },
        16 => RadioButtonOption { value: Split::TransitionAfterSaveState, key: "TransitionAfterSaveState", alias: None, description: "Transition excluding Save State (Transition)", tooltip: Some("Splits when the knight enters a transition (excludes save states and Sly's basement)") },
        17 => RadioButtonOption { value: Split::Lurien, key: "Lurien", alias: None, description: "Lurien the Watcher (Dreamer)", tooltip: Some("Splits when you see the mask for Lurien") },
        18 => RadioButtonOption { value: Split::Monomon, key: "Monomon", alias: None, description: "Monomon the Teacher (Dreamer)", tooltip: Some("Splits when you see the mask for Monomon") },
        19 => RadioButtonOption { value: Split::Hegemol, key: "Hegemol", alias: None, description: "Herrah the Beast (Dreamer)", tooltip: Some("Splits when you see the mask for Herrah") },
        20 => RadioButtonOption { value: Split::Dreamer1, key: "Dreamer1", alias: None, description: "First Dreamer (Dreamer)", tooltip: Some("Splits when you see the mask for the first dreamer killed") },
        21 => RadioButtonOption { value: Split::Dreamer2, key: "Dreamer2", alias: None, description: "Second Dreamer (Dreamer)", tooltip: Some("Splits when you see the mask for the second dreamer killed") },
        22 => RadioButtonOption { value: Split::Dreamer3, key: "Dreamer3", alias: None, description: "Third Dreamer (Dreamer)", tooltip: Some("Splits when you see the mask for the third dreamer killed") },
        23 => RadioButtonOption { value: Split::MenuDreamer3, key: "MenuDreamer3", alias: None, description: "Main Menu w/ 3 Dreamers (Menu)", tooltip: Some("Splits on transition to the main menu after 3 Dreamers acquired") },
        24 => RadioButtonOption { value: Split::LurienDreamer, key: "LurienDreamer", alias: None, description: "Lurien (Old Dreamer Timing)", tooltip: Some("Matches the old legacy split. Splits when Lurien is registered as defeated (After killing Watcher Knight)") },
        25 => RadioButtonOption { value: Split::MonomonDreamer, key: "MonomonDreamer", alias: None, description: "Monomon (Old Dreamer Timing)", tooltip: Some("Matches the old legacy split. Splits when Monomon is registered as defeated (After killing Uumuu)") },
        26 => RadioButtonOption { value: Split::HegemolDreamer, key: "HegemolDreamer", alias: None, description: "Herrah (Old Dreamer Timing)", tooltip: Some("Matches the old legacy split. Splits when Herrah is registered as defeated (In Spider Area)") },
        27 => RadioButtonOption { value: Split::MrMushroom1, key: "MrMushroom1", alias: None, description: "Mr. Mushroom 1 (Spot)", tooltip: Some("Splits when talking to Mister Mushroom in Fungal Wastes") },
        28 => RadioButtonOption { value: Split::MrMushroom2, key: "MrMushroom2", alias: None, description: "Mr. Mushroom 2 (Spot)", tooltip: Some("Splits when talking to Mister Mushroom in Kingdom's Edge") },
        29 => RadioButtonOption { value: Split::MrMushroom3, key: "MrMushroom3", alias: None, description: "Mr. Mushroom 3 (Spot)", tooltip: Some("Splits when talking to Mister Mushroom in Deepnest") },
        30 => RadioButtonOption { value: Split::MrMushroom4, key: "MrMushroom4", alias: None, description: "Mr. Mushroom 4 (Spot)", tooltip: Some("Splits when talking to Mister Mushroom in Mato's Hut") },
        31 => RadioButtonOption { value: Split::MrMushroom5, key: "MrMushroom5", alias: None, description: "Mr. Mushroom 5 (Spot)", tooltip: Some("Splits when talking to Mister Mushroom in Ancient Basin") },
        32 => RadioButtonOption { value: Split::MrMushroom6, key: "MrMushroom6", alias: None, description: "Mr. Mushroom 6 (Spot)", tooltip: Some("Splits when talking to Mister Mushroom by Overgrown Mound") },
        33 => RadioButtonOption { value: Split::MrMushroom7, key: "MrMushroom7", alias: None, description: "Mr. Mushroom 7 (Spot)", tooltip: Some("Splits when talking to Mister Mushroom in King's Pass") },
        34 => RadioButtonOption { value: Split::VengefulSpirit, key: "VengefulSpirit", alias: None, description: "Vengeful Spirit (Skill)", tooltip: Some("Splits when obtaining Vengeful Spirit") },
        35 => RadioButtonOption { value: Split::TransVS, key: "TransVS", alias: None, description: "Has Vengeful Spirit (Transition)", tooltip: Some("Splits on transition after Vengeful Spirit acquired") },
        36 => RadioButtonOption { value: Split::ShadeSoul, key: "ShadeSoul", alias: None, description: "Shade Soul (Skill)", tooltip: Some("Splits when obtaining Shade Soul") },
        37 => RadioButtonOption { value: Split::TransShadeSoul, key: "TransShadeSoul", alias: None, description: "Has Shade Soul (Transition)", tooltip: Some("Splits on transition after Shade Soul acquired") },
        38 => RadioButtonOption { value: Split::MenuShadeSoul, key: "MenuShadeSoul", alias: None, description: "MenuShadeSoul", tooltip: None },
        39 => RadioButtonOption { value: Split::DesolateDive, key: "DesolateDive", alias: None, description: "Desolate Dive (Skill)", tooltip: Some("Splits when obtaining Desolate Dive") },
        40 => RadioButtonOption { value: Split::DescendingDark, key: "DescendingDark", alias: None, description: "Descending Dark (Skill)", tooltip: Some("Splits when obtaining Descending Dark") },
        41 => RadioButtonOption { value: Split::TransDescendingDark, key: "TransDescendingDark", alias: None, description: "Has Descending Dark (Transition)", tooltip: Some("Splits on transition after Descending Dark acquired") },
        42 => RadioButtonOption { value: Split::HowlingWraiths, key: "HowlingWraiths", alias: None, description: "Howling Wraiths (Skill)", tooltip: Some("Splits when obtaining Howling Wraiths") },
        43 => RadioButtonOption { value: Split::AbyssShriek, key: "AbyssShriek", alias: None, description: "Abyss Shriek (Skill)", tooltip: Some("Splits when obtaining Abyss Shriek") },
        44 => RadioButtonOption { value: Split::MothwingCloak, key: "MothwingCloak", alias: None, description: "Mothwing Cloak (Skill)", tooltip: Some("Splits when obtaining Mothwing Cloak") },
        45 => RadioButtonOption { value: Split::MenuCloak, key: "MenuCloak", alias: None, description: "Main Menu w/ Mothwing Cloak (Menu)", tooltip: Some("Splits on transition to the main menu after Mothwing Cloak acquired") },
        46 => RadioButtonOption { value: Split::ShadeCloak, key: "ShadeCloak", alias: None, description: "Shade Cloak (Skill)", tooltip: Some("Splits when obtaining Shade Cloak") },
        _ => RadioButtonOption { value: Split::MantisClaw, key: "MantisClaw", alias: None, description: "Mantis Claw (Skill)", tooltip: Some("Splits when obtaining Mantis Claw") },
    }
}

fn split_option_chunk_0_exec(i: usize) -> (r: RadioButtonOption<'static, Split>)
    ensures
        r == split_option_chunk_0(i),
{
    match i {
        0 => RadioButtonOption { value: Split::ManualSplit, key: "ManualSplit", alias: None, description: "Manual Split (Misc)", tooltip: Some("Never splits. Use this when you need to manually split while using ordered splits") },
        1 => RadioButtonOption { value: Split::StartNewGame, key: "StartNewGame", alias: None, description: "Start New Game (Start)", tooltip: Some("Splits when starting a new save file, including Normal, Steel Soul, and Godseeker mode") },
        2 => RadioButtonOption { value: Split::StartAnyGame, key: "StartAnyGame", alias: None, description: "Start Any Game (Start)", tooltip: Some("Splits when entering a new or existing save file") },
        3 => RadioButtonOption { value: Split::RandoWake, key: "RandoWake", alias: None, description: "Rando Wake (Event)", tooltip: Some("Splits when gaining control after waking up in Rando") },
        4 => RadioButtonOption { value: Split::LegacyStart, key: "LegacyStart", alias: None, description: "[DEPRECATED] Start Run (Start)", tooltip: Some("Splits when autosplitter version 3 would have automatically started runs") },
        5 => RadioButtonOption { value: Split::EndingSplit, key: "EndingSplit", alias: None, description: "Credits Roll (Event)", tooltip: Some("Splits on any credits rolling") },
        6 => RadioButtonOption { value: Split::EndingA, key: "EndingA", alias: None, description: "The Hollow Knight (Ending)", tooltip: Some("Splits on The Hollow Knight ending") },
        7 => RadioButtonOption { value: Split::EndingB, key: "EndingB", alias: None, description: "Sealed Siblings (Ending)", tooltip: Some("Splits on Sealed Siblings ending") },
        8 => RadioButtonOption { value: Split::EndingC, key: "EndingC", alias: None, description: "Dream No More (Ending)", tooltip: Some("Splits on Dream No More ending") },
        9 => RadioButtonOption { value: Split::EndingD, key: "EndingD", alias: None, description: "Embrace the Void (Ending)", tooltip: Some("Splits on Embrace the Void ending") },
        10 => RadioButtonOption { value: Split::EndingE, key: "EndingE", alias: None, description: "Delicate Flower (Ending)", tooltip: Some("Splits on Delicate Flower ending") },
        11 => RadioButtonOption { value: Split::Menu, key: "Menu", alias: None, description: "Main Menu (Menu)", tooltip: Some("Splits on the main menu") },
        12 => RadioButtonOption { value: Split::BenchAny, key: "BenchAny", alias: None, description: "Any Bench (Bench)", tooltip: Some("Splits when sitting on a bench") },
        13 => RadioButtonOption { value: Split::PlayerDeath, key: "PlayerDeath", alias: None, description: "Death (Event)", tooltip: Some("Splits when player HP is 0") },
        14 => RadioButtonOption { value: Split::ShadeKilled, key: "ShadeKilled", alias: None, description: "Shade Killed (Event)", tooltip: Some("Splits when the Shade is killed") },
        15 => RadioButtonOption { value: Split::AnyTransition, key: "AnyTransition", alias: None, description: "Any Transition (Transition)", tooltip: Some("Splits when the knight enters a transition (only one will split per transition)") },
        16 => RadioButtonOption { value: Split::TransitionAfterSaveState, key: "TransitionAfterSaveState", alias: None, description: "Transition excluding Save State (Transition)", tooltip: Some("Splits when the knight enters a transition (excludes save states and Sly's basement)") },
        17 => RadioButtonOption { value: Split::Lurien, key: "Lurien", alias: None, description: "Lurien the Watcher (Dreamer)", tooltip: Some("Splits when you see the mask for Lurien") },
        18 => RadioButtonOption { value: Split::Monomon, key: "Monomon", alias: None, description: "Monomon the Teacher (Dreamer)", tooltip: Some("Splits when you see the mask for Monomon") },
        19 => RadioButtonOption { value: Split::Hegemol, key: "Hegemol", alias: None, description: "Herrah the Beast (Dreamer)", tooltip: Some("Splits when you see the mask for Herrah") },
        20 => RadioButtonOption { value: Split::Dreamer1, key: "Dreamer1", alias: None, description: "First Dreamer (Dreamer)", tooltip: Some("Splits when you see the mask for the first dreamer killed") },
        21 => RadioButtonOption { value: Split::Dreamer2, key: "Dreamer2", alias: None, description: "Second Dreamer (Dreamer)", tooltip: Some("Splits when you see the mask for the second dreamer killed") },
        22 => RadioButtonOption { value: Split::Dreamer3, key: "Dreamer3", alias: None, description: "Third Dreamer (Dreamer)", tooltip: Some("Splits when you see the mask for the third dreamer killed") },
        23 => RadioButtonOption { value: Split::MenuDreamer3, key: "MenuDreamer3", alias: None, description: "Main Menu w/ 3 Dreamers (Menu)", tooltip: Some("Splits on transition to the main menu after 3 Dreamers acquired") },
        24 => RadioButtonOption { value: Split::LurienDreamer, key: "LurienDreamer", alias: None, description: "Lurien (Old Dreamer Timing)", tooltip: Some("Matches the old legacy split. Splits when Lurien is registered as defeated (After killing Watcher Knight)") },
        25 => RadioButtonOption { value: Split::MonomonDreamer, key: "MonomonDreamer", alias: None, description: "Monomon (Old Dreamer Timing)", tooltip: Some("Matches the old legacy split. Splits when Monomon is registered as defeated (After killing Uumuu)") },
        26 => RadioButtonOption { value: Split::HegemolDreamer, key: "HegemolDreamer", alias: None, description: "Herrah (Old Dreamer Timing)", tooltip: Some("Matches the old legacy split. Splits when Herrah is registered as defeated (In Spider Area)") },
        27 => RadioButtonOption { value: Split::MrMushroom1, key: "MrMushroom1", alias: None, description: "Mr. Mushroom 1 (Spot)", tooltip: Some("Splits when talking to Mister Mushroom in Fungal Wastes") },
        28 => RadioButtonOption { value: Split::MrMushroom2, key: "MrMushroom2", alias: None, description: "Mr. Mushroom 2 (Spot)", tooltip: Some("Splits when talking to Mister Mushroom in Kingdom's Edge") },
        29 => RadioButtonOption { value: Split::MrMushroom3, key: "MrMushroom3", alias: None, description: "Mr. Mushroom 3 (Spot)", tooltip: Some("Splits when talking to Mister Mushroom in Deepnest") },
        30 => RadioButtonOption { value: Split::MrMushroom4, key: "MrMushroom4", alias: None, description: "Mr. Mushroom 4 (Spot)", tooltip: Some("Splits when talking to Mister Mushroom in Mato's Hut") },
        31 => RadioButtonOption { value: Split::MrMushroom5, key: "MrMushroom5", alias: None, description: "Mr. Mushroom 5 (Spot)", tooltip: Some("Splits when talking to Mister Mushroom in Ancient Basin") },
        32 => RadioButtonOption { value: Split::MrMushroom6, key: "MrMushroom6", alias: None, description: "Mr. Mushroom 6 (Spot)", tooltip: Some("Splits when talking to Mister Mushroom by Overgrown Mound") },
        33 => RadioButtonOption { value: Split::MrMushroom7, key: "MrMushroom7", alias: None, description: "Mr. Mushroom 7 (Spot)", tooltip: Some("Splits when talking to Mister Mushroom in King's Pass") },
        34 => RadioButtonOption { value: Split::VengefulSpirit, key: "VengefulSpirit", alias: None, description: "Vengeful Spirit (Skill)", tooltip: Some("Splits when obtaining Vengeful Spirit") },
        35 => RadioButtonOption { value: Split::TransVS, key: "TransVS", alias: None, description: "Has Vengeful Spirit (Transition)", tooltip: Some("Splits on transition after Vengeful Spirit acquired") },
        36 => RadioButtonOption { value: Split::ShadeSoul, key: "ShadeSoul", alias: None, description: "Shade Soul (Skill)", tooltip: Some("Splits when obtaining Shade Soul") },
        37 => RadioButtonOption { value: Split::TransShadeSoul, key: "TransShadeSoul", alias: None, description: "Has Shade Soul (Transition)", tooltip: Some("Splits on transition after Shade Soul acquired") },
        38 => RadioButtonOption { value: Split::MenuShadeSoul, key: "MenuShadeSoul", alias: None, description: "MenuShadeSoul", tooltip: None },
        39 => RadioButtonOption { value: Split::DesolateDive, key: "DesolateDive", alias: None, description: "Desolate Dive (Skill)", tooltip: Some("Splits when obtaining Desolate Dive") },
        40 => RadioButtonOption { value: Split::DescendingDark, key: "DescendingDark", alias: None, description: "Descending Dark (Skill)", tooltip: Some("Splits when obtaining Descending Dark") },
        41 => RadioButtonOption { value: Split::TransDescendingDark, key: "TransDescendingDark", alias: None, description: "Has Descending Dark (Transition)", tooltip: Some("Splits on transition after Descending Dark acquired") },
        42 => RadioButtonOption { value: Split::HowlingWraiths, key: "HowlingWraiths", alias: None, description: "Howling Wraiths (Skill)", tooltip: Some("Splits when obtaining Howling Wraiths") },
        43 => RadioButtonOption { value: Split::AbyssShriek, key: "AbyssShriek", alias: None, description: "Abyss Shriek (Skill)", tooltip: Some("Splits when obtaining Abyss Shriek") },
        44 => RadioButtonOption { value: Split::MothwingCloak, key: "MothwingCloak", alias: None, description: "Mothwing Cloak (Skill)", tooltip: Some("Splits when obtaining Mothwing Cloak") },
        45 => RadioButtonOption { value: Split::MenuCloak, key: "MenuCloak", alias: None, description: "Main Menu w/ Mothwing Cloak (Menu)", tooltip: Some("Splits on transition to the main menu after Mothwing Cloak acquired") },
        46 => RadioButtonOption { value: Split::ShadeCloak, key: "ShadeCloak", alias: None, description: "Shade Cloak (Skill)", tooltip: Some("Splits when obtaining Shade Cloak") },
        _ => RadioButtonOption { value: Split::MantisClaw, key: "MantisClaw", alias: None, description: "Mantis Claw (Skill)", tooltip: Some("Splits when obtaining Mantis Claw") },
    }
}

/// The options at positions 48 to 95.
pub open spec fn split_option_chunk_1(i: usize) -> RadioButtonOption<'static, Split> {
    match i {
        48 => RadioButtonOption { value: Split::TransClaw, key: "TransClaw", alias: None, description: "Has Claw (Transition)", tooltip: Some("Splits on transition after Mantis Claw acquired") },
        49 => RadioButtonOption { value: Split::MenuClaw, key: "MenuClaw", alias: None, description: "Main Menu w/ Claw (Menu)", tooltip: Some("Splits on transition to the main menu after Mantis Claw acquired") },
        50 => RadioButtonOption { value: Split::MonarchWings, key: "MonarchWings", alias: None, description: "Monarch Wings (Skill)", tooltip: Some("Splits when obtaining Monarch Wings") },
        51 => RadioButtonOption { value: Split::MenuWings, key: "MenuWings", alias: None, description: "MenuWings", tooltip: None },
        52 => RadioButtonOption { value: Split::CrystalHeart, key: "CrystalHeart", alias: None, description: "Crystal Heart (Skill)", tooltip: Some("Splits when obtaining Crystal Heart") },
        53 => RadioButtonOption { value: Split::IsmasTear, key: "IsmasTear", alias: None, description: "Isma's Tear (Skill)", tooltip: Some("Splits when obtaining Isma's Tear") },
        54 => RadioButtonOption { value: Split::TransTear, key: "TransTear", alias: None, description: "Has Isma's Tear (Transition)", tooltip: Some("Splits on transition after Isma's Tear acquired") },
        55 => RadioButtonOption { value: Split::TransTearWithGrub, key: "TransTearWithGrub", alias: None, description: "Isma's Tear with Grub (Transition)", tooltip: Some("Splits on transition after collecting Isma's Tear and saving the grub in Isma's Grove") },
        56 => RadioButtonOption { value: Split::MenuIsmasTear, key: "MenuIsmasTear", alias: None, description: "Main Menu w/ Isma's Tear (Menu)", tooltip: Some("Splits on transition to the main menu after Isma's Tear acquired") },
        57 => RadioButtonOption { value: Split::CycloneSlash, key: "CycloneSlash", alias: None, description: "Cyclone Slash (Skill)", tooltip: Some("Splits when obtaining Cyclone Slash") },
        58 => RadioButtonOption { value: Split::DashSlash, key: "DashSlash", alias: None, description: "Dash Slash (Skill)", tooltip: Some("Splits when obtaining Dash Slash") },
        59 => RadioButtonOption { value: Split::GreatSlash, key: "GreatSlash", alias: None, description: "Great Slash (Skill)", tooltip: Some("Splits when obtaining Great Slash") },
        60 => RadioButtonOption { value: Split::DreamNail, key: "DreamNail", alias: None, description: "Dream Nail (Skill)", tooltip: Some("Splits when obtaining Dream Nail") },
        61 => RadioButtonOption { value: Split::MenuDreamNail, key: "MenuDreamNail", alias: None, description: "Main Menu w/ Dream Nail (Menu)", tooltip: Some("Splits on transition to the main menu after Dream Nail acquired") },
        62 => RadioButtonOption { value: Split::DreamGate, key: "DreamGate", alias: None, description: "Dream Gate (Skill)", tooltip: Some("Splits when obtaining Dream Gate") },
        63 => RadioButtonOption { value: Split::MenuDreamGate, key: "MenuDreamGate", alias: None, description: "Main Menu w/ Dream Gate (Menu)", tooltip: Some("Splits on transition to the main menu after Dream Gate acquired") },
        64 => RadioButtonOption { value: Split::DreamNail2, key: "DreamNail2", alias: None, description: "Dream Nail - Awoken (Skill)", tooltip: Some("Splits when Awkening the Dream Nail") },
        65 => RadioButtonOption { value: Split::CityKey, key: "CityKey", alias: None, description: "City Crest (Item)", tooltip: Some("Splits when obtaining the City Crest") },
        66 => RadioButtonOption { value: Split::LumaflyLantern, key: "LumaflyLantern", alias: None, description: "Lumafly Lantern (Item)", tooltip: Some("Splits when obtaining the Lumafly Lantern") },
        67 => RadioButtonOption { value: Split::LumaflyLanternTransition, key: "LumaflyLanternTransition", alias: None, description: "Shop Lumafly Lantern (Transition)", tooltip: Some("Splits on transition after Lantern has been acquired") },
        68 => RadioButtonOption { value: Split::SimpleKey, key: "SimpleKey", alias: None, description: "Simple Key - First (Item)", tooltip: Some("Splits when obtaining the first Simple Key") },
        69 => RadioButtonOption { value: Split::OnObtainSimpleKey, key: "OnObtainSimpleKey", alias: None, description: "Simple Key (Obtain)", tooltip: Some("Splits when obtaining a Simple Key") },
        70 => RadioButtonOption { value: Split::OnUseSimpleKey, key: "OnUseSimpleKey", alias: None, description: "Use Simple Key (Obtain)", tooltip: Some("Splits when using a Simple Key") },
        71 => RadioButtonOption { value: Split::SlyKey, key: "SlyKey", alias: None, description: "Shopkeeper's Key (Item)", tooltip: Some("Splits when obtaining the Shopkeeper's Key") },
        72 => RadioButtonOption { value: Split::ElegantKey, key: "ElegantKey", alias: None, description: "Elegant Key (Item)", tooltip: Some("Splits when obtaining the Elegant Key") },
        73 => RadioButtonOption { value: Split::LoveKey, key: "LoveKey", alias: None, description: "Love Key (Item)", tooltip: Some("Splits when obtaining the Love Key") },
        74 => RadioButtonOption { value: Split::PaleLurkerKey, key: "PaleLurkerKey", alias: None, description: "Pale Lurker Key (Item)", tooltip: Some("Splits when obtaining the Simple Key from the Pale Lurker") },
        75 => RadioButtonOption { value: Split::SlySimpleKey, key: "SlySimpleKey", alias: None, description: "Sly Simple Key (Item)", tooltip: Some("Splits when buying the simple key from Sly") },
        76 => RadioButtonOption { value: Split::KingsBrand, key: "KingsBrand", alias: None, description: "King's Brand (Item)", tooltip: Some("Splits when obtaining the King's Brand") },
        77 => RadioButtonOption { value: Split::TramPass, key: "TramPass", alias: None, description: "Tram Pass (Item)", tooltip: Some("Splits when obtaining the Tram Pass") },
        78 => RadioButtonOption { value: Split::OnObtainPaleOre, key: "OnObtainPaleOre", alias: None, description: "Pale Ore (Obtain)", tooltip: Some("Splits when obtaining a Pale Ore") },
        79 => RadioButtonOption { value: Split::Ore1, key: "Ore1", alias: None, description: "Pale Ore 1 (Ore)", tooltip: Some("Splits after obtaining the first pale ore.") },
        80 => RadioButtonOption { value: Split::Ore2, key: "Ore2", alias: None, description: "Pale Ore 2 (Ore)", tooltip: Some("Splits after obtaining the second pale ore.") },
        81 => RadioButtonOption { value: Split::Ore3, key: "Ore3", alias: None, description: "Pale Ore 3 (Ore)", tooltip: Some("Splits after obtaining the third pale ore.") },
        82 => RadioButtonOption { value: Split::Ore4, key: "Ore4", alias: None, description: "Pale Ore 4 (Ore)", tooltip: Some("Splits after obtaining the fourth pale ore.") },
        83 => RadioButtonOption { value: Split::Ore5, key: "Ore5", alias: None, description: "Pale Ore 5 (Ore)", tooltip: Some("Splits after obtaining the fifth pale ore.") },
        84 => RadioButtonOption { value: Split::Ore6, key: "Ore6", alias: None, description: "Pale Ore 6 (Ore)", tooltip: Some("Splits after obtaining the sixth pale ore.") },
        85 => RadioButtonOption { value: Split::PaleOre, key: "PaleOre", alias: None, description: "Pale Ore - Any (Item)", tooltip: Some("Splits if you've obtained any Pale Ore") },
        86 => RadioButtonOption { value: Split::NailUpgrade1, key: "NailUpgrade1", alias: None, description: "Nail 1 (Upgrade)", tooltip: Some("Splits upon upgrading to the Sharpened Nail") },
        87 => RadioButtonOption { value: Split::NailUpgrade2, key: "NailUpgrade2", alias: None, description: "Nail 2 (Upgrade)", tooltip: Some("Splits upon upgrading to the Channeled Nail") },
        88 => RadioButtonOption { value: Split::NailUpgrade3, key: "NailUpgrade3", alias: None, description: "Nail 3 (Upgrade)", tooltip: Some("Splits upon upgrading to the Coiled Nail") },
        89 => RadioButtonOption { value: Split::NailUpgrade4, key: "NailUpgrade4", alias: None, description: "Nail 4 (Upgrade)", tooltip: Some("Splits upon upgrading to the Pure Nail") },
        90 => RadioButtonOption { value: Split::OnObtainMaskShard, key: "OnObtainMaskShard", alias: None, description: "Mask Shard (Obtain)", tooltip: Some("Splits when obtaining a Mask Shard or upgrade for complete Mask") },
        91 => RadioButtonOption { value: Split::MaskFragment1, key: "MaskFragment1", alias: None, description: "Mask Shard 1 (Fragment)", tooltip: Some("Splits when getting 1st Mask Shard") },
        92 => RadioButtonOption { value: Split::MaskFragment2, key: "MaskFragment2", alias: None, description: "Mask Shard 2 (Fragment)", tooltip: Some("Splits when getting 2nd Mask Shard") },
        93 => RadioButtonOption { value: Split::MaskFragment3, key: "MaskFragment3", alias: None, description: "Mask Shard 3 (Fragment)", tooltip: Some("Splits when getting 3rd Mask Shard") },
        94 => RadioButtonOption { value: Split::Mask1, key: "Mask1", alias: None, description: "Mask Upgrade 4 (Upgrade)", tooltip: Some("Splits when getting 1 extra Mask (6 base HP)") },
        _ => RadioButtonOption { value: Split::MaskFragment5, key: "MaskFragment5", alias: None, description: "Mask Shard 5 (Fragment)", tooltip: Some("Splits when getting 5th Mask Shard") },
    }
}

fn split_option_chunk_1_exec(i: usize) -> (r: RadioButtonOption<'static, Split>)
    ensures
        r == split_option_chunk_1(i),
{
    match i {
        48 => RadioButtonOption { value: Split::TransClaw, key: "TransClaw", alias: None, description: "Has Claw (Transition)", tooltip: Some("Splits on transition after Mantis Claw acquired") },
        49 => RadioButtonOption { value: Split::MenuClaw, key: "MenuClaw", alias: None, description: "Main Menu w/ Claw (Menu)", tooltip: Some("Splits on transition to the main menu after Mantis Claw acquired") },
        50 => RadioButtonOption { value: Split::MonarchWings, key: "MonarchWings", alias: None, description: "Monarch Wings (Skill)", tooltip: Some("Splits when obtaining Monarch Wings") },
        51 => RadioButtonOption { value: Split::MenuWings, key: "MenuWings", alias: None, description: "MenuWings", tooltip: None },
        52 => RadioButtonOption { value: Split::CrystalHeart, key: "CrystalHeart", alias: None, description: "Crystal Heart (Skill)", tooltip: Some("Splits when obtaining Crystal Heart") },
        53 => RadioButtonOption { value: Split::IsmasTear, key: "IsmasTear", alias: None, description: "Isma's Tear (Skill)", tooltip: Some("Splits when obtaining Isma's Tear") },
        54 => RadioButtonOption { value: Split::TransTear, key: "TransTear", alias: None, description: "Has Isma's Tear (Transition)", tooltip: Some("Splits on transition after Isma's Tear acquired") },
        55 => RadioButtonOption { value: Split::TransTearWithGrub, key: "TransTearWithGrub", alias: None, description: "Isma's Tear with Grub (Transition)", tooltip: Some("Splits on transition after collecting Isma's Tear and saving the grub in Isma's Grove") },
        56 => RadioButtonOption { value: Split::MenuIsmasTear, key: "MenuIsmasTear", alias: None, description: "Main Menu w/ Isma's Tear (Menu)", tooltip: Some("Splits on transition to the main menu after Isma's Tear acquired") },
        57 => RadioButtonOption { value: Split::CycloneSlash, key: "CycloneSlash", alias: None, description: "Cyclone Slash (Skill)", tooltip: Some("Splits when obtaining Cyclone Slash") },
        58 => RadioButtonOption { value: Split::DashSlash, key: "DashSlash", alias: None, description: "Dash Slash (Skill)", tooltip: Some("Splits when obtaining Dash Slash") },
        59 => RadioButtonOption { value: Split::GreatSlash, key: "GreatSlash", alias: None, description: "Great Slash (Skill)", tooltip: Some("Splits when obtaining Great Slash") },
        60 => RadioButtonOption { value: Split::DreamNail, key: "DreamNail", alias: None, description: "Dream Nail (Skill)", tooltip: Some("Splits when obtaining Dream Nail") },
        61 => RadioButtonOption { value: Split::MenuDreamNail, key: "MenuDreamNail", alias: None, description: "Main Menu w/ Dream Nail (Menu)", tooltip: Some("Splits on transition to the main menu after Dream Nail acquired") },
        62 => RadioButtonOption { value: Split::DreamGate, key: "DreamGate", alias: None, description: "Dream Gate (Skill)", tooltip: Some("Splits when obtaining Dream Gate") },
        63 => RadioButtonOption { value: Split::MenuDreamGate, key: "MenuDreamGate", alias: None, description: "Main Menu w/ Dream Gate (Menu)", tooltip: Some("Splits on transition to the main menu after Dream Gate acquired") },
        64 => RadioButtonOption { value: Split::DreamNail2, key: "DreamNail2", alias: None, description: "Dream Nail - Awoken (Skill)", tooltip: Some("Splits when Awkening the Dream Nail") },
        65 => RadioButtonOption { value: Split::CityKey, key: "CityKey", alias: None, description: "City Crest (Item)", tooltip: Some("Splits when obtaining the City Crest") },
        66 => RadioButtonOption { value: Split::LumaflyLantern, key: "LumaflyLantern", alias: None, description: "Lumafly Lantern (Item)", tooltip: Some("Splits when obtaining the Lumafly Lantern") },
        67 => RadioButtonOption { value: Split::LumaflyLanternTransition, key: "LumaflyLanternTransition", alias: None, description: "Shop Lumafly Lantern (Transition)", tooltip: Some("Splits on transition after Lantern has been acquired") },
        68 => RadioButtonOption { value: Split::SimpleKey, key: "SimpleKey", alias: None, description: "Simple Key - First (Item)", tooltip: Some("Splits when obtaining the first Simple Key") },
        69 => RadioButtonOption { value: Split::OnObtainSimpleKey, key: "OnObtainSimpleKey", alias: None, description: "Simple Key (Obtain)", tooltip: Some("Splits when obtaining a Simple Key") },
        70 => RadioButtonOption { value: Split::OnUseSimpleKey, key: "OnUseSimpleKey", alias: None, description: "Use Simple Key (Obtain)", tooltip: Some("Splits when using a Simple Key") },
        71 => RadioButtonOption { value: Split::SlyKey, key: "SlyKey", alias: None, description: "Shopkeeper's Key (Item)", tooltip: Some("Splits when obtaining the Shopkeeper's Key") },
        72 => RadioButtonOption { value: Split::ElegantKey, key: "ElegantKey", alias: None, description: "Elegant Key (Item)", tooltip: Some("Splits when obtaining the Elegant Key") },
        73 => RadioButtonOption { value: Split::LoveKey, key: "LoveKey", alias: None, description: "Love Key (Item)", tooltip: Some("Splits when obtaining the Love Key") },
        74 => RadioButtonOption { value: Split::PaleLurkerKey, key: "PaleLurkerKey", alias: None, description: "Pale Lurker Key (Item)", tooltip: Some("Splits when obtaining the Simple Key from the Pale Lurker") },
        75 => RadioButtonOption { value: Split::SlySimpleKey, key: "SlySimpleKey", alias: None, description: "Sly Simple Key (Item)", tooltip: Some("Splits when buying the simple key from Sly") },
        76 => RadioButtonOption { value: Split::KingsBrand, key: "KingsBrand", alias: None, description: "King's Brand (Item)", tooltip: Some("Splits when obtaining the King's Brand") },
        77 => RadioButtonOption { value: Split::TramPass, key: "TramPass", alias: None, description: "Tram Pass (Item)", tooltip: Some("Splits when obtaining the Tram Pass") },
        78 => RadioButtonOption { value: Split::OnObtainPaleOre, key: "OnObtainPaleOre", alias: None, description: "Pale Ore (Obtain)", tooltip: Some("Splits when obtaining a Pale Ore") },
        79 => RadioButtonOption { value: Split::Ore1, key: "Ore1", alias: None, description: "Pale Ore 1 (Ore)", tooltip: Some("Splits after obtaining the first pale ore.") },
        80 => RadioButtonOption { value: Split::Ore2, key: "Ore2", alias: None, description: "Pale Ore 2 (Ore)", tooltip: Some("Splits after obtaining the second pale ore.") },
        81 => RadioButtonOption { value: Split::Ore3, key: "Ore3", alias: None, description: "Pale Ore 3 (Ore)", tooltip: Some("Splits after obtaining the third pale ore.") },
        82 => RadioButtonOption { value: Split::Ore4, key: "Ore4", alias: None, description: "Pale Ore 4 (Ore)", tooltip: Some("Splits after obtaining the fourth pale ore.") },
        83 => RadioButtonOption { value: Split::Ore5, key: "Ore5", alias: None, description: "Pale Ore 5 (Ore)", tooltip: Some("Splits after obtaining the fifth pale ore.") },
        84 => RadioButtonOption { value: Split::Ore6, key: "Ore6", alias: None, description: "Pale Ore 6 (Ore)", tooltip: Some("Splits after obtaining the sixth pale ore.") },
        85 => RadioButtonOption { value: Split::PaleOre, key: "PaleOre", alias: None, description: "Pale Ore - Any (Item)", tooltip: Some("Splits if you've obtained any Pale Ore") },
        86 => RadioButtonOption { value: Split::NailUpgrade1, key: "NailUpgrade1", alias: None, description: "Nail 1 (Upgrade)", tooltip: Some("Splits upon upgrading to the Sharpened Nail") },
        87 => RadioButtonOption { value: Split::NailUpgrade2, key: "NailUpgrade2", alias: None, description: "Nail 2 (Upgrade)", tooltip: Some("Splits upon upgrading to the Channeled Nail") },
        88 => RadioButtonOption { value: Split::NailUpgrade3, key: "NailUpgrade3", alias: None, description: "Nail 3 (Upgrade)", tooltip: Some("Splits upon upgrading to the Coiled Nail") },
        89 => RadioButtonOption { value: Split::NailUpgrade4, key: "NailUpgrade4", alias: None, description: "Nail 4 (Upgrade)", tooltip: Some("Splits upon upgrading to the Pure Nail") },
        90 => RadioButtonOption { value: Split::OnObtainMaskShard, key: "OnObtainMaskShard", alias: None, description: "Mask Shard (Obtain)", tooltip: Some("Splits when obtaining a Mask Shard or upgrade for complete Mask") },
        91 => RadioButtonOption { value: Split::MaskFragment1, key: "MaskFragment1", alias: None, description: "Mask Shard 1 (Fragment)", tooltip: Some("Splits when getting 1st Mask Shard") },
        92 => RadioButtonOption { value: Split::MaskFragment2, key: "MaskFragment2", alias: None, description: "Mask Shard 2 (Fragment)", tooltip: Some("Splits when getting 2nd Mask Shard") },
        93 => RadioButtonOption { value: Split::MaskFragment3, key: "MaskFragment3", alias: None, description: "Mask Shard 3 (Fragment)", tooltip: Some("Splits when getting 3rd Mask Shard") },
        94 => RadioButtonOption { value: Split::Mask1, key: "Mask1", alias: None, description: "Mask Upgrade 4 (Upgrade)", tooltip: Some("Splits when getting 1 extra Mask (6 base HP)") },
        _ => RadioButtonOption { value: Split::MaskFragment5, key: "MaskFragment5", alias: None, description: "Mask Shard 5 (Fragment)", tooltip: Some("Splits when getting 5th Mask Shard") },
    }
}

/// The options at positions 96 to 143.
pub open spec fn split_option_chunk_2(i: usize) -> RadioButtonOption<'static, Split> {
    match i {
        96 => RadioButtonOption { value: Split::MaskFragment6, key: "MaskFragment6", alias: None, description: "Mask Shard 6 (Fragment)", tooltip: Some("Splits when getting 6th Mask Shard") },
        97 => RadioButtonOption { value: Split::MaskFragment7, key: "MaskFragment7", alias: None, description: "Mask Shard 7 (Fragment)", tooltip: Some("Splits when getting 7th Mask Shard") },
        98 => RadioButtonOption { value: Split::Mask2, key: "Mask2", alias: None, description: "Mask Upgrade 8 (Upgrade)", tooltip: Some("Splits when getting 2 extra Masks (7 base HP)") },
        99 => RadioButtonOption { value: Split::MaskFragment9, key: "MaskFragment9", alias: None, description: "Mask Shard 9 (Fragment)", tooltip: Some("Splits when getting 9th Mask Shard") },
        100 => RadioButtonOption { value: Split::MaskFragment10, key: "MaskFragment10", alias: None, description: "Mask Shard 10 (Fragment)", tooltip: Some("Splits when getting 10th Mask Shard") },
        101 => RadioButtonOption { value: Split::MaskFragment11, key: "MaskFragment11", alias: None, description: "Mask Shard 11 (Fragment)", tooltip: Some("Splits when getting 11th Mask Shard") },
        102 => RadioButtonOption { value: Split::Mask3, key: "Mask3", alias: None, description: "Mask Upgrade 12 (Upgrade)", tooltip: Some("Splits when getting 3 extra Masks (8 base HP)") },
        103 => RadioButtonOption { value: Split::MaskFragment13, key: "MaskFragment13", alias: None, description: "Mask Shard 13 (Fragment)", tooltip: Some("Splits when getting 13th Mask Shard") },
        104 => RadioButtonOption { value: Split::MaskFragment14, key: "MaskFragment14", alias: None, description: "Mask Shard 14 (Fragment)", tooltip: Some("Splits when getting 14th Mask Shard") },
        105 => RadioButtonOption { value: Split::MaskFragment15, key: "MaskFragment15", alias: None, description: "Mask Shard 15 (Fragment)", tooltip: Some("Splits when getting 15th Mask Shard") },
        106 => RadioButtonOption { value: Split::Mask4, key: "Mask4", alias: None, description: "Mask Upgrade 16 (Upgrade)", tooltip: Some("Splits when getting 4 extra Masks (9 base HP)") },
        107 => RadioButtonOption { value: Split::MaskShardMawlek, key: "MaskShardMawlek", alias: None, description: "Brooding Mawlek Mask Shard (Obtain)", tooltip: Some("Splits when getting the Mask Shard from Brooding Mawlek") },
        108 => RadioButtonOption { value: Split::MaskShardGrubfather, key: "MaskShardGrubfather", alias: None, description: "Grub Reward Mask Shard (Obtain)", tooltip: Some("Splits when getting the Mask Shard given by Grubfather") },
        109 => RadioButtonOption { value: Split::MaskShardGoam, key: "MaskShardGoam", alias: None, description: "Goam Mask Shard (Obtain)", tooltip: Some("Splits when getting the Goam Mask Shard in Forgotten Crossroads") },
        110 => RadioButtonOption { value: Split::MaskShardQueensStation, key: "MaskShardQueensStation", alias: None, description: "Queen's Station Mask Shard (Obtain)", tooltip: Some("Splits when getting the Mask Shard in Queen's Station") },
        111 => RadioButtonOption { value: Split::MaskShardBretta, key: "MaskShardBretta", alias: None, description: "Bretta Mask Shard (Obtain)", tooltip: Some("Splits when getting the Mask Shard in Bretta's hut in Dirtmouth") },
        112 => RadioButtonOption { value: Split::MaskShardStoneSanctuary, key: "MaskShardStoneSanctuary", alias: None, description: "Stone Sanctuary Mask Shard (Obtain)", tooltip: Some("Splits when getting the Mask Shard in Stone Sanctuary") },
        113 => RadioButtonOption { value: Split::MaskShardWaterways, key: "MaskShardWaterways", alias: None, description: "Waterways Mask Shard (Obtain)", tooltip: Some("Splits when getting the Mask Shard in Royal Wayerways") },
        114 => RadioButtonOption { value: Split::MaskShardFungalCore, key: "MaskShardFungalCore", alias: None, description: "Fungal Core Mask Shard (Obtain)", tooltip: Some("Splits when getting the Mask Shard below Fungal Core") },
        115 => RadioButtonOption { value: Split::MaskShardEnragedGuardian, key: "MaskShardEnragedGuardian", alias: None, description: "Enraged Guardian Mask Shard (Obtain)", tooltip: Some("Splits when getting the Mask Shard from Enraged Guardian") },
        116 => RadioButtonOption { value: Split::MaskShardHive, key: "MaskShardHive", alias: None, description: "Hive Mask Shard (Obtain)", tooltip: Some("Splits when getting the Mask Shard in the Hive") },
        117 => RadioButtonOption { value: Split::MaskShardSeer, key: "MaskShardSeer", alias: None, description: "Seer Mask Shard (Obtain)", tooltip: Some("Splits when getting the Mask Shard from Seer") },
        118 => RadioButtonOption { value: Split::MaskShardFlower, key: "MaskShardFlower", alias: None, description: "Grey Mourner Mask Shard (Obtain)", tooltip: Some("Splits when getting the Mask Shard from Grey Mourner") },
        119 => RadioButtonOption { value: Split::OnObtainVesselFragment, key: "OnObtainVesselFragment", alias: None, description: "Vessel Fragment (Obtain)", tooltip: Some("Splits when obtaining a Vessel Fragment or on upgrade for full Soul Vessel") },
        120 => RadioButtonOption { value: Split::VesselFragment1, key: "VesselFragment1", alias: None, description: "Vessel Fragment 1 (Fragment)", tooltip: Some("Splits when getting 1st Soul Vessel Fragment") },
        121 => RadioButtonOption { value: Split::VesselFragment2, key: "VesselFragment2", alias: None, description: "Vessel Fragment 2 (Fragment)", tooltip: Some("Splits when getting 2nd Soul Vessel Fragment") },
        122 => RadioButtonOption { value: Split::Vessel1, key: "Vessel1", alias: None, description: "Soul Vessel 1 (Upgrade)", tooltip: Some("Splits when upgrading to 1 Soul Vessel (3 Soul Vessel Fragments)") },
        123 => RadioButtonOption { value: Split::VesselFragment4, key: "VesselFragment4", alias: None, description: "Vessel Fragment 4 (Fragment)", tooltip: Some("Splits when getting 4th Soul Vessel Fragment") },
        124 => RadioButtonOption { value: Split::VesselFragment5, key: "VesselFragment5", alias: None, description: "Vessel Fragment 5 (Fragment)", tooltip: Some("Splits when getting 5th Soul Vessel Fragment") },
        125 => RadioButtonOption { value: Split::Vessel2, key: "Vessel2", alias: None, description: "Soul Vessel 2 (Upgrade)", tooltip: Some("Splits when upgrading to 2 Soul Vessels (6 Soul Vessel Fragments)") },
        126 => RadioButtonOption { value: Split::VesselFragment7, key: "VesselFragment7", alias: None, description: "Vessel Fragment 7 (Fragment)", tooltip: Some("Splits when getting 7th Soul Vessel Fragment") },
        127 => RadioButtonOption { value: Split::VesselFragment8, key: "VesselFragment8", alias: None, description: "Vessel Fragment 8 (Fragment)", tooltip: Some("Splits when getting 8th Soul Vessel Fragment") },
        128 => RadioButtonOption { value: Split::Vessel3, key: "Vessel3", alias: None, description: "Soul Vessel 3 (Upgrade)", tooltip: Some("Splits when upgrading to 3 Soul Vessels (9 Soul Vessel Fragments)") },
        129 => RadioButtonOption { value: Split::VesselFragGreenpath, key: "VesselFragGreenpath", alias: None, description: "Greenpath Vessel Fragment (Obtain)", tooltip: Some("Splits when getting Vessel Fragment in Greenpath") },
        130 => RadioButtonOption { value: Split::VesselFragCrossroadsLift, key: "VesselFragCrossroadsLift", alias: None, description: "Crossroads Vessel Fragment (Obtain)", tooltip: Some("Splits when getting the Vessel Fragment in Forgotten Crossroads") },
        131 => RadioButtonOption { value: Split::VesselFragKingsStation, key: "VesselFragKingsStation", alias: None, description: "King's Station Vessel Fragment (Obtain)", tooltip: Some("Splits when getting the Vessel Fragment after the arena above King's Station") },
        132 => RadioButtonOption { value: Split::VesselFragGarpedes, key: "VesselFragGarpedes", alias: None, description: "Deepnest Vessel Fragment (Obtain)", tooltip: Some("Splits when getting the Vessel Fragment in Deepnest") },
        133 => RadioButtonOption { value: Split::VesselFragStagNest, key: "VesselFragStagNest", alias: None, description: "Stag Nest Vessel Fragment (Obtain)", tooltip: Some("Splits when getting the Vessel Fragment in Stag Nest") },
        134 => RadioButtonOption { value: Split::VesselFragSeer, key: "VesselFragSeer", alias: None, description: "Seer Vessel Fragment (Obtain)", tooltip: Some("Splits when getting the Vessel Fragment from Seer") },
        135 => RadioButtonOption { value: Split::VesselFragFountain, key: "VesselFragFountain", alias: None, description: "Basin Fountain Vessel Fragment (Obtain)", tooltip: Some("Splits when getting the Vessel Fragment from the fountain in Ancient Basin") },
        136 => RadioButtonOption { value: Split::NotchShrumalOgres, key: "NotchShrumalOgres", alias: None, description: "Shrumal Ogres (Charm Notch)", tooltip: Some("Splits when obtaining the charm notch after defeating the Shrumal Ogres") },
        137 => RadioButtonOption { value: Split::NotchSalubra1, key: "NotchSalubra1", alias: None, description: "Salubra 1 (Charm Notch)", tooltip: Some("Splits when obtaining the first charm notch from Salubra") },
        138 => RadioButtonOption { value: Split::NotchSalubra2, key: "NotchSalubra2", alias: None, description: "Salubra 2 (Charm Notch)", tooltip: Some("Splits when obtaining the second charm notch from Salubra") },
        139 => RadioButtonOption { value: Split::NotchSalubra3, key: "NotchSalubra3", alias: None, description: "Salubra 3 (Charm Notch)", tooltip: Some("Splits when obtaining the third charm notch from Salubra") },
        140 => RadioButtonOption { value: Split::NotchSalubra4, key: "NotchSalubra4", alias: None, description: "Salubra 4 (Charm Notch)", tooltip: Some("Splits when obtaining the fourth charm notch from Salubra") },
        141 => RadioButtonOption { value: Split::NotchFogCanyon, key: "NotchFogCanyon", alias: None, description: "Fog Canyon (Charm Notch)", tooltip: Some("Splits when obtaining the charm notch in Fog Canyon") },
        142 => RadioButtonOption { value: Split::NotchGrimm, key: "NotchGrimm", alias: None, description: "Grimm (Charm Notch)", tooltip: Some("Splits when obtaining the charm notch after Grimm") },
        _ => RadioButtonOption { value: Split::OnObtainCharmNotch, key: "OnObtainCharmNotch", alias: None, description: "Charm Notch (Obtain)", tooltip: Some("Splits when obtaining a new Charm Slot") },
    }
}

fn split_option_chunk_2_exec(i: usize) -> (r: RadioButtonOption<'static, Split>)
    ensures
        r == split_option_chunk_2(i),
{
    match i {
        96 => RadioButtonOption { value: Split::MaskFragment6, key: "MaskFragment6", alias: None, description: "Mask Shard 6 (Fragment)", tooltip: Some("Splits when getting 6th Mask Shard") },
        97 => RadioButtonOption { value: Split::MaskFragment7, key: "MaskFragment7", alias: None, description: "Mask Shard 7 (Fragment)", tooltip: Some("Splits when getting 7th Mask Shard") },
        98 => RadioButtonOption { value: Split::Mask2, key: "Mask2", alias: None, description: "Mask Upgrade 8 (Upgrade)", tooltip: Some("Splits when getting 2 extra Masks (7 base HP)") },
        99 => RadioButtonOption { value: Split::MaskFragment9, key: "MaskFragment9", alias: None, description: "Mask Shard 9 (Fragment)", tooltip: Some("Splits when getting 9th Mask Shard") },
        100 => RadioButtonOption { value: Split::MaskFragment10, key: "MaskFragment10", alias: None, description: "Mask Shard 10 (Fragment)", tooltip: Some("Splits when getting 10th Mask Shard") },
        101 => RadioButtonOption { value: Split::MaskFragment11, key: "MaskFragment11", alias: None, description: "Mask Shard 11 (Fragment)", tooltip: Some("Splits when getting 11th Mask Shard") },
        102 => RadioButtonOption { value: Split::Mask3, key: "Mask3", alias: None, description: "Mask Upgrade 12 (Upgrade)", tooltip: Some("Splits when getting 3 extra Masks (8 base HP)") },
        103 => RadioButtonOption { value: Split::MaskFragment13, key: "MaskFragment13", alias: None, description: "Mask Shard 13 (Fragment)", tooltip: Some("Splits when getting 13th Mask Shard") },
        104 => RadioButtonOption { value: Split::MaskFragment14, key: "MaskFragment14", alias: None, description: "Mask Shard 14 (Fragment)", tooltip: Some("Splits when getting 14th Mask Shard") },
        105 => RadioButtonOption { value: Split::MaskFragment15, key: "MaskFragment15", alias: None, description: "Mask Shard 15 (Fragment)", tooltip: Some("Splits when getting 15th Mask Shard") },
        106 => RadioButtonOption { value: Split::Mask4, key: "Mask4", alias: None, description: "Mask Upgrade 16 (Upgrade)", tooltip: Some("Splits when getting 4 extra Masks (9 base HP)") },
        107 => RadioButtonOption { value: Split::MaskShardMawlek, key: "MaskShardMawlek", alias: None, description: "Brooding Mawlek Mask Shard (Obtain)", tooltip: Some("Splits when getting the Mask Shard from Brooding Mawlek") },
        108 => RadioButtonOption { value: Split::MaskShardGrubfather, key: "MaskShardGrubfather", alias: None, description: "Grub Reward Mask Shard (Obtain)", tooltip: Some("Splits when getting the Mask Shard given by Grubfather") },
        109 => RadioButtonOption { value: Split::MaskShardGoam, key: "MaskShardGoam", alias: None, description: "Goam Mask Shard (Obtain)", tooltip: Some("Splits when getting the Goam Mask Shard in Forgotten Crossroads") },
        110 => RadioButtonOption { value: Split::MaskShardQueensStation, key: "MaskShardQueensStation", alias: None, description: "Queen's Station Mask Shard (Obtain)", tooltip: Some("Splits when getting the Mask Shard in Queen's Station") },
        111 => RadioButtonOption { value: Split::MaskShardBretta, key: "MaskShardBretta", alias: None, description: "Bretta Mask Shard (Obtain)", tooltip: Some("Splits when getting the Mask Shard in Bretta's hut in Dirtmouth") },
        112 => RadioButtonOption { value: Split::MaskShardStoneSanctuary, key: "MaskShardStoneSanctuary", alias: None, description: "Stone Sanctuary Mask Shard (Obtain)", tooltip: Some("Splits when getting the Mask Shard in Stone Sanctuary") },
        113 => RadioButtonOption { value: Split::MaskShardWaterways, key: "MaskShardWaterways", alias: None, description: "Waterways Mask Shard (Obtain)", tooltip: Some("Splits when getting the Mask Shard in Royal Wayerways") },
        114 => RadioButtonOption { value: Split::MaskShardFungalCore, key: "MaskShardFungalCore", alias: None, description: "Fungal Core Mask Shard (Obtain)", tooltip: Some("Splits when getting the Mask Shard below Fungal Core") },
        115 => RadioButtonOption { value: Split::MaskShardEnragedGuardian, key: "MaskShardEnragedGuardian", alias: None, description: "Enraged Guardian Mask Shard (Obtain)", tooltip: Some("Splits when getting the Mask Shard from Enraged Guardian") },
        116 => RadioButtonOption { value: Split::MaskShardHive, key: "MaskShardHive", alias: None, description: "Hive Mask Shard (Obtain)", tooltip: Some("Splits when getting the Mask Shard in the Hive") },
        117 => RadioButtonOption { value: Split::MaskShardSeer, key: "MaskShardSeer", alias: None, description: "Seer Mask Shard (Obtain)", tooltip: Some("Splits when getting the Mask Shard from Seer") },
        118 => RadioButtonOption { value: Split::MaskShardFlower, key: "MaskShardFlower", alias: None, description: "Grey Mourner Mask Shard (Obtain)", tooltip: Some("Splits when getting the Mask Shard from Grey Mourner") },
        119 => RadioButtonOption { value: Split::OnObtainVesselFragment, key: "OnObtainVesselFragment", alias: None, description: "Vessel Fragment (Obtain)", tooltip: Some("Splits when obtaining a Vessel Fragment or on upgrade for full Soul Vessel") },
        120 => RadioButtonOption { value: Split::VesselFragment1, key: "VesselFragment1", alias: None, description: "Vessel Fragment 1 (Fragment)", tooltip: Some("Splits when getting 1st Soul Vessel Fragment") },
        121 => RadioButtonOption { value: Split::VesselFragment2, key: "VesselFragment2", alias: None, description: "Vessel Fragment 2 (Fragment)", tooltip: Some("Splits when getting 2nd Soul Vessel Fragment") },
        122 => RadioButtonOption { value: Split::Vessel1, key: "Vessel1", alias: None, description: "Soul Vessel 1 (Upgrade)", tooltip: Some("Splits when upgrading to 1 Soul Vessel (3 Soul Vessel Fragments)") },
        123 => RadioButtonOption { value: Split::VesselFragment4, key: "VesselFragment4", alias: None, description: "Vessel Fragment 4 (Fragment)", tooltip: Some("Splits when getting 4th Soul Vessel Fragment") },
        124 => RadioButtonOption { value: Split::VesselFragment5, key: "VesselFragment5", alias: None, description: "Vessel Fragment 5 (Fragment)", tooltip: Some("Splits when getting 5th Soul Vessel Fragment") },
        125 => RadioButtonOption { value: Split::Vessel2, key: "Vessel2", alias: None, description: "Soul Vessel 2 (Upgrade)", tooltip: Some("Splits when upgrading to 2 Soul Vessels (6 Soul Vessel Fragments)") },
        126 => RadioButtonOption { value: Split::VesselFragment7, key: "VesselFragment7", alias: None, description: "Vessel Fragment 7 (Fragment)", tooltip: Some("Splits when getting 7th Soul Vessel Fragment") },
        127 => RadioButtonOption { value: Split::VesselFragment8, key: "VesselFragment8", alias: None, description: "Vessel Fragment 8 (Fragment)", tooltip: Some("Splits when getting 8th Soul Vessel Fragment") },
        128 => RadioButtonOption { value: Split::Vessel3, key: "Vessel3", alias: None, description: "Soul Vessel 3 (Upgrade)", tooltip: Some("Splits when upgrading to 3 Soul Vessels (9 Soul Vessel Fragments)") },
        129 => RadioButtonOption { value: Split::VesselFragGreenpath, key: "VesselFragGreenpath", alias: None, description: "Greenpath Vessel Fragment (Obtain)", tooltip: Some("Splits when getting Vessel Fragment in Greenpath") },
        130 => RadioButtonOption { value: Split::VesselFragCrossroadsLift, key: "VesselFragCrossroadsLift", alias: None, description: "Crossroads Vessel Fragment (Obtain)", tooltip: Some("Splits when getting the Vessel Fragment in Forgotten Crossroads") },
        131 => RadioButtonOption { value: Split::VesselFragKingsStation, key: "VesselFragKingsStation", alias: None, description: "King's Station Vessel Fragment (Obtain)", tooltip: Some("Splits when getting the Vessel Fragment after the arena above King's Station") },
        132 => RadioButtonOption { value: Split::VesselFragGarpedes, key: "VesselFragGarpedes", alias: None, description: "Deepnest Vessel Fragment (Obtain)", tooltip: Some("Splits when getting the Vessel Fragment in Deepnest") },
        133 => RadioButtonOption { value: Split::VesselFragStagNest, key: "VesselFragStagNest", alias: None, description: "Stag Nest Vessel Fragment (Obtain)", tooltip: Some("Splits when getting the Vessel Fragment in Stag Nest") },
        134 => RadioButtonOption { value: Split::VesselFragSeer, key: "VesselFragSeer", alias: None, description: "Seer Vessel Fragment (Obtain)", tooltip: Some("Splits when getting the Vessel Fragment from Seer") },
        135 => RadioButtonOption { value: Split::VesselFragFountain, key: "VesselFragFountain", alias: None, description: "Basin Fountain Vessel Fragment (Obtain)", tooltip: Some("Splits when getting the Vessel Fragment from the fountain in Ancient Basin") },
        136 => RadioButtonOption { value: Split::NotchShrumalOgres, key: "NotchShrumalOgres", alias: None, description: "Shrumal Ogres (Charm Notch)", tooltip: Some("Splits when obtaining the charm notch after defeating the Shrumal Ogres") },
        137 => RadioButtonOption { value: Split::NotchSalubra1, key: "NotchSalubra1", alias: None, description: "Salubra 1 (Charm Notch)", tooltip: Some("Splits when obtaining the first charm notch from Salubra") },
        138 => RadioButtonOption { value: Split::NotchSalubra2, key: "NotchSalubra2", alias: None, description: "Salubra 2 (Charm Notch)", tooltip: Some("Splits when obtaining the second charm notch from Salubra") },
        139 => RadioButtonOption { value: Split::NotchSalubra3, key: "NotchSalubra3", alias: None, description: "Salubra 3 (Charm Notch)", tooltip: Some("Splits when obtaining the third charm notch from Salubra") },
        140 => RadioButtonOption { value: Split::NotchSalubra4, key: "NotchSalubra4", alias: None, description: "Salubra 4 (Charm Notch)", tooltip: Some("Splits when obtaining the fourth charm notch from Salubra") },
        141 => RadioButtonOption { value: Split::NotchFogCanyon, key: "NotchFogCanyon", alias: None, description: "Fog Canyon (Charm Notch)", tooltip: Some("Splits when obtaining the charm notch in Fog Canyon") },
        142 => RadioButtonOption { value: Split::NotchGrimm, key: "NotchGrimm", alias: None, description: "Grimm (Charm Notch)", tooltip: Some("Splits when obtaining the charm notch after Grimm") },
        _ => RadioButtonOption { value: Split::OnObtainCharmNotch, key: "OnObtainCharmNotch", alias: None, description: "Charm Notch (Obtain)", tooltip: Some("Splits when obtaining a new Charm Slot") },
    }
}

/// The options at positions 144 to 191.
pub open spec fn split_option_chunk_3(i: usize) -> RadioButtonOption<'static, Split> {
    match i {
        144 => RadioButtonOption { value: Split::GatheringSwarm, key: "GatheringSwarm", alias: None, description: "Gathering Swarm (Charm)", tooltip: Some("Splits when obtaining the Gathering Swarm charm") },
        145 => RadioButtonOption { value: Split::WaywardCompass, key: "WaywardCompass", alias: None, description: "Wayward Compass (Charm)", tooltip: Some("Splits when obtaining Wayward Compass charm") },
        146 => RadioButtonOption { value: Split::Grubsong, key: "Grubsong", alias: None, description: "Grubsong (Charm)", tooltip: Some("Splits when obtaining the Grubsong charm") },
        147 => RadioButtonOption { value: Split::StalwartShell, key: "StalwartShell", alias: None, description: "Stalwart Shell (Charm)", tooltip: Some("Splits when obtaining Stalwart Shell charm") },
        148 => RadioButtonOption { value: Split::BaldurShell, key: "BaldurShell", alias: None, description: "Baldur Shell (Charm)", tooltip: Some("Splits when obtaining the Baldur Shell charm") },
        149 => RadioButtonOption { value: Split::FuryOfTheFallen, key: "FuryOfTheFallen", alias: None, description: "Fury of the Fallen (Charm)", tooltip: Some("Splits when obtaining the Fury of the Fallen charm") },
        150 => RadioButtonOption { value: Split::QuickFocus, key: "QuickFocus", alias: None, description: "Quick Focus (Charm)", tooltip: Some("Splits when obtaining the Quick Focus charm") },
        151 => RadioButtonOption { value: Split::LifebloodHeart, key: "LifebloodHeart", alias: None, description: "Lifeblood Heart (Charm)", tooltip: Some("Splits when obtaining the Lifeblood Heart charm") },
        152 => RadioButtonOption { value: Split::LifebloodCore, key: "LifebloodCore", alias: None, description: "Lifeblood Core (Charm)", tooltip: Some("Splits when obtaining the Lifeblood Core charm") },
        153 => RadioButtonOption { value: Split::DefendersCrest, key: "DefendersCrest", alias: None, description: "Defenders Crest (Charm)", tooltip: Some("Splits when obtaining the Defenders Crest charm") },
        154 => RadioButtonOption { value: Split::Flukenest, key: "Flukenest", alias: None, description: "Flukenest (Charm)", tooltip: Some("Splits when obtaining the Flukenest charm") },
        155 => RadioButtonOption { value: Split::ThornsOfAgony, key: "ThornsOfAgony", alias: None, description: "Thorns of Agony (Charm)", tooltip: Some("Splits when obtaining Thorns of Agony charm") },
        156 => RadioButtonOption { value: Split::MarkOfPride, key: "MarkOfPride", alias: None, description: "Mark of Pride (Charm)", tooltip: Some("Splits when obtaining the Mark of Pride charm") },
        157 => RadioButtonOption { value: Split::SteadyBody, key: "SteadyBody", alias: None, description: "Steady Body (Charm)", tooltip: Some("Splits when obtaining the Steady Body charm") },
        158 => RadioButtonOption { value: Split::HeavyBlow, key: "HeavyBlow", alias: None, description: "Heavy Blow (Charm)", tooltip: Some("Splits when obtaining the Heavy Blow charm") },
        159 => RadioButtonOption { value: Split::SharpShadow, key: "SharpShadow", alias: None, description: "Sharp Shadow (Charm)", tooltip: Some("Splits when obtaining Sharp Shadow charm") },
        160 => RadioButtonOption { value: Split::SporeShroom, key: "SporeShroom", alias: None, description: "Spore Shroom (Charm)", tooltip: Some("Splits when obtaining the Spore Shroom charm") },
        161 => RadioButtonOption { value: Split::Longnail, key: "Longnail", alias: None, description: "Longnail (Charm)", tooltip: Some("Splits when obtaining the Longnail charm") },
        162 => RadioButtonOption { value: Split::ShamanStone, key: "ShamanStone", alias: None, description: "Shaman Stone (Charm)", tooltip: Some("Splits when obtaining Shaman Stone charm") },
        163 => RadioButtonOption { value: Split::SoulCatcher, key: "SoulCatcher", alias: None, description: "Soul Catcher (Charm)", tooltip: Some("Splits when obtaining the Soul Catcher charm") },
        164 => RadioButtonOption { value: Split::SoulEater, key: "SoulEater", alias: None, description: "Soul Eater (Charm)", tooltip: Some("Splits when obtaining the Soul Eater charm") },
        165 => RadioButtonOption { value: Split::GlowingWomb, key: "GlowingWomb", alias: None, description: "Glowing Womb (Charm)", tooltip: Some("Splits when obtaining the Glowing Womb charm") },
        166 => RadioButtonOption { value: Split::NailmastersGlory, key: "NailmastersGlory", alias: None, description: "Nailmaster's Glory (Charm)", tooltip: Some("Splits when obtaining the Nailmaster's Glory charm") },
        167 => RadioButtonOption { value: Split::JonisBlessing, key: "JonisBlessing", alias: None, description: "Joni's Blessing (Charm)", tooltip: Some("Splits when obtaining the Joni's Blessing charm") },
        168 => RadioButtonOption { value: Split::ShapeOfUnn, key: "ShapeOfUnn", alias: None, description: "Shape of Unn (Charm)", tooltip: Some("Splits when obtaining Shape of Unn charm") },
        169 => RadioButtonOption { value: Split::Hiveblood, key: "Hiveblood", alias: None, description: "Hiveblood (Charm)", tooltip: Some("Splits when obtaining the Hiveblood charm") },
        170 => RadioButtonOption { value: Split::DreamWielder, key: "DreamWielder", alias: None, description: "Dream Wielder (Charm)", tooltip: Some("Splits when obtaining the Dream Wielder charm") },
        171 => RadioButtonOption { value: Split::Dashmaster, key: "Dashmaster", alias: None, description: "Dashmaster (Charm)", tooltip: Some("Splits when obtaining the Dashmaster charm") },
        172 => RadioButtonOption { value: Split::MenuDashmaster, key: "MenuDashmaster", alias: None, description: "Main Menu w/ Dashmaster (Menu)", tooltip: Some("Splits on transition to the main menu after Dashmaster acquired") },
        173 => RadioButtonOption { value: Split::QuickSlash, key: "QuickSlash", alias: None, description: "Quick Slash (Charm)", tooltip: Some("Splits when obtaining the Quick Slash charm") },
        174 => RadioButtonOption { value: Split::SpellTwister, key: "SpellTwister", alias: None, description: "Spell Twister (Charm)", tooltip: Some("Splits when obtaining the Spell Twister charm") },
        175 => RadioButtonOption { value: Split::DeepFocus, key: "DeepFocus", alias: None, description: "Deep Focus (Charm)", tooltip: Some("Splits when obtaining the Deep Focus charm") },
        176 => RadioButtonOption { value: Split::GrubberflysElegy, key: "GrubberflysElegy", alias: None, description: "Grubberfly's Elegy (Charm)", tooltip: Some("Splits when obtaining the Grubberfly's Elegy charm") },
        177 => RadioButtonOption { value: Split::Sprintmaster, key: "Sprintmaster", alias: None, description: "Sprintmaster (Charm)", tooltip: Some("Splits when obtaining the Sprintmaster charm") },
        178 => RadioButtonOption { value: Split::Dreamshield, key: "Dreamshield", alias: None, description: "Dreamshield (Charm)", tooltip: Some("Splits when obtaining the Dreamshield charm") },
        179 => RadioButtonOption { value: Split::Weaversong, key: "Weaversong", alias: None, description: "Weaversong (Charm)", tooltip: Some("Splits when obtaining the Weaversong charm") },
        180 => RadioButtonOption { value: Split::FragileHeart, key: "FragileHeart", alias: None, description: "Fragile Heart (Charm)", tooltip: Some("Splits when obtaining the Fragile Heart charm") },
        181 => RadioButtonOption { value: Split::UnbreakableHeart, key: "UnbreakableHeart", alias: None, description: "Unbreakable Heart (Charm)", tooltip: Some("Splits when obtaining the Unbreakable Heart charm") },
        182 => RadioButtonOption { value: Split::FragileGreed, key: "FragileGreed", alias: None, description: "Fragile Greed (Charm)", tooltip: Some("Splits when obtaining the Fragile Greed charm") },
        183 => RadioButtonOption { value: Split::UnbreakableGreed, key: "UnbreakableGreed", alias: None, description: "Unbreakable Greed (Charm)", tooltip: Some("Splits when obtaining the Unbreakable Greed charm") },
        184 => RadioButtonOption { value: Split::FragileStrength, key: "FragileStrength", alias: None, description: "Fragile Strength (Charm)", tooltip: Some("Splits when obtaining the Fragile Strength charm") },
        185 => RadioButtonOption { value: Split::UnbreakableStrength, key: "UnbreakableStrength", alias: None, description: "Unbreakable Strength (Charm)", tooltip: Some("Splits when obtaining the Unbreakable Strength charm") },
        186 => RadioButtonOption { value: Split::AllBreakables, key: "AllBreakables", alias: None, description: "All Breakables (Event)", tooltip: Some("Splits when all 3 fragile charms are broken") },
        187 => RadioButtonOption { value: Split::AllUnbreakables, key: "AllUnbreakables", alias: None, description: "All Unbreakables (Charm)", tooltip: Some("Splits when all 3 unbreakable charms are obtained") },
        188 => RadioButtonOption { value: Split::Grimmchild, key: "Grimmchild", alias: None, description: "Grimmchild (Charm)", tooltip: Some("Splits when obtaining the Grimmchild charm") },
        189 => RadioButtonOption { value: Split::Grimmchild2, key: "Grimmchild2", alias: None, description: "Grimmchild Lvl 2 (Charm)", tooltip: Some("Splits when upgrading Grimmchild to level 2") },
        190 => RadioButtonOption { value: Split::Grimmchild3, key: "Grimmchild3", alias: None, description: "Grimmchild Lvl 3 (Charm)", tooltip: Some("Splits when upgrading Grimmchild to level 3") },
        _ => RadioButtonOption { value: Split::Grimmchild4, key: "Grimmchild4", alias: None, description: "Grimmchild Lvl 4 (Charm)", tooltip: Some("Splits when upgrading Grimmchild to level 4") },
    }
}

fn split_option_chunk_3_exec(i: usize) -> (r: RadioButtonOption<'static, Split>)
    ensures
        r == split_option_chunk_3(i),
{
    match i {
        144 => RadioButtonOption { value: Split::GatheringSwarm, key: "GatheringSwarm", alias: None, description: "Gathering Swarm (Charm)", tooltip: Some("Splits when obtaining the Gathering Swarm charm") },
        145 => RadioButtonOption { value: Split::WaywardCompass, key: "WaywardCompass", alias: None, description: "Wayward Compass (Charm)", tooltip: Some("Splits when obtaining Wayward Compass charm") },
        146 => RadioButtonOption { value: Split::Grubsong, key: "Grubsong", alias: None, description: "Grubsong (Charm)", tooltip: Some("Splits when obtaining the Grubsong charm") },
        147 => RadioButtonOption { value: Split::StalwartShell, key: "StalwartShell", alias: None, description: "Stalwart Shell (Charm)", tooltip: Some("Splits when obtaining Stalwart Shell charm") },
        148 => RadioButtonOption { value: Split::BaldurShell, key: "BaldurShell", alias: None, description: "Baldur Shell (Charm)", tooltip: Some("Splits when obtaining the Baldur Shell charm") },
        149 => RadioButtonOption { value: Split::FuryOfTheFallen, key: "FuryOfTheFallen", alias: None, description: "Fury of the Fallen (Charm)", tooltip: Some("Splits when obtaining the Fury of the Fallen charm") },
        150 => RadioButtonOption { value: Split::QuickFocus, key: "QuickFocus", alias: None, description: "Quick Focus (Charm)", tooltip: Some("Splits when obtaining the Quick Focus charm") },
        151 => RadioButtonOption { value: Split::LifebloodHeart, key: "LifebloodHeart", alias: None, description: "Lifeblood Heart (Charm)", tooltip: Some("Splits when obtaining the Lifeblood Heart charm") },
        152 => RadioButtonOption { value: Split::LifebloodCore, key: "LifebloodCore", alias: None, description: "Lifeblood Core (Charm)", tooltip: Some("Splits when obtaining the Lifeblood Core charm") },
        153 => RadioButtonOption { value: Split::DefendersCrest, key: "DefendersCrest", alias: None, description: "Defenders Crest (Charm)", tooltip: Some("Splits when obtaining the Defenders Crest charm") },
        154 => RadioButtonOption { value: Split::Flukenest, key: "Flukenest", alias: None, description: "Flukenest (Charm)", tooltip: Some("Splits when obtaining the Flukenest charm") },
        155 => RadioButtonOption { value: Split::ThornsOfAgony, key: "ThornsOfAgony", alias: None, description: "Thorns of Agony (Charm)", tooltip: Some("Splits when obtaining Thorns of Agony charm") },
        156 => RadioButtonOption { value: Split::MarkOfPride, key: "MarkOfPride", alias: None, description: "Mark of Pride (Charm)", tooltip: Some("Splits when obtaining the Mark of Pride charm") },
        157 => RadioButtonOption { value: Split::SteadyBody, key: "SteadyBody", alias: None, description: "Steady Body (Charm)", tooltip: Some("Splits when obtaining the Steady Body charm") },
        158 => RadioButtonOption { value: Split::HeavyBlow, key: "HeavyBlow", alias: None, description: "Heavy Blow (Charm)", tooltip: Some("Splits when obtaining the Heavy Blow charm") },
        159 => RadioButtonOption { value: Split::SharpShadow, key: "SharpShadow", alias: None, description: "Sharp Shadow (Charm)", tooltip: Some("Splits when obtaining Sharp Shadow charm") },
        160 => RadioButtonOption { value: Split::SporeShroom, key: "SporeShroom", alias: None, description: "Spore Shroom (Charm)", tooltip: Some("Splits when obtaining the Spore Shroom charm") },
        161 => RadioButtonOption { value: Split::Longnail, key: "Longnail", alias: None, description: "Longnail (Charm)", tooltip: Some("Splits when obtaining the Longnail charm") },
        162 => RadioButtonOption { value: Split::ShamanStone, key: "ShamanStone", alias: None, description: "Shaman Stone (Charm)", tooltip: Some("Splits when obtaining Shaman Stone charm") },
        163 => RadioButtonOption { value: Split::SoulCatcher, key: "SoulCatcher", alias: None, description: "Soul Catcher (Charm)", tooltip: Some("Splits when obtaining the Soul Catcher charm") },
        164 => RadioButtonOption { value: Split::SoulEater, key: "SoulEater", alias: None, description: "Soul Eater (Charm)", tooltip: Some("Splits when obtaining the Soul Eater charm") },
        165 => RadioButtonOption { value: Split::GlowingWomb, key: "GlowingWomb", alias: None, description: "Glowing Womb (Charm)", tooltip: Some("Splits when obtaining the Glowing Womb charm") },
        166 => RadioButtonOption { value: Split::NailmastersGlory, key: "NailmastersGlory", alias: None, description: "Nailmaster's Glory (Charm)", tooltip: Some("Splits when obtaining the Nailmaster's Glory charm") },
        167 => RadioButtonOption { value: Split::JonisBlessing, key: "JonisBlessing", alias: None, description: "Joni's Blessing (Charm)", tooltip: Some("Splits when obtaining the Joni's Blessing charm") },
        168 => RadioButtonOption { value: Split::ShapeOfUnn, key: "ShapeOfUnn", alias: None, description: "Shape of Unn (Charm)", tooltip: Some("Splits when obtaining Shape of Unn charm") },
        169 => RadioButtonOption { value: Split::Hiveblood, key: "Hiveblood", alias: None, description: "Hiveblood (Charm)", tooltip: Some("Splits when obtaining the Hiveblood charm") },
        170 => RadioButtonOption { value: Split::DreamWielder, key: "DreamWielder", alias: None, description: "Dream Wielder (Charm)", tooltip: Some("Splits when obtaining the Dream Wielder charm") },
        171 => RadioButtonOption { value: Split::Dashmaster, key: "Dashmaster", alias: None, description: "Dashmaster (Charm)", tooltip: Some("Splits when obtaining the Dashmaster charm") },
        172 => RadioButtonOption { value: Split::MenuDashmaster, key: "MenuDashmaster", alias: None, description: "Main Menu w/ Dashmaster (Menu)", tooltip: Some("Splits on transition to the main menu after Dashmaster acquired") },
        173 => RadioButtonOption { value: Split::QuickSlash, key: "QuickSlash", alias: None, description: "Quick Slash (Charm)", tooltip: Some("Splits when obtaining the Quick Slash charm") },
        174 => RadioButtonOption { value: Split::SpellTwister, key: "SpellTwister", alias: None, description: "Spell Twister (Charm)", tooltip: Some("Splits when obtaining the Spell Twister charm") },
        175 => RadioButtonOption { value: Split::DeepFocus, key: "DeepFocus", alias: None, description: "Deep Focus (Charm)", tooltip: Some("Splits when obtaining the Deep Focus charm") },
        176 => RadioButtonOption { value: Split::GrubberflysElegy, key: "GrubberflysElegy", alias: None, description: "Grubberfly's Elegy (Charm)", tooltip: Some("Splits when obtaining the Grubberfly's Elegy charm") },
        177 => RadioButtonOption { value: Split::Sprintmaster, key: "Sprintmaster", alias: None, description: "Sprintmaster (Charm)", tooltip: Some("Splits when obtaining the Sprintmaster charm") },
        178 => RadioButtonOption { value: Split::Dreamshield, key: "Dreamshield", alias: None, description: "Dreamshield (Charm)", tooltip: Some("Splits when obtaining the Dreamshield charm") },
        179 => RadioButtonOption { value: Split::Weaversong, key: "Weaversong", alias: None, description: "Weaversong (Charm)", tooltip: Some("Splits when obtaining the Weaversong charm") },
        180 => RadioButtonOption { value: Split::FragileHeart, key: "FragileHeart", alias: None, description: "Fragile Heart (Charm)", tooltip: Some("Splits when obtaining the Fragile Heart charm") },
        181 => RadioButtonOption { value: Split::UnbreakableHeart, key: "UnbreakableHeart", alias: None, description: "Unbreakable Heart (Charm)", tooltip: Some("Splits when obtaining the Unbreakable Heart charm") },
        182 => RadioButtonOption { value: Split::FragileGreed, key: "FragileGreed", alias: None, description: "Fragile Greed (Charm)", tooltip: Some("Splits when obtaining the Fragile Greed charm") },
        183 => RadioButtonOption { value: Split::UnbreakableGreed, key: "UnbreakableGreed", alias: None, description: "Unbreakable Greed (Charm)", tooltip: Some("Splits when obtaining the Unbreakable Greed charm") },
        184 => RadioButtonOption { value: Split::FragileStrength, key: "FragileStrength", alias: None, description: "Fragile Strength (Charm)", tooltip: Some("Splits when obtaining the Fragile Strength charm") },
        185 => RadioButtonOption { value: Split::UnbreakableStrength, key: "UnbreakableStrength", alias: None, description: "Unbreakable Strength (Charm)", tooltip: Some("Splits when obtaining the Unbreakable Strength charm") },
        186 => RadioButtonOption { value: Split::AllBreakables, key: "AllBreakables", alias: None, description: "All Breakables (Event)", tooltip: Some("Splits when all 3 fragile charms are broken") },
        187 => RadioButtonOption { value: Split::AllUnbreakables, key: "AllUnbreakables", alias: None, description: "All Unbreakables (Charm)", tooltip: Some("Splits when all 3 unbreakable charms are obtained") },
        188 => RadioButtonOption { value: Split::Grimmchild, key: "Grimmchild", alias: None, description: "Grimmchild (Charm)", tooltip: Some("Splits when obtaining the Grimmchild charm") },
        189 => RadioButtonOption { value: Split::Grimmchild2, key: "Grimmchild2", alias: None, description: "Grimmchild Lvl 2 (Charm)", tooltip: Some("Splits when upgrading Grimmchild to level 2") },
        190 => RadioButtonOption { value: Split::Grimmchild3, key: "Grimmchild3", alias: None, description: "Grimmchild Lvl 3 (Charm)", tooltip: Some("Splits when upgrading Grimmchild to level 3") },
        _ => RadioButtonOption { value: Split::Grimmchild4, key: "Grimmchild4", alias: None, description: "Grimmchild Lvl 4 (Charm)", tooltip: Some("Splits when upgrading Grimmchild to level 4") },
    }
}

/// The options at positions 192 to 239.
pub open spec fn split_option_chunk_4(i: usize) -> RadioButtonOption<'static, Split> {
    match i {
        192 => RadioButtonOption { value: Split::CarefreeMelody, key: "CarefreeMelody", alias: None, description: "Carefree Melody (Charm)", tooltip: Some("Splits when obtaining the Carefree Melody charm") },
        193 => RadioButtonOption { value: Split::Flame1, key: "Flame1", alias: None, description: "Grimm Flame 1 (Flame)", tooltip: Some("Splits after obtaining the first flame.") },
        194 => RadioButtonOption { value: Split::Flame2, key: "Flame2", alias: None, description: "Grimm Flame 2 (Flame)", tooltip: Some("Splits after obtaining the second flame.") },
        195 => RadioButtonOption { value: Split::Flame3, key: "Flame3", alias: None, description: "Grimm Flame 3 (Flame)", tooltip: Some("Splits after obtaining the third flame.") },
        196 => RadioButtonOption { value: Split::BrummFlame, key: "BrummFlame", alias: None, description: "Brumm Flame (NPC)", tooltip: Some("Splits when collecting Brumm's flame in Deepnest") },
        197 => RadioButtonOption { value: Split::WhiteFragmentLeft, key: "WhiteFragmentLeft", alias: None, description: "White Fragment - Queen's (Charm)", tooltip: Some("Splits on picking up the left White Fragment from the White Lady") },
        198 => RadioButtonOption { value: Split::WhiteFragmentRight, key: "WhiteFragmentRight", alias: None, description: "White Fragment - King's (Charm)", tooltip: Some("Splits on picking up the right White Fragment from the Pale King") },
        199 => RadioButtonOption { value: Split::OnObtainWhiteFragment, key: "OnObtainWhiteFragment", alias: None, description: "White Fragment (Obtain)", tooltip: Some("Splits when obtaining any White Fragment, or Void Heart") },
        200 => RadioButtonOption { value: Split::Kingsoul, key: "Kingsoul", alias: None, description: "Kingsoul (Charm)", tooltip: Some("Splits when obtaining the completed Kingsoul charm") },
        201 => RadioButtonOption { value: Split::VoidHeart, key: "VoidHeart", alias: None, description: "Void Heart (Charm)", tooltip: Some("Splits when changing the Kingsoul to the Void Heart charm") },
        202 => RadioButtonOption { value: Split::MenuVoidHeart, key: "MenuVoidHeart", alias: None, description: "Main Menu w/ Void Heart (Menu)", tooltip: Some("Splits on transition to the main menu after Void Heart acquired") },
        203 => RadioButtonOption { value: Split::RidingStag, key: "RidingStag", alias: None, description: "Riding Stag (Event)", tooltip: Some("Splits while riding the stag") },
        204 => RadioButtonOption { value: Split::StagMoved, key: "StagMoved", alias: None, description: "Stag Position Updated (Event)", tooltip: Some("Splits when the stag is called") },
        205 => RadioButtonOption { value: Split::CrossroadsStation, key: "CrossroadsStation", alias: None, description: "Forgotten Crossroads (Stag Station)", tooltip: Some("Splits when opening the Forgotten Crossroads Stag Station") },
        206 => RadioButtonOption { value: Split::GreenpathStation, key: "GreenpathStation", alias: None, description: "Greenpath (Stag Station)", tooltip: Some("Splits when obtaining Greenpath Stag Station") },
        207 => RadioButtonOption { value: Split::QueensStationStation, key: "QueensStationStation", alias: None, description: "Queen's Station (Stag Station)", tooltip: Some("Splits when obtaining Queen's Station Stag Station") },
        208 => RadioButtonOption { value: Split::StoreroomsStation, key: "StoreroomsStation", alias: None, description: "City Storerooms (Stag Station)", tooltip: Some("Splits when obtaining City Storerooms Stag Station") },
        209 => RadioButtonOption { value: Split::KingsStationStation, key: "KingsStationStation", alias: None, description: "King's Station (Stag Station)", tooltip: Some("Splits when obtaining King's Station Stag Station") },
        210 => RadioButtonOption { value: Split::RestingGroundsStation, key: "RestingGroundsStation", alias: None, description: "Resting Grounds (Stag Station)", tooltip: Some("Splits when obtaining Resting Grounds Stag Station") },
        211 => RadioButtonOption { value: Split::HiddenStationStation, key: "HiddenStationStation", alias: None, description: "Hidden Station (Stag Station)", tooltip: Some("Splits when obtaining to Hidden Station Stag Station") },
        212 => RadioButtonOption { value: Split::DeepnestStation, key: "DeepnestStation", alias: None, description: "Distant Village (Stag Station)", tooltip: Some("Splits when obtaining Distant Village Stag Station") },
        213 => RadioButtonOption { value: Split::QueensGardensStation, key: "QueensGardensStation", alias: None, description: "Queen's Gardens (Stag Station)", tooltip: Some("Splits when obtaining Queen's Gardens Stag Station") },
        214 => RadioButtonOption { value: Split::StagnestStation, key: "StagnestStation", alias: None, description: "Stagnest (Stag Station)", tooltip: Some("Splits when traveling to Stagnest (Requires Ordered Splits)") },
        215 => RadioButtonOption { value: Split::OnObtainWanderersJournal, key: "OnObtainWanderersJournal", alias: None, description: "Wanderer's Journal (Obtain)", tooltip: Some("Splits when obtaining a Wanderer's Journal") },
        216 => RadioButtonOption { value: Split::AllSeals, key: "AllSeals", alias: None, description: "All Seals (Item)", tooltip: Some("Splits when 17 Hallownest Seals have been collected") },
        217 => RadioButtonOption { value: Split::OnObtainHallownestSeal, key: "OnObtainHallownestSeal", alias: None, description: "Hallownest Seal (Obtain)", tooltip: Some("Splits when obtaining a Hallownest Seal") },
        218 => RadioButtonOption { value: Split::SoulSanctumSeal, key: "SoulSanctumSeal", alias: None, description: "Soul Sanctum Hallownest Seal (Relic)", tooltip: Some("Splits when the Hallownest Seal in Soul Sanctum is collected") },
        219 => RadioButtonOption { value: Split::OnObtainKingsIdol, key: "OnObtainKingsIdol", alias: None, description: "King's Idol (Obtain)", tooltip: Some("Splits when obtaining a King's Idol") },
        220 => RadioButtonOption { value: Split::GladeIdol, key: "GladeIdol", alias: None, description: "Glade Idol (Item)", tooltip: Some("Splits when picking up the King's Idol in the Spirits' Glade") },
        221 => RadioButtonOption { value: Split::DungDefenderIdol, key: "DungDefenderIdol", alias: None, description: "Dung Defender Idol (Item)", tooltip: Some("Splits when picking up Dung Defender idol as the first idol") },
        222 => RadioButtonOption { value: Split::ArcaneEgg8, key: "ArcaneEgg8", alias: None, description: "Arcane Egg 8 (Obtain)", tooltip: Some("Splits when obtaining 8 Arcane Eggs") },
        223 => RadioButtonOption { value: Split::OnObtainArcaneEgg, key: "OnObtainArcaneEgg", alias: None, description: "Arcane Egg (Obtain)", tooltip: Some("Splits when obtaining an Arcane Egg") },
        224 => RadioButtonOption { value: Split::OnObtainRancidEgg, key: "OnObtainRancidEgg", alias: None, description: "Rancid Egg (Obtain)", tooltip: Some("Splits when obtaining a Rancid Egg") },
        225 => RadioButtonOption { value: Split::Grub1, key: "Grub1", alias: None, description: "Rescued Grub 1 (Grub)", tooltip: Some("Splits when rescuing grub #1") },
        226 => RadioButtonOption { value: Split::Grub2, key: "Grub2", alias: None, description: "Rescued Grub 2 (Grub)", tooltip: Some("Splits when rescuing grub #2") },
        227 => RadioButtonOption { value: Split::Grub3, key: "Grub3", alias: None, description: "Rescued Grub 3 (Grub)", tooltip: Some("Splits when rescuing grub #3") },
        228 => RadioButtonOption { value: Split::Grub4, key: "Grub4", alias: None, description: "Rescued Grub 4 (Grub)", tooltip: Some("Splits when rescuing grub #4") },
        229 => RadioButtonOption { value: Split::Grub5, key: "Grub5", alias: None, description: "Rescued Grub 5 (Grub)", tooltip: Some("Splits when rescuing grub #5") },
        230 => RadioButtonOption { value: Split::Grub6, key: "Grub6", alias: None, description: "Rescued Grub 6 (Grub)", tooltip: Some("Splits when rescuing grub #6") },
        231 => RadioButtonOption { value: Split::Grub7, key: "Grub7", alias: None, description: "Rescued Grub 7 (Grub)", tooltip: Some("Splits when rescuing grub #7") },
        232 => RadioButtonOption { value: Split::Grub8, key: "Grub8", alias: None, description: "Rescued Grub 8 (Grub)", tooltip: Some("Splits when rescuing grub #8") },
        233 => RadioButtonOption { value: Split::Grub9, key: "Grub9", alias: None, description: "Rescued Grub 9 (Grub)", tooltip: Some("Splits when rescuing grub #9") },
        234 => RadioButtonOption { value: Split::Grub10, key: "Grub10", alias: None, description: "Rescued Grub 10 (Grub)", tooltip: Some("Splits when rescuing grub #10") },
        235 => RadioButtonOption { value: Split::Grub11, key: "Grub11", alias: None, description: "Rescued Grub 11 (Grub)", tooltip: Some("Splits when rescuing grub #11") },
        236 => RadioButtonOption { value: Split::Grub12, key: "Grub12", alias: None, description: "Rescued Grub 12 (Grub)", tooltip: Some("Splits when rescuing grub #12") },
        237 => RadioButtonOption { value: Split::Grub13, key: "Grub13", alias: None, description: "Rescued Grub 13 (Grub)", tooltip: Some("Splits when rescuing grub #13") },
        238 => RadioButtonOption { value: Split::Grub14, key: "Grub14", alias: None, description: "Rescued Grub 14 (Grub)", tooltip: Some("Splits when rescuing grub #14") },
        _ => RadioButtonOption { value: Split::Grub15, key: "Grub15", alias: None, description: "Rescued Grub 15 (Grub)", tooltip: Some("Splits when rescuing grub #15") },
    }
}

fn split_option_chunk_4_exec(i: usize) -> (r: RadioButtonOption<'static, Split>)
    ensures
        r == split_option_chunk_4(i),
{
    match i {
        192 => RadioButtonOption { value: Split::CarefreeMelody, key: "CarefreeMelody", alias: None, description: "Carefree Melody (Charm)", tooltip: Some("Splits when obtaining the Carefree Melody charm") },
        193 => RadioButtonOption { value: Split::Flame1, key: "Flame1", alias: None, description: "Grimm Flame 1 (Flame)", tooltip: Some("Splits after obtaining the first flame.") },
        194 => RadioButtonOption { value: Split::Flame2, key: "Flame2", alias: None, description: "Grimm Flame 2 (Flame)", tooltip: Some("Splits after obtaining the second flame.") },
        195 => RadioButtonOption { value: Split::Flame3, key: "Flame3", alias: None, description: "Grimm Flame 3 (Flame)", tooltip: Some("Splits after obtaining the third flame.") },
        196 => RadioButtonOption { value: Split::BrummFlame, key: "BrummFlame", alias: None, description: "Brumm Flame (NPC)", tooltip: Some("Splits when collecting Brumm's flame in Deepnest") },
        197 => RadioButtonOption { value: Split::WhiteFragmentLeft, key: "WhiteFragmentLeft", alias: None, description: "White Fragment - Queen's (Charm)", tooltip: Some("Splits on picking up the left White Fragment from the White Lady") },
        198 => RadioButtonOption { value: Split::WhiteFragmentRight, key: "WhiteFragmentRight", alias: None, description: "White Fragment - King's (Charm)", tooltip: Some("Splits on picking up the right White Fragment from the Pale King") },
        199 => RadioButtonOption { value: Split::OnObtainWhiteFragment, key: "OnObtainWhiteFragment", alias: None, description: "White Fragment (Obtain)", tooltip: Some("Splits when obtaining any White Fragment, or Void Heart") },
        200 => RadioButtonOption { value: Split::Kingsoul, key: "Kingsoul", alias: None, description: "Kingsoul (Charm)", tooltip: Some("Splits when obtaining the completed Kingsoul charm") },
        201 => RadioButtonOption { value: Split::VoidHeart, key: "VoidHeart", alias: None, description: "Void Heart (Charm)", tooltip: Some("Splits when changing the Kingsoul to the Void Heart charm") },
        202 => RadioButtonOption { value: Split::MenuVoidHeart, key: "MenuVoidHeart", alias: None, description: "Main Menu w/ Void Heart (Menu)", tooltip: Some("Splits on transition to the main menu after Void Heart acquired") },
        203 => RadioButtonOption { value: Split::RidingStag, key: "RidingStag", alias: None, description: "Riding Stag (Event)", tooltip: Some("Splits while riding the stag") },
        204 => RadioButtonOption { value: Split::StagMoved, key: "StagMoved", alias: None, description: "Stag Position Updated (Event)", tooltip: Some("Splits when the stag is called") },
        205 => RadioButtonOption { value: Split::CrossroadsStation, key: "CrossroadsStation", alias: None, description: "Forgotten Crossroads (Stag Station)", tooltip: Some("Splits when opening the Forgotten Crossroads Stag Station") },
        206 => RadioButtonOption { value: Split::GreenpathStation, key: "GreenpathStation", alias: None, description: "Greenpath (Stag Station)", tooltip: Some("Splits when obtaining Greenpath Stag Station") },
        207 => RadioButtonOption { value: Split::QueensStationStation, key: "QueensStationStation", alias: None, description: "Queen's Station (Stag Station)", tooltip: Some("Splits when obtaining Queen's Station Stag Station") },
        208 => RadioButtonOption { value: Split::StoreroomsStation, key: "StoreroomsStation", alias: None, description: "City Storerooms (Stag Station)", tooltip: Some("Splits when obtaining City Storerooms Stag Station") },
        209 => RadioButtonOption { value: Split::KingsStationStation, key: "KingsStationStation", alias: None, description: "King's Station (Stag Station)", tooltip: Some("Splits when obtaining King's Station Stag Station") },
        210 => RadioButtonOption { value: Split::RestingGroundsStation, key: "RestingGroundsStation", alias: None, description: "Resting Grounds (Stag Station)", tooltip: Some("Splits when obtaining Resting Grounds Stag Station") },
        211 => RadioButtonOption { value: Split::HiddenStationStation, key: "HiddenStationStation", alias: None, description: "Hidden Station (Stag Station)", tooltip: Some("Splits when obtaining to Hidden Station Stag Station") },
        212 => RadioButtonOption { value: Split::DeepnestStation, key: "DeepnestStation", alias: None, description: "Distant Village (Stag Station)", tooltip: Some("Splits when obtaining Distant Village Stag Station") },
        213 => RadioButtonOption { value: Split::QueensGardensStation, key: "QueensGardensStation", alias: None, description: "Queen's Gardens (Stag Station)", tooltip: Some("Splits when obtaining Queen's Gardens Stag Station") },
        214 => RadioButtonOption { value: Split::StagnestStation, key: "StagnestStation", alias: None, description: "Stagnest (Stag Station)", tooltip: Some("Splits when traveling to Stagnest (Requires Ordered Splits)") },
        215 => RadioButtonOption { value: Split::OnObtainWanderersJournal, key: "OnObtainWanderersJournal", alias: None, description: "Wanderer's Journal (Obtain)", tooltip: Some("Splits when obtaining a Wanderer's Journal") },
        216 => RadioButtonOption { value: Split::AllSeals, key: "AllSeals", alias: None, description: "All Seals (Item)", tooltip: Some("Splits when 17 Hallownest Seals have been collected") },
        217 => RadioButtonOption { value: Split::OnObtainHallownestSeal, key: "OnObtainHallownestSeal", alias: None, description: "Hallownest Seal (Obtain)", tooltip: Some("Splits when obtaining a Hallownest Seal") },
        218 => RadioButtonOption { value: Split::SoulSanctumSeal, key: "SoulSanctumSeal", alias: None, description: "Soul Sanctum Hallownest Seal (Relic)", tooltip: Some("Splits when the Hallownest Seal in Soul Sanctum is collected") },
        219 => RadioButtonOption { value: Split::OnObtainKingsIdol, key: "OnObtainKingsIdol", alias: None, description: "King's Idol (Obtain)", tooltip: Some("Splits when obtaining a King's Idol") },
        220 => RadioButtonOption { value: Split::GladeIdol, key: "GladeIdol", alias: None, description: "Glade Idol (Item)", tooltip: Some("Splits when picking up the King's Idol in the Spirits' Glade") },
        221 => RadioButtonOption { value: Split::DungDefenderIdol, key: "DungDefenderIdol", alias: None, description: "Dung Defender Idol (Item)", tooltip: Some("Splits when picking up Dung Defender idol as the first idol") },
        222 => RadioButtonOption { value: Split::ArcaneEgg8, key: "ArcaneEgg8", alias: None, description: "Arcane Egg 8 (Obtain)", tooltip: Some("Splits when obtaining 8 Arcane Eggs") },
        223 => RadioButtonOption { value: Split::OnObtainArcaneEgg, key: "OnObtainArcaneEgg", alias: None, description: "Arcane Egg (Obtain)", tooltip: Some("Splits when obtaining an Arcane Egg") },
        224 => RadioButtonOption { value: Split::OnObtainRancidEgg, key: "OnObtainRancidEgg", alias: None, description: "Rancid Egg (Obtain)", tooltip: Some("Splits when obtaining a Rancid Egg") },
        225 => RadioButtonOption { value: Split::Grub1, key: "Grub1", alias: None, description: "Rescued Grub 1 (Grub)", tooltip: Some("Splits when rescuing grub #1") },
        226 => RadioButtonOption { value: Split::Grub2, key: "Grub2", alias: None, description: "Rescued Grub 2 (Grub)", tooltip: Some("Splits when rescuing grub #2") },
        227 => RadioButtonOption { value: Split::Grub3, key: "Grub3", alias: None, description: "Rescued Grub 3 (Grub)", tooltip: Some("Splits when rescuing grub #3") },
        228 => RadioButtonOption { value: Split::Grub4, key: "Grub4", alias: None, description: "Rescued Grub 4 (Grub)", tooltip: Some("Splits when rescuing grub #4") },
        229 => RadioButtonOption { value: Split::Grub5, key: "Grub5", alias: None, description: "Rescued Grub 5 (Grub)", tooltip: Some("Splits when rescuing grub #5") },
        230 => RadioButtonOption { value: Split::Grub6, key: "Grub6", alias: None, description: "Rescued Grub 6 (Grub)", tooltip: Some("Splits when rescuing grub #6") },
        231 => RadioButtonOption { value: Split::Grub7, key: "Grub7", alias: None, description: "Rescued Grub 7 (Grub)", tooltip: Some("Splits when rescuing grub #7") },
        232 => RadioButtonOption { value: Split::Grub8, key: "Grub8", alias: None, description: "Rescued Grub 8 (Grub)", tooltip: Some("Splits when rescuing grub #8") },
        233 => RadioButtonOption { value: Split::Grub9, key: "Grub9", alias: None, description: "Rescued Grub 9 (Grub)", tooltip: Some("Splits when rescuing grub #9") },
        234 => RadioButtonOption { value: Split::Grub10, key: "Grub10", alias: None, description: "Rescued Grub 10 (Grub)", tooltip: Some("Splits when rescuing grub #10") },
        235 => RadioButtonOption { value: Split::Grub11, key: "Grub11", alias: None, description: "Rescued Grub 11 (Grub)", tooltip: Some("Splits when rescuing grub #11") },
        236 => RadioButtonOption { value: Split::Grub12, key: "Grub12", alias: None, description: "Rescued Grub 12 (Grub)", tooltip: Some("Splits when rescuing grub #12") },
        237 => RadioButtonOption { value: Split::Grub13, key: "Grub13", alias: None, description: "Rescued Grub 13 (Grub)", tooltip: Some("Splits when rescuing grub #13") },
        238 => RadioButtonOption { value: Split::Grub14, key: "Grub14", alias: None, description: "Rescued Grub 14 (Grub)", tooltip: Some("Splits when rescuing grub #14") },
        _ => RadioButtonOption { value: Split::Grub15, key: "Grub15", alias: None, description: "Rescued Grub 15 (Grub)", tooltip: Some("Splits when rescuing grub #15") },
    }
}

/// The options at positions 240 to 287.
pub open spec fn split_option_chunk_5(i: usize) -> RadioButtonOption<'static, Split> {
    match i {
        240 => RadioButtonOption { value: Split::Grub16, key: "Grub16", alias: None, description: "Rescued Grub 16 (Grub)", tooltip: Some("Splits when rescuing grub #16") },
        241 => RadioButtonOption { value: Split::Grub17, key: "Grub17", alias: None, description: "Rescued Grub 17 (Grub)", tooltip: Some("Splits when rescuing grub #17") },
        242 => RadioButtonOption { value: Split::Grub18, key: "Grub18", alias: None, description: "Rescued Grub 18 (Grub)", tooltip: Some("Splits when rescuing grub #18") },
        243 => RadioButtonOption { value: Split::Grub19, key: "Grub19", alias: None, description: "Rescued Grub 19 (Grub)", tooltip: Some("Splits when rescuing grub #19") },
        244 => RadioButtonOption { value: Split::Grub20, key: "Grub20", alias: None, description: "Rescued Grub 20 (Grub)", tooltip: Some("Splits when rescuing grub #20") },
        245 => RadioButtonOption { value: Split::Grub21, key: "Grub21", alias: None, description: "Rescued Grub 21 (Grub)", tooltip: Some("Splits when rescuing grub #21") },
        246 => RadioButtonOption { value: Split::Grub22, key: "Grub22", alias: None, description: "Rescued Grub 22 (Grub)", tooltip: Some("Splits when rescuing grub #22") },
        247 => RadioButtonOption { value: Split::Grub23, key: "Grub23", alias: None, description: "Rescued Grub 23 (Grub)", tooltip: Some("Splits when rescuing grub #23") },
        248 => RadioButtonOption { value: Split::Grub24, key: "Grub24", alias: None, description: "Rescued Grub 24 (Grub)", tooltip: Some("Splits when rescuing grub #24") },
        249 => RadioButtonOption { value: Split::Grub25, key: "Grub25", alias: None, description: "Rescued Grub 25 (Grub)", tooltip: Some("Splits when rescuing grub #25") },
        250 => RadioButtonOption { value: Split::Grub26, key: "Grub26", alias: None, description: "Rescued Grub 26 (Grub)", tooltip: Some("Splits when rescuing grub #26") },
        251 => RadioButtonOption { value: Split::Grub27, key: "Grub27", alias: None, description: "Rescued Grub 27 (Grub)", tooltip: Some("Splits when rescuing grub #27") },
        252 => RadioButtonOption { value: Split::Grub28, key: "Grub28", alias: None, description: "Rescued Grub 28 (Grub)", tooltip: Some("Splits when rescuing grub #28") },
        253 => RadioButtonOption { value: Split::Grub29, key: "Grub29", alias: None, description: "Rescued Grub 29 (Grub)", tooltip: Some("Splits when rescuing grub #29") },
        254 => RadioButtonOption { value: Split::Grub30, key: "Grub30", alias: None, description: "Rescued Grub 30 (Grub)", tooltip: Some("Splits when rescuing grub #30") },
        255 => RadioButtonOption { value: Split::Grub31, key: "Grub31", alias: None, description: "Rescued Grub 31 (Grub)", tooltip: Some("Splits when rescuing grub #31") },
        256 => RadioButtonOption { value: Split::Grub32, key: "Grub32", alias: None, description: "Rescued Grub 32 (Grub)", tooltip: Some("Splits when rescuing grub #32") },
        257 => RadioButtonOption { value: Split::Grub33, key: "Grub33", alias: None, description: "Rescued Grub 33 (Grub)", tooltip: Some("Splits when rescuing grub #33") },
        258 => RadioButtonOption { value: Split::Grub34, key: "Grub34", alias: None, description: "Rescued Grub 34 (Grub)", tooltip: Some("Splits when rescuing grub #34") },
        259 => RadioButtonOption { value: Split::Grub35, key: "Grub35", alias: None, description: "Rescued Grub 35 (Grub)", tooltip: Some("Splits when rescuing grub #35") },
        260 => RadioButtonOption { value: Split::Grub36, key: "Grub36", alias: None, description: "Rescued Grub 36 (Grub)", tooltip: Some("Splits when rescuing grub #36") },
        261 => RadioButtonOption { value: Split::Grub37, key: "Grub37", alias: None, description: "Rescued Grub 37 (Grub)", tooltip: Some("Splits when rescuing grub #37") },
        262 => RadioButtonOption { value: Split::Grub38, key: "Grub38", alias: None, description: "Rescued Grub 38 (Grub)", tooltip: Some("Splits when rescuing grub #38") },
        263 => RadioButtonOption { value: Split::Grub39, key: "Grub39", alias: None, description: "Rescued Grub 39 (Grub)", tooltip: Some("Splits when rescuing grub #39") },
        264 => RadioButtonOption { value: Split::Grub40, key: "Grub40", alias: None, description: "Rescued Grub 40 (Grub)", tooltip: Some("Splits when rescuing grub #40") },
        265 => RadioButtonOption { value: Split::Grub41, key: "Grub41", alias: None, description: "Rescued Grub 41 (Grub)", tooltip: Some("Splits when rescuing grub #41") },
        266 => RadioButtonOption { value: Split::Grub42, key: "Grub42", alias: None, description: "Rescued Grub 42 (Grub)", tooltip: Some("Splits when rescuing grub #42") },
        267 => RadioButtonOption { value: Split::Grub43, key: "Grub43", alias: None, description: "Rescued Grub 43 (Grub)", tooltip: Some("Splits when rescuing grub #43") },
        268 => RadioButtonOption { value: Split::Grub44, key: "Grub44", alias: None, description: "Rescued Grub 44 (Grub)", tooltip: Some("Splits when rescuing grub #44") },
        269 => RadioButtonOption { value: Split::Grub45, key: "Grub45", alias: None, description: "Rescued Grub 45 (Grub)", tooltip: Some("Splits when rescuing grub #45") },
        270 => RadioButtonOption { value: Split::Grub46, key: "Grub46", alias: None, description: "Rescued Grub 46 (Grub)", tooltip: Some("Splits when rescuing grub #46") },
        271 => RadioButtonOption { value: Split::OnObtainGrub, key: "OnObtainGrub", alias: None, description: "Rescued Any Grub (Grub)", tooltip: Some("Splits when rescuing any grub") },
        272 => RadioButtonOption { value: Split::GrubBasinDive, key: "GrubBasinDive", alias: None, description: "Rescued Grub Basin Dive (Grub)", tooltip: Some("Splits when rescuing the grub in Abyss_17") },
        273 => RadioButtonOption { value: Split::GrubBasinWings, key: "GrubBasinWings", alias: None, description: "Rescued Grub Basin Wings (Grub)", tooltip: Some("Splits when rescuing the grub in Abyss_19") },
        274 => RadioButtonOption { value: Split::GrubCityBelowLoveTower, key: "GrubCityBelowLoveTower", alias: None, description: "Rescued Grub City Below Love Tower (Grub)", tooltip: Some("Splits when rescuing the grub in Ruins2_07") },
        275 => RadioButtonOption { value: Split::GrubCityBelowSanctum, key: "GrubCityBelowSanctum", alias: None, description: "Rescued Grub City Below Sanctum (Grub)", tooltip: Some("Splits when rescuing the grub in Ruins1_05") },
        276 => RadioButtonOption { value: Split::GrubCityCollectorAll, key: "GrubCityCollectorAll", alias: None, description: "Rescued Grub City Collector All (Grub)", tooltip: Some("Splits when rescuing all three grubs in Ruins2_11. (On 1221, splits for right grub)") },
        277 => RadioButtonOption { value: Split::GrubCityCollector, key: "GrubCityCollector", alias: None, description: "Rescued Grub City Collector (Grub)", tooltip: Some("Splits when rescuing any grub in Ruins2_11") },
        278 => RadioButtonOption { value: Split::GrubCityGuardHouse, key: "GrubCityGuardHouse", alias: None, description: "Rescued Grub City Guard House (Grub)", tooltip: Some("Splits when rescuing the grub in Ruins_House_01") },
        279 => RadioButtonOption { value: Split::GrubCitySanctum, key: "GrubCitySanctum", alias: None, description: "Rescued Grub City Sanctum (Grub)", tooltip: Some("Splits when rescuing the grub in Ruins1_32") },
        280 => RadioButtonOption { value: Split::GrubCitySpire, key: "GrubCitySpire", alias: None, description: "Rescued Grub City Spire (Grub)", tooltip: Some("Splits when rescuing the grub in Ruins2_03") },
        281 => RadioButtonOption { value: Split::GrubCliffsBaldurShell, key: "GrubCliffsBaldurShell", alias: None, description: "Rescued Grub Cliffs Baldur Shell (Grub)", tooltip: Some("Splits when rescuing the grub in Fungus1_28") },
        282 => RadioButtonOption { value: Split::GrubCrossroadsAcid, key: "GrubCrossroadsAcid", alias: None, description: "Rescued Grub Crossroads Acid (Grub)", tooltip: Some("Splits when rescuing the grub in Crossroads_35") },
        283 => RadioButtonOption { value: Split::GrubCrossroadsGuarded, key: "GrubCrossroadsGuarded", alias: None, description: "Rescued Grub Crossroads Guarded (Grub)", tooltip: Some("Splits when rescuing the grub in Crossroads_48") },
        284 => RadioButtonOption { value: Split::GrubCrossroadsSpikes, key: "GrubCrossroadsSpikes", alias: None, description: "Rescued Grub Crossroads Spikes (Grub)", tooltip: Some("Splits when rescuing the grub in Crossroads_31") },
        285 => RadioButtonOption { value: Split::GrubCrossroadsVengefly, key: "GrubCrossroadsVengefly", alias: None, description: "Rescued Grub Crossroads Vengefly (Grub)", tooltip: Some("Splits when rescuing the grub in Crossroads_05") },
        286 => RadioButtonOption { value: Split::GrubCrossroadsWall, key: "GrubCrossroadsWall", alias: None, description: "Rescued Grub Crossroads Wall (Grub)", tooltip: Some("Splits when rescuing the grub in Crossroads_03") },
        _ => RadioButtonOption { value: Split::GrubCrystalPeaksBottomLever, key: "GrubCrystalPeaksBottomLever", alias: None, description: "Rescued Grub Crystal Peak Bottom Lever (Grub)", tooltip: Some("Splits when rescuing the grub in Mines_04") },
    }
}

fn split_option_chunk_5_exec(i: usize) -> (r: RadioButtonOption<'static, Split>)
    ensures
        r == split_option_chunk_5(i),
{
    match i {
        240 => RadioButtonOption { value: Split::Grub16, key: "Grub16", alias: None, description: "Rescued Grub 16 (Grub)", tooltip: Some("Splits when rescuing grub #16") },
        241 => RadioButtonOption { value: Split::Grub17, key: "Grub17", alias: None, description: "Rescued Grub 17 (Grub)", tooltip: Some("Splits when rescuing grub #17") },
        242 => RadioButtonOption { value: Split::Grub18, key: "Grub18", alias: None, description: "Rescued Grub 18 (Grub)", tooltip: Some("Splits when rescuing grub #18") },
        243 => RadioButtonOption { value: Split::Grub19, key: "Grub19", alias: None, description: "Rescued Grub 19 (Grub)", tooltip: Some("Splits when rescuing grub #19") },
        244 => RadioButtonOption { value: Split::Grub20, key: "Grub20", alias: None, description: "Rescued Grub 20 (Grub)", tooltip: Some("Splits when rescuing grub #20") },
        245 => RadioButtonOption { value: Split::Grub21, key: "Grub21", alias: None, description: "Rescued Grub 21 (Grub)", tooltip: Some("Splits when rescuing grub #21") },
        246 => RadioButtonOption { value: Split::Grub22, key: "Grub22", alias: None, description: "Rescued Grub 22 (Grub)", tooltip: Some("Splits when rescuing grub #22") },
        247 => RadioButtonOption { value: Split::Grub23, key: "Grub23", alias: None, description: "Rescued Grub 23 (Grub)", tooltip: Some("Splits when rescuing grub #23") },
        248 => RadioButtonOption { value: Split::Grub24, key: "Grub24", alias: None, description: "Rescued Grub 24 (Grub)", tooltip: Some("Splits when rescuing grub #24") },
        249 => RadioButtonOption { value: Split::Grub25, key: "Grub25", alias: None, description: "Rescued Grub 25 (Grub)", tooltip: Some("Splits when rescuing grub #25") },
        250 => RadioButtonOption { value: Split::Grub26, key: "Grub26", alias: None, description: "Rescued Grub 26 (Grub)", tooltip: Some("Splits when rescuing grub #26") },
        251 => RadioButtonOption { value: Split::Grub27, key: "Grub27", alias: None, description: "Rescued Grub 27 (Grub)", tooltip: Some("Splits when rescuing grub #27") },
        252 => RadioButtonOption { value: Split::Grub28, key: "Grub28", alias: None, description: "Rescued Grub 28 (Grub)", tooltip: Some("Splits when rescuing grub #28") },
        253 => RadioButtonOption { value: Split::Grub29, key: "Grub29", alias: None, description: "Rescued Grub 29 (Grub)", tooltip: Some("Splits when rescuing grub #29") },
        254 => RadioButtonOption { value: Split::Grub30, key: "Grub30", alias: None, description: "Rescued Grub 30 (Grub)", tooltip: Some("Splits when rescuing grub #30") },
        255 => RadioButtonOption { value: Split::Grub31, key: "Grub31", alias: None, description: "Rescued Grub 31 (Grub)", tooltip: Some("Splits when rescuing grub #31") },
        256 => RadioButtonOption { value: Split::Grub32, key: "Grub32", alias: None, description: "Rescued Grub 32 (Grub)", tooltip: Some("Splits when rescuing grub #32") },
        257 => RadioButtonOption { value: Split::Grub33, key: "Grub33", alias: None, description: "Rescued Grub 33 (Grub)", tooltip: Some("Splits when rescuing grub #33") },
        258 => RadioButtonOption { value: Split::Grub34, key: "Grub34", alias: None, description: "Rescued Grub 34 (Grub)", tooltip: Some("Splits when rescuing grub #34") },
        259 => RadioButtonOption { value: Split::Grub35, key: "Grub35", alias: None, description: "Rescued Grub 35 (Grub)", tooltip: Some("Splits when rescuing grub #35") },
        260 => RadioButtonOption { value: Split::Grub36, key: "Grub36", alias: None, description: "Rescued Grub 36 (Grub)", tooltip: Some("Splits when rescuing grub #36") },
        261 => RadioButtonOption { value: Split::Grub37, key: "Grub37", alias: None, description: "Rescued Grub 37 (Grub)", tooltip: Some("Splits when rescuing grub #37") },
        262 => RadioButtonOption { value: Split::Grub38, key: "Grub38", alias: None, description: "Rescued Grub 38 (Grub)", tooltip: Some("Splits when rescuing grub #38") },
        263 => RadioButtonOption { value: Split::Grub39, key: "Grub39", alias: None, description: "Rescued Grub 39 (Grub)", tooltip: Some("Splits when rescuing grub #39") },
        264 => RadioButtonOption { value: Split::Grub40, key: "Grub40", alias: None, description: "Rescued Grub 40 (Grub)", tooltip: Some("Splits when rescuing grub #40") },
        265 => RadioButtonOption { value: Split::Grub41, key: "Grub41", alias: None, description: "Rescued Grub 41 (Grub)", tooltip: Some("Splits when rescuing grub #41") },
        266 => RadioButtonOption { value: Split::Grub42, key: "Grub42", alias: None, description: "Rescued Grub 42 (Grub)", tooltip: Some("Splits when rescuing grub #42") },
        267 => RadioButtonOption { value: Split::Grub43, key: "Grub43", alias: None, description: "Rescued Grub 43 (Grub)", tooltip: Some("Splits when rescuing grub #43") },
        268 => RadioButtonOption { value: Split::Grub44, key: "Grub44", alias: None, description: "Rescued Grub 44 (Grub)", tooltip: Some("Splits when rescuing grub #44") },
        269 => RadioButtonOption { value: Split::Grub45, key: "Grub45", alias: None, description: "Rescued Grub 45 (Grub)", tooltip: Some("Splits when rescuing grub #45") },
        270 => RadioButtonOption { value: Split::Grub46, key: "Grub46", alias: None, description: "Rescued Grub 46 (Grub)", tooltip: Some("Splits when rescuing grub #46") },
        271 => RadioButtonOption { value: Split::OnObtainGrub, key: "OnObtainGrub", alias: None, description: "Rescued Any Grub (Grub)", tooltip: Some("Splits when rescuing any grub") },
        272 => RadioButtonOption { value: Split::GrubBasinDive, key: "GrubBasinDive", alias: None, description: "Rescued Grub Basin Dive (Grub)", tooltip: Some("Splits when rescuing the grub in Abyss_17") },
        273 => RadioButtonOption { value: Split::GrubBasinWings, key: "GrubBasinWings", alias: None, description: "Rescued Grub Basin Wings (Grub)", tooltip: Some("Splits when rescuing the grub in Abyss_19") },
        274 => RadioButtonOption { value: Split::GrubCityBelowLoveTower, key: "GrubCityBelowLoveTower", alias: None, description: "Rescued Grub City Below Love Tower (Grub)", tooltip: Some("Splits when rescuing the grub in Ruins2_07") },
        275 => RadioButtonOption { value: Split::GrubCityBelowSanctum, key: "GrubCityBelowSanctum", alias: None, description: "Rescued Grub City Below Sanctum (Grub)", tooltip: Some("Splits when rescuing the grub in Ruins1_05") },
        276 => RadioButtonOption { value: Split::GrubCityCollectorAll, key: "GrubCityCollectorAll", alias: None, description: "Rescued Grub City Collector All (Grub)", tooltip: Some("Splits when rescuing all three grubs in Ruins2_11. (On 1221, splits for right grub)") },
        277 => RadioButtonOption { value: Split::GrubCityCollector, key: "GrubCityCollector", alias: None, description: "Rescued Grub City Collector (Grub)", tooltip: Some("Splits when rescuing any grub in Ruins2_11") },
        278 => RadioButtonOption { value: Split::GrubCityGuardHouse, key: "GrubCityGuardHouse", alias: None, description: "Rescued Grub City Guard House (Grub)", tooltip: Some("Splits when rescuing the grub in Ruins_House_01") },
        279 => RadioButtonOption { value: Split::GrubCitySanctum, key: "GrubCitySanctum", alias: None, description: "Rescued Grub City Sanctum (Grub)", tooltip: Some("Splits when rescuing the grub in Ruins1_32") },
        280 => RadioButtonOption { value: Split::GrubCitySpire, key: "GrubCitySpire", alias: None, description: "Rescued Grub City Spire (Grub)", tooltip: Some("Splits when rescuing the grub in Ruins2_03") },
        281 => RadioButtonOption { value: Split::GrubCliffsBaldurShell, key: "GrubCliffsBaldurShell", alias: None, description: "Rescued Grub Cliffs Baldur Shell (Grub)", tooltip: Some("Splits when rescuing the grub in Fungus1_28") },
        282 => RadioButtonOption { value: Split::GrubCrossroadsAcid, key: "GrubCrossroadsAcid", alias: None, description: "Rescued Grub Crossroads Acid (Grub)", tooltip: Some("Splits when rescuing the grub in Crossroads_35") },
        283 => RadioButtonOption { value: Split::GrubCrossroadsGuarded, key: "GrubCrossroadsGuarded", alias: None, description: "Rescued Grub Crossroads Guarded (Grub)", tooltip: Some("Splits when rescuing the grub in Crossroads_48") },
        284 => RadioButtonOption { value: Split::GrubCrossroadsSpikes, key: "GrubCrossroadsSpikes", alias: None, description: "Rescued Grub Crossroads Spikes (Grub)", tooltip: Some("Splits when rescuing the grub in Crossroads_31") },
        285 => RadioButtonOption { value: Split::GrubCrossroadsVengefly, key: "GrubCrossroadsVengefly", alias: None, description: "Rescued Grub Crossroads Vengefly (Grub)", tooltip: Some("Splits when rescuing the grub in Crossroads_05") },
        286 => RadioButtonOption { value: Split::GrubCrossroadsWall, key: "GrubCrossroadsWall", alias: None, description: "Rescued Grub Crossroads Wall (Grub)", tooltip: Some("Splits when rescuing the grub in Crossroads_03") },
        _ => RadioButtonOption { value: Split::GrubCrystalPeaksBottomLever, key: "GrubCrystalPeaksBottomLever", alias: None, description: "Rescued Grub Crystal Peak Bottom Lever (Grub)", tooltip: Some("Splits when rescuing the grub in Mines_04") },
    }
}

/// The options at positions 288 to 335.
pub open spec fn split_option_chunk_6(i: usize) -> RadioButtonOption<'static, Split> {
    match i {
        288 => RadioButtonOption { value: Split::GrubCrystalPeaksCrown, key: "GrubCrystalPeaksCrown", alias: None, description: "Rescued Grub Crystal Peak Crown (Grub)", tooltip: Some("Splits when rescuing the grub in Mines_24") },
        289 => RadioButtonOption { value: Split::GrubCrystalPeaksCrushers, key: "GrubCrystalPeaksCrushers", alias: None, description: "Rescued Grub Crystal Peak Crushers (Grub)", tooltip: Some("Splits when rescuing the grub in Mines_19") },
        290 => RadioButtonOption { value: Split::GrubCrystalPeaksCrystalHeart, key: "GrubCrystalPeaksCrystalHeart", alias: None, description: "Rescued Grub Crystal Peak Crystal Heart (Grub)", tooltip: Some("Splits when rescuing the grub in Mines_31") },
        291 => RadioButtonOption { value: Split::GrubCrystalPeaksMimics, key: "GrubCrystalPeaksMimics", alias: None, description: "Rescued Grub Crystal Peak Mimic (Grub)", tooltip: Some("Splits when rescuing the grub in Mines_16") },
        292 => RadioButtonOption { value: Split::GrubCrystalPeaksMound, key: "GrubCrystalPeaksMound", alias: None, description: "Rescued Grub Crystal Peak Mound (Grub)", tooltip: Some("Splits when rescuing the grub in Mines_35") },
        293 => RadioButtonOption { value: Split::GrubCrystalPeaksSpikes, key: "GrubCrystalPeaksSpikes", alias: None, description: "Rescued Grub Crystal Peak Spikes (Grub)", tooltip: Some("Splits when rescuing the grub in Mines_03") },
        294 => RadioButtonOption { value: Split::GrubDeepnestBeastsDen, key: "GrubDeepnestBeastsDen", alias: None, description: "Rescued Grub Deepnest Beast's Den (Grub)", tooltip: Some("Splits when rescuing the grub in Deepnest_Spider_Town") },
        295 => RadioButtonOption { value: Split::GrubDeepnestDark, key: "GrubDeepnestDark", alias: None, description: "Rescued Grub Deepnest Dark (Grub)", tooltip: Some("Splits when rescuing the grub in Deepnest_39") },
        296 => RadioButtonOption { value: Split::GrubDeepnestMimics, key: "GrubDeepnestMimics", alias: None, description: "Rescued Grub Deepnest Mimics (Grub)", tooltip: Some("Splits when rescuing the grub in Deepnest_36") },
        297 => RadioButtonOption { value: Split::GrubDeepnestNosk, key: "GrubDeepnestNosk", alias: None, description: "Rescued Grub Deepnest Nosk (Grub)", tooltip: Some("Splits when rescuing the grub in Deepnest_31") },
        298 => RadioButtonOption { value: Split::GrubDeepnestSpikes, key: "GrubDeepnestSpikes", alias: None, description: "Rescued Grub Deepnest Spikes (Grub)", tooltip: Some("Splits when rescuing the grub in Deepnest_03") },
        299 => RadioButtonOption { value: Split::GrubFogCanyonArchives, key: "GrubFogCanyonArchives", alias: None, description: "Rescued Grub Fog Canyon Archives (Grub)", tooltip: Some("Splits when rescuing the grub in Fungus3_47") },
        300 => RadioButtonOption { value: Split::GrubFungalBouncy, key: "GrubFungalBouncy", alias: None, description: "Rescued Grub Fungal Bouncy (Grub)", tooltip: Some("Splits when rescuing the grub in Fungus2_18") },
        301 => RadioButtonOption { value: Split::GrubFungalSporeShroom, key: "GrubFungalSporeShroom", alias: None, description: "Rescued Grub Fungal Spore Shroom (Grub)", tooltip: Some("Splits when rescuing the grub in Fungus2_20") },
        302 => RadioButtonOption { value: Split::GrubGreenpathCornifer, key: "GrubGreenpathCornifer", alias: None, description: "Rescued Grub Greenpath Cornifer (Grub)", tooltip: Some("Splits when rescuing the grub in Fungus1_06") },
        303 => RadioButtonOption { value: Split::GrubGreenpathHunter, key: "GrubGreenpathHunter", alias: None, description: "Rescued Grub Greenpath Hunter (Grub)", tooltip: Some("Splits when rescuing the grub in Fungus1_07") },
        304 => RadioButtonOption { value: Split::GrubGreenpathMossKnight, key: "GrubGreenpathMossKnight", alias: None, description: "Rescued Grub Greenpath Moss Knight (Grub)", tooltip: Some("Splits when rescuing the grub in Fungus1_21") },
        305 => RadioButtonOption { value: Split::GrubGreenpathVesselFragment, key: "GrubGreenpathVesselFragment", alias: None, description: "Rescued Grub Greenpath Vessel Fragment (Grub)", tooltip: Some("Splits when rescuing the grub in Fungus1_13") },
        306 => RadioButtonOption { value: Split::GrubHiveExternal, key: "GrubHiveExternal", alias: None, description: "Rescued Grub Hive External (Grub)", tooltip: Some("Splits when rescuing the grub in Hive_03") },
        307 => RadioButtonOption { value: Split::GrubHiveInternal, key: "GrubHiveInternal", alias: None, description: "Rescued Grub Hive Internal (Grub)", tooltip: Some("Splits when rescuing the grub in Hive_04") },
        308 => RadioButtonOption { value: Split::GrubKingdomsEdgeCenter, key: "GrubKingdomsEdgeCenter", alias: None, description: "Rescued Grub Kingdom's Edge Center (Grub)", tooltip: Some("Splits when rescuing the grub in Deepnest_East_11") },
        309 => RadioButtonOption { value: Split::GrubKingdomsEdgeOro, key: "GrubKingdomsEdgeOro", alias: None, description: "Rescued Grub Kingdom's Edge Oro (Grub)", tooltip: Some("Splits when rescuing the grub in Deepnest_East_14") },
        310 => RadioButtonOption { value: Split::GrubQueensGardensBelowStag, key: "GrubQueensGardensBelowStag", alias: None, description: "Rescued Grub Queen's Gardens Below Stag (Grub)", tooltip: Some("Splits when rescuing the grub in Fungus3_10") },
        311 => RadioButtonOption { value: Split::GrubQueensGardensUpper, key: "GrubQueensGardensUpper", alias: None, description: "Rescued Grub Queen's Gardens Upper (Grub)", tooltip: Some("Splits when rescuing the grub in Fungus3_22") },
        312 => RadioButtonOption { value: Split::GrubQueensGardensWhiteLady, key: "GrubQueensGardensWhiteLady", alias: None, description: "Rescued Grub Queen's Gardens White Lady (Grub)", tooltip: Some("Splits when rescuing the grub in Fungus3_48") },
        313 => RadioButtonOption { value: Split::GrubRestingGroundsCrypts, key: "GrubRestingGroundsCrypts", alias: None, description: "Rescued Grub Resting Grounds Crypts (Grub)", tooltip: Some("Splits when rescuing the grub in RestingGrounds_10") },
        314 => RadioButtonOption { value: Split::GrubWaterwaysCenter, key: "GrubWaterwaysCenter", alias: None, description: "Rescued Grub Waterways Center (Grub)", tooltip: Some("Splits when rescuing the grub in Waterways_04") },
        315 => RadioButtonOption { value: Split::GrubWaterwaysHwurmps, key: "GrubWaterwaysHwurmps", alias: None, description: "Rescued Grub Waterways Hwurmps (Grub)", tooltip: Some("Splits when rescuing the grub in Waterways_14") },
        316 => RadioButtonOption { value: Split::GrubWaterwaysIsma, key: "GrubWaterwaysIsma", alias: None, description: "Rescued Grub Waterways Isma (Grub)", tooltip: Some("Splits when rescuing the grub in Waterways_13") },
        317 => RadioButtonOption { value: Split::Mimic1, key: "Mimic1", alias: None, description: "Mimic 1 (Killed)", tooltip: Some("Splits when rescuing mimic #1") },
        318 => RadioButtonOption { value: Split::Mimic2, key: "Mimic2", alias: None, description: "Mimic 2 (Killed)", tooltip: Some("Splits when rescuing mimic #2") },
        319 => RadioButtonOption { value: Split::Mimic3, key: "Mimic3", alias: None, description: "Mimic 3 (Killed)", tooltip: Some("Splits when rescuing mimic #3") },
        320 => RadioButtonOption { value: Split::Mimic4, key: "Mimic4", alias: None, description: "Mimic 4 (Killed)", tooltip: Some("Splits when rescuing mimic #4") },
        321 => RadioButtonOption { value: Split::Mimic5, key: "Mimic5", alias: None, description: "Mimic 5 (Killed)", tooltip: Some("Splits when rescuing mimic #5") },
        322 => RadioButtonOption { value: Split::Essence100, key: "Essence100", alias: None, description: "100 Essence (Essence)", tooltip: Some("Splits upon obtaining 100 Essence") },
        323 => RadioButtonOption { value: Split::Essence200, key: "Essence200", alias: None, description: "200 Essence (Essence)", tooltip: Some("Splits upon obtaining 200 Essence") },
        324 => RadioButtonOption { value: Split::Essence300, key: "Essence300", alias: None, description: "300 Essence (Essence)", tooltip: Some("Splits upon obtaining 300 Essence") },
        325 => RadioButtonOption { value: Split::Essence400, key: "Essence400", alias: None, description: "400 Essence (Essence)", tooltip: Some("Splits upon obtaining 400 Essence") },
        326 => RadioButtonOption { value: Split::Essence500, key: "Essence500", alias: None, description: "500 Essence (Essence)", tooltip: Some("Splits upon obtaining 500 Essence") },
        327 => RadioButtonOption { value: Split::Essence600, key: "Essence600", alias: None, description: "600 Essence (Essence)", tooltip: Some("Splits upon obtaining 600 Essence") },
        328 => RadioButtonOption { value: Split::Essence700, key: "Essence700", alias: None, description: "700 Essence (Essence)", tooltip: Some("Splits upon obtaining 700 Essence") },
        329 => RadioButtonOption { value: Split::Essence800, key: "Essence800", alias: None, description: "800 Essence (Essence)", tooltip: Some("Splits upon obtaining 800 Essence") },
        330 => RadioButtonOption { value: Split::Essence900, key: "Essence900", alias: None, description: "900 Essence (Essence)", tooltip: Some("Splits upon obtaining 900 Essence") },
        331 => RadioButtonOption { value: Split::Essence1000, key: "Essence1000", alias: None, description: "1000 Essence (Essence)", tooltip: Some("Splits upon obtaining 1000 Essence") },
        332 => RadioButtonOption { value: Split::Essence1100, key: "Essence1100", alias: None, description: "1100 Essence (Essence)", tooltip: Some("Splits upon obtaining 1100 Essence") },
        333 => RadioButtonOption { value: Split::Essence1200, key: "Essence1200", alias: None, description: "1200 Essence (Essence)", tooltip: Some("Splits upon obtaining 1200 Essence") },
        334 => RadioButtonOption { value: Split::Essence1300, key: "Essence1300", alias: None, description: "1300 Essence (Essence)", tooltip: Some("Splits upon obtaining 1300 Essence") },
        _ => RadioButtonOption { value: Split::Essence1400, key: "Essence1400", alias: None, description: "1400 Essence (Essence)", tooltip: Some("Splits upon obtaining 1400 Essence") },
    }
}

fn split_option_chunk_6_exec(i: usize) -> (r: RadioButtonOption<'static, Split>)
    ensures
        r == split_option_chunk_6(i),
{
    match i {
        288 => RadioButtonOption { value: Split::GrubCrystalPeaksCrown, key: "GrubCrystalPeaksCrown", alias: None, description: "Rescued Grub Crystal Peak Crown (Grub)", tooltip: Some("Splits when rescuing the grub in Mines_24") },
        289 => RadioButtonOption { value: Split::GrubCrystalPeaksCrushers, key: "GrubCrystalPeaksCrushers", alias: None, description: "Rescued Grub Crystal Peak Crushers (Grub)", tooltip: Some("Splits when rescuing the grub in Mines_19") },
        290 => RadioButtonOption { value: Split::GrubCrystalPeaksCrystalHeart, key: "GrubCrystalPeaksCrystalHeart", alias: None, description: "Rescued Grub Crystal Peak Crystal Heart (Grub)", tooltip: Some("Splits when rescuing the grub in Mines_31") },
        291 => RadioButtonOption { value: Split::GrubCrystalPeaksMimics, key: "GrubCrystalPeaksMimics", alias: None, description: "Rescued Grub Crystal Peak Mimic (Grub)", tooltip: Some("Splits when rescuing the grub in Mines_16") },
        292 => RadioButtonOption { value: Split::GrubCrystalPeaksMound, key: "GrubCrystalPeaksMound", alias: None, description: "Rescued Grub Crystal Peak Mound (Grub)", tooltip: Some("Splits when rescuing the grub in Mines_35") },
        293 => RadioButtonOption { value: Split::GrubCrystalPeaksSpikes, key: "GrubCrystalPeaksSpikes", alias: None, description: "Rescued Grub Crystal Peak Spikes (Grub)", tooltip: Some("Splits when rescuing the grub in Mines_03") },
        294 => RadioButtonOption { value: Split::GrubDeepnestBeastsDen, key: "GrubDeepnestBeastsDen", alias: None, description: "Rescued Grub Deepnest Beast's Den (Grub)", tooltip: Some("Splits when rescuing the grub in Deepnest_Spider_Town") },
        295 => RadioButtonOption { value: Split::GrubDeepnestDark, key: "GrubDeepnestDark", alias: None, description: "Rescued Grub Deepnest Dark (Grub)", tooltip: Some("Splits when rescuing the grub in Deepnest_39") },
        296 => RadioButtonOption { value: Split::GrubDeepnestMimics, key: "GrubDeepnestMimics", alias: None, description: "Rescued Grub Deepnest Mimics (Grub)", tooltip: Some("Splits when rescuing the grub in Deepnest_36") },
        297 => RadioButtonOption { value: Split::GrubDeepnestNosk, key: "GrubDeepnestNosk", alias: None, description: "Rescued Grub Deepnest Nosk (Grub)", tooltip: Some("Splits when rescuing the grub in Deepnest_31") },
        298 => RadioButtonOption { value: Split::GrubDeepnestSpikes, key: "GrubDeepnestSpikes", alias: None, description: "Rescued Grub Deepnest Spikes (Grub)", tooltip: Some("Splits when rescuing the grub in Deepnest_03") },
        299 => RadioButtonOption { value: Split::GrubFogCanyonArchives, key: "GrubFogCanyonArchives", alias: None, description: "Rescued Grub Fog Canyon Archives (Grub)", tooltip: Some("Splits when rescuing the grub in Fungus3_47") },
        300 => RadioButtonOption { value: Split::GrubFungalBouncy, key: "GrubFungalBouncy", alias: None, description: "Rescued Grub Fungal Bouncy (Grub)", tooltip: Some("Splits when rescuing the grub in Fungus2_18") },
        301 => RadioButtonOption { value: Split::GrubFungalSporeShroom, key: "GrubFungalSporeShroom", alias: None, description: "Rescued Grub Fungal Spore Shroom (Grub)", tooltip: Some("Splits when rescuing the grub in Fungus2_20") },
        302 => RadioButtonOption { value: Split::GrubGreenpathCornifer, key: "GrubGreenpathCornifer", alias: None, description: "Rescued Grub Greenpath Cornifer (Grub)", tooltip: Some("Splits when rescuing the grub in Fungus1_06") },
        303 => RadioButtonOption { value: Split::GrubGreenpathHunter, key: "GrubGreenpathHunter", alias: None, description: "Rescued Grub Greenpath Hunter (Grub)", tooltip: Some("Splits when rescuing the grub in Fungus1_07") },
        304 => RadioButtonOption { value: Split::GrubGreenpathMossKnight, key: "GrubGreenpathMossKnight", alias: None, description: "Rescued Grub Greenpath Moss Knight (Grub)", tooltip: Some("Splits when rescuing the grub in Fungus1_21") },
        305 => RadioButtonOption { value: Split::GrubGreenpathVesselFragment, key: "GrubGreenpathVesselFragment", alias: None, description: "Rescued Grub Greenpath Vessel Fragment (Grub)", tooltip: Some("Splits when rescuing the grub in Fungus1_13") },
        306 => RadioButtonOption { value: Split::GrubHiveExternal, key: "GrubHiveExternal", alias: None, description: "Rescued Grub Hive External (Grub)", tooltip: Some("Splits when rescuing the grub in Hive_03") },
        307 => RadioButtonOption { value: Split::GrubHiveInternal, key: "GrubHiveInternal", alias: None, description: "Rescued Grub Hive Internal (Grub)", tooltip: Some("Splits when rescuing the grub in Hive_04") },
        308 => RadioButtonOption { value: Split::GrubKingdomsEdgeCenter, key: "GrubKingdomsEdgeCenter", alias: None, description: "Rescued Grub Kingdom's Edge Center (Grub)", tooltip: Some("Splits when rescuing the grub in Deepnest_East_11") },
        309 => RadioButtonOption { value: Split::GrubKingdomsEdgeOro, key: "GrubKingdomsEdgeOro", alias: None, description: "Rescued Grub Kingdom's Edge Oro (Grub)", tooltip: Some("Splits when rescuing the grub in Deepnest_East_14") },
        310 => RadioButtonOption { value: Split::GrubQueensGardensBelowStag, key: "GrubQueensGardensBelowStag", alias: None, description: "Rescued Grub Queen's Gardens Below Stag (Grub)", tooltip: Some("Splits when rescuing the grub in Fungus3_10") },
        311 => RadioButtonOption { value: Split::GrubQueensGardensUpper, key: "GrubQueensGardensUpper", alias: None, description: "Rescued Grub Queen's Gardens Upper (Grub)", tooltip: Some("Splits when rescuing the grub in Fungus3_22") },
        312 => RadioButtonOption { value: Split::GrubQueensGardensWhiteLady, key: "GrubQueensGardensWhiteLady", alias: None, description: "Rescued Grub Queen's Gardens White Lady (Grub)", tooltip: Some("Splits when rescuing the grub in Fungus3_48") },
        313 => RadioButtonOption { value: Split::GrubRestingGroundsCrypts, key: "GrubRestingGroundsCrypts", alias: None, description: "Rescued Grub Resting Grounds Crypts (Grub)", tooltip: Some("Splits when rescuing the grub in RestingGrounds_10") },
        314 => RadioButtonOption { value: Split::GrubWaterwaysCenter, key: "GrubWaterwaysCenter", alias: None, description: "Rescued Grub Waterways Center (Grub)", tooltip: Some("Splits when rescuing the grub in Waterways_04") },
        315 => RadioButtonOption { value: Split::GrubWaterwaysHwurmps, key: "GrubWaterwaysHwurmps", alias: None, description: "Rescued Grub Waterways Hwurmps (Grub)", tooltip: Some("Splits when rescuing the grub in Waterways_14") },
        316 => RadioButtonOption { value: Split::GrubWaterwaysIsma, key: "GrubWaterwaysIsma", alias: None, description: "Rescued Grub Waterways Isma (Grub)", tooltip: Some("Splits when rescuing the grub in Waterways_13") },
        317 => RadioButtonOption { value: Split::Mimic1, key: "Mimic1", alias: None, description: "Mimic 1 (Killed)", tooltip: Some("Splits when rescuing mimic #1") },
        318 => RadioButtonOption { value: Split::Mimic2, key: "Mimic2", alias: None, description: "Mimic 2 (Killed)", tooltip: Some("Splits when rescuing mimic #2") },
        319 => RadioButtonOption { value: Split::Mimic3, key: "Mimic3", alias: None, description: "Mimic 3 (Killed)", tooltip: Some("Splits when rescuing mimic #3") },
        320 => RadioButtonOption { value: Split::Mimic4, key: "Mimic4", alias: None, description: "Mimic 4 (Killed)", tooltip: Some("Splits when rescuing mimic #4") },
        321 => RadioButtonOption { value: Split::Mimic5, key: "Mimic5", alias: None, description: "Mimic 5 (Killed)", tooltip: Some("Splits when rescuing mimic #5") },
        322 => RadioButtonOption { value: Split::Essence100, key: "Essence100", alias: None, description: "100 Essence (Essence)", tooltip: Some("Splits upon obtaining 100 Essence") },
        323 => RadioButtonOption { value: Split::Essence200, key: "Essence200", alias: None, description: "200 Essence (Essence)", tooltip: Some("Splits upon obtaining 200 Essence") },
        324 => RadioButtonOption { value: Split::Essence300, key: "Essence300", alias: None, description: "300 Essence (Essence)", tooltip: Some("Splits upon obtaining 300 Essence") },
        325 => RadioButtonOption { value: Split::Essence400, key: "Essence400", alias: None, description: "400 Essence (Essence)", tooltip: Some("Splits upon obtaining 400 Essence") },
        326 => RadioButtonOption { value: Split::Essence500, key: "Essence500", alias: None, description: "500 Essence (Essence)", tooltip: Some("Splits upon obtaining 500 Essence") },
        327 => RadioButtonOption { value: Split::Essence600, key: "Essence600", alias: None, description: "600 Essence (Essence)", tooltip: Some("Splits upon obtaining 600 Essence") },
        328 => RadioButtonOption { value: Split::Essence700, key: "Essence700", alias: None, description: "700 Essence (Essence)", tooltip: Some("Splits upon obtaining 700 Essence") },
        329 => RadioButtonOption { value: Split::Essence800, key: "Essence800", alias: None, description: "800 Essence (Essence)", tooltip: Some("Splits upon obtaining 800 Essence") },
        330 => RadioButtonOption { value: Split::Essence900, key: "Essence900", alias: None, description: "900 Essence (Essence)", tooltip: Some("Splits upon obtaining 900 Essence") },
        331 => RadioButtonOption { value: Split::Essence1000, key: "Essence1000", alias: None, description: "1000 Essence (Essence)", tooltip: Some("Splits upon obtaining 1000 Essence") },
        332 => RadioButtonOption { value: Split::Essence1100, key: "Essence1100", alias: None, description: "1100 Essence (Essence)", tooltip: Some("Splits upon obtaining 1100 Essence") },
        333 => RadioButtonOption { value: Split::Essence1200, key: "Essence1200", alias: None, description: "1200 Essence (Essence)", tooltip: Some("Splits upon obtaining 1200 Essence") },
        334 => RadioButtonOption { value: Split::Essence1300, key: "Essence1300", alias: None, description: "1300 Essence (Essence)", tooltip: Some("Splits upon obtaining 1300 Essence") },
        _ => RadioButtonOption { value: Split::Essence1400, key: "Essence1400", alias: None, description: "1400 Essence (Essence)", tooltip: Some("Splits upon obtaining 1400 Essence") },
    }
}

/// The options at positions 336 to 383.
pub open spec fn split_option_chunk_7(i: usize) -> RadioButtonOption<'static, Split> {
    match i {
        336 => RadioButtonOption { value: Split::Essence1500, key: "Essence1500", alias: None, description: "1500 Essence (Essence)", tooltip: Some("Splits upon obtaining 1500 Essence") },
        337 => RadioButtonOption { value: Split::Essence1600, key: "Essence1600", alias: None, description: "1600 Essence (Essence)", tooltip: Some("Splits upon obtaining 1600 Essence") },
        338 => RadioButtonOption { value: Split::Essence1700, key: "Essence1700", alias: None, description: "1700 Essence (Essence)", tooltip: Some("Splits upon obtaining 1700 Essence") },
        339 => RadioButtonOption { value: Split::Essence1800, key: "Essence1800", alias: None, description: "1800 Essence (Essence)", tooltip: Some("Splits upon obtaining 1800 Essence") },
        340 => RadioButtonOption { value: Split::Essence1900, key: "Essence1900", alias: None, description: "1900 Essence (Essence)", tooltip: Some("Splits upon obtaining 1900 Essence") },
        341 => RadioButtonOption { value: Split::Essence2000, key: "Essence2000", alias: None, description: "2000 Essence (Essence)", tooltip: Some("Splits upon obtaining 2000 Essence") },
        342 => RadioButtonOption { value: Split::Essence2100, key: "Essence2100", alias: None, description: "2100 Essence (Essence)", tooltip: Some("Splits upon obtaining 2100 Essence") },
        343 => RadioButtonOption { value: Split::Essence2200, key: "Essence2200", alias: None, description: "2200 Essence (Essence)", tooltip: Some("Splits upon obtaining 2200 Essence") },
        344 => RadioButtonOption { value: Split::Essence2300, key: "Essence2300", alias: None, description: "2300 Essence (Essence)", tooltip: Some("Splits upon obtaining 2300 Essence") },
        345 => RadioButtonOption { value: Split::Essence2400, key: "Essence2400", alias: None, description: "2400 Essence (Essence)", tooltip: Some("Splits upon obtaining 2400 Essence") },
        346 => RadioButtonOption { value: Split::TreeMound, key: "TreeMound", alias: None, description: "Whispering Root (Ancestral Mound)", tooltip: Some("Splits upon completing the whispering root in the Ancestral Mound") },
        347 => RadioButtonOption { value: Split::TreeCity, key: "TreeCity", alias: None, description: "Whispering Root (City of Tears)", tooltip: Some("Splits upon completing the whispering root in the City of Tears") },
        348 => RadioButtonOption { value: Split::TreePeak, key: "TreePeak", alias: None, description: "Whispering Root (Crystal Peak)", tooltip: Some("Splits upon completing the whispering root in Crystal Peak") },
        349 => RadioButtonOption { value: Split::TreeDeepnest, key: "TreeDeepnest", alias: None, description: "Whispering Root (Deepnest)", tooltip: Some("Splits upon completing the whispering root in Deepnest") },
        350 => RadioButtonOption { value: Split::TreeCrossroads, key: "TreeCrossroads", alias: None, description: "Whispering Root (Forgotten Crossroads)", tooltip: Some("Splits upon completing the whispering root in the Forgotten Crossroads") },
        351 => RadioButtonOption { value: Split::TreeLegEater, key: "TreeLegEater", alias: None, description: "Whispering Root (Leg Eater)", tooltip: Some("Splits upon completing the whispering root left from Leg Eater") },
        352 => RadioButtonOption { value: Split::TreeMantisVillage, key: "TreeMantisVillage", alias: None, description: "Whispering Root (Mantis Village)", tooltip: Some("Splits upon completing the whispering root above the Mantis Village") },
        353 => RadioButtonOption { value: Split::TreeGreenpath, key: "TreeGreenpath", alias: None, description: "Whispering Root (Greenpath)", tooltip: Some("Splits upon completing the whispering root in Greenpath") },
        354 => RadioButtonOption { value: Split::TreeHive, key: "TreeHive", alias: None, description: "Whispering Root (Hive)", tooltip: Some("Splits upon completing the whispering root in the Hive") },
        355 => RadioButtonOption { value: Split::TreeCliffs, key: "TreeCliffs", alias: None, description: "Whispering Root (Howling Cliffs)", tooltip: Some("Splits upon completing the whispering root in the Howling Cliifs") },
        356 => RadioButtonOption { value: Split::TreeKingdomsEdge, key: "TreeKingdomsEdge", alias: None, description: "Whispering Root (Kingdom's Edge)", tooltip: Some("Splits upon completing the whispering root in the Kingdom's Edge") },
        357 => RadioButtonOption { value: Split::TreeQueensGardens, key: "TreeQueensGardens", alias: None, description: "Whispering Root (Queen's Gardens)", tooltip: Some("Splits upon completing the whispering root in the Queen's Gardens") },
        358 => RadioButtonOption { value: Split::TreeRestingGrounds, key: "TreeRestingGrounds", alias: None, description: "Whispering Root (Resting Grounds)", tooltip: Some("Splits upon completing the whispering root in the Resting Grounds") },
        359 => RadioButtonOption { value: Split::TreeWaterways, key: "TreeWaterways", alias: None, description: "Whispering Root (Royal Waterways)", tooltip: Some("Splits upon completing the whispering root in the Royal Waterways") },
        360 => RadioButtonOption { value: Split::TreeGlade, key: "TreeGlade", alias: None, description: "Whispering Root (Spirits' Glade)", tooltip: Some("Splits upon completing the whispering root in the Spirits' Glade") },
        361 => RadioButtonOption { value: Split::OnObtainGhostMarissa, key: "OnObtainGhostMarissa", alias: None, description: "Dream Nail Marissa (Obtain)", tooltip: Some("Splits when obtaining the essence from Marissa") },
        362 => RadioButtonOption { value: Split::OnObtainGhostCaelifFera, key: "OnObtainGhostCaelifFera", alias: None, description: "Dream Nail Caelif and Fera (Obtain)", tooltip: Some("Splits when obtaining the essence from Caelif and Fera Orthop") },
        363 => RadioButtonOption { value: Split::OnObtainGhostPoggy, key: "OnObtainGhostPoggy", alias: None, description: "Dream Nail Poggy (Obtain)", tooltip: Some("Splits when obtaining the essence from Poggy Thorax") },
        364 => RadioButtonOption { value: Split::OnObtainGhostGravedigger, key: "OnObtainGhostGravedigger", alias: None, description: "Dream Nail Gravedigger (Obtain)", tooltip: Some("Splits when obtaining the essence from Gravedigger") },
        365 => RadioButtonOption { value: Split::OnObtainGhostJoni, key: "OnObtainGhostJoni", alias: None, description: "Dream Nail Joni (Obtain)", tooltip: Some("Splits when obtaining the essence from Blue Child Joni") },
        366 => RadioButtonOption { value: Split::MapDirtmouth, key: "MapDirtmouth", alias: None, description: "Map Dirtmouth (Item)", tooltip: Some("Splits when acquiring the Dirtmouth map") },
        367 => RadioButtonOption { value: Split::MapCrossroads, key: "MapCrossroads", alias: None, description: "Map Crossroads (Item)", tooltip: Some("Splits when acquiring the Crossroads map") },
        368 => RadioButtonOption { value: Split::MapGreenpath, key: "MapGreenpath", alias: None, description: "Map Greenpath (Item)", tooltip: Some("Splits when acquiring the Greenpath map") },
        369 => RadioButtonOption { value: Split::MapFogCanyon, key: "MapFogCanyon", alias: None, description: "Map Fog Canyon (Item)", tooltip: Some("Splits when acquiring the Fog Canyon map") },
        370 => RadioButtonOption { value: Split::MapRoyalGardens, key: "MapRoyalGardens", alias: None, description: "Map Queen's Gardens (Item)", tooltip: Some("Splits when acquiring the QG map") },
        371 => RadioButtonOption { value: Split::MapFungalWastes, key: "MapFungalWastes", alias: None, description: "Map Fungal Wastes (Item)", tooltip: Some("Splits when acquiring the Fungal Wastes map") },
        372 => RadioButtonOption { value: Split::MapCity, key: "MapCity", alias: None, description: "Map City of Tears (Item)", tooltip: Some("Splits when acquiring the City map") },
        373 => RadioButtonOption { value: Split::MapWaterways, key: "MapWaterways", alias: None, description: "Map Waterways (Item)", tooltip: Some("Splits when acquiring the Waterways map") },
        374 => RadioButtonOption { value: Split::MapMines, key: "MapMines", alias: None, description: "Map Crystal Peak (Item)", tooltip: Some("Splits when acquiring the Crystal Peak map") },
        375 => RadioButtonOption { value: Split::MapDeepnest, key: "MapDeepnest", alias: None, description: "Map Deepnest (Item)", tooltip: Some("Splits when acquiring the Deepnest map") },
        376 => RadioButtonOption { value: Split::MapCliffs, key: "MapCliffs", alias: None, description: "Map Howling Cliffs (Item)", tooltip: Some("Splits when acquiring the Howling Cliffs map") },
        377 => RadioButtonOption { value: Split::MapOutskirts, key: "MapOutskirts", alias: None, description: "Map Kingdom's Edge (Item)", tooltip: Some("Splits when acquiring the KE map") },
        378 => RadioButtonOption { value: Split::MapRestingGrounds, key: "MapRestingGrounds", alias: None, description: "Map Resting Grounds (Item)", tooltip: Some("Splits when acquiring the Resting Grounds map") },
        379 => RadioButtonOption { value: Split::MapAbyss, key: "MapAbyss", alias: None, description: "Map Ancient Basin (Item)", tooltip: Some("Splits when acquiring the Abyss map") },
        380 => RadioButtonOption { value: Split::CorniferAtHome, key: "CorniferAtHome", alias: None, description: "Cornifer at Home (Transition)", tooltip: Some("Splits when entering Iselda's hut while Cornifer is sleeping") },
        381 => RadioButtonOption { value: Split::KingsPass, key: "KingsPass", alias: None, description: "King's Pass (Transition)", tooltip: Some("Splits when entering Dirtmouth from King's Pass") },
        382 => RadioButtonOption { value: Split::EnterDirtmouth, key: "EnterDirtmouth", alias: None, description: "Dirtmouth (Transition)", tooltip: Some("Splits on any transition into Dirtmouth Town") },
        _ => RadioButtonOption { value: Split::KingsPassEnterFromTown, key: "KingsPassEnterFromTown", alias: None, description: "King's Pass from Town (Transition)", tooltip: Some("Splits when entering King's Pass from Dirtmouth") },
    }
}

fn split_option_chunk_7_exec(i: usize) -> (r: RadioButtonOption<'static, Split>)
    ensures
        r == split_option_chunk_7(i),
{
    match i {
        336 => RadioButtonOption { value: Split::Essence1500, key: "Essence1500", alias: None, description: "1500 Essence (Essence)", tooltip: Some("Splits upon obtaining 1500 Essence") },
        337 => RadioButtonOption { value: Split::Essence1600, key: "Essence1600", alias: None, description: "1600 Essence (Essence)", tooltip: Some("Splits upon obtaining 1600 Essence") },
        338 => RadioButtonOption { value: Split::Essence1700, key: "Essence1700", alias: None, description: "1700 Essence (Essence)", tooltip: Some("Splits upon obtaining 1700 Essence") },
        339 => RadioButtonOption { value: Split::Essence1800, key: "Essence1800", alias: None, description: "1800 Essence (Essence)", tooltip: Some("Splits upon obtaining 1800 Essence") },
        340 => RadioButtonOption { value: Split::Essence1900, key: "Essence1900", alias: None, description: "1900 Essence (Essence)", tooltip: Some("Splits upon obtaining 1900 Essence") },
        341 => RadioButtonOption { value: Split::Essence2000, key: "Essence2000", alias: None, description: "2000 Essence (Essence)", tooltip: Some("Splits upon obtaining 2000 Essence") },
        342 => RadioButtonOption { value: Split::Essence2100, key: "Essence2100", alias: None, description: "2100 Essence (Essence)", tooltip: Some("Splits upon obtaining 2100 Essence") },
        343 => RadioButtonOption { value: Split::Essence2200, key: "Essence2200", alias: None, description: "2200 Essence (Essence)", tooltip: Some("Splits upon obtaining 2200 Essence") },
        344 => RadioButtonOption { value: Split::Essence2300, key: "Essence2300", alias: None, description: "2300 Essence (Essence)", tooltip: Some("Splits upon obtaining 2300 Essence") },
        345 => RadioButtonOption { value: Split::Essence2400, key: "Essence2400", alias: None, description: "2400 Essence (Essence)", tooltip: Some("Splits upon obtaining 2400 Essence") },
        346 => RadioButtonOption { value: Split::TreeMound, key: "TreeMound", alias: None, description: "Whispering Root (Ancestral Mound)", tooltip: Some("Splits upon completing the whispering root in the Ancestral Mound") },
        347 => RadioButtonOption { value: Split::TreeCity, key: "TreeCity", alias: None, description: "Whispering Root (City of Tears)", tooltip: Some("Splits upon completing the whispering root in the City of Tears") },
        348 => RadioButtonOption { value: Split::TreePeak, key: "TreePeak", alias: None, description: "Whispering Root (Crystal Peak)", tooltip: Some("Splits upon completing the whispering root in Crystal Peak") },
        349 => RadioButtonOption { value: Split::TreeDeepnest, key: "TreeDeepnest", alias: None, description: "Whispering Root (Deepnest)", tooltip: Some("Splits upon completing the whispering root in Deepnest") },
        350 => RadioButtonOption { value: Split::TreeCrossroads, key: "TreeCrossroads", alias: None, description: "Whispering Root (Forgotten Crossroads)", tooltip: Some("Splits upon completing the whispering root in the Forgotten Crossroads") },
        351 => RadioButtonOption { value: Split::TreeLegEater, key: "TreeLegEater", alias: None, description: "Whispering Root (Leg Eater)", tooltip: Some("Splits upon completing the whispering root left from Leg Eater") },
        352 => RadioButtonOption { value: Split::TreeMantisVillage, key: "TreeMantisVillage", alias: None, description: "Whispering Root (Mantis Village)", tooltip: Some("Splits upon completing the whispering root above the Mantis Village") },
        353 => RadioButtonOption { value: Split::TreeGreenpath, key: "TreeGreenpath", alias: None, description: "Whispering Root (Greenpath)", tooltip: Some("Splits upon completing the whispering root in Greenpath") },
        354 => RadioButtonOption { value: Split::TreeHive, key: "TreeHive", alias: None, description: "Whispering Root (Hive)", tooltip: Some("Splits upon completing the whispering root in the Hive") },
        355 => RadioButtonOption { value: Split::TreeCliffs, key: "TreeCliffs", alias: None, description: "Whispering Root (Howling Cliffs)", tooltip: Some("Splits upon completing the whispering root in the Howling Cliifs") },
        356 => RadioButtonOption { value: Split::TreeKingdomsEdge, key: "TreeKingdomsEdge", alias: None, description: "Whispering Root (Kingdom's Edge)", tooltip: Some("Splits upon completing the whispering root in the Kingdom's Edge") },
        357 => RadioButtonOption { value: Split::TreeQueensGardens, key: "TreeQueensGardens", alias: None, description: "Whispering Root (Queen's Gardens)", tooltip: Some("Splits upon completing the whispering root in the Queen's Gardens") },
        358 => RadioButtonOption { value: Split::TreeRestingGrounds, key: "TreeRestingGrounds", alias: None, description: "Whispering Root (Resting Grounds)", tooltip: Some("Splits upon completing the whispering root in the Resting Grounds") },
        359 => RadioButtonOption { value: Split::TreeWaterways, key: "TreeWaterways", alias: None, description: "Whispering Root (Royal Waterways)", tooltip: Some("Splits upon completing the whispering root in the Royal Waterways") },
        360 => RadioButtonOption { value: Split::TreeGlade, key: "TreeGlade", alias: None, description: "Whispering Root (Spirits' Glade)", tooltip: Some("Splits upon completing the whispering root in the Spirits' Glade") },
        361 => RadioButtonOption { value: Split::OnObtainGhostMarissa, key: "OnObtainGhostMarissa", alias: None, description: "Dream Nail Marissa (Obtain)", tooltip: Some("Splits when obtaining the essence from Marissa") },
        362 => RadioButtonOption { value: Split::OnObtainGhostCaelifFera, key: "OnObtainGhostCaelifFera", alias: None, description: "Dream Nail Caelif and Fera (Obtain)", tooltip: Some("Splits when obtaining the essence from Caelif and Fera Orthop") },
        363 => RadioButtonOption { value: Split::OnObtainGhostPoggy, key: "OnObtainGhostPoggy", alias: None, description: "Dream Nail Poggy (Obtain)", tooltip: Some("Splits when obtaining the essence from Poggy Thorax") },
        364 => RadioButtonOption { value: Split::OnObtainGhostGravedigger, key: "OnObtainGhostGravedigger", alias: None, description: "Dream Nail Gravedigger (Obtain)", tooltip: Some("Splits when obtaining the essence from Gravedigger") },
        365 => RadioButtonOption { value: Split::OnObtainGhostJoni, key: "OnObtainGhostJoni", alias: None, description: "Dream Nail Joni (Obtain)", tooltip: Some("Splits when obtaining the essence from Blue Child Joni") },
        366 => RadioButtonOption { value: Split::MapDirtmouth, key: "MapDirtmouth", alias: None, description: "Map Dirtmouth (Item)", tooltip: Some("Splits when acquiring the Dirtmouth map") },
        367 => RadioButtonOption { value: Split::MapCrossroads, key: "MapCrossroads", alias: None, description: "Map Crossroads (Item)", tooltip: Some("Splits when acquiring the Crossroads map") },
        368 => RadioButtonOption { value: Split::MapGreenpath, key: "MapGreenpath", alias: None, description: "Map Greenpath (Item)", tooltip: Some("Splits when acquiring the Greenpath map") },
        369 => RadioButtonOption { value: Split::MapFogCanyon, key: "MapFogCanyon", alias: None, description: "Map Fog Canyon (Item)", tooltip: Some("Splits when acquiring the Fog Canyon map") },
        370 => RadioButtonOption { value: Split::MapRoyalGardens, key: "MapRoyalGardens", alias: None, description: "Map Queen's Gardens (Item)", tooltip: Some("Splits when acquiring the QG map") },
        371 => RadioButtonOption { value: Split::MapFungalWastes, key: "MapFungalWastes", alias: None, description: "Map Fungal Wastes (Item)", tooltip: Some("Splits when acquiring the Fungal Wastes map") },
        372 => RadioButtonOption { value: Split::MapCity, key: "MapCity", alias: None, description: "Map City of Tears (Item)", tooltip: Some("Splits when acquiring the City map") },
        373 => RadioButtonOption { value: Split::MapWaterways, key: "MapWaterways", alias: None, description: "Map Waterways (Item)", tooltip: Some("Splits when acquiring the Waterways map") },
        374 => RadioButtonOption { value: Split::MapMines, key: "MapMines", alias: None, description: "Map Crystal Peak (Item)", tooltip: Some("Splits when acquiring the Crystal Peak map") },
        375 => RadioButtonOption { value: Split::MapDeepnest, key: "MapDeepnest", alias: None, description: "Map Deepnest (Item)", tooltip: Some("Splits when acquiring the Deepnest map") },
        376 => RadioButtonOption { value: Split::MapCliffs, key: "MapCliffs", alias: None, description: "Map Howling Cliffs (Item)", tooltip: Some("Splits when acquiring the Howling Cliffs map") },
        377 => RadioButtonOption { value: Split::MapOutskirts, key: "MapOutskirts", alias: None, description: "Map Kingdom's Edge (Item)", tooltip: Some("Splits when acquiring the KE map") },
        378 => RadioButtonOption { value: Split::MapRestingGrounds, key: "MapRestingGrounds", alias: None, description: "Map Resting Grounds (Item)", tooltip: Some("Splits when acquiring the Resting Grounds map") },
        379 => RadioButtonOption { value: Split::MapAbyss, key: "MapAbyss", alias: None, description: "Map Ancient Basin (Item)", tooltip: Some("Splits when acquiring the Abyss map") },
        380 => RadioButtonOption { value: Split::CorniferAtHome, key: "CorniferAtHome", alias: None, description: "Cornifer at Home (Transition)", tooltip: Some("Splits when entering Iselda's hut while Cornifer is sleeping") },
        381 => RadioButtonOption { value: Split::KingsPass, key: "KingsPass", alias: None, description: "King's Pass (Transition)", tooltip: Some("Splits when entering Dirtmouth from King's Pass") },
        382 => RadioButtonOption { value: Split::EnterDirtmouth, key: "EnterDirtmouth", alias: None, description: "Dirtmouth (Transition)", tooltip: Some("Splits on any transition into Dirtmouth Town") },
        _ => RadioButtonOption { value: Split::KingsPassEnterFromTown, key: "KingsPassEnterFromTown", alias: None, description: "King's Pass from Town (Transition)", tooltip: Some("Splits when entering King's Pass from Dirtmouth") },
    }
}

/// The options at positions 384 to 431.
pub open spec fn split_option_chunk_8(i: usize) -> RadioButtonOption<'static, Split> {
    match i {
        384 => RadioButtonOption { value: Split::Dirtmouth, key: "Dirtmouth", alias: None, description: "Dirtmouth (Area)", tooltip: Some("Splits when entering Dirtmouth text first appears") },
        385 => RadioButtonOption { value: Split::SlyShopExit, key: "SlyShopExit", alias: None, description: "SlyShopExit", tooltip: None },
        386 => RadioButtonOption { value: Split::SlyShopFinished, key: "SlyShopFinished", alias: None, description: "1xx% Sly Final Shop (Transition)", tooltip: Some("Splits on leaving Sly's shop with all Sly shop charms, shards, fragments, and Lantern") },
        387 => RadioButtonOption { value: Split::ElderbugFlower, key: "ElderbugFlower", alias: None, description: "Elderbug Flower Quest (NPC)", tooltip: Some("Splits when giving the flower to the Elderbug") },
        388 => RadioButtonOption { value: Split::EnterTMG, key: "EnterTMG", alias: None, description: "Enter Troupe Master Grimm (Transition)", tooltip: Some("Splits when entering Grimm tent with requirements to trigger Troupe Master Grimm boss") },
        389 => RadioButtonOption { value: Split::TroupeMasterGrimm, key: "TroupeMasterGrimm", alias: None, description: "Troupe Master Grimm (Boss)", tooltip: Some("Splits when killing Troupe Master Grimm") },
        390 => RadioButtonOption { value: Split::EnterNKG, key: "EnterNKG", alias: None, description: "NKG Dream (Transition)", tooltip: Some("Splits on transition into Nightmare King Grimm dream") },
        391 => RadioButtonOption { value: Split::NightmareKingGrimm, key: "NightmareKingGrimm", alias: None, description: "Nightmare King Grimm (Boss)", tooltip: Some("Splits when killing Nightmare King Grimm") },
        392 => RadioButtonOption { value: Split::GreyPrince, key: "GreyPrince", alias: None, description: "Grey Prince Zote (Boss)", tooltip: Some("Splits when killing Grey Prince") },
        393 => RadioButtonOption { value: Split::GreyPrinceEssence, key: "GreyPrinceEssence", alias: None, description: "Grey Prince Zote (Essence)", tooltip: Some("Splits when getting Grey Prince Zote essence") },
        394 => RadioButtonOption { value: Split::ForgottenCrossroads, key: "ForgottenCrossroads", alias: None, description: "Forgotten Crossroads (Area)", tooltip: Some("Splits when entering Forgotten Crossroads text first appears") },
        395 => RadioButtonOption { value: Split::InfectedCrossroads, key: "InfectedCrossroads", alias: None, description: "Infected Crossroads (Area)", tooltip: Some("Splits when entering Infected Crossroads text first appears") },
        396 => RadioButtonOption { value: Split::MenderBug, key: "MenderBug", alias: None, description: "Menderbug (Killed)", tooltip: Some("Splits when killing Menderbug") },
        397 => RadioButtonOption { value: Split::EnterBroodingMawlek, key: "EnterBroodingMawlek", alias: None, description: "Enter Brooding Mawlek (Transition)", tooltip: Some("Splits when entering the Brooding Mawlek arena transition in Forgotten Crossroads") },
        398 => RadioButtonOption { value: Split::BroodingMawlek, key: "BroodingMawlek", alias: None, description: "Brooding Mawlek (Boss)", tooltip: Some("Splits when killing Brooding Mawlek") },
        399 => RadioButtonOption { value: Split::AspidHunter, key: "AspidHunter", alias: None, description: "Aspid Hunter (Mini Boss)", tooltip: Some("Splits when killing 3 Aspid Hunters in a row (ideally Aspid Arena)") },
        400 => RadioButtonOption { value: Split::BenchCrossroadsStag, key: "BenchCrossroadsStag", alias: None, description: "Crossroads Stag (Bench)", tooltip: Some("Splits when sitting on the bench at Crossroads Stag") },
        401 => RadioButtonOption { value: Split::GruzMother, key: "GruzMother", alias: None, description: "Gruz Mother (Boss)", tooltip: Some("Splits when killing Gruz Mother") },
        402 => RadioButtonOption { value: Split::SlyRescued, key: "SlyRescued", alias: None, description: "Sly Rescued (NPC)", tooltip: Some("Splits when saving Sly") },
        403 => RadioButtonOption { value: Split::FalseKnight, key: "FalseKnight", alias: None, description: "False Knight (Boss)", tooltip: Some("Splits when killing False Knight") },
        404 => RadioButtonOption { value: Split::FailedKnight, key: "FailedKnight", alias: None, description: "Failed Champion (Boss)", tooltip: Some("Splits when killing Failed Champion") },
        405 => RadioButtonOption { value: Split::FailedChampionEssence, key: "FailedChampionEssence", alias: None, description: "Failed Champion (Essence)", tooltip: Some("Splits when getting Failed Champion essence") },
        406 => RadioButtonOption { value: Split::AncestralMound, key: "AncestralMound", alias: None, description: "Ancestral Mound (Transition)", tooltip: Some("Splits on transition into Ancestral Mound") },
        407 => RadioButtonOption { value: Split::SalubrasBlessing, key: "SalubrasBlessing", alias: None, description: "Salubra's Blessing (Item)", tooltip: Some("Splits when obtaining Salubra's Blessing") },
        408 => RadioButtonOption { value: Split::SalubraExit, key: "SalubraExit", alias: None, description: "Salubra Exit (Transition)", tooltip: Some("Splits on the transition out of Salubra's Hut") },
        409 => RadioButtonOption { value: Split::PureSnail, key: "PureSnail", alias: None, description: "Shape of Unn Synergies / Pure Snail (Event)", tooltip: Some("Splits when focusing with Spore Shroom, Quick Focus, Baldur Shell, and Shape of Unn equipped") },
        410 => RadioButtonOption { value: Split::EnterHollowKnight, key: "EnterHollowKnight", alias: None, description: "EnterHollowKnight", tooltip: None },
        411 => RadioButtonOption { value: Split::UnchainedHollowKnight, key: "UnchainedHollowKnight", alias: None, description: "Chains Broken - Hollow Knight (Event)", tooltip: Some("Splits at the end of the first Hollow Knight scream after the chains are broken") },
        412 => RadioButtonOption { value: Split::HollowKnightBoss, key: "HollowKnightBoss", alias: None, description: "Segment Practice - THK (Boss)", tooltip: Some("Splits when killing The Hollow Knight") },
        413 => RadioButtonOption { value: Split::HollowKnightDreamnail, key: "HollowKnightDreamnail", alias: None, description: "Radiance Dream Entry (Event)", tooltip: Some("Splits upon entering the Radiance dream\nSkips upon killing the Hollow Knight") },
        414 => RadioButtonOption { value: Split::RadianceBoss, key: "RadianceBoss", alias: None, description: "Segment Practice - Radiance (Boss)", tooltip: Some("Splits when killing The Radiance") },
        415 => RadioButtonOption { value: Split::EnterGreenpath, key: "EnterGreenpath", alias: None, description: "Greenpath (Transition)", tooltip: Some("Splits when entering Greenpath") },
        416 => RadioButtonOption { value: Split::Greenpath, key: "Greenpath", alias: None, description: "Greenpath (Area)", tooltip: Some("Splits when entering Greenpath text first appears") },
        417 => RadioButtonOption { value: Split::MossKnight, key: "MossKnight", alias: None, description: "Moss Knight (Mini Boss)", tooltip: Some("Splits when killing Moss Knight") },
        418 => RadioButtonOption { value: Split::Zote1, key: "Zote1", alias: None, description: "Zote Rescued - Vengefly King (Mini Boss)", tooltip: Some("Splits when rescuing Zote from the Vengefly King") },
        419 => RadioButtonOption { value: Split::VengeflyKingTrans, key: "VengeflyKingTrans", alias: None, description: "Vengefly King Killed (Transition)", tooltip: Some("Splits on transition after Vengefly King in Greenpath killed") },
        420 => RadioButtonOption { value: Split::BenchGreenpathStag, key: "BenchGreenpathStag", alias: None, description: "Greenpath Stag (Bench)", tooltip: Some("Splits when sitting on the bench at Greenpath Stag") },
        421 => RadioButtonOption { value: Split::EnterHornet1, key: "EnterHornet1", alias: None, description: "Enter Hornet 1 (Transition)", tooltip: Some("Splits when entering Hornet boss arena transition in Greenpath") },
        422 => RadioButtonOption { value: Split::Hornet1, key: "Hornet1", alias: None, description: "Hornet 1 (Boss)", tooltip: Some("Splits when killing Hornet Protector in Greenpath") },
        423 => RadioButtonOption { value: Split::Aluba, key: "Aluba", alias: None, description: "Aluba (Killed)", tooltip: Some("Splits when killing an Aluba") },
        424 => RadioButtonOption { value: Split::HuntersMark, key: "HuntersMark", alias: None, description: "Hunter's Mark (Item)", tooltip: Some("Splits when obtaining the Hunter's Mark") },
        425 => RadioButtonOption { value: Split::NoEyes, key: "NoEyes", alias: None, description: "No Eyes (Boss)", tooltip: Some("Splits when killing No Eyes") },
        426 => RadioButtonOption { value: Split::NoEyesEssence, key: "NoEyesEssence", alias: None, description: "No Eyes (Essence)", tooltip: Some("Splits when absorbing essence from No Eyes") },
        427 => RadioButtonOption { value: Split::MegaMossCharger, key: "MegaMossCharger", alias: None, description: "Massive Moss Charger (Boss)", tooltip: Some("Splits when killing Massive Moss Charger") },
        428 => RadioButtonOption { value: Split::MegaMossChargerTrans, key: "MegaMossChargerTrans", alias: None, description: "Massive Moss Charger Killed (Transition)", tooltip: Some("Splits on transition after Massive Moss Charger is killed") },
        429 => RadioButtonOption { value: Split::HappyCouplePlayerDataEvent, key: "HappyCouplePlayerDataEvent", alias: None, description: "Happy Couple (Event)", tooltip: Some("Splits when talking to Nailsmith in Sheo's hut for the first time") },
        430 => RadioButtonOption { value: Split::FungalWastesEntry, key: "FungalWastesEntry", alias: None, description: "Fungal Wastes Entry (Transition)", tooltip: Some("Splits on transition to Fungal Wastes\n(Room below Crossroads, right of Queen's Station, left of Waterways or Spore Shroom room)") },
        _ => RadioButtonOption { value: Split::FungalWastes, key: "FungalWastes", alias: None, description: "Fungal Wastes (Area)", tooltip: Some("Splits when entering Fungal Wastes text first appears") },
    }
}

fn split_option_chunk_8_exec(i: usize) -> (r: RadioButtonOption<'static, Split>)
    ensures
        r == split_option_chunk_8(i),
{
    match i {
        384 => RadioButtonOption { value: Split::Dirtmouth, key: "Dirtmouth", alias: None, description: "Dirtmouth (Area)", tooltip: Some("Splits when entering Dirtmouth text first appears") },
        385 => RadioButtonOption { value: Split::SlyShopExit, key: "SlyShopExit", alias: None, description: "SlyShopExit", tooltip: None },
        386 => RadioButtonOption { value: Split::SlyShopFinished, key: "SlyShopFinished", alias: None, description: "1xx% Sly Final Shop (Transition)", tooltip: Some("Splits on leaving Sly's shop with all Sly shop charms, shards, fragments, and Lantern") },
        387 => RadioButtonOption { value: Split::ElderbugFlower, key: "ElderbugFlower", alias: None, description: "Elderbug Flower Quest (NPC)", tooltip: Some("Splits when giving the flower to the Elderbug") },
        388 => RadioButtonOption { value: Split::EnterTMG, key: "EnterTMG", alias: None, description: "Enter Troupe Master Grimm (Transition)", tooltip: Some("Splits when entering Grimm tent with requirements to trigger Troupe Master Grimm boss") },
        389 => RadioButtonOption { value: Split::TroupeMasterGrimm, key: "TroupeMasterGrimm", alias: None, description: "Troupe Master Grimm (Boss)", tooltip: Some("Splits when killing Troupe Master Grimm") },
        390 => RadioButtonOption { value: Split::EnterNKG, key: "EnterNKG", alias: None, description: "NKG Dream (Transition)", tooltip: Some("Splits on transition into Nightmare King Grimm dream") },
        391 => RadioButtonOption { value: Split::NightmareKingGrimm, key: "NightmareKingGrimm", alias: None, description: "Nightmare King Grimm (Boss)", tooltip: Some("Splits when killing Nightmare King Grimm") },
        392 => RadioButtonOption { value: Split::GreyPrince, key: "GreyPrince", alias: None, description: "Grey Prince Zote (Boss)", tooltip: Some("Splits when killing Grey Prince") },
        393 => RadioButtonOption { value: Split::GreyPrinceEssence, key: "GreyPrinceEssence", alias: None, description: "Grey Prince Zote (Essence)", tooltip: Some("Splits when getting Grey Prince Zote essence") },
        394 => RadioButtonOption { value: Split::ForgottenCrossroads, key: "ForgottenCrossroads", alias: None, description: "Forgotten Crossroads (Area)", tooltip: Some("Splits when entering Forgotten Crossroads text first appears") },
        395 => RadioButtonOption { value: Split::InfectedCrossroads, key: "InfectedCrossroads", alias: None, description: "Infected Crossroads (Area)", tooltip: Some("Splits when entering Infected Crossroads text first appears") },
        396 => RadioButtonOption { value: Split::MenderBug, key: "MenderBug", alias: None, description: "Menderbug (Killed)", tooltip: Some("Splits when killing Menderbug") },
        397 => RadioButtonOption { value: Split::EnterBroodingMawlek, key: "EnterBroodingMawlek", alias: None, description: "Enter Brooding Mawlek (Transition)", tooltip: Some("Splits when entering the Brooding Mawlek arena transition in Forgotten Crossroads") },
        398 => RadioButtonOption { value: Split::BroodingMawlek, key: "BroodingMawlek", alias: None, description: "Brooding Mawlek (Boss)", tooltip: Some("Splits when killing Brooding Mawlek") },
        399 => RadioButtonOption { value: Split::AspidHunter, key: "AspidHunter", alias: None, description: "Aspid Hunter (Mini Boss)", tooltip: Some("Splits when killing 3 Aspid Hunters in a row (ideally Aspid Arena)") },
        400 => RadioButtonOption { value: Split::BenchCrossroadsStag, key: "BenchCrossroadsStag", alias: None, description: "Crossroads Stag (Bench)", tooltip: Some("Splits when sitting on the bench at Crossroads Stag") },
        401 => RadioButtonOption { value: Split::GruzMother, key: "GruzMother", alias: None, description: "Gruz Mother (Boss)", tooltip: Some("Splits when killing Gruz Mother") },
        402 => RadioButtonOption { value: Split::SlyRescued, key: "SlyRescued", alias: None, description: "Sly Rescued (NPC)", tooltip: Some("Splits when saving Sly") },
        403 => RadioButtonOption { value: Split::FalseKnight, key: "FalseKnight", alias: None, description: "False Knight (Boss)", tooltip: Some("Splits when killing False Knight") },
        404 => RadioButtonOption { value: Split::FailedKnight, key: "FailedKnight", alias: None, description: "Failed Champion (Boss)", tooltip: Some("Splits when killing Failed Champion") },
        405 => RadioButtonOption { value: Split::FailedChampionEssence, key: "FailedChampionEssence", alias: None, description: "Failed Champion (Essence)", tooltip: Some("Splits when getting Failed Champion essence") },
        406 => RadioButtonOption { value: Split::AncestralMound, key: "AncestralMound", alias: None, description: "Ancestral Mound (Transition)", tooltip: Some("Splits on transition into Ancestral Mound") },
        407 => RadioButtonOption { value: Split::SalubrasBlessing, key: "SalubrasBlessing", alias: None, description: "Salubra's Blessing (Item)", tooltip: Some("Splits when obtaining Salubra's Blessing") },
        408 => RadioButtonOption { value: Split::SalubraExit, key: "SalubraExit", alias: None, description: "Salubra Exit (Transition)", tooltip: Some("Splits on the transition out of Salubra's Hut") },
        409 => RadioButtonOption { value: Split::PureSnail, key: "PureSnail", alias: None, description: "Shape of Unn Synergies / Pure Snail (Event)", tooltip: Some("Splits when focusing with Spore Shroom, Quick Focus, Baldur Shell, and Shape of Unn equipped") },
        410 => RadioButtonOption { value: Split::EnterHollowKnight, key: "EnterHollowKnight", alias: None, description: "EnterHollowKnight", tooltip: None },
        411 => RadioButtonOption { value: Split::UnchainedHollowKnight, key: "UnchainedHollowKnight", alias: None, description: "Chains Broken - Hollow Knight (Event)", tooltip: Some("Splits at the end of the first Hollow Knight scream after the chains are broken") },
        412 => RadioButtonOption { value: Split::HollowKnightBoss, key: "HollowKnightBoss", alias: None, description: "Segment Practice - THK (Boss)", tooltip: Some("Splits when killing The Hollow Knight") },
        413 => RadioButtonOption { value: Split::HollowKnightDreamnail, key: "HollowKnightDreamnail", alias: None, description: "Radiance Dream Entry (Event)", tooltip: Some("Splits upon entering the Radiance dream\nSkips upon killing the Hollow Knight") },
        414 => RadioButtonOption { value: Split::RadianceBoss, key: "RadianceBoss", alias: None, description: "Segment Practice - Radiance (Boss)", tooltip: Some("Splits when killing The Radiance") },
        415 => RadioButtonOption { value: Split::EnterGreenpath, key: "EnterGreenpath", alias: None, description: "Greenpath (Transition)", tooltip: Some("Splits when entering Greenpath") },
        416 => RadioButtonOption { value: Split::Greenpath, key: "Greenpath", alias: None, description: "Greenpath (Area)", tooltip: Some("Splits when entering Greenpath text first appears") },
        417 => RadioButtonOption { value: Split::MossKnight, key: "MossKnight", alias: None, description: "Moss Knight (Mini Boss)", tooltip: Some("Splits when killing Moss Knight") },
        418 => RadioButtonOption { value: Split::Zote1, key: "Zote1", alias: None, description: "Zote Rescued - Vengefly King (Mini Boss)", tooltip: Some("Splits when rescuing Zote from the Vengefly King") },
        419 => RadioButtonOption { value: Split::VengeflyKingTrans, key: "VengeflyKingTrans", alias: None, description: "Vengefly King Killed (Transition)", tooltip: Some("Splits on transition after Vengefly King in Greenpath killed") },
        420 => RadioButtonOption { value: Split::BenchGreenpathStag, key: "BenchGreenpathStag", alias: None, description: "Greenpath Stag (Bench)", tooltip: Some("Splits when sitting on the bench at Greenpath Stag") },
        421 => RadioButtonOption { value: Split::EnterHornet1, key: "EnterHornet1", alias: None, description: "Enter Hornet 1 (Transition)", tooltip: Some("Splits when entering Hornet boss arena transition in Greenpath") },
        422 => RadioButtonOption { value: Split::Hornet1, key: "Hornet1", alias: None, description: "Hornet 1 (Boss)", tooltip: Some("Splits when killing Hornet Protector in Greenpath") },
        423 => RadioButtonOption { value: Split::Aluba, key: "Aluba", alias: None, description: "Aluba (Killed)", tooltip: Some("Splits when killing an Aluba") },
        424 => RadioButtonOption { value: Split::HuntersMark, key: "HuntersMark", alias: None, description: "Hunter's Mark (Item)", tooltip: Some("Splits when obtaining the Hunter's Mark") },
        425 => RadioButtonOption { value: Split::NoEyes, key: "NoEyes", alias: None, description: "No Eyes (Boss)", tooltip: Some("Splits when killing No Eyes") },
        426 => RadioButtonOption { value: Split::NoEyesEssence, key: "NoEyesEssence", alias: None, description: "No Eyes (Essence)", tooltip: Some("Splits when absorbing essence from No Eyes") },
        427 => RadioButtonOption { value: Split::MegaMossCharger, key: "MegaMossCharger", alias: None, description: "Massive Moss Charger (Boss)", tooltip: Some("Splits when killing Massive Moss Charger") },
        428 => RadioButtonOption { value: Split::MegaMossChargerTrans, key: "MegaMossChargerTrans", alias: None, description: "Massive Moss Charger Killed (Transition)", tooltip: Some("Splits on transition after Massive Moss Charger is killed") },
        429 => RadioButtonOption { value: Split::HappyCouplePlayerDataEvent, key: "HappyCouplePlayerDataEvent", alias: None, description: "Happy Couple (Event)", tooltip: Some("Splits when talking to Nailsmith in Sheo's hut for the first time") },
        430 => RadioButtonOption { value: Split::FungalWastesEntry, key: "FungalWastesEntry", alias: None, description: "Fungal Wastes Entry (Transition)", tooltip: Some("Splits on transition to Fungal Wastes\n(Room below Crossroads, right of Queen's Station, left of Waterways or Spore Shroom room)") },
        _ => RadioButtonOption { value: Split::FungalWastes, key: "FungalWastes", alias: None, description: "Fungal Wastes (Area)", tooltip: Some("Splits when entering Fungal Wastes text first appears") },
    }
}

/// The options at positions 432 to 479.
pub open spec fn split_option_chunk_9(i: usize) -> RadioButtonOption<'static, Split> {
    match i {
        432 => RadioButtonOption { value: Split::BenchQueensStation, key: "BenchQueensStation", alias: None, description: "Queen's Station (Bench)", tooltip: Some("Splits when sitting on the bench in Queen's Station") },
        433 => RadioButtonOption { value: Split::ElderHu, key: "ElderHu", alias: None, description: "Elder Hu (Boss)", tooltip: Some("Splits when killing Elder Hu") },
        434 => RadioButtonOption { value: Split::ElderHuEssence, key: "ElderHuEssence", alias: None, description: "Elder Hu (Essence)", tooltip: Some("Splits when absorbing essence from Elder Hu") },
        435 => RadioButtonOption { value: Split::ElderHuTrans, key: "ElderHuTrans", alias: None, description: "Elder Hu Killed (Transition)", tooltip: Some("Splits on the transition after killing Elder Hu") },
        436 => RadioButtonOption { value: Split::BrettaRescued, key: "BrettaRescued", alias: None, description: "Bretta Rescued (NPC)", tooltip: Some("Splits when saving Bretta") },
        437 => RadioButtonOption { value: Split::MantisLords, key: "MantisLords", alias: None, description: "Mantis Lords (Boss)", tooltip: Some("Splits when killing Mantis Lords") },
        438 => RadioButtonOption { value: Split::Gorb, key: "Gorb", alias: None, description: "Gorb (Boss)", tooltip: Some("Splits when killing Gorb") },
        439 => RadioButtonOption { value: Split::GorbEssence, key: "GorbEssence", alias: None, description: "Gorb (Essence)", tooltip: Some("Splits when absorbing essence from Gorb") },
        440 => RadioButtonOption { value: Split::NightmareLantern, key: "NightmareLantern", alias: None, description: "Nightmare Lantern Lit (Event)", tooltip: Some("Splits when initially lighting the Nightmare Lantern") },
        441 => RadioButtonOption { value: Split::NightmareLanternDestroyed, key: "NightmareLanternDestroyed", alias: None, description: "Nightmare Lantern Destroyed (Event)", tooltip: Some("Splits when destroying the Nightmare Lantern") },
        442 => RadioButtonOption { value: Split::BlueLake, key: "BlueLake", alias: None, description: "Blue Lake (Transition)", tooltip: Some("Splits on transition to Blue Lake from either side") },
        443 => RadioButtonOption { value: Split::EnterAnyDream, key: "EnterAnyDream", alias: None, description: "Enter Any Dream (Transition)", tooltip: Some("Splits when entering any dream world") },
        444 => RadioButtonOption { value: Split::DreamNailExit, key: "DreamNailExit", alias: None, description: "DreamNailExit", tooltip: None },
        445 => RadioButtonOption { value: Split::RestingGrounds, key: "RestingGrounds", alias: None, description: "Resting Grounds (Area)", tooltip: Some("Splits when entering Resting Grounds text first appears") },
        446 => RadioButtonOption { value: Split::BenchRGStag, key: "BenchRGStag", alias: None, description: "Resting Grounds Stag (Bench)", tooltip: Some("Splits when sitting on the bench at Resting Grounds Stag") },
        447 => RadioButtonOption { value: Split::Xero, key: "Xero", alias: None, description: "Xero (Boss)", tooltip: Some("Splits when killing Xero") },
        448 => RadioButtonOption { value: Split::XeroEssence, key: "XeroEssence", alias: None, description: "Xero (Essence)", tooltip: Some("Splits when absorbing essence from Xero") },
        449 => RadioButtonOption { value: Split::SpiritGladeOpen, key: "SpiritGladeOpen", alias: None, description: "Spirit Glade Door (Event)", tooltip: Some("Splits when the Seer opens the Spirits' Glade after bringing back 200 essence") },
        450 => RadioButtonOption { value: Split::SeerDeparts, key: "SeerDeparts", alias: None, description: "Seer Departs (Event)", tooltip: Some("Splits when the Seer Departs after bringing back 2400 essence") },
        451 => RadioButtonOption { value: Split::CatacombsEntry, key: "CatacombsEntry", alias: None, description: "Catacombs Entry (Transition)", tooltip: Some("Splits on entry to the catacombs below Resting Grounds") },
        452 => RadioButtonOption { value: Split::MetGreyMourner, key: "MetGreyMourner", alias: None, description: "Met Grey Mourner (NPC)", tooltip: Some("Splits when talking to Grey Mourner for the first time") },
        453 => RadioButtonOption { value: Split::GreyMournerSeerAscended, key: "GreyMournerSeerAscended", alias: None, description: "Mourner w/ Seer Ascended (NPC)", tooltip: Some("Splits when both talked to Grey Mourner and Seer has ascended") },
        454 => RadioButtonOption { value: Split::CityGateOpen, key: "CityGateOpen", alias: None, description: "City Gate (Event)", tooltip: Some("Splits when using the City Crest to open the City Gate") },
        455 => RadioButtonOption { value: Split::CityGateAndMantisLords, key: "CityGateAndMantisLords", alias: None, description: "City Gate w/ Mantis Lords defeated (Event)", tooltip: Some("To make sure you don't forget Mantis Lords") },
        456 => RadioButtonOption { value: Split::CityOfTears, key: "CityOfTears", alias: None, description: "City of Tears (Area)", tooltip: Some("Splits when entering City of Tears text first appears") },
        457 => RadioButtonOption { value: Split::GorgeousHusk, key: "GorgeousHusk", alias: None, description: "Gorgeous Husk (Killed)", tooltip: Some("Splits when killing Gorgeous Husk") },
        458 => RadioButtonOption { value: Split::TransGorgeousHusk, key: "TransGorgeousHusk", alias: None, description: "Gorgeous Husk Killed (Transition)", tooltip: Some("Splits on transition after Gorgeous Husk defeated") },
        459 => RadioButtonOption { value: Split::MenuGorgeousHusk, key: "MenuGorgeousHusk", alias: None, description: "Main Menu w/ Ghusk (Menu)", tooltip: Some("Splits on transition to the main menu after Gorgeous Husk defeated") },
        460 => RadioButtonOption { value: Split::EnterRafters, key: "EnterRafters", alias: None, description: "Rafters (Transition)", tooltip: Some("Splits on any transition into the City Rafters room") },
        461 => RadioButtonOption { value: Split::Lemm2, key: "Lemm2", alias: None, description: "Lemm Shop (NPC)", tooltip: Some("Splits when talking to Lemm in the shop for the first time") },
        462 => RadioButtonOption { value: Split::AllCharmNotchesLemm2CP, key: "AllCharmNotchesLemm2CP", alias: None, description: "Lemm - ACN (Event)", tooltip: Some("Splits on having sold at least 6100 geo worth of relics to Lemm") },
        463 => RadioButtonOption { value: Split::TollBenchCity, key: "TollBenchCity", alias: None, description: "Sanctum Bench (Toll)", tooltip: Some("Splits when buying City/Sanctum toll bench by Cornifer's location") },
        464 => RadioButtonOption { value: Split::KilledSoulTwister, key: "KilledSoulTwister", alias: None, description: "Soul Twister (Killed)", tooltip: Some("Splits on first Soul Twister kill") },
        465 => RadioButtonOption { value: Split::EnterSanctum, key: "EnterSanctum", alias: None, description: "Soul Sanctum (Transition)", tooltip: Some("Splits when entering Soul Sanctum") },
        466 => RadioButtonOption { value: Split::EnterSanctumWithShadeSoul, key: "EnterSanctumWithShadeSoul", alias: None, description: "Soul Sanctum w/ Shade Soul (Transition)", tooltip: Some("Splits when entering Soul Sanctum after obtaining Shade Soul") },
        467 => RadioButtonOption { value: Split::KilledSanctumWarrior, key: "KilledSanctumWarrior", alias: None, description: "Soul Warrior (Killed)", tooltip: Some("Splits on first Soul Warrior kill") },
        468 => RadioButtonOption { value: Split::EnterSoulMaster, key: "EnterSoulMaster", alias: None, description: "Enter Soul Master (Transition)", tooltip: Some("Splits when entering Soul Master boss arena transition") },
        469 => RadioButtonOption { value: Split::SoulMasterEncountered, key: "SoulMasterEncountered", alias: None, description: "Soul Master Encountered (Boss)", tooltip: Some("Splits when Soul Master is activated the first time as the arena gate closes") },
        470 => RadioButtonOption { value: Split::SoulMasterPhase1, key: "SoulMasterPhase1", alias: None, description: "Soul Master - Fake Spell Pickup (Boss)", tooltip: Some("Splits when triggering Soul Master phase 2 the first time") },
        471 => RadioButtonOption { value: Split::SoulMaster, key: "SoulMaster", alias: None, description: "Soul Master (Boss)", tooltip: Some("Splits when killing Soul Master") },
        472 => RadioButtonOption { value: Split::SoulTyrant, key: "SoulTyrant", alias: None, description: "Soul Tyrant (Boss)", tooltip: Some("Splits when killing Soul Tyrant") },
        473 => RadioButtonOption { value: Split::SoulTyrantEssence, key: "SoulTyrantEssence", alias: None, description: "Soul Tyrant (Essence)", tooltip: Some("Splits when getting Soul Tyrant essence") },
        474 => RadioButtonOption { value: Split::SoulTyrantEssenceWithSanctumGrub, key: "SoulTyrantEssenceWithSanctumGrub", alias: None, description: "Soul Tyrant w/ Sanctum Grub (Essence)", tooltip: Some("Splits when getting Soul Tyrant essence and Sanctum fakedive grub") },
        475 => RadioButtonOption { value: Split::BenchStorerooms, key: "BenchStorerooms", alias: None, description: "Storerooms (Bench)", tooltip: Some("Splits when sitting on the bench in City Storerooms") },
        476 => RadioButtonOption { value: Split::BenchKingsStation, key: "BenchKingsStation", alias: None, description: "King's Station (Bench)", tooltip: Some("Splits when sitting on the bench in King's Station") },
        477 => RadioButtonOption { value: Split::BenchSpire, key: "BenchSpire", alias: None, description: "Watcher's Spire (Bench)", tooltip: Some("Splits when sitting on the bench in Watcher's Spire") },
        478 => RadioButtonOption { value: Split::BenchSpireGHS, key: "BenchSpireGHS", alias: None, description: "Watcher's Spire + Killed Great Husk Sentry (Bench)", tooltip: Some("Splits when sitting on the bench in Watcher's Spire after killing a Great Husk Sentry") },
        _ => RadioButtonOption { value: Split::EnterBlackKnight, key: "EnterBlackKnight", alias: None, description: "EnterBlackKnight", tooltip: None },
    }
}

fn split_option_chunk_9_exec(i: usize) -> (r: RadioButtonOption<'static, Split>)
    ensures
        r == split_option_chunk_9(i),
{
    match i {
        432 => RadioButtonOption { value: Split::BenchQueensStation, key: "BenchQueensStation", alias: None, description: "Queen's Station (Bench)", tooltip: Some("Splits when sitting on the bench in Queen's Station") },
        433 => RadioButtonOption { value: Split::ElderHu, key: "ElderHu", alias: None, description: "Elder Hu (Boss)", tooltip: Some("Splits when killing Elder Hu") },
        434 => RadioButtonOption { value: Split::ElderHuEssence, key: "ElderHuEssence", alias: None, description: "Elder Hu (Essence)", tooltip: Some("Splits when absorbing essence from Elder Hu") },
        435 => RadioButtonOption { value: Split::ElderHuTrans, key: "ElderHuTrans", alias: None, description: "Elder Hu Killed (Transition)", tooltip: Some("Splits on the transition after killing Elder Hu") },
        436 => RadioButtonOption { value: Split::BrettaRescued, key: "BrettaRescued", alias: None, description: "Bretta Rescued (NPC)", tooltip: Some("Splits when saving Bretta") },
        437 => RadioButtonOption { value: Split::MantisLords, key: "MantisLords", alias: None, description: "Mantis Lords (Boss)", tooltip: Some("Splits when killing Mantis Lords") },
        438 => RadioButtonOption { value: Split::Gorb, key: "Gorb", alias: None, description: "Gorb (Boss)", tooltip: Some("Splits when killing Gorb") },
        439 => RadioButtonOption { value: Split::GorbEssence, key: "GorbEssence", alias: None, description: "Gorb (Essence)", tooltip: Some("Splits when absorbing essence from Gorb") },
        440 => RadioButtonOption { value: Split::NightmareLantern, key: "NightmareLantern", alias: None, description: "Nightmare Lantern Lit (Event)", tooltip: Some("Splits when initially lighting the Nightmare Lantern") },
        441 => RadioButtonOption { value: Split::NightmareLanternDestroyed, key: "NightmareLanternDestroyed", alias: None, description: "Nightmare Lantern Destroyed (Event)", tooltip: Some("Splits when destroying the Nightmare Lantern") },
        442 => RadioButtonOption { value: Split::BlueLake, key: "BlueLake", alias: None, description: "Blue Lake (Transition)", tooltip: Some("Splits on transition to Blue Lake from either side") },
        443 => RadioButtonOption { value: Split::EnterAnyDream, key: "EnterAnyDream", alias: None, description: "Enter Any Dream (Transition)", tooltip: Some("Splits when entering any dream world") },
        444 => RadioButtonOption { value: Split::DreamNailExit, key: "DreamNailExit", alias: None, description: "DreamNailExit", tooltip: None },
        445 => RadioButtonOption { value: Split::RestingGrounds, key: "RestingGrounds", alias: None, description: "Resting Grounds (Area)", tooltip: Some("Splits when entering Resting Grounds text first appears") },
        446 => RadioButtonOption { value: Split::BenchRGStag, key: "BenchRGStag", alias: None, description: "Resting Grounds Stag (Bench)", tooltip: Some("Splits when sitting on the bench at Resting Grounds Stag") },
        447 => RadioButtonOption { value: Split::Xero, key: "Xero", alias: None, description: "Xero (Boss)", tooltip: Some("Splits when killing Xero") },
        448 => RadioButtonOption { value: Split::XeroEssence, key: "XeroEssence", alias: None, description: "Xero (Essence)", tooltip: Some("Splits when absorbing essence from Xero") },
        449 => RadioButtonOption { value: Split::SpiritGladeOpen, key: "SpiritGladeOpen", alias: None, description: "Spirit Glade Door (Event)", tooltip: Some("Splits when the Seer opens the Spirits' Glade after bringing back 200 essence") },
        450 => RadioButtonOption { value: Split::SeerDeparts, key: "SeerDeparts", alias: None, description: "Seer Departs (Event)", tooltip: Some("Splits when the Seer Departs after bringing back 2400 essence") },
        451 => RadioButtonOption { value: Split::CatacombsEntry, key: "CatacombsEntry", alias: None, description: "Catacombs Entry (Transition)", tooltip: Some("Splits on entry to the catacombs below Resting Grounds") },
        452 => RadioButtonOption { value: Split::MetGreyMourner, key: "MetGreyMourner", alias: None, description: "Met Grey Mourner (NPC)", tooltip: Some("Splits when talking to Grey Mourner for the first time") },
        453 => RadioButtonOption { value: Split::GreyMournerSeerAscended, key: "GreyMournerSeerAscended", alias: None, description: "Mourner w/ Seer Ascended (NPC)", tooltip: Some("Splits when both talked to Grey Mourner and Seer has ascended") },
        454 => RadioButtonOption { value: Split::CityGateOpen, key: "CityGateOpen", alias: None, description: "City Gate (Event)", tooltip: Some("Splits when using the City Crest to open the City Gate") },
        455 => RadioButtonOption { value: Split::CityGateAndMantisLords, key: "CityGateAndMantisLords", alias: None, description: "City Gate w/ Mantis Lords defeated (Event)", tooltip: Some("To make sure you don't forget Mantis Lords") },
        456 => RadioButtonOption { value: Split::CityOfTears, key: "CityOfTears", alias: None, description: "City of Tears (Area)", tooltip: Some("Splits when entering City of Tears text first appears") },
        457 => RadioButtonOption { value: Split::GorgeousHusk, key: "GorgeousHusk", alias: None, description: "Gorgeous Husk (Killed)", tooltip: Some("Splits when killing Gorgeous Husk") },
        458 => RadioButtonOption { value: Split::TransGorgeousHusk, key: "TransGorgeousHusk", alias: None, description: "Gorgeous Husk Killed (Transition)", tooltip: Some("Splits on transition after Gorgeous Husk defeated") },
        459 => RadioButtonOption { value: Split::MenuGorgeousHusk, key: "MenuGorgeousHusk", alias: None, description: "Main Menu w/ Ghusk (Menu)", tooltip: Some("Splits on transition to the main menu after Gorgeous Husk defeated") },
        460 => RadioButtonOption { value: Split::EnterRafters, key: "EnterRafters", alias: None, description: "Rafters (Transition)", tooltip: Some("Splits on any transition into the City Rafters room") },
        461 => RadioButtonOption { value: Split::Lemm2, key: "Lemm2", alias: None, description: "Lemm Shop (NPC)", tooltip: Some("Splits when talking to Lemm in the shop for the first time") },
        462 => RadioButtonOption { value: Split::AllCharmNotchesLemm2CP, key: "AllCharmNotchesLemm2CP", alias: None, description: "Lemm - ACN (Event)", tooltip: Some("Splits on having sold at least 6100 geo worth of relics to Lemm") },
        463 => RadioButtonOption { value: Split::TollBenchCity, key: "TollBenchCity", alias: None, description: "Sanctum Bench (Toll)", tooltip: Some("Splits when buying City/Sanctum toll bench by Cornifer's location") },
        464 => RadioButtonOption { value: Split::KilledSoulTwister, key: "KilledSoulTwister", alias: None, description: "Soul Twister (Killed)", tooltip: Some("Splits on first Soul Twister kill") },
        465 => RadioButtonOption { value: Split::EnterSanctum, key: "EnterSanctum", alias: None, description: "Soul Sanctum (Transition)", tooltip: Some("Splits when entering Soul Sanctum") },
        466 => RadioButtonOption { value: Split::EnterSanctumWithShadeSoul, key: "EnterSanctumWithShadeSoul", alias: None, description: "Soul Sanctum w/ Shade Soul (Transition)", tooltip: Some("Splits when entering Soul Sanctum after obtaining Shade Soul") },
        467 => RadioButtonOption { value: Split::KilledSanctumWarrior, key: "KilledSanctumWarrior", alias: None, description: "Soul Warrior (Killed)", tooltip: Some("Splits on first Soul Warrior kill") },
        468 => RadioButtonOption { value: Split::EnterSoulMaster, key: "EnterSoulMaster", alias: None, description: "Enter Soul Master (Transition)", tooltip: Some("Splits when entering Soul Master boss arena transition") },
        469 => RadioButtonOption { value: Split::SoulMasterEncountered, key: "SoulMasterEncountered", alias: None, description: "Soul Master Encountered (Boss)", tooltip: Some("Splits when Soul Master is activated the first time as the arena gate closes") },
        470 => RadioButtonOption { value: Split::SoulMasterPhase1, key: "SoulMasterPhase1", alias: None, description: "Soul Master - Fake Spell Pickup (Boss)", tooltip: Some("Splits when triggering Soul Master phase 2 the first time") },
        471 => RadioButtonOption { value: Split::SoulMaster, key: "SoulMaster", alias: None, description: "Soul Master (Boss)", tooltip: Some("Splits when killing Soul Master") },
        472 => RadioButtonOption { value: Split::SoulTyrant, key: "SoulTyrant", alias: None, description: "Soul Tyrant (Boss)", tooltip: Some("Splits when killing Soul Tyrant") },
        473 => RadioButtonOption { value: Split::SoulTyrantEssence, key: "SoulTyrantEssence", alias: None, description: "Soul Tyrant (Essence)", tooltip: Some("Splits when getting Soul Tyrant essence") },
        474 => RadioButtonOption { value: Split::SoulTyrantEssenceWithSanctumGrub, key: "SoulTyrantEssenceWithSanctumGrub", alias: None, description: "Soul Tyrant w/ Sanctum Grub (Essence)", tooltip: Some("Splits when getting Soul Tyrant essence and Sanctum fakedive grub") },
        475 => RadioButtonOption { value: Split::BenchStorerooms, key: "BenchStorerooms", alias: None, description: "Storerooms (Bench)", tooltip: Some("Splits when sitting on the bench in City Storerooms") },
        476 => RadioButtonOption { value: Split::BenchKingsStation, key: "BenchKingsStation", alias: None, description: "King's Station (Bench)", tooltip: Some("Splits when sitting on the bench in King's Station") },
        477 => RadioButtonOption { value: Split::BenchSpire, key: "BenchSpire", alias: None, description: "Watcher's Spire (Bench)", tooltip: Some("Splits when sitting on the bench in Watcher's Spire") },
        478 => RadioButtonOption { value: Split::BenchSpireGHS, key: "BenchSpireGHS", alias: None, description: "Watcher's Spire + Killed Great Husk Sentry (Bench)", tooltip: Some("Splits when sitting on the bench in Watcher's Spire after killing a Great Husk Sentry") },
        _ => RadioButtonOption { value: Split::EnterBlackKnight, key: "EnterBlackKnight", alias: None, description: "EnterBlackKnight", tooltip: None },
    }
}

/// The options at positions 480 to 527.
pub open spec fn split_option_chunk_10(i: usize) -> RadioButtonOption<'static, Split> {
    match i {
        480 => RadioButtonOption { value: Split::WatcherChandelier, key: "WatcherChandelier", alias: None, description: "Chandelier - Watcher Knights (Event)", tooltip: Some("Splits when dropping the chandelier on one of the Watcher Knights") },
        481 => RadioButtonOption { value: Split::BlackKnight, key: "BlackKnight", alias: None, description: "Watcher Knight (Boss)", tooltip: Some("Splits when killing Watcher Knights") },
        482 => RadioButtonOption { value: Split::BlackKnightTrans, key: "BlackKnightTrans", alias: None, description: "Watcher Knight Killed (Transition)", tooltip: Some("Splits on the transition after killing Watcher Knights") },
        483 => RadioButtonOption { value: Split::EnterLoveTower, key: "EnterLoveTower", alias: None, description: "Tower of Love (Transition)", tooltip: Some("Splits when entering the Tower of Love") },
        484 => RadioButtonOption { value: Split::Collector, key: "Collector", alias: None, description: "Collector (Boss)", tooltip: Some("Splits when killing Collector") },
        485 => RadioButtonOption { value: Split::TransCollector, key: "TransCollector", alias: None, description: "Collector Defeated (Transition)", tooltip: Some("Splits on transition after defeating the Collector") },
        486 => RadioButtonOption { value: Split::NailsmithKilled, key: "NailsmithKilled", alias: None, description: "Nailsmith Killed (Event)", tooltip: Some("Splits when Nailsmith is killed") },
        487 => RadioButtonOption { value: Split::NailsmithChoice, key: "NailsmithChoice", alias: None, description: "Nailsmith Killed/Spared (Event)", tooltip: Some("Splits when Nailsmith is killed\nSkips when nailsmith is spared") },
        488 => RadioButtonOption { value: Split::CrystalPeakEntry, key: "CrystalPeakEntry", alias: None, description: "Crystal Peak Entry (Transition)", tooltip: Some("Splits on transition to the room where the dive and toll entrances meet, or the room right of Dirtmouth") },
        489 => RadioButtonOption { value: Split::CrystalPeak, key: "CrystalPeak", alias: None, description: "Crystal Peak (Area)", tooltip: Some("Splits when entering Crystal Peak text first appears") },
        490 => RadioButtonOption { value: Split::HuskMiner, key: "HuskMiner", alias: None, description: "Husk Miner (Killed)", tooltip: Some("Splits when killing a Husk Miner") },
        491 => RadioButtonOption { value: Split::CrystalGuardian1, key: "CrystalGuardian1", alias: None, description: "Crystal Guardian (Boss)", tooltip: Some("Splits when killing the Crystal Guardian") },
        492 => RadioButtonOption { value: Split::CrystalGuardian2, key: "CrystalGuardian2", alias: None, description: "Enraged Guardian (Boss)", tooltip: Some("Splits when killing the Enraged Guardian") },
        493 => RadioButtonOption { value: Split::EnterCrown, key: "EnterCrown", alias: None, description: "Hallownest's Crown (Transition)", tooltip: Some("Splits on transition into the room with the Whispering Root at the base of Hallownest's Crown") },
        494 => RadioButtonOption { value: Split::CrystalMoundExit, key: "CrystalMoundExit", alias: None, description: "Crystal Mound Exit (Transition)", tooltip: Some("Splits on transition from Crystal Mound") },
        495 => RadioButtonOption { value: Split::MineLiftOpened, key: "MineLiftOpened", alias: None, description: "Crystal Peak Lift Opened (Event)", tooltip: Some("Splits when opening the lever for the lift between Dirtmouth and Crystal Peak") },
        496 => RadioButtonOption { value: Split::WaterwaysManhole, key: "WaterwaysManhole", alias: None, description: "Waterways Manhole (Toll)", tooltip: Some("Splits when opening the Waterways Manhole") },
        497 => RadioButtonOption { value: Split::WaterwaysEntry, key: "WaterwaysEntry", alias: None, description: "Waterways (Transition)", tooltip: Some("Splits on transition to Waterways") },
        498 => RadioButtonOption { value: Split::RoyalWaterways, key: "RoyalWaterways", alias: None, description: "Royal Waterways (Area)", tooltip: Some("Splits when entering Royal Waterways text first appears") },
        499 => RadioButtonOption { value: Split::DungDefender, key: "DungDefender", alias: None, description: "Dung Defender (Boss)", tooltip: Some("Splits when killing Dung Defender") },
        500 => RadioButtonOption { value: Split::WhiteDefender, key: "WhiteDefender", alias: None, description: "White Defender (Boss)", tooltip: Some("Splits when killing White Defender") },
        501 => RadioButtonOption { value: Split::WhiteDefenderEssence, key: "WhiteDefenderEssence", alias: None, description: "White Defender (Essence)", tooltip: Some("Splits when getting White Defender essence") },
        502 => RadioButtonOption { value: Split::MetEmilitia, key: "MetEmilitia", alias: None, description: "Met Emilitia (Event)", tooltip: Some("Splits when talking to Emilitia for the first time") },
        503 => RadioButtonOption { value: Split::GivenEmilitiaFlower, key: "GivenEmilitiaFlower", alias: None, description: "Emilitia Flower (NPC)", tooltip: Some("Splits when giving Emilita a flower") },
        504 => RadioButtonOption { value: Split::Flukemarm, key: "Flukemarm", alias: None, description: "Flukemarm (Boss)", tooltip: Some("Splits when killing Flukemarm") },
        505 => RadioButtonOption { value: Split::EnterJunkPit, key: "EnterJunkPit", alias: None, description: "Junk Pit (Transition)", tooltip: Some("Splits on transition into Junk Pit") },
        506 => RadioButtonOption { value: Split::BasinEntry, key: "BasinEntry", alias: None, description: "Ancient Basin (Transition)", tooltip: Some("Splits on transition to Ancient Basin") },
        507 => RadioButtonOption { value: Split::Abyss, key: "Abyss", alias: None, description: "Ancient Basin (Area)", tooltip: Some("Splits when entering Ancient Basin text first appears") },
        508 => RadioButtonOption { value: Split::SavedCloth, key: "SavedCloth", alias: None, description: "Saved Cloth (Event)", tooltip: Some("Splits when saving Cloth in Ancient Basin") },
        509 => RadioButtonOption { value: Split::TollBenchBasin, key: "TollBenchBasin", alias: None, description: "Basin Bench (Toll)", tooltip: Some("Splits when buying Ancient Basin toll bench") },
        510 => RadioButtonOption { value: Split::Abyss19from18, key: "Abyss19from18", alias: None, description: "Abyss19from18", tooltip: None },
        511 => RadioButtonOption { value: Split::BrokenVessel, key: "BrokenVessel", alias: None, description: "Broken Vessel (Boss)", tooltip: Some("Splits when killing Broken Vessel") },
        512 => RadioButtonOption { value: Split::BrokenVesselTrans, key: "BrokenVesselTrans", alias: None, description: "Broken Vessel (Transition)", tooltip: Some("Splits on any non-death transition after defeating Broken Vessel") },
        513 => RadioButtonOption { value: Split::LostKin, key: "LostKin", alias: None, description: "Lost Kin (Boss)", tooltip: Some("Splits when killing Lost Kin") },
        514 => RadioButtonOption { value: Split::LostKinEssence, key: "LostKinEssence", alias: None, description: "Lost Kin (Essence)", tooltip: Some("Splits when getting Lost Kin essence") },
        515 => RadioButtonOption { value: Split::BenchHiddenStation, key: "BenchHiddenStation", alias: None, description: "Hidden Station (Bench)", tooltip: Some("Splits when sitting on the bench in Hidden Station") },
        516 => RadioButtonOption { value: Split::WhitePalaceEntry, key: "WhitePalaceEntry", alias: None, description: "White Palace Entry (Transition)", tooltip: Some("Splits when entering the first White Palace scene") },
        517 => RadioButtonOption { value: Split::WhitePalaceLowerEntry, key: "WhitePalaceLowerEntry", alias: None, description: "White Palace - Lower Entry (Room)", tooltip: Some("Splits on transition to White_Palace_01") },
        518 => RadioButtonOption { value: Split::WhitePalace, key: "WhitePalace", alias: None, description: "White Palace (Area)", tooltip: Some("Splits when entering White Palace text for the first time") },
        519 => RadioButtonOption { value: Split::WhitePalaceLowerOrb, key: "WhitePalaceLowerOrb", alias: None, description: "White Palace - Lower Orb (Room)", tooltip: Some("Splits on transition to White_Palace_02") },
        520 => RadioButtonOption { value: Split::WhitePalaceOrb1, key: "WhitePalaceOrb1", alias: None, description: "White Palace - Lower Orb (Lever)", tooltip: Some("Splits when lighting the orb in White Palace lowest floor") },
        521 => RadioButtonOption { value: Split::WhitePalaceAtrium, key: "WhitePalaceAtrium", alias: None, description: "White Palace - Atrium (Room)", tooltip: Some("Splits on any transition to White_Palace_03_Hub") },
        522 => RadioButtonOption { value: Split::WhitePalaceLeftEntry, key: "WhitePalaceLeftEntry", alias: None, description: "White Palace - Left Entry (Room)", tooltip: Some("Splits on transition to White_Palace_04") },
        523 => RadioButtonOption { value: Split::WhitePalaceLeftWingMid, key: "WhitePalaceLeftWingMid", alias: None, description: "White Palace - Left Midpoint (Room)", tooltip: Some("Splits on transition between White_Palace_04 and _14") },
        524 => RadioButtonOption { value: Split::WhitePalaceOrb3, key: "WhitePalaceOrb3", alias: None, description: "White Palace - Left Orb (Lever)", tooltip: Some("Splits when lighting the orb in White Palace left wing") },
        525 => RadioButtonOption { value: Split::WhitePalaceRightEntry, key: "WhitePalaceRightEntry", alias: None, description: "White Palace - Right Side Entry (Room)", tooltip: Some("Splits on transition between White_Palace_03_Hub and _15") },
        526 => RadioButtonOption { value: Split::WhitePalaceRightClimb, key: "WhitePalaceRightClimb", alias: None, description: "White Palace - Right Side Climb (Room)", tooltip: Some("Splits on transition between White_Palace_05 and _16") },
        _ => RadioButtonOption { value: Split::WhitePalaceRightSqueeze, key: "WhitePalaceRightSqueeze", alias: None, description: "White Palace - Right Side Saw Squeeze (Room)", tooltip: Some("Splits on transition between White_Palace_16 and _05") },
    }
}

fn split_option_chunk_10_exec(i: usize) -> (r: RadioButtonOption<'static, Split>)
    ensures
        r == split_option_chunk_10(i),
{
    match i {
        480 => RadioButtonOption { value: Split::WatcherChandelier, key: "WatcherChandelier", alias: None, description: "Chandelier - Watcher Knights (Event)", tooltip: Some("Splits when dropping the chandelier on one of the Watcher Knights") },
        481 => RadioButtonOption { value: Split::BlackKnight, key: "BlackKnight", alias: None, description: "Watcher Knight (Boss)", tooltip: Some("Splits when killing Watcher Knights") },
        482 => RadioButtonOption { value: Split::BlackKnightTrans, key: "BlackKnightTrans", alias: None, description: "Watcher Knight Killed (Transition)", tooltip: Some("Splits on the transition after killing Watcher Knights") },
        483 => RadioButtonOption { value: Split::EnterLoveTower, key: "EnterLoveTower", alias: None, description: "Tower of Love (Transition)", tooltip: Some("Splits when entering the Tower of Love") },
        484 => RadioButtonOption { value: Split::Collector, key: "Collector", alias: None, description: "Collector (Boss)", tooltip: Some("Splits when killing Collector") },
        485 => RadioButtonOption { value: Split::TransCollector, key: "TransCollector", alias: None, description: "Collector Defeated (Transition)", tooltip: Some("Splits on transition after defeating the Collector") },
        486 => RadioButtonOption { value: Split::NailsmithKilled, key: "NailsmithKilled", alias: None, description: "Nailsmith Killed (Event)", tooltip: Some("Splits when Nailsmith is killed") },
        487 => RadioButtonOption { value: Split::NailsmithChoice, key: "NailsmithChoice", alias: None, description: "Nailsmith Killed/Spared (Event)", tooltip: Some("Splits when Nailsmith is killed\nSkips when nailsmith is spared") },
        488 => RadioButtonOption { value: Split::CrystalPeakEntry, key: "CrystalPeakEntry", alias: None, description: "Crystal Peak Entry (Transition)", tooltip: Some("Splits on transition to the room where the dive and toll entrances meet, or the room right of Dirtmouth") },
        489 => RadioButtonOption { value: Split::CrystalPeak, key: "CrystalPeak", alias: None, description: "Crystal Peak (Area)", tooltip: Some("Splits when entering Crystal Peak text first appears") },
        490 => RadioButtonOption { value: Split::HuskMiner, key: "HuskMiner", alias: None, description: "Husk Miner (Killed)", tooltip: Some("Splits when killing a Husk Miner") },
        491 => RadioButtonOption { value: Split::CrystalGuardian1, key: "CrystalGuardian1", alias: None, description: "Crystal Guardian (Boss)", tooltip: Some("Splits when killing the Crystal Guardian") },
        492 => RadioButtonOption { value: Split::CrystalGuardian2, key: "CrystalGuardian2", alias: None, description: "Enraged Guardian (Boss)", tooltip: Some("Splits when killing the Enraged Guardian") },
        493 => RadioButtonOption { value: Split::EnterCrown, key: "EnterCrown", alias: None, description: "Hallownest's Crown (Transition)", tooltip: Some("Splits on transition into the room with the Whispering Root at the base of Hallownest's Crown") },
        494 => RadioButtonOption { value: Split::CrystalMoundExit, key: "CrystalMoundExit", alias: None, description: "Crystal Mound Exit (Transition)", tooltip: Some("Splits on transition from Crystal Mound") },
        495 => RadioButtonOption { value: Split::MineLiftOpened, key: "MineLiftOpened", alias: None, description: "Crystal Peak Lift Opened (Event)", tooltip: Some("Splits when opening the lever for the lift between Dirtmouth and Crystal Peak") },
        496 => RadioButtonOption { value: Split::WaterwaysManhole, key: "WaterwaysManhole", alias: None, description: "Waterways Manhole (Toll)", tooltip: Some("Splits when opening the Waterways Manhole") },
        497 => RadioButtonOption { value: Split::WaterwaysEntry, key: "WaterwaysEntry", alias: None, description: "Waterways (Transition)", tooltip: Some("Splits on transition to Waterways") },
        498 => RadioButtonOption { value: Split::RoyalWaterways, key: "RoyalWaterways", alias: None, description: "Royal Waterways (Area)", tooltip: Some("Splits when entering Royal Waterways text first appears") },
        499 => RadioButtonOption { value: Split::DungDefender, key: "DungDefender", alias: None, description: "Dung Defender (Boss)", tooltip: Some("Splits when killing Dung Defender") },
        500 => RadioButtonOption { value: Split::WhiteDefender, key: "WhiteDefender", alias: None, description: "White Defender (Boss)", tooltip: Some("Splits when killing White Defender") },
        501 => RadioButtonOption { value: Split::WhiteDefenderEssence, key: "WhiteDefenderEssence", alias: None, description: "White Defender (Essence)", tooltip: Some("Splits when getting White Defender essence") },
        502 => RadioButtonOption { value: Split::MetEmilitia, key: "MetEmilitia", alias: None, description: "Met Emilitia (Event)", tooltip: Some("Splits when talking to Emilitia for the first time") },
        503 => RadioButtonOption { value: Split::GivenEmilitiaFlower, key: "GivenEmilitiaFlower", alias: None, description: "Emilitia Flower (NPC)", tooltip: Some("Splits when giving Emilita a flower") },
        504 => RadioButtonOption { value: Split::Flukemarm, key: "Flukemarm", alias: None, description: "Flukemarm (Boss)", tooltip: Some("Splits when killing Flukemarm") },
        505 => RadioButtonOption { value: Split::EnterJunkPit, key: "EnterJunkPit", alias: None, description: "Junk Pit (Transition)", tooltip: Some("Splits on transition into Junk Pit") },
        506 => RadioButtonOption { value: Split::BasinEntry, key: "BasinEntry", alias: None, description: "Ancient Basin (Transition)", tooltip: Some("Splits on transition to Ancient Basin") },
        507 => RadioButtonOption { value: Split::Abyss, key: "Abyss", alias: None, description: "Ancient Basin (Area)", tooltip: Some("Splits when entering Ancient Basin text first appears") },
        508 => RadioButtonOption { value: Split::SavedCloth, key: "SavedCloth", alias: None, description: "Saved Cloth (Event)", tooltip: Some("Splits when saving Cloth in Ancient Basin") },
        509 => RadioButtonOption { value: Split::TollBenchBasin, key: "TollBenchBasin", alias: None, description: "Basin Bench (Toll)", tooltip: Some("Splits when buying Ancient Basin toll bench") },
        510 => RadioButtonOption { value: Split::Abyss19from18, key: "Abyss19from18", alias: None, description: "Abyss19from18", tooltip: None },
        511 => RadioButtonOption { value: Split::BrokenVessel, key: "BrokenVessel", alias: None, description: "Broken Vessel (Boss)", tooltip: Some("Splits when killing Broken Vessel") },
        512 => RadioButtonOption { value: Split::BrokenVesselTrans, key: "BrokenVesselTrans", alias: None, description: "Broken Vessel (Transition)", tooltip: Some("Splits on any non-death transition after defeating Broken Vessel") },
        513 => RadioButtonOption { value: Split::LostKin, key: "LostKin", alias: None, description: "Lost Kin (Boss)", tooltip: Some("Splits when killing Lost Kin") },
        514 => RadioButtonOption { value: Split::LostKinEssence, key: "LostKinEssence", alias: None, description: "Lost Kin (Essence)", tooltip: Some("Splits when getting Lost Kin essence") },
        515 => RadioButtonOption { value: Split::BenchHiddenStation, key: "BenchHiddenStation", alias: None, description: "Hidden Station (Bench)", tooltip: Some("Splits when sitting on the bench in Hidden Station") },
        516 => RadioButtonOption { value: Split::WhitePalaceEntry, key: "WhitePalaceEntry", alias: None, description: "White Palace Entry (Transition)", tooltip: Some("Splits when entering the first White Palace scene") },
        517 => RadioButtonOption { value: Split::WhitePalaceLowerEntry, key: "WhitePalaceLowerEntry", alias: None, description: "White Palace - Lower Entry (Room)", tooltip: Some("Splits on transition to White_Palace_01") },
        518 => RadioButtonOption { value: Split::WhitePalace, key: "WhitePalace", alias: None, description: "White Palace (Area)", tooltip: Some("Splits when entering White Palace text for the first time") },
        519 => RadioButtonOption { value: Split::WhitePalaceLowerOrb, key: "WhitePalaceLowerOrb", alias: None, description: "White Palace - Lower Orb (Room)", tooltip: Some("Splits on transition to White_Palace_02") },
        520 => RadioButtonOption { value: Split::WhitePalaceOrb1, key: "WhitePalaceOrb1", alias: None, description: "White Palace - Lower Orb (Lever)", tooltip: Some("Splits when lighting the orb in White Palace lowest floor") },
        521 => RadioButtonOption { value: Split::WhitePalaceAtrium, key: "WhitePalaceAtrium", alias: None, description: "White Palace - Atrium (Room)", tooltip: Some("Splits on any transition to White_Palace_03_Hub") },
        522 => RadioButtonOption { value: Split::WhitePalaceLeftEntry, key: "WhitePalaceLeftEntry", alias: None, description: "White Palace - Left Entry (Room)", tooltip: Some("Splits on transition to White_Palace_04") },
        523 => RadioButtonOption { value: Split::WhitePalaceLeftWingMid, key: "WhitePalaceLeftWingMid", alias: None, description: "White Palace - Left Midpoint (Room)", tooltip: Some("Splits on transition between White_Palace_04 and _14") },
        524 => RadioButtonOption { value: Split::WhitePalaceOrb3, key: "WhitePalaceOrb3", alias: None, description: "White Palace - Left Orb (Lever)", tooltip: Some("Splits when lighting the orb in White Palace left wing") },
        525 => RadioButtonOption { value: Split::WhitePalaceRightEntry, key: "WhitePalaceRightEntry", alias: None, description: "White Palace - Right Side Entry (Room)", tooltip: Some("Splits on transition between White_Palace_03_Hub and _15") },
        526 => RadioButtonOption { value: Split::WhitePalaceRightClimb, key: "WhitePalaceRightClimb", alias: None, description: "White Palace - Right Side Climb (Room)", tooltip: Some("Splits on transition between White_Palace_05 and _16") },
        _ => RadioButtonOption { value: Split::WhitePalaceRightSqueeze, key: "WhitePalaceRightSqueeze", alias: None, description: "White Palace - Right Side Saw Squeeze (Room)", tooltip: Some("Splits on transition between White_Palace_16 and _05") },
    }
}

/// The options at positions 528 to 575.
pub open spec fn split_option_chunk_11(i: usize) -> RadioButtonOption<'static, Split> {
    match i {
        528 => RadioButtonOption { value: Split::WhitePalaceRightDone, key: "WhitePalaceRightDone", alias: None, description: "White Palace - Right Side Exit (Room)", tooltip: Some("Splits on transition between White_Palace_05 and _15") },
        529 => RadioButtonOption { value: Split::WhitePalaceOrb2, key: "WhitePalaceOrb2", alias: None, description: "White Palace - Right Orb (Lever)", tooltip: Some("Splits when lighting the orb in White Palace right wing") },
        530 => RadioButtonOption { value: Split::WhitePalaceTopEntry, key: "WhitePalaceTopEntry", alias: None, description: "White Palace - Top Entry (Room)", tooltip: Some("Splits on transition between White_Palace_03_Hub and _06") },
        531 => RadioButtonOption { value: Split::PathOfPainEntry, key: "PathOfPainEntry", alias: None, description: "Path of Pain Room 1 (Room)", tooltip: Some("Splits on transition to the first room in PoP (entry to PoP)") },
        532 => RadioButtonOption { value: Split::PathOfPainTransition1, key: "PathOfPainTransition1", alias: None, description: "Path of Pain Room 2 (Room)", tooltip: Some("Splits on transition to the second room in PoP") },
        533 => RadioButtonOption { value: Split::PathOfPainTransition2, key: "PathOfPainTransition2", alias: None, description: "Path of Pain Room 3 (Room)", tooltip: Some("Splits on transition to the third room in PoP") },
        534 => RadioButtonOption { value: Split::PathOfPainTransition3, key: "PathOfPainTransition3", alias: None, description: "Path of Pain Room 4 (Room)", tooltip: Some("Splits on transition to the fourth room in PoP (Final room)") },
        535 => RadioButtonOption { value: Split::PathOfPain, key: "PathOfPain", alias: None, description: "Path of Pain (Completed)", tooltip: Some("Splits when completing the Path of Pain in White Palace") },
        536 => RadioButtonOption { value: Split::WhitePalaceTopClimb, key: "WhitePalaceTopClimb", alias: None, description: "White Palace - Top Cursed Cycle (Room)", tooltip: Some("Splits on transition between White_Palace_06 and _07") },
        537 => RadioButtonOption { value: Split::WhitePalaceTopLeverRoom, key: "WhitePalaceTopLeverRoom", alias: None, description: "White Palace - Top Lever (Room)", tooltip: Some("Splits on transition between White_Palace_07 and _12") },
        538 => RadioButtonOption { value: Split::WhitePalaceTopLastPlats, key: "WhitePalaceTopLastPlats", alias: None, description: "White Palace - Top Final Platforming (Room)", tooltip: Some("Splits on transition between White_Palace_12 and _13") },
        539 => RadioButtonOption { value: Split::WhitePalaceSecretRoom, key: "WhitePalaceSecretRoom", alias: None, description: "White Palace - Workshop (Area)", tooltip: Some("Splits when visiting the secret room in White Palace") },
        540 => RadioButtonOption { value: Split::WhitePalaceThroneRoom, key: "WhitePalaceThroneRoom", alias: None, description: "White Palace - Throne Room (Room)", tooltip: Some("Splits on transition between White_Palace_13 and _09") },
        541 => RadioButtonOption { value: Split::KingdomsEdgeEntry, key: "KingdomsEdgeEntry", alias: None, description: "Kingdom's Edge (Transition)", tooltip: Some("Splits on transition to Kingdom's Edge from King's Station") },
        542 => RadioButtonOption { value: Split::KingdomsEdge, key: "KingdomsEdge", alias: None, description: "Kingdom's Edge (Area)", tooltip: Some("Splits when entering Kingdom's Edge text first appears") },
        543 => RadioButtonOption { value: Split::HiveEntry, key: "HiveEntry", alias: None, description: "Hive (Transition)", tooltip: Some("Splits on transition to Hive") },
        544 => RadioButtonOption { value: Split::Hive, key: "Hive", alias: None, description: "Hive (Area)", tooltip: Some("Splits when entering Hive text first appears") },
        545 => RadioButtonOption { value: Split::EnterHiveKnight, key: "EnterHiveKnight", alias: None, description: "Enter Hive Knight (Transition)", tooltip: Some("Splits when entering Hive Knight boss arena transition") },
        546 => RadioButtonOption { value: Split::HiveKnight, key: "HiveKnight", alias: None, description: "Hive Knight (Boss)", tooltip: Some("Splits when killing Hive Knight") },
        547 => RadioButtonOption { value: Split::GreatHopper, key: "GreatHopper", alias: None, description: "Great Hopper (Killed)", tooltip: Some("Splits when killing a Great Hopper") },
        548 => RadioButtonOption { value: Split::GivenOroFlower, key: "GivenOroFlower", alias: None, description: "Oro Flower (NPC)", tooltip: Some("Splits when giving Oro a flower") },
        549 => RadioButtonOption { value: Split::EnterHornet2, key: "EnterHornet2", alias: None, description: "Enter Hornet 2 (Transition)", tooltip: Some("Splits when entering Hornet boss arena transition in Kingdom's Edge") },
        550 => RadioButtonOption { value: Split::Hornet2, key: "Hornet2", alias: None, description: "Hornet 2 (Boss)", tooltip: Some("Splits when killing Hornet Sentinel in Kingdom's Edge") },
        551 => RadioButtonOption { value: Split::Markoth, key: "Markoth", alias: None, description: "Markoth (Boss)", tooltip: Some("Splits when killing Markoth") },
        552 => RadioButtonOption { value: Split::MarkothEssence, key: "MarkothEssence", alias: None, description: "Markoth (Essence)", tooltip: Some("Splits when absorbing essence from Markoth") },
        553 => RadioButtonOption { value: Split::LittleFool, key: "LittleFool", alias: None, description: "Little Fool (NPC)", tooltip: Some("Splits when talking to the Little Fool for the first time") },
        554 => RadioButtonOption { value: Split::ColosseumBronzeUnlocked, key: "ColosseumBronzeUnlocked", alias: None, description: "Colosseum Unlocked 1 (Trial)", tooltip: Some("Splits when the knight unlocks the Trial of the Warrior at Little Fool") },
        555 => RadioButtonOption { value: Split::ColosseumBronzeEntry, key: "ColosseumBronzeEntry", alias: None, description: "Colosseum Entrance 1 (Transition)", tooltip: Some("Splits on the transition into the Trial of the Warrior") },
        556 => RadioButtonOption { value: Split::Colosseum, key: "Colosseum", alias: None, description: "Colosseum (Area)", tooltip: Some("Splits when entering Colosseum text first appears") },
        557 => RadioButtonOption { value: Split::Bronze1a, key: "Bronze1a", alias: None, description: "Colo 1 Wave 1a", tooltip: Some("Splits upon killing the first Sheilded Fool in wave 1\nRecommended for use with a pre-set save file") },
        558 => RadioButtonOption { value: Split::Bronze1b, key: "Bronze1b", alias: None, description: "Colo 1 Wave 1b", tooltip: Some("Splits upon killing the pair of Sheilded fools in wave 1\nRecommended for use with a pre-set save file") },
        559 => RadioButtonOption { value: Split::Bronze1c, key: "Bronze1c", alias: None, description: "Colo 1 Wave 1c", tooltip: Some("Splits upon killing the pair of Sharp Baldurs at the end of wave 1\nRecommended for use with a pre-set save file") },
        560 => RadioButtonOption { value: Split::Bronze2, key: "Bronze2", alias: None, description: "Colo 1 Wave 2", tooltip: Some("Splits upon killing all five Sharp Baldurs in wave 2\nRecommended for use with a pre-set save file") },
        561 => RadioButtonOption { value: Split::Bronze3a, key: "Bronze3a", alias: None, description: "Colo 1 Wave 3a", tooltip: Some("Splits upon killing the first Sturdy Fool in wave 3\nRecommended for use with a pre-set save file") },
        562 => RadioButtonOption { value: Split::Bronze3b, key: "Bronze3b", alias: None, description: "Colo 1 Wave 3b", tooltip: Some("Splits upon killing the pair of Sturdy Fools at the end of wave 3\nRecommended for use with a pre-set save file") },
        563 => RadioButtonOption { value: Split::Bronze4, key: "Bronze4", alias: None, description: "Colo 1 Wave 4", tooltip: Some("Splits upon killing the pair of Primal Aspids in wave 4\nRecommended for use with a pre-set save file") },
        564 => RadioButtonOption { value: Split::Bronze5, key: "Bronze5", alias: None, description: "Colo 1 Wave 5", tooltip: Some("Splits upon killing the pair of Primal Aspids in wave 5\nRecommended for use with a pre-set save file") },
        565 => RadioButtonOption { value: Split::Bronze6, key: "Bronze6", alias: None, description: "Colo 1 Wave 6", tooltip: Some("Splits upon killing all three Sturdy Fools on the raised platforms in wave 6\nRecommended for use with a pre-set save file") },
        566 => RadioButtonOption { value: Split::Bronze7, key: "Bronze7", alias: None, description: "Colo 1 Wave 7", tooltip: Some("Splits upon killing both Primal Aspids and Sharp Baldurs in wave 7\nRecommended for use with a pre-set save file") },
        567 => RadioButtonOption { value: Split::Bronze8a, key: "Bronze8a", alias: None, description: "Colo 1 Wave 8a", tooltip: Some("Splits upon killing all four Vengeflies in wave 8\nRecommended for use with a pre-set save file") },
        568 => RadioButtonOption { value: Split::Bronze8b, key: "Bronze8b", alias: None, description: "Colo 1 Wave 8b", tooltip: Some("Splits upon killing the Vengefly King in wave 8\nRecommended for use with a pre-set save file") },
        569 => RadioButtonOption { value: Split::Bronze9, key: "Bronze9", alias: None, description: "Colo 1 Wave 9", tooltip: Some("Splits upon killing the Sharp Baldur after the Primal Aspid at the end of wave 9\nRecommended for use with a pre-set save file") },
        570 => RadioButtonOption { value: Split::Bronze10, key: "Bronze10", alias: None, description: "Colo 1 Wave 10", tooltip: Some("Splits upon killing the third Sharp Baldur in the low ceiling section in wave 10\nRecommended for use with a pre-set save file") },
        571 => RadioButtonOption { value: Split::Bronze11a, key: "Bronze11a", alias: None, description: "Colo 1 Wave 11a", tooltip: Some("Splits upon killing the first pair of Volatile Gruzzers in wave 11\nRecommended for use with a pre-set save file") },
        572 => RadioButtonOption { value: Split::Bronze11b, key: "Bronze11b", alias: None, description: "Colo 1 Wave 11b", tooltip: Some("Splits upon killing the final group of Volatile Gruzzers at the end of wave 11\nRecommended for use with a pre-set save file") },
        573 => RadioButtonOption { value: Split::BronzeEnd, key: "BronzeEnd", alias: None, description: "Colo 1 End", tooltip: Some("Splits upon killing the pair Gruz Mothers at the end of Trial of the Warrior\nRecommended for use with a pre-set save file") },
        574 => RadioButtonOption { value: Split::ZoteKilled, key: "ZoteKilled", alias: None, description: "Zote Defeated - Colosseum (Mini Boss)", tooltip: Some("Splits when defeating Zote in the Colosseum") },
        _ => RadioButtonOption { value: Split::ColosseumBronze, key: "ColosseumBronze", alias: None, description: "Colosseum Fight 1 (Trial)", tooltip: Some("Splits when beating the Trial of the Warrior") },
    }
}

fn split_option_chunk_11_exec(i: usize) -> (r: RadioButtonOption<'static, Split>)
    ensures
        r == split_option_chunk_11(i),
{
    match i {
        528 => RadioButtonOption { value: Split::WhitePalaceRightDone, key: "WhitePalaceRightDone", alias: None, description: "White Palace - Right Side Exit (Room)", tooltip: Some("Splits on transition between White_Palace_05 and _15") },
        529 => RadioButtonOption { value: Split::WhitePalaceOrb2, key: "WhitePalaceOrb2", alias: None, description: "White Palace - Right Orb (Lever)", tooltip: Some("Splits when lighting the orb in White Palace right wing") },
        530 => RadioButtonOption { value: Split::WhitePalaceTopEntry, key: "WhitePalaceTopEntry", alias: None, description: "White Palace - Top Entry (Room)", tooltip: Some("Splits on transition between White_Palace_03_Hub and _06") },
        531 => RadioButtonOption { value: Split::PathOfPainEntry, key: "PathOfPainEntry", alias: None, description: "Path of Pain Room 1 (Room)", tooltip: Some("Splits on transition to the first room in PoP (entry to PoP)") },
        532 => RadioButtonOption { value: Split::PathOfPainTransition1, key: "PathOfPainTransition1", alias: None, description: "Path of Pain Room 2 (Room)", tooltip: Some("Splits on transition to the second room in PoP") },
        533 => RadioButtonOption { value: Split::PathOfPainTransition2, key: "PathOfPainTransition2", alias: None, description: "Path of Pain Room 3 (Room)", tooltip: Some("Splits on transition to the third room in PoP") },
        534 => RadioButtonOption { value: Split::PathOfPainTransition3, key: "PathOfPainTransition3", alias: None, description: "Path of Pain Room 4 (Room)", tooltip: Some("Splits on transition to the fourth room in PoP (Final room)") },
        535 => RadioButtonOption { value: Split::PathOfPain, key: "PathOfPain", alias: None, description: "Path of Pain (Completed)", tooltip: Some("Splits when completing the Path of Pain in White Palace") },
        536 => RadioButtonOption { value: Split::WhitePalaceTopClimb, key: "WhitePalaceTopClimb", alias: None, description: "White Palace - Top Cursed Cycle (Room)", tooltip: Some("Splits on transition between White_Palace_06 and _07") },
        537 => RadioButtonOption { value: Split::WhitePalaceTopLeverRoom, key: "WhitePalaceTopLeverRoom", alias: None, description: "White Palace - Top Lever (Room)", tooltip: Some("Splits on transition between White_Palace_07 and _12") },
        538 => RadioButtonOption { value: Split::WhitePalaceTopLastPlats, key: "WhitePalaceTopLastPlats", alias: None, description: "White Palace - Top Final Platforming (Room)", tooltip: Some("Splits on transition between White_Palace_12 and _13") },
        539 => RadioButtonOption { value: Split::WhitePalaceSecretRoom, key: "WhitePalaceSecretRoom", alias: None, description: "White Palace - Workshop (Area)", tooltip: Some("Splits when visiting the secret room in White Palace") },
        540 => RadioButtonOption { value: Split::WhitePalaceThroneRoom, key: "WhitePalaceThroneRoom", alias: None, description: "White Palace - Throne Room (Room)", tooltip: Some("Splits on transition between White_Palace_13 and _09") },
        541 => RadioButtonOption { value: Split::KingdomsEdgeEntry, key: "KingdomsEdgeEntry", alias: None, description: "Kingdom's Edge (Transition)", tooltip: Some("Splits on transition to Kingdom's Edge from King's Station") },
        542 => RadioButtonOption { value: Split::KingdomsEdge, key: "KingdomsEdge", alias: None, description: "Kingdom's Edge (Area)", tooltip: Some("Splits when entering Kingdom's Edge text first appears") },
        543 => RadioButtonOption { value: Split::HiveEntry, key: "HiveEntry", alias: None, description: "Hive (Transition)", tooltip: Some("Splits on transition to Hive") },
        544 => RadioButtonOption { value: Split::Hive, key: "Hive", alias: None, description: "Hive (Area)", tooltip: Some("Splits when entering Hive text first appears") },
        545 => RadioButtonOption { value: Split::EnterHiveKnight, key: "EnterHiveKnight", alias: None, description: "Enter Hive Knight (Transition)", tooltip: Some("Splits when entering Hive Knight boss arena transition") },
        546 => RadioButtonOption { value: Split::HiveKnight, key: "HiveKnight", alias: None, description: "Hive Knight (Boss)", tooltip: Some("Splits when killing Hive Knight") },
        547 => RadioButtonOption { value: Split::GreatHopper, key: "GreatHopper", alias: None, description: "Great Hopper (Killed)", tooltip: Some("Splits when killing a Great Hopper") },
        548 => RadioButtonOption { value: Split::GivenOroFlower, key: "GivenOroFlower", alias: None, description: "Oro Flower (NPC)", tooltip: Some("Splits when giving Oro a flower") },
        549 => RadioButtonOption { value: Split::EnterHornet2, key: "EnterHornet2", alias: None, description: "Enter Hornet 2 (Transition)", tooltip: Some("Splits when entering Hornet boss arena transition in Kingdom's Edge") },
        550 => RadioButtonOption { value: Split::Hornet2, key: "Hornet2", alias: None, description: "Hornet 2 (Boss)", tooltip: Some("Splits when killing Hornet Sentinel in Kingdom's Edge") },
        551 => RadioButtonOption { value: Split::Markoth, key: "Markoth", alias: None, description: "Markoth (Boss)", tooltip: Some("Splits when killing Markoth") },
        552 => RadioButtonOption { value: Split::MarkothEssence, key: "MarkothEssence", alias: None, description: "Markoth (Essence)", tooltip: Some("Splits when absorbing essence from Markoth") },
        553 => RadioButtonOption { value: Split::LittleFool, key: "LittleFool", alias: None, description: "Little Fool (NPC)", tooltip: Some("Splits when talking to the Little Fool for the first time") },
        554 => RadioButtonOption { value: Split::ColosseumBronzeUnlocked, key: "ColosseumBronzeUnlocked", alias: None, description: "Colosseum Unlocked 1 (Trial)", tooltip: Some("Splits when the knight unlocks the Trial of the Warrior at Little Fool") },
        555 => RadioButtonOption { value: Split::ColosseumBronzeEntry, key: "ColosseumBronzeEntry", alias: None, description: "Colosseum Entrance 1 (Transition)", tooltip: Some("Splits on the transition into the Trial of the Warrior") },
        556 => RadioButtonOption { value: Split::Colosseum, key: "Colosseum", alias: None, description: "Colosseum (Area)", tooltip: Some("Splits when entering Colosseum text first appears") },
        557 => RadioButtonOption { value: Split::Bronze1a, key: "Bronze1a", alias: None, description: "Colo 1 Wave 1a", tooltip: Some("Splits upon killing the first Sheilded Fool in wave 1\nRecommended for use with a pre-set save file") },
        558 => RadioButtonOption { value: Split::Bronze1b, key: "Bronze1b", alias: None, description: "Colo 1 Wave 1b", tooltip: Some("Splits upon killing the pair of Sheilded fools in wave 1\nRecommended for use with a pre-set save file") },
        559 => RadioButtonOption { value: Split::Bronze1c, key: "Bronze1c", alias: None, description: "Colo 1 Wave 1c", tooltip: Some("Splits upon killing the pair of Sharp Baldurs at the end of wave 1\nRecommended for use with a pre-set save file") },
        560 => RadioButtonOption { value: Split::Bronze2, key: "Bronze2", alias: None, description: "Colo 1 Wave 2", tooltip: Some("Splits upon killing all five Sharp Baldurs in wave 2\nRecommended for use with a pre-set save file") },
        561 => RadioButtonOption { value: Split::Bronze3a, key: "Bronze3a", alias: None, description: "Colo 1 Wave 3a", tooltip: Some("Splits upon killing the first Sturdy Fool in wave 3\nRecommended for use with a pre-set save file") },
        562 => RadioButtonOption { value: Split::Bronze3b, key: "Bronze3b", alias: None, description: "Colo 1 Wave 3b", tooltip: Some("Splits upon killing the pair of Sturdy Fools at the end of wave 3\nRecommended for use with a pre-set save file") },
        563 => RadioButtonOption { value: Split::Bronze4, key: "Bronze4", alias: None, description: "Colo 1 Wave 4", tooltip: Some("Splits upon killing the pair of Primal Aspids in wave 4\nRecommended for use with a pre-set save file") },
        564 => RadioButtonOption { value: Split::Bronze5, key: "Bronze5", alias: None, description: "Colo 1 Wave 5", tooltip: Some("Splits upon killing the pair of Primal Aspids in wave 5\nRecommended for use with a pre-set save file") },
        565 => RadioButtonOption { value: Split::Bronze6, key: "Bronze6", alias: None, description: "Colo 1 Wave 6", tooltip: Some("Splits upon killing all three Sturdy Fools on the raised platforms in wave 6\nRecommended for use with a pre-set save file") },
        566 => RadioButtonOption { value: Split::Bronze7, key: "Bronze7", alias: None, description: "Colo 1 Wave 7", tooltip: Some("Splits upon killing both Primal Aspids and Sharp Baldurs in wave 7\nRecommended for use with a pre-set save file") },
        567 => RadioButtonOption { value: Split::Bronze8a, key: "Bronze8a", alias: None, description: "Colo 1 Wave 8a", tooltip: Some("Splits upon killing all four Vengeflies in wave 8\nRecommended for use with a pre-set save file") },
        568 => RadioButtonOption { value: Split::Bronze8b, key: "Bronze8b", alias: None, description: "Colo 1 Wave 8b", tooltip: Some("Splits upon killing the Vengefly King in wave 8\nRecommended for use with a pre-set save file") },
        569 => RadioButtonOption { value: Split::Bronze9, key: "Bronze9", alias: None, description: "Colo 1 Wave 9", tooltip: Some("Splits upon killing the Sharp Baldur after the Primal Aspid at the end of wave 9\nRecommended for use with a pre-set save file") },
        570 => RadioButtonOption { value: Split::Bronze10, key: "Bronze10", alias: None, description: "Colo 1 Wave 10", tooltip: Some("Splits upon killing the third Sharp Baldur in the low ceiling section in wave 10\nRecommended for use with a pre-set save file") },
        571 => RadioButtonOption { value: Split::Bronze11a, key: "Bronze11a", alias: None, description: "Colo 1 Wave 11a", tooltip: Some("Splits upon killing the first pair of Volatile Gruzzers in wave 11\nRecommended for use with a pre-set save file") },
        572 => RadioButtonOption { value: Split::Bronze11b, key: "Bronze11b", alias: None, description: "Colo 1 Wave 11b", tooltip: Some("Splits upon killing the final group of Volatile Gruzzers at the end of wave 11\nRecommended for use with a pre-set save file") },
        573 => RadioButtonOption { value: Split::BronzeEnd, key: "BronzeEnd", alias: None, description: "Colo 1 End", tooltip: Some("Splits upon killing the pair Gruz Mothers at the end of Trial of the Warrior\nRecommended for use with a pre-set save file") },
        574 => RadioButtonOption { value: Split::ZoteKilled, key: "ZoteKilled", alias: None, description: "Zote Defeated - Colosseum (Mini Boss)", tooltip: Some("Splits when defeating Zote in the Colosseum") },
        _ => RadioButtonOption { value: Split::ColosseumBronze, key: "ColosseumBronze", alias: None, description: "Colosseum Fight 1 (Trial)", tooltip: Some("Splits when beating the Trial of the Warrior") },
    }
}

/// The options at positions 576 to 623.
pub open spec fn split_option_chunk_12(i: usize) -> RadioButtonOption<'static, Split> {
    match i {
        576 => RadioButtonOption { value: Split::ColosseumBronzeExit, key: "ColosseumBronzeExit", alias: None, description: "Colosseum Exit 1 (Transition)", tooltip: Some("Splits on the transition out of the trial, or in the load-in after quitout") },
        577 => RadioButtonOption { value: Split::ColosseumSilverUnlocked, key: "ColosseumSilverUnlocked", alias: None, description: "Colosseum Unlocked 2 (Trial)", tooltip: Some("Splits when the knight unlocks the Trial of the Conqueror at Little Fool") },
        578 => RadioButtonOption { value: Split::ColosseumSilverEntry, key: "ColosseumSilverEntry", alias: None, description: "Colosseum Entrance 2 (Transition)", tooltip: Some("Splits on the transition into the Trial of the Conqueror") },
        579 => RadioButtonOption { value: Split::Silver1, key: "Silver1", alias: None, description: "Colo 2 Wave 1", tooltip: Some("Splits upon completing wave 1\nRecommended for use with a pre-set save file") },
        580 => RadioButtonOption { value: Split::Silver2, key: "Silver2", alias: None, description: "Colo 2 Wave 2", tooltip: Some("Splits upon completing wave 2\nRecommended for use with a pre-set save file") },
        581 => RadioButtonOption { value: Split::Silver3, key: "Silver3", alias: None, description: "Colo 2 Wave 3", tooltip: Some("Splits upon completing wave 3\nRecommended for use with a pre-set save file") },
        582 => RadioButtonOption { value: Split::Silver4, key: "Silver4", alias: None, description: "Colo 2 Wave 4", tooltip: Some("Splits upon completing wave 4\nRecommended for use with a pre-set save file") },
        583 => RadioButtonOption { value: Split::Silver5, key: "Silver5", alias: None, description: "Colo 2 Wave 5", tooltip: Some("Splits upon completing wave 5\nRecommended for use with a pre-set save file") },
        584 => RadioButtonOption { value: Split::Silver6, key: "Silver6", alias: None, description: "Colo 2 Wave 6", tooltip: Some("Splits upon the death of the 3 Belflies after the Heavy Fool\nRecommended for use with a pre-set save file") },
        585 => RadioButtonOption { value: Split::Silver7, key: "Silver7", alias: None, description: "Colo 2 Wave 7", tooltip: Some("Splits on the death of the single Belfly\nRecommended for use with a pre-set save file") },
        586 => RadioButtonOption { value: Split::Silver8, key: "Silver8", alias: None, description: "Colo 2 Wave 8", tooltip: Some("Splits upon killing the first Great Hopper\nRecommended for use with a pre-set save file") },
        587 => RadioButtonOption { value: Split::Silver9, key: "Silver9", alias: None, description: "Colo 2 Wave 9", tooltip: Some("Splits upon killing the second Great Hopper\nRecommended for use with a pre-set save file") },
        588 => RadioButtonOption { value: Split::Silver10, key: "Silver10", alias: None, description: "Colo 2 Wave 10", tooltip: Some("Splits upon killing the Mimic\nRecommended for use with a pre-set save file") },
        589 => RadioButtonOption { value: Split::Silver11, key: "Silver11", alias: None, description: "Colo 2 Wave 11", tooltip: Some("Splits upon completing wave 11\nRecommended for use with a pre-set save file") },
        590 => RadioButtonOption { value: Split::Silver12, key: "Silver12", alias: None, description: "Colo 2 Wave 12", tooltip: Some("Splits upon completing wave 12\nRecommended for use with a pre-set save file") },
        591 => RadioButtonOption { value: Split::Silver13, key: "Silver13", alias: None, description: "Colo 2 Wave 13", tooltip: Some("Splits upon completing wave 13\nRecommended for use with a pre-set save file") },
        592 => RadioButtonOption { value: Split::Silver14, key: "Silver14", alias: None, description: "Colo 2 Wave 14", tooltip: Some("Splits upon completing wave 14\nRecommended for use with a pre-set save file") },
        593 => RadioButtonOption { value: Split::Silver15, key: "Silver15", alias: None, description: "Colo 2 Wave 15", tooltip: Some("Splits upon completing wave 15\nRecommended for use with a pre-set save file") },
        594 => RadioButtonOption { value: Split::Silver16, key: "Silver16", alias: None, description: "Colo 2 Wave 16", tooltip: Some("Splits upon completing wave 16\nRecommended for use with a pre-set save file") },
        595 => RadioButtonOption { value: Split::SilverEnd, key: "SilverEnd", alias: None, description: "Colo 2 End", tooltip: Some("Splits upon killing both Oblobbles at the end of Trial of the Conqueror\nRecommended for use with a pre-set save file") },
        596 => RadioButtonOption { value: Split::KilledOblobbles, key: "KilledOblobbles", alias: None, description: "Oblobbles (Boss)", tooltip: Some("Splits when 2 Oblobbles are deafeated (ideally the first pair you encounter in Colo 2)") },
        597 => RadioButtonOption { value: Split::ColosseumSilver, key: "ColosseumSilver", alias: None, description: "Colosseum Fight 2 (Trial)", tooltip: Some("Splits when beating the Trial of the Conqueror") },
        598 => RadioButtonOption { value: Split::ColosseumSilverExit, key: "ColosseumSilverExit", alias: None, description: "Colosseum Exit 2 (Transition)", tooltip: Some("Splits on the transition out of the trial, or in the load-in after quitout") },
        599 => RadioButtonOption { value: Split::ColosseumGoldUnlocked, key: "ColosseumGoldUnlocked", alias: None, description: "Colosseum Unlocked 3 (Trial)", tooltip: Some("Splits when the knight unlocks the Trial of the Fool at Little Fool") },
        600 => RadioButtonOption { value: Split::ColosseumGoldEntry, key: "ColosseumGoldEntry", alias: None, description: "Colosseum Entrance 3 (Transition)", tooltip: Some("Splits on the transition into the Trial of the Warrior") },
        601 => RadioButtonOption { value: Split::Gold1, key: "Gold1", alias: None, description: "Colo 3 Wave 1", tooltip: Some("Splits upon completing wave 1\nRecommended for use with a pre-set save file") },
        602 => RadioButtonOption { value: Split::Gold3, key: "Gold3", alias: None, description: "Colo 3 Wave 3", tooltip: Some("Splits upon completing waves 2 and 3\nRecommended for use with a pre-set save file") },
        603 => RadioButtonOption { value: Split::Gold4, key: "Gold4", alias: None, description: "Colo 3 Wave 4", tooltip: Some("Splits upon completing wave 4\nRecommended for use with a pre-set save file") },
        604 => RadioButtonOption { value: Split::Gold5, key: "Gold5", alias: None, description: "Colo 3 Wave 5", tooltip: Some("Splits upon killing the first wave of 3 Loodles\nRecommended for use with a pre-set save file") },
        605 => RadioButtonOption { value: Split::Gold6, key: "Gold6", alias: None, description: "Colo 3 Wave 6", tooltip: Some("Splits upon killing the set of 5 Loodles\nRecommended for use with a pre-set save file") },
        606 => RadioButtonOption { value: Split::Gold7, key: "Gold7", alias: None, description: "Colo 3 Wave 7", tooltip: Some("Splits upon killing the second wave of 3 Loodles\nRecommended for use with a pre-set save file") },
        607 => RadioButtonOption { value: Split::Gold8a, key: "Gold8a", alias: None, description: "Colo 3 Wave 8a", tooltip: Some("Splits upon completing the first half of wave 8, before the garpedes\nRecommended for use with a pre-set save file") },
        608 => RadioButtonOption { value: Split::Gold8, key: "Gold8", alias: None, description: "Colo 3 Wave 8b", tooltip: Some("Splits upon completing wave 8\nRecommended for use with a pre-set save file") },
        609 => RadioButtonOption { value: Split::Gold9a, key: "Gold9a", alias: None, description: "Colo 3 Wave 9a", tooltip: Some("Splits upon killing the fools and mantises in wave 9\nRecommended for use with a pre-set save file") },
        610 => RadioButtonOption { value: Split::Gold9b, key: "Gold9b", alias: None, description: "Colo 3 Wave 9b", tooltip: Some("Splits upon killing the Soul Warrior in wave 9\nRecommended for use with a pre-set save file") },
        611 => RadioButtonOption { value: Split::Gold10, key: "Gold10", alias: None, description: "Colo 3 Wave 10", tooltip: Some("Splits upon completing wave 10\nRecommended for use with a pre-set save file") },
        612 => RadioButtonOption { value: Split::Gold11, key: "Gold11", alias: None, description: "Colo 3 Wave 11", tooltip: Some("Splits upon completing wave 11\nRecommended for use with a pre-set save file") },
        613 => RadioButtonOption { value: Split::Gold12a, key: "Gold12a", alias: None, description: "Colo 3 Wave 12a", tooltip: Some("Splits upon killing second set of 2 Lesser Mawleks and Winged Fool\nRecommended for use with a pre-set save file") },
        614 => RadioButtonOption { value: Split::Gold12b, key: "Gold12b", alias: None, description: "Colo 3 Wave 12b", tooltip: Some("Splits upon killing the Brooding Mawlek\nRecommended for use with a pre-set save file") },
        615 => RadioButtonOption { value: Split::Gold14a, key: "Gold14a", alias: None, description: "Colo 3 Wave 14a", tooltip: Some("Splits upon killing the Squits, Petras and Primal Aspids in wave 14\nRecommended for use with a pre-set save file") },
        616 => RadioButtonOption { value: Split::Gold14b, key: "Gold14b", alias: None, description: "Colo 3 Wave 14b", tooltip: Some("Splits upon killing the Winged Fools and Battle Obbles in wave 14\nRecommended for use with a pre-set save file") },
        617 => RadioButtonOption { value: Split::Gold15, key: "Gold15", alias: None, description: "Colo 3 Wave 15", tooltip: Some("Splits upon killing both Squits in wave 15\nRecommended for use with a pre-set save file") },
        618 => RadioButtonOption { value: Split::Gold16, key: "Gold16", alias: None, description: "Colo 3 Wave 16", tooltip: Some("Splits upon the death of all 14 Death Loodles in wave 16\nRecommended for use with a pre-set save file") },
        619 => RadioButtonOption { value: Split::Gold17a, key: "Gold17a", alias: None, description: "Colo 3 Wave 17a", tooltip: Some("Splits upon killing the first two phases of fools and mantises in wave 17\nRecommended for use with a pre-set save file") },
        620 => RadioButtonOption { value: Split::Gold17b, key: "Gold17b", alias: None, description: "Colo 3 Wave 17b", tooltip: Some("Splits upon killing the fools, Volt Twister and Soul Twister in wave 17\nRecommended for use with a pre-set save file") },
        621 => RadioButtonOption { value: Split::Gold17c, key: "Gold17c", alias: None, description: "Colo 3 Wave 17c", tooltip: Some("Splits upon killing all the regular enemies in wave 17\nRecommended for use with a pre-set save file") },
        622 => RadioButtonOption { value: Split::GoldEnd, key: "GoldEnd", alias: None, description: "Colo 3 End", tooltip: Some("Splits upon killing God Tamer\nRecommended for use with a pre-set save file") },
        _ => RadioButtonOption { value: Split::GodTamer, key: "GodTamer", alias: None, description: "God Tamer (Boss)", tooltip: Some("Splits when killing the God Tamer") },
    }
}

fn split_option_chunk_12_exec(i: usize) -> (r: RadioButtonOption<'static, Split>)
    ensures
        r == split_option_chunk_12(i),
{
    match i {
        576 => RadioButtonOption { value: Split::ColosseumBronzeExit, key: "ColosseumBronzeExit", alias: None, description: "Colosseum Exit 1 (Transition)", tooltip: Some("Splits on the transition out of the trial, or in the load-in after quitout") },
        577 => RadioButtonOption { value: Split::ColosseumSilverUnlocked, key: "ColosseumSilverUnlocked", alias: None, description: "Colosseum Unlocked 2 (Trial)", tooltip: Some("Splits when the knight unlocks the Trial of the Conqueror at Little Fool") },
        578 => RadioButtonOption { value: Split::ColosseumSilverEntry, key: "ColosseumSilverEntry", alias: None, description: "Colosseum Entrance 2 (Transition)", tooltip: Some("Splits on the transition into the Trial of the Conqueror") },
        579 => RadioButtonOption { value: Split::Silver1, key: "Silver1", alias: None, description: "Colo 2 Wave 1", tooltip: Some("Splits upon completing wave 1\nRecommended for use with a pre-set save file") },
        580 => RadioButtonOption { value: Split::Silver2, key: "Silver2", alias: None, description: "Colo 2 Wave 2", tooltip: Some("Splits upon completing wave 2\nRecommended for use with a pre-set save file") },
        581 => RadioButtonOption { value: Split::Silver3, key: "Silver3", alias: None, description: "Colo 2 Wave 3", tooltip: Some("Splits upon completing wave 3\nRecommended for use with a pre-set save file") },
        582 => RadioButtonOption { value: Split::Silver4, key: "Silver4", alias: None, description: "Colo 2 Wave 4", tooltip: Some("Splits upon completing wave 4\nRecommended for use with a pre-set save file") },
        583 => RadioButtonOption { value: Split::Silver5, key: "Silver5", alias: None, description: "Colo 2 Wave 5", tooltip: Some("Splits upon completing wave 5\nRecommended for use with a pre-set save file") },
        584 => RadioButtonOption { value: Split::Silver6, key: "Silver6", alias: None, description: "Colo 2 Wave 6", tooltip: Some("Splits upon the death of the 3 Belflies after the Heavy Fool\nRecommended for use with a pre-set save file") },
        585 => RadioButtonOption { value: Split::Silver7, key: "Silver7", alias: None, description: "Colo 2 Wave 7", tooltip: Some("Splits on the death of the single Belfly\nRecommended for use with a pre-set save file") },
        586 => RadioButtonOption { value: Split::Silver8, key: "Silver8", alias: None, description: "Colo 2 Wave 8", tooltip: Some("Splits upon killing the first Great Hopper\nRecommended for use with a pre-set save file") },
        587 => RadioButtonOption { value: Split::Silver9, key: "Silver9", alias: None, description: "Colo 2 Wave 9", tooltip: Some("Splits upon killing the second Great Hopper\nRecommended for use with a pre-set save file") },
        588 => RadioButtonOption { value: Split::Silver10, key: "Silver10", alias: None, description: "Colo 2 Wave 10", tooltip: Some("Splits upon killing the Mimic\nRecommended for use with a pre-set save file") },
        589 => RadioButtonOption { value: Split::Silver11, key: "Silver11", alias: None, description: "Colo 2 Wave 11", tooltip: Some("Splits upon completing wave 11\nRecommended for use with a pre-set save file") },
        590 => RadioButtonOption { value: Split::Silver12, key: "Silver12", alias: None, description: "Colo 2 Wave 12", tooltip: Some("Splits upon completing wave 12\nRecommended for use with a pre-set save file") },
        591 => RadioButtonOption { value: Split::Silver13, key: "Silver13", alias: None, description: "Colo 2 Wave 13", tooltip: Some("Splits upon completing wave 13\nRecommended for use with a pre-set save file") },
        592 => RadioButtonOption { value: Split::Silver14, key: "Silver14", alias: None, description: "Colo 2 Wave 14", tooltip: Some("Splits upon completing wave 14\nRecommended for use with a pre-set save file") },
        593 => RadioButtonOption { value: Split::Silver15, key: "Silver15", alias: None, description: "Colo 2 Wave 15", tooltip: Some("Splits upon completing wave 15\nRecommended for use with a pre-set save file") },
        594 => RadioButtonOption { value: Split::Silver16, key: "Silver16", alias: None, description: "Colo 2 Wave 16", tooltip: Some("Splits upon completing wave 16\nRecommended for use with a pre-set save file") },
        595 => RadioButtonOption { value: Split::SilverEnd, key: "SilverEnd", alias: None, description: "Colo 2 End", tooltip: Some("Splits upon killing both Oblobbles at the end of Trial of the Conqueror\nRecommended for use with a pre-set save file") },
        596 => RadioButtonOption { value: Split::KilledOblobbles, key: "KilledOblobbles", alias: None, description: "Oblobbles (Boss)", tooltip: Some("Splits when 2 Oblobbles are deafeated (ideally the first pair you encounter in Colo 2)") },
        597 => RadioButtonOption { value: Split::ColosseumSilver, key: "ColosseumSilver", alias: None, description: "Colosseum Fight 2 (Trial)", tooltip: Some("Splits when beating the Trial of the Conqueror") },
        598 => RadioButtonOption { value: Split::ColosseumSilverExit, key: "ColosseumSilverExit", alias: None, description: "Colosseum Exit 2 (Transition)", tooltip: Some("Splits on the transition out of the trial, or in the load-in after quitout") },
        599 => RadioButtonOption { value: Split::ColosseumGoldUnlocked, key: "ColosseumGoldUnlocked", alias: None, description: "Colosseum Unlocked 3 (Trial)", tooltip: Some("Splits when the knight unlocks the Trial of the Fool at Little Fool") },
        600 => RadioButtonOption { value: Split::ColosseumGoldEntry, key: "ColosseumGoldEntry", alias: None, description: "Colosseum Entrance 3 (Transition)", tooltip: Some("Splits on the transition into the Trial of the Warrior") },
        601 => RadioButtonOption { value: Split::Gold1, key: "Gold1", alias: None, description: "Colo 3 Wave 1", tooltip: Some("Splits upon completing wave 1\nRecommended for use with a pre-set save file") },
        602 => RadioButtonOption { value: Split::Gold3, key: "Gold3", alias: None, description: "Colo 3 Wave 3", tooltip: Some("Splits upon completing waves 2 and 3\nRecommended for use with a pre-set save file") },
        603 => RadioButtonOption { value: Split::Gold4, key: "Gold4", alias: None, description: "Colo 3 Wave 4", tooltip: Some("Splits upon completing wave 4\nRecommended for use with a pre-set save file") },
        604 => RadioButtonOption { value: Split::Gold5, key: "Gold5", alias: None, description: "Colo 3 Wave 5", tooltip: Some("Splits upon killing the first wave of 3 Loodles\nRecommended for use with a pre-set save file") },
        605 => RadioButtonOption { value: Split::Gold6, key: "Gold6", alias: None, description: "Colo 3 Wave 6", tooltip: Some("Splits upon killing the set of 5 Loodles\nRecommended for use with a pre-set save file") },
        606 => RadioButtonOption { value: Split::Gold7, key: "Gold7", alias: None, description: "Colo 3 Wave 7", tooltip: Some("Splits upon killing the second wave of 3 Loodles\nRecommended for use with a pre-set save file") },
        607 => RadioButtonOption { value: Split::Gold8a, key: "Gold8a", alias: None, description: "Colo 3 Wave 8a", tooltip: Some("Splits upon completing the first half of wave 8, before the garpedes\nRecommended for use with a pre-set save file") },
        608 => RadioButtonOption { value: Split::Gold8, key: "Gold8", alias: None, description: "Colo 3 Wave 8b", tooltip: Some("Splits upon completing wave 8\nRecommended for use with a pre-set save file") },
        609 => RadioButtonOption { value: Split::Gold9a, key: "Gold9a", alias: None, description: "Colo 3 Wave 9a", tooltip: Some("Splits upon killing the fools and mantises in wave 9\nRecommended for use with a pre-set save file") },
        610 => RadioButtonOption { value: Split::Gold9b, key: "Gold9b", alias: None, description: "Colo 3 Wave 9b", tooltip: Some("Splits upon killing the Soul Warrior in wave 9\nRecommended for use with a pre-set save file") },
        611 => RadioButtonOption { value: Split::Gold10, key: "Gold10", alias: None, description: "Colo 3 Wave 10", tooltip: Some("Splits upon completing wave 10\nRecommended for use with a pre-set save file") },
        612 => RadioButtonOption { value: Split::Gold11, key: "Gold11", alias: None, description: "Colo 3 Wave 11", tooltip: Some("Splits upon completing wave 11\nRecommended for use with a pre-set save file") },
        613 => RadioButtonOption { value: Split::Gold12a, key: "Gold12a", alias: None, description: "Colo 3 Wave 12a", tooltip: Some("Splits upon killing second set of 2 Lesser Mawleks and Winged Fool\nRecommended for use with a pre-set save file") },
        614 => RadioButtonOption { value: Split::Gold12b, key: "Gold12b", alias: None, description: "Colo 3 Wave 12b", tooltip: Some("Splits upon killing the Brooding Mawlek\nRecommended for use with a pre-set save file") },
        615 => RadioButtonOption { value: Split::Gold14a, key: "Gold14a", alias: None, description: "Colo 3 Wave 14a", tooltip: Some("Splits upon killing the Squits, Petras and Primal Aspids in wave 14\nRecommended for use with a pre-set save file") },
        616 => RadioButtonOption { value: Split::Gold14b, key: "Gold14b", alias: None, description: "Colo 3 Wave 14b", tooltip: Some("Splits upon killing the Winged Fools and Battle Obbles in wave 14\nRecommended for use with a pre-set save file") },
        617 => RadioButtonOption { value: Split::Gold15, key: "Gold15", alias: None, description: "Colo 3 Wave 15", tooltip: Some("Splits upon killing both Squits in wave 15\nRecommended for use with a pre-set save file") },
        618 => RadioButtonOption { value: Split::Gold16, key: "Gold16", alias: None, description: "Colo 3 Wave 16", tooltip: Some("Splits upon the death of all 14 Death Loodles in wave 16\nRecommended for use with a pre-set save file") },
        619 => RadioButtonOption { value: Split::Gold17a, key: "Gold17a", alias: None, description: "Colo 3 Wave 17a", tooltip: Some("Splits upon killing the first two phases of fools and mantises in wave 17\nRecommended for use with a pre-set save file") },
        620 => RadioButtonOption { value: Split::Gold17b, key: "Gold17b", alias: None, description: "Colo 3 Wave 17b", tooltip: Some("Splits upon killing the fools, Volt Twister and Soul Twister in wave 17\nRecommended for use with a pre-set save file") },
        621 => RadioButtonOption { value: Split::Gold17c, key: "Gold17c", alias: None, description: "Colo 3 Wave 17c", tooltip: Some("Splits upon killing all the regular enemies in wave 17\nRecommended for use with a pre-set save file") },
        622 => RadioButtonOption { value: Split::GoldEnd, key: "GoldEnd", alias: None, description: "Colo 3 End", tooltip: Some("Splits upon killing God Tamer\nRecommended for use with a pre-set save file") },
        _ => RadioButtonOption { value: Split::GodTamer, key: "GodTamer", alias: None, description: "God Tamer (Boss)", tooltip: Some("Splits when killing the God Tamer") },
    }
}

/// The options at positions 624 to 671.
pub open spec fn split_option_chunk_13(i: usize) -> RadioButtonOption<'static, Split> {
    match i {
        624 => RadioButtonOption { value: Split::ColosseumGold, key: "ColosseumGold", alias: None, description: "Colosseum Fight 3 (Trial)", tooltip: Some("Splits when beating the Trial of the Warrior") },
        625 => RadioButtonOption { value: Split::ColosseumGoldExit, key: "ColosseumGoldExit", alias: None, description: "Colosseum Exit 3 (Transition)", tooltip: Some("Splits on the transition out of the trial, or in the load-in after quitout") },
        626 => RadioButtonOption { value: Split::FogCanyonEntry, key: "FogCanyonEntry", alias: None, description: "Fog Canyon (Transition)", tooltip: Some("Splits on transition to Fog Canyon") },
        627 => RadioButtonOption { value: Split::FogCanyon, key: "FogCanyon", alias: None, description: "Fog Canyon (Area)", tooltip: Some("Splits when entering Fog Canyon text first appears") },
        628 => RadioButtonOption { value: Split::TeachersArchive, key: "TeachersArchive", alias: None, description: "Teachers Archive (Area)", tooltip: Some("Splits when entering Teachers Archive for the first time") },
        629 => RadioButtonOption { value: Split::UumuuEncountered, key: "UumuuEncountered", alias: None, description: "Uumuu Encountered (Boss)", tooltip: Some("Splits Uumuu is activated the first time as the arena gate closes") },
        630 => RadioButtonOption { value: Split::Uumuu, key: "Uumuu", alias: None, description: "Uumuu (Boss)", tooltip: Some("Splits when killing Uumuu") },
        631 => RadioButtonOption { value: Split::QueensGardensEntry, key: "QueensGardensEntry", alias: None, description: "Queen's Garden Entry (Transition)", tooltip: Some("Splits on transition to QG scene following QGA or above Deepnest") },
        632 => RadioButtonOption { value: Split::QueensGardens, key: "QueensGardens", alias: None, description: "Queen's Gardens (Area)", tooltip: Some("Splits when entering Queen's Gardens text first appears") },
        633 => RadioButtonOption { value: Split::TollBenchQG, key: "TollBenchQG", alias: None, description: "Queen's Garden Bench (Toll)", tooltip: Some("Splits when buying Queen's Garden toll bench") },
        634 => RadioButtonOption { value: Split::QueensGardensPostArenaTransition, key: "QueensGardensPostArenaTransition", alias: None, description: "Queen's Garden - Post-Upper Arena (Transition)", tooltip: Some("Splits on transition to room after upper arena in QG") },
        635 => RadioButtonOption { value: Split::FlowerQuest, key: "FlowerQuest", alias: None, description: "Flower Quest (Event)", tooltip: Some("Splits when placing the flower at the grave of the Traitors' Child") },
        636 => RadioButtonOption { value: Split::QueensGardensFrogsTrans, key: "QueensGardensFrogsTrans", alias: None, description: "Queen's Garden - Frogs (Transition)", tooltip: Some("Splits on transition to QG frogs scene") },
        637 => RadioButtonOption { value: Split::Marmu, key: "Marmu", alias: None, description: "Marmu (Boss)", tooltip: Some("Splits when killing Marmu") },
        638 => RadioButtonOption { value: Split::MarmuEssence, key: "MarmuEssence", alias: None, description: "Marmu (Essence)", tooltip: Some("Splits when absorbing essence from Marmu") },
        639 => RadioButtonOption { value: Split::BenchQGStag, key: "BenchQGStag", alias: None, description: "Queen's Gardens Stag (Bench)", tooltip: Some("Splits when sitting on the bench at Queen's Gardens Stag") },
        640 => RadioButtonOption { value: Split::TraitorLord, key: "TraitorLord", alias: None, description: "Traitor Lord (Boss)", tooltip: Some("Splits when killing Traitor Lord") },
        641 => RadioButtonOption { value: Split::GivenWhiteLadyFlower, key: "GivenWhiteLadyFlower", alias: None, description: "White Lady Flower (NPC)", tooltip: Some("Splits when giving White Lady a flower") },
        642 => RadioButtonOption { value: Split::EnterDeepnest, key: "EnterDeepnest", alias: None, description: "Deepnest (Transition)", tooltip: Some("Splits on transition into Deepnest") },
        643 => RadioButtonOption { value: Split::Deepnest, key: "Deepnest", alias: None, description: "Deepnest (Area)", tooltip: Some("Splits when entering Deepnest text first appears") },
        644 => RadioButtonOption { value: Split::DeepnestSpa, key: "DeepnestSpa", alias: None, description: "Deepnest Spa (Area)", tooltip: Some("Splits when entering the Deepnest Spa area with bench") },
        645 => RadioButtonOption { value: Split::Zote2, key: "Zote2", alias: None, description: "Zote Rescued - Deepnest (Mini Boss)", tooltip: Some("Splits when rescuing Zote in Deepnest") },
        646 => RadioButtonOption { value: Split::TramDeepnest, key: "TramDeepnest", alias: None, description: "Tram Deepnest (Tram)", tooltip: Some("Splits when unlocking the tram in Deepnest") },
        647 => RadioButtonOption { value: Split::EnterNosk, key: "EnterNosk", alias: None, description: "Nosk (Transition)", tooltip: Some("Splits when entering Nosk boss arena transition") },
        648 => RadioButtonOption { value: Split::Nosk, key: "Nosk", alias: None, description: "Nosk (Boss)", tooltip: Some("Splits when killing Nosk") },
        649 => RadioButtonOption { value: Split::Galien, key: "Galien", alias: None, description: "Galien (Boss)", tooltip: Some("Splits when killing Galien") },
        650 => RadioButtonOption { value: Split::GalienEssence, key: "GalienEssence", alias: None, description: "Galien (Essence)", tooltip: Some("Splits when absorbing essence from Galien") },
        651 => RadioButtonOption { value: Split::BeastsDenTrapBench, key: "BeastsDenTrapBench", alias: None, description: "Trap Bench (Event)", tooltip: Some("Splits when getting the trap bench in Beasts Den") },
        652 => RadioButtonOption { value: Split::GodTuner, key: "GodTuner", alias: None, description: "God Tuner (Item)", tooltip: Some("Splits when obtaining the God Tuner") },
        653 => RadioButtonOption { value: Split::GivenGodseekerFlower, key: "GivenGodseekerFlower", alias: None, description: "Godseeker Flower (NPC)", tooltip: Some("Splits when giving Godseeker a flower") },
        654 => RadioButtonOption { value: Split::EnterGodhome, key: "EnterGodhome", alias: None, description: "Godhome (Transition)", tooltip: Some("Splits on transition to Godhome") },
        655 => RadioButtonOption { value: Split::Godhome, key: "Godhome", alias: None, description: "Godhome (Area)", tooltip: Some("Splits when entering Godhome text first appears") },
        656 => RadioButtonOption { value: Split::EternalOrdealUnlocked, key: "EternalOrdealUnlocked", alias: None, description: "Eternal Ordeal Unlocked (Event)", tooltip: Some("Splits when breaking the wall to the Zote statue in Godhome") },
        657 => RadioButtonOption { value: Split::EternalOrdealAchieved, key: "EternalOrdealAchieved", alias: None, description: "Eternal Ordeal Achieved (Event)", tooltip: Some("Splits when achieving the ordeal (57th Zote killed)") },
        658 => RadioButtonOption { value: Split::Pantheon1to4Entry, key: "Pantheon1to4Entry", alias: None, description: "Pantheon 1-4 (Transition)", tooltip: Some("Splits on entry to any of Pantheon 1 - 4") },
        659 => RadioButtonOption { value: Split::VengeflyKingP, key: "VengeflyKingP", alias: None, description: "Vengefly King (Pantheon)", tooltip: Some("Splits after killing Vengefly King in Pantheon 1 or Pantheon 5") },
        660 => RadioButtonOption { value: Split::GruzMotherP, key: "GruzMotherP", alias: None, description: "Gruz Mother (Pantheon)", tooltip: Some("Splits after killing Gruz Mother in Pantheon 1 or Pantheon 5") },
        661 => RadioButtonOption { value: Split::FalseKnightP, key: "FalseKnightP", alias: None, description: "False Knight (Pantheon)", tooltip: Some("Splits after killing False Knight in Pantheon 1 or Pantheon 5") },
        662 => RadioButtonOption { value: Split::MassiveMossChargerP, key: "MassiveMossChargerP", alias: None, description: "Massive Moss Charger (Pantheon)", tooltip: Some("Splits after killing Massive Moss Charger in Pantheon 1 or Pantheon 5") },
        663 => RadioButtonOption { value: Split::Hornet1P, key: "Hornet1P", alias: None, description: "Hornet 1 (Pantheon)", tooltip: Some("Splits after killing Hornet Protector in Pantheon 1 or Pantheon 5") },
        664 => RadioButtonOption { value: Split::GodhomeBench, key: "GodhomeBench", alias: None, description: "Godhome Bench (Transition)", tooltip: Some("Splits when leaving a Godhome Bench room") },
        665 => RadioButtonOption { value: Split::GorbP, key: "GorbP", alias: None, description: "Gorb (Pantheon)", tooltip: Some("Splits after killing Gorb in Pantheon 1 or Pantheon 5") },
        666 => RadioButtonOption { value: Split::DungDefenderP, key: "DungDefenderP", alias: None, description: "Dung Defender (Pantheon)", tooltip: Some("Splits after killing Dung Defender in Pantheon 1 or Pantheon 5") },
        667 => RadioButtonOption { value: Split::SoulWarriorP, key: "SoulWarriorP", alias: None, description: "Soul Warrior (Pantheon)", tooltip: Some("Splits after killing Soul Warrior in Pantheon 1 or Pantheon 5") },
        668 => RadioButtonOption { value: Split::BroodingMawlekP, key: "BroodingMawlekP", alias: None, description: "Brooding Mawlek (Pantheon)", tooltip: Some("Splits after killing Brooding Mawlek in Pantheon 1 or Pantheon 5") },
        669 => RadioButtonOption { value: Split::GodhomeLoreRoom, key: "GodhomeLoreRoom", alias: None, description: "Godhome Lore Room (Transition)", tooltip: Some("Splits when leaving a Godhome lore room") },
        670 => RadioButtonOption { value: Split::MatoOroNailBros, key: "MatoOroNailBros", alias: None, description: "Oro & Mato Nail Bros (Boss)", tooltip: Some("Splits when defeating Brothers Oro & Mato") },
        _ => RadioButtonOption { value: Split::OroMatoNailBrosP, key: "OroMatoNailBrosP", alias: None, description: "Oro & Mato Nail Bros (Pantheon)", tooltip: Some("Splits after killing Brothers Oro & Mato in Pantheon 1 or Pantheon 5") },
    }
}

fn split_option_chunk_13_exec(i: usize) -> (r: RadioButtonOption<'static, Split>)
    ensures
        r == split_option_chunk_13(i),
{
    match i {
        624 => RadioButtonOption { value: Split::ColosseumGold, key: "ColosseumGold", alias: None, description: "Colosseum Fight 3 (Trial)", tooltip: Some("Splits when beating the Trial of the Warrior") },
        625 => RadioButtonOption { value: Split::ColosseumGoldExit, key: "ColosseumGoldExit", alias: None, description: "Colosseum Exit 3 (Transition)", tooltip: Some("Splits on the transition out of the trial, or in the load-in after quitout") },
        626 => RadioButtonOption { value: Split::FogCanyonEntry, key: "FogCanyonEntry", alias: None, description: "Fog Canyon (Transition)", tooltip: Some("Splits on transition to Fog Canyon") },
        627 => RadioButtonOption { value: Split::FogCanyon, key: "FogCanyon", alias: None, description: "Fog Canyon (Area)", tooltip: Some("Splits when entering Fog Canyon text first appears") },
        628 => RadioButtonOption { value: Split::TeachersArchive, key: "TeachersArchive", alias: None, description: "Teachers Archive (Area)", tooltip: Some("Splits when entering Teachers Archive for the first time") },
        629 => RadioButtonOption { value: Split::UumuuEncountered, key: "UumuuEncountered", alias: None, description: "Uumuu Encountered (Boss)", tooltip: Some("Splits Uumuu is activated the first time as the arena gate closes") },
        630 => RadioButtonOption { value: Split::Uumuu, key: "Uumuu", alias: None, description: "Uumuu (Boss)", tooltip: Some("Splits when killing Uumuu") },
        631 => RadioButtonOption { value: Split::QueensGardensEntry, key: "QueensGardensEntry", alias: None, description: "Queen's Garden Entry (Transition)", tooltip: Some("Splits on transition to QG scene following QGA or above Deepnest") },
        632 => RadioButtonOption { value: Split::QueensGardens, key: "QueensGardens", alias: None, description: "Queen's Gardens (Area)", tooltip: Some("Splits when entering Queen's Gardens text first appears") },
        633 => RadioButtonOption { value: Split::TollBenchQG, key: "TollBenchQG", alias: None, description: "Queen's Garden Bench (Toll)", tooltip: Some("Splits when buying Queen's Garden toll bench") },
        634 => RadioButtonOption { value: Split::QueensGardensPostArenaTransition, key: "QueensGardensPostArenaTransition", alias: None, description: "Queen's Garden - Post-Upper Arena (Transition)", tooltip: Some("Splits on transition to room after upper arena in QG") },
        635 => RadioButtonOption { value: Split::FlowerQuest, key: "FlowerQuest", alias: None, description: "Flower Quest (Event)", tooltip: Some("Splits when placing the flower at the grave of the Traitors' Child") },
        636 => RadioButtonOption { value: Split::QueensGardensFrogsTrans, key: "QueensGardensFrogsTrans", alias: None, description: "Queen's Garden - Frogs (Transition)", tooltip: Some("Splits on transition to QG frogs scene") },
        637 => RadioButtonOption { value: Split::Marmu, key: "Marmu", alias: None, description: "Marmu (Boss)", tooltip: Some("Splits when killing Marmu") },
        638 => RadioButtonOption { value: Split::MarmuEssence, key: "MarmuEssence", alias: None, description: "Marmu (Essence)", tooltip: Some("Splits when absorbing essence from Marmu") },
        639 => RadioButtonOption { value: Split::BenchQGStag, key: "BenchQGStag", alias: None, description: "Queen's Gardens Stag (Bench)", tooltip: Some("Splits when sitting on the bench at Queen's Gardens Stag") },
        640 => RadioButtonOption { value: Split::TraitorLord, key: "TraitorLord", alias: None, description: "Traitor Lord (Boss)", tooltip: Some("Splits when killing Traitor Lord") },
        641 => RadioButtonOption { value: Split::GivenWhiteLadyFlower, key: "GivenWhiteLadyFlower", alias: None, description: "White Lady Flower (NPC)", tooltip: Some("Splits when giving White Lady a flower") },
        642 => RadioButtonOption { value: Split::EnterDeepnest, key: "EnterDeepnest", alias: None, description: "Deepnest (Transition)", tooltip: Some("Splits on transition into Deepnest") },
        643 => RadioButtonOption { value: Split::Deepnest, key: "Deepnest", alias: None, description: "Deepnest (Area)", tooltip: Some("Splits when entering Deepnest text first appears") },
        644 => RadioButtonOption { value: Split::DeepnestSpa, key: "DeepnestSpa", alias: None, description: "Deepnest Spa (Area)", tooltip: Some("Splits when entering the Deepnest Spa area with bench") },
        645 => RadioButtonOption { value: Split::Zote2, key: "Zote2", alias: None, description: "Zote Rescued - Deepnest (Mini Boss)", tooltip: Some("Splits when rescuing Zote in Deepnest") },
        646 => RadioButtonOption { value: Split::TramDeepnest, key: "TramDeepnest", alias: None, description: "Tram Deepnest (Tram)", tooltip: Some("Splits when unlocking the tram in Deepnest") },
        647 => RadioButtonOption { value: Split::EnterNosk, key: "EnterNosk", alias: None, description: "Nosk (Transition)", tooltip: Some("Splits when entering Nosk boss arena transition") },
        648 => RadioButtonOption { value: Split::Nosk, key: "Nosk", alias: None, description: "Nosk (Boss)", tooltip: Some("Splits when killing Nosk") },
        649 => RadioButtonOption { value: Split::Galien, key: "Galien", alias: None, description: "Galien (Boss)", tooltip: Some("Splits when killing Galien") },
        650 => RadioButtonOption { value: Split::GalienEssence, key: "GalienEssence", alias: None, description: "Galien (Essence)", tooltip: Some("Splits when absorbing essence from Galien") },
        651 => RadioButtonOption { value: Split::BeastsDenTrapBench, key: "BeastsDenTrapBench", alias: None, description: "Trap Bench (Event)", tooltip: Some("Splits when getting the trap bench in Beasts Den") },
        652 => RadioButtonOption { value: Split::GodTuner, key: "GodTuner", alias: None, description: "God Tuner (Item)", tooltip: Some("Splits when obtaining the God Tuner") },
        653 => RadioButtonOption { value: Split::GivenGodseekerFlower, key: "GivenGodseekerFlower", alias: None, description: "Godseeker Flower (NPC)", tooltip: Some("Splits when giving Godseeker a flower") },
        654 => RadioButtonOption { value: Split::EnterGodhome, key: "EnterGodhome", alias: None, description: "Godhome (Transition)", tooltip: Some("Splits on transition to Godhome") },
        655 => RadioButtonOption { value: Split::Godhome, key: "Godhome", alias: None, description: "Godhome (Area)", tooltip: Some("Splits when entering Godhome text first appears") },
        656 => RadioButtonOption { value: Split::EternalOrdealUnlocked, key: "EternalOrdealUnlocked", alias: None, description: "Eternal Ordeal Unlocked (Event)", tooltip: Some("Splits when breaking the wall to the Zote statue in Godhome") },
        657 => RadioButtonOption { value: Split::EternalOrdealAchieved, key: "EternalOrdealAchieved", alias: None, description: "Eternal Ordeal Achieved (Event)", tooltip: Some("Splits when achieving the ordeal (57th Zote killed)") },
        658 => RadioButtonOption { value: Split::Pantheon1to4Entry, key: "Pantheon1to4Entry", alias: None, description: "Pantheon 1-4 (Transition)", tooltip: Some("Splits on entry to any of Pantheon 1 - 4") },
        659 => RadioButtonOption { value: Split::VengeflyKingP, key: "VengeflyKingP", alias: None, description: "Vengefly King (Pantheon)", tooltip: Some("Splits after killing Vengefly King in Pantheon 1 or Pantheon 5") },
        660 => RadioButtonOption { value: Split::GruzMotherP, key: "GruzMotherP", alias: None, description: "Gruz Mother (Pantheon)", tooltip: Some("Splits after killing Gruz Mother in Pantheon 1 or Pantheon 5") },
        661 => RadioButtonOption { value: Split::FalseKnightP, key: "FalseKnightP", alias: None, description: "False Knight (Pantheon)", tooltip: Some("Splits after killing False Knight in Pantheon 1 or Pantheon 5") },
        662 => RadioButtonOption { value: Split::MassiveMossChargerP, key: "MassiveMossChargerP", alias: None, description: "Massive Moss Charger (Pantheon)", tooltip: Some("Splits after killing Massive Moss Charger in Pantheon 1 or Pantheon 5") },
        663 => RadioButtonOption { value: Split::Hornet1P, key: "Hornet1P", alias: None, description: "Hornet 1 (Pantheon)", tooltip: Some("Splits after killing Hornet Protector in Pantheon 1 or Pantheon 5") },
        664 => RadioButtonOption { value: Split::GodhomeBench, key: "GodhomeBench", alias: None, description: "Godhome Bench (Transition)", tooltip: Some("Splits when leaving a Godhome Bench room") },
        665 => RadioButtonOption { value: Split::GorbP, key: "GorbP", alias: None, description: "Gorb (Pantheon)", tooltip: Some("Splits after killing Gorb in Pantheon 1 or Pantheon 5") },
        666 => RadioButtonOption { value: Split::DungDefenderP, key: "DungDefenderP", alias: None, description: "Dung Defender (Pantheon)", tooltip: Some("Splits after killing Dung Defender in Pantheon 1 or Pantheon 5") },
        667 => RadioButtonOption { value: Split::SoulWarriorP, key: "SoulWarriorP", alias: None, description: "Soul Warrior (Pantheon)", tooltip: Some("Splits after killing Soul Warrior in Pantheon 1 or Pantheon 5") },
        668 => RadioButtonOption { value: Split::BroodingMawlekP, key: "BroodingMawlekP", alias: None, description: "Brooding Mawlek (Pantheon)", tooltip: Some("Splits after killing Brooding Mawlek in Pantheon 1 or Pantheon 5") },
        669 => RadioButtonOption { value: Split::GodhomeLoreRoom, key: "GodhomeLoreRoom", alias: None, description: "Godhome Lore Room (Transition)", tooltip: Some("Splits when leaving a Godhome lore room") },
        670 => RadioButtonOption { value: Split::MatoOroNailBros, key: "MatoOroNailBros", alias: None, description: "Oro & Mato Nail Bros (Boss)", tooltip: Some("Splits when defeating Brothers Oro & Mato") },
        _ => RadioButtonOption { value: Split::OroMatoNailBrosP, key: "OroMatoNailBrosP", alias: None, description: "Oro & Mato Nail Bros (Pantheon)", tooltip: Some("Splits after killing Brothers Oro & Mato in Pantheon 1 or Pantheon 5") },
    }
}

/// The options at positions 672 to 713.
pub open spec fn split_option_chunk_14(i: usize) -> RadioButtonOption<'static, Split> {
    match i {
        672 => RadioButtonOption { value: Split::Pantheon1, key: "Pantheon1", alias: None, description: "Pantheon 1 (Trial)", tooltip: Some("Splits when beating the Pantheon of the Master") },
        673 => RadioButtonOption { value: Split::XeroP, key: "XeroP", alias: None, description: "Xero (Pantheon)", tooltip: Some("Splits after killing Xero in Pantheon 2 or Pantheon 5") },
        674 => RadioButtonOption { value: Split::CrystalGuardianP, key: "CrystalGuardianP", alias: None, description: "Crystal Guardian (Pantheon)", tooltip: Some("Splits after killing Crystal Guardian in Pantheon 2 or Pantheon 5") },
        675 => RadioButtonOption { value: Split::SoulMasterP, key: "SoulMasterP", alias: None, description: "Soul Master (Pantheon)", tooltip: Some("Splits after killing Soul Master in Pantheon 2 or Pantheon 5") },
        676 => RadioButtonOption { value: Split::OblobblesP, key: "OblobblesP", alias: None, description: "Oblobbles (Pantheon)", tooltip: Some("Splits after killing Oblobbles in Pantheon 2 or Pantheon 5") },
        677 => RadioButtonOption { value: Split::MantisLordsP, key: "MantisLordsP", alias: None, description: "Mantis Lords (Pantheon)", tooltip: Some("Splits after killing Mantis Lords in Pantheon 2 or Sisters of Battle Pantheon 5") },
        678 => RadioButtonOption { value: Split::MarmuP, key: "MarmuP", alias: None, description: "Marmu (Pantheon)", tooltip: Some("Splits after killing Marmu in Pantheon 2 or Pantheon 5") },
        679 => RadioButtonOption { value: Split::NoskP, key: "NoskP", alias: None, description: "Nosk (Pantheon)", tooltip: Some("Splits after killing Nosk in Pantheon 2") },
        680 => RadioButtonOption { value: Split::FlukemarmP, key: "FlukemarmP", alias: None, description: "Flukemarm (Pantheon)", tooltip: Some("Splits after killing Flukemarm in Pantheon 2 or Pantheon 5") },
        681 => RadioButtonOption { value: Split::BrokenVesselP, key: "BrokenVesselP", alias: None, description: "Broken Vessel (Pantheon)", tooltip: Some("Splits after killing Broken Vessel in Pantheon 2 or Pantheon 5") },
        682 => RadioButtonOption { value: Split::SheoPaintmaster, key: "SheoPaintmaster", alias: None, description: "Paintmaster Sheo (Boss)", tooltip: Some("Splits when killing Paintmaster Sheo") },
        683 => RadioButtonOption { value: Split::SheoPaintmasterP, key: "SheoPaintmasterP", alias: None, description: "Paintmaster Sheo (Pantheon)", tooltip: Some("Splits after killing Paintmaster Sheo in Pantheon 2 or Pantheon 5") },
        684 => RadioButtonOption { value: Split::Pantheon2, key: "Pantheon2", alias: None, description: "Pantheon 2 (Trial)", tooltip: Some("Splits when beating the Pantheon of the Artist") },
        685 => RadioButtonOption { value: Split::HiveKnightP, key: "HiveKnightP", alias: None, description: "Hive Knight (Pantheon)", tooltip: Some("Splits after killing Hive Knight in Pantheon 3 or Pantheon 5") },
        686 => RadioButtonOption { value: Split::ElderHuP, key: "ElderHuP", alias: None, description: "Elder Hu (Pantheon)", tooltip: Some("Splits after killing Elder Hu in Pantheon 3 or Pantheon 5") },
        687 => RadioButtonOption { value: Split::CollectorP, key: "CollectorP", alias: None, description: "Collector (Pantheon)", tooltip: Some("Splits after killing The Collector in Pantheon 3 or Pantheon 5") },
        688 => RadioButtonOption { value: Split::GodTamerP, key: "GodTamerP", alias: None, description: "God Tamer (Pantheon)", tooltip: Some("Splits after killing God Tamer in Pantheon 3 or Pantheon 5") },
        689 => RadioButtonOption { value: Split::TroupeMasterGrimmP, key: "TroupeMasterGrimmP", alias: None, description: "Troupe Master Grimm (Pantheon)", tooltip: Some("Splits after killing Troupe Master Grimm in Pantheon 3 or Pantheon 5") },
        690 => RadioButtonOption { value: Split::GalienP, key: "GalienP", alias: None, description: "Galien (Pantheon)", tooltip: Some("Splits after killing Galien in Pantheon 3 or Pantheon 5") },
        691 => RadioButtonOption { value: Split::GreyPrinceZoteP, key: "GreyPrinceZoteP", alias: None, description: "Grey Prince Zote (Pantheon)", tooltip: Some("Splits after killing Grey Prince Zote in Pantheon 3 or Pantheon 5") },
        692 => RadioButtonOption { value: Split::UumuuP, key: "UumuuP", alias: None, description: "Uumuu (Pantheon)", tooltip: Some("Splits after killing Uumuu in Pantheon 3 or Pantheon 5") },
        693 => RadioButtonOption { value: Split::Hornet2P, key: "Hornet2P", alias: None, description: "Hornet 2 (Pantheon)", tooltip: Some("Splits after killing Hornet Sentinel in Pantheon 3 or Pantheon 5") },
        694 => RadioButtonOption { value: Split::SlyNailsage, key: "SlyNailsage", alias: None, description: "Great Nailsage Sly (Boss)", tooltip: Some("Splits when killing Great Nailsage Sly") },
        695 => RadioButtonOption { value: Split::SlyP, key: "SlyP", alias: None, description: "Great Nailsage Sly (Pantheon)", tooltip: Some("Splits after killing Great Nailsage Sly in Pantheon 3 or Pantheon 5") },
        696 => RadioButtonOption { value: Split::Pantheon3, key: "Pantheon3", alias: None, description: "Pantheon 3 (Trial)", tooltip: Some("Splits when beating the Pantheon of the Sage") },
        697 => RadioButtonOption { value: Split::EnragedGuardianP, key: "EnragedGuardianP", alias: None, description: "Enraged Guardian (Pantheon)", tooltip: Some("Splits after killing Enraged Guardian in Pantheon 4 or Pantheon 5") },
        698 => RadioButtonOption { value: Split::LostKinP, key: "LostKinP", alias: None, description: "Lost Kin (Pantheon)", tooltip: Some("Splits after killing Lost Kin in Pantheon 4 or Pantheon 5") },
        699 => RadioButtonOption { value: Split::NoEyesP, key: "NoEyesP", alias: None, description: "No Eyes (Pantheon)", tooltip: Some("Splits after killing No Eyes in Pantheon 4 or Pantheon 5") },
        700 => RadioButtonOption { value: Split::TraitorLordP, key: "TraitorLordP", alias: None, description: "Traitor Lord (Pantheon)", tooltip: Some("Splits after killing Traitor Lord in Pantheon 4 or Pantheon 5") },
        701 => RadioButtonOption { value: Split::WhiteDefenderP, key: "WhiteDefenderP", alias: None, description: "White Defender (Pantheon)", tooltip: Some("Splits after killing White Defender in Pantheon 4 or Pantheon 5") },
        702 => RadioButtonOption { value: Split::FailedChampionP, key: "FailedChampionP", alias: None, description: "Failed Champion (Pantheon)", tooltip: Some("Splits after killing Failed Champion in Pantheon 4 or Pantheon 5") },
        703 => RadioButtonOption { value: Split::MarkothP, key: "MarkothP", alias: None, description: "Markoth (Pantheon)", tooltip: Some("Splits after killing Markoth in Pantheon 4 or Pantheon 5") },
        704 => RadioButtonOption { value: Split::WatcherKnightsP, key: "WatcherKnightsP", alias: None, description: "Watcher Knights (Pantheon)", tooltip: Some("Splits after killing Watcher Knights in Pantheon 4 or Pantheon 5") },
        705 => RadioButtonOption { value: Split::SoulTyrantP, key: "SoulTyrantP", alias: None, description: "Soul Tyrant (Pantheon)", tooltip: Some("Splits after killing Soul Tyrant in Pantheon 4 or Pantheon 5") },
        706 => RadioButtonOption { value: Split::PureVessel, key: "PureVessel", alias: None, description: "Pure Vessel (Boss)", tooltip: Some("Splits when killing Pure Vessel") },
        707 => RadioButtonOption { value: Split::PureVesselP, key: "PureVesselP", alias: None, description: "Pure Vessel (Pantheon)", tooltip: Some("Splits after killing Pure Vessel in Pantheon 4 or Pantheon 5") },
        708 => RadioButtonOption { value: Split::Pantheon4, key: "Pantheon4", alias: None, description: "Pantheon 4 (Trial)", tooltip: Some("Splits when beating the Pantheon of the Knight") },
        709 => RadioButtonOption { value: Split::Pantheon5Entry, key: "Pantheon5Entry", alias: None, description: "Pantheon 5 (Transition)", tooltip: Some("Splits on entry to Pantheon 5") },
        710 => RadioButtonOption { value: Split::NoskHornetP, key: "NoskHornetP", alias: None, description: "Winged Nosk (Pantheon)", tooltip: Some("Splits after killing Winged Nosk in Pantheon 5") },
        711 => RadioButtonOption { value: Split::NightmareKingGrimmP, key: "NightmareKingGrimmP", alias: None, description: "Nightmare King Grimm (Pantheon)", tooltip: Some("Splits after killing Nightmare King Grimm in Pantheon 5") },
        712 => RadioButtonOption { value: Split::RadianceP, key: "RadianceP", alias: None, description: "Absolute Radiance (Pantheon)", tooltip: Some("Splits after killing Absolute Radiance in Pantheon 5") },
        _ => RadioButtonOption { value: Split::Pantheon5, key: "Pantheon5", alias: None, description: "Pantheon 5 (Trial)", tooltip: Some("Splits when beating the Pantheon of Hallownest") },
    }
}

fn split_option_chunk_14_exec(i: usize) -> (r: RadioButtonOption<'static, Split>)
    ensures
        r == split_option_chunk_14(i),
{
    match i {
        672 => RadioButtonOption { value: Split::Pantheon1, key: "Pantheon1", alias: None, description: "Pantheon 1 (Trial)", tooltip: Some("Splits when beating the Pantheon of the Master") },
        673 => RadioButtonOption { value: Split::XeroP, key: "XeroP", alias: None, description: "Xero (Pantheon)", tooltip: Some("Splits after killing Xero in Pantheon 2 or Pantheon 5") },
        674 => RadioButtonOption { value: Split::CrystalGuardianP, key: "CrystalGuardianP", alias: None, description: "Crystal Guardian (Pantheon)", tooltip: Some("Splits after killing Crystal Guardian in Pantheon 2 or Pantheon 5") },
        675 => RadioButtonOption { value: Split::SoulMasterP, key: "SoulMasterP", alias: None, description: "Soul Master (Pantheon)", tooltip: Some("Splits after killing Soul Master in Pantheon 2 or Pantheon 5") },
        676 => RadioButtonOption { value: Split::OblobblesP, key: "OblobblesP", alias: None, description: "Oblobbles (Pantheon)", tooltip: Some("Splits after killing Oblobbles in Pantheon 2 or Pantheon 5") },
        677 => RadioButtonOption { value: Split::MantisLordsP, key: "MantisLordsP", alias: None, description: "Mantis Lords (Pantheon)", tooltip: Some("Splits after killing Mantis Lords in Pantheon 2 or Sisters of Battle Pantheon 5") },
        678 => RadioButtonOption { value: Split::MarmuP, key: "MarmuP", alias: None, description: "Marmu (Pantheon)", tooltip: Some("Splits after killing Marmu in Pantheon 2 or Pantheon 5") },
        679 => RadioButtonOption { value: Split::NoskP, key: "NoskP", alias: None, description: "Nosk (Pantheon)", tooltip: Some("Splits after killing Nosk in Pantheon 2") },
        680 => RadioButtonOption { value: Split::FlukemarmP, key: "FlukemarmP", alias: None, description: "Flukemarm (Pantheon)", tooltip: Some("Splits after killing Flukemarm in Pantheon 2 or Pantheon 5") },
        681 => RadioButtonOption { value: Split::BrokenVesselP, key: "BrokenVesselP", alias: None, description: "Broken Vessel (Pantheon)", tooltip: Some("Splits after killing Broken Vessel in Pantheon 2 or Pantheon 5") },
        682 => RadioButtonOption { value: Split::SheoPaintmaster, key: "SheoPaintmaster", alias: None, description: "Paintmaster Sheo (Boss)", tooltip: Some("Splits when killing Paintmaster Sheo") },
        683 => RadioButtonOption { value: Split::SheoPaintmasterP, key: "SheoPaintmasterP", alias: None, description: "Paintmaster Sheo (Pantheon)", tooltip: Some("Splits after killing Paintmaster Sheo in Pantheon 2 or Pantheon 5") },
        684 => RadioButtonOption { value: Split::Pantheon2, key: "Pantheon2", alias: None, description: "Pantheon 2 (Trial)", tooltip: Some("Splits when beating the Pantheon of the Artist") },
        685 => RadioButtonOption { value: Split::HiveKnightP, key: "HiveKnightP", alias: None, description: "Hive Knight (Pantheon)", tooltip: Some("Splits after killing Hive Knight in Pantheon 3 or Pantheon 5") },
        686 => RadioButtonOption { value: Split::ElderHuP, key: "ElderHuP", alias: None, description: "Elder Hu (Pantheon)", tooltip: Some("Splits after killing Elder Hu in Pantheon 3 or Pantheon 5") },
        687 => RadioButtonOption { value: Split::CollectorP, key: "CollectorP", alias: None, description: "Collector (Pantheon)", tooltip: Some("Splits after killing The Collector in Pantheon 3 or Pantheon 5") },
        688 => RadioButtonOption { value: Split::GodTamerP, key: "GodTamerP", alias: None, description: "God Tamer (Pantheon)", tooltip: Some("Splits after killing God Tamer in Pantheon 3 or Pantheon 5") },
        689 => RadioButtonOption { value: Split::TroupeMasterGrimmP, key: "TroupeMasterGrimmP", alias: None, description: "Troupe Master Grimm (Pantheon)", tooltip: Some("Splits after killing Troupe Master Grimm in Pantheon 3 or Pantheon 5") },
        690 => RadioButtonOption { value: Split::GalienP, key: "GalienP", alias: None, description: "Galien (Pantheon)", tooltip: Some("Splits after killing Galien in Pantheon 3 or Pantheon 5") },
        691 => RadioButtonOption { value: Split::GreyPrinceZoteP, key: "GreyPrinceZoteP", alias: None, description: "Grey Prince Zote (Pantheon)", tooltip: Some("Splits after killing Grey Prince Zote in Pantheon 3 or Pantheon 5") },
        692 => RadioButtonOption { value: Split::UumuuP, key: "UumuuP", alias: None, description: "Uumuu (Pantheon)", tooltip: Some("Splits after killing Uumuu in Pantheon 3 or Pantheon 5") },
        693 => RadioButtonOption { value: Split::Hornet2P, key: "Hornet2P", alias: None, description: "Hornet 2 (Pantheon)", tooltip: Some("Splits after killing Hornet Sentinel in Pantheon 3 or Pantheon 5") },
        694 => RadioButtonOption { value: Split::SlyNailsage, key: "SlyNailsage", alias: None, description: "Great Nailsage Sly (Boss)", tooltip: Some("Splits when killing Great Nailsage Sly") },
        695 => RadioButtonOption { value: Split::SlyP, key: "SlyP", alias: None, description: "Great Nailsage Sly (Pantheon)", tooltip: Some("Splits after killing Great Nailsage Sly in Pantheon 3 or Pantheon 5") },
        696 => RadioButtonOption { value: Split::Pantheon3, key: "Pantheon3", alias: None, description: "Pantheon 3 (Trial)", tooltip: Some("Splits when beating the Pantheon of the Sage") },
        697 => RadioButtonOption { value: Split::EnragedGuardianP, key: "EnragedGuardianP", alias: None, description: "Enraged Guardian (Pantheon)", tooltip: Some("Splits after killing Enraged Guardian in Pantheon 4 or Pantheon 5") },
        698 => RadioButtonOption { value: Split::LostKinP, key: "LostKinP", alias: None, description: "Lost Kin (Pantheon)", tooltip: Some("Splits after killing Lost Kin in Pantheon 4 or Pantheon 5") },
        699 => RadioButtonOption { value: Split::NoEyesP, key: "NoEyesP", alias: None, description: "No Eyes (Pantheon)", tooltip: Some("Splits after killing No Eyes in Pantheon 4 or Pantheon 5") },
        700 => RadioButtonOption { value: Split::TraitorLordP, key: "TraitorLordP", alias: None, description: "Traitor Lord (Pantheon)", tooltip: Some("Splits after killing Traitor Lord in Pantheon 4 or Pantheon 5") },
        701 => RadioButtonOption { value: Split::WhiteDefenderP, key: "WhiteDefenderP", alias: None, description: "White Defender (Pantheon)", tooltip: Some("Splits after killing White Defender in Pantheon 4 or Pantheon 5") },
        702 => RadioButtonOption { value: Split::FailedChampionP, key: "FailedChampionP", alias: None, description: "Failed Champion (Pantheon)", tooltip: Some("Splits after killing Failed Champion in Pantheon 4 or Pantheon 5") },
        703 => RadioButtonOption { value: Split::MarkothP, key: "MarkothP", alias: None, description: "Markoth (Pantheon)", tooltip: Some("Splits after killing Markoth in Pantheon 4 or Pantheon 5") },
        704 => RadioButtonOption { value: Split::WatcherKnightsP, key: "WatcherKnightsP", alias: None, description: "Watcher Knights (Pantheon)", tooltip: Some("Splits after killing Watcher Knights in Pantheon 4 or Pantheon 5") },
        705 => RadioButtonOption { value: Split::SoulTyrantP, key: "SoulTyrantP", alias: None, description: "Soul Tyrant (Pantheon)", tooltip: Some("Splits after killing Soul Tyrant in Pantheon 4 or Pantheon 5") },
        706 => RadioButtonOption { value: Split::PureVessel, key: "PureVessel", alias: None, description: "Pure Vessel (Boss)", tooltip: Some("Splits when killing Pure Vessel") },
        707 => RadioButtonOption { value: Split::PureVesselP, key: "PureVesselP", alias: None, description: "Pure Vessel (Pantheon)", tooltip: Some("Splits after killing Pure Vessel in Pantheon 4 or Pantheon 5") },
        708 => RadioButtonOption { value: Split::Pantheon4, key: "Pantheon4", alias: None, description: "Pantheon 4 (Trial)", tooltip: Some("Splits when beating the Pantheon of the Knight") },
        709 => RadioButtonOption { value: Split::Pantheon5Entry, key: "Pantheon5Entry", alias: None, description: "Pantheon 5 (Transition)", tooltip: Some("Splits on entry to Pantheon 5") },
        710 => RadioButtonOption { value: Split::NoskHornetP, key: "NoskHornetP", alias: None, description: "Winged Nosk (Pantheon)", tooltip: Some("Splits after killing Winged Nosk in Pantheon 5") },
        711 => RadioButtonOption { value: Split::NightmareKingGrimmP, key: "NightmareKingGrimmP", alias: None, description: "Nightmare King Grimm (Pantheon)", tooltip: Some("Splits after killing Nightmare King Grimm in Pantheon 5") },
        712 => RadioButtonOption { value: Split::RadianceP, key: "RadianceP", alias: None, description: "Absolute Radiance (Pantheon)", tooltip: Some("Splits after killing Absolute Radiance in Pantheon 5") },
        _ => RadioButtonOption { value: Split::Pantheon5, key: "Pantheon5", alias: None, description: "Pantheon 5 (Trial)", tooltip: Some("Splits when beating the Pantheon of Hallownest") },
    }
}

/// The option at position `i` in the order in which they are shown.
pub open spec fn split_option_at(i: usize) -> RadioButtonOption<'static, Split> {
    if i < 48 {
        split_option_chunk_0(i)
    } else if i < 96 {
        split_option_chunk_1(i)
    } else if i < 144 {
        split_option_chunk_2(i)
    } else if i < 192 {
        split_option_chunk_3(i)
    } else if i < 240 {
        split_option_chunk_4(i)
    } else if i < 288 {
        split_option_chunk_5(i)
    } else if i < 336 {
        split_option_chunk_6(i)
    } else if i < 384 {
        split_option_chunk_7(i)
    } else if i < 432 {
        split_option_chunk_8(i)
    } else if i < 480 {
        split_option_chunk_9(i)
    } else if i < 528 {
        split_option_chunk_10(i)
    } else if i < 576 {
        split_option_chunk_11(i)
    } else if i < 624 {
        split_option_chunk_12(i)
    } else if i < 672 {
        split_option_chunk_13(i)
    } else {
        split_option_chunk_14(i)
    }
}

/// The option at position `i`.
pub fn split_option_at_exec(i: usize) -> (r: RadioButtonOption<'static, Split>)
    ensures
        r == split_option_at(i),
{
    if i < 48 {
        split_option_chunk_0_exec(i)
    } else if i < 96 {
        split_option_chunk_1_exec(i)
    } else if i < 144 {
        split_option_chunk_2_exec(i)
    } else if i < 192 {
        split_option_chunk_3_exec(i)
    } else if i < 240 {
        split_option_chunk_4_exec(i)
    } else if i < 288 {
        split_option_chunk_5_exec(i)
    } else if i < 336 {
        split_option_chunk_6_exec(i)
    } else if i < 384 {
        split_option_chunk_7_exec(i)
    } else if i < 432 {
        split_option_chunk_8_exec(i)
    } else if i < 480 {
        split_option_chunk_9_exec(i)
    } else if i < 528 {
        split_option_chunk_10_exec(i)
    } else if i < 576 {
        split_option_chunk_11_exec(i)
    } else if i < 624 {
        split_option_chunk_12_exec(i)
    } else if i < 672 {
        split_option_chunk_13_exec(i)
    } else {
        split_option_chunk_14_exec(i)
    }
}

impl RadioButtonOptions for Split {
    open spec fn spec_radio_button_options() -> Seq<RadioButtonOption<'static, Split>> {
        Seq::new(SPLIT_COUNT as nat, |i: int| split_option_at(i as usize))
    }

    fn radio_button_options() -> (r: Vec<RadioButtonOption<'static, Split>>) {
        let mut r = Vec::new();
        let mut i: usize = 0;
        while i < SPLIT_COUNT
            invariant
                i <= SPLIT_COUNT,
                r@ =~= Seq::new(i as nat, |j: int| split_option_at(j as usize)),
            decreases SPLIT_COUNT - i,
        {
            r.push(split_option_at_exec(i));
            i = i + 1;
        }
        r
    }

    fn same_option(&self, other: &Self) -> (r: bool) {
        *self == *other
    }
}

} // verus!
