//! The splits that the auto splitter offers.

use vstd::prelude::*;

verus! {

/// A condition on which the timer splits, skips or resets.
#[derive(Clone, Copy, Debug, PartialEq, Eq, Structural, PartialOrd, Ord, Hash)]
pub enum Split {
    // region: Start, End, and Menu
    /// Manual Split (Misc)
    ///
    /// Never splits. Use this when you need to manually split while using ordered splits
    ManualSplit,
    /// Start New Game (Start)
    ///
    /// Splits when starting a new save file, including Normal, Steel Soul, and Godseeker mode
    StartNewGame,
    /// Start Any Game (Start)
    ///
    /// Splits when entering a new or existing save file
    StartAnyGame,
    /// Rando Wake (Event)
    ///
    /// Splits when gaining control after waking up in Rando
    RandoWake,
    /// [DEPRECATED] Start Run (Start)
    ///
    /// Splits when autosplitter version 3 would have automatically started runs
    LegacyStart,
    /// Credits Roll (Event)
    ///
    /// Splits on any credits rolling
    EndingSplit,
    /// The Hollow Knight (Ending)
    ///
    /// Splits on The Hollow Knight ending
    EndingA,
    /// Sealed Siblings (Ending)
    ///
    /// Splits on Sealed Siblings ending
    EndingB,
    /// Dream No More (Ending)
    ///
    /// Splits on Dream No More ending
    EndingC,
    /// Embrace the Void (Ending)
    ///
    /// Splits on Embrace the Void ending
    EndingD,
    /// Delicate Flower (Ending)
    ///
    /// Splits on Delicate Flower ending
    EndingE,
    /// Main Menu (Menu)
    ///
    /// Splits on the main menu
    Menu,
    /// Any Bench (Bench)
    ///
    /// Splits when sitting on a bench
    BenchAny,
    /// Death (Event)
    ///
    /// Splits when player HP is 0
    PlayerDeath,
    /// Shade Killed (Event)
    ///
    /// Splits when the Shade is killed
    ShadeKilled,
    /// Any Transition (Transition)
    ///
    /// Splits when the knight enters a transition (only one will split per transition)
    AnyTransition,
    /// Transition excluding Save State (Transition)
    ///
    /// Splits when the knight enters a transition (excludes save states and Sly's basement)
    TransitionAfterSaveState,
    // endregion: Start, End, and Menu
    // region: Dreamers
    /// Lurien the Watcher (Dreamer)
    ///
    /// Splits when you see the mask for Lurien
    Lurien,
    /// Monomon the Teacher (Dreamer)
    ///
    /// Splits when you see the mask for Monomon
    Monomon,
    /// Herrah the Beast (Dreamer)
    ///
    /// Splits when you see the mask for Herrah
    Hegemol,
    /// First Dreamer (Dreamer)
    ///
    /// Splits when you see the mask for the first dreamer killed
    Dreamer1,
    /// Second Dreamer (Dreamer)
    ///
    /// Splits when you see the mask for the second dreamer killed
    Dreamer2,
    /// Third Dreamer (Dreamer)
    ///
    /// Splits when you see the mask for the third dreamer killed
    Dreamer3,
    /// Main Menu w/ 3 Dreamers (Menu)
    ///
    /// Splits on transition to the main menu after 3 Dreamers acquired
    MenuDreamer3,
    /// Lurien (Old Dreamer Timing)
    ///
    /// Matches the old legacy split. Splits when Lurien is registered as defeated (After killing Watcher Knight)
    LurienDreamer,
    /// Monomon (Old Dreamer Timing)
    ///
    /// Matches the old legacy split. Splits when Monomon is registered as defeated (After killing Uumuu)
    MonomonDreamer,
    /// Herrah (Old Dreamer Timing)
    ///
    /// Matches the old legacy split. Splits when Herrah is registered as defeated (In Spider Area)
    HegemolDreamer,
    // endregion: Dreamers
    // region: Mr Mushroom
    /// Mr. Mushroom 1 (Spot)
    ///
    /// Splits when talking to Mister Mushroom in Fungal Wastes
    MrMushroom1,
    /// Mr. Mushroom 2 (Spot)
    ///
    /// Splits when talking to Mister Mushroom in Kingdom's Edge
    MrMushroom2,
    /// Mr. Mushroom 3 (Spot)
    ///
    /// Splits when talking to Mister Mushroom in Deepnest
    MrMushroom3,
    /// Mr. Mushroom 4 (Spot)
    ///
    /// Splits when talking to Mister Mushroom in Mato's Hut
    MrMushroom4,
    /// Mr. Mushroom 5 (Spot)
    ///
    /// Splits when talking to Mister Mushroom in Ancient Basin
    MrMushroom5,
    /// Mr. Mushroom 6 (Spot)
    ///
    /// Splits when talking to Mister Mushroom by Overgrown Mound
    MrMushroom6,
    /// Mr. Mushroom 7 (Spot)
    ///
    /// Splits when talking to Mister Mushroom in King's Pass
    MrMushroom7,
    // endregion: Mr Mushroom
    // region: Spell Levels
    /// Vengeful Spirit (Skill)
    ///
    /// Splits when obtaining Vengeful Spirit
    VengefulSpirit,
    /// Has Vengeful Spirit (Transition)
    ///
    /// Splits on transition after Vengeful Spirit acquired
    TransVS,
    /// Shade Soul (Skill)
    ///
    /// Splits when obtaining Shade Soul
    ShadeSoul,
    /// Has Shade Soul (Transition)
    ///
    /// Splits on transition after Shade Soul acquired
    TransShadeSoul,
    MenuShadeSoul,
    /// Desolate Dive (Skill)
    ///
    /// Splits when obtaining Desolate Dive
    DesolateDive,
    /// Descending Dark (Skill)
    ///
    /// Splits when obtaining Descending Dark
    DescendingDark,
    /// Has Descending Dark (Transition)
    ///
    /// Splits on transition after Descending Dark acquired
    TransDescendingDark,
    /// Howling Wraiths (Skill)
    ///
    /// Splits when obtaining Howling Wraiths
    HowlingWraiths,
    /// Abyss Shriek (Skill)
    ///
    /// Splits when obtaining Abyss Shriek
    AbyssShriek,
    // endregion: Spell Levels
    // region: Movement Abilities
    /// Mothwing Cloak (Skill)
    ///
    /// Splits when obtaining Mothwing Cloak
    MothwingCloak,
    /// Main Menu w/ Mothwing Cloak (Menu)
    ///
    /// Splits on transition to the main menu after Mothwing Cloak acquired
    MenuCloak,
    /// Shade Cloak (Skill)
    ///
    /// Splits when obtaining Shade Cloak
    ShadeCloak,
    /// Mantis Claw (Skill)
    ///
    /// Splits when obtaining Mantis Claw
    MantisClaw,
    /// Has Claw (Transition)
    ///
    /// Splits on transition after Mantis Claw acquired
    TransClaw,
    /// Main Menu w/ Claw (Menu)
    ///
    /// Splits on transition to the main menu after Mantis Claw acquired
    MenuClaw,
    /// Monarch Wings (Skill)
    ///
    /// Splits when obtaining Monarch Wings
    MonarchWings,
    MenuWings,
    /// Crystal Heart (Skill)
    ///
    /// Splits when obtaining Crystal Heart
    CrystalHeart,
    /// Isma's Tear (Skill)
    ///
    /// Splits when obtaining Isma's Tear
    IsmasTear,
    /// Has Isma's Tear (Transition)
    ///
    /// Splits on transition after Isma's Tear acquired
    TransTear,
    /// Isma's Tear with Grub (Transition)
    ///
    /// Splits on transition after collecting Isma's Tear and saving the grub in Isma's Grove
    TransTearWithGrub,
    /// Main Menu w/ Isma's Tear (Menu)
    ///
    /// Splits on transition to the main menu after Isma's Tear acquired
    MenuIsmasTear,
    // endregion: Movement Abilities
    // region: Nail Arts
    /// Cyclone Slash (Skill)
    ///
    /// Splits when obtaining Cyclone Slash
    CycloneSlash,
    /// Dash Slash (Skill)
    ///
    /// Splits when obtaining Dash Slash
    DashSlash,
    /// Great Slash (Skill)
    ///
    /// Splits when obtaining Great Slash
    GreatSlash,
    // endregion: Nail Arts
    // region: Dream Nail Levels
    /// Dream Nail (Skill)
    ///
    /// Splits when obtaining Dream Nail
    DreamNail,
    /// Main Menu w/ Dream Nail (Menu)
    ///
    /// Splits on transition to the main menu after Dream Nail acquired
    MenuDreamNail,
    /// Dream Gate (Skill)
    ///
    /// Splits when obtaining Dream Gate
    DreamGate,
    /// Main Menu w/ Dream Gate (Menu)
    ///
    /// Splits on transition to the main menu after Dream Gate acquired
    MenuDreamGate,
    /// Dream Nail - Awoken (Skill)
    ///
    /// Splits when Awkening the Dream Nail
    DreamNail2,
    // endregion: Dream Nail Levels
    // region: Keys
    /// City Crest (Item)
    ///
    /// Splits when obtaining the City Crest
    CityKey,
    /// Lumafly Lantern (Item)
    ///
    /// Splits when obtaining the Lumafly Lantern
    LumaflyLantern,
    /// Shop Lumafly Lantern (Transition)
    ///
    /// Splits on transition after Lantern has been acquired
    LumaflyLanternTransition,
    /// Simple Key - First (Item)
    ///
    /// Splits when obtaining the first Simple Key
    SimpleKey,
    /// Simple Key (Obtain)
    ///
    /// Splits when obtaining a Simple Key
    OnObtainSimpleKey,
    /// Use Simple Key (Obtain)
    ///
    /// Splits when using a Simple Key
    OnUseSimpleKey,
    /// Shopkeeper's Key (Item)
    ///
    /// Splits when obtaining the Shopkeeper's Key
    SlyKey,
    /// Elegant Key (Item)
    ///
    /// Splits when obtaining the Elegant Key
    ElegantKey,
    /// Love Key (Item)
    ///
    /// Splits when obtaining the Love Key
    LoveKey,
    /// Pale Lurker Key (Item)
    ///
    /// Splits when obtaining the Simple Key from the Pale Lurker
    PaleLurkerKey,
    /// Sly Simple Key (Item)
    ///
    /// Splits when buying the simple key from Sly
    SlySimpleKey,
    /// King's Brand (Item)
    ///
    /// Splits when obtaining the King's Brand
    KingsBrand,
    /// Tram Pass (Item)
    ///
    /// Splits when obtaining the Tram Pass
    TramPass,
    // endregion: Keys
    // region: Nail and Pale Ore
    /// Pale Ore (Obtain)
    ///
    /// Splits when obtaining a Pale Ore
    OnObtainPaleOre,
    /// Pale Ore 1 (Ore)
    ///
    /// Splits after obtaining the first pale ore.
    Ore1,
    /// Pale Ore 2 (Ore)
    ///
    /// Splits after obtaining the second pale ore.
    Ore2,
    /// Pale Ore 3 (Ore)
    ///
    /// Splits after obtaining the third pale ore.
    Ore3,
    /// Pale Ore 4 (Ore)
    ///
    /// Splits after obtaining the fourth pale ore.
    Ore4,
    /// Pale Ore 5 (Ore)
    ///
    /// Splits after obtaining the fifth pale ore.
    Ore5,
    /// Pale Ore 6 (Ore)
    ///
    /// Splits after obtaining the sixth pale ore.
    Ore6,
    /// Pale Ore - Any (Item)
    ///
    /// Splits if you've obtained any Pale Ore
    PaleOre,
    /// Nail 1 (Upgrade)
    ///
    /// Splits upon upgrading to the Sharpened Nail
    NailUpgrade1,
    /// Nail 2 (Upgrade)
    ///
    /// Splits upon upgrading to the Channeled Nail
    NailUpgrade2,
    /// Nail 3 (Upgrade)
    ///
    /// Splits upon upgrading to the Coiled Nail
    NailUpgrade3,
    /// Nail 4 (Upgrade)
    ///
    /// Splits upon upgrading to the Pure Nail
    NailUpgrade4,
    // endregion: Nail and Pale Ore
    // region: Masks and Mask Shards
    /// Mask Shard (Obtain)
    ///
    /// Splits when obtaining a Mask Shard or upgrade for complete Mask
    OnObtainMaskShard,
    /// Mask Shard 1 (Fragment)
    ///
    /// Splits when getting 1st Mask Shard
    MaskFragment1,
    /// Mask Shard 2 (Fragment)
    ///
    /// Splits when getting 2nd Mask Shard
    MaskFragment2,
    /// Mask Shard 3 (Fragment)
    ///
    /// Splits when getting 3rd Mask Shard
    MaskFragment3,
    /// Mask Upgrade 4 (Upgrade)
    ///
    /// Splits when getting 1 extra Mask (6 base HP)
    Mask1,
    /// Mask Shard 5 (Fragment)
    ///
    /// Splits when getting 5th Mask Shard
    MaskFragment5,
    /// Mask Shard 6 (Fragment)
    ///
    /// Splits when getting 6th Mask Shard
    MaskFragment6,
    /// Mask Shard 7 (Fragment)
    ///
    /// Splits when getting 7th Mask Shard
    MaskFragment7,
    /// Mask Upgrade 8 (Upgrade)
    ///
    /// Splits when getting 2 extra Masks (7 base HP)
    Mask2,
    /// Mask Shard 9 (Fragment)
    ///
    /// Splits when getting 9th Mask Shard
    MaskFragment9,
    /// Mask Shard 10 (Fragment)
    ///
    /// Splits when getting 10th Mask Shard
    MaskFragment10,
    /// Mask Shard 11 (Fragment)
    ///
    /// Splits when getting 11th Mask Shard
    MaskFragment11,
    /// Mask Upgrade 12 (Upgrade)
    ///
    /// Splits when getting 3 extra Masks (8 base HP)
    Mask3,
    /// Mask Shard 13 (Fragment)
    ///
    /// Splits when getting 13th Mask Shard
    MaskFragment13,
    /// Mask Shard 14 (Fragment)
    ///
    /// Splits when getting 14th Mask Shard
    MaskFragment14,
    /// Mask Shard 15 (Fragment)
    ///
    /// Splits when getting 15th Mask Shard
    MaskFragment15,
    /// Mask Upgrade 16 (Upgrade)
    ///
    /// Splits when getting 4 extra Masks (9 base HP)
    Mask4,
    /// Brooding Mawlek Mask Shard (Obtain)
    ///
    /// Splits when getting the Mask Shard from Brooding Mawlek
    MaskShardMawlek,
    /// Grub Reward Mask Shard (Obtain)
    ///
    /// Splits when getting the Mask Shard given by Grubfather
    MaskShardGrubfather,
    /// Goam Mask Shard (Obtain)
    ///
    /// Splits when getting the Goam Mask Shard in Forgotten Crossroads
    MaskShardGoam,
    /// Queen's Station Mask Shard (Obtain)
    ///
    /// Splits when getting the Mask Shard in Queen's Station
    MaskShardQueensStation,
    /// Bretta Mask Shard (Obtain)
    ///
    /// Splits when getting the Mask Shard in Bretta's hut in Dirtmouth
    MaskShardBretta,
    /// Stone Sanctuary Mask Shard (Obtain)
    ///
    /// Splits when getting the Mask Shard in Stone Sanctuary
    MaskShardStoneSanctuary,
    /// Waterways Mask Shard (Obtain)
    ///
    /// Splits when getting the Mask Shard in Royal Wayerways
    MaskShardWaterways,
    /// Fungal Core Mask Shard (Obtain)
    ///
    /// Splits when getting the Mask Shard below Fungal Core
    MaskShardFungalCore,
    /// Enraged Guardian Mask Shard (Obtain)
    ///
    /// Splits when getting the Mask Shard from Enraged Guardian
    MaskShardEnragedGuardian,
    /// Hive Mask Shard (Obtain)
    ///
    /// Splits when getting the Mask Shard in the Hive
    MaskShardHive,
    /// Seer Mask Shard (Obtain)
    ///
    /// Splits when getting the Mask Shard from Seer
    MaskShardSeer,
    /// Grey Mourner Mask Shard (Obtain)
    ///
    /// Splits when getting the Mask Shard from Grey Mourner
    MaskShardFlower,
    // endregion: Masks and Mask Shards
    // region: Vessels and Vessel Fragments
    /// Vessel Fragment (Obtain)
    ///
    /// Splits when obtaining a Vessel Fragment or on upgrade for full Soul Vessel
    OnObtainVesselFragment,
    /// Vessel Fragment 1 (Fragment)
    ///
    /// Splits when getting 1st Soul Vessel Fragment
    VesselFragment1,
    /// Vessel Fragment 2 (Fragment)
    ///
    /// Splits when getting 2nd Soul Vessel Fragment
    VesselFragment2,
    /// Soul Vessel 1 (Upgrade)
    ///
    /// Splits when upgrading to 1 Soul Vessel (3 Soul Vessel Fragments)
    Vessel1,
    /// Vessel Fragment 4 (Fragment)
    ///
    /// Splits when getting 4th Soul Vessel Fragment
    VesselFragment4,
    /// Vessel Fragment 5 (Fragment)
    ///
    /// Splits when getting 5th Soul Vessel Fragment
    VesselFragment5,
    /// Soul Vessel 2 (Upgrade)
    ///
    /// Splits when upgrading to 2 Soul Vessels (6 Soul Vessel Fragments)
    Vessel2,
    /// Vessel Fragment 7 (Fragment)
    ///
    /// Splits when getting 7th Soul Vessel Fragment
    VesselFragment7,
    /// Vessel Fragment 8 (Fragment)
    ///
    /// Splits when getting 8th Soul Vessel Fragment
    VesselFragment8,
    /// Soul Vessel 3 (Upgrade)
    ///
    /// Splits when upgrading to 3 Soul Vessels (9 Soul Vessel Fragments)
    Vessel3,
    /// Greenpath Vessel Fragment (Obtain)
    ///
    /// Splits when getting Vessel Fragment in Greenpath
    VesselFragGreenpath,
    /// Crossroads Vessel Fragment (Obtain)
    ///
    /// Splits when getting the Vessel Fragment in Forgotten Crossroads
    VesselFragCrossroadsLift,
    /// King's Station Vessel Fragment (Obtain)
    ///
    /// Splits when getting the Vessel Fragment after the arena above King's Station
    VesselFragKingsStation,
    /// Deepnest Vessel Fragment (Obtain)
    ///
    /// Splits when getting the Vessel Fragment in Deepnest
    VesselFragGarpedes,
    /// Stag Nest Vessel Fragment (Obtain)
    ///
    /// Splits when getting the Vessel Fragment in Stag Nest
    VesselFragStagNest,
    /// Seer Vessel Fragment (Obtain)
    ///
    /// Splits when getting the Vessel Fragment from Seer
    VesselFragSeer,
    /// Basin Fountain Vessel Fragment (Obtain)
    ///
    /// Splits when getting the Vessel Fragment from the fountain in Ancient Basin
    VesselFragFountain,
    // endregion: Vessels and Vessel Fragments
    // region: Charm Notches
    /// Shrumal Ogres (Charm Notch)
    ///
    /// Splits when obtaining the charm notch after defeating the Shrumal Ogres
    NotchShrumalOgres,
    /// Salubra 1 (Charm Notch)
    ///
    /// Splits when obtaining the first charm notch from Salubra
    NotchSalubra1,
    /// Salubra 2 (Charm Notch)
    ///
    /// Splits when obtaining the second charm notch from Salubra
    NotchSalubra2,
    /// Salubra 3 (Charm Notch)
    ///
    /// Splits when obtaining the third charm notch from Salubra
    NotchSalubra3,
    /// Salubra 4 (Charm Notch)
    ///
    /// Splits when obtaining the fourth charm notch from Salubra
    NotchSalubra4,
    /// Fog Canyon (Charm Notch)
    ///
    /// Splits when obtaining the charm notch in Fog Canyon
    NotchFogCanyon,
    /// Grimm (Charm Notch)
    ///
    /// Splits when obtaining the charm notch after Grimm
    NotchGrimm,
    /// Charm Notch (Obtain)
    ///
    /// Splits when obtaining a new Charm Slot
    OnObtainCharmNotch,
    // endregion: Charm Notches
    // region: Charms
    /// Gathering Swarm (Charm)
    ///
    /// Splits when obtaining the Gathering Swarm charm
    GatheringSwarm,
    /// Wayward Compass (Charm)
    ///
    /// Splits when obtaining Wayward Compass charm
    WaywardCompass,
    /// Grubsong (Charm)
    ///
    /// Splits when obtaining the Grubsong charm
    Grubsong,
    /// Stalwart Shell (Charm)
    ///
    /// Splits when obtaining Stalwart Shell charm
    StalwartShell,
    /// Baldur Shell (Charm)
    ///
    /// Splits when obtaining the Baldur Shell charm
    BaldurShell,
    /// Fury of the Fallen (Charm)
    ///
    /// Splits when obtaining the Fury of the Fallen charm
    FuryOfTheFallen,
    /// Quick Focus (Charm)
    ///
    /// Splits when obtaining the Quick Focus charm
    QuickFocus,
    /// Lifeblood Heart (Charm)
    ///
    /// Splits when obtaining the Lifeblood Heart charm
    LifebloodHeart,
    /// Lifeblood Core (Charm)
    ///
    /// Splits when obtaining the Lifeblood Core charm
    LifebloodCore,
    /// Defenders Crest (Charm)
    ///
    /// Splits when obtaining the Defenders Crest charm
    DefendersCrest,
    /// Flukenest (Charm)
    ///
    /// Splits when obtaining the Flukenest charm
    Flukenest,
    /// Thorns of Agony (Charm)
    ///
    /// Splits when obtaining Thorns of Agony charm
    ThornsOfAgony,
    /// Mark of Pride (Charm)
    ///
    /// Splits when obtaining the Mark of Pride charm
    MarkOfPride,
    /// Steady Body (Charm)
    ///
    /// Splits when obtaining the Steady Body charm
    SteadyBody,
    /// Heavy Blow (Charm)
    ///
    /// Splits when obtaining the Heavy Blow charm
    HeavyBlow,
    /// Sharp Shadow (Charm)
    ///
    /// Splits when obtaining Sharp Shadow charm
    SharpShadow,
    /// Spore Shroom (Charm)
    ///
    /// Splits when obtaining the Spore Shroom charm
    SporeShroom,
    /// Longnail (Charm)
    ///
    /// Splits when obtaining the Longnail charm
    Longnail,
    /// Shaman Stone (Charm)
    ///
    /// Splits when obtaining Shaman Stone charm
    ShamanStone,
    /// Soul Catcher (Charm)
    ///
    /// Splits when obtaining the Soul Catcher charm
    SoulCatcher,
    /// Soul Eater (Charm)
    ///
    /// Splits when obtaining the Soul Eater charm
    SoulEater,
    /// Glowing Womb (Charm)
    ///
    /// Splits when obtaining the Glowing Womb charm
    GlowingWomb,
    /// Nailmaster's Glory (Charm)
    ///
    /// Splits when obtaining the Nailmaster's Glory charm
    NailmastersGlory,
    /// Joni's Blessing (Charm)
    ///
    /// Splits when obtaining the Joni's Blessing charm
    JonisBlessing,
    /// Shape of Unn (Charm)
    ///
    /// Splits when obtaining Shape of Unn charm
    ShapeOfUnn,
    /// Hiveblood (Charm)
    ///
    /// Splits when obtaining the Hiveblood charm
    Hiveblood,
    /// Dream Wielder (Charm)
    ///
    /// Splits when obtaining the Dream Wielder charm
    DreamWielder,
    /// Dashmaster (Charm)
    ///
    /// Splits when obtaining the Dashmaster charm
    Dashmaster,
    /// Main Menu w/ Dashmaster (Menu)
    ///
    /// Splits on transition to the main menu after Dashmaster acquired
    MenuDashmaster,
    /// Quick Slash (Charm)
    ///
    /// Splits when obtaining the Quick Slash charm
    QuickSlash,
    /// Spell Twister (Charm)
    ///
    /// Splits when obtaining the Spell Twister charm
    SpellTwister,
    /// Deep Focus (Charm)
    ///
    /// Splits when obtaining the Deep Focus charm
    DeepFocus,
    /// Grubberfly's Elegy (Charm)
    ///
    /// Splits when obtaining the Grubberfly's Elegy charm
    GrubberflysElegy,
    /// Sprintmaster (Charm)
    ///
    /// Splits when obtaining the Sprintmaster charm
    Sprintmaster,
    /// Dreamshield (Charm)
    ///
    /// Splits when obtaining the Dreamshield charm
    Dreamshield,
    /// Weaversong (Charm)
    ///
    /// Splits when obtaining the Weaversong charm
    Weaversong,
    // Fragile / Unbreakable Charms
    /// Fragile Heart (Charm)
    ///
    /// Splits when obtaining the Fragile Heart charm
    FragileHeart,
    /// Unbreakable Heart (Charm)
    ///
    /// Splits when obtaining the Unbreakable Heart charm
    UnbreakableHeart,
    /// Fragile Greed (Charm)
    ///
    /// Splits when obtaining the Fragile Greed charm
    FragileGreed,
    /// Unbreakable Greed (Charm)
    ///
    /// Splits when obtaining the Unbreakable Greed charm
    UnbreakableGreed,
    /// Fragile Strength (Charm)
    ///
    /// Splits when obtaining the Fragile Strength charm
    FragileStrength,
    /// Unbreakable Strength (Charm)
    ///
    /// Splits when obtaining the Unbreakable Strength charm
    UnbreakableStrength,
    /// All Breakables (Event)
    ///
    /// Splits when all 3 fragile charms are broken
    AllBreakables,
    /// All Unbreakables (Charm)
    ///
    /// Splits when all 3 unbreakable charms are obtained
    AllUnbreakables,
    // Grimmchild / Carefree Melody
    /// Grimmchild (Charm)
    ///
    /// Splits when obtaining the Grimmchild charm
    Grimmchild,
    /// Grimmchild Lvl 2 (Charm)
    ///
    /// Splits when upgrading Grimmchild to level 2
    Grimmchild2,
    /// Grimmchild Lvl 3 (Charm)
    ///
    /// Splits when upgrading Grimmchild to level 3
    Grimmchild3,
    /// Grimmchild Lvl 4 (Charm)
    ///
    /// Splits when upgrading Grimmchild to level 4
    Grimmchild4,
    /// Carefree Melody (Charm)
    ///
    /// Splits when obtaining the Carefree Melody charm
    CarefreeMelody,
    /// Grimm Flame 1 (Flame)
    ///
    /// Splits after obtaining the first flame.
    Flame1,
    /// Grimm Flame 2 (Flame)
    ///
    /// Splits after obtaining the second flame.
    Flame2,
    /// Grimm Flame 3 (Flame)
    ///
    /// Splits after obtaining the third flame.
    Flame3,
    /// Brumm Flame (NPC)
    ///
    /// Splits when collecting Brumm's flame in Deepnest
    BrummFlame,
    // Kingsoul / VoidHeart
    /// White Fragment - Queen's (Charm)
    ///
    /// Splits on picking up the left White Fragment from the White Lady
    WhiteFragmentLeft,
    /// White Fragment - King's (Charm)
    ///
    /// Splits on picking up the right White Fragment from the Pale King
    WhiteFragmentRight,
    /// White Fragment (Obtain)
    ///
    /// Splits when obtaining any White Fragment, or Void Heart
    OnObtainWhiteFragment,
    /// Kingsoul (Charm)
    ///
    /// Splits when obtaining the completed Kingsoul charm
    Kingsoul,
    /// Void Heart (Charm)
    ///
    /// Splits when changing the Kingsoul to the Void Heart charm
    VoidHeart,
    /// Main Menu w/ Void Heart (Menu)
    ///
    /// Splits on transition to the main menu after Void Heart acquired
    MenuVoidHeart,
    // endregion: Charms
    // region: Stags
    /// Riding Stag (Event)
    ///
    /// Splits while riding the stag
    RidingStag,
    /// Stag Position Updated (Event)
    ///
    /// Splits when the stag is called
    StagMoved,
    /// Forgotten Crossroads (Stag Station)
    ///
    /// Splits when opening the Forgotten Crossroads Stag Station
    CrossroadsStation,
    /// Greenpath (Stag Station)
    ///
    /// Splits when obtaining Greenpath Stag Station
    GreenpathStation,
    /// Queen's Station (Stag Station)
    ///
    /// Splits when obtaining Queen's Station Stag Station
    QueensStationStation,
    /// City Storerooms (Stag Station)
    ///
    /// Splits when obtaining City Storerooms Stag Station
    StoreroomsStation,
    /// King's Station (Stag Station)
    ///
    /// Splits when obtaining King's Station Stag Station
    KingsStationStation,
    /// Resting Grounds (Stag Station)
    ///
    /// Splits when obtaining Resting Grounds Stag Station
    RestingGroundsStation,
    /// Hidden Station (Stag Station)
    ///
    /// Splits when obtaining to Hidden Station Stag Station
    HiddenStationStation,
    /// Distant Village (Stag Station)
    ///
    /// Splits when obtaining Distant Village Stag Station
    DeepnestStation,
    /// Queen's Gardens (Stag Station)
    ///
    /// Splits when obtaining Queen's Gardens Stag Station
    QueensGardensStation,
    /// Stagnest (Stag Station)
    ///
    /// Splits when traveling to Stagnest (Requires Ordered Splits)
    StagnestStation,
    // endregion: Stags
    // region: Relics
    /// Wanderer's Journal (Obtain)
    ///
    /// Splits when obtaining a Wanderer's Journal
    OnObtainWanderersJournal,
    /// All Seals (Item)
    ///
    /// Splits when 17 Hallownest Seals have been collected
    AllSeals,
    /// Hallownest Seal (Obtain)
    ///
    /// Splits when obtaining a Hallownest Seal
    OnObtainHallownestSeal,
    /// Soul Sanctum Hallownest Seal (Relic)
    ///
    /// Splits when the Hallownest Seal in Soul Sanctum is collected
    SoulSanctumSeal,
    /// King's Idol (Obtain)
    ///
    /// Splits when obtaining a King's Idol
    OnObtainKingsIdol,
    /// Glade Idol (Item)
    ///
    /// Splits when picking up the King's Idol in the Spirits' Glade
    GladeIdol,
    /// Dung Defender Idol (Item)
    ///
    /// Splits when picking up Dung Defender idol as the first idol
    DungDefenderIdol,
    /// Arcane Egg 8 (Obtain)
    ///
    /// Splits when obtaining 8 Arcane Eggs
    ArcaneEgg8,
    /// Arcane Egg (Obtain)
    ///
    /// Splits when obtaining an Arcane Egg
    OnObtainArcaneEgg,
    /// Rancid Egg (Obtain)
    ///
    /// Splits when obtaining a Rancid Egg
    OnObtainRancidEgg,
    // endregion: Relics
    // region: Grubs and Mimics
    /// Rescued Grub 1 (Grub)
    ///
    /// Splits when rescuing grub #1
    Grub1,
    /// Rescued Grub 2 (Grub)
    ///
    /// Splits when rescuing grub #2
    Grub2,
    /// Rescued Grub 3 (Grub)
    ///
    /// Splits when rescuing grub #3
    Grub3,
    /// Rescued Grub 4 (Grub)
    ///
    /// Splits when rescuing grub #4
    Grub4,
    /// Rescued Grub 5 (Grub)
    ///
    /// Splits when rescuing grub #5
    Grub5,
    /// Rescued Grub 6 (Grub)
    ///
    /// Splits when rescuing grub #6
    Grub6,
    /// Rescued Grub 7 (Grub)
    ///
    /// Splits when rescuing grub #7
    Grub7,
    /// Rescued Grub 8 (Grub)
    ///
    /// Splits when rescuing grub #8
    Grub8,
    /// Rescued Grub 9 (Grub)
    ///
    /// Splits when rescuing grub #9
    Grub9,
    /// Rescued Grub 10 (Grub)
    ///
    /// Splits when rescuing grub #10
    Grub10,
    /// Rescued Grub 11 (Grub)
    ///
    /// Splits when rescuing grub #11
    Grub11,
    /// Rescued Grub 12 (Grub)
    ///
    /// Splits when rescuing grub #12
    Grub12,
    /// Rescued Grub 13 (Grub)
    ///
    /// Splits when rescuing grub #13
    Grub13,
    /// Rescued Grub 14 (Grub)
    ///
    /// Splits when rescuing grub #14
    Grub14,
    /// Rescued Grub 15 (Grub)
    ///
    /// Splits when rescuing grub #15
    Grub15,
    /// Rescued Grub 16 (Grub)
    ///
    /// Splits when rescuing grub #16
    Grub16,
    /// Rescued Grub 17 (Grub)
    ///
    /// Splits when rescuing grub #17
    Grub17,
    /// Rescued Grub 18 (Grub)
    ///
    /// Splits when rescuing grub #18
    Grub18,
    /// Rescued Grub 19 (Grub)
    ///
    /// Splits when rescuing grub #19
    Grub19,
    /// Rescued Grub 20 (Grub)
    ///
    /// Splits when rescuing grub #20
    Grub20,
    /// Rescued Grub 21 (Grub)
    ///
    /// Splits when rescuing grub #21
    Grub21,
    /// Rescued Grub 22 (Grub)
    ///
    /// Splits when rescuing grub #22
    Grub22,
    /// Rescued Grub 23 (Grub)
    ///
    /// Splits when rescuing grub #23
    Grub23,
    /// Rescued Grub 24 (Grub)
    ///
    /// Splits when rescuing grub #24
    Grub24,
    /// Rescued Grub 25 (Grub)
    ///
    /// Splits when rescuing grub #25
    Grub25,
    /// Rescued Grub 26 (Grub)
    ///
    /// Splits when rescuing grub #26
    Grub26,
    /// Rescued Grub 27 (Grub)
    ///
    /// Splits when rescuing grub #27
    Grub27,
    /// Rescued Grub 28 (Grub)
    ///
    /// Splits when rescuing grub #28
    Grub28,
    /// Rescued Grub 29 (Grub)
    ///
    /// Splits when rescuing grub #29
    Grub29,
    /// Rescued Grub 30 (Grub)
    ///
    /// Splits when rescuing grub #30
    Grub30,
    /// Rescued Grub 31 (Grub)
    ///
    /// Splits when rescuing grub #31
    Grub31,
    /// Rescued Grub 32 (Grub)
    ///
    /// Splits when rescuing grub #32
    Grub32,
    /// Rescued Grub 33 (Grub)
    ///
    /// Splits when rescuing grub #33
    Grub33,
    /// Rescued Grub 34 (Grub)
    ///
    /// Splits when rescuing grub #34
    Grub34,
    /// Rescued Grub 35 (Grub)
    ///
    /// Splits when rescuing grub #35
    Grub35,
    /// Rescued Grub 36 (Grub)
    ///
    /// Splits when rescuing grub #36
    Grub36,
    /// Rescued Grub 37 (Grub)
    ///
    /// Splits when rescuing grub #37
    Grub37,
    /// Rescued Grub 38 (Grub)
    ///
    /// Splits when rescuing grub #38
    Grub38,
    /// Rescued Grub 39 (Grub)
    ///
    /// Splits when rescuing grub #39
    Grub39,
    /// Rescued Grub 40 (Grub)
    ///
    /// Splits when rescuing grub #40
    Grub40,
    /// Rescued Grub 41 (Grub)
    ///
    /// Splits when rescuing grub #41
    Grub41,
    /// Rescued Grub 42 (Grub)
    ///
    /// Splits when rescuing grub #42
    Grub42,
    /// Rescued Grub 43 (Grub)
    ///
    /// Splits when rescuing grub #43
    Grub43,
    /// Rescued Grub 44 (Grub)
    ///
    /// Splits when rescuing grub #44
    Grub44,
    /// Rescued Grub 45 (Grub)
    ///
    /// Splits when rescuing grub #45
    Grub45,
    /// Rescued Grub 46 (Grub)
    ///
    /// Splits when rescuing grub #46
    Grub46,
    /// Rescued Any Grub (Grub)
    ///
    /// Splits when rescuing any grub
    OnObtainGrub,
    /// Rescued Grub Basin Dive (Grub)
    ///
    /// Splits when rescuing the grub in Abyss_17
    GrubBasinDive,
    /// Rescued Grub Basin Wings (Grub)
    ///
    /// Splits when rescuing the grub in Abyss_19
    GrubBasinWings,
    /// Rescued Grub City Below Love Tower (Grub)
    ///
    /// Splits when rescuing the grub in Ruins2_07
    GrubCityBelowLoveTower,
    /// Rescued Grub City Below Sanctum (Grub)
    ///
    /// Splits when rescuing the grub in Ruins1_05
    GrubCityBelowSanctum,
    /// Rescued Grub City Collector All (Grub)
    ///
    /// Splits when rescuing all three grubs in Ruins2_11. (On 1221, splits for right grub)
    GrubCityCollectorAll,
    /// Rescued Grub City Collector (Grub)
    ///
    /// Splits when rescuing any grub in Ruins2_11
    GrubCityCollector,
    /// Rescued Grub City Guard House (Grub)
    ///
    /// Splits when rescuing the grub in Ruins_House_01
    GrubCityGuardHouse,
    /// Rescued Grub City Sanctum (Grub)
    ///
    /// Splits when rescuing the grub in Ruins1_32
    GrubCitySanctum,
    /// Rescued Grub City Spire (Grub)
    ///
    /// Splits when rescuing the grub in Ruins2_03
    GrubCitySpire,
    /// Rescued Grub Cliffs Baldur Shell (Grub)
    ///
    /// Splits when rescuing the grub in Fungus1_28
    GrubCliffsBaldurShell,
    /// Rescued Grub Crossroads Acid (Grub)
    ///
    /// Splits when rescuing the grub in Crossroads_35
    GrubCrossroadsAcid,
    /// Rescued Grub Crossroads Guarded (Grub)
    ///
    /// Splits when rescuing the grub in Crossroads_48
    GrubCrossroadsGuarded,
    /// Rescued Grub Crossroads Spikes (Grub)
    ///
    /// Splits when rescuing the grub in Crossroads_31
    GrubCrossroadsSpikes,
    /// Rescued Grub Crossroads Vengefly (Grub)
    ///
    /// Splits when rescuing the grub in Crossroads_05
    GrubCrossroadsVengefly,
    /// Rescued Grub Crossroads Wall (Grub)
    ///
    /// Splits when rescuing the grub in Crossroads_03
    GrubCrossroadsWall,
    /// Rescued Grub Crystal Peak Bottom Lever (Grub)
    ///
    /// Splits when rescuing the grub in Mines_04
    GrubCrystalPeaksBottomLever,
    /// Rescued Grub Crystal Peak Crown (Grub)
    ///
    /// Splits when rescuing the grub in Mines_24
    GrubCrystalPeaksCrown,
    /// Rescued Grub Crystal Peak Crushers (Grub)
    ///
    /// Splits when rescuing the grub in Mines_19
    GrubCrystalPeaksCrushers,
    /// Rescued Grub Crystal Peak Crystal Heart (Grub)
    ///
    /// Splits when rescuing the grub in Mines_31
    GrubCrystalPeaksCrystalHeart,
    /// Rescued Grub Crystal Peak Mimic (Grub)
    ///
    /// Splits when rescuing the grub in Mines_16
    GrubCrystalPeaksMimics,
    /// Rescued Grub Crystal Peak Mound (Grub)
    ///
    /// Splits when rescuing the grub in Mines_35
    GrubCrystalPeaksMound,
    /// Rescued Grub Crystal Peak Spikes (Grub)
    ///
    /// Splits when rescuing the grub in Mines_03
    GrubCrystalPeaksSpikes,
    /// Rescued Grub Deepnest Beast's Den (Grub)
    ///
    /// Splits when rescuing the grub in Deepnest_Spider_Town
    GrubDeepnestBeastsDen,
    /// Rescued Grub Deepnest Dark (Grub)
    ///
    /// Splits when rescuing the grub in Deepnest_39
    GrubDeepnestDark,
    /// Rescued Grub Deepnest Mimics (Grub)
    ///
    /// Splits when rescuing the grub in Deepnest_36
    GrubDeepnestMimics,
    /// Rescued Grub Deepnest Nosk (Grub)
    ///
    /// Splits when rescuing the grub in Deepnest_31
    GrubDeepnestNosk,
    /// Rescued Grub Deepnest Spikes (Grub)
    ///
    /// Splits when rescuing the grub in Deepnest_03
    GrubDeepnestSpikes,
    /// Rescued Grub Fog Canyon Archives (Grub)
    ///
    /// Splits when rescuing the grub in Fungus3_47
    GrubFogCanyonArchives,
    /// Rescued Grub Fungal Bouncy (Grub)
    ///
    /// Splits when rescuing the grub in Fungus2_18
    GrubFungalBouncy,
    /// Rescued Grub Fungal Spore Shroom (Grub)
    ///
    /// Splits when rescuing the grub in Fungus2_20
    GrubFungalSporeShroom,
    /// Rescued Grub Greenpath Cornifer (Grub)
    ///
    /// Splits when rescuing the grub in Fungus1_06
    GrubGreenpathCornifer,
    /// Rescued Grub Greenpath Hunter (Grub)
    ///
    /// Splits when rescuing the grub in Fungus1_07
    GrubGreenpathHunter,
    /// Rescued Grub Greenpath Moss Knight (Grub)
    ///
    /// Splits when rescuing the grub in Fungus1_21
    GrubGreenpathMossKnight,
    /// Rescued Grub Greenpath Vessel Fragment (Grub)
    ///
    /// Splits when rescuing the grub in Fungus1_13
    GrubGreenpathVesselFragment,
    /// Rescued Grub Hive External (Grub)
    ///
    /// Splits when rescuing the grub in Hive_03
    GrubHiveExternal,
    /// Rescued Grub Hive Internal (Grub)
    ///
    /// Splits when rescuing the grub in Hive_04
    GrubHiveInternal,
    /// Rescued Grub Kingdom's Edge Center (Grub)
    ///
    /// Splits when rescuing the grub in Deepnest_East_11
    GrubKingdomsEdgeCenter,
    /// Rescued Grub Kingdom's Edge Oro (Grub)
    ///
    /// Splits when rescuing the grub in Deepnest_East_14
    GrubKingdomsEdgeOro,
    /// Rescued Grub Queen's Gardens Below Stag (Grub)
    ///
    /// Splits when rescuing the grub in Fungus3_10
    GrubQueensGardensBelowStag,
    /// Rescued Grub Queen's Gardens Upper (Grub)
    ///
    /// Splits when rescuing the grub in Fungus3_22
    GrubQueensGardensUpper,
    /// Rescued Grub Queen's Gardens White Lady (Grub)
    ///
    /// Splits when rescuing the grub in Fungus3_48
    GrubQueensGardensWhiteLady,
    /// Rescued Grub Resting Grounds Crypts (Grub)
    ///
    /// Splits when rescuing the grub in RestingGrounds_10
    GrubRestingGroundsCrypts,
    /// Rescued Grub Waterways Center (Grub)
    ///
    /// Splits when rescuing the grub in Waterways_04
    GrubWaterwaysCenter,
    /// Rescued Grub Waterways Hwurmps (Grub)
    ///
    /// Splits when rescuing the grub in Waterways_14
    GrubWaterwaysHwurmps,
    /// Rescued Grub Waterways Isma (Grub)
    ///
    /// Splits when rescuing the grub in Waterways_13
    GrubWaterwaysIsma,
    /// Mimic 1 (Killed)
    ///
    /// Splits when rescuing mimic #1
    Mimic1,
    /// Mimic 2 (Killed)
    ///
    /// Splits when rescuing mimic #2
    Mimic2,
    /// Mimic 3 (Killed)
    ///
    /// Splits when rescuing mimic #3
    Mimic3,
    /// Mimic 4 (Killed)
    ///
    /// Splits when rescuing mimic #4
    Mimic4,
    /// Mimic 5 (Killed)
    ///
    /// Splits when rescuing mimic #5
    Mimic5,
    // endregion: Grubs and Mimics
    // region: Essence, Trees, and Ghosts
    /// 100 Essence (Essence)
    ///
    /// Splits upon obtaining 100 Essence
    Essence100,
    /// 200 Essence (Essence)
    ///
    /// Splits upon obtaining 200 Essence
    Essence200,
    /// 300 Essence (Essence)
    ///
    /// Splits upon obtaining 300 Essence
    Essence300,
    /// 400 Essence (Essence)
    ///
    /// Splits upon obtaining 400 Essence
    Essence400,
    /// 500 Essence (Essence)
    ///
    /// Splits upon obtaining 500 Essence
    Essence500,
    /// 600 Essence (Essence)
    ///
    /// Splits upon obtaining 600 Essence
    Essence600,
    /// 700 Essence (Essence)
    ///
    /// Splits upon obtaining 700 Essence
    Essence700,
    /// 800 Essence (Essence)
    ///
    /// Splits upon obtaining 800 Essence
    Essence800,
    /// 900 Essence (Essence)
    ///
    /// Splits upon obtaining 900 Essence
    Essence900,
    /// 1000 Essence (Essence)
    ///
    /// Splits upon obtaining 1000 Essence
    Essence1000,
    /// 1100 Essence (Essence)
    ///
    /// Splits upon obtaining 1100 Essence
    Essence1100,
    /// 1200 Essence (Essence)
    ///
    /// Splits upon obtaining 1200 Essence
    Essence1200,
    /// 1300 Essence (Essence)
    ///
    /// Splits upon obtaining 1300 Essence
    Essence1300,
    /// 1400 Essence (Essence)
    ///
    /// Splits upon obtaining 1400 Essence
    Essence1400,
    /// 1500 Essence (Essence)
    ///
    /// Splits upon obtaining 1500 Essence
    Essence1500,
    /// 1600 Essence (Essence)
    ///
    /// Splits upon obtaining 1600 Essence
    Essence1600,
    /// 1700 Essence (Essence)
    ///
    /// Splits upon obtaining 1700 Essence
    Essence1700,
    /// 1800 Essence (Essence)
    ///
    /// Splits upon obtaining 1800 Essence
    Essence1800,
    /// 1900 Essence (Essence)
    ///
    /// Splits upon obtaining 1900 Essence
    Essence1900,
    /// 2000 Essence (Essence)
    ///
    /// Splits upon obtaining 2000 Essence
    Essence2000,
    /// 2100 Essence (Essence)
    ///
    /// Splits upon obtaining 2100 Essence
    Essence2100,
    /// 2200 Essence (Essence)
    ///
    /// Splits upon obtaining 2200 Essence
    Essence2200,
    /// 2300 Essence (Essence)
    ///
    /// Splits upon obtaining 2300 Essence
    Essence2300,
    /// 2400 Essence (Essence)
    ///
    /// Splits upon obtaining 2400 Essence
    Essence2400,
    /// Whispering Root (Ancestral Mound)
    ///
    /// Splits upon completing the whispering root in the Ancestral Mound
    TreeMound,
    /// Whispering Root (City of Tears)
    ///
    /// Splits upon completing the whispering root in the City of Tears
    TreeCity,
    /// Whispering Root (Crystal Peak)
    ///
    /// Splits upon completing the whispering root in Crystal Peak
    TreePeak,
    /// Whispering Root (Deepnest)
    ///
    /// Splits upon completing the whispering root in Deepnest
    TreeDeepnest,
    /// Whispering Root (Forgotten Crossroads)
    ///
    /// Splits upon completing the whispering root in the Forgotten Crossroads
    TreeCrossroads,
    /// Whispering Root (Leg Eater)
    ///
    /// Splits upon completing the whispering root left from Leg Eater
    TreeLegEater,
    /// Whispering Root (Mantis Village)
    ///
    /// Splits upon completing the whispering root above the Mantis Village
    TreeMantisVillage,
    /// Whispering Root (Greenpath)
    ///
    /// Splits upon completing the whispering root in Greenpath
    TreeGreenpath,
    /// Whispering Root (Hive)
    ///
    /// Splits upon completing the whispering root in the Hive
    TreeHive,
    /// Whispering Root (Howling Cliffs)
    ///
    /// Splits upon completing the whispering root in the Howling Cliifs
    TreeCliffs,
    /// Whispering Root (Kingdom's Edge)
    ///
    /// Splits upon completing the whispering root in the Kingdom's Edge
    TreeKingdomsEdge,
    /// Whispering Root (Queen's Gardens)
    ///
    /// Splits upon completing the whispering root in the Queen's Gardens
    TreeQueensGardens,
    /// Whispering Root (Resting Grounds)
    ///
    /// Splits upon completing the whispering root in the Resting Grounds
    TreeRestingGrounds,
    /// Whispering Root (Royal Waterways)
    ///
    /// Splits upon completing the whispering root in the Royal Waterways
    TreeWaterways,
    /// Whispering Root (Spirits' Glade)
    ///
    /// Splits upon completing the whispering root in the Spirits' Glade
    TreeGlade,
    /// Dream Nail Marissa (Obtain)
    ///
    /// Splits when obtaining the essence from Marissa
    OnObtainGhostMarissa,
    /// Dream Nail Caelif and Fera (Obtain)
    ///
    /// Splits when obtaining the essence from Caelif and Fera Orthop
    OnObtainGhostCaelifFera,
    /// Dream Nail Poggy (Obtain)
    ///
    /// Splits when obtaining the essence from Poggy Thorax
    OnObtainGhostPoggy,
    /// Dream Nail Gravedigger (Obtain)
    ///
    /// Splits when obtaining the essence from Gravedigger
    OnObtainGhostGravedigger,
    /// Dream Nail Joni (Obtain)
    ///
    /// Splits when obtaining the essence from Blue Child Joni
    OnObtainGhostJoni,
    // TODO: resolve possible confounding essence sources for Cloth, Vespa, and Revek
    // endregion: Essence, Trees, and Ghosts
    // region: Maps and Cornifer
    /// Map Dirtmouth (Item)
    ///
    /// Splits when acquiring the Dirtmouth map
    MapDirtmouth,
    /// Map Crossroads (Item)
    ///
    /// Splits when acquiring the Crossroads map
    MapCrossroads,
    /// Map Greenpath (Item)
    ///
    /// Splits when acquiring the Greenpath map
    MapGreenpath,
    /// Map Fog Canyon (Item)
    ///
    /// Splits when acquiring the Fog Canyon map
    MapFogCanyon,
    /// Map Queen's Gardens (Item)
    ///
    /// Splits when acquiring the QG map
    MapRoyalGardens,
    /// Map Fungal Wastes (Item)
    ///
    /// Splits when acquiring the Fungal Wastes map
    MapFungalWastes,
    /// Map City of Tears (Item)
    ///
    /// Splits when acquiring the City map
    MapCity,
    /// Map Waterways (Item)
    ///
    /// Splits when acquiring the Waterways map
    MapWaterways,
    /// Map Crystal Peak (Item)
    ///
    /// Splits when acquiring the Crystal Peak map
    MapMines,
    /// Map Deepnest (Item)
    ///
    /// Splits when acquiring the Deepnest map
    MapDeepnest,
    /// Map Howling Cliffs (Item)
    ///
    /// Splits when acquiring the Howling Cliffs map
    MapCliffs,
    /// Map Kingdom's Edge (Item)
    ///
    /// Splits when acquiring the KE map
    MapOutskirts,
    /// Map Resting Grounds (Item)
    ///
    /// Splits when acquiring the Resting Grounds map
    MapRestingGrounds,
    /// Map Ancient Basin (Item)
    ///
    /// Splits when acquiring the Abyss map
    MapAbyss,
    /// Cornifer at Home (Transition)
    ///
    /// Splits when entering Iselda's hut while Cornifer is sleeping
    CorniferAtHome,
    // region: Maps and Cornifer
    // region: Dirtmouth
    /// King's Pass (Transition)
    ///
    /// Splits when entering Dirtmouth from King's Pass
    KingsPass,
    /// Dirtmouth (Transition)
    ///
    /// Splits on any transition into Dirtmouth Town
    EnterDirtmouth,
    /// King's Pass from Town (Transition)
    ///
    /// Splits when entering King's Pass from Dirtmouth
    KingsPassEnterFromTown,
    /// Dirtmouth (Area)
    ///
    /// Splits when entering Dirtmouth text first appears
    Dirtmouth,
    SlyShopExit,
    /// 1xx% Sly Final Shop (Transition)
    ///
    /// Splits on leaving Sly's shop with all Sly shop charms, shards, fragments, and Lantern
    SlyShopFinished,
    /// Elderbug Flower Quest (NPC)
    ///
    /// Splits when giving the flower to the Elderbug
    ElderbugFlower,
    /// Enter Troupe Master Grimm (Transition)
    ///
    /// Splits when entering Grimm tent with requirements to trigger Troupe Master Grimm boss
    EnterTMG,
    /// Troupe Master Grimm (Boss)
    ///
    /// Splits when killing Troupe Master Grimm
    TroupeMasterGrimm,
    /// NKG Dream (Transition)
    ///
    /// Splits on transition into Nightmare King Grimm dream
    EnterNKG,
    /// Nightmare King Grimm (Boss)
    ///
    /// Splits when killing Nightmare King Grimm
    NightmareKingGrimm,
    /// Grey Prince Zote (Boss)
    ///
    /// Splits when killing Grey Prince
    GreyPrince,
    /// Grey Prince Zote (Essence)
    ///
    /// Splits when getting Grey Prince Zote essence
    GreyPrinceEssence,
    // endregion: Dirtmouth
    // region: Crossroads
    /// Forgotten Crossroads (Area)
    ///
    /// Splits when entering Forgotten Crossroads text first appears
    ForgottenCrossroads,
    /// Infected Crossroads (Area)
    ///
    /// Splits when entering Infected Crossroads text first appears
    InfectedCrossroads,
    /// Menderbug (Killed)
    ///
    /// Splits when killing Menderbug
    MenderBug,
    /// Enter Brooding Mawlek (Transition)
    ///
    /// Splits when entering the Brooding Mawlek arena transition in Forgotten Crossroads
    EnterBroodingMawlek,
    /// Brooding Mawlek (Boss)
    ///
    /// Splits when killing Brooding Mawlek
    BroodingMawlek,
    /// Aspid Hunter (Mini Boss)
    ///
    /// Splits when killing 3 Aspid Hunters in a row (ideally Aspid Arena)
    AspidHunter,
    /// Crossroads Stag (Bench)
    ///
    /// Splits when sitting on the bench at Crossroads Stag
    BenchCrossroadsStag,
    /// Gruz Mother (Boss)
    ///
    /// Splits when killing Gruz Mother
    GruzMother,
    /// Sly Rescued (NPC)
    ///
    /// Splits when saving Sly
    SlyRescued,
    /// False Knight (Boss)
    ///
    /// Splits when killing False Knight
    FalseKnight,
    /// Failed Champion (Boss)
    ///
    /// Splits when killing Failed Champion
    FailedKnight,
    /// Failed Champion (Essence)
    ///
    /// Splits when getting Failed Champion essence
    FailedChampionEssence,
    /// Ancestral Mound (Transition)
    ///
    /// Splits on transition into Ancestral Mound
    AncestralMound,
    /// Salubra's Blessing (Item)
    ///
    /// Splits when obtaining Salubra's Blessing
    SalubrasBlessing,
    /// Salubra Exit (Transition)
    ///
    /// Splits on the transition out of Salubra's Hut
    SalubraExit,
    /// Shape of Unn Synergies / Pure Snail (Event)
    ///
    /// Splits when focusing with Spore Shroom, Quick Focus, Baldur Shell, and Shape of Unn equipped
    PureSnail,
    EnterHollowKnight,
    /// Chains Broken - Hollow Knight (Event)
    ///
    /// Splits at the end of the first Hollow Knight scream after the chains are broken
    UnchainedHollowKnight,
    /// Segment Practice - THK (Boss)
    ///
    /// Splits when killing The Hollow Knight
    HollowKnightBoss,
    /// Radiance Dream Entry (Event)
    ///
    /// Splits upon entering the Radiance dream
    ///
    /// Skips upon killing the Hollow Knight
    HollowKnightDreamnail,
    /// Segment Practice - Radiance (Boss)
    ///
    /// Splits when killing The Radiance
    RadianceBoss,
    // endregion: Crossroads
    // region: Greenpath
    /// Greenpath (Transition)
    ///
    /// Splits when entering Greenpath
    EnterGreenpath,
    /// Greenpath (Area)
    ///
    /// Splits when entering Greenpath text first appears
    Greenpath,
    /// Moss Knight (Mini Boss)
    ///
    /// Splits when killing Moss Knight
    MossKnight,
    /// Zote Rescued - Vengefly King (Mini Boss)
    ///
    /// Splits when rescuing Zote from the Vengefly King
    Zote1,
    /// Vengefly King Killed (Transition)
    ///
    /// Splits on transition after Vengefly King in Greenpath killed
    VengeflyKingTrans,
    /// Greenpath Stag (Bench)
    ///
    /// Splits when sitting on the bench at Greenpath Stag
    BenchGreenpathStag,
    /// Enter Hornet 1 (Transition)
    ///
    /// Splits when entering Hornet boss arena transition in Greenpath
    EnterHornet1,
    /// Hornet 1 (Boss)
    ///
    /// Splits when killing Hornet Protector in Greenpath
    Hornet1,
    /// Aluba (Killed)
    ///
    /// Splits when killing an Aluba
    Aluba,
    /// Hunter's Mark (Item)
    ///
    /// Splits when obtaining the Hunter's Mark
    HuntersMark,
    /// No Eyes (Boss)
    ///
    /// Splits when killing No Eyes
    NoEyes,
    /// No Eyes (Essence)
    ///
    /// Splits when absorbing essence from No Eyes
    NoEyesEssence,
    /// Massive Moss Charger (Boss)
    ///
    /// Splits when killing Massive Moss Charger
    MegaMossCharger,
    /// Massive Moss Charger Killed (Transition)
    ///
    /// Splits on transition after Massive Moss Charger is killed
    MegaMossChargerTrans,
    /// Happy Couple (Event)
    ///
    /// Splits when talking to Nailsmith in Sheo's hut for the first time
    HappyCouplePlayerDataEvent,
    // endregion: Greenpath
    // region: Fungal
    /// Fungal Wastes Entry (Transition)
    ///
    /// Splits on transition to Fungal Wastes
    ///
    /// (Room below Crossroads, right of Queen's Station, left of Waterways or Spore Shroom room)
    FungalWastesEntry,
    /// Fungal Wastes (Area)
    ///
    /// Splits when entering Fungal Wastes text first appears
    FungalWastes,
    /// Queen's Station (Bench)
    ///
    /// Splits when sitting on the bench in Queen's Station
    BenchQueensStation,
    /// Elder Hu (Boss)
    ///
    /// Splits when killing Elder Hu
    ElderHu,
    /// Elder Hu (Essence)
    ///
    /// Splits when absorbing essence from Elder Hu
    ElderHuEssence,
    /// Elder Hu Killed (Transition)
    ///
    /// Splits on the transition after killing Elder Hu
    ElderHuTrans,
    /// Bretta Rescued (NPC)
    ///
    /// Splits when saving Bretta
    BrettaRescued,
    /// Mantis Lords (Boss)
    ///
    /// Splits when killing Mantis Lords
    MantisLords,
    // endregion: Fungal
    // region: Cliffs
    /// Gorb (Boss)
    ///
    /// Splits when killing Gorb
    Gorb,
    /// Gorb (Essence)
    ///
    /// Splits when absorbing essence from Gorb
    GorbEssence,
    /// Nightmare Lantern Lit (Event)
    ///
    /// Splits when initially lighting the Nightmare Lantern
    NightmareLantern,
    /// Nightmare Lantern Destroyed (Event)
    ///
    /// Splits when destroying the Nightmare Lantern
    NightmareLanternDestroyed,
    // endregion: Cliffs
    // region: Resting Grounds
    /// Blue Lake (Transition)
    ///
    /// Splits on transition to Blue Lake from either side
    BlueLake,
    /// Enter Any Dream (Transition)
    ///
    /// Splits when entering any dream world
    EnterAnyDream,
    DreamNailExit,
    /// Resting Grounds (Area)
    ///
    /// Splits when entering Resting Grounds text first appears
    RestingGrounds,
    /// Resting Grounds Stag (Bench)
    ///
    /// Splits when sitting on the bench at Resting Grounds Stag
    BenchRGStag,
    /// Xero (Boss)
    ///
    /// Splits when killing Xero
    Xero,
    /// Xero (Essence)
    ///
    /// Splits when absorbing essence from Xero
    XeroEssence,
    /// Spirit Glade Door (Event)
    ///
    /// Splits when the Seer opens the Spirits' Glade after bringing back 200 essence
    SpiritGladeOpen,
    /// Seer Departs (Event)
    ///
    /// Splits when the Seer Departs after bringing back 2400 essence
    SeerDeparts,
    /// Catacombs Entry (Transition)
    ///
    /// Splits on entry to the catacombs below Resting Grounds
    CatacombsEntry,
    /// Met Grey Mourner (NPC)
    ///
    /// Splits when talking to Grey Mourner for the first time
    MetGreyMourner,
    /// Mourner w/ Seer Ascended (NPC)
    ///
    /// Splits when both talked to Grey Mourner and Seer has ascended
    GreyMournerSeerAscended,
    // endregion: Resting Grounds
    // region: City
    /// City Gate (Event)
    ///
    /// Splits when using the City Crest to open the City Gate
    CityGateOpen,
    /// City Gate w/ Mantis Lords defeated (Event)
    ///
    /// To make sure you don't forget Mantis Lords
    CityGateAndMantisLords,
    /// City of Tears (Area)
    ///
    /// Splits when entering City of Tears text first appears
    CityOfTears,
    /// Gorgeous Husk (Killed)
    ///
    /// Splits when killing Gorgeous Husk
    GorgeousHusk,
    /// Gorgeous Husk Killed (Transition)
    ///
    /// Splits on transition after Gorgeous Husk defeated
    TransGorgeousHusk,
    /// Main Menu w/ Ghusk (Menu)
    ///
    /// Splits on transition to the main menu after Gorgeous Husk defeated
    MenuGorgeousHusk,
    /// Rafters (Transition)
    ///
    /// Splits on any transition into the City Rafters room
    EnterRafters,
    /// Lemm Shop (NPC)
    ///
    /// Splits when talking to Lemm in the shop for the first time
    Lemm2,
    /// Lemm - ACN (Event)
    ///
    /// Splits on having sold at least 6100 geo worth of relics to Lemm
    AllCharmNotchesLemm2CP,
    /// Sanctum Bench (Toll)
    ///
    /// Splits when buying City/Sanctum toll bench by Cornifer's location
    TollBenchCity,
    /// Soul Twister (Killed)
    ///
    /// Splits on first Soul Twister kill
    KilledSoulTwister,
    /// Soul Sanctum (Transition)
    ///
    /// Splits when entering Soul Sanctum
    EnterSanctum,
    /// Soul Sanctum w/ Shade Soul (Transition)
    ///
    /// Splits when entering Soul Sanctum after obtaining Shade Soul
    EnterSanctumWithShadeSoul,
    /// Soul Warrior (Killed)
    ///
    /// Splits on first Soul Warrior kill
    KilledSanctumWarrior,
    /// Enter Soul Master (Transition)
    ///
    /// Splits when entering Soul Master boss arena transition
    EnterSoulMaster,
    /// Soul Master Encountered (Boss)
    ///
    /// Splits when Soul Master is activated the first time as the arena gate closes
    SoulMasterEncountered,
    /// Soul Master - Fake Spell Pickup (Boss)
    ///
    /// Splits when triggering Soul Master phase 2 the first time
    SoulMasterPhase1,
    /// Soul Master (Boss)
    ///
    /// Splits when killing Soul Master
    SoulMaster,
    /// Soul Tyrant (Boss)
    ///
    /// Splits when killing Soul Tyrant
    SoulTyrant,
    /// Soul Tyrant (Essence)
    ///
    /// Splits when getting Soul Tyrant essence
    SoulTyrantEssence,
    /// Soul Tyrant w/ Sanctum Grub (Essence)
    ///
    /// Splits when getting Soul Tyrant essence and Sanctum fakedive grub
    SoulTyrantEssenceWithSanctumGrub,
    /// Storerooms (Bench)
    ///
    /// Splits when sitting on the bench in City Storerooms
    BenchStorerooms,
    /// King's Station (Bench)
    ///
    /// Splits when sitting on the bench in King's Station
    BenchKingsStation,
    /// Watcher's Spire (Bench)
    ///
    /// Splits when sitting on the bench in Watcher's Spire
    BenchSpire,
    /// Watcher's Spire + Killed Great Husk Sentry (Bench)
    ///
    /// Splits when sitting on the bench in Watcher's Spire after killing a Great Husk Sentry
    BenchSpireGHS,
    EnterBlackKnight,
    /// Chandelier - Watcher Knights (Event)
    ///
    /// Splits when dropping the chandelier on one of the Watcher Knights
    WatcherChandelier,
    /// Watcher Knight (Boss)
    ///
    /// Splits when killing Watcher Knights
    BlackKnight,
    /// Watcher Knight Killed (Transition)
    ///
    /// Splits on the transition after killing Watcher Knights
    BlackKnightTrans,
    /// Tower of Love (Transition)
    ///
    /// Splits when entering the Tower of Love
    EnterLoveTower,
    /// Collector (Boss)
    ///
    /// Splits when killing Collector
    Collector,
    /// Collector Defeated (Transition)
    ///
    /// Splits on transition after defeating the Collector
    TransCollector,
    /// Nailsmith Killed (Event)
    ///
    /// Splits when Nailsmith is killed
    NailsmithKilled,
    /// Nailsmith Killed/Spared (Event)
    ///
    /// Splits when Nailsmith is killed
    ///
    /// Skips when nailsmith is spared
    NailsmithChoice,
    // endregion: City
    // region: Peak
    /// Crystal Peak Entry (Transition)
    ///
    /// Splits on transition to the room where the dive and toll entrances meet, or the room right of Dirtmouth
    CrystalPeakEntry,
    /// Crystal Peak (Area)
    ///
    /// Splits when entering Crystal Peak text first appears
    CrystalPeak,
    /// Husk Miner (Killed)
    ///
    /// Splits when killing a Husk Miner
    HuskMiner,
    /// Crystal Guardian (Boss)
    ///
    /// Splits when killing the Crystal Guardian
    CrystalGuardian1,
    /// Enraged Guardian (Boss)
    ///
    /// Splits when killing the Enraged Guardian
    CrystalGuardian2,
    /// Hallownest's Crown (Transition)
    ///
    /// Splits on transition into the room with the Whispering Root at the base of Hallownest's Crown
    EnterCrown,
    /// Crystal Mound Exit (Transition)
    ///
    /// Splits on transition from Crystal Mound
    CrystalMoundExit,
    /// Crystal Peak Lift Opened (Event)
    ///
    /// Splits when opening the lever for the lift between Dirtmouth and Crystal Peak
    MineLiftOpened,
    // endregion: Peak
    // region: Waterways
    /// Waterways Manhole (Toll)
    ///
    /// Splits when opening the Waterways Manhole
    WaterwaysManhole,
    /// Waterways (Transition)
    ///
    /// Splits on transition to Waterways
    WaterwaysEntry,
    /// Royal Waterways (Area)
    ///
    /// Splits when entering Royal Waterways text first appears
    RoyalWaterways,
    /// Dung Defender (Boss)
    ///
    /// Splits when killing Dung Defender
    DungDefender,
    /// White Defender (Boss)
    ///
    /// Splits when killing White Defender
    WhiteDefender,
    /// White Defender (Essence)
    ///
    /// Splits when getting White Defender essence
    WhiteDefenderEssence,
    /// Met Emilitia (Event)
    ///
    /// Splits when talking to Emilitia for the first time
    MetEmilitia,
    /// Emilitia Flower (NPC)
    ///
    /// Splits when giving Emilita a flower
    GivenEmilitiaFlower,
    /// Flukemarm (Boss)
    ///
    /// Splits when killing Flukemarm
    Flukemarm,
    /// Junk Pit (Transition)
    ///
    /// Splits on transition into Junk Pit
    EnterJunkPit,
    // endregion: Waterways
    // region: Basin
    /// Ancient Basin (Transition)
    ///
    /// Splits on transition to Ancient Basin
    BasinEntry,
    /// Ancient Basin (Area)
    ///
    /// Splits when entering Ancient Basin text first appears
    Abyss,
    /// Saved Cloth (Event)
    ///
    /// Splits when saving Cloth in Ancient Basin
    SavedCloth,
    /// Basin Bench (Toll)
    ///
    /// Splits when buying Ancient Basin toll bench
    TollBenchBasin,
    Abyss19from18,
    /// Broken Vessel (Boss)
    ///
    /// Splits when killing Broken Vessel
    BrokenVessel,
    /// Broken Vessel (Transition)
    ///
    /// Splits on any non-death transition after defeating Broken Vessel
    BrokenVesselTrans,
    /// Lost Kin (Boss)
    ///
    /// Splits when killing Lost Kin
    LostKin,
    /// Lost Kin (Essence)
    ///
    /// Splits when getting Lost Kin essence
    LostKinEssence,
    /// Hidden Station (Bench)
    ///
    /// Splits when sitting on the bench in Hidden Station
    BenchHiddenStation,
    // endregion: Basin
    // region: White Palace
    /// White Palace Entry (Transition)
    ///
    /// Splits when entering the first White Palace scene
    WhitePalaceEntry,
    /// White Palace - Lower Entry (Room)
    ///
    /// Splits on transition to White_Palace_01
    WhitePalaceLowerEntry,
    /// White Palace (Area)
    ///
    /// Splits when entering White Palace text for the first time
    WhitePalace,
    /// White Palace - Lower Orb (Room)
    ///
    /// Splits on transition to White_Palace_02
    WhitePalaceLowerOrb,
    /// White Palace - Lower Orb (Lever)
    ///
    /// Splits when lighting the orb in White Palace lowest floor
    WhitePalaceOrb1,
    /// White Palace - Atrium (Room)
    ///
    /// Splits on any transition to White_Palace_03_Hub
    WhitePalaceAtrium,
    /// White Palace - Left Entry (Room)
    ///
    /// Splits on transition to White_Palace_04
    WhitePalaceLeftEntry,
    /// White Palace - Left Midpoint (Room)
    ///
    /// Splits on transition between White_Palace_04 and _14
    WhitePalaceLeftWingMid,
    /// White Palace - Left Orb (Lever)
    ///
    /// Splits when lighting the orb in White Palace left wing
    WhitePalaceOrb3,
    /// White Palace - Right Side Entry (Room)
    ///
    /// Splits on transition between White_Palace_03_Hub and _15
    WhitePalaceRightEntry,
    /// White Palace - Right Side Climb (Room)
    ///
    /// Splits on transition between White_Palace_05 and _16
    WhitePalaceRightClimb,
    /// White Palace - Right Side Saw Squeeze (Room)
    ///
    /// Splits on transition between White_Palace_16 and _05
    WhitePalaceRightSqueeze,
    /// White Palace - Right Side Exit (Room)
    ///
    /// Splits on transition between White_Palace_05 and _15
    WhitePalaceRightDone,
    /// White Palace - Right Orb (Lever)
    ///
    /// Splits when lighting the orb in White Palace right wing
    WhitePalaceOrb2,
    /// White Palace - Top Entry (Room)
    ///
    /// Splits on transition between White_Palace_03_Hub and _06
    WhitePalaceTopEntry,
    /// Path of Pain Room 1 (Room)
    ///
    /// Splits on transition to the first room in PoP (entry to PoP)
    PathOfPainEntry,
    /// Path of Pain Room 2 (Room)
    ///
    /// Splits on transition to the second room in PoP
    PathOfPainTransition1,
    /// Path of Pain Room 3 (Room)
    ///
    /// Splits on transition to the third room in PoP
    PathOfPainTransition2,
    /// Path of Pain Room 4 (Room)
    ///
    /// Splits on transition to the fourth room in PoP (Final room)
    PathOfPainTransition3,
    /// Path of Pain (Completed)
    ///
    /// Splits when completing the Path of Pain in White Palace
    PathOfPain,
    /// White Palace - Top Cursed Cycle (Room)
    ///
    /// Splits on transition between White_Palace_06 and _07
    WhitePalaceTopClimb,
    /// White Palace - Top Lever (Room)
    ///
    /// Splits on transition between White_Palace_07 and _12
    WhitePalaceTopLeverRoom,
    /// White Palace - Top Final Platforming (Room)
    ///
    /// Splits on transition between White_Palace_12 and _13
    WhitePalaceTopLastPlats,
    /// White Palace - Workshop (Area)
    ///
    /// Splits when visiting the secret room in White Palace
    WhitePalaceSecretRoom,
    /// White Palace - Throne Room (Room)
    ///
    /// Splits on transition between White_Palace_13 and _09
    WhitePalaceThroneRoom,
    // endregion: White Palace
    // region: Kingdom's Edge
    // Question: should this be any entrance to Kingdom's Edge,
    //           or just the King's Station entrance?
    //           Maybe the room off the side of the RG elevator shouldn't count,
    //           but what about the Tram entrance?
    /// Kingdom's Edge (Transition)
    ///
    /// Splits on transition to Kingdom's Edge from King's Station
    KingdomsEdgeEntry,
    /// Kingdom's Edge (Area)
    ///
    /// Splits when entering Kingdom's Edge text first appears
    KingdomsEdge,
    /// Hive (Transition)
    ///
    /// Splits on transition to Hive
    HiveEntry,
    /// Hive (Area)
    ///
    /// Splits when entering Hive text first appears
    Hive,
    /// Enter Hive Knight (Transition)
    ///
    /// Splits when entering Hive Knight boss arena transition
    EnterHiveKnight,
    /// Hive Knight (Boss)
    ///
    /// Splits when killing Hive Knight
    HiveKnight,
    /// Great Hopper (Killed)
    ///
    /// Splits when killing a Great Hopper
    GreatHopper,
    /// Oro Flower (NPC)
    ///
    /// Splits when giving Oro a flower
    GivenOroFlower,
    /// Enter Hornet 2 (Transition)
    ///
    /// Splits when entering Hornet boss arena transition in Kingdom's Edge
    EnterHornet2,
    /// Hornet 2 (Boss)
    ///
    /// Splits when killing Hornet Sentinel in Kingdom's Edge
    Hornet2,
    /// Markoth (Boss)
    ///
    /// Splits when killing Markoth
    Markoth,
    /// Markoth (Essence)
    ///
    /// Splits when absorbing essence from Markoth
    MarkothEssence,
    // endregion: Kingdom's Edge
    // region: Colosseum
    /// Little Fool (NPC)
    ///
    /// Splits when talking to the Little Fool for the first time
    LittleFool,
    /// Colosseum Unlocked 1 (Trial)
    ///
    /// Splits when the knight unlocks the Trial of the Warrior at Little Fool
    ColosseumBronzeUnlocked,
    /// Colosseum Entrance 1 (Transition)
    ///
    /// Splits on the transition into the Trial of the Warrior
    ColosseumBronzeEntry,
    /// Colosseum (Area)
    ///
    /// Splits when entering Colosseum text first appears
    Colosseum,
    /// Colo 1 Wave 1a
    ///
    /// Splits upon killing the first Sheilded Fool in wave 1
    ///
    /// Recommended for use with a pre-set save file
    Bronze1a,
    /// Colo 1 Wave 1b
    ///
    /// Splits upon killing the pair of Sheilded fools in wave 1
    ///
    /// Recommended for use with a pre-set save file
    Bronze1b,
    /// Colo 1 Wave 1c
    ///
    /// Splits upon killing the pair of Sharp Baldurs at the end of wave 1
    ///
    /// Recommended for use with a pre-set save file
    Bronze1c,
    /// Colo 1 Wave 2
    ///
    /// Splits upon killing all five Sharp Baldurs in wave 2
    ///
    /// Recommended for use with a pre-set save file
    Bronze2,
    /// Colo 1 Wave 3a
    ///
    /// Splits upon killing the first Sturdy Fool in wave 3
    ///
    /// Recommended for use with a pre-set save file
    Bronze3a,
    /// Colo 1 Wave 3b
    ///
    /// Splits upon killing the pair of Sturdy Fools at the end of wave 3
    ///
    /// Recommended for use with a pre-set save file
    Bronze3b,
    /// Colo 1 Wave 4
    ///
    /// Splits upon killing the pair of Primal Aspids in wave 4
    ///
    /// Recommended for use with a pre-set save file
    Bronze4,
    /// Colo 1 Wave 5
    ///
    /// Splits upon killing the pair of Primal Aspids in wave 5
    ///
    /// Recommended for use with a pre-set save file
    Bronze5,
    /// Colo 1 Wave 6
    ///
    /// Splits upon killing all three Sturdy Fools on the raised platforms in wave 6
    ///
    /// Recommended for use with a pre-set save file
    Bronze6,
    /// Colo 1 Wave 7
    ///
    /// Splits upon killing both Primal Aspids and Sharp Baldurs in wave 7
    ///
    /// Recommended for use with a pre-set save file
    Bronze7,
    /// Colo 1 Wave 8a
    ///
    /// Splits upon killing all four Vengeflies in wave 8
    ///
    /// Recommended for use with a pre-set save file
    Bronze8a,
    /// Colo 1 Wave 8b
    ///
    /// Splits upon killing the Vengefly King in wave 8
    ///
    /// Recommended for use with a pre-set save file
    Bronze8b,
    /// Colo 1 Wave 9
    ///
    /// Splits upon killing the Sharp Baldur after the Primal Aspid at the end of wave 9
    ///
    /// Recommended for use with a pre-set save file
    Bronze9,
    /// Colo 1 Wave 10
    ///
    /// Splits upon killing the third Sharp Baldur in the low ceiling section in wave 10
    ///
    /// Recommended for use with a pre-set save file
    Bronze10,
    /// Colo 1 Wave 11a
    ///
    /// Splits upon killing the first pair of Volatile Gruzzers in wave 11
    ///
    /// Recommended for use with a pre-set save file
    Bronze11a,
    /// Colo 1 Wave 11b
    ///
    /// Splits upon killing the final group of Volatile Gruzzers at the end of wave 11
    ///
    /// Recommended for use with a pre-set save file
    Bronze11b,
    /// Colo 1 End
    ///
    /// Splits upon killing the pair Gruz Mothers at the end of Trial of the Warrior
    ///
    /// Recommended for use with a pre-set save file
    BronzeEnd,
    /// Zote Defeated - Colosseum (Mini Boss)
    ///
    /// Splits when defeating Zote in the Colosseum
    ZoteKilled,
    /// Colosseum Fight 1 (Trial)
    ///
    /// Splits when beating the Trial of the Warrior
    ColosseumBronze,
    /// Colosseum Exit 1 (Transition)
    ///
    /// Splits on the transition out of the trial, or in the load-in after quitout
    ColosseumBronzeExit,
    /// Colosseum Unlocked 2 (Trial)
    ///
    /// Splits when the knight unlocks the Trial of the Conqueror at Little Fool
    ColosseumSilverUnlocked,
    /// Colosseum Entrance 2 (Transition)
    ///
    /// Splits on the transition into the Trial of the Conqueror
    ColosseumSilverEntry,
    /// Colo 2 Wave 1
    ///
    /// Splits upon completing wave 1
    ///
    /// Recommended for use with a pre-set save file
    Silver1,
    /// Colo 2 Wave 2
    ///
    /// Splits upon completing wave 2
    ///
    /// Recommended for use with a pre-set save file
    Silver2,
    /// Colo 2 Wave 3
    ///
    /// Splits upon completing wave 3
    ///
    /// Recommended for use with a pre-set save file
    Silver3,
    /// Colo 2 Wave 4
    ///
    /// Splits upon completing wave 4
    ///
    /// Recommended for use with a pre-set save file
    Silver4,
    /// Colo 2 Wave 5
    ///
    /// Splits upon completing wave 5
    ///
    /// Recommended for use with a pre-set save file
    Silver5,
    /// Colo 2 Wave 6
    ///
    /// Splits upon the death of the 3 Belflies after the Heavy Fool
    ///
    /// Recommended for use with a pre-set save file
    Silver6,
    /// Colo 2 Wave 7
    ///
    /// Splits on the death of the single Belfly
    ///
    /// Recommended for use with a pre-set save file
    Silver7,
    /// Colo 2 Wave 8
    ///
    /// Splits upon killing the first Great Hopper
    ///
    /// Recommended for use with a pre-set save file
    Silver8,
    /// Colo 2 Wave 9
    ///
    /// Splits upon killing the second Great Hopper
    ///
    /// Recommended for use with a pre-set save file
    Silver9,
    /// Colo 2 Wave 10
    ///
    /// Splits upon killing the Mimic
    ///
    /// Recommended for use with a pre-set save file
    Silver10,
    /// Colo 2 Wave 11
    ///
    /// Splits upon completing wave 11
    ///
    /// Recommended for use with a pre-set save file
    Silver11,
    /// Colo 2 Wave 12
    ///
    /// Splits upon completing wave 12
    ///
    /// Recommended for use with a pre-set save file
    Silver12,
    /// Colo 2 Wave 13
    ///
    /// Splits upon completing wave 13
    ///
    /// Recommended for use with a pre-set save file
    Silver13,
    /// Colo 2 Wave 14
    ///
    /// Splits upon completing wave 14
    ///
    /// Recommended for use with a pre-set save file
    Silver14,
    /// Colo 2 Wave 15
    ///
    /// Splits upon completing wave 15
    ///
    /// Recommended for use with a pre-set save file
    Silver15,
    /// Colo 2 Wave 16
    ///
    /// Splits upon completing wave 16
    ///
    /// Recommended for use with a pre-set save file
    Silver16,
    /// Colo 2 End
    ///
    /// Splits upon killing both Oblobbles at the end of Trial of the Conqueror
    ///
    /// Recommended for use with a pre-set save file
    SilverEnd,
    /// Oblobbles (Boss)
    ///
    /// Splits when 2 Oblobbles are deafeated (ideally the first pair you encounter in Colo 2)
    KilledOblobbles,
    /// Colosseum Fight 2 (Trial)
    ///
    /// Splits when beating the Trial of the Conqueror
    ColosseumSilver,
    /// Colosseum Exit 2 (Transition)
    ///
    /// Splits on the transition out of the trial, or in the load-in after quitout
    ColosseumSilverExit,
    /// Colosseum Unlocked 3 (Trial)
    ///
    /// Splits when the knight unlocks the Trial of the Fool at Little Fool
    ColosseumGoldUnlocked,
    /// Colosseum Entrance 3 (Transition)
    ///
    /// Splits on the transition into the Trial of the Warrior
    ColosseumGoldEntry,
    /// Colo 3 Wave 1
    ///
    /// Splits upon completing wave 1
    ///
    /// Recommended for use with a pre-set save file
    Gold1,
    /// Colo 3 Wave 3
    ///
    /// Splits upon completing waves 2 and 3
    ///
    /// Recommended for use with a pre-set save file
    Gold3,
    /// Colo 3 Wave 4
    ///
    /// Splits upon completing wave 4
    ///
    /// Recommended for use with a pre-set save file
    Gold4,
    /// Colo 3 Wave 5
    ///
    /// Splits upon killing the first wave of 3 Loodles
    ///
    /// Recommended for use with a pre-set save file
    Gold5,
    /// Colo 3 Wave 6
    ///
    /// Splits upon killing the set of 5 Loodles
    ///
    /// Recommended for use with a pre-set save file
    Gold6,
    /// Colo 3 Wave 7
    ///
    /// Splits upon killing the second wave of 3 Loodles
    ///
    /// Recommended for use with a pre-set save file
    Gold7,
    /// Colo 3 Wave 8a
    ///
    /// Splits upon completing the first half of wave 8, before the garpedes
    ///
    /// Recommended for use with a pre-set save file
    Gold8a,
    /// Colo 3 Wave 8b
    ///
    /// Splits upon completing wave 8
    ///
    /// Recommended for use with a pre-set save file
    Gold8,
    /// Colo 3 Wave 9a
    ///
    /// Splits upon killing the fools and mantises in wave 9
    ///
    /// Recommended for use with a pre-set save file
    Gold9a,
    /// Colo 3 Wave 9b
    ///
    /// Splits upon killing the Soul Warrior in wave 9
    ///
    /// Recommended for use with a pre-set save file
    Gold9b,
    /// Colo 3 Wave 10
    ///
    /// Splits upon completing wave 10
    ///
    /// Recommended for use with a pre-set save file
    Gold10,
    /// Colo 3 Wave 11
    ///
    /// Splits upon completing wave 11
    ///
    /// Recommended for use with a pre-set save file
    Gold11,
    /// Colo 3 Wave 12a
    ///
    /// Splits upon killing second set of 2 Lesser Mawleks and Winged Fool
    ///
    /// Recommended for use with a pre-set save file
    Gold12a,
    /// Colo 3 Wave 12b
    ///
    /// Splits upon killing the Brooding Mawlek
    ///
    /// Recommended for use with a pre-set save file
    Gold12b,
    /// Colo 3 Wave 14a
    ///
    /// Splits upon killing the Squits, Petras and Primal Aspids in wave 14
    ///
    /// Recommended for use with a pre-set save file
    Gold14a,
    /// Colo 3 Wave 14b
    ///
    /// Splits upon killing the Winged Fools and Battle Obbles in wave 14
    ///
    /// Recommended for use with a pre-set save file
    Gold14b,
    /// Colo 3 Wave 15
    ///
    /// Splits upon killing both Squits in wave 15
    ///
    /// Recommended for use with a pre-set save file
    Gold15,
    /// Colo 3 Wave 16
    ///
    /// Splits upon the death of all 14 Death Loodles in wave 16
    ///
    /// Recommended for use with a pre-set save file
    Gold16,
    /// Colo 3 Wave 17a
    ///
    /// Splits upon killing the first two phases of fools and mantises in wave 17
    ///
    /// Recommended for use with a pre-set save file
    Gold17a,
    /// Colo 3 Wave 17b
    ///
    /// Splits upon killing the fools, Volt Twister and Soul Twister in wave 17
    ///
    /// Recommended for use with a pre-set save file
    Gold17b,
    /// Colo 3 Wave 17c
    ///
    /// Splits upon killing all the regular enemies in wave 17
    ///
    /// Recommended for use with a pre-set save file
    Gold17c,
    /// Colo 3 End
    ///
    /// Splits upon killing God Tamer
    ///
    /// Recommended for use with a pre-set save file
    GoldEnd,
    /// God Tamer (Boss)
    ///
    /// Splits when killing the God Tamer
    GodTamer,
    /// Colosseum Fight 3 (Trial)
    ///
    /// Splits when beating the Trial of the Warrior
    ColosseumGold,
    /// Colosseum Exit 3 (Transition)
    ///
    /// Splits on the transition out of the trial, or in the load-in after quitout
    ColosseumGoldExit,
    // endregion: Colosseum
    // region: Fog Canyon
    /// Fog Canyon (Transition)
    ///
    /// Splits on transition to Fog Canyon
    FogCanyonEntry,
    /// Fog Canyon (Area)
    ///
    /// Splits when entering Fog Canyon text first appears
    FogCanyon,
    /// Teachers Archive (Area)
    ///
    /// Splits when entering Teachers Archive for the first time
    TeachersArchive,
    /// Uumuu Encountered (Boss)
    ///
    /// Splits Uumuu is activated the first time as the arena gate closes
    UumuuEncountered,
    /// Uumuu (Boss)
    ///
    /// Splits when killing Uumuu
    Uumuu,
    // endregion: Fog Canyon
    // region: Queen's Gardens
    /// Queen's Garden Entry (Transition)
    ///
    /// Splits on transition to QG scene following QGA or above Deepnest
    QueensGardensEntry,
    /// Queen's Gardens (Area)
    ///
    /// Splits when entering Queen's Gardens text first appears
    QueensGardens,
    /// Queen's Garden Bench (Toll)
    ///
    /// Splits when buying Queen's Garden toll bench
    TollBenchQG,
    /// Queen's Garden - Post-Upper Arena (Transition)
    ///
    /// Splits on transition to room after upper arena in QG
    QueensGardensPostArenaTransition,
    /// Flower Quest (Event)
    ///
    /// Splits when placing the flower at the grave of the Traitors' Child
    FlowerQuest,
    /// Queen's Garden - Frogs (Transition)
    ///
    /// Splits on transition to QG frogs scene
    QueensGardensFrogsTrans,
    /// Marmu (Boss)
    ///
    /// Splits when killing Marmu
    Marmu,
    /// Marmu (Essence)
    ///
    /// Splits when absorbing essence from Marmu
    MarmuEssence,
    /// Queen's Gardens Stag (Bench)
    ///
    /// Splits when sitting on the bench at Queen's Gardens Stag
    BenchQGStag,
    /// Traitor Lord (Boss)
    ///
    /// Splits when killing Traitor Lord
    TraitorLord,
    /// White Lady Flower (NPC)
    ///
    /// Splits when giving White Lady a flower
    GivenWhiteLadyFlower,
    // endregion: Queen's Gardens
    // region: Deepnest
    /// Deepnest (Transition)
    ///
    /// Splits on transition into Deepnest
    EnterDeepnest,
    /// Deepnest (Area)
    ///
    /// Splits when entering Deepnest text first appears
    Deepnest,
    /// Deepnest Spa (Area)
    ///
    /// Splits when entering the Deepnest Spa area with bench
    DeepnestSpa,
    /// Zote Rescued - Deepnest (Mini Boss)
    ///
    /// Splits when rescuing Zote in Deepnest
    Zote2,
    /// Tram Deepnest (Tram)
    ///
    /// Splits when unlocking the tram in Deepnest
    TramDeepnest,
    /// Nosk (Transition)
    ///
    /// Splits when entering Nosk boss arena transition
    EnterNosk,
    /// Nosk (Boss)
    ///
    /// Splits when killing Nosk
    Nosk,
    /// Galien (Boss)
    ///
    /// Splits when killing Galien
    Galien,
    /// Galien (Essence)
    ///
    /// Splits when absorbing essence from Galien
    GalienEssence,
    /// Trap Bench (Event)
    ///
    /// Splits when getting the trap bench in Beasts Den
    BeastsDenTrapBench,
    // endregion: Deepnest
    // region: Godhome
    /// God Tuner (Item)
    ///
    /// Splits when obtaining the God Tuner
    GodTuner,
    /// Godseeker Flower (NPC)
    ///
    /// Splits when giving Godseeker a flower
    GivenGodseekerFlower,
    /// Godhome (Transition)
    ///
    /// Splits on transition to Godhome
    EnterGodhome,
    /// Godhome (Area)
    ///
    /// Splits when entering Godhome text first appears
    Godhome,
    /// Eternal Ordeal Unlocked (Event)
    ///
    /// Splits when breaking the wall to the Zote statue in Godhome
    EternalOrdealUnlocked,
    /// Eternal Ordeal Achieved (Event)
    ///
    /// Splits when achieving the ordeal (57th Zote killed)
    EternalOrdealAchieved,
    /// Pantheon 1-4 (Transition)
    ///
    /// Splits on entry to any of Pantheon 1 - 4
    Pantheon1to4Entry,
    /// Vengefly King (Pantheon)
    ///
    /// Splits after killing Vengefly King in Pantheon 1 or Pantheon 5
    VengeflyKingP,
    /// Gruz Mother (Pantheon)
    ///
    /// Splits after killing Gruz Mother in Pantheon 1 or Pantheon 5
    GruzMotherP,
    /// False Knight (Pantheon)
    ///
    /// Splits after killing False Knight in Pantheon 1 or Pantheon 5
    FalseKnightP,
    /// Massive Moss Charger (Pantheon)
    ///
    /// Splits after killing Massive Moss Charger in Pantheon 1 or Pantheon 5
    MassiveMossChargerP,
    /// Hornet 1 (Pantheon)
    ///
    /// Splits after killing Hornet Protector in Pantheon 1 or Pantheon 5
    Hornet1P,
    /// Godhome Bench (Transition)
    ///
    /// Splits when leaving a Godhome Bench room
    GodhomeBench,
    /// Gorb (Pantheon)
    ///
    /// Splits after killing Gorb in Pantheon 1 or Pantheon 5
    GorbP,
    /// Dung Defender (Pantheon)
    ///
    /// Splits after killing Dung Defender in Pantheon 1 or Pantheon 5
    DungDefenderP,
    /// Soul Warrior (Pantheon)
    ///
    /// Splits after killing Soul Warrior in Pantheon 1 or Pantheon 5
    SoulWarriorP,
    /// Brooding Mawlek (Pantheon)
    ///
    /// Splits after killing Brooding Mawlek in Pantheon 1 or Pantheon 5
    BroodingMawlekP,
    /// Godhome Lore Room (Transition)
    ///
    /// Splits when leaving a Godhome lore room
    GodhomeLoreRoom,
    /// Oro & Mato Nail Bros (Boss)
    ///
    /// Splits when defeating Brothers Oro & Mato
    MatoOroNailBros,
    /// Oro & Mato Nail Bros (Pantheon)
    ///
    /// Splits after killing Brothers Oro & Mato in Pantheon 1 or Pantheon 5
    OroMatoNailBrosP,
    /// Pantheon 1 (Trial)
    ///
    /// Splits when beating the Pantheon of the Master
    Pantheon1,
    /// Xero (Pantheon)
    ///
    /// Splits after killing Xero in Pantheon 2 or Pantheon 5
    XeroP,
    /// Crystal Guardian (Pantheon)
    ///
    /// Splits after killing Crystal Guardian in Pantheon 2 or Pantheon 5
    CrystalGuardianP,
    /// Soul Master (Pantheon)
    ///
    /// Splits after killing Soul Master in Pantheon 2 or Pantheon 5
    SoulMasterP,
    /// Oblobbles (Pantheon)
    ///
    /// Splits after killing Oblobbles in Pantheon 2 or Pantheon 5
    OblobblesP,
    /// Mantis Lords (Pantheon)
    ///
    /// Splits after killing Mantis Lords in Pantheon 2 or Sisters of Battle Pantheon 5
    MantisLordsP,
    /// Marmu (Pantheon)
    ///
    /// Splits after killing Marmu in Pantheon 2 or Pantheon 5
    MarmuP,
    /// Nosk (Pantheon)
    ///
    /// Splits after killing Nosk in Pantheon 2
    NoskP,
    /// Flukemarm (Pantheon)
    ///
    /// Splits after killing Flukemarm in Pantheon 2 or Pantheon 5
    FlukemarmP,
    /// Broken Vessel (Pantheon)
    ///
    /// Splits after killing Broken Vessel in Pantheon 2 or Pantheon 5
    BrokenVesselP,
    /// Paintmaster Sheo (Boss)
    ///
    /// Splits when killing Paintmaster Sheo
    SheoPaintmaster,
    /// Paintmaster Sheo (Pantheon)
    ///
    /// Splits after killing Paintmaster Sheo in Pantheon 2 or Pantheon 5
    SheoPaintmasterP,
    /// Pantheon 2 (Trial)
    ///
    /// Splits when beating the Pantheon of the Artist
    Pantheon2,
    /// Hive Knight (Pantheon)
    ///
    /// Splits after killing Hive Knight in Pantheon 3 or Pantheon 5
    HiveKnightP,
    /// Elder Hu (Pantheon)
    ///
    /// Splits after killing Elder Hu in Pantheon 3 or Pantheon 5
    ElderHuP,
    /// Collector (Pantheon)
    ///
    /// Splits after killing The Collector in Pantheon 3 or Pantheon 5
    CollectorP,
    /// God Tamer (Pantheon)
    ///
    /// Splits after killing God Tamer in Pantheon 3 or Pantheon 5
    GodTamerP,
    /// Troupe Master Grimm (Pantheon)
    ///
    /// Splits after killing Troupe Master Grimm in Pantheon 3 or Pantheon 5
    TroupeMasterGrimmP,
    /// Galien (Pantheon)
    ///
    /// Splits after killing Galien in Pantheon 3 or Pantheon 5
    GalienP,
    /// Grey Prince Zote (Pantheon)
    ///
    /// Splits after killing Grey Prince Zote in Pantheon 3 or Pantheon 5
    GreyPrinceZoteP,
    /// Uumuu (Pantheon)
    ///
    /// Splits after killing Uumuu in Pantheon 3 or Pantheon 5
    UumuuP,
    /// Hornet 2 (Pantheon)
    ///
    /// Splits after killing Hornet Sentinel in Pantheon 3 or Pantheon 5
    Hornet2P,
    /// Great Nailsage Sly (Boss)
    ///
    /// Splits when killing Great Nailsage Sly
    SlyNailsage,
    /// Great Nailsage Sly (Pantheon)
    ///
    /// Splits after killing Great Nailsage Sly in Pantheon 3 or Pantheon 5
    SlyP,
    /// Pantheon 3 (Trial)
    ///
    /// Splits when beating the Pantheon of the Sage
    Pantheon3,
    /// Enraged Guardian (Pantheon)
    ///
    /// Splits after killing Enraged Guardian in Pantheon 4 or Pantheon 5
    EnragedGuardianP,
    /// Lost Kin (Pantheon)
    ///
    /// Splits after killing Lost Kin in Pantheon 4 or Pantheon 5
    LostKinP,
    /// No Eyes (Pantheon)
    ///
    /// Splits after killing No Eyes in Pantheon 4 or Pantheon 5
    NoEyesP,
    /// Traitor Lord (Pantheon)
    ///
    /// Splits after killing Traitor Lord in Pantheon 4 or Pantheon 5
    TraitorLordP,
    /// White Defender (Pantheon)
    ///
    /// Splits after killing White Defender in Pantheon 4 or Pantheon 5
    WhiteDefenderP,
    /// Failed Champion (Pantheon)
    ///
    /// Splits after killing Failed Champion in Pantheon 4 or Pantheon 5
    FailedChampionP,
    /// Markoth (Pantheon)
    ///
    /// Splits after killing Markoth in Pantheon 4 or Pantheon 5
    MarkothP,
    /// Watcher Knights (Pantheon)
    ///
    /// Splits after killing Watcher Knights in Pantheon 4 or Pantheon 5
    WatcherKnightsP,
    /// Soul Tyrant (Pantheon)
    ///
    /// Splits after killing Soul Tyrant in Pantheon 4 or Pantheon 5
    SoulTyrantP,
    /// Pure Vessel (Boss)
    ///
    /// Splits when killing Pure Vessel
    PureVessel,
    /// Pure Vessel (Pantheon)
    ///
    /// Splits after killing Pure Vessel in Pantheon 4 or Pantheon 5
    PureVesselP,
    /// Pantheon 4 (Trial)
    ///
    /// Splits when beating the Pantheon of the Knight
    Pantheon4,
    /// Pantheon 5 (Transition)
    ///
    /// Splits on entry to Pantheon 5
    Pantheon5Entry,
    /// Winged Nosk (Pantheon)
    ///
    /// Splits after killing Winged Nosk in Pantheon 5
    NoskHornetP,
    /// Nightmare King Grimm (Pantheon)
    ///
    /// Splits after killing Nightmare King Grimm in Pantheon 5
    NightmareKingGrimmP,
    /// Absolute Radiance (Pantheon)
    ///
    /// Splits after killing Absolute Radiance in Pantheon 5
    RadianceP,
    /// Pantheon 5 (Trial)
    ///
    /// Splits when beating the Pantheon of Hallownest
    Pantheon5,
}

impl Default for Split {
    fn default() -> (r: Self)
        ensures
            r == Split::ManualSplit,
    {
        Split::ManualSplit
    }
}


/// `x` occurs among the splits at positions `lo` up to (not including) `hi`.
pub open spec fn occurs_between(s: Seq<Split>, x: Split, lo: int, hi: int) -> bool {
    exists|k: int| lo <= k < hi && s[k] == x
}

/// Auto-reset is safe for a list of splits that starts a new game first and
/// nowhere else, and that has no ending split (or Absolute Radiance in a
/// pantheon) before the last one, so that a new attempt can only begin at the start.
pub open spec fn spec_auto_reset_safe(s: Seq<Split>) -> bool {
    &&& s.len() > 0
    &&& s[0] == Split::StartNewGame
    &&& !occurs_between(s, Split::StartNewGame, 1, s.len() as int)
    &&& !occurs_between(s, Split::LegacyStart, 1, s.len() as int)
    &&& !occurs_between(s, Split::EndingSplit, 0, s.len() - 1)
    &&& !occurs_between(s, Split::EndingA, 0, s.len() - 1)
    &&& !occurs_between(s, Split::EndingB, 0, s.len() - 1)
    &&& !occurs_between(s, Split::EndingC, 0, s.len() - 1)
    &&& !occurs_between(s, Split::EndingD, 0, s.len() - 1)
    &&& !occurs_between(s, Split::EndingE, 0, s.len() - 1)
    &&& !occurs_between(s, Split::RadianceP, 0, s.len() - 1)
}

/// Whether `x` occurs among `s[lo..hi]`.
fn contains_between(s: &[Split], x: Split, lo: usize, hi: usize) -> (r: bool)
    requires
        lo <= hi <= s@.len(),
    ensures
        r == occurs_between(s@, x, lo as int, hi as int),
{
    let mut k = lo;
    while k < hi
        invariant
            lo <= k <= hi,
            hi <= s@.len(),
            forall|j: int| lo <= j < k ==> s@[j] != x,
        decreases hi - k,
    {
        if s[k] == x {
            assert(s@[k as int] == x);
            return true;
        }
        k = k + 1;
    }
    false
}

/// Whether the timer may be reset automatically when the first split fires again.
pub fn auto_reset_safe(s: &[Split]) -> (r: bool)
    ensures
        r == spec_auto_reset_safe(s@),
{
    if s.len() == 0 || s[0] != Split::StartNewGame {
        return false;
    }
    let n = s.len();
    !contains_between(s, Split::StartNewGame, 1, n) && !contains_between(
        s,
        Split::LegacyStart,
        1,
        n,
    ) && !contains_between(s, Split::EndingSplit, 0, n - 1) && !contains_between(
        s,
        Split::EndingA,
        0,
        n - 1,
    ) && !contains_between(s, Split::EndingB, 0, n - 1) && !contains_between(
        s,
        Split::EndingC,
        0,
        n - 1,
    ) && !contains_between(s, Split::EndingD, 0, n - 1) && !contains_between(
        s,
        Split::EndingE,
        0,
        n - 1,
    ) && !contains_between(s, Split::RadianceP, 0, n - 1)
}

} // verus!
