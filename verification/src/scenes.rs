//! Scene names of Hollow Knight, and the tracking of scene transitions.

use vstd::prelude::*;

use crate::text::{spec_starts_with, starts_with, str_eq};

verus! {

pub const PRE_MENU_INTRO: &'static str = "Pre_Menu_Intro";
pub const MENU_TITLE: &'static str = "Menu_Title";
pub const QUIT_TO_MENU: &'static str = "Quit_To_Menu";
pub const PERMA_DEATH: &'static str = "PermaDeath";
pub const INTRO_CUTSCENE: &'static str = "Intro_Cutscene";
pub const OPENING_SEQUENCE: &'static str = "Opening_Sequence";
pub const GG_ENTRANCE_CUTSCENE: &'static str = "GG_Entrance_Cutscene";

/// The game states that the game reports.
pub const GAME_STATE_INACTIVE: i32 = 0;
pub const GAME_STATE_MAIN_MENU: i32 = 1;
pub const GAME_STATE_LOADING: i32 = 2;
pub const GAME_STATE_ENTERING_LEVEL: i32 = 3;
pub const GAME_STATE_PLAYING: i32 = 4;
pub const GAME_STATE_EXITING_LEVEL: i32 = 6;
pub const GAME_STATE_CUTSCENE: i32 = 7;

pub const UI_STATE_PLAYING: i32 = 6;
pub const UI_STATE_PAUSED: i32 = 7;

pub const HERO_TRANSITION_STATE_WAITING_TO_ENTER_LEVEL: i32 = 2;

/// Game states in which the player is in a save file, not in a menu.
pub open spec fn spec_non_menu_game_state(gs: i32) -> bool {
    gs == GAME_STATE_PLAYING || gs == GAME_STATE_CUTSCENE
}

/// Game states in which the level is not running continuously.
pub open spec fn spec_non_continuous_game_state(gs: i32) -> bool {
    gs == GAME_STATE_MAIN_MENU || gs == GAME_STATE_LOADING || gs == GAME_STATE_ENTERING_LEVEL
        || gs == GAME_STATE_EXITING_LEVEL
}

pub fn is_non_menu_game_state(gs: i32) -> (r: bool)
    ensures
        r == spec_non_menu_game_state(gs),
{
    gs == GAME_STATE_PLAYING || gs == GAME_STATE_CUTSCENE
}

pub fn is_non_continuous_game_state(gs: i32) -> (r: bool)
    ensures
        r == spec_non_continuous_game_state(gs),
{
    gs == GAME_STATE_MAIN_MENU || gs == GAME_STATE_LOADING || gs == GAME_STATE_ENTERING_LEVEL
        || gs == GAME_STATE_EXITING_LEVEL
}

/// Scenes that start a new save file.
pub open spec fn spec_opening_scene(s: Seq<char>) -> bool {
    s == INTRO_CUTSCENE@ || s == OPENING_SEQUENCE@
}

/// Scenes outside of play: menus, cutscenes and endings.
pub open spec fn spec_non_play_scene(s: Seq<char>) -> bool {
    ||| s == PRE_MENU_INTRO@
    ||| s == MENU_TITLE@
    ||| s == QUIT_TO_MENU@
    ||| s == INTRO_CUTSCENE@
    ||| s == OPENING_SEQUENCE@
    ||| s == GG_ENTRANCE_CUTSCENE@
    ||| s == "Cinematic_Ending_A"@
    ||| s == "Cinematic_Ending_B"@
    ||| s == "Cinematic_Ending_C"@
    ||| s == "Cinematic_Ending_D"@
    ||| s == "Cinematic_Ending_E"@
    ||| s == "End_Credits"@
    ||| s == "Cinematic_MrMushroom"@
    ||| s == "End_Game_Completion"@
    ||| s == PERMA_DEATH@
    ||| s == "PermaDeath_Unlock"@
}

/// Names that the game sometimes leaves in the scene-name fields which are not scenes.
pub open spec fn spec_bad_scene_name(s: Seq<char>) -> bool {
    ||| s == "Untagged"@
    ||| s == "left1"@
    ||| s == "oncomplete"@
    ||| s == "Attack Range"@
    ||| s == "onstart"@
    ||| s == "position"@
    ||| s == "looptype"@
    ||| s == "integer1"@
    ||| s == "gameObject"@
    ||| s == "eventTarget"@
    ||| s == "material"@
}

/// Scenes in which a debug mod keeps save states.
pub open spec fn spec_debug_save_state_scene(s: Seq<char>) -> bool {
    s == "Room_Mender_House"@ || s == "Room_Sly_Storeroom"@
}

pub open spec fn spec_is_menu(s: Seq<char>) -> bool {
    s == MENU_TITLE@ || s == QUIT_TO_MENU@ || s == PERMA_DEATH@
}

pub open spec fn spec_is_play_scene(s: Seq<char>) -> bool {
    !spec_non_play_scene(s) && !spec_bad_scene_name(s)
}

/// Whether `s` is one of the opening scenes of a new save file.
pub fn is_opening_scene(s: &str) -> (r: bool)
    ensures
        r == spec_opening_scene(s@),
{
    str_eq(s, INTRO_CUTSCENE) || str_eq(s, OPENING_SEQUENCE)
}

/// Whether `s` is the title menu, the quit-to-menu scene, or the Steel Soul death screen.
pub fn is_menu(s: &str) -> (r: bool)
    ensures
        r == spec_is_menu(s@),
{
    str_eq(s, MENU_TITLE) || str_eq(s, QUIT_TO_MENU) || str_eq(s, PERMA_DEATH)
}

fn is_non_play_scene(s: &str) -> (r: bool)
    ensures
        r == spec_non_play_scene(s@),
{
    str_eq(s, PRE_MENU_INTRO) || str_eq(s, MENU_TITLE) || str_eq(s, QUIT_TO_MENU) || str_eq(
        s,
        INTRO_CUTSCENE,
    ) || str_eq(s, OPENING_SEQUENCE) || str_eq(s, GG_ENTRANCE_CUTSCENE) || str_eq(
        s,
        "Cinematic_Ending_A",
    ) || str_eq(s, "Cinematic_Ending_B") || str_eq(s, "Cinematic_Ending_C") || str_eq(
        s,
        "Cinematic_Ending_D",
    ) || str_eq(s, "Cinematic_Ending_E") || str_eq(s, "End_Credits") || str_eq(
        s,
        "Cinematic_MrMushroom",
    ) || str_eq(s, "End_Game_Completion") || str_eq(s, PERMA_DEATH) || str_eq(
        s,
        "PermaDeath_Unlock",
    )
}

/// Whether `s` is one of the names that are known not to be scenes.
pub fn is_bad_scene_name(s: &str) -> (r: bool)
    ensures
        r == spec_bad_scene_name(s@),
{
    str_eq(s, "Untagged") || str_eq(s, "left1") || str_eq(s, "oncomplete") || str_eq(
        s,
        "Attack Range",
    ) || str_eq(s, "onstart") || str_eq(s, "position") || str_eq(s, "looptype") || str_eq(
        s,
        "integer1",
    ) || str_eq(s, "gameObject") || str_eq(s, "eventTarget") || str_eq(s, "material")
}

/// Whether `s` is a scene of play: neither menu, cutscene, ending, nor a bad name.
pub fn is_play_scene(s: &str) -> (r: bool)
    ensures
        r == spec_is_play_scene(s@),
{
    !is_non_play_scene(s) && !is_bad_scene_name(s)
}

/// Whether `s` is one of the scenes that debug save states use.
pub fn is_debug_save_state_scene(s: &str) -> (r: bool)
    ensures
        r == spec_debug_save_state_scene(s@),
{
    str_eq(s, "Room_Mender_House") || str_eq(s, "Room_Sly_Storeroom")
}

/// A dream scene: its name starts with `Dream_`.
pub open spec fn spec_is_dream(s: Seq<char>) -> bool {
    spec_starts_with(s, "Dream_"@)
}

/// Whether `s` names a dream scene.
pub fn is_dream(s: &str) -> (r: bool)
    ensures
        r == spec_is_dream(s@),
{
    starts_with(s, "Dream_")
}

/// `full` starts with one of `prefixes`.
pub open spec fn spec_starts_with_any(full: Seq<char>, prefixes: Seq<&str>) -> bool {
    exists|k: int| 0 <= k < prefixes.len() && spec_starts_with(full, #[trigger] prefixes[k]@)
}

/// Whether `full` starts with any of `prefixes`.
pub fn starts_with_any(full: &str, prefixes: &[&str]) -> (r: bool)
    ensures
        r == spec_starts_with_any(full@, prefixes@),
{
    let mut k: usize = 0;
    while k < prefixes.len()
        invariant
            k <= prefixes@.len(),
            forall|j: int| 0 <= j < k ==> !spec_starts_with(full@, #[trigger] prefixes@[j]@),
        decreases prefixes@.len() - k,
    {
        if starts_with(full, prefixes[k]) {
            return true;
        }
        k = k + 1;
    }
    false
}


/// A scene transition: the scene left and the scene entered.
pub struct ScenePair<'a> {
    pub old: &'a str,
    pub current: &'a str,
}

/// The abstract state of a [`SceneStore`].
pub struct SceneStoreView {
    pub prev: Seq<char>,
    pub curr: Seq<char>,
    pub next: Seq<char>,
    pub new_data_curr: bool,
    pub new_data_next: bool,
    pub last_next: bool,
    pub split_this_transition: bool,
}

/// The scene pair that a store with state `v` reports.
pub open spec fn spec_pair(v: SceneStoreView) -> (Seq<char>, Seq<char>) {
    if v.last_next && v.next != v.curr {
        (v.curr, v.next)
    } else {
        (v.prev, v.curr)
    }
}

/// The store after the game reported `mcsn` as its current scene name.
pub open spec fn spec_new_curr(v: SceneStoreView, mcsn: Option<Seq<char>>) -> SceneStoreView {
    match mcsn {
        Some(csn) => if csn != v.curr {
            SceneStoreView { prev: v.curr, curr: csn, new_data_curr: csn != v.next, ..v }
        } else {
            v
        },
        None => v,
    }
}

/// The store after the game reported `mnsn` as its next scene name.
pub open spec fn spec_new_next(v: SceneStoreView, mnsn: Option<Seq<char>>) -> SceneStoreView {
    match mnsn {
        Some(nsn) => if nsn != v.next {
            SceneStoreView { next: nsn, new_data_next: nsn.len() != 0, ..v }
        } else {
            v
        },
        None => v,
    }
}

/// A reported name, unless it is missing or one of the known bad names.
pub open spec fn spec_good_name(m: Option<Seq<char>>) -> Option<Seq<char>> {
    match m {
        Some(s) => if spec_bad_scene_name(s) { None } else { Some(s) },
        None => None,
    }
}

/// The store after a tick on which the game reported the two names, and
/// whether that tick is a scene transition.
pub open spec fn spec_transition_now(
    v: SceneStoreView,
    scene: Option<Seq<char>>,
    next: Option<Seq<char>>,
) -> (SceneStoreView, bool) {
    let w = spec_new_next(spec_new_curr(v, spec_good_name(scene)), spec_good_name(next));
    if w.new_data_next {
        (
            SceneStoreView {
                new_data_curr: false,
                new_data_next: false,
                last_next: true,
                split_this_transition: false,
                ..w
            },
            true,
        )
    } else if w.new_data_curr {
        (
            SceneStoreView {
                new_data_curr: false,
                last_next: false,
                split_this_transition: false,
                ..w
            },
            true,
        )
    } else {
        (w, false)
    }
}

/// Keeps the previous, current and next scene names, to tell when a scene
/// transition happens and which scenes it is between.
pub struct SceneStore {
    prev_scene_name: String,
    curr_scene_name: String,
    next_scene_name: String,
    new_data_curr: bool,
    new_data_next: bool,
    last_next: bool,
    pub split_this_transition: bool,
}

impl View for SceneStore {
    type V = SceneStoreView;

    closed spec fn view(&self) -> SceneStoreView {
        SceneStoreView {
            prev: self.prev_scene_name@,
            curr: self.curr_scene_name@,
            next: self.next_scene_name@,
            new_data_curr: self.new_data_curr,
            new_data_next: self.new_data_next,
            last_next: self.last_next,
            split_this_transition: self.split_this_transition,
        }
    }
}

impl SceneStore {
    /// The store is consistent: the previous and current scene differ, unless
    /// no scene has been seen yet.
    pub open spec fn wf(&self) -> bool {
        self@.prev != self@.curr || (self@.prev.len() == 0 && self@.curr.len() == 0)
    }

    pub fn new() -> (s: SceneStore)
        ensures
            s@ == (SceneStoreView {
                prev: Seq::empty(),
                curr: Seq::empty(),
                next: Seq::empty(),
                new_data_curr: false,
                new_data_next: false,
                last_next: true,
                split_this_transition: false,
            }),
            s.wf(),
    {
        SceneStore {
            prev_scene_name: String::new(),
            curr_scene_name: String::new(),
            next_scene_name: String::new(),
            new_data_curr: false,
            new_data_next: false,
            last_next: true,
            split_this_transition: false,
        }
    }

    /// Whether a split already happened on the current transition.
    pub fn split_this_transition(&self) -> (b: bool)
        ensures
            b == self@.split_this_transition,
    {
        self.split_this_transition
    }

    /// Notes that a split happened on the current transition.
    pub fn mark_split(&mut self)
        requires
            old(self).wf(),
        ensures
            final(self).wf(),
            final(self)@ == (SceneStoreView { split_this_transition: true, ..old(self)@ }),
    {
        self.split_this_transition = true;
    }

    /// The transition to judge splits by: from the current to the next scene
    /// while one is loading, otherwise from the previous to the current scene.
    pub fn pair(&self) -> (p: ScenePair<'_>)
        ensures
            (p.old@, p.current@) == spec_pair(self@),
    {
        if self.last_next && self.next_scene_name != self.curr_scene_name {
            ScenePair { old: self.curr_scene_name.as_str(), current: self.next_scene_name.as_str() }
        } else {
            ScenePair { old: self.prev_scene_name.as_str(), current: self.curr_scene_name.as_str() }
        }
    }

    pub fn new_curr_scene_name(&mut self, mcsn: Option<String>)
        requires
            old(self).wf(),
        ensures
            final(self)@ == spec_new_curr(
                old(self)@,
                match mcsn {
                    Some(s) => Some(s@),
                    None => None,
                },
            ),
            final(self).wf(),
    {
        match mcsn {
            Some(csn) => {
                if csn != self.curr_scene_name {
                    let mut c = csn;
                    std::mem::swap(&mut c, &mut self.curr_scene_name);
                    self.prev_scene_name = c;
                    self.new_data_curr = self.curr_scene_name != self.next_scene_name;
                }
            },
            None => {},
        }
    }

    /// Takes a reported current scene name; returns whether it was a bad name,
    /// which is ignored.
    pub fn new_curr_scene_name1(&mut self, msn: Option<String>) -> (bad: bool)
        requires
            old(self).wf(),
        ensures
            bad == (match msn {
                Some(s) => spec_bad_scene_name(s@),
                None => false,
            }),
            final(self)@ == spec_new_curr(
                old(self)@,
                spec_good_name(
                    match msn {
                        Some(s) => Some(s@),
                        None => None,
                    },
                ),
            ),
            final(self).wf(),
    {
        match msn {
            None => false,
            Some(sn) => {
                if is_bad_scene_name(sn.as_str()) {
                    true
                } else {
                    self.new_curr_scene_name(Some(sn));
                    false
                }
            },
        }
    }

    pub fn new_next_scene_name(&mut self, mnsn: Option<String>)
        requires
            old(self).wf(),
        ensures
            final(self)@ == spec_new_next(
                old(self)@,
                match mnsn {
                    Some(s) => Some(s@),
                    None => None,
                },
            ),
            final(self).wf(),
    {
        match mnsn {
            Some(nsn) => {
                if nsn != self.next_scene_name {
                    self.next_scene_name = nsn;
                    self.new_data_next = self.next_scene_name.as_str().unicode_len() != 0;
                }
            },
            None => {},
        }
    }

    /// Takes a reported next scene name; returns whether it was a bad name,
    /// which is ignored.
    pub fn new_next_scene_name1(&mut self, mnsn: Option<String>) -> (bad: bool)
        requires
            old(self).wf(),
        ensures
            bad == (match mnsn {
                Some(s) => spec_bad_scene_name(s@),
                None => false,
            }),
            final(self)@ == spec_new_next(
                old(self)@,
                spec_good_name(
                    match mnsn {
                        Some(s) => Some(s@),
                        None => None,
                    },
                ),
            ),
            final(self).wf(),
    {
        match mnsn {
            None => false,
            Some(nsn) => {
                if is_bad_scene_name(nsn.as_str()) {
                    true
                } else {
                    self.new_next_scene_name(Some(nsn));
                    false
                }
            },
        }
    }

    /// Takes the scene names that the game reports on this tick; returns
    /// whether a scene transition happens now.
    pub fn transition_now(&mut self, scene_name: Option<String>, next_scene_name: Option<
        String,
    >) -> (t: bool)
        requires
            old(self).wf(),
        ensures
            (final(self)@, t) == spec_transition_now(
                old(self)@,
                match scene_name {
                    Some(s) => Some(s@),
                    None => None,
                },
                match next_scene_name {
                    Some(s) => Some(s@),
                    None => None,
                },
            ),
            final(self).wf(),
    {
        self.new_curr_scene_name1(scene_name);
        self.new_next_scene_name1(next_scene_name);
        if self.new_data_next {
            self.new_data_curr = false;
            self.new_data_next = false;
            self.last_next = true;
            self.split_this_transition = false;
            true
        } else if self.new_data_curr {
            self.new_data_curr = false;
            self.last_next = false;
            self.split_this_transition = false;
            true
        } else {
            false
        }
    }
}

/// A store that keeps its invariant reports a pair of two different scenes,
/// unless no scene has been seen yet.
pub proof fn lemma_pair_differs(v: SceneStoreView)
    requires
        v.prev != v.curr || (v.prev.len() == 0 && v.curr.len() == 0),
    ensures
        spec_pair(v).0 != spec_pair(v).1 || spec_pair(v).1.len() == 0,
{
}

/// Every scene transition re-arms the splits: a split may fire once more.
pub proof fn lemma_transition_rearms(
    v: SceneStoreView,
    scene: Option<Seq<char>>,
    next: Option<Seq<char>>,
)
    ensures
        spec_transition_now(v, scene, next).1 ==> !spec_transition_now(
            v,
            scene,
            next,
        ).0.split_this_transition,
        !spec_transition_now(v, scene, next).1 ==> spec_transition_now(
            v,
            scene,
            next,
        ).0.split_this_transition == v.split_this_transition,
{
}

/// Once the game keeps reporting the same names, no further transition is seen.
pub proof fn lemma_transition_settles(
    v: SceneStoreView,
    scene: Option<Seq<char>>,
    next: Option<Seq<char>>,
)
    ensures
        !spec_transition_now(spec_transition_now(v, scene, next).0, scene, next).1,
{
}

} // verus!
