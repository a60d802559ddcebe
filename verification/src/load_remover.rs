//! Load removal: deciding, tick by tick, whether the game time is paused.

use vstd::prelude::*;

use crate::scenes::{
    GAME_STATE_ENTERING_LEVEL,
    GAME_STATE_EXITING_LEVEL,
    GAME_STATE_INACTIVE,
    GAME_STATE_LOADING,
    GAME_STATE_MAIN_MENU,
    GAME_STATE_PLAYING,
    HERO_TRANSITION_STATE_WAITING_TO_ENTER_LEVEL,
    MENU_TITLE,
    QUIT_TO_MENU,
    UI_STATE_PAUSED,
    UI_STATE_PLAYING,
};
use crate::text::str_eq;

verus! {

/// Absent, or the empty name.
pub open spec fn spec_none_or_empty(ms: Option<Seq<char>>) -> bool {
    match ms {
        None => true,
        Some(s) => s.len() == 0,
    }
}

/// Whether `ms` is absent or the empty name.
pub fn is_none_or_empty(ms: Option<&str>) -> (r: bool)
    ensures
        r == spec_none_or_empty(
            match ms {
                None => None,
                Some(s) => Some(s@),
            },
        ),
{
    match ms {
        None => true,
        Some(s) => s.unicode_len() == 0,
    }
}

/// What is read from the game in one tick, for load removal.
pub struct LoadObservation {
    pub ui_state: Option<i32>,
    pub scene_name: Option<String>,
    pub next_scene: Option<String>,
    pub teleporting: Option<bool>,
    pub game_state: Option<i32>,
    pub hazard_respawning: Option<bool>,
    pub accepting_input: Option<bool>,
    pub hero_transition_state: Option<i32>,
    pub tile_map_dirty: Option<bool>,
    pub uses_scene_transition_routine: Option<bool>,
}

/// An optional name by its characters.
pub open spec fn opt_view(m: Option<String>) -> Option<Seq<char>> {
    match m {
        None => None,
        Some(s) => Some(s@),
    }
}

/// An optional flag, false when absent.
pub open spec fn flag(m: Option<bool>) -> bool {
    match m {
        Some(b) => b,
        None => false,
    }
}

/// An optional number, zero when absent.
pub open spec fn num(m: Option<i32>) -> i32 {
    match m {
        Some(x) => x,
        None => 0,
    }
}

/// The scene name, empty when absent.
pub open spec fn scene_of(o: LoadObservation) -> Seq<char> {
    match o.scene_name {
        Some(s) => s@,
        None => Seq::empty(),
    }
}

/// The game is loading into or out of the menu.
pub open spec fn spec_loading_menu(scene: Seq<char>, next: Option<Seq<char>>) -> bool {
    (scene != MENU_TITLE@ && spec_none_or_empty(next)) || (scene != MENU_TITLE@ && next == Some(
        MENU_TITLE@,
    )) || scene == QUIT_TO_MENU@
}

/// Looking for the teleport that follows loading a save from the main menu:
/// it starts when the game goes from the main menu to playing, and stops at a
/// teleport or when the game is neither playing nor entering a level.
pub open spec fn spec_look_for_teleporting(look: bool, last_game_state: i32, o: LoadObservation) -> bool {
    let gs = num(o.game_state);
    let look1 = if gs == GAME_STATE_PLAYING && last_game_state == GAME_STATE_MAIN_MENU {
        true
    } else {
        look
    };
    if look1 && (flag(o.teleporting) || (gs != GAME_STATE_PLAYING && gs
        != GAME_STATE_ENTERING_LEVEL)) {
        false
    } else {
        look1
    }
}

/// Whether the game time is paused, given whether a teleport is looked for.
pub open spec fn spec_is_game_time_paused(look: bool, o: LoadObservation) -> bool {
    let gs = num(o.game_state);
    let ui = num(o.ui_state);
    let scene = scene_of(o);
    let next = opt_view(o.next_scene);
    let teleporting = flag(o.teleporting);
    ||| (gs == GAME_STATE_PLAYING && teleporting && !flag(o.hazard_respawning))
    ||| look
    ||| ((gs == GAME_STATE_PLAYING || gs == GAME_STATE_ENTERING_LEVEL) && ui != UI_STATE_PLAYING)
    ||| (gs != GAME_STATE_PLAYING && !flag(o.accepting_input))
    ||| (gs == GAME_STATE_EXITING_LEVEL || gs == GAME_STATE_LOADING)
    ||| (num(o.hero_transition_state) == HERO_TRANSITION_STATE_WAITING_TO_ENTER_LEVEL)
    ||| (ui != UI_STATE_PLAYING && (spec_loading_menu(scene, next) || (ui != UI_STATE_PAUSED && (
    !spec_none_or_empty(next) || scene == "_test_charms"@))) && next != Some(scene))
    ||| (flag(o.tile_map_dirty) && !flag(o.uses_scene_transition_routine))
}

/// One tick of the load remover: its new state and what it asks of the game time.
pub open spec fn spec_load_update(v: LoadRemoverView, running: bool, o: LoadObservation) -> (
    LoadRemoverView,
    GameTimeAction,
) {
    if !running {
        (v, GameTimeAction::Pause)
    } else {
        let look = spec_look_for_teleporting(v.look_for_teleporting, v.last_game_state, o);
        (
            LoadRemoverView { look_for_teleporting: look, last_game_state: num(o.game_state) },
            if spec_is_game_time_paused(look, o) {
                GameTimeAction::Pause
            } else {
                GameTimeAction::Resume
            },
        )
    }
}

/// What the load remover asks of the game time.
#[derive(Clone, Copy, Debug, PartialEq, Eq, Structural)]
pub enum GameTimeAction {
    Pause,
    Resume,
}

/// Pauses the game time during loads.
pub struct LoadRemover {
    look_for_teleporting: bool,
    last_game_state: i32,
}

/// The abstract state of a [`LoadRemover`].
pub struct LoadRemoverView {
    pub look_for_teleporting: bool,
    pub last_game_state: i32,
}

impl View for LoadRemover {
    type V = LoadRemoverView;

    closed spec fn view(&self) -> LoadRemoverView {
        LoadRemoverView {
            look_for_teleporting: self.look_for_teleporting,
            last_game_state: self.last_game_state,
        }
    }
}

/// Compares an optional name with a name.
fn opt_str_eq(m: &Option<String>, s: &str) -> (r: bool)
    ensures
        r == (opt_view(*m) == Some(s@)),
{
    match m {
        Some(x) => str_eq(x.as_str(), s),
        None => false,
    }
}

impl LoadRemover {
    /// A load remover that looks for nothing, last seen inactive.
    pub fn new() -> (l: LoadRemover)
        ensures
            l@ == (LoadRemoverView {
                look_for_teleporting: false,
                last_game_state: GAME_STATE_INACTIVE,
            }),
    {
        LoadRemover { look_for_teleporting: false, last_game_state: GAME_STATE_INACTIVE }
    }

    /// A new attempt changes nothing here.
    pub fn reset(&mut self)
        ensures
            final(self)@ == old(self)@,
    {
    }

    /// The attempt ended; nothing changes here.
    pub fn ended(&mut self)
        ensures
            final(self)@ == old(self)@,
    {
    }

    /// One tick: while the timer is not running the game time is paused and
    /// nothing changes; while it runs, the game time is paused exactly when
    /// the game is loading, by what was read from the game.
    pub fn update_game_time(&mut self, timer_running: bool, o: &LoadObservation) -> (a:
        GameTimeAction)
        ensures
            (final(self)@, a) == spec_load_update(old(self)@, timer_running, *o),
    {
        if !timer_running {
            return GameTimeAction::Pause;
        }
        let ui_state = match o.ui_state {
            Some(x) => x,
            None => 0,
        };
        let scene_name: &str = match &o.scene_name {
            Some(s) => s.as_str(),
            None => "",
        };
        proof {
            reveal_strlit("");
            assert(scene_name@ =~= scene_of(*o));
        }
        let next: Option<&str> = match &o.next_scene {
            Some(s) => Some(s.as_str()),
            None => None,
        };
        let not_title = !str_eq(scene_name, MENU_TITLE);
        let next_is_title = match next {
            Some(s) => str_eq(s, MENU_TITLE),
            None => false,
        };
        let loading_menu = (not_title && is_none_or_empty(next)) || (not_title && next_is_title)
            || str_eq(scene_name, QUIT_TO_MENU);
        let teleporting = match o.teleporting {
            Some(b) => b,
            None => false,
        };
        let game_state = match o.game_state {
            Some(x) => x,
            None => 0,
        };
        if game_state == GAME_STATE_PLAYING && self.last_game_state == GAME_STATE_MAIN_MENU {
            self.look_for_teleporting = true;
        }
        if self.look_for_teleporting && (teleporting || (game_state != GAME_STATE_PLAYING
            && game_state != GAME_STATE_ENTERING_LEVEL)) {
            self.look_for_teleporting = false;
        }
        let hazard_respawning = match o.hazard_respawning {
            Some(b) => b,
            None => false,
        };
        let accepting_input = match o.accepting_input {
            Some(b) => b,
            None => false,
        };
        let hero_transition_state = match o.hero_transition_state {
            Some(x) => x,
            None => 0,
        };
        let tile_map_dirty = match o.tile_map_dirty {
            Some(b) => b,
            None => false,
        };
        let uses_scene_transition_routine = match o.uses_scene_transition_routine {
            Some(b) => b,
            None => false,
        };
        let next_is_scene = opt_str_eq(&o.next_scene, scene_name);
        let is_test_charms = str_eq(scene_name, "_test_charms");
        let paused = (game_state == GAME_STATE_PLAYING && teleporting && !hazard_respawning)
            || self.look_for_teleporting || ((game_state == GAME_STATE_PLAYING || game_state
            == GAME_STATE_ENTERING_LEVEL) && ui_state != UI_STATE_PLAYING) || (game_state
            != GAME_STATE_PLAYING && !accepting_input) || (game_state == GAME_STATE_EXITING_LEVEL
            || game_state == GAME_STATE_LOADING) || (hero_transition_state
            == HERO_TRANSITION_STATE_WAITING_TO_ENTER_LEVEL) || (ui_state != UI_STATE_PLAYING && (
        loading_menu || (ui_state != UI_STATE_PAUSED && (!is_none_or_empty(next)
            || is_test_charms))) && !next_is_scene) || (tile_map_dirty
            && !uses_scene_transition_routine);
        assert(loading_menu == spec_loading_menu(scene_of(*o), opt_view(o.next_scene)));
        assert(self.look_for_teleporting == spec_look_for_teleporting(
            old(self)@.look_for_teleporting,
            old(self)@.last_game_state,
            *o,
        ));
        self.last_game_state = game_state;
        if paused {
            GameTimeAction::Pause
        } else {
            GameTimeAction::Resume
        }
    }
}

/// A camera teleport while playing pauses the game time as a load, unless it
/// is a hazard respawn: then, with the UI playing and no other sign of a
/// load, the game time runs on.
pub proof fn lemma_hazard_respawn_is_no_load(v: LoadRemoverView, o: LoadObservation)
    ensures
        o.game_state == Some(4i32) && o.teleporting == Some(true) && o.hazard_respawning != Some(true)
            ==> spec_load_update(v, true, o).1 == GameTimeAction::Pause,
        o.game_state == Some(4i32) && o.ui_state == Some(6i32) && o.teleporting == Some(true)
            && o.hazard_respawning == Some(true) && o.hero_transition_state != Some(2i32)
            && o.tile_map_dirty != Some(true) ==> spec_load_update(v, true, o).1
            == GameTimeAction::Resume,
{
}

} // verus!
