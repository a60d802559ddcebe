use hollowknight_autosplit_wasm::scenes::{
    is_bad_scene_name, is_debug_save_state_scene, is_dream, is_menu, is_play_scene,
    starts_with_any, SceneStore,
};

#[test]
fn menu_scenes() {
    assert!(is_menu("Menu_Title"));
    assert!(is_menu("Quit_To_Menu"));
    assert!(is_menu("PermaDeath"));
    assert!(!is_menu("Town"));
}

#[test]
fn play_scenes() {
    assert!(is_play_scene("Town"));
    assert!(!is_play_scene("Menu_Title"));
    assert!(!is_play_scene("Cinematic_Ending_A"));
}

#[test]
fn debug_save_state_scenes() {
    assert!(is_debug_save_state_scene("Room_Mender_House"));
    assert!(is_debug_save_state_scene("Room_Sly_Storeroom"));
    assert!(!is_debug_save_state_scene("Town"));
}

#[test]
fn dreams() {
    assert!(is_dream("Dream_Nailcollection"));
    assert!(!is_dream("Town"));
}

#[test]
fn prefixes() {
    assert!(starts_with_any("Fungus2_06", &["Fungus2_", "Mines_"]));
    assert!(!starts_with_any("Town", &["Fungus2_", "Mines_"]));
    assert!(!starts_with_any("Town", &[]));
}

#[test]
fn bad_names() {
    assert!(!is_bad_scene_name("Town"));
}

#[test]
fn transition_detected_once() {
    let mut ss = SceneStore::new();
    assert!(ss.transition_now(Some("Tutorial_01".to_string()), Some("".to_string())));
    assert!(!ss.transition_now(Some("Tutorial_01".to_string()), Some("".to_string())));
    assert!(ss.transition_now(Some("Tutorial_01".to_string()), Some("Town".to_string())));
    let p = ss.pair();
    assert_eq!(p.old, "Tutorial_01");
    assert_eq!(p.current, "Town");
    assert!(!ss.transition_now(Some("Tutorial_01".to_string()), Some("Town".to_string())));
    assert!(!ss.transition_now(Some("Town".to_string()), Some("Town".to_string())));
    let p = ss.pair();
    assert_eq!(p.old, "Tutorial_01");
    assert_eq!(p.current, "Town");
}

#[test]
fn split_mark_cleared_on_transition() {
    let mut ss = SceneStore::new();
    ss.transition_now(Some("Town".to_string()), None);
    ss.mark_split();
    assert!(ss.split_this_transition());
    assert!(ss.transition_now(Some("Crossroads_01".to_string()), None));
    assert!(!ss.split_this_transition());
}

#[test]
fn new_curr_scene_name_keeps_previous() {
    let mut ss = SceneStore::new();
    assert!(!ss.new_curr_scene_name1(Some("Town".to_string())));
    ss.new_curr_scene_name1(Some("Crossroads_01".to_string()));
    let p = ss.pair();
    assert_eq!(p.old, "Crossroads_01");
    assert_eq!(p.current, "");
    ss.new_next_scene_name1(Some("Crossroads_01".to_string()));
    let p = ss.pair();
    assert_eq!(p.old, "Town");
    assert_eq!(p.current, "Crossroads_01");
}
