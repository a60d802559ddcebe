use hollowknight_autosplit_wasm::executable::{executable_kind, ExecutableKind};
use hollowknight_autosplit_wasm::hit_counter::{load_comparison_hits, store_comparison_hits};
use hollowknight_autosplit_wasm::readings::{
    has_scene, hero_recoil, or_zero, ui_state, uses_scene_transition_routine, version_numbers,
    GameReadings, UI_STATE_OFFSET_CURRENT,
};
use hollowknight_autosplit_wasm::settings_value::SettingsValue;

#[test]
fn recoil_from_two_flags() {
    assert_eq!(hero_recoil(Some(true), None), Some(true));
    assert_eq!(hero_recoil(None, Some(true)), Some(true));
    assert_eq!(hero_recoil(Some(false), Some(false)), Some(false));
    assert_eq!(hero_recoil(Some(false), None), None);
    assert_eq!(hero_recoil(None, None), None);
}

#[test]
fn ui_state_numbering() {
    assert_eq!(ui_state(UI_STATE_OFFSET_CURRENT, 4), 4);
    assert_eq!(ui_state(0x120, 4), 6);
    assert_eq!(ui_state(0x120, 1), 1);
}

#[test]
fn version_parts() {
    assert_eq!(version_numbers("1.5.78.11833"), vec![1, 5, 78, 11833]);
    assert_eq!(version_numbers("1.2.2.1"), vec![1, 2, 2, 1]);
    assert_eq!(version_numbers("1.x"), vec![1, 0]);
    assert_eq!(version_numbers(""), vec![0]);
    assert_eq!(version_numbers("9999999999.1"), vec![0, 1]);
    assert_eq!(uses_scene_transition_routine(&version_numbers("1.5.78.11833")), Some(true));
    assert_eq!(uses_scene_transition_routine(&version_numbers("1.2.2.1")), Some(false));
    assert_eq!(uses_scene_transition_routine(&[1]), None);
}

#[test]
fn readings_helpers() {
    assert_eq!(or_zero(None), 0);
    assert_eq!(or_zero(Some(7)), 7);
    let l = Some(vec!["Waterways_13".to_string()]);
    assert!(has_scene(&l, "Waterways_13"));
    assert!(!has_scene(&l, "Town"));
    assert!(!has_scene(&None, "Town"));
    let r = GameReadings::unread();
    assert!(!r.non_continuous());
    assert_eq!(r.ore_gross(), None);
}

#[test]
fn comparison_hits_round_trip() {
    let mut m: Vec<(String, SettingsValue)> = vec![];
    assert_eq!(load_comparison_hits(&m), None);
    store_comparison_hits(&mut m, &[0, 3, 5]);
    assert_eq!(load_comparison_hits(&m), Some(vec![0, 3, 5]));
    let m2 = vec![(
        "comparison_hits".to_string(),
        SettingsValue::List(vec![SettingsValue::I64(1), SettingsValue::Str("x".to_string()), SettingsValue::I64(2)]),
    )];
    assert_eq!(load_comparison_hits(&m2), Some(vec![1]));
}

#[test]
fn executable_kinds() {
    assert_eq!(executable_kind(&[0x4D, 0x5A, 0x90, 0x00]), Some(ExecutableKind::Pe));
    assert_eq!(executable_kind(&[0x7F, 0x45, 0x4C, 0x46, 2]), Some(ExecutableKind::Elf));
    assert_eq!(executable_kind(&[0xCE, 0xFA, 0xED, 0xFE]), Some(ExecutableKind::MachO32));
    assert_eq!(executable_kind(&[0xCF, 0xFA, 0xED, 0xFE, 7]), Some(ExecutableKind::MachO64));
    assert_eq!(executable_kind(&[0x4D]), None);
    assert_eq!(executable_kind(&[]), None);
}
