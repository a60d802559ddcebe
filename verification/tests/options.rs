use hollowknight_autosplit_wasm::radio_button::{
    options_normalize, options_str, options_value, single_from_bool_map, RadioButton,
    RadioButtonArgs, RadioButtonOption, RadioButtonOptions,
};
use hollowknight_autosplit_wasm::settings_gui::{same_splits, HitsMethod, TimingMethod};
use hollowknight_autosplit_wasm::split_options::SPLIT_COUNT;
use hollowknight_autosplit_wasm::splits::Split;
use hollowknight_autosplit_wasm::ugly_list::ListItemAction;

#[test]
fn split_keys_round_trip() {
    assert_eq!(options_str(&Split::ManualSplit), "ManualSplit");
    assert_eq!(options_value::<Split>("ManualSplit"), Some(Split::ManualSplit));
    assert_eq!(options_value::<Split>("NotASplit"), None);
    assert_eq!(Split::radio_button_options().len(), SPLIT_COUNT);
}

#[test]
fn every_split_key_names_it() {
    for o in Split::radio_button_options() {
        assert_eq!(options_value::<Split>(o.key), Some(o.value));
        assert_eq!(options_str(&o.value), o.key);
    }
}

#[test]
fn timing_and_hits_keys() {
    assert_eq!(options_str(&TimingMethod::LoadRemovedTime), "LoadRemovedTime");
    assert_eq!(options_str(&HitsMethod::NoHits), "None");
    assert_eq!(options_value::<HitsMethod>("HitsDamage"), Some(HitsMethod::HitsDamage));
    assert_eq!(options_value::<TimingMethod>("HitsDreamFalls"), Some(TimingMethod::HitsDreamFalls));
    assert_eq!(options_str(&ListItemAction::MoveBefore), "MoveBefore");
}

#[test]
fn normalize_keeps_keys_and_unknowns() {
    assert_eq!(options_normalize::<Split>("ManualSplit"), "ManualSplit");
    assert_eq!(options_normalize::<Split>("whatever"), "whatever");
}

#[test]
fn bool_key_joins() {
    let o = RadioButtonOption { value: Split::Menu, key: "Menu", alias: None, description: "Main Menu", tooltip: None };
    assert_eq!(o.bool_key("splits_0_item"), "splits_0_item_Menu");
}

#[test]
fn default_value_from_args() {
    let mut args = RadioButtonArgs::default();
    assert_eq!(args.default_value::<TimingMethod>(), TimingMethod::LoadRemovedTime);
    args.default = "HitsDamage";
    assert_eq!(args.default_value::<TimingMethod>(), TimingMethod::HitsDamage);
}

#[test]
fn single_true_entry() {
    assert_eq!(single_from_bool_map(&[(1, false), (2, true), (3, false)]), Some(2));
    assert_eq!(single_from_bool_map(&[(1, true), (2, true)]), None);
    assert_eq!(single_from_bool_map::<i32>(&[]), None);
}

#[test]
fn radio_button_choice() {
    let d = TimingMethod::LoadRemovedTime;
    assert_eq!(
        RadioButton::<TimingMethod>::update_choice(d, d, &vec![None, Some(true), None]),
        TimingMethod::HitsDreamFalls
    );
    assert_eq!(
        RadioButton::<TimingMethod>::update_choice(TimingMethod::HitsDamage, d, &vec![None, None, Some(false)]),
        d
    );
    assert_eq!(
        RadioButton::<TimingMethod>::update_choice(TimingMethod::HitsDamage, d, &vec![Some(true), Some(true), None]),
        TimingMethod::HitsDamage
    );
}

#[test]
fn split_lists_compare() {
    assert!(same_splits(&[Split::Menu], &[Split::Menu]));
    assert!(!same_splits(&[Split::Menu], &[Split::Menu, Split::Menu]));
    assert!(!same_splits(&[Split::Menu], &[Split::EndingA]));
}
