use hollowknight_autosplit_wasm::list_settings::{list_key, update_list_settings};
use hollowknight_autosplit_wasm::radio_button::{RadioButton, RadioButtonArgs};
use hollowknight_autosplit_wasm::settings_gui::{HitsMethod, SettingsGui, TimingMethod};
use hollowknight_autosplit_wasm::settings_value::{dict_get, SettingsValue};
use hollowknight_autosplit_wasm::splits::Split;
use hollowknight_autosplit_wasm::store::{
    choice_read, insert_bool_into, insert_choice_into, map_get_bool, map_get_str,
};
use hollowknight_autosplit_wasm::ugly_list::{ListItemAction, UglyList};

type Settings = Vec<(String, SettingsValue)>;

fn s(x: &str) -> SettingsValue {
    SettingsValue::Str(x.to_string())
}

fn entry(k: &str, v: SettingsValue) -> (String, SettingsValue) {
    (k.to_string(), v)
}

fn list_map(items: &[&str]) -> Settings {
    let mut m = vec![entry("splits", SettingsValue::List(items.iter().map(|x| s(x)).collect()))];
    for (i, x) in items.iter().enumerate() {
        m.push(entry(&format!("splits_{}_item", i), s(x)));
    }
    m
}

fn stored_list(m: &Settings) -> Vec<String> {
    match dict_get(m, "splits") {
        Some(SettingsValue::List(l)) => l
            .iter()
            .map(|v| match v {
                SettingsValue::Str(x) => x.clone(),
                other => format!("{:?}", other),
            })
            .collect(),
        other => panic!("no list: {:?}", other),
    }
}

#[test]
fn list_key_format() {
    assert_eq!(list_key("splits", 12, "_item"), "splits_12_item");
    assert_eq!(list_key("splits", 0, "_action"), "splits_0_action");
}

#[test]
fn map_reads() {
    let m = vec![entry("a", SettingsValue::Bool(true)), entry("b", s("x"))];
    assert_eq!(map_get_bool(&m, "a"), Some(true));
    assert_eq!(map_get_bool(&m, "b"), None);
    assert_eq!(map_get_str(&m, "b"), Some("x"));
    assert_eq!(map_get_str(&m, "a"), None);
    assert_eq!(map_get_str(&m, "c"), None);
}

#[test]
fn insert_bool_only_when_different() {
    let mut m: Settings = vec![];
    assert!(insert_bool_into(true, &mut m, "a"));
    assert!(!insert_bool_into(true, &mut m, "a"));
    assert!(insert_bool_into(false, &mut m, "a"));
    assert_eq!(m, vec![entry("a", SettingsValue::Bool(false))]);
}

#[test]
fn insert_choice_only_when_different() {
    let mut m: Settings = vec![];
    assert!(insert_choice_into(&HitsMethod::NoHits, &mut m, "hit_counter"));
    assert_eq!(map_get_str(&m, "hit_counter"), Some("None"));
    assert!(!insert_choice_into(&HitsMethod::NoHits, &mut m, "hit_counter"));
    assert!(insert_choice_into(&HitsMethod::HitsDamage, &mut m, "hit_counter"));
    assert_eq!(m.len(), 1);
}

#[test]
fn choice_read_defaults() {
    let m = vec![entry("t", s("HitsDamage")), entry("u", s("nonsense"))];
    assert_eq!(choice_read::<TimingMethod>(&m, "t"), TimingMethod::HitsDamage);
    assert_eq!(choice_read::<TimingMethod>(&m, "u"), TimingMethod::LoadRemovedTime);
    assert_eq!(choice_read::<TimingMethod>(&m, "v"), TimingMethod::LoadRemovedTime);
}

#[test]
fn radio_button_follows_changed_box() {
    let mut rb = RadioButton(ListItemAction::NoAction);
    let m = vec![
        entry("a", s("None")),
        entry("a_None", SettingsValue::Bool(true)),
        entry("a_Remove", SettingsValue::Bool(true)),
    ];
    rb.update_from(&m, "a", &RadioButtonArgs::default());
    assert_eq!(rb.0, ListItemAction::Remove);
    let m = vec![entry("a", s("Remove")), entry("a_Remove", SettingsValue::Bool(false))];
    rb.update_from(&m, "a", &RadioButtonArgs::default());
    assert_eq!(rb.0, ListItemAction::NoAction);
}

#[test]
fn radio_button_insert_writes_boxes() {
    let rb = RadioButton(ListItemAction::MoveAfter);
    let mut m: Settings = vec![];
    assert!(rb.insert_into(&mut m, "a"));
    assert_eq!(map_get_str(&m, "a"), Some("MoveAfter"));
    assert_eq!(map_get_bool(&m, "a_MoveAfter"), Some(true));
    assert_eq!(map_get_bool(&m, "a_None"), Some(false));
    assert_eq!(m.len(), 7);
    assert!(!rb.insert_into(&mut m, "a"));
}

#[test]
fn list_without_actions_stays() {
    let mut m = list_map(&["StartNewGame", "BenchAny"]);
    assert_eq!(update_list_settings(&mut m, "splits"), 2);
    assert_eq!(stored_list(&m), vec!["StartNewGame", "BenchAny"]);
    assert_eq!(map_get_bool(&m, "splits_insert_0"), Some(false));
}

#[test]
fn list_fills_missing_items() {
    let mut m = vec![entry("splits", SettingsValue::List(vec![s("KingsPass")]))];
    assert_eq!(update_list_settings(&mut m, "splits"), 1);
    assert_eq!(map_get_str(&m, "splits_0_item"), Some("KingsPass"));
}

#[test]
fn list_remove_first() {
    let mut m = list_map(&["StartNewGame", "BenchAny"]);
    m.push(entry("splits_0_action", s("Remove")));
    m.push(entry("splits_0_action_Remove", SettingsValue::Bool(true)));
    assert_eq!(update_list_settings(&mut m, "splits"), 1);
    assert_eq!(stored_list(&m), vec!["BenchAny"]);
    assert_eq!(map_get_str(&m, "splits_0_item"), Some("BenchAny"));
}

#[test]
fn list_move_after() {
    let mut m = list_map(&["StartNewGame", "BenchAny", "KingsPass"]);
    m.push(entry("splits_0_action", s("MoveAfter")));
    assert_eq!(update_list_settings(&mut m, "splits"), 3);
    assert_eq!(stored_list(&m), vec!["BenchAny", "StartNewGame", "KingsPass"]);
    assert_eq!(map_get_str(&m, "splits_1_action"), Some("None"));
}

#[test]
fn list_insert_at_front() {
    let mut m = list_map(&["StartNewGame", "BenchAny"]);
    m.push(entry("splits_insert_0", SettingsValue::Bool(true)));
    assert_eq!(update_list_settings(&mut m, "splits"), 3);
    assert_eq!(stored_list(&m), vec!["StartNewGame", "StartNewGame", "BenchAny"]);
    assert_eq!(map_get_str(&m, "splits_0_action"), Some("None"));
}

#[test]
fn ugly_list_reads_items() {
    let mut l: UglyList<Split> = UglyList::new();
    let mut m = list_map(&["StartNewGame", "BenchAny"]);
    l.update_from(&mut m, "splits");
    let items: Vec<Split> = l.get_list().into_iter().copied().collect();
    assert_eq!(items, vec![Split::StartNewGame, Split::BenchAny]);
}

#[test]
fn settings_gui_reads_all() {
    let mut g = SettingsGui::new();
    let mut m = list_map(&["StartNewGame", "BenchAny"]);
    m.push(entry("timing_method", s("HitsDreamFalls")));
    m.push(entry("hit_counter", s("HitsDamage")));
    g.update_from(&mut m);
    assert_eq!(g.get_timing_method(), TimingMethod::HitsDreamFalls);
    assert_eq!(g.get_hit_counter(), HitsMethod::HitsDamage);
    assert_eq!(g.get_splits(), vec![Split::StartNewGame, Split::BenchAny]);
    assert!(!g.insert_into(&mut m));
    g.hit_counter = HitsMethod::NoHits;
    assert!(g.insert_into(&mut m));
    assert_eq!(map_get_str(&m, "hit_counter"), Some("None"));
}

#[test]
fn stored_choices_read_back() {
    for v in [TimingMethod::LoadRemovedTime, TimingMethod::HitsDreamFalls, TimingMethod::HitsDamage] {
        let mut m: Settings = vec![entry("timing_method", s("HitsDamage"))];
        insert_choice_into(&v, &mut m, "timing_method");
        assert_eq!(choice_read::<TimingMethod>(&m, "timing_method"), v);
    }
    for v in [HitsMethod::NoHits, HitsMethod::HitsDreamFalls, HitsMethod::HitsDamage] {
        let mut m: Settings = vec![];
        insert_choice_into(&v, &mut m, "hit_counter");
        assert_eq!(choice_read::<HitsMethod>(&m, "hit_counter"), v);
    }
    let mut m: Settings = vec![];
    insert_bool_into(true, &mut m, "b");
    assert_eq!(map_get_bool(&m, "b"), Some(true));
}

#[test]
fn stored_actions_read_back() {
    let all = [
        ListItemAction::NoAction,
        ListItemAction::Remove,
        ListItemAction::MoveBefore,
        ListItemAction::MoveAfter,
        ListItemAction::InsertBefore,
        ListItemAction::InsertAfter,
    ];
    for v in all {
        let mut m: Settings = vec![entry("a", s("Remove")), entry("a_Remove", SettingsValue::Bool(true))];
        if v == ListItemAction::Remove {
            m = vec![];
        }
        assert!(RadioButton(v).insert_into(&mut m, "a"));
        let mut rb = RadioButton(ListItemAction::NoAction);
        rb.update_from_default(&m, "a", ListItemAction::NoAction);
        assert_eq!(rb.0, v);
    }
}
