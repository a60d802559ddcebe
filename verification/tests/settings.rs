use hollowknight_autosplit_wasm::asr_xml::parse_i64;
use hollowknight_autosplit_wasm::auto_splitter_settings::{
    asr_settings_from_file_text, asr_settings_from_xml_string, settings_at_start, SettingsSource,
};
use hollowknight_autosplit_wasm::option_attrs::trim;
use hollowknight_autosplit_wasm::settings_value::{
    asr_settings_normalize, dict_get, dict_insert, maybe_asr_settings_list_merge,
    maybe_asr_settings_map_merge, maybe_asr_settings_value_merge, SettingsValue,
};
use hollowknight_autosplit_wasm::text::contains_str;

fn s(x: &str) -> SettingsValue {
    SettingsValue::Str(x.to_string())
}

fn entry(k: &str, v: SettingsValue) -> (String, SettingsValue) {
    (k.to_string(), v)
}

#[test]
fn parse_i64_cases() {
    assert_eq!(parse_i64("42"), Some(42));
    assert_eq!(parse_i64("+7"), Some(7));
    assert_eq!(parse_i64("-9223372036854775808"), Some(i64::MIN));
    assert_eq!(parse_i64("9223372036854775807"), Some(i64::MAX));
    assert_eq!(parse_i64("9223372036854775808"), None);
    assert_eq!(parse_i64("123456789012345678901234567890"), None);
    assert_eq!(parse_i64(""), None);
    assert_eq!(parse_i64("-"), None);
    assert_eq!(parse_i64("1a"), None);
    assert_eq!(parse_i64(" 1"), None);
}

#[test]
fn trim_and_contains() {
    assert_eq!(trim("  a b \n"), "a b");
    assert_eq!(trim("\u{3000}x\u{a0}"), "x");
    assert_eq!(trim("   "), "");
    assert!(contains_str("LiveSplit.AutoSplittingRuntime.dll", "AutoSplittingRuntime"));
    assert!(!contains_str("LiveSplit.Other.dll", "AutoSplittingRuntime"));
    assert!(contains_str("abc", ""));
}

#[test]
fn asr_xml_entries() {
    let xml = "<Version>1.0</Version><CustomSettings>\
        <Setting id=\"timing_method\" type=\"string\" value=\"HitsDamage\" />\
        <Setting id=\"splits\" type=\"list\">\
          <Setting type=\"string\" value=\"StartNewGame\" />\
          <Setting type=\"string\">EndingSplit</Setting>\
        </Setting>\
        <Setting id=\"flag\" type=\"bool\"> True </Setting>\
        <Setting id=\"n\" type=\"i64\"> -42 </Setting>\
        <Setting id=\"x\" type=\"f64\">1.5</Setting>\
        <Setting id=\"m\" type=\"map\"><Setting id=\"a\" type=\"bool\">False</Setting></Setting>\
        <Setting id=\"unknown\" type=\"weird\">1</Setting>\
      </CustomSettings>";
    let m = asr_settings_from_xml_string(xml).unwrap();
    assert_eq!(
        m,
        vec![
            entry("timing_method", s("HitsDamage")),
            entry("splits", SettingsValue::List(vec![s("StartNewGame"), s("EndingSplit")])),
            entry("flag", SettingsValue::Bool(true)),
            entry("n", SettingsValue::I64(-42)),
            entry("x", SettingsValue::F64("1.5".to_string())),
            entry("m", SettingsValue::Dict(vec![entry("a", SettingsValue::Bool(false))])),
        ]
    );
}

#[test]
fn legacy_xml_oldest_form() {
    let xml = "<Ordered>True</Ordered><AutosplitEndRuns>False</AutosplitEndRuns>\
        <AutosplitStartRuns>StartNewGame</AutosplitStartRuns>\
        <Splits><Split>MothwingCloak</Split><Split>NotASplit</Split></Splits>";
    let m = asr_settings_from_xml_string(xml).unwrap();
    assert_eq!(
        m,
        vec![entry(
            "splits",
            SettingsValue::List(vec![s("StartNewGame"), s("MothwingCloak"), s("EndingSplit")])
        )]
    );
}

#[test]
fn legacy_xml_ends_by_itself() {
    let xml = "<AutosplitEndRuns>True</AutosplitEndRuns><Splits><Split>Menu</Split></Splits>";
    let m = asr_settings_from_xml_string(xml).unwrap();
    assert_eq!(m, vec![entry("splits", SettingsValue::List(vec![s("LegacyStart"), s("Menu")]))]);
}

#[test]
fn legacy_xml_newer_form() {
    let xml = "<Splits><Split>StartNewGame</Split><Split>EndingA</Split></Splits>\
        <TimingMethod>HitsDamage</TimingMethod><HitCounter>Bogus</HitCounter>";
    let m = asr_settings_from_xml_string(xml).unwrap();
    assert_eq!(
        m,
        vec![
            entry("splits", SettingsValue::List(vec![s("StartNewGame"), s("EndingA")])),
            entry("timing_method", s("HitsDamage")),
            entry("hit_counter", s("None")),
        ]
    );
}

#[test]
fn legacy_xml_without_splits() {
    assert!(asr_settings_from_xml_string("<TimingMethod>HitsDamage</TimingMethod>").is_none());
    assert!(asr_settings_from_xml_string("<unclosed>").is_none());
}

#[test]
fn splits_file_settings() {
    let text = "<Run><AutoSplitterSettings><Splits><Split>StartNewGame</Split></Splits>\
        </AutoSplitterSettings></Run>";
    let m = asr_settings_from_file_text(text).unwrap();
    assert_eq!(m, vec![entry("splits", SettingsValue::List(vec![s("StartNewGame")]))]);
}

#[test]
fn layout_file_settings() {
    let text = "<Layout><Components>\
        <Component><Path>LiveSplit.Timer.dll</Path><Settings></Settings></Component>\
        <Component><Path>LiveSplit.AutoSplittingRuntime.dll</Path><Settings><CustomSettings>\
        <Setting id=\"splits\" type=\"list\"><Setting type=\"string\" value=\"Menu\" /></Setting>\
        </CustomSettings></Settings></Component></Components></Layout>";
    let m = asr_settings_from_file_text(text).unwrap();
    assert_eq!(m, vec![entry("splits", SettingsValue::List(vec![s("Menu")]))]);
    assert!(asr_settings_from_file_text("<Other/>").is_none());
}

#[test]
fn merge_values() {
    let old = vec![entry("a", SettingsValue::Bool(true)), entry("keep", SettingsValue::I64(1))];
    let new = vec![entry("a", SettingsValue::Bool(false)), entry("b", s("x"))];
    let m = maybe_asr_settings_map_merge(Some(&old), &new);
    assert_eq!(
        m,
        vec![
            entry("a", SettingsValue::Bool(false)),
            entry("keep", SettingsValue::I64(1)),
            entry("b", s("x")),
        ]
    );
    let same_len = maybe_asr_settings_list_merge(Some(&vec![s("o1"), s("o2")]), &vec![s("n1"), s("n2")]);
    assert_eq!(same_len, vec![s("n1"), s("n2")]);
    let nested_old = SettingsValue::Dict(vec![entry("k", SettingsValue::I64(3)), entry("z", SettingsValue::I64(9))]);
    let nested_new = SettingsValue::Dict(vec![entry("k", SettingsValue::I64(4))]);
    assert_eq!(
        maybe_asr_settings_value_merge(Some(&nested_old), &nested_new),
        SettingsValue::Dict(vec![entry("k", SettingsValue::I64(4)), entry("z", SettingsValue::I64(9))])
    );
    assert_eq!(
        maybe_asr_settings_value_merge(None, &nested_new),
        SettingsValue::Dict(vec![entry("k", SettingsValue::I64(4))])
    );
}

#[test]
fn dict_operations() {
    let mut d = vec![];
    dict_insert(&mut d, "a".to_string(), SettingsValue::I64(1));
    dict_insert(&mut d, "b".to_string(), SettingsValue::I64(2));
    dict_insert(&mut d, "a".to_string(), SettingsValue::I64(3));
    assert_eq!(d, vec![entry("a", SettingsValue::I64(3)), entry("b", SettingsValue::I64(2))]);
    assert_eq!(dict_get(&d, "b"), Some(&SettingsValue::I64(2)));
    assert_eq!(dict_get(&d, "c"), None);
}

#[test]
fn normalize_unchanged_and_bad() {
    let mut m = vec![entry("splits", SettingsValue::List(vec![s("StartNewGame")]))];
    assert_eq!(asr_settings_normalize(&mut m), None);
    let mut bad = vec![entry("splits", SettingsValue::List(vec![SettingsValue::I64(1)]))];
    assert_eq!(asr_settings_normalize(&mut bad), None);
    let mut none: Vec<(String, SettingsValue)> = vec![];
    assert_eq!(asr_settings_normalize(&mut none), None);
}

#[test]
fn start_up_settings() {
    let stored = vec![entry("splits", SettingsValue::List(vec![s("Menu")]))];
    let (m, src) = settings_at_start(stored);
    assert!(matches!(src, SettingsSource::Stored(false)));
    assert_eq!(m.len(), 1);

    let raw = vec![entry("legacy_raw_xml", s("<Splits><Split>Menu</Split></Splits>"))];
    let (m, src) = settings_at_start(raw);
    assert!(matches!(src, SettingsSource::LegacyRawXml));
    assert_eq!(m, vec![entry("splits", SettingsValue::List(vec![s("Menu")]))]);

    let (m, src) = settings_at_start(vec![]);
    assert!(matches!(src, SettingsSource::Nothing));
    assert!(m.is_empty());
}
