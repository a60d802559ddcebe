use hollowknight_autosplit_wasm::option_attrs::{
    lines_description_tooltip, option_attrs, variant_option, Attr, OptionAttrs,
};

fn name_value(name: &str, value: &str) -> Attr {
    Attr::NameValueStr { name: name.to_string(), value: value.to_string() }
}

fn doc(line: &str) -> Attr {
    name_value("doc", line)
}

#[test]
fn attrs_rename() {
    let attrs = vec![name_value("rename", "mapCrossroads")];
    assert_eq!(
        option_attrs(&attrs),
        OptionAttrs {
            rename: Some("mapCrossroads".to_string()),
            alias: None,
            description: "".to_string(),
            tooltip: "".to_string(),
        }
    );
}

#[test]
fn attrs_alias() {
    let attrs = vec![name_value("alias", "LegacyEnd")];
    assert_eq!(
        option_attrs(&attrs),
        OptionAttrs {
            rename: None,
            alias: Some("LegacyEnd".to_string()),
            description: "".to_string(),
            tooltip: "".to_string(),
        }
    );
}

#[test]
fn attrs_rename_alias() {
    let attrs = vec![name_value("rename", "mapCrossroads"), name_value("alias", "MapCrossroads")];
    assert_eq!(
        option_attrs(&attrs),
        OptionAttrs {
            rename: Some("mapCrossroads".to_string()),
            alias: Some("MapCrossroads".to_string()),
            description: "".to_string(),
            tooltip: "".to_string(),
        }
    );
}

#[test]
fn attrs_none() {
    assert_eq!(lines_description_tooltip(&[]), ("".to_string(), "".to_string(),));
    let attrs: Vec<Attr> = vec![];
    assert_eq!(
        option_attrs(&attrs),
        OptionAttrs {
            rename: None,
            alias: None,
            description: "".to_string(),
            tooltip: "".to_string(),
        }
    );
}

#[test]
fn attrs_description_single() {
    assert_eq!(
        lines_description_tooltip(&["A one-line thing".to_string()]),
        ("A one-line thing".to_string(), "".to_string(),)
    );
    let attrs = vec![doc(" A one-line thing")];
    assert_eq!(
        option_attrs(&attrs),
        OptionAttrs {
            rename: None,
            alias: None,
            description: "A one-line thing".to_string(),
            tooltip: "".to_string(),
        }
    );
}

#[test]
fn attrs_description_multi_single() {
    assert_eq!(
        lines_description_tooltip(&[
            "This is a description spanning".to_string(),
            "multiple single-line comments".to_string(),
            "without any blank lines in between.".to_string(),
        ]),
        (
            "This is a description spanning multiple single-line comments without any blank lines in between.".to_string(),
            "".to_string(),
        ),
    );
    let attrs = vec![
        doc(" This is a description spanning"),
        doc(" multiple single-line comments"),
        doc(" without any blank lines in between."),
    ];
    assert_eq!(option_attrs(&attrs), OptionAttrs {
        rename: None,
        alias: None,
        description: "This is a description spanning multiple single-line comments without any blank lines in between.".to_string(),
        tooltip: "".to_string(),
    });
}

#[test]
fn attrs_description_tooltip_multi_single() {
    assert_eq!(
        lines_description_tooltip(&[
            "This is a description spanning".to_string(),
            "multiple single-line comments".to_string(),
            "without any blank lines in between.".to_string(),
            "".to_string(),
            "This is a tooltip, with multiple".to_string(),
            "lines per paragraph.".to_string(),
            "".to_string(),
            "But a tooltip can also have multiple paragraphs,".to_string(),
            "which are interpreted as multiple lines.".to_string(),
        ]),
        (
            "This is a description spanning multiple single-line comments without any blank lines in between.".to_string(),
            "This is a tooltip, with multiple lines per paragraph.\nBut a tooltip can also have multiple paragraphs, which are interpreted as multiple lines.".to_string(),
        ),
    );
    let attrs = vec![
        doc(" This is a description spanning"),
        doc(" multiple single-line comments"),
        doc(" without any blank lines in between."),
        doc(""),
        doc(" This is a tooltip, with multiple"),
        doc(" lines per paragraph."),
        doc(""),
        doc(" But a tooltip can also have multiple paragraphs,"),
        doc(" which are interpreted as multiple lines."),
    ];
    assert_eq!(option_attrs(&attrs), OptionAttrs {
        rename: None,
        alias: None,
        description: "This is a description spanning multiple single-line comments without any blank lines in between.".to_string(),
        tooltip: "This is a tooltip, with multiple lines per paragraph.\nBut a tooltip can also have multiple paragraphs, which are interpreted as multiple lines.".to_string(),
    });
}

#[test]
fn attrs_description_tooltip_multi_blank() {
    assert_eq!(
        lines_description_tooltip(&[
            "This is a description spanning".to_string(),
            "multiple single-line comments".to_string(),
            "without any blank lines in between.".to_string(),
            "".to_string(),
            "".to_string(),
            "This is a tooltip, after multiple".to_string(),
            "blank lines.".to_string(),
            "".to_string(),
            "".to_string(),
            "And a continuation after even more blank lines.".to_string(),
        ]),
        (
            "This is a description spanning multiple single-line comments without any blank lines in between.".to_string(),
            "This is a tooltip, after multiple blank lines.\n\nAnd a continuation after even more blank lines.".to_string(),
        ),
    );
    let attrs = vec![
        doc(" This is a description spanning"),
        doc(" multiple single-line comments"),
        doc(" without any blank lines in between."),
        doc(""),
        doc(""),
        doc(" This is a tooltip, after multiple"),
        doc(" blank lines."),
        doc(""),
        doc(""),
        doc(" And a continuation after even more blank lines."),
    ];
    assert_eq!(option_attrs(&attrs), OptionAttrs {
        rename: None,
        alias: None,
        description: "This is a description spanning multiple single-line comments without any blank lines in between.".to_string(),
        tooltip: "This is a tooltip, after multiple blank lines.\n\nAnd a continuation after even more blank lines.".to_string(),
    });
}

#[test]
fn other_attributes_are_ignored() {
    let attrs = vec![Attr::Other, name_value("default", "x"), doc(" Kept")];
    let oa = option_attrs(&attrs);
    assert_eq!(oa.description, "Kept");
    assert_eq!(oa.rename, None);
}

#[test]
fn first_rename_wins_and_values_are_trimmed() {
    let attrs = vec![name_value("rename", "  first "), name_value("rename", "second")];
    assert_eq!(option_attrs(&attrs).rename, Some("first".to_string()));
}

#[test]
fn variant_option_renamed_gets_name_as_alias() {
    let e = variant_option("MapCrossroads", &[name_value("rename", "mapCrossroads")]);
    assert_eq!(e.key, "mapCrossroads");
    assert_eq!(e.alias, Some("MapCrossroads".to_string()));
    assert_eq!(e.description, "mapCrossroads");
    assert_eq!(e.tooltip, None);
}

#[test]
fn variant_option_with_docs() {
    let e = variant_option("Thing", &[doc(" Thing (Event)"), doc(""), doc(" Splits on the thing")]);
    assert_eq!(e.key, "Thing");
    assert_eq!(e.alias, None);
    assert_eq!(e.description, "Thing (Event)");
    assert_eq!(e.tooltip, Some("Splits on the thing".to_string()));
}

#[test]
fn variant_option_alias_kept() {
    let e = variant_option("EndingSplit", &[name_value("alias", "LegacyEnd")]);
    assert_eq!(e.key, "EndingSplit");
    assert_eq!(e.alias, Some("LegacyEnd".to_string()));
}
