//! Finding the auto splitter's settings: in the timer host's store, in a
//! splits or layout file, or in the XML that older versions kept.

use vstd::prelude::*;

use crate::asr_xml::{ints, spec_asr_settings_from_xml_nodes};
use crate::asr_xml;
use crate::legacy_xml::spec_legacy_settings;
use crate::legacy_xml;
use crate::settings_value::{
    asr_settings_normalize,
    dict_get,
    spec_dict_get,
    spec_normalize,
    svd,
    SValue,
    SettingsValue,
};
use crate::text::{contains_str, spec_contains, str_eq};
use crate::xml::{
    first_tagged,
    lemma_children_in_range,
    parse_xml,
    spec_children,
    spec_root_element,
    xml_parse,
    XmlDoc,
    XmlItemView,
    XmlKind,
};

verus! {

/// One of the nodes is named `Version`, `ScriptPath` or `CustomSettings`:
/// the settings come from the timer host rather than an older auto splitter.
pub open spec fn spec_any_from_asr(d: Seq<XmlItemView>, nodes: Seq<int>) -> bool {
    exists|i: int|
        0 <= i < nodes.len() && (#[trigger] d[nodes[i]].name == "Version"@ || d[nodes[i]].name
            == "ScriptPath"@ || d[nodes[i]].name == "CustomSettings"@)
}

/// Whether one of the nodes is named `Version`, `ScriptPath` or `CustomSettings`.
pub fn any_xml_nodes_from_asr(doc: &XmlDoc, nodes: &Vec<usize>) -> (r: bool)
    requires
        forall|i: int| 0 <= i < nodes@.len() ==> nodes@[i] < doc@.len(),
    ensures
        r == spec_any_from_asr(doc@, ints(nodes@)),
{
    let ghost s = ints(nodes@);
    let mut i: usize = 0;
    while i < nodes.len()
        invariant
            s == ints(nodes@),
            forall|j: int| 0 <= j < nodes@.len() ==> nodes@[j] < doc@.len(),
            i <= nodes@.len(),
            forall|j: int|
                0 <= j < i ==> !(#[trigger] doc@[s[j]].name == "Version"@ || doc@[s[j]].name
                    == "ScriptPath"@ || doc@[s[j]].name == "CustomSettings"@),
        decreases nodes@.len() - i,
    {
        let n = doc.name(nodes[i]);
        assert(s[i as int] == nodes@[i as int] as int);
        if str_eq(n, "Version") || str_eq(n, "ScriptPath") || str_eq(n, "CustomSettings") {
            return true;
        }
        i = i + 1;
    }
    false
}

/// The settings that XML nodes hold: in the timer host's form when one of
/// them says so, else in the form of the older auto splitters.
pub open spec fn spec_settings_from_nodes(d: Seq<XmlItemView>, nodes: Seq<int>, fuel: nat) -> Option<
    Seq<(Seq<char>, SValue)>,
> {
    if spec_any_from_asr(d, nodes) {
        spec_asr_settings_from_xml_nodes(d, nodes, fuel)
    } else {
        spec_legacy_settings(d, nodes)
    }
}

/// Reads the settings that XML nodes hold.
pub fn asr_settings_from_xml_nodes(doc: &XmlDoc, nodes: &Vec<usize>, fuel: usize) -> (r: Option<
    Vec<(String, SettingsValue)>,
>)
    requires
        forall|i: int| 0 <= i < nodes@.len() ==> nodes@[i] < doc@.len(),
    ensures
        match r {
            Some(m) => spec_settings_from_nodes(doc@, ints(nodes@), fuel as nat) == Some(svd(m@)),
            None => spec_settings_from_nodes(doc@, ints(nodes@), fuel as nat) is None,
        },
{
    if any_xml_nodes_from_asr(doc, nodes) {
        asr_xml::asr_settings_from_xml_nodes(doc, nodes, fuel)
    } else {
        legacy_xml::asr_settings_from_xml_nodes(doc, nodes)
    }
}

/// The one child of the first `Path` child of the component at position `e`
/// has text that names the timer host's auto-splitting runtime.
pub open spec fn spec_component_is_asr(d: Seq<XmlItemView>, e: int) -> bool {
    match first_tagged(d, spec_children(d, e), "Path"@, 0) {
        None => false,
        Some(p) => {
            let cs = spec_children(d, p);
            cs.len() == 1 && match d[cs[0]].text {
                Some(s) => spec_contains(s, "LiveSplit.AutoSplittingRuntime"@),
                None => false,
            }
        },
    }
}

/// Whether the layout component at position `e` is the timer host's
/// auto-splitting runtime.
pub fn component_is_asr(doc: &XmlDoc, e: usize) -> (r: bool)
    requires
        e < doc@.len(),
    ensures
        r == spec_component_is_asr(doc@, e as int),
{
    proof {
        reveal_strlit("Path");
    }
    let ks = doc.children(e);
    proof {
        assert(ks@.map_values(|x: usize| x as int) =~= spec_children(doc@, e as int));
    }
    let p = match doc.first_tagged(&ks, "Path") {
        Some(p) => p,
        None => return false,
    };
    proof {
        lemma_children_in_range(doc@, doc@[e as int].id, doc@.len() as int);
    }
    let cs = doc.children(p);
    if cs.len() != 1 {
        return false;
    }
    match doc.text(cs[0]) {
        Some(s) => contains_str(s, "LiveSplit.AutoSplittingRuntime"),
        None => false,
    }
}

/// The nodes that hold the auto splitter's settings in the document element
/// at position `k`, looking at most `fuel` levels deep: the children of an
/// `AutoSplitterSettings` element; in a splits file (`Run`), those of its
/// `AutoSplitterSettings`; in a layout, those found in the first of its
/// `Components` that has any; in the runtime's component, those of its
/// `Settings`.
pub open spec fn spec_find_settings(d: Seq<XmlItemView>, k: int, fuel: nat) -> Option<Seq<int>>
    decreases fuel, 0int,
{
    if fuel == 0 || !(0 <= k < d.len()) || d[k].kind != XmlKind::Element {
        None
    } else if d[k].name == "AutoSplitterSettings"@ {
        Some(spec_children(d, k))
    } else if d[k].name == "Run"@ {
        match first_tagged(d, spec_children(d, k), "AutoSplitterSettings"@, 0) {
            Some(a) => Some(spec_children(d, a)),
            None => None,
        }
    } else if d[k].name == "Layout"@ {
        match first_tagged(d, spec_children(d, k), "Components"@, 0) {
            Some(c) => spec_find_first(d, spec_children(d, c), (fuel - 1) as nat, 0),
            None => None,
        }
    } else if d[k].name == "Component"@ && spec_component_is_asr(d, k) {
        match first_tagged(d, spec_children(d, k), "Settings"@, 0) {
            Some(s) => Some(spec_children(d, s)),
            None => None,
        }
    } else {
        None
    }
}

/// The settings nodes in the first of `ks` from index `i` on that has any.
pub open spec fn spec_find_first(d: Seq<XmlItemView>, ks: Seq<int>, fuel: nat, i: int) -> Option<Seq<int>>
    decreases fuel, ks.len() - i + 1,
{
    if i < 0 || i >= ks.len() {
        None
    } else {
        match spec_find_settings(d, ks[i], fuel) {
            Some(r) => Some(r),
            None => spec_find_first(d, ks, fuel, i + 1),
        }
    }
}

/// Finds the nodes that hold the auto splitter's settings in the element at
/// position `k`, looking at most `fuel` levels deep.
pub fn xml_find_auto_splitter_settings(doc: &XmlDoc, k: usize, fuel: usize) -> (r: Option<Vec<usize>>)
    ensures
        match r {
            Some(v) => spec_find_settings(doc@, k as int, fuel as nat) == Some(ints(v@))
                && forall|i: int| 0 <= i < v@.len() ==> v@[i] < doc@.len(),
            None => spec_find_settings(doc@, k as int, fuel as nat) is None,
        },
    decreases fuel, 0int,
{
    proof {
        reveal_strlit("AutoSplitterSettings");
        reveal_strlit("Run");
        reveal_strlit("Layout");
        reveal_strlit("Components");
        reveal_strlit("Component");
        reveal_strlit("Settings");
    }
    if fuel == 0 || k >= doc.len() || !doc.is_element(k) {
        return None;
    }
    let ks = doc.children(k);
    proof {
        assert(ints(ks@) =~= spec_children(doc@, k as int));
        lemma_children_in_range(doc@, doc@[k as int].id, doc@.len() as int);
    }
    let name = doc.name(k);
    if str_eq(name, "AutoSplitterSettings") {
        return Some(ks);
    }
    if str_eq(name, "Run") {
        return match doc.first_tagged(&ks, "AutoSplitterSettings") {
            Some(a) => {
                let v = doc.children(a);
                proof {
                    assert(ints(v@) =~= spec_children(doc@, a as int));
                }
                Some(v)
            },
            None => None,
        };
    }
    if str_eq(name, "Layout") {
        return match doc.first_tagged(&ks, "Components") {
            Some(c) => {
                let cs = doc.children(c);
                proof {
                    assert(ints(cs@) =~= spec_children(doc@, c as int));
                }
                find_first(doc, &cs, fuel - 1)
            },
            None => None,
        };
    }
    if str_eq(name, "Component") && component_is_asr(doc, k) {
        return match doc.first_tagged(&ks, "Settings") {
            Some(s) => {
                let v = doc.children(s);
                proof {
                    assert(ints(v@) =~= spec_children(doc@, s as int));
                }
                Some(v)
            },
            None => None,
        };
    }
    None
}

/// The settings nodes in the first of `ks` that has any.
fn find_first(doc: &XmlDoc, ks: &Vec<usize>, fuel: usize) -> (r: Option<Vec<usize>>)
    ensures
        match r {
            Some(v) => spec_find_first(doc@, ints(ks@), fuel as nat, 0) == Some(ints(v@))
                && forall|i: int| 0 <= i < v@.len() ==> v@[i] < doc@.len(),
            None => spec_find_first(doc@, ints(ks@), fuel as nat, 0) is None,
        },
    decreases fuel, ks@.len() + 1,
{
    let ghost s = ints(ks@);
    let mut i: usize = 0;
    while i < ks.len()
        invariant
            s == ints(ks@),
            i <= ks@.len(),
            spec_find_first(doc@, s, fuel as nat, 0) == spec_find_first(doc@, s, fuel as nat, i as int),
        decreases ks@.len() - i,
    {
        assert(s[i as int] == ks@[i as int] as int);
        match xml_find_auto_splitter_settings(doc, ks[i], fuel) {
            Some(v) => {
                return Some(v);
            },
            None => {},
        }
        i = i + 1;
    }
    None
}

/// The settings in XML text that older versions kept: the text is read as the
/// children of an `AutoSplitterSettings` element.
pub open spec fn spec_settings_from_xml_string(xml: Seq<char>) -> Option<Seq<(Seq<char>, SValue)>> {
    let wrapped = "<AutoSplitterSettings>"@ + xml + "</AutoSplitterSettings>"@;
    match xml_parse(wrapped) {
        None => None,
        Some(d) => match spec_root_element(d) {
            None => None,
            Some(r) => spec_settings_from_nodes(d, spec_children(d, r), d.len()),
        },
    }
}

/// Reads the settings in XML text that older versions kept.
pub fn asr_settings_from_xml_string(xml_string: &str) -> (r: Option<Vec<(String, SettingsValue)>>)
    ensures
        match r {
            Some(m) => spec_settings_from_xml_string(xml_string@) == Some(svd(m@)),
            None => spec_settings_from_xml_string(xml_string@) is None,
        },
{
    let wrapped = String::from_str("<AutoSplitterSettings>");
    let wrapped = wrapped.concat(xml_string);
    let wrapped = wrapped.concat("</AutoSplitterSettings>");
    let doc = match parse_xml(wrapped.as_str()) {
        Some(d) => d,
        None => return None,
    };
    let root = match doc.root_element() {
        Some(r) => r,
        None => return None,
    };
    let nodes = doc.children(root);
    proof {
        assert(ints(nodes@) =~= spec_children(doc@, root as int));
    }
    asr_settings_from_xml_nodes(&doc, &nodes, doc.len())
}

/// The settings in a splits or layout file's text: found in its document
/// element, then normalized.
pub open spec fn spec_settings_from_file_text(text: Seq<char>) -> Option<Seq<(Seq<char>, SValue)>> {
    match xml_parse(text) {
        None => None,
        Some(d) => match spec_root_element(d) {
            None => None,
            Some(r) => match spec_find_settings(d, r, d.len()) {
                None => None,
                Some(nodes) => match spec_settings_from_nodes(d, nodes, d.len()) {
                    None => None,
                    Some(m) => Some(spec_normalize(m).0),
                },
            },
        },
    }
}

/// Reads the settings in a splits or layout file's text.
pub fn asr_settings_from_file_text(text: &str) -> (r: Option<Vec<(String, SettingsValue)>>)
    ensures
        match r {
            Some(m) => spec_settings_from_file_text(text@) == Some(svd(m@)),
            None => spec_settings_from_file_text(text@) is None,
        },
{
    let doc = match parse_xml(text) {
        Some(d) => d,
        None => return None,
    };
    let root = match doc.root_element() {
        Some(r) => r,
        None => return None,
    };
    let nodes = match xml_find_auto_splitter_settings(&doc, root, doc.len()) {
        Some(v) => v,
        None => return None,
    };
    let mut m = match asr_settings_from_xml_nodes(&doc, &nodes, doc.len()) {
        Some(m) => m,
        None => return None,
    };
    asr_settings_normalize(&mut m);
    Some(m)
}

/// Where the settings at start-up come from.
pub enum SettingsSource {
    /// The timer host's stored settings, which list splits; `true` when they
    /// were normalized and should be stored again.
    Stored(bool),
    /// The XML that an older version kept in the stored settings; to be stored.
    LegacyRawXml,
    /// No settings were found.
    Nothing,
}

/// The stored settings list at least one split.
pub open spec fn spec_has_splits(m: Seq<(Seq<char>, SValue)>) -> bool {
    match spec_dict_get(m, "splits"@) {
        Some(SValue::List(l)) => l.len() > 0,
        _ => false,
    }
}

/// The start-up settings from the stored ones `stored`: when they list
/// splits, they are used, normalized; else the settings in the XML that an
/// older version kept under `legacy_raw_xml`, when there are any; else the
/// stored settings as they are.
pub fn settings_at_start(stored: Vec<(String, SettingsValue)>) -> (r: (
    Vec<(String, SettingsValue)>,
    SettingsSource,
))
    ensures
        spec_has_splits(svd(stored@)) ==> {
            &&& r.1 matches SettingsSource::Stored(changed)
            &&& (svd(r.0@), if changed {
                Some(())
            } else {
                None
            }) == spec_normalize(svd(stored@))
        },
        !spec_has_splits(svd(stored@)) ==> match spec_dict_get(svd(stored@), "legacy_raw_xml"@) {
            Some(SValue::Str(x)) if spec_settings_from_xml_string(x) is Some => r.1 is LegacyRawXml
                && spec_settings_from_xml_string(x) == Some(svd(r.0@)),
            _ => r.1 is Nothing && svd(r.0@) == svd(stored@),
        },
{
    proof {
        reveal_strlit("splits");
        reveal_strlit("legacy_raw_xml");
    }
    let has_splits = match dict_get(&stored, "splits") {
        Some(SettingsValue::List(l)) => {
            proof {
                crate::settings_value::lemma_svs_len_pub(l@);
            }
            l.len() > 0
        },
        _ => false,
    };
    if has_splits {
        let mut m = stored;
        let changed = asr_settings_normalize(&mut m).is_some();
        return (m, SettingsSource::Stored(changed));
    }
    let from_raw = match dict_get(&stored, "legacy_raw_xml") {
        Some(SettingsValue::Str(x)) => asr_settings_from_xml_string(x.as_str()),
        _ => None,
    };
    match from_raw {
        Some(m) => (m, SettingsSource::LegacyRawXml),
        None => (stored, SettingsSource::Nothing),
    }
}

} // verus!
