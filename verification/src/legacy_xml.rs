//! Settings of the older Hollow Knight auto splitters, written as XML: the
//! list of splits (with start and end options in the oldest form), the timing
//! method and the hit counter.

use vstd::prelude::*;

use crate::asr_xml::{ints, parse_bool, parse_text, spec_parse_bool, spec_parse_text};
use crate::radio_button::{options_str, options_value, spec_options_str, spec_options_value};
use crate::settings_gui::{HitsMethod, TimingMethod};
use crate::settings_value::{dict_insert, spec_dict_insert, sv, svd, svs, SValue, SettingsValue};
use crate::splits::Split;
use crate::text::str_eq;
use crate::xml::{spec_children, spec_has_tag_name, XmlDoc, XmlItemView};

verus! {

/// A node of the older settings: its name, its children, and which lists
/// hold which items.
pub struct XmlSettings {
    pub name: Option<String>,
    pub children: Vec<usize>,
    pub list_items: Vec<(String, String)>,
}

/// An [`XmlSettings`] over plain values.
pub struct XmlSettingsView {
    pub name: Option<Seq<char>>,
    pub children: Seq<int>,
    pub list_items: Seq<(Seq<char>, Seq<char>)>,
}

impl View for XmlSettings {
    type V = XmlSettingsView;

    open spec fn view(&self) -> XmlSettingsView {
        XmlSettingsView {
            name: match self.name {
                Some(n) => Some(n@),
                None => None,
            },
            children: ints(self.children@),
            list_items: self.list_items@.map_values(|p: (String, String)| (p.0@, p.1@)),
        }
    }
}

/// Every position that `s` names is a node of the document.
pub open spec fn settings_in(d: Seq<XmlItemView>, s: XmlSettingsView) -> bool {
    forall|i: int| 0 <= i < s.children.len() ==> 0 <= #[trigger] s.children[i] < d.len()
}

/// The item name of a list named like `s`, if `s` is such a list.
pub open spec fn item_name_from(items: Seq<(Seq<char>, Seq<char>)>, n: Seq<char>, i: int) -> Option<
    Seq<char>,
>
    decreases items.len() - i,
{
    if i < 0 || i >= items.len() {
        None
    } else if items[i].0 == n {
        Some(items[i].1)
    } else {
        item_name_from(items, n, i + 1)
    }
}

/// The item name of the list `s`, if it is one.
pub open spec fn spec_list_item_name(s: XmlSettingsView) -> Option<Seq<char>> {
    match s.name {
        Some(n) => item_name_from(s.list_items, n, 0),
        None => None,
    }
}

/// The settings node of the element at position `c`.
pub open spec fn child_settings(d: Seq<XmlItemView>, c: int, items: Seq<(Seq<char>, Seq<char>)>) -> XmlSettingsView {
    XmlSettingsView { name: Some(d[c].name), children: spec_children(d, c), list_items: items }
}

/// The children of `s` from index `i` on that are elements named `name`, as
/// settings nodes.
pub open spec fn tagged_from(d: Seq<XmlItemView>, s: XmlSettingsView, name: Seq<char>, i: int) -> Seq<
    XmlSettingsView,
>
    decreases s.children.len() - i,
{
    if i < 0 || i >= s.children.len() {
        Seq::empty()
    } else {
        let rest = tagged_from(d, s, name, i + 1);
        if spec_has_tag_name(d, s.children[i], name) {
            seq![child_settings(d, s.children[i], s.list_items)] + rest
        } else {
            rest
        }
    }
}

/// The items of the list `s`, if it is a list.
pub open spec fn spec_as_list(d: Seq<XmlItemView>, s: XmlSettingsView) -> Option<Seq<XmlSettingsView>> {
    match spec_list_item_name(s) {
        Some(i) => Some(tagged_from(d, s, i, 0)),
        None => None,
    }
}

/// The first child of `s` from index `i` on that is an element named `key`.
pub open spec fn get_from(d: Seq<XmlItemView>, s: XmlSettingsView, key: Seq<char>, i: int) -> Option<
    XmlSettingsView,
>
    decreases s.children.len() - i,
{
    if i < 0 || i >= s.children.len() {
        None
    } else if spec_has_tag_name(d, s.children[i], key) {
        Some(child_settings(d, s.children[i], s.list_items))
    } else {
        get_from(d, s, key, i + 1)
    }
}

/// The child of `s` named `key`.
pub open spec fn spec_dict_get(d: Seq<XmlItemView>, s: XmlSettingsView, key: Seq<char>) -> Option<
    XmlSettingsView,
> {
    get_from(d, s, key, 0)
}

/// The option named by the text of `s`.
pub open spec fn spec_split_from_str(d: Seq<XmlItemView>, s: XmlSettingsView) -> Option<Split> {
    match spec_parse_text(d, s.children) {
        Some(t) => spec_options_value::<Split>(t),
        None => None,
    }
}

/// The split of a list item: of its `Split` child, or of itself.
pub open spec fn spec_split_from_split(d: Seq<XmlItemView>, s: XmlSettingsView) -> Option<Split> {
    spec_split_from_str(
        d,
        match spec_dict_get(d, s, "Split"@) {
            Some(c) => c,
            None => s,
        },
    )
}

/// The splits of the items `items` that name one, in order.
pub open spec fn splits_of(d: Seq<XmlItemView>, items: Seq<XmlSettingsView>) -> Seq<Split>
    decreases items.len(),
{
    if items.len() == 0 {
        Seq::empty()
    } else {
        let rest = splits_of(d, items.drop_last());
        match spec_split_from_split(d, items.last()) {
            Some(x) => rest.push(x),
            None => rest,
        }
    }
}

/// The splits of the list `s`, none when it is not a list.
pub open spec fn spec_split_list(d: Seq<XmlItemView>, s: XmlSettingsView) -> Seq<Split> {
    match spec_as_list(d, s) {
        Some(items) => splits_of(d, items),
        None => Seq::empty(),
    }
}

/// The splits of the older settings: in the oldest form (with `Ordered`,
/// `AutosplitStartRuns` or `AutosplitEndRuns`) the start split (by default
/// the old start), the listed splits, and the credits unless the run ends by
/// itself; otherwise the listed splits; none without a list.
pub open spec fn spec_splits_from_settings(d: Seq<XmlItemView>, s: XmlSettingsView) -> Option<Seq<Split>> {
    let ordered = spec_dict_get(d, s, "Ordered"@);
    let start = spec_dict_get(d, s, "AutosplitStartRuns"@);
    let end = spec_dict_get(d, s, "AutosplitEndRuns"@);
    let splits = spec_dict_get(d, s, "Splits"@);
    if ordered is Some || start is Some || end is Some {
        let first = match start {
            Some(st) => match spec_split_from_str(d, st) {
                Some(x) => x,
                None => Split::LegacyStart,
            },
            None => Split::LegacyStart,
        };
        let ends = match end {
            Some(e) => match spec_parse_bool(spec_parse_text(d, e.children)) {
                Some(b) => b,
                None => false,
            },
            None => false,
        };
        let middle = match splits {
            Some(l) => spec_split_list(d, l),
            None => Seq::empty(),
        };
        Some(
            if ends {
                seq![first] + middle
            } else {
                seq![first] + middle + seq![Split::EndingSplit]
            },
        )
    } else {
        match splits {
            Some(l) => Some(spec_split_list(d, l)),
            None => None,
        }
    }
}

/// The stored keys of splits, as a list of settings.
pub open spec fn split_keys(splits: Seq<Split>) -> Seq<SValue>
    decreases splits.len(),
{
    if splits.len() == 0 {
        Seq::empty()
    } else {
        split_keys(splits.drop_last()).push(SValue::Str(spec_options_str(splits.last())))
    }
}

/// The settings that the older XML nodes `xml_nodes` hold: the splits, and
/// the timing method and hit counter where they are given (the default where
/// they name no option).
pub open spec fn spec_legacy_settings(d: Seq<XmlItemView>, xml_nodes: Seq<int>) -> Option<
    Seq<(Seq<char>, SValue)>,
> {
    let s = XmlSettingsView {
        name: None,
        children: xml_nodes,
        list_items: seq![("Splits"@, "Split"@)],
    };
    match spec_splits_from_settings(d, s) {
        None => None,
        Some(splits) => {
            let m0 = spec_dict_insert(Seq::empty(), "splits"@, SValue::List(split_keys(splits)));
            let m1 = match spec_dict_get(d, s, "TimingMethod"@) {
                Some(t) => spec_dict_insert(
                    m0,
                    "timing_method"@,
                    SValue::Str(
                        spec_options_str(
                            match spec_parse_text(d, t.children) {
                                Some(x) => match spec_options_value::<TimingMethod>(x) {
                                    Some(v) => v,
                                    None => TimingMethod::LoadRemovedTime,
                                },
                                None => TimingMethod::LoadRemovedTime,
                            },
                        ),
                    ),
                ),
                None => m0,
            };
            Some(match spec_dict_get(d, s, "HitCounter"@) {
                Some(h) => spec_dict_insert(
                    m1,
                    "hit_counter"@,
                    SValue::Str(
                        spec_options_str(
                            match spec_parse_text(d, h.children) {
                                Some(x) => match spec_options_value::<HitsMethod>(x) {
                                    Some(v) => v,
                                    None => HitsMethod::NoHits,
                                },
                                None => HitsMethod::NoHits,
                            },
                        ),
                    ),
                ),
                None => m1,
            })
        },
    }
}

/// The positions that a settings node names, as the document's.
proof fn lemma_children_in(doc: Seq<XmlItemView>, s: &XmlSettings)
    requires
        settings_in(doc, s@),
    ensures
        forall|i: int| 0 <= i < s.children@.len() ==> s.children@[i] < doc.len(),
{
    assert forall|i: int| 0 <= i < s.children@.len() implies s.children@[i] < doc.len() by {
        assert(s@.children[i] == s.children@[i] as int);
    }
}

impl XmlSettings {
    /// The settings node of the element at position `c`.
    fn child(doc: &XmlDoc, c: usize, items: &Vec<(String, String)>) -> (r: XmlSettings)
        requires
            c < doc@.len(),
        ensures
            r@ == child_settings(
                doc@,
                c as int,
                items@.map_values(|p: (String, String)| (p.0@, p.1@)),
            ),
            settings_in(doc@, r@),
    {
        let ks = doc.children(c);
        let mut li: Vec<(String, String)> = Vec::new();
        let mut j: usize = 0;
        while j < items.len()
            invariant
                j <= items@.len(),
                li@.len() == j,
                forall|q: int| 0 <= q < j ==> #[trigger] li@[q].0@ == items@[q].0@ && li@[q].1@ == items@[q].1@,
            decreases items@.len() - j,
        {
            li.push((items[j].0.clone(), items[j].1.clone()));
            j = j + 1;
        }
        let r = XmlSettings { name: Some(String::from_str(doc.name(c))), children: ks, list_items: li };
        assert(r@.list_items =~= items@.map_values(|p: (String, String)| (p.0@, p.1@)));
        assert(r@.children =~= spec_children(doc@, c as int));
        r
    }

    /// The item name of this list, if it is one.
    pub fn is_list_get_item_name(&self) -> (r: Option<&str>)
        ensures
            match r {
                Some(i) => spec_list_item_name(self@) == Some(i@),
                None => spec_list_item_name(self@) is None,
            },
    {
        let n = match &self.name {
            Some(n) => n.as_str(),
            None => return None,
        };
        let ghost items = self@.list_items;
        let mut i: usize = 0;
        while i < self.list_items.len()
            invariant
                items == self@.list_items,
                self@.name == Some(n@),
                i <= self.list_items@.len(),
                item_name_from(items, n@, 0) == item_name_from(items, n@, i as int),
            decreases self.list_items@.len() - i,
        {
            assert(items[i as int] == (self.list_items@[i as int].0@, self.list_items@[i as int].1@));
            if str_eq(n, self.list_items[i].0.as_str()) {
                return Some(self.list_items[i].1.as_str());
            }
            i = i + 1;
        }
        None
    }

    /// The child of this node named `key`.
    pub fn dict_get(&self, doc: &XmlDoc, key: &str) -> (r: Option<XmlSettings>)
        requires
            settings_in(doc@, self@),
        ensures
            match r {
                Some(c) => spec_dict_get(doc@, self@, key@) == Some(c@) && settings_in(doc@, c@),
                None => spec_dict_get(doc@, self@, key@) is None,
            },
    {
        let mut i: usize = 0;
        while i < self.children.len()
            invariant
                settings_in(doc@, self@),
                i <= self.children@.len(),
                get_from(doc@, self@, key@, 0) == get_from(doc@, self@, key@, i as int),
            decreases self.children@.len() - i,
        {
            let c = self.children[i];
            assert(self@.children[i as int] == c as int);
            if doc.has_tag_name(c, key) {
                return Some(XmlSettings::child(doc, c, &self.list_items));
            }
            i = i + 1;
        }
        None
    }

    /// The items of this list, if it is one.
    pub fn as_list(&self, doc: &XmlDoc) -> (r: Option<Vec<XmlSettings>>)
        requires
            settings_in(doc@, self@),
        ensures
            match r {
                Some(v) => spec_as_list(doc@, self@) == Some(v@.map_values(|x: XmlSettings| x@))
                    && forall|j: int| 0 <= j < v@.len() ==> settings_in(doc@, #[trigger] v@[j]@),
                None => spec_as_list(doc@, self@) is None,
            },
    {
        let item = match self.is_list_get_item_name() {
            Some(i) => i,
            None => return None,
        };
        let ghost all = tagged_from(doc@, self@, item@, 0);
        let mut out: Vec<XmlSettings> = Vec::new();
        let mut i: usize = self.children.len();
        proof {
            assert(out@.map_values(|x: XmlSettings| x@) =~= tagged_from(doc@, self@, item@, i as int));
        }
        while i > 0
            invariant
                settings_in(doc@, self@),
                i <= self.children@.len(),
                out@.map_values(|x: XmlSettings| x@) == tagged_from(doc@, self@, item@, i as int),
                forall|j: int| 0 <= j < out@.len() ==> settings_in(doc@, #[trigger] out@[j]@),
            decreases i,
        {
            i = i - 1;
            let c = self.children[i];
            assert(self@.children[i as int] == c as int);
            if doc.has_tag_name(c, item) {
                let x = XmlSettings::child(doc, c, &self.list_items);
                let ghost before = out@;
                out.insert(0, x);
                proof {
                    assert(out@.map_values(|x: XmlSettings| x@) =~= seq![x@] + before.map_values(
                        |x: XmlSettings| x@,
                    ));
                }
            }
        }
        Some(out)
    }
}

/// The split that the text of `s` names.
pub fn split_from_settings_str(doc: &XmlDoc, s: &XmlSettings) -> (r: Option<Split>)
    requires
        settings_in(doc@, s@),
    ensures
        r == spec_split_from_str(doc@, s@),
{
    proof {
        lemma_children_in(doc@, s);
    }
    match parse_text(doc, &s.children) {
        Some(t) => options_value::<Split>(t.as_str()),
        None => None,
    }
}

/// The split of a list item.
pub fn split_from_settings_split(doc: &XmlDoc, s: &XmlSettings) -> (r: Option<Split>)
    requires
        settings_in(doc@, s@),
    ensures
        r == spec_split_from_split(doc@, s@),
{
    proof {
        reveal_strlit("Split");
    }
    match s.dict_get(doc, "Split") {
        Some(c) => split_from_settings_str(doc, &c),
        None => split_from_settings_str(doc, s),
    }
}

/// The splits of the list `s`.
pub fn splits_from_settings_split_list(doc: &XmlDoc, s: &XmlSettings) -> (r: Vec<Split>)
    requires
        settings_in(doc@, s@),
    ensures
        r@ == spec_split_list(doc@, s@),
{
    let items = match s.as_list(doc) {
        Some(v) => v,
        None => return Vec::new(),
    };
    let ghost iv = items@.map_values(|x: XmlSettings| x@);
    let mut r: Vec<Split> = Vec::new();
    let mut i: usize = 0;
    while i < items.len()
        invariant
            iv == items@.map_values(|x: XmlSettings| x@),
            forall|j: int| 0 <= j < items@.len() ==> settings_in(doc@, #[trigger] items@[j]@),
            i <= items@.len(),
            r@ == splits_of(doc@, iv.take(i as int)),
        decreases items@.len() - i,
    {
        proof {
            assert(iv.take(i + 1).drop_last() =~= iv.take(i as int));
            assert(iv.take(i + 1).last() == items@[i as int]@);
        }
        match split_from_settings_split(doc, &items[i]) {
            Some(x) => r.push(x),
            None => {},
        }
        i = i + 1;
    }
    proof {
        assert(iv.take(items@.len() as int) =~= iv);
    }
    r
}

/// The splits of the older settings `s`.
pub fn splits_from_settings(doc: &XmlDoc, s: &XmlSettings) -> (r: Option<Vec<Split>>)
    requires
        settings_in(doc@, s@),
    ensures
        match r {
            Some(v) => spec_splits_from_settings(doc@, s@) == Some(v@),
            None => spec_splits_from_settings(doc@, s@) is None,
        },
{
    proof {
        reveal_strlit("Ordered");
        reveal_strlit("AutosplitStartRuns");
        reveal_strlit("AutosplitEndRuns");
        reveal_strlit("Splits");
    }
    let maybe_ordered = s.dict_get(doc, "Ordered");
    let maybe_start = s.dict_get(doc, "AutosplitStartRuns");
    let maybe_end = s.dict_get(doc, "AutosplitEndRuns");
    let maybe_splits = s.dict_get(doc, "Splits");
    if maybe_ordered.is_some() || maybe_start.is_some() || maybe_end.is_some() {
        let start = match &maybe_start {
            Some(st) => match split_from_settings_str(doc, st) {
                Some(x) => x,
                None => Split::LegacyStart,
            },
            None => Split::LegacyStart,
        };
        let end = match &maybe_end {
            Some(e) => match {
                proof {
                    lemma_children_in(doc@, e);
                }
                parse_bool(parse_text(doc, &e.children))
            } {
                Some(b) => b,
                None => false,
            },
            None => false,
        };
        let mut result: Vec<Split> = Vec::new();
        result.push(start);
        if let Some(splits) = &maybe_splits {
            let mut more = splits_from_settings_split_list(doc, splits);
            result.append(&mut more);
        }
        if !end {
            result.push(Split::EndingSplit);
        }
        Some(result)
    } else {
        match &maybe_splits {
            Some(splits) => Some(splits_from_settings_split_list(doc, splits)),
            None => None,
        }
    }
}

/// The stored keys of `splits`.
fn asr_list_from_splits(splits: &Vec<Split>) -> (r: Vec<SettingsValue>)
    ensures
        svs(r@) == split_keys(splits@),
{
    let mut r: Vec<SettingsValue> = Vec::new();
    let mut i: usize = 0;
    while i < splits.len()
        invariant
            i <= splits@.len(),
            svs(r@) == split_keys(splits@.take(i as int)),
        decreases splits@.len() - i,
    {
        proof {
            assert(splits@.take(i + 1).drop_last() =~= splits@.take(i as int));
            assert(splits@.take(i + 1).last() == splits@[i as int]);
        }
        let k = options_str(&splits[i]);
        let ghost before = r@;
        let ks = String::from_str(k);
        let ghost ksv = ks@;
        r.push(SettingsValue::Str(ks));
        proof {
            assert(ksv == spec_options_str(splits@[i as int]));
            assert(r@.drop_last() =~= before);
            assert(sv(r@.last()) == SValue::Str(ksv));
            assert(svs(r@) == svs(before).push(SValue::Str(ksv)));
        }
        i = i + 1;
    }
    proof {
        assert(splits@.take(splits@.len() as int) =~= splits@);
    }
    r
}

/// Reads the settings of the older auto splitters from the XML nodes
/// `xml_nodes`; `None` when they hold no splits.
pub fn asr_settings_from_xml_nodes(doc: &XmlDoc, xml_nodes: &Vec<usize>) -> (r: Option<
    Vec<(String, SettingsValue)>,
>)
    requires
        forall|i: int| 0 <= i < xml_nodes@.len() ==> xml_nodes@[i] < doc@.len(),
    ensures
        match r {
            Some(m) => spec_legacy_settings(doc@, ints(xml_nodes@)) == Some(svd(m@)),
            None => spec_legacy_settings(doc@, ints(xml_nodes@)) is None,
        },
{
    proof {
        reveal_strlit("Splits");
        reveal_strlit("Split");
        reveal_strlit("splits");
        reveal_strlit("TimingMethod");
        reveal_strlit("HitCounter");
        reveal_strlit("timing_method");
        reveal_strlit("hit_counter");
    }
    let mut kids: Vec<usize> = Vec::new();
    let mut j: usize = 0;
    while j < xml_nodes.len()
        invariant
            j <= xml_nodes@.len(),
            kids@ == xml_nodes@.take(j as int),
        decreases xml_nodes@.len() - j,
    {
        kids.push(xml_nodes[j]);
        proof {
            assert(xml_nodes@.take(j + 1) =~= xml_nodes@.take(j as int).push(xml_nodes@[j as int]));
        }
        j = j + 1;
    }
    proof {
        assert(xml_nodes@.take(xml_nodes@.len() as int) =~= xml_nodes@);
    }
    let mut items: Vec<(String, String)> = Vec::new();
    items.push((String::from_str("Splits"), String::from_str("Split")));
    let xs = XmlSettings { name: None, children: kids, list_items: items };
    proof {
        assert(xs@.list_items =~= seq![("Splits"@, "Split"@)]);
    }
    let splits = match splits_from_settings(doc, &xs) {
        Some(v) => v,
        None => return None,
    };
    let mut m: Vec<(String, SettingsValue)> = Vec::new();
    proof {
        assert(svd(m@) =~= Seq::<(Seq<char>, SValue)>::empty());
    }
    dict_insert(&mut m, String::from_str("splits"), SettingsValue::List(asr_list_from_splits(&splits)));
    if let Some(t) = xs.dict_get(doc, "TimingMethod") {
        proof {
            lemma_children_in(doc@, &t);
        }
        let tm = match parse_text(doc, &t.children) {
            Some(x) => match options_value::<TimingMethod>(x.as_str()) {
                Some(v) => v,
                None => TimingMethod::LoadRemovedTime,
            },
            None => TimingMethod::LoadRemovedTime,
        };
        dict_insert(&mut m, String::from_str("timing_method"), SettingsValue::Str(String::from_str(options_str(&tm))));
    }
    if let Some(h) = xs.dict_get(doc, "HitCounter") {
        proof {
            lemma_children_in(doc@, &h);
        }
        let hm = match parse_text(doc, &h.children) {
            Some(x) => match options_value::<HitsMethod>(x.as_str()) {
                Some(v) => v,
                None => HitsMethod::NoHits,
            },
            None => HitsMethod::NoHits,
        };
        dict_insert(&mut m, String::from_str("hit_counter"), SettingsValue::Str(String::from_str(options_str(&hm))));
    }
    Some(m)
}

} // verus!
