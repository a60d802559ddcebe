//! Settings written by the timer host as XML: a `CustomSettings` element
//! whose entries carry an `id` and a `type` (`bool`, `i64`, `f64`, `string`,
//! `map` or `list`).

use vstd::prelude::*;

use crate::option_attrs::{spec_trim, trim};
use crate::settings_value::{
    dict_insert,
    spec_dict_insert,
    sv,
    svd,
    svs,
    SValue,
    SettingsValue,
};
use crate::text::str_eq;
use crate::xml::{
    lemma_children_in_range,
    spec_attribute,
    spec_children,
    XmlDoc,
    XmlItemView,
    XmlKind,
};

verus! {

/// The value of a decimal numeral.
pub open spec fn digits_value(s: Seq<char>) -> int
    decreases s.len(),
{
    if s.len() == 0 {
        0
    } else {
        digits_value(s.drop_last()) * 10 + (s.last() as int - '0' as int)
    }
}

/// Every character is a decimal digit.
pub open spec fn all_digits(s: Seq<char>) -> bool {
    forall|i: int| 0 <= i < s.len() ==> '0' <= #[trigger] s[i] <= '9'
}

/// A 64-bit integer written in decimal, with an optional sign, as Rust reads
/// one; `None` when the text is not such a numeral or the number does not fit.
pub open spec fn spec_parse_i64(s: Seq<char>) -> Option<int> {
    let neg = s.len() > 0 && s[0] == '-';
    let body = if s.len() > 0 && (s[0] == '-' || s[0] == '+') {
        s.drop_first()
    } else {
        s
    };
    if body.len() == 0 || !all_digits(body) {
        None
    } else {
        let v = if neg {
            -digits_value(body)
        } else {
            digits_value(body)
        };
        if i64::MIN <= v && v <= i64::MAX {
            Some(v)
        } else {
            None
        }
    }
}

proof fn lemma_digits_grow(s: Seq<char>, i: int, j: int)
    requires
        all_digits(s),
        0 <= i <= j <= s.len(),
    ensures
        0 <= digits_value(s.take(i)) <= digits_value(s.take(j)),
    decreases j - i,
{
    if i < j {
        lemma_digits_grow(s, i, j - 1);
        assert(s.take(j).drop_last() =~= s.take(j - 1));
        assert(s.take(j).last() == s[j - 1]);
    } else {
        lemma_digits_nonneg(s.take(i));
    }
}

proof fn lemma_digits_nonneg(s: Seq<char>)
    requires
        all_digits(s),
    ensures
        digits_value(s) >= 0,
    decreases s.len(),
{
    if s.len() > 0 {
        lemma_digits_nonneg(s.drop_last());
    }
}

/// Reads a 64-bit integer written in decimal with an optional sign.
pub fn parse_i64(s: &str) -> (r: Option<i64>)
    ensures
        match r {
            Some(v) => spec_parse_i64(s@) == Some(v as int),
            None => spec_parse_i64(s@) is None,
        },
{
    let n = s.unicode_len();
    let mut start: usize = 0;
    let mut neg = false;
    if n > 0 {
        let c = s.get_char(0);
        if c == '-' {
            neg = true;
            start = 1;
        } else if c == '+' {
            start = 1;
        }
    }
    if start >= n {
        return None;
    }
    let ghost body = s@.subrange(start as int, n as int);
    proof {
        if start == 1 {
            assert(body =~= s@.drop_first());
        } else {
            assert(body =~= s@);
        }
    }
    let mut acc: u128 = 0;
    let mut i: usize = start;
    while i < n
        invariant
            start <= i <= n,
            n == s@.len(),
            body == s@.subrange(start as int, n as int),
            body == (if s@.len() > 0 && (s@[0] == '-' || s@[0] == '+') {
                s@.drop_first()
            } else {
                s@
            }),
            neg == (s@.len() > 0 && s@[0] == '-'),
            body.len() > 0,
            forall|j: int| 0 <= j < i - start ==> '0' <= #[trigger] body[j] <= '9',
            acc as int == digits_value(body.take(i - start)),
            acc <= 9_223_372_036_854_775_808u128,
        decreases n - i,
    {
        let c = s.get_char(i);
        if !('0' <= c && c <= '9') {
            proof {
                assert(body[i - start] == c);
                assert(!all_digits(body));
            }
            return None;
        }
        proof {
            assert(body.take(i + 1 - start).drop_last() =~= body.take(i - start));
            assert(body.take(i + 1 - start).last() == c);
        }
        let d = (c as u32 - '0' as u32) as u128;
        acc = acc * 10 + d;
        if acc > 9_223_372_036_854_775_808u128 {
            proof {
                if all_digits(body) {
                    lemma_digits_grow(body, i + 1 - start, body.len() as int);
                    assert(body.take(body.len() as int) =~= body);
                }
            }
            return None;
        }
        i = i + 1;
    }
    proof {
        assert(body.take(n - start) =~= body);
        assert(all_digits(body));
    }
    if neg {
        if acc == 9_223_372_036_854_775_808u128 {
            Some(i64::MIN)
        } else {
            Some(0i64 - acc as i64)
        }
    } else if acc > 9_223_372_036_854_775_807u128 {
        None
    } else {
        Some(acc as i64)
    }
}

/// The text of a node whose children are `ks`: empty when it has none, the
/// text of its only child when that is text, otherwise none.
pub open spec fn spec_parse_text(d: Seq<XmlItemView>, ks: Seq<int>) -> Option<Seq<char>> {
    if ks.len() == 0 {
        Some(Seq::empty())
    } else if ks.len() == 1 && d[ks[0]].kind == XmlKind::Text {
        d[ks[0]].text
    } else {
        None
    }
}

/// A flag written as `True` or `False`, white space around it allowed.
pub open spec fn spec_parse_bool(t: Option<Seq<char>>) -> Option<bool> {
    match t {
        Some(x) => if spec_trim(x) == "True"@ {
            Some(true)
        } else if spec_trim(x) == "False"@ {
            Some(false)
        } else {
            None
        },
        None => None,
    }
}

/// The positions of a node list as integers.
pub open spec fn ints(ks: Seq<usize>) -> Seq<int> {
    ks.map_values(|x: usize| x as int)
}

/// The text of a node whose children are `ks`.
pub fn parse_text(doc: &XmlDoc, ks: &Vec<usize>) -> (r: Option<String>)
    requires
        forall|i: int| 0 <= i < ks@.len() ==> ks@[i] < doc@.len(),
    ensures
        match r {
            Some(t) => spec_parse_text(doc@, ints(ks@)) == Some(t@),
            None => spec_parse_text(doc@, ints(ks@)) is None,
        },
{
    if ks.len() == 0 {
        return Some(String::new());
    }
    if ks.len() == 1 && doc.is_text(ks[0]) {
        return match doc.text(ks[0]) {
            Some(t) => Some(String::from_str(t)),
            None => None,
        };
    }
    None
}

/// A flag written as `True` or `False`.
pub fn parse_bool(t: Option<String>) -> (r: Option<bool>)
    ensures
        r == spec_parse_bool(
            match t {
                Some(x) => Some(x@),
                None => None,
            },
        ),
{
    proof {
        reveal_strlit("True");
        reveal_strlit("False");
    }
    match t {
        Some(x) => {
            let tt = trim(x.as_str());
            if str_eq(tt.as_str(), "True") {
                Some(true)
            } else if str_eq(tt.as_str(), "False") {
                Some(false)
            } else {
                None
            }
        },
        None => None,
    }
}

/// The id and value of the settings entry at position `k`, reading at most
/// `fuel` levels deep: a value only for an element whose `type` is known.
pub open spec fn spec_parse_entry(d: Seq<XmlItemView>, k: int, fuel: nat) -> (
    Option<Seq<char>>,
    Option<SValue>,
)
    decreases fuel, 0int,
{
    if fuel == 0 || !(0 <= k < d.len()) || d[k].kind != XmlKind::Element {
        (None, None)
    } else {
        let id = spec_attribute(d, k, "id"@);
        let ks = spec_children(d, k);
        let text = spec_parse_text(d, ks);
        match spec_attribute(d, k, "type"@) {
            None => (id, None),
            Some(t) => (
                id,
                if t == "bool"@ {
                    Some(
                        SValue::Bool(
                            match spec_parse_bool(text) {
                                Some(b) => b,
                                None => false,
                            },
                        ),
                    )
                } else if t == "i64"@ {
                    Some(
                        SValue::I64(
                            match text {
                                Some(x) => match spec_parse_i64(spec_trim(x)) {
                                    Some(v) => v,
                                    None => 0,
                                },
                                None => 0,
                            },
                        ),
                    )
                } else if t == "f64"@ {
                    Some(
                        SValue::F64(
                            match text {
                                Some(x) => x,
                                None => Seq::empty(),
                            },
                        ),
                    )
                } else if t == "string"@ {
                    Some(
                        SValue::Str(
                            match spec_attribute(d, k, "value"@) {
                                Some(v) => v,
                                None => match text {
                                    Some(x) => x,
                                    None => Seq::empty(),
                                },
                            },
                        ),
                    )
                } else if t == "map"@ {
                    Some(SValue::Dict(spec_parse_map(d, ks, (fuel - 1) as nat)))
                } else if t == "list"@ {
                    Some(SValue::List(spec_parse_list(d, ks, (fuel - 1) as nat)))
                } else {
                    None
                },
            ),
        }
    }
}

/// The settings entries among `ks` that have both an id and a value, as a
/// dictionary, later ids replacing earlier ones.
pub open spec fn spec_parse_map(d: Seq<XmlItemView>, ks: Seq<int>, fuel: nat) -> Seq<
    (Seq<char>, SValue),
>
    decreases fuel, ks.len() + 1,
{
    if ks.len() == 0 {
        Seq::empty()
    } else {
        let acc = spec_parse_map(d, ks.drop_last(), fuel);
        match spec_parse_entry(d, ks.last(), fuel) {
            (Some(id), Some(v)) => spec_dict_insert(acc, id, v),
            _ => acc,
        }
    }
}

/// The values of the settings entries among `ks`, in order.
pub open spec fn spec_parse_list(d: Seq<XmlItemView>, ks: Seq<int>, fuel: nat) -> Seq<SValue>
    decreases fuel, ks.len() + 1,
{
    if ks.len() == 0 {
        Seq::empty()
    } else {
        let acc = spec_parse_list(d, ks.drop_last(), fuel);
        match spec_parse_entry(d, ks.last(), fuel).1 {
            Some(v) => acc.push(v),
            None => acc,
        }
    }
}

/// The plain form of an optional string.
pub open spec fn opt_chars(m: Option<String>) -> Option<Seq<char>> {
    match m {
        Some(s) => Some(s@),
        None => None,
    }
}

/// The plain form of an optional settings value.
pub open spec fn opt_value(m: Option<SettingsValue>) -> Option<SValue> {
    match m {
        Some(v) => Some(sv(v)),
        None => None,
    }
}

/// Reads the settings entry at position `k`, at most `fuel` levels deep.
pub fn parse_settings_entry(doc: &XmlDoc, k: usize, fuel: usize) -> (r: (
    Option<String>,
    Option<SettingsValue>,
))
    ensures
        (opt_chars(r.0), opt_value(r.1)) == spec_parse_entry(doc@, k as int, fuel as nat),
    decreases fuel, 0int,
{
    if fuel == 0 || k >= doc.len() || !doc.is_element(k) {
        return (None, None);
    }
    proof {
        reveal_strlit("id");
        reveal_strlit("type");
        reveal_strlit("value");
        reveal_strlit("bool");
        reveal_strlit("i64");
        reveal_strlit("f64");
        reveal_strlit("string");
        reveal_strlit("map");
        reveal_strlit("list");
    }
    let id = match doc.attribute(k, "id") {
        Some(i) => Some(String::from_str(i)),
        None => None,
    };
    let ks = doc.children(k);
    proof {
        assert(ints(ks@) =~= spec_children(doc@, k as int));
    }
    let t = match doc.attribute(k, "type") {
        Some(t) => t,
        None => return (id, None),
    };
    let value = if str_eq(t, "bool") {
        let b = match parse_bool(parse_text(doc, &ks)) {
            Some(b) => b,
            None => false,
        };
        Some(SettingsValue::Bool(b))
    } else if str_eq(t, "i64") {
        let v = match parse_text(doc, &ks) {
            Some(x) => match parse_i64(trim(x.as_str()).as_str()) {
                Some(v) => v,
                None => 0,
            },
            None => 0,
        };
        Some(SettingsValue::I64(v))
    } else if str_eq(t, "f64") {
        let x = match parse_text(doc, &ks) {
            Some(x) => x,
            None => String::new(),
        };
        Some(SettingsValue::F64(x))
    } else if str_eq(t, "string") {
        let x = match doc.attribute(k, "value") {
            Some(v) => String::from_str(v),
            None => match parse_text(doc, &ks) {
                Some(x) => x,
                None => String::new(),
            },
        };
        Some(SettingsValue::Str(x))
    } else if str_eq(t, "map") {
        Some(SettingsValue::Dict(parse_settings_map(doc, &ks, fuel - 1)))
    } else if str_eq(t, "list") {
        Some(SettingsValue::List(parse_settings_list(doc, &ks, fuel - 1)))
    } else {
        None
    };
    (id, value)
}

/// Reads the settings entries among `ks` into a dictionary.
pub fn parse_settings_map(doc: &XmlDoc, ks: &Vec<usize>, fuel: usize) -> (r: Vec<
    (String, SettingsValue),
>)
    ensures
        svd(r@) == spec_parse_map(doc@, ints(ks@), fuel as nat),
    decreases fuel, ks@.len() + 1,
{
    let ghost s = ints(ks@);
    let mut m: Vec<(String, SettingsValue)> = Vec::new();
    let mut i: usize = 0;
    while i < ks.len()
        invariant
            s == ints(ks@),
            i <= ks@.len(),
            svd(m@) == spec_parse_map(doc@, s.take(i as int), fuel as nat),
        decreases ks@.len() - i,
    {
        proof {
            assert(s.take(i + 1).drop_last() =~= s.take(i as int));
            assert(s.take(i + 1).last() == ks@[i as int] as int);
        }
        let (id, v) = parse_settings_entry(doc, ks[i], fuel);
        match (id, v) {
            (Some(id), Some(v)) => {
                dict_insert(&mut m, id, v);
            },
            _ => {},
        }
        i = i + 1;
    }
    proof {
        assert(s.take(ks@.len() as int) =~= s);
    }
    m
}

/// Reads the values of the settings entries among `ks`, in order.
pub fn parse_settings_list(doc: &XmlDoc, ks: &Vec<usize>, fuel: usize) -> (r: Vec<SettingsValue>)
    ensures
        svs(r@) == spec_parse_list(doc@, ints(ks@), fuel as nat),
    decreases fuel, ks@.len() + 1,
{
    let ghost s = ints(ks@);
    let mut l: Vec<SettingsValue> = Vec::new();
    let mut i: usize = 0;
    while i < ks.len()
        invariant
            s == ints(ks@),
            i <= ks@.len(),
            svs(l@) == spec_parse_list(doc@, s.take(i as int), fuel as nat),
        decreases ks@.len() - i,
    {
        proof {
            assert(s.take(i + 1).drop_last() =~= s.take(i as int));
            assert(s.take(i + 1).last() == ks@[i as int] as int);
        }
        let (_, v) = parse_settings_entry(doc, ks[i], fuel);
        match v {
            Some(v) => {
                let ghost before = l@;
                l.push(v);
                proof {
                    assert(l@.drop_last() =~= before);
                }
            },
            None => {},
        }
        i = i + 1;
    }
    proof {
        assert(s.take(ks@.len() as int) =~= s);
    }
    l
}

/// The first among `ks` from index `i` on that is an element named
/// `CustomSettings`.
pub open spec fn find_custom_settings(d: Seq<XmlItemView>, ks: Seq<int>, i: int) -> Option<int>
    decreases ks.len() - i,
{
    if i < 0 || i >= ks.len() {
        None
    } else if 0 <= ks[i] < d.len() && d[ks[i]].kind == XmlKind::Element && d[ks[i]].name
        == "CustomSettings"@ {
        Some(ks[i])
    } else {
        find_custom_settings(d, ks, i + 1)
    }
}

/// The settings in the first `CustomSettings` element among `xml_nodes`,
/// read at most `fuel` levels deep.
pub open spec fn spec_asr_settings_from_xml_nodes(d: Seq<XmlItemView>, xml_nodes: Seq<int>, fuel: nat) -> Option<
    Seq<(Seq<char>, SValue)>,
> {
    match find_custom_settings(d, xml_nodes, 0) {
        Some(k) => Some(spec_parse_map(d, spec_children(d, k), fuel)),
        None => None,
    }
}

/// Reads the settings in the first `CustomSettings` element among
/// `xml_nodes`, at most `fuel` levels deep.
pub fn asr_settings_from_xml_nodes(doc: &XmlDoc, xml_nodes: &Vec<usize>, fuel: usize) -> (r: Option<
    Vec<(String, SettingsValue)>,
>)
    ensures
        match r {
            Some(m) => spec_asr_settings_from_xml_nodes(doc@, ints(xml_nodes@), fuel as nat) == Some(
                svd(m@),
            ),
            None => spec_asr_settings_from_xml_nodes(doc@, ints(xml_nodes@), fuel as nat) is None,
        },
{
    proof {
        reveal_strlit("CustomSettings");
    }
    let ghost s = ints(xml_nodes@);
    let mut i: usize = 0;
    while i < xml_nodes.len()
        invariant
            s == ints(xml_nodes@),
            i <= xml_nodes@.len(),
            find_custom_settings(doc@, s, 0) == find_custom_settings(doc@, s, i as int),
        decreases xml_nodes@.len() - i,
    {
        let k = xml_nodes[i];
        if k < doc.len() && doc.is_element(k) && str_eq(doc.name(k), "CustomSettings") {
            let ks = doc.children(k);
            proof {
                assert(ints(ks@) =~= spec_children(doc@, k as int));
            }
            return Some(parse_settings_map(doc, &ks, fuel));
        }
        i = i + 1;
    }
    None
}

} // verus!
