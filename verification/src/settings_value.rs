//! Settings values as the timer host stores them: flags, numbers, text,
//! dictionaries and lists, and how stored settings are merged with new ones.

use vstd::prelude::*;

use crate::radio_button::{options_normalize, spec_options_normalize};
use crate::splits::Split;
use crate::text::{decimal_string, spec_decimal, str_eq};

verus! {

/// A settings value. A floating-point number is kept as the text it was
/// written with; reading it as a number is left to the timer host.
#[derive(Debug, PartialEq)]
pub enum SettingsValue {
    Bool(bool),
    I64(i64),
    F64(String),
    Str(String),
    Dict(Vec<(String, SettingsValue)>),
    List(Vec<SettingsValue>),
}

/// A settings value over plain values.
pub enum SValue {
    Bool(bool),
    I64(int),
    F64(Seq<char>),
    Str(Seq<char>),
    Dict(Seq<(Seq<char>, SValue)>),
    List(Seq<SValue>),
}

/// The plain form of a settings value.
pub open spec fn sv(v: SettingsValue) -> SValue
    decreases v,
{
    match v {
        SettingsValue::Bool(b) => SValue::Bool(b),
        SettingsValue::I64(i) => SValue::I64(i as int),
        SettingsValue::F64(s) => SValue::F64(s@),
        SettingsValue::Str(s) => SValue::Str(s@),
        SettingsValue::Dict(d) => SValue::Dict(svd(d@)),
        SettingsValue::List(l) => SValue::List(svs(l@)),
    }
}

/// The plain form of a list of settings values.
pub open spec fn svs(s: Seq<SettingsValue>) -> Seq<SValue>
    decreases s,
{
    if s.len() == 0 {
        Seq::empty()
    } else {
        svs(s.drop_last()).push(sv(s.last()))
    }
}

/// The plain form of a dictionary of settings.
pub open spec fn svd(s: Seq<(String, SettingsValue)>) -> Seq<(Seq<char>, SValue)>
    decreases s,
{
    if s.len() == 0 {
        Seq::empty()
    } else {
        svd(s.drop_last()).push((s.last().0@, sv(s.last().1)))
    }
}

proof fn lemma_svs_len(s: Seq<SettingsValue>)
    ensures
        svs(s).len() == s.len(),
        forall|i: int| 0 <= i < s.len() ==> #[trigger] svs(s)[i] == sv(s[i]),
    decreases s.len(),
{
    if s.len() > 0 {
        lemma_svs_len(s.drop_last());
    }
}

/// The plain form of a list has its length and its elements' plain forms.
pub proof fn lemma_svs_len_pub(s: Seq<SettingsValue>)
    ensures
        svs(s).len() == s.len(),
        forall|i: int| 0 <= i < s.len() ==> #[trigger] svs(s)[i] == sv(s[i]),
{
    lemma_svs_len(s);
}

proof fn lemma_svd_len(s: Seq<(String, SettingsValue)>)
    ensures
        svd(s).len() == s.len(),
        forall|i: int| 0 <= i < s.len() ==> #[trigger] svd(s)[i] == (s[i].0@, sv(s[i].1)),
    decreases s.len(),
{
    if s.len() > 0 {
        lemma_svd_len(s.drop_last());
    }
}

/// The plain form of a dictionary has its length and its entries' plain forms.
pub proof fn lemma_svd_len_pub(s: Seq<(String, SettingsValue)>)
    ensures
        svd(s).len() == s.len(),
        forall|i: int| 0 <= i < s.len() ==> #[trigger] svd(s)[i] == (s[i].0@, sv(s[i].1)),
{
    lemma_svd_len(s);
}

/// The first position of `key` in a dictionary, if any.
pub open spec fn spec_dict_find(d: Seq<(Seq<char>, SValue)>, key: Seq<char>) -> Option<int>
    decreases d.len(),
{
    if d.len() == 0 {
        None
    } else {
        match spec_dict_find(d.drop_last(), key) {
            Some(i) => Some(i),
            None => if d.last().0 == key {
                Some(d.len() - 1)
            } else {
                None
            },
        }
    }
}

/// What a dictionary holds under `key`.
pub open spec fn spec_dict_get(d: Seq<(Seq<char>, SValue)>, key: Seq<char>) -> Option<SValue> {
    match spec_dict_find(d, key) {
        Some(i) => Some(d[i].1),
        None => None,
    }
}

/// The dictionary with `key` set to `v`: replaced where it is, else added at the end.
pub open spec fn spec_dict_insert(d: Seq<(Seq<char>, SValue)>, key: Seq<char>, v: SValue) -> Seq<
    (Seq<char>, SValue),
> {
    match spec_dict_find(d, key) {
        Some(i) => d.update(i, (key, v)),
        None => d.push((key, v)),
    }
}

proof fn lemma_dict_find(d: Seq<(Seq<char>, SValue)>, key: Seq<char>)
    ensures
        match spec_dict_find(d, key) {
            Some(i) => 0 <= i < d.len() && d[i].0 == key && forall|j: int|
                0 <= j < i ==> d[j].0 != key,
            None => forall|j: int| 0 <= j < d.len() ==> d[j].0 != key,
        },
    decreases d.len(),
{
    if d.len() > 0 {
        lemma_dict_find(d.drop_last(), key);
        assert forall|j: int| 0 <= j < d.len() - 1 implies d.drop_last()[j] == d[j] by {}
    }
}

/// What a dictionary holds under `key` after `key` was set to `v` is `v`.
pub proof fn lemma_dict_get_insert(d: Seq<(Seq<char>, SValue)>, key: Seq<char>, v: SValue)
    ensures
        spec_dict_get(spec_dict_insert(d, key, v), key) == Some(v),
{
    lemma_dict_find(d, key);
    let d2 = spec_dict_insert(d, key, v);
    lemma_dict_find(d2, key);
    match spec_dict_find(d, key) {
        Some(i) => {
            assert(d2[i] == (key, v));
            match spec_dict_find(d2, key) {
                Some(j) => {
                    if j < i {
                        assert(d2[j] == d[j]);
                    }
                    if j > i {
                        assert(d2[i].0 == key);
                    }
                },
                None => {
                    assert(d2[i].0 == key);
                },
            }
        },
        None => {
            let n = d.len() as int;
            assert(d2[n] == (key, v));
            match spec_dict_find(d2, key) {
                Some(j) => {
                    if j < n {
                        assert(d2[j] == d[j]);
                    }
                },
                None => {
                    assert(d2[n].0 == key);
                },
            }
        },
    }
}

/// Setting another key leaves what a dictionary holds under `key` as it was.
pub proof fn lemma_dict_get_insert_other(
    d: Seq<(Seq<char>, SValue)>,
    k2: Seq<char>,
    v: SValue,
    key: Seq<char>,
)
    requires
        k2 != key,
    ensures
        spec_dict_get(spec_dict_insert(d, k2, v), key) == spec_dict_get(d, key),
{
    let d2 = spec_dict_insert(d, k2, v);
    lemma_dict_find(d, k2);
    lemma_dict_find(d, key);
    lemma_dict_find(d2, key);
    assert forall|j: int| 0 <= j < d.len() && (d[j].0 == key || d2[j].0 == key) implies d2[j] == d[j] by {
        match spec_dict_find(d, k2) {
            Some(i) => {
                if j == i {
                    assert(d[j].0 == k2);
                }
            },
            None => {},
        }
    }
    match spec_dict_find(d, k2) {
        Some(i) => {
            assert(d2.len() == d.len());
        },
        None => {
            assert(d2.len() == d.len() + 1);
            assert(d2[d.len() as int].0 == k2);
        },
    }
    match spec_dict_find(d, key) {
        Some(i) => {
            assert(d2[i] == d[i]);
            match spec_dict_find(d2, key) {
                Some(j) => {
                    if j < i {
                        assert(d2[j] == d[j]);
                    }
                    if j > i {
                        assert(d2[i].0 == key);
                    }
                },
                None => {
                    assert(d2[i].0 == key);
                },
            }
        },
        None => {
            match spec_dict_find(d2, key) {
                Some(j) => {
                    if j < d.len() {
                        assert(d2[j] == d[j]);
                    }
                },
                None => {},
            }
        },
    }
}

/// Merging new settings over old ones keeps every setting that the new ones
/// leave out.
pub proof fn lemma_merge_keeps_other_keys(
    old: Seq<(Seq<char>, SValue)>,
    new: Seq<(Seq<char>, SValue)>,
    key: Seq<char>,
)
    requires
        forall|j: int| 0 <= j < new.len() ==> #[trigger] new[j].0 != key,
    ensures
        spec_dict_get(spec_dict_merge(Some(old), new), key) == spec_dict_get(old, key),
    decreases new.len(),
{
    lemma_merge_into_keeps_other_keys(old, new, key);
}

proof fn lemma_merge_into_keeps_other_keys(
    old: Seq<(Seq<char>, SValue)>,
    new: Seq<(Seq<char>, SValue)>,
    key: Seq<char>,
)
    requires
        forall|j: int| 0 <= j < new.len() ==> #[trigger] new[j].0 != key,
    ensures
        spec_dict_get(spec_dict_merge_into(old, new), key) == spec_dict_get(old, key),
    decreases new.len(),
{
    if new.len() > 0 {
        let rest = new.drop_last();
        assert forall|j: int| 0 <= j < rest.len() implies #[trigger] rest[j].0 != key by {
            assert(rest[j] == new[j]);
        }
        lemma_merge_into_keeps_other_keys(old, rest, key);
        let acc = spec_dict_merge_into(old, rest);
        let k = new.last().0;
        assert(new[new.len() - 1].0 != key);
        lemma_dict_get_insert_other(acc, k, spec_value_merge(spec_dict_get(acc, k), new.last().1), key);
    }
}

/// Merging new settings over old ones sets each flag, number or text that the
/// new ones hold (each key once) to the new value.
pub proof fn lemma_merge_takes_new_scalars(
    old: Seq<(Seq<char>, SValue)>,
    new: Seq<(Seq<char>, SValue)>,
    j: int,
)
    requires
        0 <= j < new.len(),
        forall|a: int, b: int| 0 <= a < b < new.len() ==> #[trigger] new[a].0 != #[trigger] new[b].0,
        !(new[j].1 is List || new[j].1 is Dict),
    ensures
        spec_dict_get(spec_dict_merge(Some(old), new), new[j].0) == Some(new[j].1),
    decreases new.len(),
{
    lemma_merge_into_takes_new_scalars(old, new, j);
}

proof fn lemma_merge_into_takes_new_scalars(
    old: Seq<(Seq<char>, SValue)>,
    new: Seq<(Seq<char>, SValue)>,
    j: int,
)
    requires
        0 <= j < new.len(),
        forall|a: int, b: int| 0 <= a < b < new.len() ==> #[trigger] new[a].0 != #[trigger] new[b].0,
        !(new[j].1 is List || new[j].1 is Dict),
    ensures
        spec_dict_get(spec_dict_merge_into(old, new), new[j].0) == Some(new[j].1),
    decreases new.len(),
{
    let rest = new.drop_last();
    let acc = spec_dict_merge_into(old, rest);
    let k = new.last().0;
    let last = new.len() - 1;
    if j == last {
        lemma_dict_get_insert(acc, k, spec_value_merge(spec_dict_get(acc, k), new.last().1));
    } else {
        assert forall|a: int, b: int| 0 <= a < b < rest.len() implies #[trigger] rest[a].0
            != #[trigger] rest[b].0 by {
            assert(rest[a] == new[a] && rest[b] == new[b]);
        }
        assert(rest[j] == new[j]);
        lemma_merge_into_takes_new_scalars(old, rest, j);
        assert(new[j].0 != new[last].0);
        lemma_dict_get_insert_other(
            acc,
            k,
            spec_value_merge(spec_dict_get(acc, k), new.last().1),
            new[j].0,
        );
    }
}

/// The position of `key` in a dictionary of settings.
fn dict_find(d: &Vec<(String, SettingsValue)>, key: &str) -> (r: Option<usize>)
    ensures
        match r {
            Some(i) => spec_dict_find(svd(d@), key@) == Some(i as int),
            None => spec_dict_find(svd(d@), key@) is None,
        },
{
    proof {
        lemma_svd_len(d@);
        lemma_dict_find(svd(d@), key@);
    }
    let mut i: usize = 0;
    while i < d.len()
        invariant
            i <= d@.len(),
            svd(d@).len() == d@.len(),
            forall|j: int| 0 <= j < d@.len() ==> #[trigger] svd(d@)[j] == (d@[j].0@, sv(d@[j].1)),
            forall|j: int| 0 <= j < i ==> d@[j].0@ != key@,
        decreases d@.len() - i,
    {
        if str_eq(d[i].0.as_str(), key) {
            proof {
                let sd = svd(d@);
                lemma_dict_find(sd, key@);
                assert(sd[i as int].0 == key@);
                match spec_dict_find(sd, key@) {
                    Some(k) => {
                        if k < i {
                            assert(sd[k].0 == d@[k].0@);
                        }
                    },
                    None => {},
                }
            }
            return Some(i);
        }
        i = i + 1;
    }
    proof {
        let sd = svd(d@);
        lemma_dict_find(sd, key@);
        match spec_dict_find(sd, key@) {
            Some(k) => {
                assert(sd[k].0 == d@[k].0@);
            },
            None => {},
        }
    }
    None
}

/// What a dictionary of settings holds under `key`.
pub fn dict_get<'a>(d: &'a Vec<(String, SettingsValue)>, key: &str) -> (r: Option<
    &'a SettingsValue,
>)
    ensures
        match r {
            Some(v) => spec_dict_get(svd(d@), key@) == Some(sv(*v)),
            None => spec_dict_get(svd(d@), key@) is None,
        },
{
    proof {
        lemma_svd_len(d@);
        lemma_dict_find(svd(d@), key@);
    }
    match dict_find(d, key) {
        Some(i) => {
            proof {
                assert(svd(d@)[i as int] == (d@[i as int].0@, sv(d@[i as int].1)));
            }
            Some(&d[i].1)
        },
        None => None,
    }
}

/// Sets `key` to `v` in a dictionary of settings.
pub fn dict_insert(d: &mut Vec<(String, SettingsValue)>, key: String, v: SettingsValue)
    ensures
        svd(final(d)@) == spec_dict_insert(svd(old(d)@), key@, sv(v)),
{
    let ghost before = d@;
    proof {
        lemma_svd_len(before);
        lemma_dict_find(svd(before), key@);
    }
    match dict_find(d, key.as_str()) {
        Some(i) => {
            let ghost kv = key@;
            let ghost vv = sv(v);
            d.set(i, (key, v));
            proof {
                lemma_svd_len(d@);
                assert(spec_dict_find(svd(before), kv) == Some(i as int));
                assert(svd(d@) =~= svd(before).update(i as int, (kv, vv)));
            }
        },
        None => {
            let ghost kv = key@;
            let ghost vv = sv(v);
            d.push((key, v));
            proof {
                assert(d@.drop_last() =~= before);
            }
        },
    }
}

/// A copy of a settings value.
pub fn copy_value(v: &SettingsValue) -> (r: SettingsValue)
    ensures
        sv(r) == sv(*v),
    decreases v,
{
    match v {
        SettingsValue::Bool(b) => SettingsValue::Bool(*b),
        SettingsValue::I64(i) => SettingsValue::I64(*i),
        SettingsValue::F64(s) => SettingsValue::F64(s.clone()),
        SettingsValue::Str(s) => SettingsValue::Str(s.clone()),
        SettingsValue::Dict(d) => {
            let mut r: Vec<(String, SettingsValue)> = Vec::new();
            let mut i: usize = 0;
            while i < d.len()
                invariant
                    *v is Dict,
                    (*v)->Dict_0 == *d,
                    i <= d@.len(),
                    svd(r@) == svd(d@.take(i as int)),
                decreases d@.len() - i,
            {
                proof {
                    assert(d@.take(i + 1).drop_last() =~= d@.take(i as int));
                }
                proof {
                    let vv = *v;
                    assert(vv->Dict_0 == *d);
                    assert(decreases_to!(vv => vv->Dict_0));
                    assert(decreases_to!(vv->Dict_0 => vv->Dict_0@));
                    assert(decreases_to!(vv->Dict_0@ => vv->Dict_0@[i as int]));
                    assert(decreases_to!(vv->Dict_0@[i as int] => vv->Dict_0@[i as int].1));
                    assert(decreases_to!(vv => d@[i as int].1));
                }
                let c = copy_value(&d[i].1);
                let k = d[i].0.clone();
                let ghost before = r@;
                r.push((k, c));
                proof {
                    assert(r@.drop_last() =~= before);
                }
                i = i + 1;
            }
            proof {
                assert(d@.take(d@.len() as int) =~= d@);
            }
            SettingsValue::Dict(r)
        },
        SettingsValue::List(l) => {
            let mut r: Vec<SettingsValue> = Vec::new();
            let mut i: usize = 0;
            while i < l.len()
                invariant
                    *v is List,
                    (*v)->List_0 == *l,
                    i <= l@.len(),
                    svs(r@) == svs(l@.take(i as int)),
                decreases l@.len() - i,
            {
                proof {
                    assert(l@.take(i + 1).drop_last() =~= l@.take(i as int));
                }
                proof {
                    let vv = *v;
                    assert(vv->List_0 == *l);
                    assert(decreases_to!(vv => vv->List_0));
                    assert(decreases_to!(vv->List_0 => vv->List_0@));
                    assert(decreases_to!(vv->List_0@ => vv->List_0@[i as int]));
                    assert(decreases_to!(vv => l@[i as int]));
                }
                let c = copy_value(&l[i]);
                let ghost before = r@;
                r.push(c);
                proof {
                    assert(r@.drop_last() =~= before);
                }
                i = i + 1;
            }
            proof {
                assert(l@.take(l@.len() as int) =~= l@);
            }
            SettingsValue::List(r)
        },
    }
}


/// The plain form of an optional settings value.
pub open spec fn opt_sv(m: Option<&SettingsValue>) -> Option<SValue> {
    match m {
        Some(v) => Some(sv(*v)),
        None => None,
    }
}

/// A new value merged over an old one: flags, text and numbers are the new
/// ones; a list or dictionary is merged with the old list or dictionary, if
/// the old value is one.
pub open spec fn spec_value_merge(old: Option<SValue>, new: SValue) -> SValue
    decreases new, 2int,
{
    match new {
        SValue::List(l) => SValue::List(
            spec_list_merge(
                match old {
                    Some(SValue::List(o)) => Some(o),
                    _ => None,
                },
                l,
            ),
        ),
        SValue::Dict(d) => SValue::Dict(
            spec_dict_merge(
                match old {
                    Some(SValue::Dict(o)) => Some(o),
                    _ => None,
                },
                d,
            ),
        ),
        _ => new,
    }
}

/// Each new element merged over the old element at its position (`same`) or
/// over nothing.
pub open spec fn spec_list_merge_each(old: Seq<SValue>, new: Seq<SValue>, same: bool) -> Seq<SValue>
    decreases new, 0int,
{
    if new.len() == 0 {
        Seq::empty()
    } else {
        spec_list_merge_each(old, new.drop_last(), same).push(
            spec_value_merge(
                if same {
                    Some(old[new.len() - 1])
                } else {
                    None
                },
                new.last(),
            ),
        )
    }
}

/// A new list merged over an old one: element by element when both have the
/// same length, else the new list replaces the old.
pub open spec fn spec_list_merge(old: Option<Seq<SValue>>, new: Seq<SValue>) -> Seq<SValue>
    decreases new, 1int,
{
    let ol = match old {
        Some(o) => o,
        None => Seq::empty(),
    };
    spec_list_merge_each(ol, new, ol.len() == new.len())
}

/// The entries of `new` merged, one by one in order, into `old`.
pub open spec fn spec_dict_merge_into(old: Seq<(Seq<char>, SValue)>, new: Seq<(Seq<char>, SValue)>) -> Seq<
    (Seq<char>, SValue),
>
    decreases new, 0int,
{
    if new.len() == 0 {
        old
    } else {
        let acc = spec_dict_merge_into(old, new.drop_last());
        let k = new.last().0;
        spec_dict_insert(acc, k, spec_value_merge(spec_dict_get(acc, k), new.last().1))
    }
}

/// A new dictionary merged over an old one (or an empty one): every key of
/// the new one gets its value merged over the old value under that key.
pub open spec fn spec_dict_merge(old: Option<Seq<(Seq<char>, SValue)>>, new: Seq<(Seq<char>, SValue)>) -> Seq<
    (Seq<char>, SValue),
>
    decreases new, 1int,
{
    spec_dict_merge_into(
        match old {
            Some(o) => o,
            None => Seq::empty(),
        },
        new,
    )
}

/// Merges a new value over an old one.
pub fn maybe_asr_settings_value_merge(old: Option<&SettingsValue>, new: &SettingsValue) -> (r:
    SettingsValue)
    ensures
        sv(r) == spec_value_merge(opt_sv(old), sv(*new)),
    decreases new,
{
    match new {
        SettingsValue::List(l) => {
            let ol = match old {
                Some(SettingsValue::List(o)) => Some(o),
                _ => None,
            };
            proof {
                let vv = *new;
                assert(decreases_to!(vv => vv->List_0));
            }
            let m = maybe_asr_settings_list_merge(ol, l);
            SettingsValue::List(m)
        },
        SettingsValue::Dict(d) => {
            let od = match old {
                Some(SettingsValue::Dict(o)) => Some(o),
                _ => None,
            };
            proof {
                let vv = *new;
                assert(decreases_to!(vv => vv->Dict_0));
            }
            let m = maybe_asr_settings_map_merge(od, d);
            SettingsValue::Dict(m)
        },
        _ => copy_value(new),
    }
}

/// Merges a new list over an old one.
pub fn maybe_asr_settings_list_merge(old: Option<&Vec<SettingsValue>>, new: &Vec<SettingsValue>) -> (r:
    Vec<SettingsValue>)
    ensures
        svs(r@) == spec_list_merge(
            match old {
                Some(o) => Some(svs(o@)),
                None => None,
            },
            svs(new@),
        ),
    decreases new,
{
    let empty: Vec<SettingsValue> = Vec::new();
    let ol: &Vec<SettingsValue> = match old {
        Some(o) => o,
        None => &empty,
    };
    let same = ol.len() == new.len();
    proof {
        lemma_svs_len(ol@);
        lemma_svs_len(new@);
    }
    let mut r: Vec<SettingsValue> = Vec::new();
    let mut i: usize = 0;
    while i < new.len()
        invariant
            i <= new@.len(),
            same == (ol@.len() == new@.len()),
            svs(ol@).len() == ol@.len(),
            forall|j: int| 0 <= j < ol@.len() ==> #[trigger] svs(ol@)[j] == sv(ol@[j]),
            forall|j: int| 0 <= j < new@.len() ==> #[trigger] svs(new@)[j] == sv(new@[j]),
            svs(r@) == spec_list_merge_each(svs(ol@), svs(new@.take(i as int)), same),
        decreases new@.len() - i,
    {
        proof {
            assert(new@.take(i + 1).drop_last() =~= new@.take(i as int));
            lemma_svs_len(new@.take(i + 1));
            assert(decreases_to!(*new => new@));
            assert(decreases_to!(new@ => new@[i as int]));
        }
        let o = if same {
            Some(&ol[i])
        } else {
            None
        };
        let m = maybe_asr_settings_value_merge(o, &new[i]);
        let ghost before = r@;
        r.push(m);
        proof {
            assert(r@.drop_last() =~= before);
            assert(svs(new@.take(i + 1)).drop_last() =~= svs(new@.take(i as int)));
        }
        i = i + 1;
    }
    proof {
        assert(new@.take(new@.len() as int) =~= new@);
    }
    r
}

/// Merges a new dictionary over an old one (or an empty one).
pub fn maybe_asr_settings_map_merge(
    old: Option<&Vec<(String, SettingsValue)>>,
    new: &Vec<(String, SettingsValue)>,
) -> (r: Vec<(String, SettingsValue)>)
    ensures
        svd(r@) == spec_dict_merge(
            match old {
                Some(o) => Some(svd(o@)),
                None => None,
            },
            svd(new@),
        ),
    decreases new,
{
    let mut om: Vec<(String, SettingsValue)> = match old {
        Some(o) => match copy_value_dict(o) {
            d => d,
        },
        None => Vec::new(),
    };
    let ghost start = svd(om@);
    proof {
        lemma_svd_len(new@);
    }
    let mut i: usize = 0;
    while i < new.len()
        invariant
            i <= new@.len(),
            forall|j: int| 0 <= j < new@.len() ==> #[trigger] svd(new@)[j] == (new@[j].0@, sv(new@[j].1)),
            svd(om@) == spec_dict_merge_into(start, svd(new@.take(i as int))),
        decreases new@.len() - i,
    {
        proof {
            assert(new@.take(i + 1).drop_last() =~= new@.take(i as int));
            assert(decreases_to!(*new => new@));
            assert(decreases_to!(new@ => new@[i as int]));
            assert(decreases_to!(new@[i as int] => new@[i as int].1));
        }
        let key = &new[i].0;
        let m = {
            let cur = dict_get(&om, key.as_str());
            maybe_asr_settings_value_merge(cur, &new[i].1)
        };
        dict_insert(&mut om, key.clone(), m);
        proof {
            assert(svd(new@.take(i + 1)).drop_last() =~= svd(new@.take(i as int)));
        }
        i = i + 1;
    }
    proof {
        assert(new@.take(new@.len() as int) =~= new@);
    }
    om
}

/// A copy of a dictionary of settings.
fn copy_value_dict(d: &Vec<(String, SettingsValue)>) -> (r: Vec<(String, SettingsValue)>)
    ensures
        svd(r@) == svd(d@),
{
    let mut r: Vec<(String, SettingsValue)> = Vec::new();
    let mut i: usize = 0;
    while i < d.len()
        invariant
            i <= d@.len(),
            svd(r@) == svd(d@.take(i as int)),
        decreases d@.len() - i,
    {
        proof {
            assert(d@.take(i + 1).drop_last() =~= d@.take(i as int));
        }
        let c = copy_value(&d[i].1);
        let k = d[i].0.clone();
        let ghost before = r@;
        r.push((k, c));
        proof {
            assert(r@.drop_last() =~= before);
        }
        i = i + 1;
    }
    proof {
        assert(d@.take(d@.len() as int) =~= d@);
    }
    r
}

/// The settings key of the item of split `i` of the list.
pub open spec fn spec_split_item_key(i: nat) -> Seq<char> {
    "splits_"@ + spec_decimal(i) + "_item"@
}

/// The settings key of the item of split `i` of the list.
pub fn split_item_key(i: usize) -> (r: String)
    ensures
        r@ == spec_split_item_key(i as nat),
{
    let s = String::from_str("splits_");
    let s = s.concat(decimal_string(i as u64).as_str());
    s.concat("_item")
}

/// Normalizing the first `k` splits of the list `l` in the settings `m`: the
/// settings, the normalized splits so far, whether one changed, and whether
/// all of them were text.
pub open spec fn spec_normalize_steps(m: Seq<(Seq<char>, SValue)>, l: Seq<SValue>, k: nat) -> (
    Seq<(Seq<char>, SValue)>,
    Seq<SValue>,
    bool,
    bool,
)
    decreases k,
{
    if k == 0 {
        (m, Seq::empty(), false, true)
    } else {
        let (m1, nl, changed, ok) = spec_normalize_steps(m, l, (k - 1) as nat);
        if !ok {
            (m1, nl, changed, false)
        } else {
            match l[k - 1] {
                SValue::Str(s) => {
                    let n = spec_options_normalize::<Split>(s);
                    if n != s {
                        (
                            spec_dict_insert(m1, spec_split_item_key((k - 1) as nat), SValue::Str(n)),
                            nl.push(SValue::Str(n)),
                            true,
                            true,
                        )
                    } else {
                        (m1, nl.push(SValue::Str(n)), changed, true)
                    }
                },
                _ => (m1, nl, changed, false),
            }
        }
    }
}

/// Normalizing the splits of the settings `m`: every split written by an
/// alias is rewritten with its key, in the list and in its item. The result
/// is `Some` when something changed; the list is replaced then. A split that
/// is not text stops the work there.
pub open spec fn spec_normalize(m: Seq<(Seq<char>, SValue)>) -> (Seq<(Seq<char>, SValue)>, Option<()>) {
    match spec_dict_get(m, "splits"@) {
        Some(SValue::List(l)) => {
            let (m1, nl, changed, ok) = spec_normalize_steps(m, l, l.len());
            if !ok {
                (m1, None)
            } else if changed {
                (spec_dict_insert(m1, "splits"@, SValue::List(nl)), Some(()))
            } else {
                (m1, None)
            }
        },
        _ => (m, None),
    }
}

/// Rewrites the splits of the settings that are written by an alias with
/// their keys.
pub fn asr_settings_normalize(m: &mut Vec<(String, SettingsValue)>) -> (r: Option<()>)
    ensures
        (svd(final(m)@), r) == spec_normalize(svd(old(m)@)),
{
    proof {
        reveal_strlit("splits");
    }
    let lv = match dict_get(m, "splits") {
        Some(v) => copy_value(v),
        None => return None,
    };
    let l = match lv {
        SettingsValue::List(l) => l,
        _ => return None,
    };
    let ghost sl = svs(l@);
    let ghost m0 = svd(m@);
    proof {
        lemma_svs_len(l@);
    }
    let mut nl: Vec<SettingsValue> = Vec::new();
    let mut changed = false;
    let mut i: usize = 0;
    while i < l.len()
        invariant
            i <= l@.len(),
            sl == svs(l@),
            sl.len() == l@.len(),
            m0 == svd(old(m)@),
            spec_dict_get(m0, "splits"@) == Some(SValue::List(sl)),
            forall|j: int| 0 <= j < l@.len() ==> #[trigger] sl[j] == sv(l@[j]),
            spec_normalize_steps(m0, sl, i as nat) == (svd(m@), svs(nl@), changed, true),
        decreases l@.len() - i,
    {
        let ghost prev = spec_normalize_steps(m0, sl, i as nat);
        match &l[i] {
            SettingsValue::Str(s) => {
                let n = options_normalize::<Split>(s.as_str());
                let ghost before = nl@;
                let n2 = n.clone();
                let ghost n2v = n2@;
                nl.push(SettingsValue::Str(n2));
                proof {
                    assert(n2v == n@);
                    assert(nl@.drop_last() =~= before);
                    assert(sv(nl@.last()) == SValue::Str(n@));
                    assert(svs(nl@) == svs(before).push(SValue::Str(n@)));
                    assert(sl[i as int] == SValue::Str(s@));
                }
                if !str_eq(s.as_str(), n.as_str()) {
                    changed = true;
                    let k = split_item_key(i);
                    dict_insert(m, k, SettingsValue::Str(n));
                }
            },
            _ => {
                proof {
                    assert(spec_normalize_steps(m0, sl, (i + 1) as nat).3 == false);
                    lemma_normalize_stops(m0, sl, (i + 1) as nat, sl.len());
                }
                return None;
            },
        }
        i = i + 1;
    }
    if changed {
        dict_insert(m, String::from_str("splits"), SettingsValue::List(nl));
        Some(())
    } else {
        None
    }
}

/// Once a split that is not text is met, nothing further changes.
proof fn lemma_normalize_stops(m: Seq<(Seq<char>, SValue)>, l: Seq<SValue>, k: nat, n: nat)
    requires
        k <= n,
        spec_normalize_steps(m, l, k).3 == false,
    ensures
        spec_normalize_steps(m, l, n) == spec_normalize_steps(m, l, k),
    decreases n - k,
{
    if k < n {
        lemma_normalize_stops(m, l, k, (n - 1) as nat);
    }
}

} // verus!
