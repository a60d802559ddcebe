//! A list setting of the settings GUI: how the stored list, its items and the
//! actions chosen on them are rearranged in the settings map.
//!
//! A list `key` keeps its values in the list stored under `key`, and item `i`
//! in the entries `key_i_item...`, with its action in the radio button
//! `key_i_action`; `key_insert_0` asks for a new item at the front.

use vstd::prelude::*;

use crate::settings_value::{
    copy_value,
    dict_get,
    dict_insert,
    lemma_svd_len_pub,
    lemma_svs_len_pub,
    spec_dict_get,
    spec_dict_insert,
    sv,
    svd,
    svs,
    SValue,
    SettingsValue,
};
use crate::store::{map_get_bool, spec_map_bool, spec_rb_update};
use crate::radio_button::RadioButton;
use crate::text::{decimal_string, spec_decimal, spec_starts_with, starts_with, str_eq};
use crate::ugly_list::{index_new_to_old, spec_steps, ListItemAction};

verus! {

/// The settings key `key_i` followed by `suffix`.
pub open spec fn spec_list_key(key: Seq<char>, i: int, suffix: Seq<char>) -> Seq<char> {
    key + "_"@ + spec_decimal(i as nat) + suffix
}

/// What follows the prefix `p` in `s`.
pub open spec fn suffix_after(s: Seq<char>, p: Seq<char>) -> Seq<char> {
    s.subrange(p.len() as int, s.len() as int)
}

/// The list stored under `key`, or none.
pub open spec fn spec_map_list(m: Seq<(Seq<char>, SValue)>, key: Seq<char>) -> Seq<SValue> {
    match spec_dict_get(m, key) {
        Some(SValue::List(l)) => l,
        _ => Seq::empty(),
    }
}

/// The items `0..k` of the list `l` that have no item entry get one, holding
/// their value in the list.
pub open spec fn spec_fill_items(
    m: Seq<(Seq<char>, SValue)>,
    key: Seq<char>,
    l: Seq<SValue>,
    k: nat,
) -> Seq<(Seq<char>, SValue)>
    decreases k,
{
    if k == 0 {
        m
    } else {
        let m1 = spec_fill_items(m, key, l, (k - 1) as nat);
        let ik = spec_list_key(key, k - 1, "_item"@);
        if spec_dict_get(m1, ik) is None {
            spec_dict_insert(m1, ik, l[k - 1])
        } else {
            m1
        }
    }
}

/// The action chosen on each of the `n` items, each read once its item entry
/// is in place.
pub open spec fn spec_list_actions(
    m: Seq<(Seq<char>, SValue)>,
    key: Seq<char>,
    l: Seq<SValue>,
    n: nat,
) -> Seq<ListItemAction> {
    Seq::new(
        n,
        |i: int|
            spec_rb_update(
                spec_fill_items(m, key, l, (i + 1) as nat),
                spec_list_key(key, i, "_action"@),
                ListItemAction::NoAction,
            ),
    )
}

/// Item `new_i` takes over the entry `e` of item `old_i`: an entry of the old
/// item is copied to the new one, its action is set to none and the check
/// boxes of its action are cleared.
pub open spec fn spec_take_over_entry(
    m: Seq<(Seq<char>, SValue)>,
    key: Seq<char>,
    new_i: int,
    old_i: int,
    e: (Seq<char>, SValue),
) -> Seq<(Seq<char>, SValue)> {
    let oi = spec_list_key(key, old_i, "_item"@);
    let ni = spec_list_key(key, new_i, "_item"@);
    let oa = spec_list_key(key, old_i, "_action"@);
    let na = spec_list_key(key, new_i, "_action"@);
    if spec_starts_with(e.0, oi) {
        spec_dict_insert(m, ni + suffix_after(e.0, oi), e.1)
    } else if e.0 == oa {
        spec_dict_insert(m, na, SValue::Str("None"@))
    } else if spec_starts_with(e.0, oa) {
        spec_dict_insert(m, na + suffix_after(e.0, oa), SValue::Bool(false))
    } else {
        m
    }
}

/// Item `new_i` takes over the first `k` entries of the old settings.
pub open spec fn spec_take_over(
    m: Seq<(Seq<char>, SValue)>,
    key: Seq<char>,
    new_i: int,
    old_i: int,
    old: Seq<(Seq<char>, SValue)>,
    k: nat,
) -> Seq<(Seq<char>, SValue)>
    decreases k,
{
    if k == 0 || k > old.len() {
        m
    } else {
        spec_take_over_entry(
            spec_take_over(m, key, new_i, old_i, old, (k - 1) as nat),
            key,
            new_i,
            old_i,
            old[k - 1],
        )
    }
}

/// The check boxes among the first `k` keys of `keys` that extend the action
/// key `na` are cleared.
pub open spec fn spec_clear_boxes(
    m: Seq<(Seq<char>, SValue)>,
    na: Seq<char>,
    keys: Seq<(Seq<char>, SValue)>,
    k: nat,
) -> Seq<(Seq<char>, SValue)>
    decreases k,
{
    if k == 0 || k > keys.len() {
        m
    } else {
        let m1 = spec_clear_boxes(m, na, keys, (k - 1) as nat);
        let kk = keys[k - 1].0;
        if kk != na && spec_starts_with(kk, na) {
            spec_dict_insert(m1, kk, SValue::Bool(false))
        } else {
            m1
        }
    }
}

/// A new empty item at `new_i`: its action is none, with its check boxes cleared.
pub open spec fn spec_new_slot(m: Seq<(Seq<char>, SValue)>, key: Seq<char>, new_i: int) -> Seq<
    (Seq<char>, SValue),
> {
    let na = spec_list_key(key, new_i, "_action"@);
    let m1 = spec_dict_insert(m, na, SValue::Str("None"@));
    spec_clear_boxes(m1, na, m1, m1.len())
}

/// The settings of the first `k` new items, each taking over its old item
/// `idx[i]` from the old settings `old`, or new and empty when that is `-1`.
pub open spec fn spec_rearrange(
    m: Seq<(Seq<char>, SValue)>,
    key: Seq<char>,
    idx: Seq<i64>,
    old: Seq<(Seq<char>, SValue)>,
    k: nat,
) -> Seq<(Seq<char>, SValue)>
    decreases k,
{
    if k == 0 || k > idx.len() {
        m
    } else {
        let m1 = spec_rearrange(m, key, idx, old, (k - 1) as nat);
        if idx[k - 1] >= 0 {
            spec_take_over(m1, key, k - 1, idx[k - 1] as int, old, old.len())
        } else {
            spec_new_slot(m1, key, k - 1)
        }
    }
}

/// The values of the first `n` items, `false` for an item without entry.
pub open spec fn spec_new_list(m: Seq<(Seq<char>, SValue)>, key: Seq<char>, n: nat) -> Seq<SValue> {
    Seq::new(
        n,
        |i: int|
            match spec_dict_get(m, spec_list_key(key, i, "_item"@)) {
                Some(v) => v,
                None => SValue::Bool(false),
            },
    )
}

/// The list setting `key` after an edit: the items get their entries, the
/// actions chosen on them rearrange the items (see `spec_steps`), the items
/// take over the entries of the old items they now hold, and the list is
/// stored anew. Also the number of items.
pub open spec fn spec_update_list_settings(m: Seq<(Seq<char>, SValue)>, key: Seq<char>) -> (
    Seq<(Seq<char>, SValue)>,
    nat,
) {
    let l = spec_map_list(m, key);
    let n = l.len();
    let insert_0 = spec_map_bool(m, key + "_insert_0"@) == Some(true);
    let m1 = spec_fill_items(m, key, l, n);
    let idx = spec_steps(n, insert_0, spec_list_actions(m, key, l, n), n);
    let m2 = spec_dict_insert(m1, key + "_insert_0"@, SValue::Bool(false));
    let m3 = spec_rearrange(m2, key, idx, m1, idx.len());
    (spec_dict_insert(m3, key, SValue::List(spec_new_list(m3, key, idx.len()))), idx.len())
}

/// The settings key `key_i` followed by `suffix`.
pub fn list_key(key: &str, i: usize, suffix: &str) -> (r: String)
    ensures
        r@ == spec_list_key(key@, i as int, suffix@),
{
    let s = String::from_str(key);
    let s = s.concat("_");
    let s = s.concat(decimal_string(i as u64).as_str());
    s.concat(suffix)
}

/// A copy of a settings map.
pub fn copy_map(m: &Vec<(String, SettingsValue)>) -> (r: Vec<(String, SettingsValue)>)
    ensures
        svd(r@) == svd(m@),
{
    let mut r: Vec<(String, SettingsValue)> = Vec::new();
    let mut i: usize = 0;
    while i < m.len()
        invariant
            i <= m@.len(),
            svd(r@) == svd(m@.take(i as int)),
        decreases m@.len() - i,
    {
        let ghost r0 = r@;
        let k = m[i].0.clone();
        let v = copy_value(&m[i].1);
        r.push((k, v));
        proof {
            assert(r@.drop_last() =~= r0);
            assert(m@.take(i + 1).drop_last() =~= m@.take(i as int));
        }
        i = i + 1;
    }
    proof {
        assert(m@.take(m@.len() as int) =~= m@);
    }
    r
}

/// Fills in the missing item entries of the list `l`, reading the action
/// chosen on each item once its entry is in place.
fn fill_items(m: &mut Vec<(String, SettingsValue)>, key: &str, l: &Vec<SettingsValue>) -> (actions:
    Vec<ListItemAction>)
    ensures
        svd(final(m)@) == spec_fill_items(svd(old(m)@), key@, svs(l@), l@.len()),
        actions@ == spec_list_actions(svd(old(m)@), key@, svs(l@), l@.len()),
{
    let ghost m0 = svd(m@);
    proof {
        lemma_svs_len_pub(l@);
    }
    let mut actions: Vec<ListItemAction> = Vec::new();
    let mut i: usize = 0;
    while i < l.len()
        invariant
            i <= l@.len(),
            svs(l@).len() == l@.len(),
            forall|j: int| 0 <= j < l@.len() ==> #[trigger] svs(l@)[j] == sv(l@[j]),
            svd(m@) == spec_fill_items(m0, key@, svs(l@), i as nat),
            actions@ =~= spec_list_actions(m0, key@, svs(l@), l@.len()).take(i as int),
        decreases l@.len() - i,
    {
        let ik = list_key(key, i, "_item");
        let missing = dict_get(m, ik.as_str()).is_none();
        if missing {
            let v = copy_value(&l[i]);
            dict_insert(m, ik, v);
        }
        let ak = list_key(key, i, "_action");
        let mut rb = RadioButton(ListItemAction::NoAction);
        rb.update_from_default(m, ak.as_str(), ListItemAction::NoAction);
        actions.push(rb.0);
        i = i + 1;
    }
    actions
}

/// Item `new_i` takes over the entries of old item `old_i` in `old`.
fn take_over(
    m: &mut Vec<(String, SettingsValue)>,
    prev: &Vec<(String, SettingsValue)>,
    key: &str,
    new_i: usize,
    old_i: usize,
)
    ensures
        svd(final(m)@) == spec_take_over(
            svd(old(m)@),
            key@,
            new_i as int,
            old_i as int,
            svd(prev@),
            prev@.len(),
        ),
{
    let oi = list_key(key, old_i, "_item");
    let ni = list_key(key, new_i, "_item");
    let oa = list_key(key, old_i, "_action");
    let na = list_key(key, new_i, "_action");
    let ghost m0 = svd(m@);
    let ghost so = svd(prev@);
    proof {
        lemma_svd_len_pub(prev@);
    }
    let mut j: usize = 0;
    while j < prev.len()
        invariant
            j <= prev@.len(),
            so == svd(prev@),
            so.len() == prev@.len(),
            forall|k: int| 0 <= k < prev@.len() ==> #[trigger] so[k] == (prev@[k].0@, sv(prev@[k].1)),
            oi@ == spec_list_key(key@, old_i as int, "_item"@),
            ni@ == spec_list_key(key@, new_i as int, "_item"@),
            oa@ == spec_list_key(key@, old_i as int, "_action"@),
            na@ == spec_list_key(key@, new_i as int, "_action"@),
            svd(m@) == spec_take_over(m0, key@, new_i as int, old_i as int, so, j as nat),
        decreases prev@.len() - j,
    {
        let k_old = prev[j].0.as_str();
        proof {
            assert(so[j as int] == (prev@[j as int].0@, sv(prev@[j as int].1)));
        }
        if starts_with(k_old, oi.as_str()) {
            let rest = k_old.substring_char(oi.as_str().unicode_len(), k_old.unicode_len());
            let k_new = ni.clone().concat(rest);
            let v = copy_value(&prev[j].1);
            dict_insert(m, k_new, v);
        } else if str_eq(k_old, oa.as_str()) {
            dict_insert(m, na.clone(), SettingsValue::Str(String::from_str("None")));
        } else if starts_with(k_old, oa.as_str()) {
            let rest = k_old.substring_char(oa.as_str().unicode_len(), k_old.unicode_len());
            let k_new = na.clone().concat(rest);
            dict_insert(m, k_new, SettingsValue::Bool(false));
        }
        j = j + 1;
    }
}

/// A new empty item at `new_i`: its action becomes none and every check box
/// of that action is cleared.
fn new_slot(m: &mut Vec<(String, SettingsValue)>, key: &str, new_i: usize)
    ensures
        svd(final(m)@) == spec_new_slot(svd(old(m)@), key@, new_i as int),
{
    let na = list_key(key, new_i, "_action");
    dict_insert(m, na.clone(), SettingsValue::Str(String::from_str("None")));
    let keys = copy_map(m);
    let ghost m1 = svd(m@);
    let ghost ks = svd(keys@);
    proof {
        lemma_svd_len_pub(keys@);
    }
    let mut j: usize = 0;
    while j < keys.len()
        invariant
            j <= keys@.len(),
            ks == svd(keys@),
            ks == m1,
            ks.len() == keys@.len(),
            forall|k: int| 0 <= k < keys@.len() ==> #[trigger] ks[k] == (keys@[k].0@, sv(keys@[k].1)),
            na@ == spec_list_key(key@, new_i as int, "_action"@),
            svd(m@) == spec_clear_boxes(m1, na@, ks, j as nat),
        decreases keys@.len() - j,
    {
        let k = keys[j].0.as_str();
        proof {
            assert(ks[j as int].0 == keys@[j as int].0@);
        }
        if !str_eq(k, na.as_str()) && starts_with(k, na.as_str()) {
            dict_insert(m, keys[j].0.clone(), SettingsValue::Bool(false));
        }
        j = j + 1;
    }
}

/// Each new item takes over its old item from `old`, or is new and empty.
fn rearrange(
    m: &mut Vec<(String, SettingsValue)>,
    prev: &Vec<(String, SettingsValue)>,
    key: &str,
    idx: &Vec<i64>,
)
    requires
        forall|j: int| 0 <= j < idx@.len() ==> -1 <= #[trigger] idx@[j] && idx@[j] <= usize::MAX,
    ensures
        svd(final(m)@) == spec_rearrange(svd(old(m)@), key@, idx@, svd(prev@), idx@.len()),
{
    proof {
        lemma_svd_len_pub(prev@);
    }
    let ghost m0 = svd(m@);
    let mut i: usize = 0;
    while i < idx.len()
        invariant
            i <= idx@.len(),
            forall|j: int| 0 <= j < idx@.len() ==> -1 <= #[trigger] idx@[j] && idx@[j] <= usize::MAX,
            svd(prev@).len() == prev@.len(),
            svd(m@) == spec_rearrange(m0, key@, idx@, svd(prev@), i as nat),
        decreases idx@.len() - i,
    {
        let o = idx[i];
        proof {
            assert(idx@[i as int] == o);
        }
        if o >= 0 {
            assert(o as usize as int == o as int);
            take_over(m, prev, key, i, o as usize);
        } else {
            new_slot(m, key, i);
        }
        i = i + 1;
    }
}

/// The values of the first `n` items, `false` for an item without entry.
fn new_list(m: &Vec<(String, SettingsValue)>, key: &str, n: usize) -> (r: Vec<SettingsValue>)
    ensures
        svs(r@) == spec_new_list(svd(m@), key@, n as nat),
{
    let mut r: Vec<SettingsValue> = Vec::new();
    let mut i: usize = 0;
    while i < n
        invariant
            i <= n,
            svs(r@) =~= spec_new_list(svd(m@), key@, n as nat).take(i as int),
        decreases n - i,
    {
        let ghost r0 = r@;
        let ik = list_key(key, i, "_item");
        let v = match dict_get(m, ik.as_str()) {
            Some(v) => copy_value(v),
            None => SettingsValue::Bool(false),
        };
        let ghost vv = sv(v);
        proof {
            assert(vv == spec_new_list(svd(m@), key@, n as nat)[i as int]);
        }
        r.push(v);
        proof {
            assert(r@.drop_last() =~= r0);
            assert(svs(r@) == svs(r0).push(vv));
            assert(spec_new_list(svd(m@), key@, n as nat).take(i + 1).drop_last()
                =~= spec_new_list(svd(m@), key@, n as nat).take(i as int));
        }
        i = i + 1;
    }
    proof {
        assert(spec_new_list(svd(m@), key@, n as nat).take(n as int) =~= spec_new_list(
            svd(m@),
            key@,
            n as nat,
        ));
    }
    r
}

/// Applies an edit of the list setting `key`: fills in the item entries,
/// carries out the actions chosen on the items, moves the items' entries to
/// their new places and stores the list anew. Returns the number of items.
pub fn update_list_settings(m: &mut Vec<(String, SettingsValue)>, key: &str) -> (n: usize)
    requires
        spec_map_list(svd(old(m)@), key@).len() <= i64::MAX,
    ensures
        (svd(final(m)@), n as nat) == spec_update_list_settings(svd(old(m)@), key@),
{
    let ghost m0 = svd(m@);
    let l: Vec<SettingsValue> = match dict_get(m, key) {
        Some(v) => match copy_value(v) {
            SettingsValue::List(l) => l,
            _ => Vec::new(),
        },
        None => Vec::new(),
    };
    proof {
        lemma_svs_len_pub(l@);
        assert(svs(l@) == spec_map_list(m0, key@));
    }
    let i0 = String::from_str(key).concat("_insert_0");
    let insert_0 = map_get_bool(m, i0.as_str()) == Some(true);
    let actions = fill_items(m, key, &l);
    let ghost m1 = svd(m@);
    let idx = index_new_to_old(l.len(), insert_0, actions.as_slice());
    let old = copy_map(m);
    dict_insert(m, i0, SettingsValue::Bool(false));
    proof {
        assert forall|j: int| 0 <= j < idx@.len() implies -1 <= #[trigger] idx@[j] && idx@[j]
            <= usize::MAX by {
            assert(-1 <= idx@[j] && idx@[j] < l@.len());
        }
    }
    rearrange(m, &old, key, &idx);
    let n = idx.len();
    let nl = new_list(m, key, n);
    proof {
        lemma_svs_len_pub(nl@);
    }
    dict_insert(m, String::from_str(key), SettingsValue::List(nl));
    n
}

} // verus!
