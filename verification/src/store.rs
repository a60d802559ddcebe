//! Widgets of the settings GUI over the settings map: how each reads its state
//! from the map and writes it back.

use vstd::prelude::*;

use crate::radio_button::{
    find_name_from,
    lemma_find_name_at,
    find_value_from,
    option_names,
    options_str,
    options_value,
    spec_options_str,
    spec_options_value,
    spec_update_choice,
    RadioButton,
    RadioButtonArgs,
    RadioButtonOption,
    RadioButtonOptions,
};
use crate::settings_value::{
    dict_get,
    dict_insert,
    lemma_dict_get_insert,
    lemma_dict_get_insert_other,
    spec_dict_get,
    spec_dict_insert,
    svd,
    SValue,
    SettingsValue,
};
use crate::text::str_eq;
use crate::ugly_list::{list_item_action_options, ListItemAction};

verus! {

/// The flag stored under `key`, if a flag is stored there.
pub open spec fn spec_map_bool(m: Seq<(Seq<char>, SValue)>, key: Seq<char>) -> Option<bool> {
    match spec_dict_get(m, key) {
        Some(SValue::Bool(b)) => Some(b),
        _ => None,
    }
}

/// The text stored under `key`, if text is stored there.
pub open spec fn spec_map_str(m: Seq<(Seq<char>, SValue)>, key: Seq<char>) -> Option<Seq<char>> {
    match spec_dict_get(m, key) {
        Some(SValue::Str(s)) => Some(s),
        _ => None,
    }
}

/// The flag stored under `key`, if a flag is stored there.
pub fn map_get_bool(m: &Vec<(String, SettingsValue)>, key: &str) -> (r: Option<bool>)
    ensures
        r == spec_map_bool(svd(m@), key@),
{
    match dict_get(m, key) {
        Some(SettingsValue::Bool(b)) => Some(*b),
        _ => None,
    }
}

/// The text stored under `key`, if text is stored there.
pub fn map_get_str<'a>(m: &'a Vec<(String, SettingsValue)>, key: &str) -> (r: Option<&'a str>)
    ensures
        match r {
            Some(s) => spec_map_str(svd(m@), key@) == Some(s@),
            None => spec_map_str(svd(m@), key@) is None,
        },
{
    match dict_get(m, key) {
        Some(SettingsValue::Str(s)) => Some(s.as_str()),
        _ => None,
    }
}

/// Storing the flag `b` under `key`: the new map, and whether it changed.
pub open spec fn spec_insert_bool(m: Seq<(Seq<char>, SValue)>, key: Seq<char>, b: bool) -> (
    Seq<(Seq<char>, SValue)>,
    bool,
) {
    if spec_map_bool(m, key) == Some(b) {
        (m, false)
    } else {
        (spec_dict_insert(m, key, SValue::Bool(b)), true)
    }
}

/// Stores the flag `b` under `key`, unless it is stored there already;
/// returns whether the map changed.
pub fn insert_bool_into(b: bool, m: &mut Vec<(String, SettingsValue)>, key: &str) -> (r: bool)
    ensures
        (svd(final(m)@), r) == spec_insert_bool(svd(old(m)@), key@, b),
{
    if map_get_bool(m, key) == Some(b) {
        return false;
    }
    dict_insert(m, String::from_str(key), SettingsValue::Bool(b));
    true
}

/// Storing the text `s` under `key`: the new map, and whether it changed.
pub open spec fn spec_insert_str(m: Seq<(Seq<char>, SValue)>, key: Seq<char>, s: Seq<char>) -> (
    Seq<(Seq<char>, SValue)>,
    bool,
) {
    if spec_map_str(m, key) == Some(s) {
        (m, false)
    } else {
        (spec_dict_insert(m, key, SValue::Str(s)), true)
    }
}

/// Stores the key of the choice `v` under `key`, unless it is stored there
/// already; returns whether the map changed.
pub fn insert_choice_into<T: RadioButtonOptions>(
    v: &T,
    m: &mut Vec<(String, SettingsValue)>,
    key: &str,
) -> (r: bool)
    ensures
        (svd(final(m)@), r) == spec_insert_str(svd(old(m)@), key@, spec_options_str(*v)),
{
    let new_s = options_str(v);
    let same = match map_get_str(m, key) {
        Some(old_s) => str_eq(old_s, new_s),
        None => false,
    };
    if same {
        return false;
    }
    dict_insert(m, String::from_str(key), SettingsValue::Str(String::from_str(new_s)));
    true
}

/// The key of the check box of option `o` of the radio button `key`.
pub open spec fn spec_bool_key<T>(key: Seq<char>, o: RadioButtonOption<'static, T>) -> Seq<char> {
    key + "_"@ + o.key@
}

/// The choice stored as text under `key`, or `default` when none is.
pub open spec fn spec_rb_old<T: RadioButtonOptions>(
    m: Seq<(Seq<char>, SValue)>,
    key: Seq<char>,
    default: T,
) -> T {
    match spec_map_str(m, key) {
        Some(s) => match spec_options_value::<T>(s) {
            Some(v) => v,
            None => default,
        },
        None => default,
    }
}

/// The stored state of the check box of each option, in order.
pub open spec fn spec_rb_bools<T: RadioButtonOptions>(m: Seq<(Seq<char>, SValue)>, key: Seq<char>) -> Seq<
    Option<bool>,
> {
    let opts = T::spec_radio_button_options();
    Seq::new(opts.len(), |j: int| spec_map_bool(m, spec_bool_key(key, opts[j])))
}

/// The choice of the radio button `key` after the settings were edited.
pub open spec fn spec_rb_update<T: RadioButtonOptions>(
    m: Seq<(Seq<char>, SValue)>,
    key: Seq<char>,
    default: T,
) -> T {
    spec_update_choice(
        spec_rb_old(m, key, default),
        default,
        T::spec_radio_button_options(),
        spec_rb_bools::<T>(m, key),
    )
}

/// Whether `d` is the default that `default`, the name given in the
/// arguments, makes: the option of that name, else the type's default.
pub open spec fn is_default_value<T: RadioButtonOptions>(default: Seq<char>, d: T) -> bool {
    match spec_options_value::<T>(default) {
        Some(v) => d == v,
        None => call_ensures(T::default, (), d),
    }
}

/// Storing the check boxes of the options `opts[..k]` for the choice `v`.
pub open spec fn spec_insert_option_bools<T>(
    m: Seq<(Seq<char>, SValue)>,
    key: Seq<char>,
    v: T,
    opts: Seq<RadioButtonOption<'static, T>>,
    k: nat,
) -> Seq<(Seq<char>, SValue)>
    decreases k,
{
    if k == 0 || k > opts.len() {
        m
    } else {
        let m1 = spec_insert_option_bools(m, key, v, opts, (k - 1) as nat);
        spec_insert_bool(m1, spec_bool_key(key, opts[k - 1]), v == opts[k - 1].value).0
    }
}

/// Storing the radio button `key` with the choice `v`: when its text differs,
/// the text and then the check box of every option.
pub open spec fn spec_rb_insert<T: RadioButtonOptions>(
    m: Seq<(Seq<char>, SValue)>,
    key: Seq<char>,
    v: T,
) -> (Seq<(Seq<char>, SValue)>, bool) {
    let s = spec_options_str(v);
    if spec_map_str(m, key) == Some(s) {
        (m, false)
    } else {
        let opts = T::spec_radio_button_options();
        (
            spec_insert_option_bools(
                spec_dict_insert(m, key, SValue::Str(s)),
                key,
                v,
                opts,
                opts.len(),
            ),
            true,
        )
    }
}

impl<T: RadioButtonOptions> RadioButton<T> {
    /// Takes the choice from the settings: the stored text names the old
    /// choice, and a check box that changed since picks the new one.
    pub fn update_from_default(&mut self, m: &Vec<(String, SettingsValue)>, key: &str, default: T)
        ensures
            final(self).0 == spec_rb_update(svd(m@), key@, default),
    {
        let old = match map_get_str(m, key) {
            Some(s) => match options_value::<T>(s) {
                Some(v) => v,
                None => default,
            },
            None => default,
        };
        let opts = T::radio_button_options();
        let ghost os = opts@;
        let mut bools: Vec<Option<bool>> = Vec::new();
        let mut i: usize = 0;
        while i < opts.len()
            invariant
                os == opts@,
                os == T::spec_radio_button_options(),
                i <= os.len(),
                bools@ =~= spec_rb_bools::<T>(svd(m@), key@).take(i as int),
            decreases os.len() - i,
        {
            let k = opts[i].bool_key(key);
            let b = map_get_bool(m, k.as_str());
            bools.push(b);
            i = i + 1;
        }
        proof {
            let all = spec_rb_bools::<T>(svd(m@), key@);
            assert(all.take(os.len() as int) =~= all);
        }
        self.0 = RadioButton::<T>::update_choice(old, default, &bools);
    }

    /// Takes the choice from the settings, with the default that `args` names.
    pub fn update_from(&mut self, m: &Vec<(String, SettingsValue)>, key: &str, args: &RadioButtonArgs)
        ensures
            exists|d: T|
                is_default_value(args.default@, d) && final(self).0 == spec_rb_update(
                    svd(m@),
                    key@,
                    d,
                ),
    {
        let d = args.default_value::<T>();
        self.update_from_default(m, key, d);
        assert(is_default_value(args.default@, d) && self.0 == spec_rb_update(svd(m@), key@, d));
    }

    /// Stores the choice under `key`, with the check box of every option, when
    /// the stored text differs; returns whether the map changed.
    pub fn insert_into(&self, m: &mut Vec<(String, SettingsValue)>, key: &str) -> (r: bool)
        ensures
            (svd(final(m)@), r) == spec_rb_insert(svd(old(m)@), key@, self.0),
    {
        let new_s = options_str(&self.0);
        let same = match map_get_str(m, key) {
            Some(old_s) => str_eq(old_s, new_s),
            None => false,
        };
        if same {
            return false;
        }
        dict_insert(m, String::from_str(key), SettingsValue::Str(String::from_str(new_s)));
        let opts = T::radio_button_options();
        let ghost os = opts@;
        let ghost m0 = svd(m@);
        let mut i: usize = 0;
        while i < opts.len()
            invariant
                os == opts@,
                os == T::spec_radio_button_options(),
                i <= os.len(),
                svd(m@) == spec_insert_option_bools(m0, key@, self.0, os, i as nat),
            decreases os.len() - i,
        {
            let o = opts[i];
            let k = o.bool_key(key);
            let b = self.0.same_option(&o.value);
            insert_bool_into(b, m, k.as_str());
            i = i + 1;
        }
        true
    }
}

/// Whether `v` is what a choice reads from the text stored under `key`: the
/// option that the text names, else the type's default.
pub open spec fn is_choice_read<T: RadioButtonOptions>(
    m: Seq<(Seq<char>, SValue)>,
    key: Seq<char>,
    v: T,
) -> bool {
    match spec_map_str(m, key) {
        Some(s) => match spec_options_value::<T>(s) {
            Some(x) => v == x,
            None => call_ensures(T::default, (), v),
        },
        None => call_ensures(T::default, (), v),
    }
}

/// The choice that the text stored under `key` names, else the type's default.
pub fn choice_read<T: RadioButtonOptions>(m: &Vec<(String, SettingsValue)>, key: &str) -> (r: T)
    ensures
        is_choice_read(svd(m@), key@, r),
{
    match map_get_str(m, key) {
        Some(s) => match options_value::<T>(s) {
            Some(v) => v,
            None => T::default(),
        },
        None => T::default(),
    }
}

/// A flag stored under `key` reads back from there.
pub proof fn lemma_insert_bool_reads_back(m: Seq<(Seq<char>, SValue)>, key: Seq<char>, b: bool)
    ensures
        spec_map_bool(spec_insert_bool(m, key, b).0, key) == Some(b),
{
    lemma_dict_get_insert(m, key, SValue::Bool(b));
}

/// Text stored under `key` reads back from there.
pub proof fn lemma_insert_str_reads_back(m: Seq<(Seq<char>, SValue)>, key: Seq<char>, s: Seq<char>)
    ensures
        spec_map_str(spec_insert_str(m, key, s).0, key) == Some(s),
{
    lemma_dict_get_insert(m, key, SValue::Str(s));
}

/// The options have distinct keys and no aliases.
pub open spec fn plain_distinct_options<T>(opts: Seq<RadioButtonOption<'static, T>>) -> bool {
    &&& forall|j: int| 0 <= j < opts.len() ==> (#[trigger] opts[j]).alias is None
    &&& forall|a: int, b: int|
        0 <= a < b < opts.len() ==> (#[trigger] opts[a]).key@ != (#[trigger] opts[b]).key@
}

proof fn lemma_find_value<T>(opts: Seq<RadioButtonOption<'static, T>>, v: T, i: int)
    requires
        0 <= i,
    ensures
        match find_value_from(opts, v, i) {
            Some(p) => i <= p < opts.len() && opts[p].value == v,
            None => forall|q: int| i <= q < opts.len() ==> opts[q].value != v,
        },
    decreases opts.len() - i,
{
    if i < opts.len() && opts[i].value != v {
        lemma_find_value(opts, v, i + 1);
    }
}

proof fn lemma_bool_keys_differ<T>(key: Seq<char>, a: RadioButtonOption<'static, T>, b: RadioButtonOption<'static, T>)
    requires
        a.key@ != b.key@,
    ensures
        spec_bool_key(key, a) != spec_bool_key(key, b),
{
    let p = key + "_"@;
    if spec_bool_key(key, a) == spec_bool_key(key, b) {
        assert((p + a.key@).subrange(p.len() as int, (p + a.key@).len() as int) =~= a.key@);
        assert((p + b.key@).subrange(p.len() as int, (p + b.key@).len() as int) =~= b.key@);
    }
}

proof fn lemma_bool_key_longer<T>(key: Seq<char>, a: RadioButtonOption<'static, T>)
    ensures
        spec_bool_key(key, a) != key,
{
    reveal_strlit("_");
    assert(spec_bool_key(key, a).len() > key.len());
}

proof fn lemma_insert_option_bools<T>(
    m: Seq<(Seq<char>, SValue)>,
    key: Seq<char>,
    s: Seq<char>,
    v: T,
    opts: Seq<RadioButtonOption<'static, T>>,
    k: nat,
)
    requires
        k <= opts.len(),
        plain_distinct_options(opts),
        spec_dict_get(m, key) == Some(SValue::Str(s)),
    ensures
        spec_dict_get(spec_insert_option_bools(m, key, v, opts, k), key) == Some(SValue::Str(s)),
        forall|j: int|
            0 <= j < k ==> spec_map_bool(
                spec_insert_option_bools(m, key, v, opts, k),
                spec_bool_key(key, #[trigger] opts[j]),
            ) == Some(v == opts[j].value),
    decreases k,
{
    if k > 0 {
        lemma_insert_option_bools(m, key, s, v, opts, (k - 1) as nat);
        let m1 = spec_insert_option_bools(m, key, v, opts, (k - 1) as nat);
        let bk = spec_bool_key(key, opts[k - 1]);
        let b = v == opts[k - 1].value;
        if spec_map_bool(m1, bk) != Some(b) {
            lemma_dict_get_insert(m1, bk, SValue::Bool(b));
            lemma_bool_key_longer(key, opts[k - 1]);
            lemma_dict_get_insert_other(m1, bk, SValue::Bool(b), key);
            assert forall|j: int| 0 <= j < k - 1 implies spec_map_bool(
                spec_insert_option_bools(m, key, v, opts, k),
                spec_bool_key(key, #[trigger] opts[j]),
            ) == Some(v == opts[j].value) by {
                lemma_bool_keys_differ(key, opts[j], opts[k - 1]);
                lemma_dict_get_insert_other(m1, bk, SValue::Bool(b), spec_bool_key(key, opts[j]));
            }
        }
    }
}

/// A radio button stored with a choice reads back as that choice, when its
/// options have distinct keys and no aliases, the choice is one of them, and
/// the stored text was not that choice already (else the check boxes are
/// left as they were, and they decide).
pub proof fn lemma_rb_reads_back<T: RadioButtonOptions>(
    m: Seq<(Seq<char>, SValue)>,
    key: Seq<char>,
    v: T,
    default: T,
)
    requires
        plain_distinct_options(T::spec_radio_button_options()),
        find_value_from(T::spec_radio_button_options(), v, 0) is Some,
        spec_map_str(m, key) != Some(spec_options_str(v)),
    ensures
        spec_rb_update(spec_rb_insert(m, key, v).0, key, default) == v,
{
    let opts = T::spec_radio_button_options();
    let s = spec_options_str(v);
    let iv = find_value_from(opts, v, 0)->0;
    lemma_find_value(opts, v, 0);
    let m1 = spec_dict_insert(m, key, SValue::Str(s));
    lemma_dict_get_insert(m, key, SValue::Str(s));
    lemma_insert_option_bools(m1, key, s, v, opts, opts.len());
    let m2 = spec_rb_insert(m, key, v).0;
    assert(spec_map_str(m2, key) == Some(s));
    assert(s == opts[iv].key@);
    assert forall|q: int| 0 <= q < iv implies !option_names(#[trigger] opts[q], s) by {
        assert(opts[q].alias is None);
        assert(opts[q].key@ != opts[iv].key@);
    }
    lemma_find_name_at(opts, s, 0, iv);
    assert(spec_options_value::<T>(s) == Some(v));
    assert(spec_rb_old(m2, key, default) == v);
    let bools = spec_rb_bools::<T>(m2, key);
    let all = Seq::new(
        opts.len(),
        |j: int| (opts[j].value, bools[j].unwrap_or(v == opts[j].value)),
    );
    let pred = |e: (T, bool)| e.1 != (v == e.0);
    assert forall|j: int| 0 <= j < all.len() implies !pred(#[trigger] all[j]) by {
        assert(bools[j] == spec_map_bool(m2, spec_bool_key(key, opts[j])));
    }
    if all.filter(pred).len() > 0 {
        all.lemma_filter_pred(pred, 0);
        all.lemma_filter_contains_rev(pred, all.filter(pred)[0]);
        let j = choose|j: int| 0 <= j < all.len() && all[j] == all.filter(pred)[0];
        assert(!pred(all[j]));
    }
}

/// The action of a list item, stored, reads back as itself.
pub proof fn lemma_action_reads_back(m: Seq<(Seq<char>, SValue)>, key: Seq<char>, v: ListItemAction)
    requires
        spec_map_str(m, key) != Some(spec_options_str(v)),
    ensures
        spec_rb_update(spec_rb_insert(m, key, v).0, key, ListItemAction::NoAction) == v,
{
    let o = list_item_action_options();
    reveal_strlit("None");
    reveal_strlit("Remove");
    reveal_strlit("MoveBefore");
    reveal_strlit("MoveAfter");
    reveal_strlit("InsertBefore");
    reveal_strlit("InsertAfter");
    assert(o[0].key@.len() == 4 && o[1].key@.len() == 6 && o[2].key@.len() == 10);
    assert(o[3].key@.len() == 9 && o[4].key@.len() == 12 && o[5].key@.len() == 11);
    assert(plain_distinct_options(o));
    reveal_with_fuel(find_value_from, 7);
    assert(find_value_from(o, v, 0) is Some);
    lemma_rb_reads_back(m, key, v, ListItemAction::NoAction);
}

} // verus!
