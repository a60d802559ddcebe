//! Radio buttons over the options of an enumeration: each option has a key
//! (how it is stored in the settings), an optional alias that is also
//! accepted when reading, a description and an optional tooltip.

use vstd::prelude::*;

use crate::text::str_eq;

verus! {

/// Something whose heading level in the settings GUI can be set.
pub trait SetHeadingLevel {
    fn set_heading_level(&mut self, heading_level: u32);
}

impl SetHeadingLevel for () {
    fn set_heading_level(&mut self, _heading_level: u32) {
    }
}

/// One option of a radio button.
#[derive(Clone, Copy)]
pub struct RadioButtonOption<'a, T> {
    pub value: T,
    pub key: &'a str,
    pub alias: Option<&'a str>,
    pub description: &'a str,
    pub tooltip: Option<&'a str>,
}

/// How a radio button is shown, and which option it starts from.
#[derive(Clone, Copy)]
pub struct RadioButtonArgs<'a> {
    pub heading_level: u32,
    pub default: &'a str,
}

impl<'a> Default for RadioButtonArgs<'a> {
    fn default() -> (r: Self)
        ensures
            r.heading_level == 0,
            r.default@ == Seq::<char>::empty(),
    {
        let d = "";
        proof {
            reveal_strlit("");
        }
        RadioButtonArgs { heading_level: 0, default: d }
    }
}

impl<'a> SetHeadingLevel for RadioButtonArgs<'a> {
    fn set_heading_level(&mut self, heading_level: u32)
        ensures
            final(self).heading_level == heading_level,
            final(self).default == old(self).default,
    {
        self.heading_level = heading_level;
    }
}

/// A type whose values are the options of a radio button, in a fixed order.
pub trait RadioButtonOptions: Sized + Copy + Default + Ord {
    /// The options, in the order in which they are shown.
    spec fn spec_radio_button_options() -> Seq<RadioButtonOption<'static, Self>>;

    fn radio_button_options() -> (r: Vec<RadioButtonOption<'static, Self>>)
        ensures
            r@ == Self::spec_radio_button_options(),
    ;

    /// Whether two values are the same option.
    fn same_option(&self, other: &Self) -> (r: bool)
        ensures
            r == (*self == *other),
    ;
}

/// The first position from `i` on whose option has value `v`.
pub open spec fn find_value_from<T>(opts: Seq<RadioButtonOption<'static, T>>, v: T, i: int) -> Option<
    int,
>
    decreases opts.len() - i,
{
    if i < 0 || i >= opts.len() {
        None
    } else if opts[i].value == v {
        Some(i)
    } else {
        find_value_from(opts, v, i + 1)
    }
}

/// Whether the option accepts `s` as its name: its key or its alias.
pub open spec fn option_names<T>(o: RadioButtonOption<'static, T>, s: Seq<char>) -> bool {
    o.key@ == s || (match o.alias {
        Some(a) => a@ == s,
        None => false,
    })
}

/// The first position from `i` on whose option accepts the name `s`.
pub open spec fn find_name_from<T>(opts: Seq<RadioButtonOption<'static, T>>, s: Seq<char>, i: int) -> Option<
    int,
>
    decreases opts.len() - i,
{
    if i < 0 || i >= opts.len() {
        None
    } else if option_names(opts[i], s) {
        Some(i)
    } else {
        find_name_from(opts, s, i + 1)
    }
}

/// The key under which `v` is stored: that of its first option, or empty.
pub open spec fn spec_options_str<T: RadioButtonOptions>(v: T) -> Seq<char> {
    match find_value_from(T::spec_radio_button_options(), v, 0) {
        Some(i) => T::spec_radio_button_options()[i].key@,
        None => Seq::empty(),
    }
}

/// The value named `s`: that of the first option whose key or alias is `s`.
pub open spec fn spec_options_value<T: RadioButtonOptions>(s: Seq<char>) -> Option<T> {
    match find_name_from(T::spec_radio_button_options(), s, 0) {
        Some(i) => Some(T::spec_radio_button_options()[i].value),
        None => None,
    }
}

/// The key under which `v` is stored in the settings.
pub fn options_str<T: RadioButtonOptions>(v: &T) -> (r: &'static str)
    ensures
        r@ == spec_options_str(*v),
{
    let opts = T::radio_button_options();
    let ghost s = T::spec_radio_button_options();
    let mut i: usize = 0;
    while i < opts.len()
        invariant
            opts@ == s,
            s == T::spec_radio_button_options(),
            i <= s.len(),
            find_value_from(s, *v, 0) == find_value_from(s, *v, i as int),
        decreases s.len() - i,
    {
        if opts[i].value.same_option(v) {
            assert(s[i as int].value == *v);
            assert(find_value_from(s, *v, i as int) == Some(i as int));
            return opts[i].key;
        }
        i = i + 1;
    }
    let e = "";
    proof {
        reveal_strlit("");
    }
    e
}

/// The value that the settings name `s`, if any option accepts that name.
pub fn options_value<T: RadioButtonOptions>(s: &str) -> (r: Option<T>)
    ensures
        r == spec_options_value::<T>(s@),
{
    let opts = T::radio_button_options();
    let ghost os = T::spec_radio_button_options();
    let mut i: usize = 0;
    while i < opts.len()
        invariant
            opts@ == os,
            os == T::spec_radio_button_options(),
            i <= os.len(),
            find_name_from(os, s@, 0) == find_name_from(os, s@, i as int),
        decreases os.len() - i,
    {
        let o = opts[i];
        let by_alias = match o.alias {
            Some(a) => str_eq(a, s),
            None => false,
        };
        if str_eq(o.key, s) || by_alias {
            assert(option_names(os[i as int], s@));
            assert(find_name_from(os, s@, i as int) == Some(i as int));
            return Some(o.value);
        }
        i = i + 1;
    }
    None
}

/// The stored key for the name `s`: the key of the option that accepts it as
/// its key or alias, or `s` itself when no option does.
pub open spec fn spec_options_normalize<T: RadioButtonOptions>(s: Seq<char>) -> Seq<char> {
    match spec_options_value::<T>(s) {
        Some(v) => spec_options_str(v),
        None => s,
    }
}

/// The stored key for the name `s`, so that an alias becomes its key.
pub fn options_normalize<T: RadioButtonOptions>(s: &str) -> (r: String)
    ensures
        r@ == spec_options_normalize::<T>(s@),
{
    match options_value::<T>(s) {
        Some(v) => String::from_str(options_str(&v)),
        None => String::from_str(s),
    }
}

impl<'a, T> RadioButtonOption<'a, T> {
    /// The settings key of this option's check box under the radio button `key`.
    pub fn bool_key(&self, key: &str) -> (r: String)
        ensures
            r@ == key@ + "_"@ + self.key@,
    {
        let k = String::from_str(key);
        let k = k.concat("_");
        k.concat(self.key)
    }
}

impl<'a> RadioButtonArgs<'a> {
    /// The option named by `default`, or the type's default value.
    pub fn default_value<T: RadioButtonOptions>(&self) -> (r: T)
        ensures
            match spec_options_value::<T>(self.default@) {
                Some(v) => r == v,
                None => call_ensures(T::default, (), r),
            },
    {
        match options_value::<T>(self.default) {
            Some(v) => v,
            None => T::default(),
        }
    }
}

/// The key of the only entry that is `true`, if exactly one is.
pub open spec fn spec_single_true<K>(entries: Seq<(K, bool)>) -> Option<K> {
    let trues = entries.filter(|e: (K, bool)| e.1);
    if trues.len() == 1 {
        Some(trues[0].0)
    } else {
        None
    }
}

/// The key of the only check box that is ticked, if exactly one is.
pub fn single_from_bool_map<K: Copy>(bool_map: &[(K, bool)]) -> (r: Option<K>)
    ensures
        r == spec_single_true(bool_map@),
{
    let ghost s = bool_map@;
    let mut found: Option<K> = None;
    let mut count: usize = 0;
    let mut i: usize = 0;
    while i < bool_map.len()
        invariant
            s == bool_map@,
            i <= s.len(),
            count <= i,
            count == s.take(i as int).filter(|e: (K, bool)| e.1).len(),
            count == 1 ==> found == Some(s.take(i as int).filter(|e: (K, bool)| e.1)[0].0),
        decreases s.len() - i,
    {
        proof {
            assert(s.take(i + 1).drop_last() =~= s.take(i as int));
            reveal_with_fuel(Seq::filter, 1);
        }
        if bool_map[i].1 {
            if count == 0 {
                found = Some(bool_map[i].0);
            }
            count = count + 1;
        }
        i = i + 1;
    }
    proof {
        assert(s.take(s.len() as int) =~= s);
    }
    if count == 1 {
        found
    } else {
        None
    }
}

/// A radio button holding the chosen option.
pub struct RadioButton<T>(pub T);

/// How the ticked check boxes change the choice: when exactly one check box
/// changed and it was ticked, its option; when exactly one changed and it was
/// unticked, the default; otherwise the old choice.
pub open spec fn spec_update_choice<T>(
    old: T,
    default: T,
    opts: Seq<RadioButtonOption<'static, T>>,
    map_bools: Seq<Option<bool>>,
) -> T {
    let changed = Seq::new(
        opts.len(),
        |j: int| (opts[j].value, map_bools[j].unwrap_or(old == opts[j].value)),
    ).filter(|e: (T, bool)| e.1 != (old == e.0));
    if changed.len() == 1 {
        if changed[0].1 {
            changed[0].0
        } else {
            default
        }
    } else {
        old
    }
}

impl<T: RadioButtonOptions> RadioButton<T> {
    /// The choice after the check boxes were edited: `map_bools` holds, for each
    /// option in order, the stored state of its check box, if any.
    pub fn update_choice(old: T, default: T, map_bools: &Vec<Option<bool>>) -> (r: T)
        requires
            map_bools@.len() == T::spec_radio_button_options().len(),
        ensures
            r == spec_update_choice(old, default, T::spec_radio_button_options(), map_bools@),
    {
        let opts = T::radio_button_options();
        let ghost os = opts@;
        let ghost all = Seq::new(
            os.len(),
            |j: int| (os[j].value, map_bools@[j].unwrap_or(old == os[j].value)),
        );
        let ghost pred = |e: (T, bool)| e.1 != (old == e.0);
        let mut count: usize = 0;
        let mut first: Option<(T, bool)> = None;
        let mut i: usize = 0;
        while i < opts.len()
            invariant
                os == opts@,
                os == T::spec_radio_button_options(),
                map_bools@.len() == os.len(),
                all == Seq::new(
                    os.len(),
                    |j: int| (os[j].value, map_bools@[j].unwrap_or(old == os[j].value)),
                ),
                pred == (|e: (T, bool)| e.1 != (old == e.0)),
                i <= os.len(),
                count <= i,
                count == all.take(i as int).filter(pred).len(),
                count >= 1 ==> first == Some(all.take(i as int).filter(pred)[0]),
            decreases os.len() - i,
        {
            proof {
                assert(all.take(i + 1).drop_last() =~= all.take(i as int));
                reveal_with_fuel(Seq::filter, 1);
            }
            let o = opts[i];
            let old_b = old.same_option(&o.value);
            let map_b = match map_bools[i] {
                Some(b) => b,
                None => old_b,
            };
            assert(all[i as int] == (o.value, map_b));
            if map_b != old_b {
                if count == 0 {
                    first = Some((o.value, map_b));
                }
                count = count + 1;
            }
            i = i + 1;
        }
        proof {
            assert(all.take(os.len() as int) =~= all);
        }
        if count == 1 {
            match first {
                Some((v, true)) => v,
                _ => default,
            }
        } else {
            old
        }
    }
}

/// The first position from `i` on whose option accepts the name `s` is `p`,
/// when the option at `p` accepts it and none between does.
pub proof fn lemma_find_name_at<T>(opts: Seq<RadioButtonOption<'static, T>>, s: Seq<char>, i: int, p: int)
    requires
        0 <= i <= p < opts.len(),
        option_names(opts[p], s),
        forall|q: int| i <= q < p ==> !option_names(#[trigger] opts[q], s),
    ensures
        find_name_from(opts, s, i) == Some(p),
    decreases p - i,
{
    if i < p {
        lemma_find_name_at(opts, s, i + 1, p);
    }
}

proof fn lemma_find_value_at<T>(opts: Seq<RadioButtonOption<'static, T>>, v: T, i: int, p: int)
    requires
        0 <= i <= p < opts.len(),
        opts[p].value == v,
        forall|q: int| i <= q < p ==> (#[trigger] opts[q]).value != v,
    ensures
        find_value_from(opts, v, i) == Some(p),
    decreases p - i,
{
    if i < p {
        lemma_find_value_at(opts, v, i + 1, p);
    }
}

proof fn lemma_find_name_none<T>(opts: Seq<RadioButtonOption<'static, T>>, s: Seq<char>, i: int)
    requires
        0 <= i,
        forall|q: int| i <= q < opts.len() ==> !option_names(#[trigger] opts[q], s),
    ensures
        find_name_from(opts, s, i) is None,
    decreases opts.len() - i,
{
    if i < opts.len() {
        lemma_find_name_none(opts, s, i + 1);
    }
}

/// The options have pairwise distinct values, keys and aliases, and no alias
/// is the key of an option.
pub open spec fn options_distinct<T>(opts: Seq<RadioButtonOption<'static, T>>) -> bool {
    &&& forall|a: int, b: int|
        0 <= a < b < opts.len() ==> (#[trigger] opts[a]).value != (#[trigger] opts[b]).value
    &&& forall|a: int, b: int|
        0 <= a < b < opts.len() ==> (#[trigger] opts[a]).key@ != (#[trigger] opts[b]).key@
    &&& forall|a: int, b: int|
        0 <= a < b < opts.len() && (#[trigger] opts[a]).alias is Some && (#[trigger] opts[b]).alias is Some
            ==> opts[a].alias->0@ != opts[b].alias->0@
    &&& forall|a: int, b: int|
        0 <= a < opts.len() && 0 <= b < opts.len() && (#[trigger] opts[a]).alias is Some
            ==> opts[a].alias->0@ != (#[trigger] opts[b]).key@
}

/// When the options are distinct, an option's value and its key and alias
/// lead to one another: the key stored for the value names the value, and so
/// do the key and the alias.
pub proof fn lemma_options_round_trip<T: RadioButtonOptions>(j: int)
    requires
        options_distinct(T::spec_radio_button_options()),
        0 <= j < T::spec_radio_button_options().len(),
    ensures
        spec_options_str(T::spec_radio_button_options()[j].value)
            == T::spec_radio_button_options()[j].key@,
        spec_options_value::<T>(T::spec_radio_button_options()[j].key@) == Some(
            T::spec_radio_button_options()[j].value,
        ),
        spec_options_value::<T>(spec_options_str(T::spec_radio_button_options()[j].value))
            == Some(T::spec_radio_button_options()[j].value),
        T::spec_radio_button_options()[j].alias is Some ==> spec_options_value::<T>(
            T::spec_radio_button_options()[j].alias->0@,
        ) == Some(T::spec_radio_button_options()[j].value),
{
    let opts = T::spec_radio_button_options();
    let o = opts[j];
    assert forall|q: int| 0 <= q < j implies (#[trigger] opts[q]).value != o.value by {}
    lemma_find_value_at(opts, o.value, 0, j);
    assert forall|q: int| 0 <= q < j implies !option_names(#[trigger] opts[q], o.key@) by {
        assert(opts[q].key@ != o.key@);
        if opts[q].alias is Some {
            assert(opts[q].alias->0@ != opts[j].key@);
        }
    }
    lemma_find_name_at(opts, o.key@, 0, j);
    if o.alias is Some {
        let a = o.alias->0@;
        assert forall|q: int| 0 <= q < j implies !option_names(#[trigger] opts[q], a) by {
            assert(a != opts[q].key@);
            if opts[q].alias is Some {
                assert(opts[q].alias->0@ != a);
            }
        }
        lemma_find_name_at(opts, a, 0, j);
    }
}

/// A name that is no option's key or alias names no value.
pub proof fn lemma_options_value_unknown<T: RadioButtonOptions>(s: Seq<char>)
    requires
        forall|q: int|
            0 <= q < T::spec_radio_button_options().len() ==> !option_names(
                #[trigger] T::spec_radio_button_options()[q],
                s,
            ),
    ensures
        spec_options_value::<T>(s) is None,
{
    lemma_find_name_none(T::spec_radio_button_options(), s, 0);
}

} // verus!
