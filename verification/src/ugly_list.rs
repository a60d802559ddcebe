//! A list edited through the settings GUI: each item carries an action
//! (remove it, move it, insert an empty item next to it), and applying the
//! actions rearranges the list.

use vstd::prelude::*;

use crate::list_settings::{list_key, spec_list_key, spec_map_list, spec_update_list_settings, update_list_settings};
use crate::radio_button::{RadioButton, RadioButtonOption, RadioButtonOptions, SetHeadingLevel};
use crate::settings_value::{svd, SettingsValue};
use crate::store::{choice_read, is_choice_read, spec_rb_update};

verus! {

/// What to do with an item of the list.
#[derive(Clone, Copy, Debug, PartialEq, Eq, Structural, PartialOrd, Ord, Hash)]
pub enum ListItemAction {
    NoAction,
    Remove,
    MoveBefore,
    MoveAfter,
    InsertBefore,
    InsertAfter,
}

impl Default for ListItemAction {
    fn default() -> (r: Self)
        ensures
            r == ListItemAction::NoAction,
    {
        ListItemAction::NoAction
    }
}

/// The options of a [`ListItemAction`] radio button, in order.
pub open spec fn list_item_action_options() -> Seq<RadioButtonOption<'static, ListItemAction>> {
    seq![
        RadioButtonOption { value: ListItemAction::NoAction, key: "None", alias: None, description: "None", tooltip: None },
        RadioButtonOption { value: ListItemAction::Remove, key: "Remove", alias: None, description: "Remove", tooltip: None },
        RadioButtonOption { value: ListItemAction::MoveBefore, key: "MoveBefore", alias: None, description: "Move before", tooltip: None },
        RadioButtonOption { value: ListItemAction::MoveAfter, key: "MoveAfter", alias: None, description: "Move after", tooltip: None },
        RadioButtonOption { value: ListItemAction::InsertBefore, key: "InsertBefore", alias: None, description: "Insert before", tooltip: None },
        RadioButtonOption { value: ListItemAction::InsertAfter, key: "InsertAfter", alias: None, description: "Insert after", tooltip: None },
    ]
}

impl RadioButtonOptions for ListItemAction {
    open spec fn spec_radio_button_options() -> Seq<RadioButtonOption<'static, ListItemAction>> {
        list_item_action_options()
    }

    fn radio_button_options() -> (r: Vec<RadioButtonOption<'static, ListItemAction>>) {
        let r = vec![
            RadioButtonOption { value: ListItemAction::NoAction, key: "None", alias: None, description: "None", tooltip: None },
            RadioButtonOption { value: ListItemAction::Remove, key: "Remove", alias: None, description: "Remove", tooltip: None },
            RadioButtonOption { value: ListItemAction::MoveBefore, key: "MoveBefore", alias: None, description: "Move before", tooltip: None },
            RadioButtonOption { value: ListItemAction::MoveAfter, key: "MoveAfter", alias: None, description: "Move after", tooltip: None },
            RadioButtonOption { value: ListItemAction::InsertBefore, key: "InsertBefore", alias: None, description: "Insert before", tooltip: None },
            RadioButtonOption { value: ListItemAction::InsertAfter, key: "InsertAfter", alias: None, description: "Insert after", tooltip: None },
        ];
        assert(r@ =~= list_item_action_options());
        r
    }

    fn same_option(&self, other: &Self) -> (r: bool) {
        *self == *other
    }
}

/// How a list is shown in the settings GUI.
#[derive(Clone, Copy)]
pub struct UglyListArgs {
    pub heading_level: u32,
}

impl Default for UglyListArgs {
    fn default() -> (r: Self)
        ensures
            r.heading_level == 0,
    {
        UglyListArgs { heading_level: 0 }
    }
}

impl SetHeadingLevel for UglyListArgs {
    fn set_heading_level(&mut self, heading_level: u32)
        ensures
            final(self).heading_level == heading_level,
    {
        self.heading_level = heading_level;
    }
}

/// One item of a list, with its action.
pub struct UglyListItem<T> {
    pub item: T,
    pub action: RadioButton<ListItemAction>,
}

/// A list of items, of which the first `len` exist; the others are kept for
/// reuse.
pub struct UglyList<T> {
    len: usize,
    ulis: Vec<UglyListItem<T>>,
}

impl<T> UglyList<T> {
    /// The existing items, in order.
    pub closed spec fn items(&self) -> Seq<T> {
        Seq::new(self.len as nat, |i: int| self.ulis@[i].item)
    }

    /// The actions of all items kept, existing or not.
    pub closed spec fn actions(&self) -> Seq<ListItemAction> {
        Seq::new(self.ulis@.len(), |i: int| self.ulis@[i].action.0)
    }

    /// The number of items kept, existing or not.
    pub closed spec fn capacity(&self) -> nat {
        self.ulis@.len()
    }

    /// No more items exist than are kept.
    pub closed spec fn wf(&self) -> bool {
        self.len <= self.ulis@.len()
    }

    /// An empty list.
    pub fn new() -> (l: UglyList<T>)
        ensures
            l.wf(),
            l.items().len() == 0,
            l.capacity() == 0,
    {
        UglyList { len: 0, ulis: Vec::new() }
    }

    /// The number of items kept, existing or not.
    pub fn capacity_len(&self) -> (r: usize)
        ensures
            r == self.capacity(),
    {
        self.ulis.len()
    }

    /// Keeps one more item, with no action; the existing items stay.
    pub fn push_item(&mut self, item: T)
        requires
            old(self).wf(),
        ensures
            final(self).wf(),
            final(self).items() == old(self).items(),
            final(self).capacity() == old(self).capacity() + 1,
            final(self).actions() == old(self).actions().push(ListItemAction::NoAction),
    {
        self.ulis.push(UglyListItem { item, action: RadioButton(ListItemAction::NoAction) });
        assert(self.items() =~= old(self).items());
        assert(self.actions() =~= old(self).actions().push(ListItemAction::NoAction));
    }

    /// Replaces the item kept at `i`.
    pub fn set_item(&mut self, i: usize, item: T)
        requires
            old(self).wf(),
            i < old(self).capacity(),
        ensures
            final(self).wf(),
            final(self).capacity() == old(self).capacity(),
            final(self).actions() == old(self).actions(),
            final(self).items() == if i < old(self).items().len() {
                old(self).items().update(i as int, item)
            } else {
                old(self).items()
            },
    {
        let a = self.ulis[i].action.0;
        self.ulis.set(i, UglyListItem { item, action: RadioButton(a) });
        assert(self.actions() =~= old(self).actions());
        if i < self.len {
            assert(self.items() =~= old(self).items().update(i as int, item));
        } else {
            assert(self.items() =~= old(self).items());
        }
    }

    /// Sets the action of the item kept at `i`.
    pub fn set_action(&mut self, i: usize, a: ListItemAction)
        requires
            old(self).wf(),
            i < old(self).capacity(),
        ensures
            final(self).wf(),
            final(self).capacity() == old(self).capacity(),
            final(self).items() == old(self).items(),
            final(self).actions() == old(self).actions().update(i as int, a),
    {
        let ghost before = self.ulis@;
        let it = self.ulis.remove(i);
        self.ulis.insert(i, UglyListItem { item: it.item, action: RadioButton(a) });
        assert(self.ulis@ =~= before.update(i as int, UglyListItem { item: before[i as int].item, action: RadioButton(a) }));
        assert(self.items() =~= old(self).items());
        assert(self.actions() =~= old(self).actions().update(i as int, a));
    }

    /// The action of the item kept at `i`.
    pub fn action(&self, i: usize) -> (r: ListItemAction)
        requires
            i < self.capacity(),
        ensures
            r == self.actions()[i as int],
    {
        self.ulis[i].action.0
    }

    /// Makes the first `len` items kept the existing ones.
    pub fn set_len(&mut self, len: usize)
        requires
            old(self).wf(),
            len <= old(self).capacity(),
        ensures
            final(self).wf(),
            final(self).capacity() == old(self).capacity(),
            final(self).actions() == old(self).actions(),
            final(self).items().len() == len,
            forall|k: int| 0 <= k < len && k < old(self).items().len() ==> final(self).items()[k]
                == old(self).items()[k],
    {
        self.len = len;
    }

    /// The existing items, in order.
    pub fn get_list(&self) -> (r: Vec<&T>)
        requires
            self.wf(),
        ensures
            r@.len() == self.items().len(),
            forall|k: int| 0 <= k < r@.len() ==> *r@[k] == self.items()[k],
    {
        let mut r: Vec<&T> = Vec::new();
        let mut i: usize = 0;
        while i < self.len
            invariant
                self.wf(),
                i <= self.len,
                r@.len() == i,
                forall|k: int| 0 <= k < i ==> *r@[k] == self.items()[k],
            decreases self.len - i,
        {
            r.push(&self.ulis[i].item);
            i = i + 1;
        }
        r
    }
}

/// The first position of `v` in `slice`, if any.
pub fn index_of(slice: &[i64], v: &i64) -> (r: Option<usize>)
    ensures
        match r {
            Some(i) => i < slice@.len() && slice@[i as int] == *v && forall|j: int|
                0 <= j < i ==> slice@[j] != *v,
            None => forall|j: int| 0 <= j < slice@.len() ==> slice@[j] != *v,
        },
{
    let mut i: usize = 0;
    while i < slice.len()
        invariant
            i <= slice@.len(),
            forall|j: int| 0 <= j < i ==> slice@[j] != *v,
        decreases slice@.len() - i,
    {
        if slice[i] == *v {
            return Some(i);
        }
        i = i + 1;
    }
    None
}

/// `x` occurs in `s`.
pub open spec fn present(s: Seq<i64>, x: int) -> bool {
    exists|p: int| 0 <= p < s.len() && s[p] == x
}

/// The only position of `x` in `s`, when `x` occurs exactly once at `p`.
pub open spec fn occurs_once_at(s: Seq<i64>, x: i64, p: int) -> bool {
    &&& 0 <= p < s.len()
    &&& s[p] == x
    &&& forall|j: int| 0 <= j < s.len() && j != p ==> s[j] != x
}

/// The position of old item `x` in `s`: where it is, or 0 if it is not there.
pub open spec fn spec_position(s: Seq<i64>, x: i64) -> int {
    if exists|p: int| 0 <= p < s.len() && s[p] == x {
        choose|p: int| 0 <= p < s.len() && s[p] == x
    } else {
        0
    }
}

/// `s` with the entries at `a` and `b` exchanged.
pub open spec fn spec_swap(s: Seq<i64>, a: int, b: int) -> Seq<i64> {
    s.update(a, s[b]).update(b, s[a])
}

/// The list of old positions after the action of old item `x` at position `p`.
pub open spec fn spec_apply(s: Seq<i64>, p: int, a: ListItemAction) -> Seq<i64> {
    match a {
        ListItemAction::NoAction => s,
        ListItemAction::Remove => s.remove(p),
        ListItemAction::InsertBefore => s.insert(p, -1i64),
        ListItemAction::InsertAfter => s.insert(p + 1, -1i64),
        ListItemAction::MoveBefore => if 1 <= p {
            spec_swap(s, p, p - 1)
        } else {
            s
        },
        ListItemAction::MoveAfter => if p + 1 < s.len() {
            spec_swap(s, p, p + 1)
        } else {
            s
        },
    }
}

/// The starting list of old positions: `0..map_len`, after a new empty item
/// at the front when `insert_0`.
pub open spec fn spec_initial(map_len: nat, insert_0: bool) -> Seq<i64> {
    let s = Seq::new(map_len, |i: int| i as i64);
    if insert_0 {
        s.insert(0, -1i64)
    } else {
        s
    }
}

/// The list of old positions after the actions of old items `0..k`, each
/// applied where that item then stands.
pub open spec fn spec_steps(map_len: nat, insert_0: bool, actions: Seq<ListItemAction>, k: nat) -> Seq<
    i64,
>
    decreases k,
{
    if k == 0 {
        spec_initial(map_len, insert_0)
    } else {
        let s = spec_steps(map_len, insert_0, actions, (k - 1) as nat);
        spec_apply(s, spec_position(s, (k - 1) as i64), actions[k - 1])
    }
}

/// How many of the first `k` actions are `a`.
pub open spec fn count_action(actions: Seq<ListItemAction>, a: ListItemAction, k: int) -> int
    decreases k,
{
    if k <= 0 {
        0
    } else {
        count_action(actions, a, k - 1) + if actions[k - 1] == a {
            1int
        } else {
            0int
        }
    }
}

/// What the list of old positions keeps through the actions of old items
/// `0..k`: every entry is an old position or `-1` for a new empty item; each
/// old position not removed so far occurs exactly once, a removed one not at
/// all; and the length grows by one per insert and shrinks by one per remove.
pub open spec fn steps_inv(
    s: Seq<i64>,
    map_len: nat,
    insert_0: bool,
    actions: Seq<ListItemAction>,
    k: int,
) -> bool {
    &&& forall|j: int| 0 <= j < s.len() ==> -1 <= #[trigger] s[j] && s[j] < map_len
    &&& forall|i: int, j: int| 0 <= i < j < s.len() && s[i] >= 0 ==> s[i] != s[j]
    &&& forall|x: int|
        0 <= x < map_len ==> (#[trigger] present(s, x) <==> (x >= k || actions[x]
            != ListItemAction::Remove))
    &&& s.len() == map_len + (if insert_0 {
        1int
    } else {
        0int
    }) + count_action(actions, ListItemAction::InsertBefore, k) + count_action(
        actions,
        ListItemAction::InsertAfter,
        k,
    ) - count_action(actions, ListItemAction::Remove, k)
}

proof fn lemma_initial_inv(map_len: nat, insert_0: bool, actions: Seq<ListItemAction>)
    requires
        map_len <= i64::MAX,
    ensures
        steps_inv(spec_initial(map_len, insert_0), map_len, insert_0, actions, 0),
{
    let s = spec_initial(map_len, insert_0);
    let base = Seq::new(map_len, |i: int| i as i64);
    if insert_0 {
        assert forall|x: int| 0 <= x < map_len implies present(s, x) by {
            assert(s[x + 1] == x);
        }
    } else {
        assert forall|x: int| 0 <= x < map_len implies present(s, x) by {
            assert(s[x] == x);
        }
    }
}

proof fn lemma_step_inv(
    s: Seq<i64>,
    map_len: nat,
    insert_0: bool,
    actions: Seq<ListItemAction>,
    k: int,
)
    requires
        0 <= k < map_len,
        map_len <= i64::MAX,
        map_len <= actions.len(),
        steps_inv(s, map_len, insert_0, actions, k),
    ensures
        occurs_once_at(s, k as i64, spec_position(s, k as i64)),
        steps_inv(
            spec_apply(s, spec_position(s, k as i64), actions[k]),
            map_len,
            insert_0,
            actions,
            k + 1,
        ),
{
    let x = k as i64;
    assert(x as int == k);
    assert(present(s, k));
    let p = spec_position(s, x);
    assert(0 <= p < s.len() && s[p] == x);
    assert forall|j: int| 0 <= j < s.len() && j != p implies s[j] != x by {
        if j < p {
            assert(s[j] >= 0 ==> s[j] != s[p]);
        } else {
            assert(s[p] >= 0 ==> s[p] != s[j]);
        }
    }
    let a = actions[k];
    let t = spec_apply(s, p, a);
    assert(count_action(actions, ListItemAction::InsertBefore, k + 1) == count_action(
        actions,
        ListItemAction::InsertBefore,
        k,
    ) + if a == ListItemAction::InsertBefore {
        1int
    } else {
        0int
    });
    assert(count_action(actions, ListItemAction::InsertAfter, k + 1) == count_action(
        actions,
        ListItemAction::InsertAfter,
        k,
    ) + if a == ListItemAction::InsertAfter {
        1int
    } else {
        0int
    });
    assert(count_action(actions, ListItemAction::Remove, k + 1) == count_action(
        actions,
        ListItemAction::Remove,
        k,
    ) + if a == ListItemAction::Remove {
        1int
    } else {
        0int
    });
    match a {
        ListItemAction::NoAction => {},
        ListItemAction::Remove => {
            assert forall|y: int| 0 <= y < map_len implies (present(t, y) <==> (y >= k + 1 || actions[y]
                != ListItemAction::Remove)) by {
                if y == k {
                    assert forall|q: int| 0 <= q < t.len() implies t[q] != y by {
                        if q < p {
                            assert(t[q] == s[q]);
                        } else {
                            assert(t[q] == s[q + 1]);
                        }
                    }
                } else if present(s, y) {
                    let q = choose|q: int| 0 <= q < s.len() && s[q] == y;
                    if q < p {
                        assert(t[q] == y);
                    } else {
                        assert(q != p);
                        assert(t[q - 1] == y);
                    }
                } else {
                    assert forall|q: int| 0 <= q < t.len() implies t[q] != y by {
                        if q < p {
                            assert(t[q] == s[q]);
                        } else {
                            assert(t[q] == s[q + 1]);
                        }
                    }
                }
            }
            assert forall|i: int, j: int| 0 <= i < j < t.len() && t[i] >= 0 implies t[i]
                != t[j] by {
                let si = if i < p {
                    i
                } else {
                    i + 1
                };
                let sj = if j < p {
                    j
                } else {
                    j + 1
                };
                assert(t[i] == s[si] && t[j] == s[sj]);
            }
        },
        ListItemAction::InsertBefore | ListItemAction::InsertAfter => {
            let at = if a == ListItemAction::InsertBefore {
                p
            } else {
                p + 1
            };
            assert(t == s.insert(at, -1i64));
            assert forall|y: int| 0 <= y < map_len implies (present(t, y) <==> present(s, y)) by {
                if exists|q: int| 0 <= q < s.len() && s[q] == y {
                    let q = choose|q: int| 0 <= q < s.len() && s[q] == y;
                    if q < at {
                        assert(t[q] == y);
                    } else {
                        assert(t[q + 1] == y);
                    }
                }
                if exists|q: int| 0 <= q < t.len() && t[q] == y {
                    let q = choose|q: int| 0 <= q < t.len() && t[q] == y;
                    if q < at {
                        assert(s[q] == y);
                    } else {
                        assert(q != at);
                        assert(s[q - 1] == y);
                    }
                }
            }
            assert forall|i: int, j: int| 0 <= i < j < t.len() && t[i] >= 0 implies t[i]
                != t[j] by {
                if j != at && i != at {
                    let si = if i < at {
                        i
                    } else {
                        i - 1
                    };
                    let sj = if j < at {
                        j
                    } else {
                        j - 1
                    };
                    assert(t[i] == s[si] && t[j] == s[sj]);
                }
            }
            assert forall|j: int| 0 <= j < t.len() implies -1 <= #[trigger] t[j] && t[j] < map_len by {
                if j < at {
                    assert(t[j] == s[j]);
                } else if j > at {
                    assert(t[j] == s[j - 1]);
                }
            }
        },
        ListItemAction::MoveBefore | ListItemAction::MoveAfter => {
            let q = if a == ListItemAction::MoveBefore {
                p - 1
            } else {
                p + 1
            };
            if 0 <= q < s.len() {
                assert(t == spec_swap(s, p, q));
                let perm = |j: int| if j == p {
                    q
                } else if j == q {
                    p
                } else {
                    j
                };
                assert forall|j: int| 0 <= j < t.len() implies t[j] == s[perm(j)] by {}
                assert forall|y: int| 0 <= y < map_len implies (present(t, y) <==> present(s, y)) by {
                    if exists|r: int| 0 <= r < s.len() && s[r] == y {
                        let r = choose|r: int| 0 <= r < s.len() && s[r] == y;
                        assert(t[perm(r)] == y);
                    }
                    if exists|r: int| 0 <= r < t.len() && t[r] == y {
                        let r = choose|r: int| 0 <= r < t.len() && t[r] == y;
                        assert(s[perm(r)] == y);
                    }
                }
                assert forall|i: int, j: int| 0 <= i < j < t.len() && t[i] >= 0 implies t[i]
                    != t[j] by {
                    let pi = perm(i);
                    let pj = perm(j);
                    assert(t[i] == s[pi] && t[j] == s[pj]);
                    assert(pi != pj);
                    if pi < pj {
                    } else {
                    }
                }
            }
        },
    }
}

/// Applying the actions of the old items keeps every item that is not
/// removed exactly once, drops every removed item, adds only new empty items,
/// and changes the length by one per insert and minus one per remove.
pub proof fn lemma_actions_keep_items(
    map_len: nat,
    insert_0: bool,
    actions: Seq<ListItemAction>,
    k: nat,
)
    requires
        map_len <= i64::MAX,
        map_len <= actions.len(),
        k <= map_len,
    ensures
        steps_inv(spec_steps(map_len, insert_0, actions, k), map_len, insert_0, actions, k as int),
    decreases k,
{
    if k == 0 {
        lemma_initial_inv(map_len, insert_0, actions);
    } else {
        lemma_actions_keep_items(map_len, insert_0, actions, (k - 1) as nat);
        lemma_step_inv(
            spec_steps(map_len, insert_0, actions, (k - 1) as nat),
            map_len,
            insert_0,
            actions,
            k - 1,
        );
    }
}

/// The old position of each item of the rearranged list, or `-1` for a new
/// empty item: starting from `0..map_len` (after a new empty item at the front
/// when `insert_0`), the action of each old item is applied, in order of the
/// old items, where that item then stands.
pub fn index_new_to_old(map_len: usize, insert_0: bool, actions: &[ListItemAction]) -> (r: Vec<
    i64,
>)
    requires
        map_len <= i64::MAX,
        map_len <= actions@.len(),
    ensures
        r@ == spec_steps(map_len as nat, insert_0, actions@, map_len as nat),
        steps_inv(r@, map_len as nat, insert_0, actions@, map_len as int),
{
    let mut v: Vec<i64> = Vec::new();
    let mut i: usize = 0;
    while i < map_len
        invariant
            i <= map_len,
            map_len <= i64::MAX,
            v@ == Seq::new(i as nat, |j: int| j as i64),
        decreases map_len - i,
    {
        v.push(i as i64);
        i = i + 1;
    }
    if insert_0 {
        v.insert(0, -1);
    }
    proof {
        assert(v@ =~= spec_initial(map_len as nat, insert_0));
        lemma_initial_inv(map_len as nat, insert_0, actions@);
    }
    let mut old_i: usize = 0;
    while old_i < map_len
        invariant
            old_i <= map_len,
            map_len <= i64::MAX,
            map_len <= actions@.len(),
            v@ == spec_steps(map_len as nat, insert_0, actions@, old_i as nat),
            steps_inv(v@, map_len as nat, insert_0, actions@, old_i as int),
        decreases map_len - old_i,
    {
        let ghost s = v@;
        proof {
            lemma_step_inv(s, map_len as nat, insert_0, actions@, old_i as int);
        }
        let x = old_i as i64;
        let found = index_of(v.as_slice(), &x);
        proof {
            assert(x as int == old_i as int);
            assert(occurs_once_at(s, x, spec_position(s, x)));
        }
        let new_i = match found {
            Some(p) => p,
            None => 0,
        };
        proof {
            assert(new_i == spec_position(s, x));
            assert(new_i < v.len());
        }
        match actions[old_i] {
            ListItemAction::NoAction => {},
            ListItemAction::Remove => {
                v.remove(new_i);
            },
            ListItemAction::InsertBefore => {
                v.insert(new_i, -1);
            },
            ListItemAction::InsertAfter => {
                v.insert(new_i + 1, -1);
            },
            ListItemAction::MoveBefore => {
                if 1 <= new_i {
                    let a = v[new_i];
                    let b = v[new_i - 1];
                    v.set(new_i, b);
                    v.set(new_i - 1, a);
                }
            },
            ListItemAction::MoveAfter => {
                if new_i + 1 < v.len() {
                    let a = v[new_i];
                    let b = v[new_i + 1];
                    v.set(new_i, b);
                    v.set(new_i + 1, a);
                }
            },
        }
        proof {
            assert(v@ =~= spec_apply(s, spec_position(s, x), actions@[old_i as int]));
        }
        old_i = old_i + 1;
    }
    v
}

impl<T: RadioButtonOptions> UglyList<T> {
    /// Takes an edit of the list setting `key` (see `update_list_settings`):
    /// the settings are rearranged, the list then has as many items as the
    /// stored list, each item reads its choice from its entry, and each
    /// action is read anew.
    pub fn update_from(&mut self, m: &mut Vec<(String, SettingsValue)>, key: &str)
        requires
            old(self).wf(),
            spec_map_list(svd(old(m)@), key@).len() <= i64::MAX,
        ensures
            final(self).wf(),
            svd(final(m)@) == spec_update_list_settings(svd(old(m)@), key@).0,
            final(self).items().len() == spec_update_list_settings(svd(old(m)@), key@).1,
            forall|i: int|
                0 <= i < final(self).items().len() ==> is_choice_read(
                    svd(final(m)@),
                    spec_list_key(key@, i, "_item"@),
                    #[trigger] final(self).items()[i],
                ),
            forall|i: int|
                0 <= i < final(self).items().len() ==> #[trigger] final(self).actions()[i]
                    == spec_rb_update(
                    svd(final(m)@),
                    spec_list_key(key@, i, "_action"@),
                    ListItemAction::NoAction,
                ),
    {
        let n = update_list_settings(m, key);
        while self.ulis.len() < n
            invariant
                self.wf(),
            decreases n - self.ulis@.len(),
        {
            self.push_item(T::default());
        }
        let mut i: usize = 0;
        while i < n
            invariant
                i <= n,
                n <= self.ulis@.len(),
                self.len <= self.ulis@.len(),
                forall|j: int|
                    0 <= j < i ==> is_choice_read(
                        svd(m@),
                        spec_list_key(key@, j, "_item"@),
                        #[trigger] self.ulis@[j].item,
                    ),
                forall|j: int|
                    0 <= j < i ==> #[trigger] self.ulis@[j].action.0 == spec_rb_update(
                        svd(m@),
                        spec_list_key(key@, j, "_action"@),
                        ListItemAction::NoAction,
                    ),
            decreases n - i,
        {
            let ik = list_key(key, i, "_item");
            let item: T = choice_read(m, ik.as_str());
            let ak = list_key(key, i, "_action");
            let mut rb = RadioButton(ListItemAction::NoAction);
            rb.update_from_default(m, ak.as_str(), ListItemAction::NoAction);
            self.ulis.set(i, UglyListItem { item, action: rb });
            i = i + 1;
        }
        self.len = n;
    }
}

} // verus!
