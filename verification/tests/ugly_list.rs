use hollowknight_autosplit_wasm::ugly_list::{index_new_to_old, index_of, ListItemAction, UglyList};

use ListItemAction::{InsertAfter, InsertBefore, MoveAfter, MoveBefore, NoAction, Remove};

#[test]
fn index_of_finds_first() {
    assert_eq!(index_of(&[3, 1, 3], &3), Some(0));
    assert_eq!(index_of(&[3, 1, 3], &1), Some(1));
    assert_eq!(index_of(&[3, 1, 3], &7), None);
}

#[test]
fn no_actions_keep_order() {
    assert_eq!(index_new_to_old(3, false, &[NoAction, NoAction, NoAction]), vec![0, 1, 2]);
    assert_eq!(index_new_to_old(2, true, &[NoAction, NoAction]), vec![-1, 0, 1]);
}

#[test]
fn remove_and_insert() {
    assert_eq!(index_new_to_old(3, false, &[NoAction, Remove, NoAction]), vec![0, 2]);
    assert_eq!(index_new_to_old(2, false, &[InsertBefore, InsertAfter]), vec![-1, 0, 1, -1]);
}

#[test]
fn moves_swap_neighbours() {
    assert_eq!(index_new_to_old(3, false, &[NoAction, MoveBefore, NoAction]), vec![1, 0, 2]);
    assert_eq!(index_new_to_old(3, false, &[MoveAfter, NoAction, NoAction]), vec![1, 0, 2]);
    assert_eq!(index_new_to_old(2, false, &[MoveBefore, MoveAfter]), vec![0, 1]);
    assert_eq!(index_new_to_old(3, false, &[MoveAfter, MoveAfter, NoAction]), vec![0, 1, 2]);
}

#[test]
fn kept_items_appear_once() {
    let r = index_new_to_old(4, true, &[Remove, MoveAfter, InsertBefore, MoveBefore]);
    for x in [1i64, 2, 3] {
        assert_eq!(r.iter().filter(|&&y| y == x).count(), 1);
    }
    assert_eq!(r.iter().filter(|&&y| y == 0).count(), 0);
    assert_eq!(r.len(), 4 + 1 + 1 - 1);
}

#[test]
fn list_items() {
    let mut l: UglyList<u32> = UglyList::new();
    l.push_item(7);
    l.push_item(8);
    assert!(l.get_list().is_empty());
    l.set_len(2);
    assert_eq!(l.get_list(), vec![&7, &8]);
    l.set_item(1, 9);
    l.set_action(0, Remove);
    assert_eq!(l.action(0), Remove);
    assert_eq!(l.get_list(), vec![&7, &9]);
    assert_eq!(l.capacity_len(), 2);
}
