use lib::thin_arc_list::{ArcItemBorrow, RawItem, ThinArcItem, ThinArcList, WithOffset};

fn sample() -> ThinArcList<&'static str, u32> {
    ThinArcList::from_header_and_iter("header", vec![10, 20, 30])
}

fn item_of<H, T>(list: &ThinArcList<H, T>, index: usize) -> ThinArcItem<H, T> {
    list.with_item(index, |it| it.clone())
}

fn list_len<H, T>(list: &ThinArcList<H, T>) -> usize {
    list.with_arc(|a| a.slice.len())
}

#[test]
fn from_header_and_iter_keeps_header_and_values() {
    let list = sample();
    assert_eq!(*list.header(), "header");
    assert_eq!(list_len(&list), 3);
    assert_eq!(list.with_item(0, |it| **it), 10);
    assert_eq!(list.with_item(1, |it| **it), 20);
    assert_eq!(list.with_item(2, |it| **it), 30);
}

#[test]
fn from_header_and_iter_empty() {
    let list: ThinArcList<u8, u32> = ThinArcList::from_header_and_iter(3, Vec::new());
    assert_eq!(*list.header(), 3);
    assert_eq!(list_len(&list), 0);
}

#[test]
fn every_item_reports_its_position() {
    let values: Vec<u64> = (0..50).map(|v| v * 7).collect();
    let list = ThinArcList::from_header_and_iter((), values);
    for i in 0..50 {
        assert_eq!(list.with_item(i, |it| it.index()), i);
        assert_eq!(list.with_item(i, |it| **it), (i as u64) * 7);
    }
}

#[test]
fn header_from_iter_computes_header_from_slots() {
    let list = ThinArcList::header_from_iter(vec![1u32, 2, 3, 4], |slots: &mut [WithOffset<u32>]| {
        slots.iter().map(|s| s.value).sum::<u32>()
    });
    assert_eq!(*list.header(), 10);
    assert_eq!(list.with_item(3, |it| **it), 4);
}

#[test]
fn header_from_iter_keeps_changed_values() {
    let list = ThinArcList::header_from_iter(vec![1u32, 2, 3], |slots: &mut [WithOffset<u32>]| {
        for s in slots.iter_mut() {
            s.value *= 100;
        }
        slots.len()
    });
    assert_eq!(*list.header(), 3);
    assert_eq!(list.with_item(0, |it| **it), 100);
    assert_eq!(list.with_item(2, |it| **it), 300);
    assert_eq!(list.with_item(2, |it| it.index()), 2);
}

#[test]
fn header_from_iter_reordered_slots_keep_positions() {
    let list = ThinArcList::header_from_iter(vec![1u32, 2, 3], |slots: &mut [WithOffset<u32>]| {
        slots.swap(0, 2);
        'h'
    });
    assert_eq!(*list.header(), 'h');
    assert_eq!(list_len(&list), 3);
    assert_eq!(list.with_item(0, |it| (**it, it.index())), (3, 0));
    assert_eq!(list.with_item(1, |it| (**it, it.index())), (2, 1));
    assert_eq!(list.with_item(2, |it| (**it, it.index())), (1, 2));
    let item = list.with_item(0, |it| it.clone());
    assert_eq!(item.with_parent(|l| l.with_item(item.index(), |j| **j)), 3);
}

#[test]
fn header_from_iter_length_is_items_length() {
    let list = ThinArcList::header_from_iter(vec![4u8, 5, 6, 7, 8], |slots: &mut [WithOffset<u8>]| slots.len());
    assert_eq!(*list.header(), 5);
    assert_eq!(list_len(&list), 5);
}

#[test]
fn with_parent_gives_the_list_back() {
    let list = sample();
    let item = item_of(&list, 1);
    assert_eq!(item.with_parent(|l| *l.header()), "header");
    assert_eq!(item.with_parent(|l| l.with_item(item.index(), |it| **it)), 20);
    assert!(item.with_parent(|l| l.with_item(item.index(), |it| it == &item)));
}

#[test]
fn item_outlives_its_list_handle() {
    let item = {
        let list = sample();
        item_of(&list, 2)
    };
    assert_eq!(*item, 30);
    assert_eq!(item.with_parent(|l| list_len(l)), 3);
}

#[test]
fn raw_round_trip() {
    let list = sample();
    let item = item_of(&list, 2);
    let raw: RawItem<&str, u32> = item.into_raw();
    let back = ThinArcItem::from_raw(raw);
    assert_eq!(*back, 30);
    assert_eq!(back.index(), 2);
}

#[test]
fn as_raw_leaves_item_in_place() {
    let list = sample();
    let item = item_of(&list, 0);
    let raw = item.as_raw();
    let borrowed: ArcItemBorrow<&str, u32> = ThinArcItem::from_raw_ref(&raw);
    let again = borrowed.clone_arc();
    assert_eq!(*again, 10);
    assert_eq!(*item, 10);
    let back = ThinArcItem::from_raw(raw);
    assert_eq!(back.index(), 0);
}

#[test]
fn borrow_arc_round_trip() {
    let list = sample();
    let item = item_of(&list, 1);
    let borrowed = item.borrow_arc();
    assert_eq!(*borrowed.clone_arc(), 20);
    assert_eq!(borrowed.with_arc(|it| it.index()), 1);
}

#[test]
fn list_clone_shares_contents() {
    let list = sample();
    let other = list.clone();
    assert_eq!(*other.header(), "header");
    assert_eq!(other.with_item(2, |it| **it), 30);
    let a = item_of(&list, 2);
    let b = item_of(&other, 2);
    assert!(a == b);
}

#[test]
fn item_clone_is_equal() {
    let list = sample();
    let item = item_of(&list, 1);
    let copy = item.clone();
    assert_eq!(copy.index(), 1);
    assert_eq!(*copy, 20);
    assert!(copy == item);
}

#[test]
fn items_compare_by_value() {
    let list = ThinArcList::from_header_and_iter((), vec![5u32, 7, 5]);
    let a = item_of(&list, 0);
    let b = item_of(&list, 1);
    let c = item_of(&list, 2);
    assert!(a == c);
    assert!(!(a != c));
    assert!(a != b);
    assert!(a < b);
    assert!(a <= c);
    assert!(b > c);
    assert!(b >= a);
    assert_eq!(a.partial_cmp(&b), Some(std::cmp::Ordering::Less));
    assert_eq!(a.partial_cmp(&c), Some(std::cmp::Ordering::Equal));
}

#[test]
fn same_slot_equal_even_when_value_is_not() {
    let list = ThinArcList::from_header_and_iter((), vec![f64::NAN, f64::NAN]);
    let a = item_of(&list, 0);
    let a2 = item_of(&list, 0);
    let b = item_of(&list, 1);
    assert!(a == a2);
    assert!(!(a != a2));
    assert!(!(a == b));
    assert!(a != b);
    assert_eq!(a.partial_cmp(&b), None);
}

#[test]
fn equal_lists_in_different_allocations_compare_values() {
    let one = ThinArcList::from_header_and_iter((), vec![f64::NAN]);
    let two = ThinArcList::from_header_and_iter((), vec![f64::NAN]);
    let a = item_of(&one, 0);
    let b = item_of(&two, 0);
    assert!(!(a == b));
    assert!(a != b);
}
