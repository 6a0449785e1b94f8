use ukeep::date::CalendarDate;
use ukeep::inventory::{remove_item, sort_by_urgency, urgent_count};
use ukeep::item::{Item, ItemId};

fn day(today: CalendarDate, offset: i64) -> CalendarDate {
    today.add_days(offset).unwrap()
}

fn item(id: u128, today: CalendarDate, offset: i64) -> Item {
    Item::with_id(ItemId(id), format!("item{}", id), "x".to_string(), day(today, offset))
}

fn today() -> CalendarDate {
    CalendarDate::parse_iso("2024-05-01").unwrap()
}

fn days(items: &[Item], t: CalendarDate) -> Vec<i64> {
    items.iter().map(|i| i.days_remaining(t)).collect()
}

fn ids(items: &[Item]) -> Vec<u128> {
    items.iter().map(|i| i.id().0).collect()
}

#[test]
fn sorts_by_days_remaining() {
    let t = today();
    let mut v = vec![item(1, t, 5), item(2, t, -2), item(3, t, 0), item(4, t, 3)];
    sort_by_urgency(&mut v, t);
    assert_eq!(days(&v, t), vec![-2, 0, 3, 5]);
    assert_eq!(ids(&v), vec![2, 3, 4, 1]);
}

#[test]
fn sort_keeps_order_of_ties() {
    let t = today();
    let mut v = vec![
        item(1, t, 3),
        item(2, t, 1),
        item(3, t, 3),
        item(4, t, 1),
        item(5, t, 3),
        item(6, t, -4),
    ];
    sort_by_urgency(&mut v, t);
    assert_eq!(ids(&v), vec![6, 2, 4, 1, 3, 5]);
}

#[test]
fn sort_edge_cases() {
    let t = today();
    let mut empty: Vec<Item> = Vec::new();
    sort_by_urgency(&mut empty, t);
    assert!(empty.is_empty());
    let mut one = vec![item(1, t, 9)];
    sort_by_urgency(&mut one, t);
    assert_eq!(ids(&one), vec![1]);
    let mut desc = vec![item(1, t, 4), item(2, t, 3), item(3, t, 2), item(4, t, 1)];
    sort_by_urgency(&mut desc, t);
    assert_eq!(ids(&desc), vec![4, 3, 2, 1]);
}

#[test]
fn counts_urgent_items() {
    let t = today();
    let v = vec![item(1, t, 5), item(2, t, -2), item(3, t, 0), item(4, t, 3), item(5, t, 4)];
    assert_eq!(urgent_count(&v, t), 3);
    assert_eq!(urgent_count(&Vec::new(), t), 0);
}

#[test]
fn removes_by_id() {
    let t = today();
    let mut v = vec![item(1, t, 5), item(2, t, -2), item(3, t, 0)];
    remove_item(&mut v, ItemId(2));
    assert_eq!(ids(&v), vec![1, 3]);
    remove_item(&mut v, ItemId(99));
    assert_eq!(ids(&v), vec![1, 3]);
    remove_item(&mut v, ItemId(1));
    remove_item(&mut v, ItemId(3));
    assert!(v.is_empty());
}

#[test]
fn removes_every_copy_of_an_id() {
    let t = today();
    let mut v = vec![item(1, t, 5), item(1, t, 2), item(2, t, 0), item(1, t, 1)];
    remove_item(&mut v, ItemId(1));
    assert_eq!(ids(&v), vec![2]);
}
