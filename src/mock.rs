//! A sample inventory for a first start.

use crate::date::{in_day_range, today, CalendarDate};
use crate::item::Item;
use vstd::prelude::*;

verus! {

/// The sample items: name, emoji, and days from today to expiry.
pub open spec fn mock_table() -> Seq<(Seq<char>, Seq<char>, int)> {
    seq![
        ("全脂牛奶"@, "🥛"@, -2),
        ("切片面包"@, "🍞"@, 1),
        ("草莓酸奶"@, "🍓"@, 3),
        ("三文鱼"@, "🐟"@, 2),
        ("鸡蛋 (12枚)"@, "🥚"@, 10),
        ("冷冻披萨"@, "🍕"@, 60),
        ("苹果"@, "🍎"@, 5),
    ]
}

/// Whether `s` is the sample inventory with dates counted from `today`.
pub open spec fn is_mock_inventory(s: Seq<Item>, today: int) -> bool {
    &&& s.len() == mock_table().len()
    &&& forall|i: int|
        0 <= i < s.len() ==> {
            &&& (#[trigger] s[i])@.name == mock_table()[i].0
            &&& s[i]@.emoji == mock_table()[i].1
            &&& s[i]@.expiry == today + mock_table()[i].2
        }
}

/// Whether every sample date counted from `today` can be held.
pub open spec fn mock_fits(today: int) -> bool {
    in_day_range(today - 2) && in_day_range(today + 60)
}

fn sample(name: &str, emoji: &str, today: CalendarDate, days: i64) -> (r: Item)
    requires
        -2 <= days <= 60,
        mock_fits(today@),
    ensures
        r@.name == name@,
        r@.emoji == emoji@,
        r@.expiry == today@ + days,
{
    match today.add_days(days) {
        Some(d) => Item::new(String::from_str(name), String::from_str(emoji), d),
        None => Item::new(String::from_str(name), String::from_str(emoji), today),
    }
}

/// The sample inventory, with dates counted from `today`.
pub fn generate_mock_data_on(today: CalendarDate) -> (r: Vec<Item>)
    requires
        mock_fits(today@),
    ensures
        is_mock_inventory(r@, today@),
{
    let mut v: Vec<Item> = Vec::new();
    v.push(sample("全脂牛奶", "🥛", today, -2));
    v.push(sample("切片面包", "🍞", today, 1));
    v.push(sample("草莓酸奶", "🍓", today, 3));
    v.push(sample("三文鱼", "🐟", today, 2));
    v.push(sample("鸡蛋 (12枚)", "🥚", today, 10));
    v.push(sample("冷冻披萨", "🍕", today, 60));
    v.push(sample("苹果", "🍎", today, 5));
    v
}

/// The sample inventory, dated from today's local date; empty in the (theoretical)
/// case that the sample dates cannot be held.
pub fn generate_mock_data() -> (r: Vec<Item>)
    ensures
        r@.len() == 0 || exists|t: int| is_mock_inventory(r@, t),
{
    let t = today();
    let first = t.add_days(-2);
    let last = t.add_days(60);
    if first.is_some() && last.is_some() {
        generate_mock_data_on(t)
    } else {
        Vec::new()
    }
}

} // verus!
