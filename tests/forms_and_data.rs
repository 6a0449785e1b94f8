use ukeep::date::CalendarDate;
use ukeep::form::{extract_emoji, item_from_form};
use ukeep::item::{Item, ItemId};
use ukeep::mock::{generate_mock_data, generate_mock_data_on};
use ukeep::transfer::{apply_import, backup_file_name, backup_file_name_at, inventory_from_storage};

#[test]
fn emoji_from_leading_character() {
    assert_eq!(extract_emoji("🥛 牛奶"), "🥛");
    assert_eq!(extract_emoji("牛奶"), "牛");
    assert_eq!(extract_emoji("milk"), "📦");
    assert_eq!(extract_emoji(""), "📦");
    assert_eq!(extract_emoji("é"), "é");
}

#[test]
fn form_builds_an_item() {
    let it = item_from_form("🍞 bread", "2024-06-01").unwrap();
    assert_eq!(it.name(), "🍞 bread");
    assert_eq!(it.emoji(), "🍞");
    assert_eq!(it.expiry_date().to_iso_string(), "2024-06-01");
}

#[test]
fn form_refuses_missing_name_or_bad_date() {
    assert!(item_from_form("", "2024-06-01").is_none());
    assert!(item_from_form("bread", "2024-13-01").is_none());
    assert!(item_from_form("bread", "").is_none());
}

#[test]
fn sample_inventory() {
    let t = CalendarDate::parse_iso("2024-05-01").unwrap();
    let v = generate_mock_data_on(t);
    let offsets: Vec<i64> = v.iter().map(|i| i.days_remaining(t)).collect();
    assert_eq!(offsets, vec![-2, 1, 3, 2, 10, 60, 5]);
    assert_eq!(v[0].name(), "全脂牛奶");
    assert_eq!(v[0].emoji(), "🥛");
    assert_eq!(v[6].name(), "苹果");
    assert_eq!(generate_mock_data().len(), 7);
}

#[test]
fn backup_names() {
    assert_eq!(backup_file_name_at("20240501_120000"), "ukeep_backup_20240501_120000.json");
    let n = backup_file_name();
    assert!(n.starts_with("ukeep_backup_") && n.ends_with(".json"));
    assert_eq!(n.len(), "ukeep_backup_".len() + 15 + ".json".len());
}

fn sample(id: u128) -> Item {
    let d = CalendarDate::parse_iso("2024-05-01").unwrap();
    Item::with_id(ItemId(id), "a".to_string(), "b".to_string(), d)
}

#[test]
fn import_replaces_or_keeps() {
    let mut v = vec![sample(1), sample(2)];
    assert_eq!(apply_import(&mut v, Ok(vec![sample(3)])), None);
    assert_eq!(v.len(), 1);
    assert_eq!(v[0].id(), ItemId(3));
    let msg = apply_import(&mut v, Err("bad json".to_string()));
    assert_eq!(msg, Some("导入失败: bad json".to_string()));
    assert_eq!(v[0].id(), ItemId(3));
    assert_eq!(apply_import(&mut v, Ok(Vec::new())), None);
    assert!(v.is_empty());
}

#[test]
fn storage_fallback() {
    let (v, clear) = inventory_from_storage(Some(vec![sample(1)]));
    assert_eq!(v.len(), 1);
    assert!(!clear);
    let (v, clear) = inventory_from_storage(None);
    assert!(v.is_empty());
    assert!(clear);
}
