//! Decisions around saving, loading, exporting and importing the inventory.
//! Encoding and storage themselves happen outside the library; these functions
//! decide what becomes of their results.

use crate::item::Item;
use vstd::prelude::*;

verus! {

/// Whether `c` is an ASCII decimal digit.
pub open spec fn is_digit(c: char) -> bool {
    48 <= c as u32 <= 57
}

/// The shape of a `%Y%m%d_%H%M%S` stamp: a year of at least four digits (signed outside
/// 0 to 9999), month and day, an underscore, then hour, minute and second, two digits each.
pub open spec fn stamp_shape(s: Seq<char>) -> bool {
    &&& s.len() >= 15
    &&& s[s.len() - 7] == '_'
    &&& (is_digit(s[0]) || s[0] == '+' || s[0] == '-')
    &&& forall|i: int| 1 <= i < s.len() && i != s.len() - 7 ==> is_digit(#[trigger] s[i])
}

/// Relies on chrono's `Local::now` and `DateTime::format` with `%Y%m%d_%H%M%S`: the
/// local time of the call, which nothing here can predict. chrono writes the year with
/// at least four digits, and a sign before it outside 0 to 9999, and every other field
/// with two digits.
#[verifier::external_body]
fn local_timestamp() -> (r: String)
    ensures
        stamp_shape(r@),
{
    chrono::Local::now().format("%Y%m%d_%H%M%S").to_string()
}

/// The name of a backup file written at the moment spelled `stamp`.
pub open spec fn backup_name(stamp: Seq<char>) -> Seq<char> {
    "ukeep_backup_"@ + stamp + ".json"@
}

/// The file name for a backup taken at the moment spelled `stamp`.
pub fn backup_file_name_at(stamp: &str) -> (r: String)
    ensures
        r@ == backup_name(stamp@),
{
    let mut r = String::from_str("ukeep_backup_");
    r.append(stamp);
    r.append(".json");
    r
}

/// The file name for a backup taken now, stamped with the local time.
pub fn backup_file_name() -> (r: String)
    ensures
        exists|stamp: Seq<char>| r@ == backup_name(stamp) && stamp_shape(stamp),
{
    let stamp = local_timestamp();
    backup_file_name_at(stamp.as_str())
}

/// The inventory after reading it from storage: the stored list where it could be
/// decoded, else an empty one; the flag says whether the unreadable record must be
/// cleared.
pub fn inventory_from_storage(decoded: Option<Vec<Item>>) -> (r: (Vec<Item>, bool))
    ensures
        match decoded {
            Some(v) => r.0@ == v@ && !r.1,
            None => r.0@.len() == 0 && r.1,
        },
{
    match decoded {
        Some(v) => (v, false),
        None => (Vec::new(), true),
    }
}

/// The message shown when an import fails for `reason`.
pub open spec fn import_failure(reason: Seq<char>) -> Seq<char> {
    "导入失败: "@ + reason
}

/// Applies the outcome of an import: a decoded list replaces the inventory whole; an
/// error leaves it as it was and gives the message to show.
pub fn apply_import(items: &mut Vec<Item>, imported: Result<Vec<Item>, String>) -> (r: Option<String>)
    ensures
        match imported {
            Ok(v) => final(items)@ == v@ && r is None,
            Err(e) => final(items)@ == old(items)@ && (r matches Some(m) && m@ == import_failure(e@)),
        },
{
    match imported {
        Ok(v) => {
            *items = v;
            None
        },
        Err(e) => {
            let mut m = String::from_str("导入失败: ");
            m.append(e.as_str());
            Some(m)
        },
    }
}

} // verus!
