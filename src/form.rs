//! The add-item form: from what the user typed to a new item.

use crate::date::{iso_date_day, CalendarDate};
use crate::item::Item;
use vstd::prelude::*;

verus! {

/// The emoji of an item named `name`: its first character where that lies outside
/// ASCII, else a parcel.
pub open spec fn emoji_for(name: Seq<char>) -> Seq<char> {
    if name.len() > 0 && name[0] as u32 >= 128 {
        seq![name[0]]
    } else {
        "\u{1F4E6}"@
    }
}

/// Picks the emoji for an item named `name`: a leading non-ASCII character is taken
/// to be one.
pub fn extract_emoji(name: &str) -> (r: String)
    ensures
        r@ == emoji_for(name@),
{
    if !name.is_empty() {
        let first = name.substring_char(0, 1);
        let c = first.get_char(0);
        if c as u32 >= 128 {
            let r = String::from_str(first);
            proof {
                assert(r@ =~= seq![name@[0]]);
            }
            return r;
        }
    }
    String::from_str("\u{1F4E6}")
}

/// The item the form describes: a non-empty name and an expiry date written
/// `YYYY-MM-DD`; `None` where either is missing or the date names no day.
pub fn item_from_form(name: &str, expiry_text: &str) -> (r: Option<Item>)
    ensures
        r is Some <==> name@.len() > 0 && iso_date_day(expiry_text@) is Some,
        r matches Some(it) ==> {
            &&& it@.name == name@
            &&& it@.emoji == emoji_for(name@)
            &&& iso_date_day(expiry_text@) == Some(it@.expiry)
        },
{
    if name.is_empty() {
        return None;
    }
    match CalendarDate::parse_iso(expiry_text) {
        Some(date) => Some(Item::new(String::from_str(name), extract_emoji(name), date)),
        None => None,
    }
}

} // verus!
