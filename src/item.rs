//! Items of the inventory.

use crate::date::CalendarDate;
use crate::expiry::{deadline_of, deadline_text, display_deadline, tier_of, urgency_tier, UrgencyTier};
use vstd::prelude::*;

verus! {

/// The identity of an item: the 128 bits of its UUID.
#[derive(Clone, Copy, Debug, PartialEq, Eq, Hash, Structural)]
pub struct ItemId(pub u128);

/// Relies on uuid's `Uuid::new_v4` and `Uuid::as_u128`: a random UUID whose version
/// field is 4 and whose variant is RFC 4122.
#[verifier::external_body]
fn random_uuid() -> (r: u128)
    ensures
        r & 0xF000C000000000000000u128 == 0x40008000000000000000u128,
{
    uuid::Uuid::new_v4().as_u128()
}

impl ItemId {
    /// A fresh random identity.
    pub fn random() -> (r: ItemId)
        ensures
            r.0 & 0xF000C000000000000000u128 == 0x40008000000000000000u128,
    {
        ItemId(random_uuid())
    }
}

/// What an item holds, as plain values.
pub struct ItemView {
    pub id: ItemId,
    pub name: Seq<char>,
    pub emoji: Seq<char>,
    /// Day number of the expiry date.
    pub expiry: int,
}

/// A perishable item: a name, an emoji and the date it expires on.
#[derive(Clone, Debug)]
pub struct Item {
    id: ItemId,
    name: String,
    emoji: String,
    expiry_date: CalendarDate,
}

impl View for Item {
    type V = ItemView;

    closed spec fn view(&self) -> ItemView {
        ItemView {
            id: self.id,
            name: self.name@,
            emoji: self.emoji@,
            expiry: self.expiry_date@,
        }
    }
}

impl PartialEq for Item {
    fn eq(&self, other: &Item) -> (r: bool)
        ensures
            r == (self@ == other@),
    {
        let same = self.id == other.id && self.name == other.name && self.emoji == other.emoji
            && self.expiry_date.day_number() == other.expiry_date.day_number();
        proof {
            if same {
                assert(self@ == other@);
            }
        }
        same
    }
}

impl vstd::std_specs::cmp::PartialEqSpecImpl for Item {
    open spec fn obeys_eq_spec() -> bool {
        true
    }

    open spec fn eq_spec(&self, other: &Item) -> bool {
        self@ == other@
    }
}

impl Eq for Item {}

/// Days from `today` to the expiry of an item: negative once it has expired.
pub open spec fn days_left(v: ItemView, today: int) -> int {
    v.expiry - today
}

impl Item {
    /// A new item under a fresh random identity.
    pub fn new(name: String, emoji: String, expiry_date: CalendarDate) -> (r: Item)
        ensures
            r@.name == name@,
            r@.emoji == emoji@,
            r@.expiry == expiry_date@,
            r@.id.0 & 0xF000C000000000000000u128 == 0x40008000000000000000u128,
    {
        Item { id: ItemId::random(), name, emoji, expiry_date }
    }

    /// An item under a given identity, as when it is read back from storage.
    pub fn with_id(id: ItemId, name: String, emoji: String, expiry_date: CalendarDate) -> (r: Item)
        ensures
            r@ == (ItemView { id, name: name@, emoji: emoji@, expiry: expiry_date@ }),
    {
        Item { id, name, emoji, expiry_date }
    }

    pub fn id(&self) -> (r: ItemId)
        ensures
            r == self@.id,
    {
        self.id
    }

    pub fn name(&self) -> (r: &str)
        ensures
            r@ == self@.name,
    {
        self.name.as_str()
    }

    pub fn emoji(&self) -> (r: &str)
        ensures
            r@ == self@.emoji,
    {
        self.emoji.as_str()
    }

    pub fn expiry_date(&self) -> (r: CalendarDate)
        ensures
            r@ == self@.expiry,
    {
        self.expiry_date
    }

    /// Days from `today` to the expiry date: negative once the item has expired.
    pub fn days_remaining(&self, today: CalendarDate) -> (r: i64)
        ensures
            r == days_left(self@, today@),
    {
        today.days_until(&self.expiry_date)
    }

    /// How urgently the item must be used up, seen from `today`.
    pub fn urgency(&self, today: CalendarDate) -> (r: UrgencyTier)
        ensures
            r == tier_of(days_left(self@, today@)),
    {
        urgency_tier(self.days_remaining(today))
    }

    /// The style class of the item's card, seen from `today`.
    pub fn status_class(&self, today: CalendarDate) -> (r: &'static str)
        ensures
            tier_of(days_left(self@, today@)) == UrgencyTier::Error ==> r@ == "status-error"@,
            tier_of(days_left(self@, today@)) == UrgencyTier::Warning ==> r@ == "status-warning"@,
            tier_of(days_left(self@, today@)) == UrgencyTier::Safe ==> r@ == "status-safe"@,
    {
        self.urgency(today).css_class()
    }

    /// The deadline phrase shown on the item's card, seen from `today`.
    pub fn display_deadline(&self, today: CalendarDate) -> (r: String)
        ensures
            r@ == deadline_text(deadline_of(days_left(self@, today@))),
    {
        display_deadline(self.days_remaining(today))
    }
}

} // verus!
