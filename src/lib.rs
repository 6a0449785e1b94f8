//! Perishable-item tracking: expiry urgency, item records, the inventory
//! list and the swipe gesture that removes an item from it.

pub mod date;
pub mod expiry;
pub mod form;
pub mod gesture;
pub mod inventory;
pub mod item;
pub mod mock;
pub mod transfer;
