//! A record-keeping store: entries with tags, a draft being composed, an
//! optional pinned entry, a search filter and two accent-color preferences.

pub mod color;
pub mod entry;
pub mod store;
