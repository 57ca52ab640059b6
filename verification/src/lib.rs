//! A map that keeps a 64-bit digest of each key in place of the key itself.
//!
//! Keys are reduced to digests by a seeded hash state that the map owns, so a
//! map can answer lookups, membership queries and removals by key without ever
//! storing, returning or enumerating the keys. Two keys with the same digest
//! are the same key as far as a map can tell.

pub mod state;
pub mod key;
pub mod model;
pub mod item;
pub mod table;
pub mod laws;

pub use crate::item::ExistsItem;
pub use crate::key::KeyBytes;
pub use crate::table::ExistsMap;
