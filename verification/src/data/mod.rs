//! Game content as plain data: abilities, items and characters.

pub mod abilities;
pub mod items;
pub mod characters;
