//! Tray utility core: a fixed catalog of "generate a value and copy it"
//! actions, the text formats of their values, the tray menu, and the dispatch
//! decision for a clicked menu item.
pub mod actions;
pub mod menu;
pub mod sources;
pub mod text;
