//! File drag-and-drop for an iOS view: the state kept while a drag session
//! is over the view, the events it produces, and a drop-zone model that
//! reacts to those events.

pub mod geometry;
pub mod external_paths;
pub mod file_drop;
pub mod drop_zone;
pub mod drag_drop;
pub mod laws;
