//! The automatic equipment system: what to wear, what to hold in the
//! offhand, which tool or weapon belongs in which hotbar slot, and when a
//! displaced item may be dropped.
pub mod model;
pub mod tool_selection;
pub mod offhand;
pub mod autodrop;
pub mod scoring;
pub mod armor;
pub mod tools;
pub mod hotbar;
pub mod manager;
