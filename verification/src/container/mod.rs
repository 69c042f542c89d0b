//! Chest access: the menu model, transfer planning, and the state machine
//! that owns the inventory while a container is in use.
pub mod model;
pub mod planner;
pub mod clicks;
pub mod state_machine;
pub mod session;
