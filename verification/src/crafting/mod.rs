//! Crafting: the recipe book and its dependency planner, grid resolution,
//! and the execution of a resolved plan through a menu driver, step by
//! step, each step counted only once the driver's reply confirms it.
pub mod counts;
pub mod recipes;
pub mod planner;
pub mod execution;
pub mod service;
pub mod grid;
pub mod availability;
pub mod menu;
pub mod live;
pub mod run;

pub use counts::ItemCounts;
pub use recipes::{Failure, Ingredient, IngredientSlot, Recipe, RecipeBook, RecipeLayout, SourceInfo, Station};
pub use planner::{CraftPlan, PlanStep};
pub use execution::{
    execute, execute_from_snapshot, grid_cell, menu_request, open_reply, operation_reply, placement_reply,
    MenuRequest, StepOutcome, CraftCancellation, CraftResult, CraftStatus, CraftingDriver, CraftingMenu, CraftingOptions,
    DriverError, IngredientPlacement, MenuSnapshot, ResolvedCraftPlan,
};
pub use service::{CraftService, CraftServiceStatus};
pub use availability::{Availability, Missing};
pub use menu::CraftingMenuSnapshot;
