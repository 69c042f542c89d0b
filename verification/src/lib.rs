//! Decision logic of a headless Minecraft bot: combat state machines and
//! timing, weapon/armor/tool choice, container transfer planning, crafting
//! plans and their transactional execution, and the console command
//! grammar. Every function here is pure with respect to the world: what it
//! observes is handed in, what it decides is handed back.
use vstd::prelude::*;

pub mod text;
pub mod error;
pub mod rng;
pub mod combat;
pub mod equipment;
pub mod config;
pub mod container;
pub mod crafting;
pub mod console;
