//! Combat decisions: eating, the Wind Charge self-launch, attack timing,
//! weapon choice and movement.
pub mod consume;
pub mod wind_launch;
pub mod crits;
pub mod shield_break;
pub mod heal;
pub mod movement;
pub mod steering;
pub mod strafing;
pub mod mace;
pub mod health;
pub mod state;
pub mod defense;
pub mod controller;
pub mod attack;
pub mod weapon;
pub mod eating;
pub mod targeting;
pub mod tick;
