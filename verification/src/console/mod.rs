//! The local console's grammar: what a typed line means.
pub mod tokens;
pub mod commands;
