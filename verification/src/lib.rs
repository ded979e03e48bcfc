//! A generator core that discovers the modules of a multi-crate project,
//! walks their parsed declarations, and converts them into a
//! backend-agnostic intermediate model with chained, span-located
//! diagnostics.

pub mod config;
pub mod convert;
pub mod dart;
pub mod errors;
pub mod logic;
pub mod models;
pub mod nodes;
pub mod utils;
