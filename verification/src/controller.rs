//! The reconciliation engine.

pub mod bot;
pub mod config_map;
pub mod deployment;
pub mod drift;
pub mod env;
pub mod keyed;
pub mod labels;
pub mod laws;
pub mod phase;
pub mod pvc;
pub mod service;
pub mod sorted;
pub mod traits;
pub mod utils;
