//! Admission-time validation of bots.

pub mod bot;
pub mod error;
pub mod utils;
