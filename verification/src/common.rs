//! What the controller and the webhook share.

pub mod config;
pub mod content;
pub mod json;
pub mod state;
pub mod string_map;
pub mod text;
pub mod utils;
