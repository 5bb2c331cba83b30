//! The version-independent form of the custom resource.

pub mod bot;
pub mod common;
pub mod convert;
pub mod traits;
