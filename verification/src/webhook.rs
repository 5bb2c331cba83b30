//! The admission webhook.

pub mod admission;
pub mod error;
