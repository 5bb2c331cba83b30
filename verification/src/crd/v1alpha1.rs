//! Version `v1alpha1` of the custom resource.

pub mod bot;
pub mod common;
