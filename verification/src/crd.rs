//! The custom resource: its wire version and its hub form.

pub mod hub;
pub mod v1alpha1;
