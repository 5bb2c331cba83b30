//! Decision core of a Kubernetes operator for single-replica trading bots.
//!
//! The crate holds the pure part of the operator: the resource model, the
//! projection of a bot onto its dependent objects, drift detection, the
//! reconcile plan, the phase state machine and admission validation.

pub mod common;
pub mod objects;
pub mod webhook;
pub mod crd;
pub mod error;
pub mod controller;
