//! State shared by every request and every reconcile.

use crate::common::config::AppConfig;
use vstd::prelude::*;

verus! {

/// The immutable state that the operator is started with.
#[derive(Debug, Clone)]
pub struct State {
    pub config: AppConfig,
}

impl Default for State {
    fn default() -> (r: Self)
        ensures
            r.config.controller.is_default(),
            r.config.webhook.is_default(),
    {
        State { config: AppConfig::default() }
    }
}

} // verus!
