//! Secrets as a bot names them.

use vstd::prelude::*;

verus! {

/// A secret value: given inline, or read from a Secret at run time.
#[derive(Debug, Clone)]
pub enum SecretItem {
    /// The value itself.
    Value { value: String },
    /// A key of a Secret in the bot's namespace. The operator never reads it.
    SecretKeyRef { secret_key_ref: SecretKeyRef },
}

/// A key of a Secret.
#[derive(Debug, Clone)]
pub struct SecretKeyRef {
    pub name: String,
    pub key: String,
}

} // verus!
