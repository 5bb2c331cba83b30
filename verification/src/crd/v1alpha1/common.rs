//! Secrets as a bot of version `v1alpha1` names them.

use vstd::prelude::*;

verus! {

/// A secret value: given inline, or read from a Secret at run time.
#[derive(Debug, Clone)]
pub enum SecretItem {
    /// The value of the secret inline.
    Value { value: String },
    /// A reference to a Secret in the same namespace that holds the value.
    SecretKeyRef { secret_key_ref: SecretKeyRef },
}

/// A key of a Secret.
#[derive(Debug, Clone)]
pub struct SecretKeyRef {
    /// The name of the Secret.
    pub name: String,
    /// The key in the Secret.
    pub key: String,
}

} // verus!
