//! Marker for hub forms.

use vstd::prelude::*;

verus! {

/// A version-independent form of a custom resource.
pub trait Hub {

}

} // verus!
