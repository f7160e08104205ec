use vstd::prelude::*;

verus! {

/// Closes [`crate::DaemonScope`] to the two scopes of this crate.
pub trait Sealed {}

impl Sealed for crate::scope::Global {}

impl Sealed for crate::scope::Local {}

} // verus!
