//! Non-owning references that survive a move of their target.

use vstd::prelude::*;

verus! {

/// A non-owning back-reference.
///
/// The reference holds the key under which its target is known (for an
/// element, its identifier) instead of an address, so it stays meaningful
/// when the target is moved. It says which target is meant and gives no
/// access to it.
#[derive(Clone, Copy, Debug, PartialEq, Eq)]
pub struct UnsafePtr {
    /// The key of the target, or `None` for the null reference.
    pub target: Option<u64>,
}

impl UnsafePtr {
    pub open spec fn spec_is_null(&self) -> bool {
        self.target is None
    }

    /// The reference that refers to nothing.
    pub fn null() -> (ptr: Self)
        ensures
            ptr == (UnsafePtr { target: None }),
    {
        UnsafePtr { target: None }
    }

    /// The reference to the target known under `key`.
    pub fn to(key: u64) -> (ptr: Self)
        ensures
            ptr == (UnsafePtr { target: Some(key) }),
    {
        UnsafePtr { target: Some(key) }
    }

    /// Whether the reference refers to nothing.
    #[verifier::when_used_as_spec(spec_is_null)]
    pub fn is_null(&self) -> (null: bool)
        ensures
            null == (self.target is None),
    {
        self.target.is_none()
    }
}

} // verus!
