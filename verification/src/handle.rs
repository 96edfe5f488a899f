//! Addresses of native objects.

use vstd::prelude::*;

verus! {

/// The address of an object that lives in the native library.
///
/// A handle is carried through, never dereferenced: only the caller, who
/// performs the native calls, turns it back into a pointer.
#[derive(Clone, Copy, PartialEq, Eq, Structural, Debug, Hash)]
pub struct Handle {
    pub addr: usize,
}

impl Handle {
    /// The handle that stands for the address `addr`.
    pub fn new(addr: usize) -> (h: Handle)
        ensures
            h.addr == addr,
    {
        Handle { addr }
    }

    /// The null handle: what the native library returns when it has no object to give.
    pub fn null() -> (h: Handle)
        ensures
            h.addr == 0,
            h.is_null_spec(),
    {
        Handle { addr: 0 }
    }

    /// Whether this is the null handle.
    pub open spec fn is_null_spec(&self) -> bool {
        self.addr == 0
    }

    /// Whether this is the null handle.
    #[verifier::when_used_as_spec(is_null_spec)]
    pub fn is_null(&self) -> (b: bool)
        ensures
            b == self.is_null_spec(),
    {
        self.addr == 0
    }

    /// The address this handle stands for.
    pub fn addr(&self) -> (a: usize)
        ensures
            a == self.addr,
    {
        self.addr
    }
}

} // verus!
