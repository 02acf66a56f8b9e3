//! The two ways a native object is owned: a value handle owns one instance
//! outright, a reference-counted handle shares it with the other handles to
//! the same object.
use vstd::prelude::*;

verus! {

/// Owns one native value-type instance; a copy is a new instance.
#[derive(Clone)]
pub struct Handle<N> {
    pub native: N,
}

impl<N: View> View for Handle<N> {
    type V = N::V;

    open spec fn view(&self) -> N::V {
        self.native@
    }
}

impl<N> Handle<N> {
    /// Takes ownership of a native instance.
    pub fn from_native(native: N) -> (r: Self)
        ensures
            r.native == native,
    {
        Handle { native }
    }

    pub fn native(&self) -> (r: &N)
        ensures
            *r == self.native,
    {
        &self.native
    }
}

/// Holds one reference to a native reference-counted object; the count
/// itself lives with the object (see `RefCount`).
pub struct RCHandle<N> {
    pub native: N,
}

impl<N: View> View for RCHandle<N> {
    type V = N::V;

    open spec fn view(&self) -> N::V {
        self.native@
    }
}

impl<N> RCHandle<N> {
    /// Takes over the reference that the native object was made with.
    pub fn from_native(native: N) -> (r: Self)
        ensures
            r.native == native,
    {
        RCHandle { native }
    }

    pub fn native(&self) -> (r: &N)
        ensures
            *r == self.native,
    {
        &self.native
    }
}

} // verus!
