//! Raw handles: the identity of a resource, and nothing else.
//!
//! A resource that something else manages is known on this side only by a
//! handle. This library stores handles, copies them and compares them. It
//! never looks at what is behind one.

use core::marker::PhantomData;
use vstd::prelude::*;

verus! {

/// The identity of one resource whose contents are of type `C`.
///
/// A handle is an address-sized number together with the element type it is
/// meant for, so that a handle of one element type cannot be passed where
/// another is expected. `C` is only a tag: no value of it is held, and it
/// needs no traits.
///
/// The view of a handle is its number, and a handle is no more than its
/// number (see [`lemma_handle_is_its_number`]).
#[derive(Debug)]
pub struct RawHandle<C> {
    addr: usize,
    elem: PhantomData<C>,
}

impl<C> View for RawHandle<C> {
    type V = usize;

    closed spec fn view(&self) -> usize {
        self.addr
    }
}

impl<C> RawHandle<C> {
    /// The handle whose number is `addr`.
    pub fn from_addr(addr: usize) -> (handle: Self)
        ensures
            handle@ == addr,
    {
        RawHandle { addr, elem: PhantomData }
    }

    /// The number of this handle.
    pub fn addr(&self) -> (addr: usize)
        ensures
            addr == self@,
    {
        self.addr
    }
}

impl<C> Clone for RawHandle<C> {
    fn clone(&self) -> (copy: Self)
        ensures
            copy == *self,
    {
        RawHandle { addr: self.addr, elem: PhantomData }
    }
}

impl<C> Copy for RawHandle<C> {

}

impl<C> PartialEq for RawHandle<C> {
    fn eq(&self, other: &Self) -> (same: bool) {
        self.addr == other.addr
    }
}

impl<C> Eq for RawHandle<C> {

}

impl<C> vstd::std_specs::cmp::PartialEqSpecImpl for RawHandle<C> {
    open spec fn obeys_eq_spec() -> bool {
        true
    }

    /// Two handles compare equal exactly when their numbers are equal.
    open spec fn eq_spec(&self, other: &Self) -> bool {
        self@ == other@
    }
}

/// A handle is its number: two handles of one element type are the same
/// handle exactly when their numbers are equal.
pub proof fn lemma_handle_is_its_number<C>(a: RawHandle<C>, b: RawHandle<C>)
    ensures
        a == b <==> a@ == b@,
{
}

} // verus!
