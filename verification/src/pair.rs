//! One owned type and one borrowed type for each kind of resource.
//!
//! A kind of resource is described once, by a [`ResourceKind`]. From that
//! [`Owned`] and [`Borrowed`] follow, with both capabilities and with the way
//! from the owned facet to the borrowed one. Two kinds give two pairs of
//! types that have nothing in common, also where their handles have the same
//! element type.

use crate::capability::{ForeignType, ForeignTypeRef};
use crate::handle::RawHandle;
use crate::opaque::Opaque;
use crate::views::{ExclusiveView, SharedView};
use core::marker::PhantomData;
use core::ops::Deref;
use vstd::prelude::*;

verus! {

/// What sets one kind of resource apart: the element type of its handles, and
/// how a resource of this kind is given back.
///
/// A kind is a type that is used as a tag; no value of it is needed. It may
/// also say what it asks of a handle. Whoever makes an owned value or a view
/// of this kind has to show that much of the handle, and `release` may count
/// on it.
pub trait ResourceKind {
    /// The element type of the raw handles.
    type CType;

    /// What this kind asks of a handle: what can be told from the handle
    /// itself, such as that it is not null. Unless a kind says otherwise,
    /// every handle will do.
    open spec fn valid(handle: RawHandle<Self::CType>) -> bool {
        true
    }

    /// Gives the resource behind `handle` back to whoever manages it.
    ///
    /// This runs at the end of an owned value's life, so it has to come back
    /// without failing.
    fn release(handle: RawHandle<Self::CType>)
        requires
            Self::valid(handle),
    ;
}

/// The borrowed facet of a resource of kind `K`: the resource seen through
/// its handle.
///
/// A borrowed value is its handle and nothing more; it owns nothing and
/// releases nothing. What a consumer can do with a resource without ending
/// its life is written for this type, and serves [`Owned`] as well.
///
/// No borrowed value is handed out by value or behind `&mut`: it is reached
/// behind `&`, through an owned value or through a view made from a handle.
/// So the handle of a view stays what it was made with, and no handle gets
/// into an owned value but through [`ForeignType::from_ptr`].
pub struct Borrowed<K: ResourceKind> {
    handle: RawHandle<K::CType>,
    marker: PhantomData<Opaque>,
}

/// The owned facet of a resource of kind `K`: one handle, and the duty to
/// release it.
///
/// An owned value cannot be copied, and it holds the same handle all its
/// life. Its life ends with [`Owned::release`], which takes it by value:
/// after that call there is no value left to use or to release again, and
/// while a view borrowed from it lives the call is not accepted. An owned
/// value that is let go without that call gives nothing back.
#[must_use]
pub struct Owned<K: ResourceKind> {
    view: Borrowed<K>,
}

impl<K: ResourceKind> Borrowed<K> {
    #[verifier::type_invariant]
    spec fn well_formed(&self) -> bool {
        K::valid(self.handle)
    }

    /// The view of the resource behind `ptr`.
    pub closed spec fn over(ptr: RawHandle<K::CType>) -> Self {
        Borrowed { handle: ptr, marker: PhantomData }
    }
}

impl<K: ResourceKind> ForeignTypeRef for Borrowed<K> {
    type CType = K::CType;

    open spec fn valid(ptr: RawHandle<K::CType>) -> bool {
        K::valid(ptr)
    }

    closed spec fn handle(&self) -> RawHandle<K::CType> {
        self.handle
    }

    fn from_ptr<'a>(ptr: RawHandle<K::CType>) -> (view: SharedView<'a, Self>)
        ensures
            view@ == Self::over(ptr),
    {
        SharedView::new(Borrowed { handle: ptr, marker: PhantomData })
    }

    fn from_ptr_mut<'a>(ptr: RawHandle<K::CType>) -> (view: ExclusiveView<'a, Self>)
        ensures
            view@ == Self::over(ptr),
    {
        ExclusiveView::new(Borrowed { handle: ptr, marker: PhantomData })
    }

    fn as_ptr(&self) -> (ptr: RawHandle<K::CType>) {
        proof {
            use_type_invariant(self);
        }
        self.handle
    }
}

impl<K: ResourceKind> Owned<K> {
    /// The owned value that holds `ptr`.
    pub closed spec fn owning(ptr: RawHandle<K::CType>) -> Self {
        Owned { view: Borrowed { handle: ptr, marker: PhantomData } }
    }

    /// The borrowed value that this owned value dereferences to.
    pub closed spec fn borrowed(&self) -> Borrowed<K> {
        self.view
    }

    /// A shared view of the resource that this value owns, for as long as
    /// the value is borrowed. Dereferencing gives the same view.
    pub fn borrow(&self) -> (view: SharedView<'_, Borrowed<K>>)
        ensures
            view@ == self.borrowed(),
            view@.handle() == self.handle(),
    {
        proof {
            use_type_invariant(&self.view);
        }
        SharedView::new(Borrowed { handle: self.view.handle, marker: PhantomData })
    }

    /// An exclusive view of the resource that this value owns, for as long
    /// as the value is borrowed exclusively. The value itself stays as it
    /// is.
    pub fn borrow_mut(&mut self) -> (view: ExclusiveView<'_, Borrowed<K>>)
        ensures
            view@ == old(self).borrowed(),
            view@.handle() == old(self).handle(),
            *final(self) == *old(self),
    {
        proof {
            use_type_invariant(&self.view);
        }
        ExclusiveView::new(Borrowed { handle: self.view.handle, marker: PhantomData })
    }

    /// Ends the life of this value: runs the release operation of its kind on
    /// the handle that it holds.
    ///
    /// What the kind's `release` promises of a handle holds of this value's
    /// handle afterwards. The handle meets what the kind asks of one, since
    /// it was shown when the value was made.
    pub fn release(self)
        ensures
            call_ensures(K::release, (self.handle(),), ()),
    {
        proof {
            use_type_invariant(&self.view);
        }
        K::release(self.view.handle)
    }
}

impl<K: ResourceKind> ForeignType for Owned<K> {
    type CType = K::CType;

    type Ref = Borrowed<K>;

    open spec fn valid(ptr: RawHandle<K::CType>) -> bool {
        K::valid(ptr)
    }

    closed spec fn handle(&self) -> RawHandle<K::CType> {
        self.view.handle
    }

    fn from_ptr(ptr: RawHandle<K::CType>) -> (owned: Self)
        ensures
            owned == Self::owning(ptr),
    {
        Owned { view: Borrowed { handle: ptr, marker: PhantomData } }
    }
}

impl<K: ResourceKind> Deref for Owned<K> {
    type Target = Borrowed<K>;

    /// A shared view of the resource that this value owns, for as long as
    /// the value is borrowed.
    fn deref(&self) -> (view: &Borrowed<K>)
        ensures
            *view == self.borrowed(),
            view.handle() == self.handle(),
    {
        &self.view
    }
}

/// Round trip: make an owned value from a handle, go to its borrowed view,
/// ask the view for its handle, and the handle is the one that went in. The
/// same holds of a view made from the handle directly.
pub proof fn lemma_round_trip<K: ResourceKind>(ptr: RawHandle<K::CType>)
    ensures
        Owned::<K>::owning(ptr).handle() == ptr,
        Owned::<K>::owning(ptr).borrowed().handle() == ptr,
        Borrowed::<K>::over(ptr).handle() == ptr,
{
}

/// A borrowed value is identified by its handle: two views are views of the
/// same handle exactly when they are the same view. So any number of views
/// made from one handle agree with each other, in the handle that they give
/// back and in everything else.
pub proof fn lemma_views_of_one_handle_agree<K: ResourceKind>(a: Borrowed<K>, b: Borrowed<K>)
    ensures
        a.handle() == b.handle() <==> a == b,
        a == Borrowed::<K>::over(a.handle()),
{
}

/// An owned value differs from a view of its handle in the duty to release
/// and in nothing else: what it dereferences to is the view of the handle
/// that it holds, so every operation of the borrowed type does through the
/// owned value what it does through such a view. The owned value itself is
/// no more than the handle that it holds.
pub proof fn lemma_owned_borrows_its_handle<K: ResourceKind>(owned: Owned<K>)
    ensures
        owned.borrowed() == Borrowed::<K>::over(owned.handle()),
        owned == Owned::<K>::owning(owned.handle()),
{
}

} // verus!
