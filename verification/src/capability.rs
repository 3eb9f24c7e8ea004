//! The two capabilities that every pair of an owned and a borrowed type has.
//!
//! Both are stated over the handle that a value stands for. Making a value
//! from a handle is where the caller vouches for the handle; what the type
//! asks of the handle itself is the precondition `valid`, and every handle
//! that comes back out of a value meets it.

use crate::handle::RawHandle;
use crate::views::{ExclusiveView, SharedView};
use vstd::prelude::*;

verus! {

/// The borrowed capability: a type that is a resource seen through a handle,
/// without owning it.
///
/// A value of such a type is identified by its handle. It never releases
/// anything.
pub trait ForeignTypeRef: Sized {
    /// The element type of the raw handles.
    type CType;

    /// What this type asks of a handle before it is viewed: what can be told
    /// from the handle itself. Unless a type says otherwise, every handle
    /// will do.
    open spec fn valid(ptr: RawHandle<Self::CType>) -> bool {
        true
    }

    /// The handle that this value is a view of.
    spec fn handle(&self) -> RawHandle<Self::CType>;

    /// Makes a shared view of the resource behind `ptr`, for a lifetime that
    /// the caller chooses.
    ///
    /// Nothing is checked and nothing is copied. The caller vouches that the
    /// resource lives at least as long as the view.
    fn from_ptr<'a>(ptr: RawHandle<Self::CType>) -> (view: SharedView<'a, Self>)
        requires
            Self::valid(ptr),
        ensures
            view@.handle() == ptr,
    ;

    /// Makes an exclusive view of the resource behind `ptr`, for a lifetime
    /// that the caller chooses.
    ///
    /// Nothing is checked and nothing is copied. The caller vouches that the
    /// resource lives at least as long as the view, and that no other view of
    /// it lives in that time.
    fn from_ptr_mut<'a>(ptr: RawHandle<Self::CType>) -> (view: ExclusiveView<'a, Self>)
        requires
            Self::valid(ptr),
        ensures
            view@.handle() == ptr,
    ;

    /// Returns the raw handle that this view was made from.
    fn as_ptr(&self) -> (ptr: RawHandle<Self::CType>)
        ensures
            ptr == self.handle(),
            Self::valid(ptr),
    ;
}

/// The owned capability: a type that holds one handle and the duty to release
/// it.
pub trait ForeignType: Sized {
    /// The element type of the raw handles.
    type CType;

    /// The borrowed type that is paired with this owned type.
    type Ref: ForeignTypeRef<CType = Self::CType>;

    /// What this type asks of a handle before it takes it over: what can be
    /// told from the handle itself. Unless a type says otherwise, every
    /// handle will do.
    open spec fn valid(ptr: RawHandle<Self::CType>) -> bool {
        true
    }

    /// The handle that this value owns.
    spec fn handle(&self) -> RawHandle<Self::CType>;

    /// Takes over the resource behind `ptr`.
    ///
    /// Nothing is checked, and nothing is released. The caller vouches that
    /// the handle is valid and that nobody else owns it.
    fn from_ptr(ptr: RawHandle<Self::CType>) -> (owned: Self)
        requires
            Self::valid(ptr),
        ensures
            owned.handle() == ptr,
    ;
}

} // verus!
