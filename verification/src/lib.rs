//! Owned and borrowed facets for handles to resources that something else
//! manages.
//!
//! A foreign interface hands out its resources as raw handles, and says only in
//! its documentation who has to give one back, and whether a getter returns a
//! fresh resource or a view into one that exists already. This library writes
//! those rules down as types. For each kind of resource there are two:
//!
//! * [`Owned`] holds one handle and the duty to release it. It cannot be
//!   copied. Its life ends with [`Owned::release`], which takes it by value
//!   and runs the release operation of its kind on its handle: once, since
//!   no value is left after the call.
//! * [`Borrowed`] is the resource seen through a handle, with no duty at all.
//!   An owned value dereferences to it, so what is written once for the
//!   borrowed type also serves the owned one.
//!
//! A view that is made from a bare handle is held in a [`SharedView`] or an
//! [`ExclusiveView`], which carry the lifetime that a reference would have.
//! An owned value lends both: [`Owned::borrow`] and [`Owned::borrow_mut`].
//!
//! A kind of resource is described by a [`ResourceKind`]: the element type of
//! its handles and its release operation. [`ForeignType`] and
//! [`ForeignTypeRef`] are the two capabilities as traits, for code that is
//! generic over the pair, and for pairs that a consumer defines itself.
//!
//! Nothing here checks a handle at run time. Whoever makes an owned value or
//! a view from a handle vouches for it: that it is valid, that nobody else
//! owns it, that it is not viewed otherwise while an exclusive view of it
//! lives. What a kind asks of the handle itself is a precondition, that of
//! [`ResourceKind::valid`]; the rest cannot be said of a handle alone, and
//! rests with the caller.
//!
//! Release is a call, not a destructor. A wrapper that makes the call when it
//! goes out of scope is a few lines of unverified code around [`Owned`].

pub mod capability;
pub mod handle;
pub mod opaque;
pub mod pair;
pub mod views;

pub use capability::{ForeignType, ForeignTypeRef};
pub use handle::RawHandle;
pub use opaque::Opaque;
pub use pair::{Borrowed, Owned, ResourceKind};
pub use views::{ExclusiveView, SharedView};
