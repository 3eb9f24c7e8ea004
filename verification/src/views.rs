//! Views that live for a lifetime: what a view made from a handle is held in.
//!
//! A reference to a borrowed type can only be had from a value that holds
//! one. Where the view comes from a bare handle there is no such value, so
//! the view is a value of its own that carries the lifetime: [`SharedView`]
//! in place of `&'a T`, [`ExclusiveView`] in place of `&'a mut T`.
//!
//! Both dereference to `T`, and to `&T` only. A borrowed value is its handle,
//! so whoever had a `&mut` to one could exchange it for another with
//! `core::mem::swap`, and so put a handle that is only borrowed into the
//! hands of an owner. An exclusive view therefore gives the right to act on
//! the resource alone, not the right to write to the view: what needs
//! exclusive access is written for `ExclusiveView<'_, T>`, what does not is
//! written for `T`.

use core::marker::PhantomData;
use core::ops::Deref;
use vstd::prelude::*;

verus! {

/// A shared view of a `T`, good for the lifetime `'a`.
///
/// Any number of shared views of one resource may live at the same time. The
/// view of this value is the `T` that it stands for.
pub struct SharedView<'a, T> {
    target: T,
    scope: PhantomData<&'a T>,
}

/// An exclusive view of a `T`, good for the lifetime `'a`.
///
/// While it lives there is to be no other view of the same resource. The view
/// of this value is the `T` that it stands for.
pub struct ExclusiveView<'a, T> {
    target: T,
    scope: PhantomData<&'a mut T>,
}

impl<'a, T> View for SharedView<'a, T> {
    type V = T;

    closed spec fn view(&self) -> T {
        self.target
    }
}

impl<'a, T> View for ExclusiveView<'a, T> {
    type V = T;

    closed spec fn view(&self) -> T {
        self.target
    }
}

impl<'a, T> SharedView<'a, T> {
    /// The shared view that stands for `target`.
    pub fn new(target: T) -> (view: Self)
        ensures
            view@ == target,
    {
        SharedView { target, scope: PhantomData }
    }
}

impl<'a, T> ExclusiveView<'a, T> {
    /// The exclusive view that stands for `target`.
    pub fn new(target: T) -> (view: Self)
        ensures
            view@ == target,
    {
        ExclusiveView { target, scope: PhantomData }
    }
}

impl<'a, T> Deref for SharedView<'a, T> {
    type Target = T;

    /// The `T` that this view stands for.
    fn deref(&self) -> (target: &T)
        ensures
            *target == self@,
    {
        &self.target
    }
}

impl<'a, T> Deref for ExclusiveView<'a, T> {
    type Target = T;

    /// The `T` that this view stands for.
    fn deref(&self) -> (target: &T)
        ensures
            *target == self@,
    {
        &self.target
    }
}

} // verus!
