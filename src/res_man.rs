//! Ownership capabilities of handle types, and their bindings to the
//! standard smart pointers.

use crate::mem_alloc::TrMalloc;
use crate::std_global::StdGlobalAlloc;
use core::ops::{Deref, DerefMut};
use std::boxed::Box;
use std::rc::Rc;
use std::sync::Arc;
use vstd::prelude::*;

verus! {

/// A handle that owns one value, stored in memory from an allocator.
pub trait TrBoxed where Self: Sized + Deref {
    /// The allocator behind the handle's storage.
    type Malloc: TrMalloc;

    /// The allocator behind the handle's storage.
    fn malloc(&self) -> &Self::Malloc;
}

/// A handle whose value may be shared by several handles, counted by
/// strong and weak references.
pub trait TrShared where Self: TrBoxed + Clone {
    /// The number of strong handles to the value, this one included.
    fn strong_count(&self) -> (r: usize)
        ensures
            r >= 1,
    ;

    /// The number of weak handles to the value.
    fn weak_count(&self) -> usize;
}

/// A handle that grants exclusive, mutable access to its value. It offers no
/// way to duplicate the handle.
pub trait TrUnique where Self: TrBoxed + DerefMut {

}

/// Relies on `Arc::strong_count`: the number of strong pointers to the
/// allocation, of which `this` is one.
#[verifier::external_body]
fn arc_strong_count<T: ?Sized>(this: &Arc<T>) -> (r: usize)
    ensures
        r >= 1,
{
    Arc::strong_count(this)
}

/// Relies on `Arc::weak_count`: the number of weak pointers to the allocation.
#[verifier::external_body]
fn arc_weak_count<T: ?Sized>(this: &Arc<T>) -> usize {
    Arc::weak_count(this)
}

/// Relies on `Rc::strong_count`: the number of strong pointers to the
/// allocation, of which `this` is one.
#[verifier::external_body]
fn rc_strong_count<T: ?Sized>(this: &Rc<T>) -> (r: usize)
    ensures
        r >= 1,
{
    Rc::strong_count(this)
}

/// Relies on `Rc::weak_count`: the number of weak pointers to the allocation.
#[verifier::external_body]
fn rc_weak_count<T: ?Sized>(this: &Rc<T>) -> usize {
    Rc::weak_count(this)
}

impl<T: ?Sized> TrBoxed for Arc<T> {
    type Malloc = StdGlobalAlloc;

    fn malloc(&self) -> &StdGlobalAlloc {
        StdGlobalAlloc::shared()
    }
}

impl<T: ?Sized> TrShared for Arc<T> {
    fn strong_count(&self) -> (r: usize) {
        arc_strong_count(self)
    }

    fn weak_count(&self) -> usize {
        arc_weak_count(self)
    }
}

impl<T: ?Sized> TrBoxed for Rc<T> {
    type Malloc = StdGlobalAlloc;

    fn malloc(&self) -> &StdGlobalAlloc {
        StdGlobalAlloc::shared()
    }
}

impl<T: ?Sized> TrShared for Rc<T> {
    fn strong_count(&self) -> (r: usize) {
        rc_strong_count(self)
    }

    fn weak_count(&self) -> usize {
        rc_weak_count(self)
    }
}

impl<T: ?Sized> TrBoxed for Box<T> {
    type Malloc = StdGlobalAlloc;

    fn malloc(&self) -> &StdGlobalAlloc {
        StdGlobalAlloc::shared()
    }
}

impl<T: ?Sized> TrUnique for Box<T> {

}

} // verus!
