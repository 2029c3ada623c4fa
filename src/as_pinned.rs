//! Projection of a pinned value onto one of its parts.

use core::pin::Pin;
use vstd::prelude::*;

verus! {

/// `Pin` of core, carried through as an opaque value.
#[verifier::external_type_specification]
#[verifier::external_body]
#[verifier::reject_recursive_types(Ptr)]
pub struct ExPin<Ptr>(Pin<Ptr>);

/// A value that, once pinned, gives pinned access to a part of type `T`.
pub trait TrAsPinned<T: ?Sized> {
    /// The pinned part of the pinned value.
    fn as_pinned(self: Pin<&mut Self>) -> Pin<&mut T>;
}

} // verus!
