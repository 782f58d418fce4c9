//! Plain-value stand-ins for the native engine's pointers.
//!
//! A native object is only ever an opaque address; all a wrapper can do with
//! it is hand its identity to native calls. These types carry that identity
//! and nothing else. The read-only view and the mutable view are distinct
//! types with no conversion between them, so read-only access can never be
//! reached through a mutable path nor the other way round.

use core::marker::PhantomData;
use vstd::prelude::*;

verus! {

/// A non-owning, read-only view of a native object of kind `T`.
///
/// It carries the object's identity only and must not be retained past the
/// lifetime of the wrapper it was obtained from.
pub struct BorrowedHandle<T> {
    id: usize,
    marker: PhantomData<T>,
}

impl<T> BorrowedHandle<T> {
    /// The identity of the native object this handle views.
    pub closed spec fn spec_id(&self) -> usize {
        self.id
    }

    pub fn new(id: usize) -> (r: BorrowedHandle<T>)
        ensures
            r.spec_id() == id,
    {
        BorrowedHandle { id, marker: PhantomData }
    }

    pub fn id(&self) -> (r: usize)
        ensures
            r == self.spec_id(),
    {
        self.id
    }
}

/// A non-owning, mutable view of a native object of kind `T`.
///
/// Handed out only by [`crate::traits::AsRawMut`]; like the read-only view it
/// carries the object's identity only.
pub struct BorrowedHandleMut<T> {
    id: usize,
    marker: PhantomData<T>,
}

impl<T> BorrowedHandleMut<T> {
    /// The identity of the native object this handle views.
    pub closed spec fn spec_id(&self) -> usize {
        self.id
    }

    pub fn new(id: usize) -> (r: BorrowedHandleMut<T>)
        ensures
            r.spec_id() == id,
    {
        BorrowedHandleMut { id, marker: PhantomData }
    }

    pub fn id(&self) -> (r: usize)
        ensures
            r == self.spec_id(),
    {
        self.id
    }
}

/// The identity of a native context, as handed to every native call made
/// under that context.
#[derive(Clone, Copy)]
pub struct ContextId {
    id: usize,
}

impl ContextId {
    /// The identity of the native context.
    pub closed spec fn spec_id(&self) -> usize {
        self.id
    }

    pub fn new(id: usize) -> (r: ContextId)
        ensures
            r.spec_id() == id,
    {
        ContextId { id }
    }

    pub fn id(&self) -> (r: usize)
        ensures
            r == self.spec_id(),
    {
        self.id
    }
}

} // verus!
