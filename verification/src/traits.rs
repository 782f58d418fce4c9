//! The capability traits every wrapper type implements.
//!
//! A wrapper owns one native object and holds the context it was created
//! with. [`AsRaw`] and [`AsRawMut`] gate access to the object's identity
//! behind distinct read-only and mutable handle types; [`ContextHandling`]
//! and [`ContextInteractions`] thread the shared error and notification
//! context through every operation.

use crate::context::ContextHandle;
use crate::context::ContextState;
use crate::handles::BorrowedHandle;
use crate::handles::BorrowedHandleMut;
use crate::handles::ContextId;
use vstd::prelude::*;

verus! {

/// Read-only access to the wrapped native object.
///
/// A pure accessor: no side effects, and the returned view gives no way to
/// mutate the object.
pub trait AsRaw {
    type RawType;

    /// The identity of the wrapped native object.
    spec fn raw_id(&self) -> usize;

    /// A non-owning, read-only view of the wrapped native object.
    fn as_raw(&self) -> (r: BorrowedHandle<Self::RawType>)
        ensures
            r.spec_id() == self.raw_id(),
    ;
}

/// Mutable access to the wrapped native object.
///
/// The default accessor [`AsRawMut::as_raw_mut`] only delegates to
/// [`AsRawMut::as_raw_mut_override`] and performs no mutation of its own;
/// both return the same handle, the one for the wrapped object.
pub trait AsRawMut: Sized {
    type RawType;

    /// The identity of the wrapped native object.
    spec fn raw_id_mut(&self) -> usize;

    /// A non-owning, mutable view of the wrapped native object. Delegates
    /// to [`AsRawMut::as_raw_mut_override`] and mutates nothing itself.
    fn as_raw_mut(&mut self) -> (r: BorrowedHandleMut<Self::RawType>)
        ensures
            r.spec_id() == old(self).raw_id_mut(),
            *final(self) == *old(self),
    {
        self.as_raw_mut_override()
    }

    /// The accessor [`AsRawMut::as_raw_mut`] delegates to.
    ///
    /// It exists because some native entry points demand a mutable handle
    /// for a logically read-only operation (an output-dimension getter is
    /// the known example, very likely an upstream oversight). Implementers
    /// justify the mutable request here, once, instead of at every call
    /// site; callers must not perform a logical mutation through the
    /// returned handle when the operation they hand it to promises
    /// immutability.
    fn as_raw_mut_override(&self) -> (r: BorrowedHandleMut<Self::RawType>)
        ensures
            r.spec_id() == self.raw_id_mut(),
    ;
}

/// Supplying the context a wrapper was constructed with.
pub trait ContextHandling {
    type Context: View<V = ContextState>;

    /// The identity of the native context this wrapper was constructed
    /// with.
    spec fn context_id(&self) -> usize;

    /// The message state of the context this wrapper holds.
    spec fn context_state(&self) -> ContextState;

    /// The low-level context identity, for handing to native calls.
    fn get_raw_context(&self) -> (r: ContextId)
        ensures
            r.spec_id() == self.context_id(),
    ;

    /// An independent copy of the held context, for constructing derived
    /// wrappers that must not share mutable state with this one.
    fn clone_context(&self) -> (r: Self::Context)
        ensures
            r@ == self.context_state(),
    ;
}

/// Get and set access to the held context, with shortcuts for its two
/// message queries.
pub trait ContextInteractions {
    /// The message state of the context this wrapper holds.
    spec fn held_state(&self) -> ContextState;

    /// Replaces the held context.
    fn set_context_handle(&mut self, context: ContextHandle)
        ensures
            final(self).held_state() == context@,
    ;

    /// The held context.
    fn get_context_handle(&self) -> (r: &ContextHandle)
        ensures
            r@ == self.held_state(),
    ;

    /// The most recent error message recorded by the held context, or none
    /// if no error has been recorded. A shortcut for querying the result of
    /// [`ContextInteractions::get_context_handle`]; forwards and adds
    /// nothing.
    fn get_last_error(&self) -> (r: Option<String>)
        ensures
            r.deep_view() == self.held_state().last_error,
    {
        self.get_context_handle().get_last_error()
    }

    /// The most recent notification message recorded by the held context,
    /// or none if no notification has been recorded. A shortcut for
    /// querying the result of [`ContextInteractions::get_context_handle`];
    /// forwards and adds nothing.
    fn get_last_notification(&self) -> (r: Option<String>)
        ensures
            r.deep_view() == self.held_state().last_notification,
    {
        self.get_context_handle().get_last_notification()
    }
}

} // verus!
