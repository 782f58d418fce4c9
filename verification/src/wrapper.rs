//! An owned wrapper around one native object, carrying its context.
//!
//! The concrete wrapper types of a binding (a geometry, a writer, a reader)
//! all follow this shape: they own the identity of one native object and
//! hold the context it was created under. `Wrapper<T>` is that shape once,
//! generic over the kind of native object, and implements all four
//! capability traits.

use crate::context::ContextHandle;
use crate::context::ContextState;
use crate::handles::BorrowedHandle;
use crate::handles::BorrowedHandleMut;
use crate::handles::ContextId;
use crate::traits::AsRaw;
use crate::traits::AsRawMut;
use crate::traits::ContextHandling;
use crate::traits::ContextInteractions;
use core::marker::PhantomData;
use vstd::prelude::*;

verus! {

/// Owns a native object of kind `T` and the context it was created under.
pub struct Wrapper<T> {
    raw: usize,
    context: ContextHandle,
    marker: PhantomData<T>,
}

impl<T> Wrapper<T> {
    /// The identity of the owned native object.
    pub closed spec fn spec_raw(&self) -> usize {
        self.raw
    }

    /// The message state of the held context.
    pub closed spec fn spec_context(&self) -> ContextState {
        self.context@
    }

    /// The identity of the native context the wrapper holds.
    pub closed spec fn spec_context_id(&self) -> usize {
        self.context.spec_raw_id()
    }

    /// Takes ownership of the native object with the given identity,
    /// holding the given context.
    pub fn new(raw: usize, context: ContextHandle) -> (r: Wrapper<T>)
        ensures
            r.spec_raw() == raw,
            r.spec_context() == context@,
            r.spec_context_id() == context.spec_raw_id(),
    {
        Wrapper { raw, context, marker: PhantomData }
    }
}

impl<T> AsRaw for Wrapper<T> {
    type RawType = T;

    open spec fn raw_id(&self) -> usize {
        self.spec_raw()
    }

    fn as_raw(&self) -> (r: BorrowedHandle<T>) {
        BorrowedHandle::new(self.raw)
    }
}

impl<T> AsRawMut for Wrapper<T> {
    type RawType = T;

    open spec fn raw_id_mut(&self) -> usize {
        self.spec_raw()
    }

    fn as_raw_mut_override(&self) -> (r: BorrowedHandleMut<T>) {
        BorrowedHandleMut::new(self.raw)
    }
}

impl<T> ContextHandling for Wrapper<T> {
    type Context = ContextHandle;

    open spec fn context_id(&self) -> usize {
        self.spec_context_id()
    }

    open spec fn context_state(&self) -> ContextState {
        self.spec_context()
    }

    fn get_raw_context(&self) -> (r: ContextId) {
        self.context.raw_context()
    }

    fn clone_context(&self) -> (r: ContextHandle) {
        self.context.duplicate()
    }
}

impl<T> ContextInteractions for Wrapper<T> {
    open spec fn held_state(&self) -> ContextState {
        self.spec_context()
    }

    fn set_context_handle(&mut self, context: ContextHandle) {
        self.context = context;
    }

    fn get_context_handle(&self) -> (r: &ContextHandle) {
        &self.context
    }
}

} // verus!
