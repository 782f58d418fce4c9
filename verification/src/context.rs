//! The error and notification context shared with native calls.
//!
//! Every native call made under a context may record an error message or a
//! notification message there; wrappers query the most recent one of each.
//! A context is a plain owned value: duplicating one yields a fully
//! independent copy, and every recording goes through `&mut`, so no update
//! of one context can reach another.

use crate::handles::ContextId;
use vstd::prelude::*;

verus! {

/// The observable state of a context: the most recently recorded error
/// message and notification message, if any.
pub struct ContextState {
    pub last_error: Option<Seq<char>>,
    pub last_notification: Option<Seq<char>>,
}

/// The state of a freshly created context: no message of either kind.
pub open spec fn fresh_state() -> ContextState {
    ContextState { last_error: None, last_notification: None }
}

/// The state after an error message is recorded: the error slot holds the
/// message, the notification slot is untouched.
pub open spec fn with_error(state: ContextState, message: Seq<char>) -> ContextState {
    ContextState { last_error: Some(message), last_notification: state.last_notification }
}

/// The state after a notification message is recorded: the notification
/// slot holds the message, the error slot is untouched.
pub open spec fn with_notification(state: ContextState, message: Seq<char>) -> ContextState {
    ContextState { last_error: state.last_error, last_notification: Some(message) }
}

/// A duplicated context and its original evolve independently: a recording
/// is a function of the recipient's state and the message alone, fixing the
/// recorded slot and leaving the other slot as the recipient had it. Since
/// [`ContextHandle::duplicate`] returns an owned value equal in state to its
/// original, and every recording takes the recipient by `&mut`, updating
/// either the copy or the original leaves the other's state as it was.
pub proof fn lemma_duplicate_independent(original: ContextState, copy: ContextState, message: Seq<char>)
    requires
        copy == original,
    ensures
        with_error(copy, message).last_error == Some(message),
        with_error(copy, message).last_notification == original.last_notification,
        with_notification(copy, message).last_notification == Some(message),
        with_notification(copy, message).last_error == original.last_error,
{
}

/// Holds the identity of a native context together with the last error and
/// notification messages recorded under it.
pub struct ContextHandle {
    raw: ContextId,
    last_error: Option<String>,
    last_notification: Option<String>,
}

impl View for ContextHandle {
    type V = ContextState;

    closed spec fn view(&self) -> ContextState {
        ContextState {
            last_error: self.last_error.deep_view(),
            last_notification: self.last_notification.deep_view(),
        }
    }
}

impl ContextHandle {
    /// The identity of the native context this handle stands for.
    pub closed spec fn spec_raw_id(&self) -> usize {
        self.raw.spec_id()
    }

    /// A context that has recorded nothing yet, for the native context with
    /// the given identity.
    pub fn new(raw: ContextId) -> (r: ContextHandle)
        ensures
            r@ == fresh_state(),
            r.spec_raw_id() == raw.spec_id(),
    {
        ContextHandle { raw, last_error: None, last_notification: None }
    }

    /// The identity of the native context, for handing to native calls.
    pub fn raw_context(&self) -> (r: ContextId)
        ensures
            r.spec_id() == self.spec_raw_id(),
    {
        self.raw
    }

    /// Records an error message, replacing any earlier one; the last
    /// notification is untouched.
    pub fn record_error(&mut self, message: String)
        ensures
            final(self)@ == with_error(old(self)@, message@),
            final(self).spec_raw_id() == old(self).spec_raw_id(),
    {
        self.last_error = Some(message);
    }

    /// Records a notification message, replacing any earlier one; the last
    /// error is untouched.
    pub fn record_notification(&mut self, message: String)
        ensures
            final(self)@ == with_notification(old(self)@, message@),
            final(self).spec_raw_id() == old(self).spec_raw_id(),
    {
        self.last_notification = Some(message);
    }

    /// The most recently recorded error message, or none if no error has
    /// been recorded. Leaves the context as it is.
    pub fn get_last_error(&self) -> (r: Option<String>)
        ensures
            r.deep_view() == self@.last_error,
    {
        match &self.last_error {
            Some(message) => Some(message.clone()),
            None => None,
        }
    }

    /// The most recently recorded notification message, or none if no
    /// notification has been recorded. Leaves the context as it is.
    pub fn get_last_notification(&self) -> (r: Option<String>)
        ensures
            r.deep_view() == self@.last_notification,
    {
        match &self.last_notification {
            Some(message) => Some(message.clone()),
            None => None,
        }
    }

    /// The most recently recorded error message, resetting the error slot:
    /// a second take, with nothing recorded in between, returns none.
    pub fn take_last_error(&mut self) -> (r: Option<String>)
        ensures
            r.deep_view() == old(self)@.last_error,
            final(self)@.last_error is None,
            final(self)@.last_notification == old(self)@.last_notification,
            final(self).spec_raw_id() == old(self).spec_raw_id(),
    {
        self.last_error.take()
    }

    /// The most recently recorded notification message, resetting the
    /// notification slot: a second take, with nothing recorded in between,
    /// returns none.
    pub fn take_last_notification(&mut self) -> (r: Option<String>)
        ensures
            r.deep_view() == old(self)@.last_notification,
            final(self)@.last_notification is None,
            final(self)@.last_error == old(self)@.last_error,
            final(self).spec_raw_id() == old(self).spec_raw_id(),
    {
        self.last_notification.take()
    }

    /// A deep copy: an owned context equal in state and identity to this
    /// one, sharing nothing with it afterwards.
    pub fn duplicate(&self) -> (r: ContextHandle)
        ensures
            r@ == self@,
            r.spec_raw_id() == self.spec_raw_id(),
    {
        ContextHandle {
            raw: self.raw,
            last_error: self.get_last_error(),
            last_notification: self.get_last_notification(),
        }
    }
}

} // verus!
