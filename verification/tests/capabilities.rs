use geos::AsRaw;
use geos::AsRawMut;
use geos::BorrowedHandle;
use geos::BorrowedHandleMut;
use geos::ContextHandle;
use geos::ContextHandling;
use geos::ContextId;
use geos::ContextInteractions;
use geos::Wrapper;

fn fresh_wrapper(raw: usize, context_id: usize) -> Wrapper<u8> {
    Wrapper::new(raw, ContextHandle::new(ContextId::new(context_id)))
}

#[test]
fn read_accessor_returns_the_wrapped_identity() {
    let wrapper = fresh_wrapper(42, 7);
    let handle: BorrowedHandle<u8> = wrapper.as_raw();
    assert_eq!(handle.id(), 42);
}

#[test]
fn default_mutable_accessor_equals_the_override() {
    let mut wrapper = fresh_wrapper(42, 7);
    let via_override: BorrowedHandleMut<u8> = wrapper.as_raw_mut_override();
    let via_default: BorrowedHandleMut<u8> = wrapper.as_raw_mut();
    assert_eq!(via_default.id(), via_override.id());
    assert_eq!(via_default.id(), 42);
}

#[test]
fn fresh_context_has_no_messages() {
    let context = ContextHandle::new(ContextId::new(1));
    assert_eq!(context.get_last_error(), None);
    assert_eq!(context.get_last_notification(), None);
}

#[test]
fn fresh_wrapper_reports_no_messages() {
    let wrapper = fresh_wrapper(3, 1);
    assert_eq!(wrapper.get_last_error(), None);
    assert_eq!(wrapper.get_last_notification(), None);
}

#[test]
fn recorded_error_is_reported() {
    let mut context = ContextHandle::new(ContextId::new(1));
    context.record_error(String::from("invalid geometry"));
    assert_eq!(
        context.get_last_error(),
        Some(String::from("invalid geometry"))
    );
    assert_eq!(context.get_last_notification(), None);
}

#[test]
fn recorded_notification_is_reported() {
    let mut context = ContextHandle::new(ContextId::new(1));
    context.record_notification(String::from("ring self-intersects"));
    assert_eq!(
        context.get_last_notification(),
        Some(String::from("ring self-intersects"))
    );
    assert_eq!(context.get_last_error(), None);
}

#[test]
fn recording_replaces_the_earlier_message() {
    let mut context = ContextHandle::new(ContextId::new(1));
    context.record_error(String::from("first"));
    context.record_error(String::from("second"));
    assert_eq!(context.get_last_error(), Some(String::from("second")));
}

#[test]
fn take_resets_the_taken_slot_only() {
    let mut context = ContextHandle::new(ContextId::new(1));
    context.record_error(String::from("boom"));
    context.record_notification(String::from("note"));
    assert_eq!(context.take_last_error(), Some(String::from("boom")));
    assert_eq!(context.take_last_error(), None);
    assert_eq!(context.get_last_notification(), Some(String::from("note")));
    assert_eq!(context.take_last_notification(), Some(String::from("note")));
    assert_eq!(context.take_last_notification(), None);
}

#[test]
fn wrapper_forwards_the_held_context_messages() {
    let mut context = ContextHandle::new(ContextId::new(1));
    context.record_error(String::from("parse failure"));
    context.record_notification(String::from("repaired"));
    let wrapper: Wrapper<u8> = Wrapper::new(9, context);
    assert_eq!(wrapper.get_last_error(), Some(String::from("parse failure")));
    assert_eq!(
        wrapper.get_last_error(),
        wrapper.get_context_handle().get_last_error()
    );
    assert_eq!(
        wrapper.get_last_notification(),
        Some(String::from("repaired"))
    );
    assert_eq!(
        wrapper.get_last_notification(),
        wrapper.get_context_handle().get_last_notification()
    );
}

#[test]
fn cloned_context_starts_equal_to_the_original() {
    let mut context = ContextHandle::new(ContextId::new(4));
    context.record_error(String::from("boom"));
    let wrapper: Wrapper<u8> = Wrapper::new(8, context);
    let copy = wrapper.clone_context();
    assert_eq!(copy.get_last_error(), wrapper.get_last_error());
    assert_eq!(copy.get_last_notification(), wrapper.get_last_notification());
    assert_eq!(copy.raw_context().id(), wrapper.get_raw_context().id());
}

#[test]
fn cloned_context_is_independent_of_the_original() {
    let mut context = ContextHandle::new(ContextId::new(4));
    context.record_error(String::from("original error"));
    let wrapper: Wrapper<u8> = Wrapper::new(8, context);
    let mut copy = wrapper.clone_context();
    copy.record_error(String::from("copy error"));
    copy.record_notification(String::from("copy note"));
    assert_eq!(copy.get_last_error(), Some(String::from("copy error")));
    assert_eq!(copy.get_last_notification(), Some(String::from("copy note")));
    assert_eq!(
        wrapper.get_last_error(),
        Some(String::from("original error"))
    );
    assert_eq!(wrapper.get_last_notification(), None);
}

#[test]
fn mutating_the_original_leaves_the_clone_as_it_was() {
    let context = ContextHandle::new(ContextId::new(2));
    let mut wrapper: Wrapper<u8> = Wrapper::new(8, context);
    let copy = wrapper.clone_context();
    let mut replacement = ContextHandle::new(ContextId::new(2));
    replacement.record_error(String::from("late error"));
    wrapper.set_context_handle(replacement);
    assert_eq!(wrapper.get_last_error(), Some(String::from("late error")));
    assert_eq!(copy.get_last_error(), None);
}

#[test]
fn set_context_handle_replaces_the_held_context() {
    let wrapper_context = ContextHandle::new(ContextId::new(5));
    let mut wrapper: Wrapper<u8> = Wrapper::new(1, wrapper_context);
    let mut other = ContextHandle::new(ContextId::new(6));
    other.record_notification(String::from("swapped in"));
    wrapper.set_context_handle(other);
    assert_eq!(
        wrapper.get_last_notification(),
        Some(String::from("swapped in"))
    );
    assert_eq!(wrapper.get_raw_context().id(), 6);
}

#[test]
fn raw_context_identity_is_the_one_given_at_construction() {
    let wrapper = fresh_wrapper(3, 11);
    assert_eq!(wrapper.get_raw_context().id(), 11);
    assert_eq!(wrapper.get_context_handle().raw_context().id(), 11);
}

#[test]
fn duplicate_keeps_messages_and_identity() {
    let mut context = ContextHandle::new(ContextId::new(9));
    context.record_error(String::from("kept"));
    let copy = context.duplicate();
    assert_eq!(copy.get_last_error(), Some(String::from("kept")));
    assert_eq!(copy.get_last_notification(), None);
    assert_eq!(copy.raw_context().id(), 9);
}
