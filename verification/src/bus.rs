use vstd::prelude::*;

verus! {

/// Declares tokio's multi-subscriber broadcast receiver so that the
/// correlator can hold one handle to the shared event bus. The value is
/// opaque: every statement about the events it yields is made per call,
/// on the wrapper below.
#[verifier::external_type_specification]
#[verifier::external_body]
#[verifier::reject_recursive_types(T)]
pub struct ExReceiver<T>(tokio::sync::broadcast::Receiver<T>);

/// Relies on tokio's `broadcast::Receiver::try_recv`: it returns the next
/// pending event without ever blocking, or an error when none is ready
/// (empty, lagged or closed channel). Which value comes back depends on
/// what other tasks have sent, so nothing is promised of the result; the
/// verified correlator handles every possible event.
#[verifier::external_body]
pub(crate) fn try_next_event(
    receiver: &mut tokio::sync::broadcast::Receiver<crate::events::ProtocolEvent>,
) -> Option<crate::events::ProtocolEvent> {
    match receiver.try_recv() {
        Ok(event) => Some(event),
        Err(_) => None,
    }
}

} // verus!
