use vstd::prelude::*;

use crate::correlator::EventCorrelator;
use crate::dispatch::BatchEntry;
use crate::dispatch::TempChannelId;
use crate::errors::Error;
use crate::events::EventFilter;
use crate::events::ProtocolEvent;
use crate::request::OpenChannelRequest;

verus! {

/// The coordinator-local state of one batch invocation: the requests
/// paired with their initiation results, and the wait filters built for
/// the requests that initiated successfully. Owned exclusively by one
/// invocation; never persisted, never shared across batches.
pub struct PendingBatchState {
    /// Identity of the local node, used to recognise its bus events.
    pub node_id: String,
    /// One entry per request, in request order.
    pub entries: Vec<BatchEntry>,
    /// One filter per successfully initiated request.
    pub filters: Vec<EventFilter>,
}

impl PendingBatchState {
    /// Fresh, empty state for one batch invocation on the given node.
    pub fn new(node_id: String) -> (s: PendingBatchState)
        ensures
            s.node_id == node_id,
            s.entries@ == Seq::<BatchEntry>::empty(),
            s.filters@ == Seq::<EventFilter>::empty(),
    {
        PendingBatchState { node_id, entries: Vec::new(), filters: Vec::new() }
    }

    /// Records one request's initiation outcome, in request order. A
    /// successful initiation also adds the wait filter for that request's
    /// correlation id on this node; a failed one adds no filter, so the
    /// failed request is excluded from the correlation wait.
    pub fn record_initiation(
        &mut self,
        request: OpenChannelRequest,
        result: Result<TempChannelId, Error>,
    )
        requires
            old(self).entries@.len() < usize::MAX,
            request.custom_id is Some,
        ensures
            final(self).node_id == old(self).node_id,
            final(self).entries@ == old(self).entries@.push(
                (BatchEntry { request, result }),
            ),
            result is Ok ==> final(self).filters@ == old(self).filters@.push(
                (EventFilter { node_id: old(self).node_id, user_channel_id: request.custom_id->0 }),
            ),
            result is Err ==> final(self).filters@ == old(self).filters@,
    {
        if result.is_ok() {
            let user_channel_id: u64 = match request.custom_id {
                Some(id) => id,
                None => vstd::pervasive::unreached(),
            };
            let filter = EventFilter { node_id: self.node_id.clone(), user_channel_id };
            self.filters.push(filter);
        }
        self.entries.push(BatchEntry { request, result });
    }

    /// Hands the accumulated filters to a fresh correlator over the given
    /// bus receiver, and yields the entries for the later dispatch stage.
    pub fn start_correlation(
        self,
        receiver: tokio::sync::broadcast::Receiver<ProtocolEvent>,
    ) -> (r: (EventCorrelator, Vec<BatchEntry>))
        ensures
            r.0.remaining() == self.filters@,
            r.0.matched_events() == Seq::<ProtocolEvent>::empty(),
            r.0.elapsed() == 0,
            r.0.wf(),
            r.1@ == self.entries@,
    {
        let PendingBatchState { node_id: _, entries, filters } = self;
        (EventCorrelator::new(receiver, filters), entries)
    }
}

} // verus!
