use vstd::prelude::*;

verus! {

/// One event drained from the shared protocol-event bus.
///
/// The coordinator only acts on the funding-ready variant: the protocol
/// engine emits it once channel parameters are negotiated and a funding
/// transaction is required. All other bus traffic (other nodes' activity,
/// unrelated event kinds) is folded into `Other`, which no filter matches.
#[derive(Clone, Debug)]
pub enum ProtocolEvent {
    FundingGenerationReady {
        /// Identity of the local node the event belongs to.
        node_id: String,
        /// Correlation id; echoes the id assigned to the request.
        user_channel_id: u64,
        /// Serialized public key of the channel counterparty.
        counterparty_node_id: Vec<u8>,
        /// Value to lock into the channel's funding output, in satoshis.
        channel_value_satoshis: u64,
        /// Script the funding output must pay to.
        output_script: Vec<u8>,
    },
    Other,
}

impl ProtocolEvent {
    /// True of the one variant the coordinator acts on.
    pub open spec fn is_funding_ready(self) -> bool {
        self is FundingGenerationReady
    }

    /// True when this is a funding-ready event carrying correlation id `id`.
    pub open spec fn is_funding_ready_for(self, id: u64) -> bool {
        match self {
            ProtocolEvent::FundingGenerationReady { user_channel_id, .. } => user_channel_id == id,
            ProtocolEvent::Other => false,
        }
    }

    /// The counterparty identity carried by a funding-ready event.
    pub open spec fn spec_counterparty(self) -> Seq<u8>
        recommends
            self.is_funding_ready(),
    {
        match self {
            ProtocolEvent::FundingGenerationReady { counterparty_node_id, .. } => counterparty_node_id@,
            ProtocolEvent::Other => Seq::empty(),
        }
    }

    /// The channel value carried by a funding-ready event.
    pub open spec fn spec_value_sats(self) -> u64
        recommends
            self.is_funding_ready(),
    {
        match self {
            ProtocolEvent::FundingGenerationReady { channel_value_satoshis, .. } => channel_value_satoshis,
            ProtocolEvent::Other => 0,
        }
    }

    /// The funding output script carried by a funding-ready event.
    pub open spec fn spec_output_script(self) -> Seq<u8>
        recommends
            self.is_funding_ready(),
    {
        match self {
            ProtocolEvent::FundingGenerationReady { output_script, .. } => output_script@,
            ProtocolEvent::Other => Seq::empty(),
        }
    }
}

/// A single-use predicate over protocol events: it waits for the
/// funding-ready event that echoes one request's correlation id on the
/// local node's bus traffic. One filter exists per successfully initiated
/// request; filters and requests are correlated by id, never by position.
pub struct EventFilter {
    /// Identity of the local node whose events this filter accepts.
    pub node_id: String,
    /// The correlation id this filter is waiting for.
    pub user_channel_id: u64,
}

impl EventFilter {
    /// What it means for this filter to accept an event: the event is a
    /// funding-ready event of the local node carrying the awaited id.
    pub open spec fn spec_matches(self, event: ProtocolEvent) -> bool {
        match event {
            ProtocolEvent::FundingGenerationReady { node_id, user_channel_id, .. } => {
                &&& node_id@ == self.node_id@
                &&& user_channel_id == self.user_channel_id
            },
            ProtocolEvent::Other => false,
        }
    }

    /// Tests an event against this filter.
    pub fn matches(&self, event: &ProtocolEvent) -> (r: bool)
        ensures
            r == self.spec_matches(*event),
    {
        match event {
            ProtocolEvent::FundingGenerationReady { node_id, user_channel_id, .. } => {
                *user_channel_id == self.user_channel_id && self.node_id == *node_id
            },
            ProtocolEvent::Other => false,
        }
    }
}

} // verus!
