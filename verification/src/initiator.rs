use vstd::prelude::*;

use crate::errors::Error;
use crate::request::OpenChannelRequest;

verus! {

/// What the initiator must do about peer connectivity before it may
/// invoke the protocol engine for one request.
#[derive(Debug)]
pub enum ConnectionPlan {
    /// A connection to the counterparty already exists; proceed.
    AlreadyConnected,
    /// Establish a connection to this `host:port` address first.
    Connect(String),
}

/// Decides the connectivity step for one request. With an existing
/// connection nothing is to be done; otherwise the request's address is
/// used. A request with no address and no existing connection is a
/// configuration error — the distinct missing-address failure, fatal to
/// this request only, never a silent block.
pub fn connection_plan(request: &OpenChannelRequest, already_connected: bool) -> (r: Result<
    ConnectionPlan,
    Error,
>)
    ensures
        already_connected ==> (r matches Ok(p) && p is AlreadyConnected),
        !already_connected && request.counterparty_host_port is Some ==> (r matches Ok(p)
            && p matches ConnectionPlan::Connect(a) && a == request.counterparty_host_port->0),
        !already_connected && request.counterparty_host_port is None ==> (r matches Err(e)
            && e == Error::MissingAddress),
{
    if already_connected {
        Ok(ConnectionPlan::AlreadyConnected)
    } else {
        match &request.counterparty_host_port {
            Some(addr) => Ok(ConnectionPlan::Connect(addr.clone())),
            None => Err(Error::MissingAddress),
        }
    }
}

/// The arguments of one initiate-channel call on the protocol engine.
pub struct InitiateParams {
    /// Counterparty identity, string-encoded.
    pub counterparty_pubkey: String,
    /// Channel value in satoshis.
    pub channel_value_sats: u64,
    /// Balance pushed to the counterparty at open, in millisatoshis.
    pub push_msats: u64,
    /// The request's assigned correlation id.
    pub correlation_id: u64,
}

/// Assembles the initiate-channel arguments for one request: the
/// counterparty identity and value are taken as given, the push amount
/// defaults to zero when unspecified, and the assigned correlation id is
/// passed along so the engine's funding-ready event echoes it.
pub fn initiate_params(request: &OpenChannelRequest) -> (p: InitiateParams)
    requires
        request.custom_id is Some,
    ensures
        p.counterparty_pubkey == request.counterparty_pubkey,
        p.channel_value_sats == request.amount_sats,
        p.push_msats == (match request.push_amount_msats {
            Some(v) => v,
            None => 0u64,
        }),
        p.correlation_id == request.custom_id->0,
{
    let push_msats: u64 = match request.push_amount_msats {
        Some(v) => v,
        None => 0,
    };
    let correlation_id: u64 = match request.custom_id {
        Some(id) => id,
        None => vstd::pervasive::unreached(),
    };
    InitiateParams {
        counterparty_pubkey: request.counterparty_pubkey.clone(),
        channel_value_sats: request.amount_sats,
        push_msats,
        correlation_id,
    }
}

} // verus!
