use vstd::prelude::*;

use crate::events::ProtocolEvent;

verus! {

/// One output of the shared funding transaction: the script and value a
/// matched funding-ready event asked for.
pub struct FundingOutput {
    /// Script the output pays to.
    pub output_script: Vec<u8>,
    /// Output value in satoshis.
    pub value_sats: u64,
}

/// Byte-for-byte copy of a script or key.
pub(crate) fn copy_bytes(v: &Vec<u8>) -> (r: Vec<u8>)
    ensures
        r@ == v@,
{
    let mut r: Vec<u8> = Vec::new();
    let mut i: usize = 0;
    while i < v.len()
        invariant
            i <= v.len(),
            r@ == v@.subrange(0, i as int),
        decreases v.len() - i,
    {
        r.push(v[i]);
        proof {
            assert(r@ =~= v@.subrange(0, i + 1));
        }
        i = i + 1;
    }
    proof {
        assert(r@ =~= v@);
    }
    r
}

/// Whether the assembly and broadcast-registration stage should run at
/// all: with no matched events the transaction draft would have zero
/// channel outputs, so the coordinator short-circuits instead of building
/// and broadcasting an empty transaction.
pub fn should_assemble(events: &Vec<ProtocolEvent>) -> (r: bool)
    ensures
        r == (events@.len() > 0),
{
    events.len() > 0
}

/// Builds the output list of the shared funding transaction: exactly one
/// output per matched funding-ready event, carrying that event's script
/// and value, in the order the events were matched.
pub fn funding_outputs(events: &Vec<ProtocolEvent>) -> (outs: Vec<FundingOutput>)
    requires
        forall|k: int| 0 <= k < events@.len() ==> (#[trigger] events@[k]).is_funding_ready(),
    ensures
        outs@.len() == events@.len(),
        forall|k: int|
            0 <= k < events@.len() ==> (#[trigger] outs@[k]).output_script@
                == events@[k].spec_output_script() && outs@[k].value_sats
                == events@[k].spec_value_sats(),
{
    let mut outs: Vec<FundingOutput> = Vec::new();
    let mut i: usize = 0;
    while i < events.len()
        invariant
            i <= events.len(),
            outs@.len() == i,
            forall|k: int| 0 <= k < events@.len() ==> (#[trigger] events@[k]).is_funding_ready(),
            forall|k: int|
                0 <= k < i ==> (#[trigger] outs@[k]).output_script@
                    == events@[k].spec_output_script() && outs@[k].value_sats
                    == events@[k].spec_value_sats(),
        decreases events.len() - i,
    {
        let out = match &events[i] {
            ProtocolEvent::FundingGenerationReady { channel_value_satoshis, output_script, .. } => {
                FundingOutput {
                    output_script: copy_bytes(output_script),
                    value_sats: *channel_value_satoshis,
                }
            },
            ProtocolEvent::Other => vstd::pervasive::unreached(),
        };
        outs.push(out);
        i = i + 1;
    }
    outs
}

/// Converts a fee rate in the fee estimator's native unit (satoshis per
/// 1000 weight units) to satoshis per 1000 virtual bytes, by the standard
/// four-weight-units-per-virtual-byte relation (divide by 250, i.e.
/// multiply by 4 per 1000 virtual bytes). The protocol-defined minimum
/// relay rate of 253 maps to exactly 1000 — 1.0 sat/vByte — so that the
/// conversion never rounds below the relay floor.
pub fn native_rate_to_sats_per_kvb(native: u32) -> (r: u64)
    ensures
        native == 253 ==> r == 1000,
        native != 253 ==> r == native * 4,
{
    if native == 253 {
        1000
    } else {
        (native as u64) * 4
    }
}

} // verus!
