use vstd::prelude::*;

use crate::assembler::copy_bytes;
use crate::errors::Error;
use crate::events::ProtocolEvent;
use crate::request::OpenChannelRequest;

verus! {

/// The temporary channel identifier the protocol engine hands back for a
/// successfully initiated channel.
pub type TempChannelId = [u8; 32];

/// One request paired with the outcome of its initiation.
pub struct BatchEntry {
    pub request: OpenChannelRequest,
    pub result: Result<TempChannelId, Error>,
}

/// One request after the correlation race has been resolved: requests
/// whose funding-ready event never arrived are reclassified as failed,
/// the rest carry the counterparty identity their event reported.
pub struct ResolvedEntry {
    pub request: OpenChannelRequest,
    pub result: Result<TempChannelId, Error>,
    pub counterparty: Option<Vec<u8>>,
}

/// Some matched event carries correlation id `id`.
pub open spec fn has_event_for(events: Seq<ProtocolEvent>, id: u64) -> bool {
    exists|k: int| 0 <= k < events.len() && (#[trigger] events[k]).is_funding_ready_for(id)
}

/// `k` is the position of the first matched event carrying id `id`. Within
/// a batch at most one funding-ready event exists per id, so the first is
/// the only one.
pub open spec fn is_first_event_for(events: Seq<ProtocolEvent>, id: u64, k: int) -> bool {
    &&& 0 <= k < events.len()
    &&& events[k].is_funding_ready_for(id)
    &&& forall|j: int| 0 <= j < k ==> !(#[trigger] events[j]).is_funding_ready_for(id)
}

/// Finds the first matched event carrying id `id`, if any.
fn find_event_for(events: &Vec<ProtocolEvent>, id: u64) -> (r: Option<usize>)
    ensures
        match r {
            Some(k) => is_first_event_for(events@, id, k as int),
            None => !has_event_for(events@, id),
        },
{
    let mut i: usize = 0;
    while i < events.len()
        invariant
            i <= events.len(),
            forall|j: int| 0 <= j < i ==> !(#[trigger] events@[j]).is_funding_ready_for(id),
        decreases events.len() - i,
    {
        let hit = match &events[i] {
            ProtocolEvent::FundingGenerationReady { user_channel_id, .. } => {
                *user_channel_id == id
            },
            ProtocolEvent::Other => false,
        };
        if hit {
            return Some(i);
        }
        i = i + 1;
    }
    None
}

/// The counterparty identity a matched funding-ready event reported.
fn counterparty_of(event: &ProtocolEvent) -> (r: Vec<u8>)
    ensures
        r@ == event.spec_counterparty(),
{
    match event {
        ProtocolEvent::FundingGenerationReady { counterparty_node_id, .. } => {
            copy_bytes(counterparty_node_id)
        },
        ProtocolEvent::Other => Vec::new(),
    }
}

/// Resolves the race between initiation and the timeout-bounded
/// correlation step. Each entry whose initiation failed is passed through
/// unchanged. An entry whose initiation succeeded keeps its success — and
/// learns its counterparty identity — exactly when a matched event carries
/// its correlation id; with no such event its result is reclassified as
/// the definitive funding-negotiation failure, not left as a success and
/// not confused with an initiation failure. Order and length are
/// preserved.
pub fn resolve_results(entries: Vec<BatchEntry>, events: &Vec<ProtocolEvent>) -> (out: Vec<
    ResolvedEntry,
>)
    requires
        forall|i: int|
            0 <= i < entries@.len() ==> (#[trigger] entries@[i]).request.custom_id is Some,
    ensures
        out@.len() == entries@.len(),
        forall|i: int|
            0 <= i < out@.len() ==> (#[trigger] out@[i]).request == entries@[i].request,
        forall|i: int|
            0 <= i < out@.len() && entries@[i].result is Err ==> (#[trigger] out@[i]).result
                == entries@[i].result && out@[i].counterparty is None,
        forall|i: int|
            0 <= i < out@.len() && entries@[i].result is Ok && !has_event_for(
                events@,
                entries@[i].request.custom_id->0,
            ) ==> (#[trigger] out@[i]).result == Err::<TempChannelId, Error>(
                Error::FundingGenerationNeverHappened,
            ) && out@[i].counterparty is None,
        forall|i: int, k: int|
            #![trigger out@[i], events@[k]]
            0 <= i < out@.len() && entries@[i].result is Ok && is_first_event_for(
                events@,
                entries@[i].request.custom_id->0,
                k,
            ) ==> out@[i].result == entries@[i].result && out@[i].counterparty
                is Some && out@[i].counterparty->0@ == events@[k].spec_counterparty(),
{
    let ghost es = entries@;
    let mut remaining = entries;
    let mut out: Vec<ResolvedEntry> = Vec::new();
    while remaining.len() > 0
        invariant
            out@.len() + remaining@.len() == es.len(),
            remaining@ == es.subrange(out@.len() as int, es.len() as int),
            forall|i: int| 0 <= i < es.len() ==> (#[trigger] es[i]).request.custom_id is Some,
            forall|i: int|
                0 <= i < out@.len() ==> (#[trigger] out@[i]).request == es[i].request,
            forall|i: int|
                0 <= i < out@.len() && es[i].result is Err ==> (#[trigger] out@[i]).result
                    == es[i].result && out@[i].counterparty is None,
            forall|i: int|
                0 <= i < out@.len() && es[i].result is Ok && !has_event_for(
                    events@,
                    es[i].request.custom_id->0,
                ) ==> (#[trigger] out@[i]).result == Err::<TempChannelId, Error>(
                    Error::FundingGenerationNeverHappened,
                ) && out@[i].counterparty is None,
            forall|i: int, k: int|
                #![trigger out@[i], events@[k]]
                0 <= i < out@.len() && es[i].result is Ok && is_first_event_for(
                    events@,
                    es[i].request.custom_id->0,
                    k,
                ) ==> out@[i].result == es[i].result && out@[i].counterparty is Some
                    && out@[i].counterparty->0@ == events@[k].spec_counterparty(),
        decreases remaining@.len(),
    {
        let ghost idx = out@.len() as int;
        let entry = remaining.remove(0);
        proof {
            assert(entry == es[idx]);
            assert(remaining@ =~= es.subrange(idx + 1, es.len() as int));
        }
        let id: u64 = match entry.request.custom_id {
            Some(id) => id,
            None => vstd::pervasive::unreached(),
        };
        let resolved = if entry.result.is_ok() {
            match find_event_for(events, id) {
                None => ResolvedEntry {
                    request: entry.request,
                    result: Err(Error::FundingGenerationNeverHappened),
                    counterparty: None,
                },
                Some(k) => {
                    proof {
                        assert forall|k2: int|
                            is_first_event_for(events@, id, k2) implies k2 == k as int by {
                            if k2 < k as int {
                                assert(!events@[k2].is_funding_ready_for(id));
                            }
                            if k2 > k as int {
                                assert(!events@[k as int].is_funding_ready_for(id));
                            }
                        }
                    }
                    let counterparty = counterparty_of(&events[k]);
                    ResolvedEntry {
                        request: entry.request,
                        result: entry.result,
                        counterparty: Some(counterparty),
                    }
                },
            }
        } else {
            ResolvedEntry { request: entry.request, result: entry.result, counterparty: None }
        };
        out.push(resolved);
    }
    out
}

/// How many entries are still successful after resolution: the number of
/// completions the protocol engine is expected to perform against the
/// shared transaction, and therefore the reference count registered with
/// the broadcast debouncer.
pub open spec fn count_ok(s: Seq<ResolvedEntry>) -> int
    decreases s.len(),
{
    if s.len() == 0 {
        0
    } else {
        count_ok(s.drop_last()) + if s.last().result is Ok {
            1int
        } else {
            0int
        }
    }
}

/// Counts the entries expected to complete against the shared
/// transaction. This count is taken before any completion call is made,
/// so later completion outcomes cannot change it.
pub fn count_pending_completions(resolved: &Vec<ResolvedEntry>) -> (n: usize)
    ensures
        n == count_ok(resolved@),
{
    let mut n: usize = 0;
    let mut i: usize = 0;
    while i < resolved.len()
        invariant
            i <= resolved.len(),
            n <= i,
            n == count_ok(resolved@.subrange(0, i as int)),
        decreases resolved.len() - i,
    {
        proof {
            assert(resolved@.subrange(0, i + 1).drop_last() =~= resolved@.subrange(0, i as int));
            assert(resolved@.subrange(0, i + 1).last() == resolved@[i as int]);
        }
        if resolved[i].result.is_ok() {
            n = n + 1;
        }
        i = i + 1;
    }
    proof {
        assert(resolved@.subrange(0, resolved@.len() as int) =~= resolved@);
    }
    n
}

/// The number of requests that initiated successfully and whose
/// funding-ready event was matched during correlation.
pub open spec fn count_matched(entries: Seq<BatchEntry>, events: Seq<ProtocolEvent>) -> int
    decreases entries.len(),
{
    if entries.len() == 0 {
        0
    } else {
        count_matched(entries.drop_last(), events) + if entries.last().result is Ok
            && has_event_for(events, entries.last().request.custom_id->0) {
            1int
        } else {
            0int
        }
    }
}

/// The completion count registered with the broadcast debouncer equals
/// the number of requests that initiated successfully and were matched by
/// a funding-ready event — no more, no fewer. The count is a function of
/// the resolved entries alone, fixed before any completion call is made,
/// so later completion-call outcomes cannot change it. The premises are
/// exactly what `resolve_results` ensures of its output.
pub proof fn lemma_debounce_count(
    entries: Seq<BatchEntry>,
    events: Seq<ProtocolEvent>,
    resolved: Seq<ResolvedEntry>,
)
    requires
        resolved.len() == entries.len(),
        forall|i: int|
            0 <= i < entries.len() ==> ((#[trigger] resolved[i]).result is Ok <==> (
            entries[i].result is Ok && has_event_for(events, entries[i].request.custom_id->0))),
    ensures
        count_ok(resolved) == count_matched(entries, events),
    decreases entries.len(),
{
    if entries.len() > 0 {
        assert forall|i: int|
            0 <= i < entries.len() - 1 implies ((#[trigger] resolved.drop_last()[i]).result is Ok
            <==> (entries.drop_last()[i].result is Ok && has_event_for(
            events,
            entries.drop_last()[i].request.custom_id->0,
        ))) by {
            assert(resolved.drop_last()[i] == resolved[i]);
            assert(entries.drop_last()[i] == entries[i]);
        }
        lemma_debounce_count(entries.drop_last(), events, resolved.drop_last());
        assert(resolved[entries.len() - 1].result is Ok <==> (entries.last().result is Ok
            && has_event_for(events, entries.last().request.custom_id->0)));
    }
}

/// A prefix never counts more successes than a longer prefix.
proof fn lemma_count_ok_prefix_le(s: Seq<ResolvedEntry>, a: int, b: int)
    requires
        0 <= a <= b <= s.len(),
    ensures
        count_ok(s.subrange(0, a)) <= count_ok(s.subrange(0, b)),
    decreases b - a,
{
    if a < b {
        lemma_count_ok_prefix_le(s, a, b - 1);
        assert(s.subrange(0, b).drop_last() =~= s.subrange(0, b - 1));
    }
}

/// Pairs each resolved entry with its final outcome. `outcomes` holds one
/// completion result per still-successful entry, in batch order: the
/// protocol engine's acceptance keeps the entry's success, its rejection
/// becomes that request's failure — fatal to that request only. Entries
/// that had already failed are passed through untouched by the completion
/// stage. One result is returned per request, in request order.
pub fn finalize_results(resolved: Vec<ResolvedEntry>, outcomes: &Vec<Result<(), Error>>) -> (out:
    Vec<(OpenChannelRequest, Result<TempChannelId, Error>)>)
    requires
        outcomes@.len() == count_ok(resolved@),
    ensures
        out@.len() == resolved@.len(),
        forall|i: int|
            0 <= i < out@.len() ==> (#[trigger] out@[i]).0 == resolved@[i].request,
        forall|i: int|
            0 <= i < out@.len() && resolved@[i].result is Err ==> (#[trigger] out@[i]).1
                == resolved@[i].result,
        forall|i: int|
            0 <= i < out@.len() && resolved@[i].result is Ok ==> (#[trigger] out@[i]).1 == (match
            outcomes@[count_ok(resolved@.subrange(0, i))] {
                Ok(u) => resolved@[i].result,
                Err(e) => Err(e),
            }),
{
    let ghost rs = resolved@;
    let outcomes_len: usize = outcomes.len();
    let mut remaining = resolved;
    let mut out: Vec<(OpenChannelRequest, Result<TempChannelId, Error>)> = Vec::new();
    let mut j: usize = 0;
    while remaining.len() > 0
        invariant
            out@.len() + remaining@.len() == rs.len(),
            remaining@ == rs.subrange(out@.len() as int, rs.len() as int),
            outcomes@.len() == count_ok(rs),
            outcomes_len == outcomes@.len(),
            j == count_ok(rs.subrange(0, out@.len() as int)),
            j <= outcomes_len,
            forall|i: int|
                0 <= i < out@.len() ==> (#[trigger] out@[i]).0 == rs[i].request,
            forall|i: int|
                0 <= i < out@.len() && rs[i].result is Err ==> (#[trigger] out@[i]).1
                    == rs[i].result,
            forall|i: int|
                0 <= i < out@.len() && rs[i].result is Ok ==> (#[trigger] out@[i]).1 == (match
                outcomes@[count_ok(rs.subrange(0, i))] {
                    Ok(u) => rs[i].result,
                    Err(e) => Err(e),
                }),
        decreases remaining@.len(),
    {
        let ghost idx = out@.len() as int;
        let entry = remaining.remove(0);
        proof {
            assert(entry == rs[idx]);
            assert(remaining@ =~= rs.subrange(idx + 1, rs.len() as int));
            assert(rs.subrange(0, idx + 1).drop_last() =~= rs.subrange(0, idx));
            assert(rs.subrange(0, idx + 1).last() == rs[idx]);
            lemma_count_ok_prefix_le(rs, idx + 1, rs.len() as int);
            assert(rs.subrange(0, rs.len() as int) =~= rs);
            if rs[idx].result is Ok {
                assert(count_ok(rs.subrange(0, idx + 1)) == j + 1);
                assert(j + 1 <= outcomes@.len());
            }
        }
        let pair = if entry.result.is_ok() {
            let outcome = outcomes[j];
            j = j + 1;
            match outcome {
                Ok(_) => (entry.request, entry.result),
                Err(e) => (entry.request, Err(e)),
            }
        } else {
            (entry.request, entry.result)
        };
        out.push(pair);
    }
    out
}

/// Applies the batch-fatal policy for a shared-transaction build or
/// signing failure: every entry that was still pending success is failed
/// with the dedicated shared-transaction error, uniformly; entries that
/// had already failed keep their own error. One result per request, in
/// request order.
pub fn fail_pending(resolved: Vec<ResolvedEntry>) -> (out: Vec<
    (OpenChannelRequest, Result<TempChannelId, Error>),
>)
    ensures
        out@.len() == resolved@.len(),
        forall|i: int|
            0 <= i < out@.len() ==> (#[trigger] out@[i]).0 == resolved@[i].request,
        forall|i: int|
            0 <= i < out@.len() && resolved@[i].result is Ok ==> (#[trigger] out@[i]).1
                == Err::<TempChannelId, Error>(Error::SharedTransactionBuildFailed),
        forall|i: int|
            0 <= i < out@.len() && resolved@[i].result is Err ==> (#[trigger] out@[i]).1
                == resolved@[i].result,
{
    let ghost rs = resolved@;
    let mut remaining = resolved;
    let mut out: Vec<(OpenChannelRequest, Result<TempChannelId, Error>)> = Vec::new();
    while remaining.len() > 0
        invariant
            out@.len() + remaining@.len() == rs.len(),
            remaining@ == rs.subrange(out@.len() as int, rs.len() as int),
            forall|i: int|
                0 <= i < out@.len() ==> (#[trigger] out@[i]).0 == rs[i].request,
            forall|i: int|
                0 <= i < out@.len() && rs[i].result is Ok ==> (#[trigger] out@[i]).1
                    == Err::<TempChannelId, Error>(Error::SharedTransactionBuildFailed),
            forall|i: int|
                0 <= i < out@.len() && rs[i].result is Err ==> (#[trigger] out@[i]).1
                    == rs[i].result,
        decreases remaining@.len(),
    {
        let ghost idx = out@.len() as int;
        let entry = remaining.remove(0);
        proof {
            assert(entry == rs[idx]);
            assert(remaining@ =~= rs.subrange(idx + 1, rs.len() as int));
        }
        let pair = if entry.result.is_ok() {
            (entry.request, Err(Error::SharedTransactionBuildFailed))
        } else {
            (entry.request, entry.result)
        };
        out.push(pair);
    }
    out
}

} // verus!
