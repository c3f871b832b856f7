use vstd::prelude::*;

use crate::bus::try_next_event;
use crate::events::EventFilter;
use crate::events::ProtocolEvent;

verus! {

/// No filter in the sequence accepts the event.
pub open spec fn no_match(filters: Seq<EventFilter>, event: ProtocolEvent) -> bool {
    forall|j: int| 0 <= j < filters.len() ==> !filters[j].spec_matches(event)
}

/// `i` is the position of the first filter that accepts the event.
pub open spec fn is_first_match(filters: Seq<EventFilter>, event: ProtocolEvent, i: int) -> bool {
    &&& 0 <= i < filters.len()
    &&& filters[i].spec_matches(event)
    &&& forall|j: int| 0 <= j < i ==> !filters[j].spec_matches(event)
}

/// The filter sequence after retiring position `i` the way
/// `Vec::swap_remove` does: the last entry moves into the hole.
pub open spec fn swap_removed(filters: Seq<EventFilter>, i: int) -> Seq<EventFilter>
    recommends
        0 <= i < filters.len(),
{
    filters.update(i, filters.last()).drop_last()
}

/// No two filters wait for the same correlation id. Batches assign ids
/// uniquely, so the filter set handed to a correlator satisfies this.
pub open spec fn distinct_filter_ids(filters: Seq<EventFilter>) -> bool {
    forall|i: int, j: int|
        0 <= i < j < filters.len() ==> filters[i].user_channel_id != filters[j].user_channel_id
}

/// Finds the position of the first filter accepting the event, if any.
fn find_first_match(filters: &Vec<EventFilter>, event: &ProtocolEvent) -> (r: Option<usize>)
    ensures
        match r {
            Some(i) => is_first_match(filters@, *event, i as int),
            None => no_match(filters@, *event),
        },
{
    let mut i: usize = 0;
    while i < filters.len()
        invariant
            i <= filters.len(),
            forall|j: int| 0 <= j < i ==> !filters@[j].spec_matches(*event),
        decreases filters.len() - i,
    {
        if filters[i].matches(event) {
            return Some(i);
        }
        i = i + 1;
    }
    None
}

/// Drains the shared event bus and matches events against a working set of
/// single-use filters until every filter is satisfied or the caller's
/// timeout budget is spent. One correlator exists per batch invocation,
/// with its own bus receiver and its own filter and matched-event state;
/// nothing is shared across invocations.
pub struct EventCorrelator {
    receiver: tokio::sync::broadcast::Receiver<ProtocolEvent>,
    filters: Vec<EventFilter>,
    matched: Vec<ProtocolEvent>,
    elapsed_ms: u64,
}

impl EventCorrelator {
    /// The filters not yet satisfied.
    pub closed spec fn remaining(self) -> Seq<EventFilter> {
        self.filters@
    }

    /// The events matched so far, in the order they were accepted.
    pub closed spec fn matched_events(self) -> Seq<ProtocolEvent> {
        self.matched@
    }

    /// How much of the timeout budget has been consumed, in milliseconds.
    pub closed spec fn elapsed(self) -> u64 {
        self.elapsed_ms
    }

    /// Every matched event is a funding-ready event: filters accept
    /// nothing else, so nothing else is ever recorded.
    pub open spec fn wf(self) -> bool {
        forall|k: int| 0 <= k < self.matched_events().len() ==> self.matched_events()[k].is_funding_ready()
    }

    /// Whether the wait loop should poll again: some filter is still
    /// unsatisfied and the timeout has not elapsed. With an empty filter
    /// set this is false from the start, so the loop never suspends.
    pub open spec fn spec_keep_waiting(self, timeout_ms: u64) -> bool {
        self.elapsed() < timeout_ms && self.remaining().len() > 0
    }

    /// A fresh correlator over its own bus receiver and filter set.
    pub fn new(
        receiver: tokio::sync::broadcast::Receiver<ProtocolEvent>,
        filters: Vec<EventFilter>,
    ) -> (c: EventCorrelator)
        ensures
            c.remaining() == filters@,
            c.matched_events() == Seq::<ProtocolEvent>::empty(),
            c.elapsed() == 0,
            c.wf(),
    {
        EventCorrelator { receiver, filters, matched: Vec::new(), elapsed_ms: 0 }
    }

    /// Tests one event against the remaining filters. The first filter that
    /// accepts it is retired — it can never match again in this correlation
    /// call — and the event is recorded; an event no filter accepts leaves
    /// the correlator unchanged. Exactly one filter is retired per matched
    /// event, so a filter matches at most one event.
    pub fn offer_event(&mut self, event: ProtocolEvent) -> (matched: bool)
        ensures
            matched == !no_match(old(self).remaining(), event),
            final(self).elapsed() == old(self).elapsed(),
            !matched ==> final(self).remaining() == old(self).remaining(),
            !matched ==> final(self).matched_events() == old(self).matched_events(),
            matched ==> final(self).matched_events() == old(self).matched_events().push(event),
            matched ==> final(self).remaining().len() == old(self).remaining().len() - 1,
            forall|i: int|
                is_first_match(old(self).remaining(), event, i)
                    ==> final(self).remaining() == swap_removed(old(self).remaining(), i),
            old(self).wf() ==> final(self).wf(),
            distinct_filter_ids(old(self).remaining()) ==> distinct_filter_ids(
                final(self).remaining(),
            ),
    {
        let found = find_first_match(&self.filters, &event);
        match found {
            None => false,
            Some(i) => {
                proof {
                    assert forall|i2: int|
                        is_first_match(self.filters@, event, i2) implies i2 == i as int by {
                        if i2 < i as int {
                            assert(!self.filters@[i2].spec_matches(event));
                        }
                        if i2 > i as int {
                            assert(!self.filters@[i as int].spec_matches(event));
                        }
                    }
                }
                self.filters.swap_remove(i);
                self.matched.push(event);
                proof {
                    if distinct_filter_ids(old(self).filters@) {
                        lemma_swap_removed_distinct(old(self).filters@, i as int);
                    }
                    if old(self).wf() {
                        assert forall|k: int|
                            0 <= k < self.matched_events().len() implies self.matched_events()[k].is_funding_ready() by {
                            if k < old(self).matched_events().len() {
                                assert(old(self).matched_events()[k].is_funding_ready());
                            } else {
                                assert(self.matched_events()[k] == event);
                            }
                        }
                    }
                }
                true
            },
        }
    }

    /// Drains the events currently pending on the bus — at most
    /// `max_events` of them, so that one poll round is bounded — matching
    /// each against the remaining filters, and stops early once all filters
    /// are satisfied. Never suspends: when the bus has nothing ready it
    /// returns at once. Each retired filter accounts for exactly one
    /// matched event.
    pub fn drain_available(&mut self, max_events: usize)
        ensures
            final(self).elapsed() == old(self).elapsed(),
            final(self).remaining().len() <= old(self).remaining().len(),
            final(self).matched_events().len() == old(self).matched_events().len() + (old(
                self,
            ).remaining().len() - final(self).remaining().len()),
            old(self).wf() ==> final(self).wf(),
            distinct_filter_ids(old(self).remaining()) ==> distinct_filter_ids(
                final(self).remaining(),
            ),
    {
        let mut left: usize = max_events;
        while left > 0
            invariant
                self.elapsed() == old(self).elapsed(),
                self.remaining().len() <= old(self).remaining().len(),
                self.matched_events().len() == old(self).matched_events().len() + (old(
                    self,
                ).remaining().len() - self.remaining().len()),
                old(self).wf() ==> self.wf(),
                distinct_filter_ids(old(self).remaining()) ==> distinct_filter_ids(
                    self.remaining(),
                ),
            decreases left,
        {
            let next = try_next_event(&mut self.receiver);
            match next {
                None => {
                    return ;
                },
                Some(event) => {
                    self.offer_event(event);
                    if self.filters.len() == 0 {
                        return ;
                    }
                },
            }
            left = left - 1;
        }
    }

    /// Whether the caller's wait loop should suspend for another poll
    /// interval. False as soon as no filter remains — in particular,
    /// immediately, for an empty filter set — or once the budget is spent.
    pub fn keep_waiting(&self, timeout_ms: u64) -> (r: bool)
        ensures
            r == self.spec_keep_waiting(timeout_ms),
    {
        self.elapsed_ms < timeout_ms && self.filters.len() > 0
    }

    /// Records that one poll interval has passed.
    pub fn note_poll(&mut self, interval_ms: u64)
        requires
            old(self).elapsed() + interval_ms <= u64::MAX,
        ensures
            final(self).elapsed() == old(self).elapsed() + interval_ms,
            final(self).remaining() == old(self).remaining(),
            final(self).matched_events() == old(self).matched_events(),
    {
        self.elapsed_ms = self.elapsed_ms + interval_ms;
    }

    /// True once every filter has been satisfied.
    pub fn all_matched(&self) -> (r: bool)
        ensures
            r == (self.remaining().len() == 0),
    {
        self.filters.len() == 0
    }

    /// Consumes the correlator, yielding the matched events.
    pub fn take_matched(self) -> (events: Vec<ProtocolEvent>)
        ensures
            events@ == self.matched_events(),
    {
        self.matched
    }
}

/// Retiring a filter preserves distinctness of the awaited ids.
proof fn lemma_swap_removed_distinct(filters: Seq<EventFilter>, i: int)
    requires
        0 <= i < filters.len(),
        distinct_filter_ids(filters),
    ensures
        distinct_filter_ids(swap_removed(filters, i)),
{
    let r = swap_removed(filters, i);
    assert forall|a: int, b: int|
        0 <= a < b < r.len() implies r[a].user_channel_id != r[b].user_channel_id by {
        assert(r[a] == if a == i { filters[filters.len() - 1] } else { filters[a] });
        assert(r[b] == if b == i { filters[filters.len() - 1] } else { filters[b] });
    }
}

/// An empty filter set never waits: the correlation step returns
/// immediately, with no suspension, because the wait loop suspends only
/// while `keep_waiting` holds.
pub proof fn lemma_empty_filter_set_never_waits(c: EventCorrelator, timeout_ms: u64)
    requires
        c.remaining().len() == 0,
    ensures
        !c.spec_keep_waiting(timeout_ms),
{
}

/// Once a filter is retired it cannot match again within the same
/// correlation call: provided the awaited ids are distinct, the event that
/// satisfied the retired filter — and any later duplicate of it — matches
/// no remaining filter, so the same logical event is never double-counted.
pub proof fn lemma_retired_filter_never_rematches(
    filters: Seq<EventFilter>,
    event: ProtocolEvent,
    i: int,
)
    requires
        distinct_filter_ids(filters),
        is_first_match(filters, event, i),
    ensures
        no_match(swap_removed(filters, i), event),
{
    let r = swap_removed(filters, i);
    assert forall|j: int| 0 <= j < r.len() implies !r[j].spec_matches(event) by {
        assert(r[j] == if j == i { filters[filters.len() - 1] } else { filters[j] });
        if filters[i].spec_matches(event) && r[j].spec_matches(event) {
            assert(r[j].user_channel_id == filters[i].user_channel_id);
        }
    }
}

} // verus!
