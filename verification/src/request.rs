use vstd::prelude::*;

use vstd::set_lib::lemma_int_range;
use vstd::set_lib::lemma_len_subset;
use vstd::set_lib::set_int_range;

verus! {

broadcast use vstd::seq_lib::seq_to_set_is_finite;

/// One caller-specified intent to open a channel with a peer.
///
/// The correlation id (`custom_id`) may be supplied by the caller; when it
/// is absent the coordinator assigns one — non-zero and unique within the
/// batch — before any protocol call is made, and it is immutable from then
/// on.
pub struct OpenChannelRequest {
    /// Counterparty identity: its public key, string-encoded.
    pub counterparty_pubkey: String,
    /// Optional `host:port` address to connect to when no connection to
    /// the counterparty exists yet.
    pub counterparty_host_port: Option<String>,
    /// Channel value in satoshis.
    pub amount_sats: u64,
    /// Optional initial balance to push to the counterparty, in
    /// millisatoshis; zero when unspecified.
    pub push_amount_msats: Option<u64>,
    /// Correlation id linking the request to its protocol events.
    pub custom_id: Option<u64>,
}

impl OpenChannelRequest {
    /// The other request carries the same intent: every field agrees but
    /// possibly the correlation id.
    pub open spec fn same_intent(self, other: OpenChannelRequest) -> bool {
        &&& self.counterparty_pubkey == other.counterparty_pubkey
        &&& self.counterparty_host_port == other.counterparty_host_port
        &&& self.amount_sats == other.amount_sats
        &&& self.push_amount_msats == other.push_amount_msats
    }
}

/// Relies on rand's `Rng::gen_range` over `thread_rng`: the sample is drawn
/// from the half-open range it is given, here `1..u64::MAX`.
#[verifier::external_body]
fn gen_candidate_id() -> (r: u64)
    ensures
        1 <= r < u64::MAX,
{
    rand::Rng::gen_range(&mut rand::thread_rng(), 1..u64::MAX)
}

/// Linear membership test on the working list of ids.
fn contains_id(ids: &Vec<u64>, x: u64) -> (b: bool)
    ensures
        b == ids@.contains(x),
{
    let mut i: usize = 0;
    while i < ids.len()
        invariant
            i <= ids.len(),
            forall|j: int| 0 <= j < i ==> ids@[j] != x,
        decreases ids.len() - i,
    {
        if ids[i] == x {
            return true;
        }
        i = i + 1;
    }
    false
}

/// The smallest positive id not in `used`. By pigeonhole some value in
/// `1 ..= used.len() + 1` is free, so the scan terminates there.
fn first_free_id(used: &Vec<u64>) -> (r: u64)
    requires
        used@.len() + 1 < u64::MAX,
    ensures
        1 <= r,
        !used@.contains(r),
{
    let mut c: u64 = 1;
    loop
        invariant
            1 <= c,
            c <= used@.len() + 1,
            used@.len() + 1 < u64::MAX,
            forall|v: u64| 1 <= v < c ==> used@.contains(v),
        decreases used@.len() + 1 - c,
    {
        if !contains_id(used, c) {
            return c;
        }
        proof {
            let used_ints = used@.map_values(|x: u64| x as int);
            assert forall|v: int| 1 <= v <= c as int implies used_ints.to_set().contains(v) by {
                assert(used@.contains(v as u64));
                let j = choose|j: int| 0 <= j < used@.len() && used@[j] == (v as u64);
                assert(used_ints[j] == v);
                assert(used_ints.contains(v));
            }
            assert(set_int_range(1, c as int + 1).subset_of(used_ints.to_set()));
            lemma_int_range(1, c as int + 1);
            used_ints.lemma_cardinality_of_set();
            lemma_len_subset(set_int_range(1, c as int + 1), used_ints.to_set());
            assert(c as int <= used@.len());
        }
        c = c + 1;
    }
}

/// Clones an optional string; the copy is equal to the original.
fn clone_opt_string(s: &Option<String>) -> (r: Option<String>)
    ensures
        r == *s,
{
    match s {
        Some(x) => Some(x.clone()),
        None => None,
    }
}

/// Assigns correlation ids: a request that supplied one keeps it
/// unchanged; a request without one receives a generated id that is
/// non-zero and distinct from every other id in the batch, supplied or
/// generated. Everything else about each request is preserved, as is the
/// batch order and length.
pub fn assign_correlation_ids(requests: Vec<OpenChannelRequest>) -> (out: Vec<
    OpenChannelRequest,
>)
    requires
        requests@.len() < 0x7fff_ffff_ffff_ffff,
    ensures
        out@.len() == requests@.len(),
        forall|i: int|
            0 <= i < out@.len() ==> #[trigger] out@[i].same_intent(requests@[i]),
        forall|i: int| 0 <= i < out@.len() ==> (#[trigger] out@[i].custom_id) is Some,
        forall|i: int|
            0 <= i < out@.len() && requests@[i].custom_id is Some ==> out@[i].custom_id
                == requests@[i].custom_id,
        forall|i: int|
            0 <= i < out@.len() && requests@[i].custom_id is None ==> out@[i].custom_id != Some(
                0u64,
            ),
        forall|i: int, j: int|
            0 <= i < out@.len() && 0 <= j < out@.len() && i != j && requests@[i].custom_id is None
                ==> out@[i].custom_id != out@[j].custom_id,
{
    let ghost rs = requests@;
    let mut used: Vec<u64> = Vec::new();
    let mut i: usize = 0;
    while i < requests.len()
        invariant
            i <= rs.len(),
            requests@ == rs,
            used@.len() <= i,
            forall|k: int|
                0 <= k < i && rs[k].custom_id is Some ==> used@.contains(rs[k].custom_id->0),
        decreases requests.len() - i,
    {
        let ghost used_before = used@;
        match requests[i].custom_id {
            Some(id) => {
                used.push(id);
                proof {
                    assert(used@ == used_before.push(id));
                    assert forall|k: int|
                        0 <= k < i + 1 && rs[k].custom_id is Some implies used@.contains(
                        rs[k].custom_id->0,
                    ) by {
                        if k < i {
                            let w = choose|w: int|
                                0 <= w < used_before.len() && used_before[w] == rs[k].custom_id->0;
                            assert(used@[w] == rs[k].custom_id->0);
                        } else {
                            assert(used@[used_before.len() as int] == id);
                        }
                    }
                }
            },
            None => {},
        }
        i = i + 1;
    }
    let mut out: Vec<OpenChannelRequest> = Vec::new();
    let mut i: usize = 0;
    while i < requests.len()
        invariant
            i <= rs.len(),
            requests@ == rs,
            rs.len() < 0x7fff_ffff_ffff_ffff,
            used@.len() <= rs.len() + i,
            out@.len() == i,
            forall|k: int|
                0 <= k < rs.len() && rs[k].custom_id is Some ==> used@.contains(
                    rs[k].custom_id->0,
                ),
            forall|k: int| 0 <= k < i ==> #[trigger] out@[k].same_intent(rs[k]),
            forall|k: int| 0 <= k < i ==> (#[trigger] out@[k].custom_id) is Some,
            forall|k: int|
                0 <= k < i && rs[k].custom_id is Some ==> out@[k].custom_id == rs[k].custom_id,
            forall|k: int|
                0 <= k < i && rs[k].custom_id is None ==> out@[k].custom_id != Some(0u64),
            forall|k: int| 0 <= k < i ==> used@.contains(out@[k].custom_id->0),
            forall|k: int, m: int|
                0 <= k < i && 0 <= m < rs.len() && rs[k].custom_id is None && rs[m].custom_id
                    is Some ==> out@[k].custom_id->0 != rs[m].custom_id->0,
            forall|k1: int, k2: int|
                0 <= k1 < i && 0 <= k2 < i && k1 != k2 && rs[k1].custom_id is None
                    ==> out@[k1].custom_id != out@[k2].custom_id,
        decreases requests.len() - i,
    {
        let ghost used_before = used@;
        let ghost out_before = out@;
        let r = &requests[i];
        let id: u64 = match r.custom_id {
            Some(id) => id,
            None => {
                let candidate = gen_candidate_id();
                if !contains_id(&used, candidate) {
                    candidate
                } else {
                    first_free_id(&used)
                }
            },
        };
        used.push(id);
        out.push(
            OpenChannelRequest {
                counterparty_pubkey: r.counterparty_pubkey.clone(),
                counterparty_host_port: clone_opt_string(&r.counterparty_host_port),
                amount_sats: r.amount_sats,
                push_amount_msats: r.push_amount_msats,
                custom_id: Some(id),
            },
        );
        proof {
            assert(used@ == used_before.push(id));
            assert(out@ == out_before.push(out@[i as int]));
            assert forall|x: u64| used_before.contains(x) implies used@.contains(x) by {
                let w = choose|w: int| 0 <= w < used_before.len() && used_before[w] == x;
                assert(used@[w] == x);
            }
            assert(used@[used_before.len() as int] == id);
        }
        i = i + 1;
    }
    out
}

} // verus!
