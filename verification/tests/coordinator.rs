use channel_batch::assembler::funding_outputs;
use channel_batch::assembler::native_rate_to_sats_per_kvb;
use channel_batch::assembler::should_assemble;
use channel_batch::batch::PendingBatchState;
use channel_batch::correlator::EventCorrelator;
use channel_batch::dispatch::count_pending_completions;
use channel_batch::dispatch::fail_pending;
use channel_batch::dispatch::finalize_results;
use channel_batch::dispatch::resolve_results;
use channel_batch::errors::Error;
use channel_batch::events::EventFilter;
use channel_batch::events::ProtocolEvent;
use channel_batch::initiator::connection_plan;
use channel_batch::initiator::initiate_params;
use channel_batch::initiator::ConnectionPlan;
use channel_batch::request::assign_correlation_ids;
use channel_batch::request::OpenChannelRequest;

fn request(pubkey: &str, addr: Option<&str>, sats: u64, id: Option<u64>) -> OpenChannelRequest {
    OpenChannelRequest {
        counterparty_pubkey: pubkey.to_string(),
        counterparty_host_port: addr.map(|a| a.to_string()),
        amount_sats: sats,
        push_amount_msats: None,
        custom_id: id,
    }
}

fn funding_event(node: &str, id: u64, counterparty: &[u8], sats: u64, script: &[u8]) -> ProtocolEvent {
    ProtocolEvent::FundingGenerationReady {
        node_id: node.to_string(),
        user_channel_id: id,
        counterparty_node_id: counterparty.to_vec(),
        channel_value_satoshis: sats,
        output_script: script.to_vec(),
    }
}

#[test]
fn fee_rate_boundary_maps_to_one_sat_per_vbyte() {
    assert_eq!(native_rate_to_sats_per_kvb(253), 1000);
    assert_eq!(native_rate_to_sats_per_kvb(253) as f32 / 1000.0, 1.0);
}

#[test]
fn fee_rate_500_maps_to_two_sats_per_vbyte() {
    assert_eq!(native_rate_to_sats_per_kvb(500), 2000);
    assert_eq!(native_rate_to_sats_per_kvb(500) as f32 / 1000.0, 2.0);
}

#[test]
fn fee_rate_zero_maps_to_zero() {
    assert_eq!(native_rate_to_sats_per_kvb(0), 0);
    assert_eq!(native_rate_to_sats_per_kvb(0) as f32 / 1000.0, 0.0);
}

#[test]
fn fee_rate_general_case_divides_by_250() {
    assert_eq!(native_rate_to_sats_per_kvb(1000), 4000);
    assert_eq!(native_rate_to_sats_per_kvb(252), 1008);
}

#[test]
fn supplied_correlation_id_is_kept() {
    let out = assign_correlation_ids(vec![request("a", None, 1, Some(77))]);
    assert_eq!(out.len(), 1);
    assert_eq!(out[0].custom_id, Some(77));
}

#[test]
fn generated_ids_are_nonzero_and_unique() {
    let out = assign_correlation_ids(vec![
        request("a", None, 1, None),
        request("b", None, 2, None),
        request("c", None, 3, Some(5)),
        request("d", None, 4, None),
    ]);
    assert_eq!(out.len(), 4);
    let ids: Vec<u64> = out.iter().map(|r| r.custom_id.unwrap()).collect();
    assert!(ids.iter().all(|&id| id != 0));
    assert_eq!(ids[2], 5);
    for i in 0..4 {
        for j in 0..4 {
            if i != j {
                assert_ne!(ids[i], ids[j]);
            }
        }
    }
}

#[test]
fn assignment_preserves_request_fields_and_order() {
    let out = assign_correlation_ids(vec![
        request("pk1", Some("h1:1"), 10, None),
        request("pk2", None, 20, Some(9)),
    ]);
    assert_eq!(out[0].counterparty_pubkey, "pk1");
    assert_eq!(out[0].counterparty_host_port.as_deref(), Some("h1:1"));
    assert_eq!(out[0].amount_sats, 10);
    assert_eq!(out[1].counterparty_pubkey, "pk2");
    assert_eq!(out[1].amount_sats, 20);
    assert_eq!(out[1].custom_id, Some(9));
}

#[test]
fn empty_filter_set_never_waits() {
    let (_tx, rx) = tokio::sync::broadcast::channel::<ProtocolEvent>(16);
    let correlator = EventCorrelator::new(rx, Vec::new());
    assert!(!correlator.keep_waiting(30000));
    assert!(correlator.all_matched());
}

#[test]
fn matching_event_retires_its_filter() {
    let (tx, rx) = tokio::sync::broadcast::channel::<ProtocolEvent>(16);
    let filters = vec![EventFilter { node_id: "n1".to_string(), user_channel_id: 7 }];
    let mut correlator = EventCorrelator::new(rx, filters);
    tx.send(funding_event("n1", 7, &[2u8; 33], 1000, &[0x51])).unwrap();
    correlator.drain_available(64);
    assert!(correlator.all_matched());
    let matched = correlator.take_matched();
    assert_eq!(matched.len(), 1);
}

#[test]
fn retired_filter_cannot_match_again() {
    let (tx, rx) = tokio::sync::broadcast::channel::<ProtocolEvent>(16);
    let filters = vec![EventFilter { node_id: "n1".to_string(), user_channel_id: 7 }];
    let mut correlator = EventCorrelator::new(rx, filters);
    tx.send(funding_event("n1", 7, &[2u8; 33], 1000, &[0x51])).unwrap();
    tx.send(funding_event("n1", 7, &[2u8; 33], 1000, &[0x51])).unwrap();
    correlator.drain_available(64);
    let matched = correlator.take_matched();
    assert_eq!(matched.len(), 1);
}

#[test]
fn unrelated_events_match_no_filter() {
    let (tx, rx) = tokio::sync::broadcast::channel::<ProtocolEvent>(16);
    let filters = vec![EventFilter { node_id: "n1".to_string(), user_channel_id: 7 }];
    let mut correlator = EventCorrelator::new(rx, filters);
    tx.send(funding_event("other-node", 7, &[2u8; 33], 1000, &[0x51])).unwrap();
    tx.send(funding_event("n1", 8, &[2u8; 33], 1000, &[0x51])).unwrap();
    tx.send(ProtocolEvent::Other).unwrap();
    correlator.drain_available(64);
    assert!(!correlator.all_matched());
    let matched = correlator.take_matched();
    assert_eq!(matched.len(), 0);
}

#[test]
fn timeout_budget_is_tracked() {
    let (_tx, rx) = tokio::sync::broadcast::channel::<ProtocolEvent>(16);
    let filters = vec![EventFilter { node_id: "n1".to_string(), user_channel_id: 7 }];
    let mut correlator = EventCorrelator::new(rx, filters);
    assert!(correlator.keep_waiting(1000));
    correlator.note_poll(500);
    assert!(correlator.keep_waiting(1000));
    correlator.note_poll(500);
    assert!(!correlator.keep_waiting(1000));
}

#[test]
fn funding_outputs_carry_exact_scripts_and_values() {
    let events = vec![
        funding_event("n1", 1, &[2u8; 33], 1000, &[0x51, 0x52]),
        funding_event("n1", 2, &[3u8; 33], 2500, &[0x53]),
    ];
    let outs = funding_outputs(&events);
    assert_eq!(outs.len(), 2);
    assert_eq!(outs[0].output_script, vec![0x51, 0x52]);
    assert_eq!(outs[0].value_sats, 1000);
    assert_eq!(outs[1].output_script, vec![0x53]);
    assert_eq!(outs[1].value_sats, 2500);
}

#[test]
fn empty_match_set_short_circuits_assembly() {
    assert!(!should_assemble(&Vec::new()));
    assert!(should_assemble(&vec![funding_event("n1", 1, &[2u8; 33], 1, &[0x51])]));
}

#[test]
fn connection_plan_requires_address_when_disconnected() {
    let no_addr = request("pk", None, 1, Some(1));
    assert_eq!(connection_plan(&no_addr, false).unwrap_err(), Error::MissingAddress);
    let with_addr = request("pk", Some("host:9735"), 1, Some(1));
    match connection_plan(&with_addr, false).unwrap() {
        ConnectionPlan::Connect(a) => assert_eq!(a, "host:9735"),
        ConnectionPlan::AlreadyConnected => panic!("expected a connect step"),
    }
    match connection_plan(&no_addr, true).unwrap() {
        ConnectionPlan::AlreadyConnected => {}
        ConnectionPlan::Connect(_) => panic!("expected no connect step"),
    }
}

#[test]
fn initiate_params_default_push_to_zero() {
    let r = request("pk", None, 500, Some(3));
    let p = initiate_params(&r);
    assert_eq!(p.counterparty_pubkey, "pk");
    assert_eq!(p.channel_value_sats, 500);
    assert_eq!(p.push_msats, 0);
    assert_eq!(p.correlation_id, 3);

    let mut r2 = request("pk", None, 500, Some(4));
    r2.push_amount_msats = Some(12_000);
    assert_eq!(initiate_params(&r2).push_msats, 12_000);
}

#[test]
fn both_requests_succeed_and_complete() {
    // Batch of two requests to distinct, already-connected peers; both
    // reach funding-ready within the timeout.
    let requests = assign_correlation_ids(vec![
        request("pk1", None, 1000, None),
        request("pk2", None, 2000, None),
    ]);
    let id0 = requests[0].custom_id.unwrap();
    let id1 = requests[1].custom_id.unwrap();

    let mut state = PendingBatchState::new("n1".to_string());
    for (i, r) in requests.into_iter().enumerate() {
        state.record_initiation(r, Ok([i as u8; 32]));
    }
    assert_eq!(state.filters.len(), 2);

    let (tx, rx) = tokio::sync::broadcast::channel::<ProtocolEvent>(16);
    let (mut correlator, entries) = state.start_correlation(rx);
    tx.send(funding_event("n1", id1, &[3u8; 33], 2000, &[0x53])).unwrap();
    tx.send(funding_event("n1", id0, &[2u8; 33], 1000, &[0x52])).unwrap();
    correlator.drain_available(64);
    assert!(correlator.all_matched());
    let events = correlator.take_matched();

    let resolved = resolve_results(entries, &events);
    assert_eq!(resolved.len(), 2);
    assert_eq!(resolved[0].result, Ok([0u8; 32]));
    assert_eq!(resolved[1].result, Ok([1u8; 32]));
    assert_eq!(resolved[0].counterparty.as_deref(), Some(&[2u8; 33][..]));
    assert_eq!(resolved[1].counterparty.as_deref(), Some(&[3u8; 33][..]));

    let outs = funding_outputs(&events);
    assert_eq!(outs.len(), 2);

    assert_eq!(count_pending_completions(&resolved), 2);

    let outcomes = vec![Ok(()), Ok(())];
    let results = finalize_results(resolved, &outcomes);
    assert_eq!(results.len(), 2);
    assert_eq!(results[0].1, Ok([0u8; 32]));
    assert_eq!(results[1].1, Ok([1u8; 32]));
}

#[test]
fn failed_initiation_is_excluded_from_filters_and_kept() {
    // Batch of two: one connects and initiates, one fails address
    // parsing. The failing one is excluded from the filter wait, the
    // transaction has at most one output, and its final result is the
    // format error, unchanged by later stages.
    let requests = assign_correlation_ids(vec![
        request("pk1", Some("good:9735"), 1000, None),
        request("pk2", Some("not an address", ), 2000, None),
    ]);
    let id0 = requests[0].custom_id.unwrap();

    let mut state = PendingBatchState::new("n1".to_string());
    let mut iter = requests.into_iter();
    state.record_initiation(iter.next().unwrap(), Ok([7u8; 32]));
    state.record_initiation(iter.next().unwrap(), Err(Error::InvalidAddress));
    assert_eq!(state.filters.len(), 1);

    let (tx, rx) = tokio::sync::broadcast::channel::<ProtocolEvent>(16);
    let (mut correlator, entries) = state.start_correlation(rx);
    tx.send(funding_event("n1", id0, &[2u8; 33], 1000, &[0x52])).unwrap();
    correlator.drain_available(64);
    assert!(correlator.all_matched());
    let events = correlator.take_matched();
    assert_eq!(events.len(), 1);

    let resolved = resolve_results(entries, &events);
    assert_eq!(resolved[0].result, Ok([7u8; 32]));
    assert_eq!(resolved[1].result, Err(Error::InvalidAddress));
    let outs = funding_outputs(&events);
    assert!(outs.len() <= 1);
    assert_eq!(count_pending_completions(&resolved), 1);

    let outcomes = vec![Ok(())];
    let results = finalize_results(resolved, &outcomes);
    assert_eq!(results[0].1, Ok([7u8; 32]));
    assert_eq!(results[1].1, Err(Error::InvalidAddress));
}

#[test]
fn missing_event_reclassifies_initiated_request() {
    // Initiation succeeds but no funding-ready event arrives before the
    // timeout: the final result is the negotiation failure, not the
    // original success and not an initiation failure.
    let requests = assign_correlation_ids(vec![request("pk1", None, 1000, None)]);

    let mut state = PendingBatchState::new("n1".to_string());
    state.record_initiation(requests.into_iter().next().unwrap(), Ok([9u8; 32]));

    let (_tx, rx) = tokio::sync::broadcast::channel::<ProtocolEvent>(16);
    let (mut correlator, entries) = state.start_correlation(rx);
    correlator.drain_available(64);
    assert!(!correlator.all_matched());
    let events = correlator.take_matched();
    assert!(events.is_empty());

    let resolved = resolve_results(entries, &events);
    assert_eq!(resolved[0].result, Err(Error::FundingGenerationNeverHappened));
    assert_eq!(count_pending_completions(&resolved), 0);
    assert!(!should_assemble(&events));

    let results = finalize_results(resolved, &Vec::new());
    assert_eq!(results.len(), 1);
    assert_eq!(results[0].1, Err(Error::FundingGenerationNeverHappened));
}

#[test]
fn partial_timeout_keeps_matched_and_fails_unmatched() {
    // K of N filters unmatched at timeout: the matched request proceeds
    // to completion, the unmatched one is reported as the negotiation
    // failure.
    let requests = assign_correlation_ids(vec![
        request("pk1", None, 1000, Some(41)),
        request("pk2", None, 2000, Some(42)),
    ]);

    let mut state = PendingBatchState::new("n1".to_string());
    for (i, r) in requests.into_iter().enumerate() {
        state.record_initiation(r, Ok([i as u8; 32]));
    }

    let (tx, rx) = tokio::sync::broadcast::channel::<ProtocolEvent>(16);
    let (mut correlator, entries) = state.start_correlation(rx);
    tx.send(funding_event("n1", 42, &[3u8; 33], 2000, &[0x53])).unwrap();
    correlator.drain_available(64);
    assert!(!correlator.all_matched());
    let events = correlator.take_matched();

    let resolved = resolve_results(entries, &events);
    assert_eq!(resolved[0].result, Err(Error::FundingGenerationNeverHappened));
    assert_eq!(resolved[1].result, Ok([1u8; 32]));
    assert_eq!(count_pending_completions(&resolved), 1);
}

#[test]
fn completion_rejection_fails_only_that_request() {
    let requests = assign_correlation_ids(vec![
        request("pk1", None, 1000, Some(41)),
        request("pk2", None, 2000, Some(42)),
    ]);
    let mut state = PendingBatchState::new("n1".to_string());
    for (i, r) in requests.into_iter().enumerate() {
        state.record_initiation(r, Ok([i as u8; 32]));
    }
    let (tx, rx) = tokio::sync::broadcast::channel::<ProtocolEvent>(16);
    let (mut correlator, entries) = state.start_correlation(rx);
    tx.send(funding_event("n1", 41, &[2u8; 33], 1000, &[0x52])).unwrap();
    tx.send(funding_event("n1", 42, &[3u8; 33], 2000, &[0x53])).unwrap();
    correlator.drain_available(64);
    let events = correlator.take_matched();
    let resolved = resolve_results(entries, &events);

    let outcomes = vec![Ok(()), Err(Error::CompletionRejected)];
    let results = finalize_results(resolved, &outcomes);
    assert_eq!(results[0].1, Ok([0u8; 32]));
    assert_eq!(results[1].1, Err(Error::CompletionRejected));
}

#[test]
fn build_failure_fails_every_pending_request_uniformly() {
    let requests = assign_correlation_ids(vec![
        request("pk1", None, 1000, Some(41)),
        request("pk2", None, 2000, Some(42)),
    ]);
    let mut state = PendingBatchState::new("n1".to_string());
    let mut iter = requests.into_iter();
    state.record_initiation(iter.next().unwrap(), Ok([0u8; 32]));
    state.record_initiation(iter.next().unwrap(), Err(Error::ConnectionFailed));
    let (tx, rx) = tokio::sync::broadcast::channel::<ProtocolEvent>(16);
    let (mut correlator, entries) = state.start_correlation(rx);
    tx.send(funding_event("n1", 41, &[2u8; 33], 1000, &[0x52])).unwrap();
    correlator.drain_available(64);
    let events = correlator.take_matched();
    let resolved = resolve_results(entries, &events);

    let results = fail_pending(resolved);
    assert_eq!(results[0].1, Err(Error::SharedTransactionBuildFailed));
    assert_eq!(results[1].1, Err(Error::ConnectionFailed));
}
