use relay_engine::nonce::NonceAllocator;
use relay_engine::pipeline::{
    choose_fee, event_groups_from_response, mark_check_tx_failures, pending_hashes, poll_step,
    update_tx_sync_events, MismatchIbcEventsCountError, PendingTransaction, PollStep,
    SubmitAction, SubmitEvent, SubmitState, TxResponse, TxStatus, TxSubmission, TxSyncResult,
};
use relay_engine::receive::{ReceiveAction, ReceiveEvent, WriteAcknowledgementEvent};
use relay_engine::retry::{RelayError, RetryOutcome};
use relay_engine::BaseReceivePacketRelayer;
use relay_engine::{ChainErrorInfo, Height, IbcEvent, IbcEventWithHeight, TxRecord};

#[test]
fn late_response_is_a_timeout() {
    assert_eq!(poll_step(1_001, 1_000, 50, Some("response")), PollStep::TimedOut);
    assert_eq!(poll_step(1_000, 1_000, 50, Some("response")), PollStep::Received("response"));
    assert_eq!(poll_step::<&str>(10, 1_000, 50, None), PollStep::Wait(50));
}

#[test]
fn pending_transaction_times_out() {
    let mut tx = PendingTransaction::new(1, vec!["m"], 5, 10, 100, 20);
    tx.mark_submitted("ABC".to_string());
    assert_eq!(tx.on_poll::<u8>(50, None), PollStep::Wait(20));
    assert_eq!(tx.status, TxStatus::Pending);
    assert_eq!(tx.on_poll(150, Some(1u8)), PollStep::TimedOut);
    assert_eq!(tx.status, TxStatus::TimedOut);
    assert_eq!(tx.hash, Some("ABC".to_string()));
}

#[test]
fn fee_falls_back_to_default() {
    assert_eq!(choose_fee::<()>(Ok(1234), 5000), 1234);
    assert_eq!(choose_fee(Err("simulation failed"), 5000), 5000);
}

#[test]
fn nonzero_code_gives_each_message_a_chain_error() {
    let groups = event_groups_from_response(&"H".to_string(), 11, &"out of gas".to_string(), 3, vec![]).unwrap();
    let err = IbcEvent::ChainError(ChainErrorInfo { hash: "H".to_string(), code: 11, log: "out of gas".to_string() });
    assert_eq!(groups, vec![vec![err.clone()], vec![err.clone()], vec![err]]);
}

#[test]
fn parsed_groups_must_match_messages() {
    let parsed = vec![vec![IbcEvent::Other("a".to_string())]];
    let r = event_groups_from_response(&"H".to_string(), 0, &String::new(), 2, parsed.clone());
    assert_eq!(r, Err(MismatchIbcEventsCountError { expected: 2, actual: 1 }));
    let ok = event_groups_from_response(&"H".to_string(), 0, &String::new(), 1, parsed.clone());
    assert_eq!(ok, Ok(parsed));
}

#[test]
fn submission_runs_through_the_pipeline() {
    let mut nonces = NonceAllocator::new();
    let (mut sub, first) = TxSubmission::new(7, 1, 500, 1_000, 100);
    assert_eq!(first, SubmitAction::EstimateFee);
    assert_eq!(sub.step(&mut nonces, SubmitEvent::FeeEstimated(Err(RelayError::Timeout))), SubmitAction::QueryNonce);
    assert_eq!(sub.step(&mut nonces, SubmitEvent::ChainNonce(5)), SubmitAction::Encode(5, 500));
    assert_eq!(sub.step(&mut nonces, SubmitEvent::Encoded(Ok(()))), SubmitAction::Submit);
    assert_eq!(sub.step(&mut nonces, SubmitEvent::Submitted(Ok("HASH".to_string()))), SubmitAction::Poll(100));
    assert_eq!(nonces.local_nonce(7), Some(6));
    assert_eq!(sub.step(&mut nonces, SubmitEvent::Polled(100, None)), SubmitAction::Poll(100));
    let resp = TxResponse { code: 0, log: String::new(), groups: vec![vec![IbcEvent::Other("ack".to_string())]] };
    assert_eq!(
        sub.step(&mut nonces, SubmitEvent::Polled(200, Some(resp))),
        SubmitAction::Complete(vec![vec![IbcEvent::Other("ack".to_string())]])
    );
    assert_eq!(sub.state, SubmitState::Done);
    assert_eq!(sub.step(&mut nonces, SubmitEvent::ChainNonce(1)), SubmitAction::Idle);
}

#[test]
fn two_submissions_for_one_signer_get_nonces_in_turn() {
    let mut nonces = NonceAllocator::new();
    let (mut a, _) = TxSubmission::new(3, 1, 10, 1_000, 100);
    let (mut b, _) = TxSubmission::new(3, 1, 10, 1_000, 100);
    assert_eq!(a.step(&mut nonces, SubmitEvent::FeeEstimated(Ok(20))), SubmitAction::QueryNonce);
    assert_eq!(a.step(&mut nonces, SubmitEvent::ChainNonce(5)), SubmitAction::Encode(5, 20));
    assert_eq!(
        b.step(&mut nonces, SubmitEvent::FeeEstimated(Ok(20))),
        SubmitAction::Fail(RelayError::Nonce(relay_engine::nonce::NonceError::Busy))
    );
    a.step(&mut nonces, SubmitEvent::Encoded(Ok(())));
    a.step(&mut nonces, SubmitEvent::Submitted(Ok("A".to_string())));
    let (mut b, _) = TxSubmission::new(3, 1, 10, 1_000, 100);
    assert_eq!(b.step(&mut nonces, SubmitEvent::FeeEstimated(Ok(20))), SubmitAction::Encode(6, 20));
}

#[test]
fn encode_failure_releases_the_nonce() {
    let mut nonces = NonceAllocator::new();
    let (mut a, _) = TxSubmission::new(3, 1, 10, 1_000, 100);
    a.step(&mut nonces, SubmitEvent::FeeEstimated(Ok(1)));
    a.step(&mut nonces, SubmitEvent::ChainNonce(8));
    assert_eq!(
        a.step(&mut nonces, SubmitEvent::Encoded(Err(RelayError::Submission { retryable: true }))),
        SubmitAction::Fail(RelayError::Submission { retryable: true })
    );
    assert_eq!(nonces.acquire(3, None), Ok(8));
}

#[test]
fn poll_timeout_fails_the_submission() {
    let mut nonces = NonceAllocator::new();
    let (mut a, _) = TxSubmission::new(3, 2, 10, 1_000, 100);
    a.step(&mut nonces, SubmitEvent::FeeEstimated(Ok(1)));
    a.step(&mut nonces, SubmitEvent::ChainNonce(8));
    a.step(&mut nonces, SubmitEvent::Encoded(Ok(())));
    a.step(&mut nonces, SubmitEvent::Submitted(Ok("X".to_string())));
    let late = TxResponse { code: 0, log: String::new(), groups: vec![vec![], vec![]] };
    assert_eq!(a.step(&mut nonces, SubmitEvent::Polled(1_001, Some(late))), SubmitAction::Fail(RelayError::Timeout));
}

fn sync(hash: &str, code: u32, slots: usize, status: TxStatus) -> TxSyncResult {
    TxSyncResult {
        hash: hash.to_string(),
        check_code: code,
        check_log: "check".to_string(),
        events: vec![IbcEventWithHeight::new(IbcEvent::Other("slot".to_string()), Height::new(0, 0)); slots],
        status,
    }
}

#[test]
fn check_failures_fill_every_slot() {
    let mut results = vec![sync("A", 0, 1, TxStatus::Pending), sync("B", 4, 2, TxStatus::Pending)];
    mark_check_tx_failures(&mut results);
    assert_eq!(results[0].events[0].event, IbcEvent::Other("slot".to_string()));
    let err = IbcEventWithHeight::new(
        IbcEvent::ChainError(ChainErrorInfo { hash: "B".to_string(), code: 4, log: "check".to_string() }),
        Height::new(1, 1),
    );
    assert_eq!(results[1].events, vec![err.clone(), err]);
}

#[test]
fn responses_are_matched_by_hash() {
    let mut results = vec![
        sync("A", 0, 1, TxStatus::Pending),
        sync("B", 0, 2, TxStatus::Pending),
        sync("C", 0, 1, TxStatus::ReceivedResponse),
        sync("D", 0, 1, TxStatus::Pending),
    ];
    assert_eq!(pending_hashes(&results), vec!["A".to_string(), "B".to_string(), "D".to_string()]);
    let responses = vec![
        TxRecord { hash: "B".to_string(), height: 9, code: 3, log: "fail".to_string(), events: vec![] },
        TxRecord { hash: "A".to_string(), height: 8, code: 0, log: String::new(), events: vec![IbcEvent::Other("e".to_string())] },
        TxRecord { hash: "C".to_string(), height: 8, code: 0, log: String::new(), events: vec![] },
    ];
    update_tx_sync_events(2, &mut results, &responses);
    assert_eq!(results[0].status, TxStatus::ReceivedResponse);
    assert_eq!(results[0].events, vec![IbcEventWithHeight::new(IbcEvent::Other("e".to_string()), Height::new(2, 8))]);
    let err = IbcEventWithHeight::new(
        IbcEvent::ChainError(ChainErrorInfo { hash: "B".to_string(), code: 3, log: "fail".to_string() }),
        Height::new(2, 9),
    );
    assert_eq!(results[1].events, vec![err.clone(), err]);
    assert_eq!(results[2].events.len(), 1);
    assert_eq!(results[2].events[0].event, IbcEvent::Other("slot".to_string()));
    assert_eq!(results[3].status, TxStatus::Pending);
}

fn recv_packet(seq: u64) -> relay_engine::Packet {
    relay_engine::Packet {
        sequence: seq,
        source_port: "transfer".to_string(),
        source_channel: "channel-0".to_string(),
        destination_port: "transfer".to_string(),
        destination_channel: "channel-1".to_string(),
        data: String::new(),
        timeout_height: Height::new(0, 0),
        timeout_timestamp: 0,
    }
}

#[test]
fn two_receives_for_one_signer_get_nonces_five_and_six() {
    let signer = 77u64;
    let mut nonces = NonceAllocator::new();
    let (mut r10, _) = BaseReceivePacketRelayer::new(recv_packet(10), Height::new(1, 5));
    let (mut r11, _) = BaseReceivePacketRelayer::new(recv_packet(11), Height::new(1, 5));
    r10.relay_receive_packet(ReceiveEvent::ReceivedFlag(false));
    r11.relay_receive_packet(ReceiveEvent::ReceivedFlag(false));
    assert_eq!(r10.relay_receive_packet(ReceiveEvent::MessageBuilt), ReceiveAction::Submit);
    assert_eq!(r11.relay_receive_packet(ReceiveEvent::MessageBuilt), ReceiveAction::Submit);

    let (mut tx10, _) = TxSubmission::new(signer, 1, 10, 1_000, 100);
    let (mut tx11, _) = TxSubmission::new(signer, 1, 10, 1_000, 100);
    tx10.step(&mut nonces, SubmitEvent::FeeEstimated(Ok(10)));
    assert_eq!(tx10.step(&mut nonces, SubmitEvent::ChainNonce(5)), SubmitAction::Encode(5, 10));
    // the second caller finds the guard taken; the failure is retryable
    let busy = tx11.step(&mut nonces, SubmitEvent::FeeEstimated(Ok(10)));
    let err = match busy {
        SubmitAction::Fail(e) => e,
        other => panic!("unexpected {:?}", other),
    };
    assert!(matches!(relay_engine::retry::classify::<()>(Err(err)), RetryOutcome::RetryableFailure(_)));
    tx10.step(&mut nonces, SubmitEvent::Encoded(Ok(())));
    tx10.step(&mut nonces, SubmitEvent::Submitted(Ok("T10".to_string())));
    let (mut tx11, _) = TxSubmission::new(signer, 1, 10, 1_000, 100);
    assert_eq!(tx11.step(&mut nonces, SubmitEvent::FeeEstimated(Ok(10))), SubmitAction::Encode(6, 10));
    tx11.step(&mut nonces, SubmitEvent::Encoded(Ok(())));
    tx11.step(&mut nonces, SubmitEvent::Submitted(Ok("T11".to_string())));

    let ack = |seq: u64| IbcEvent::WriteAcknowledgement(recv_packet(seq), format!("ack-{}", seq));
    let resp11 = TxResponse { code: 0, log: String::new(), groups: vec![vec![ack(11)]] };
    let resp10 = TxResponse { code: 0, log: String::new(), groups: vec![vec![ack(10)]] };
    let done11 = tx11.step(&mut nonces, SubmitEvent::Polled(100, Some(resp11)));
    let done10 = tx10.step(&mut nonces, SubmitEvent::Polled(200, Some(resp10)));
    let groups10 = match done10 {
        SubmitAction::Complete(g) => g,
        other => panic!("unexpected {:?}", other),
    };
    let groups11 = match done11 {
        SubmitAction::Complete(g) => g,
        other => panic!("unexpected {:?}", other),
    };
    assert_eq!(groups10, vec![vec![ack(10)]]);
    assert_eq!(groups11, vec![vec![ack(11)]]);
    assert_eq!(
        r10.relay_receive_packet(ReceiveEvent::Committed(groups10[0].clone())),
        ReceiveAction::Complete(Some(WriteAcknowledgementEvent { packet: recv_packet(10), ack: "ack-10".to_string() }))
    );
    assert_eq!(
        r11.relay_receive_packet(ReceiveEvent::Committed(groups11[0].clone())),
        ReceiveAction::Complete(Some(WriteAcknowledgementEvent { packet: recv_packet(11), ack: "ack-11".to_string() }))
    );
    assert_eq!(nonces.local_nonce(signer), Some(7));
}
