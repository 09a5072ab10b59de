use relay_engine::correlation::{
    all_ibc_events_from_tx_result_batch, block_search_response_from_packet_query,
    filter_matching_event, ibc_packet_event_from_sql_block_query,
    packet_events_from_tx_search_response, query_packets_from_ibc_snapshots,
    query_txs_from_tendermint, retain_unresolved_sequences, tx_result_events,
    update_client_events_from_tx_search_response, BlockPacketRow, QueryClientEventRequest,
    QueryPacketEventDataRequest, QueryTxRequest,
};
use relay_engine::{
    ChainErrorInfo, EventKind, Height, IbcEvent, IbcEventWithHeight, Packet, QueryHeight,
    TxRecord, UpdateClientEvent,
};

fn packet(seq: u64) -> Packet {
    Packet {
        sequence: seq,
        source_port: "transfer".to_string(),
        source_channel: "channel-0".to_string(),
        destination_port: "transfer".to_string(),
        destination_channel: "channel-1".to_string(),
        data: format!("payload-{}", seq),
        timeout_height: Height::new(0, 0),
        timeout_timestamp: 0,
    }
}

fn request(kind: EventKind, seqs: Vec<u64>, height: QueryHeight) -> QueryPacketEventDataRequest {
    QueryPacketEventDataRequest {
        event_id: kind,
        source_port_id: "transfer".to_string(),
        source_channel_id: "channel-0".to_string(),
        destination_port_id: "transfer".to_string(),
        destination_channel_id: "channel-1".to_string(),
        sequences: seqs,
        height,
    }
}

fn tx(hash: &str, height: u64, code: u32, events: Vec<IbcEvent>) -> TxRecord {
    TxRecord { hash: hash.to_string(), height, code, log: "log".to_string(), events }
}

#[test]
fn correlation_returns_only_requested_sequence() {
    let committed = tx(
        "AA",
        10,
        0,
        vec![
            IbcEvent::SendPacket(packet(1)),
            IbcEvent::SendPacket(packet(2)),
            IbcEvent::SendPacket(packet(3)),
        ],
    );
    let req = request(EventKind::SendPacket, vec![2, 4], QueryHeight::Latest);
    let found = packet_events_from_tx_search_response(1, &req, &vec![committed]);
    assert_eq!(
        found,
        vec![IbcEventWithHeight::new(IbcEvent::SendPacket(packet(2)), Height::new(1, 10))]
    );
}

#[test]
fn correlation_skips_transactions_above_query_height() {
    let low = tx("AA", 5, 0, vec![IbcEvent::SendPacket(packet(1))]);
    let high = tx("BB", 9, 0, vec![IbcEvent::SendPacket(packet(2))]);
    let req = request(EventKind::SendPacket, vec![1, 2], QueryHeight::Specific(Height::new(1, 7)));
    let found = packet_events_from_tx_search_response(1, &req, &vec![low, high]);
    assert_eq!(found.len(), 1);
    assert_eq!(found[0].event, IbcEvent::SendPacket(packet(1)));
    assert_eq!(found[0].height, Height::new(1, 5));
}

#[test]
fn filter_requires_matching_type_and_endpoints() {
    let req = request(EventKind::WriteAck, vec![3], QueryHeight::Latest);
    let h = Height::new(2, 4);
    assert_eq!(filter_matching_event(IbcEvent::SendPacket(packet(3)), h, &req), None);
    let ack = IbcEvent::WriteAcknowledgement(packet(3), "ok".to_string());
    assert_eq!(
        filter_matching_event(ack.clone(), h, &req),
        Some(IbcEventWithHeight::new(ack, h))
    );
    let mut other = packet(3);
    other.destination_channel = "channel-9".to_string();
    let wrong = IbcEvent::WriteAcknowledgement(other, "ok".to_string());
    assert_eq!(filter_matching_event(wrong, h, &req), None);
}

#[test]
fn failed_transaction_yields_one_chain_error() {
    let failed = tx("CC", 12, 5, vec![IbcEvent::SendPacket(packet(1))]);
    let evs = tx_result_events(3, &failed);
    assert_eq!(
        evs,
        vec![IbcEventWithHeight::new(
            IbcEvent::ChainError(ChainErrorInfo {
                hash: "CC".to_string(),
                code: 5,
                log: "log".to_string()
            }),
            Height::new(3, 12)
        )]
    );
}

#[test]
fn batch_events_keep_transaction_order() {
    let ok = tx("AA", 4, 0, vec![IbcEvent::SendPacket(packet(1)), IbcEvent::Other("x".to_string())]);
    let bad = tx("BB", 5, 1, vec![]);
    let groups = all_ibc_events_from_tx_result_batch(1, &vec![ok, bad]);
    assert_eq!(groups.len(), 2);
    assert_eq!(groups[0].len(), 2);
    assert_eq!(groups[0][1].event, IbcEvent::Other("x".to_string()));
    assert!(matches!(groups[1][0].event, IbcEvent::ChainError(_)));
}

fn client_request(query_height: QueryHeight) -> QueryClientEventRequest {
    QueryClientEventRequest {
        query_height,
        event_id: EventKind::UpdateClient,
        client_id: "07-tendermint-0".to_string(),
        consensus_height: Height::new(1, 50),
    }
}

fn update(client: &str, h: u64) -> IbcEvent {
    IbcEvent::UpdateClient(UpdateClientEvent {
        client_id: client.to_string(),
        consensus_height: Height::new(1, h),
    })
}

#[test]
fn client_update_picks_requested_client() {
    let t = tx(
        "DD",
        20,
        0,
        vec![update("07-tendermint-1", 50), update("07-tendermint-0", 49), update("07-tendermint-0", 50)],
    );
    let found = update_client_events_from_tx_search_response(1, &client_request(QueryHeight::Latest), &t);
    assert_eq!(found, Some(IbcEventWithHeight::new(update("07-tendermint-0", 50), Height::new(1, 20))));
    let too_high = client_request(QueryHeight::Specific(Height::new(1, 19)));
    assert_eq!(update_client_events_from_tx_search_response(1, &too_high, &t), None);
}

#[test]
fn transaction_queries_by_kind() {
    let t = tx("EE", 8, 0, vec![update("07-tendermint-0", 50)]);
    let by_client = QueryTxRequest::Client(client_request(QueryHeight::Latest));
    assert_eq!(query_txs_from_tendermint(1, &by_client, &vec![t.clone()]).len(), 1);
    let by_hash = QueryTxRequest::Transaction("EE".to_string());
    assert_eq!(query_txs_from_tendermint(1, &by_hash, &vec![t]).len(), 1);
    assert!(query_txs_from_tendermint(1, &by_hash, &vec![]).is_empty());
}

#[test]
fn resolved_sequences_are_dropped_from_request() {
    let mut req = request(EventKind::SendPacket, vec![1, 2, 3, 4], QueryHeight::Latest);
    let found = vec![
        IbcEventWithHeight::new(IbcEvent::SendPacket(packet(2)), Height::new(1, 1)),
        IbcEventWithHeight::new(IbcEvent::SendPacket(packet(4)), Height::new(1, 1)),
    ];
    retain_unresolved_sequences(&mut req, &found);
    assert_eq!(req.sequences, vec![1, 3]);
}

fn row(block: u64, kind: &str, seq: u64) -> BlockPacketRow {
    BlockPacketRow { block_id: block, event_type: kind.to_string(), packet: packet(seq), ack: "ack".to_string() }
}

#[test]
fn block_rows_map_to_events_by_type() {
    assert_eq!(
        ibc_packet_event_from_sql_block_query(1, &row(7, "send_packet", 1)),
        Some(IbcEventWithHeight::new(IbcEvent::SendPacket(packet(1)), Height::new(1, 7)))
    );
    assert_eq!(
        ibc_packet_event_from_sql_block_query(1, &row(7, "write_acknowledgement", 1)),
        Some(IbcEventWithHeight::new(
            IbcEvent::WriteAcknowledgement(packet(1), "ack".to_string()),
            Height::new(1, 7)
        ))
    );
    assert_eq!(ibc_packet_event_from_sql_block_query(1, &row(7, "recv_packet", 1)), None);
}

#[test]
fn block_rows_above_query_height_are_dropped() {
    let req = request(EventKind::SendPacket, vec![1, 2], QueryHeight::Specific(Height::new(1, 8)));
    let rows = vec![row(7, "send_packet", 1), row(9, "send_packet", 2), row(8, "other", 3)];
    let evs = block_search_response_from_packet_query(1, &req, &rows);
    assert_eq!(evs, vec![IbcEventWithHeight::new(IbcEvent::SendPacket(packet(1)), Height::new(1, 7))]);
}

#[test]
fn snapshots_answer_only_sent_packet_requests() {
    let req = request(EventKind::SendPacket, vec![1, 3], QueryHeight::Latest);
    let mut elsewhere = packet(3);
    elsewhere.source_channel = "channel-5".to_string();
    let evs = query_packets_from_ibc_snapshots(&req, Height::new(1, 30), &vec![packet(1), packet(2), elsewhere])
        .unwrap();
    assert_eq!(evs, vec![IbcEventWithHeight::new(IbcEvent::SendPacket(packet(1)), Height::new(1, 30))]);
    let acks = request(EventKind::WriteAck, vec![1], QueryHeight::Latest);
    assert!(query_packets_from_ibc_snapshots(&acks, Height::new(1, 30), &vec![packet(1)]).is_none());
}
