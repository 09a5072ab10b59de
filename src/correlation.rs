//! Matching committed transaction results back to the events a caller asked
//! for: packet events by endpoints and sequence, client updates by client and
//! consensus height, and all events of a transaction by hash.
use crate::types::{
    ChainErrorInfo, EventKind, Height, IbcEvent, IbcEventWithHeight, Packet, QueryHeight,
    TxRecord,
};
use vstd::prelude::*;

verus! {

/// A request for the packet events of one channel end for some sequences.
pub struct QueryPacketEventDataRequest {
    pub event_id: EventKind,
    pub source_port_id: String,
    pub source_channel_id: String,
    pub destination_port_id: String,
    pub destination_channel_id: String,
    pub sequences: Vec<u64>,
    pub height: QueryHeight,
}

/// A request for the event that updated a client to a consensus height.
pub struct QueryClientEventRequest {
    pub query_height: QueryHeight,
    pub event_id: EventKind,
    pub client_id: String,
    pub consensus_height: Height,
}

pub open spec fn packet_matches(req: QueryPacketEventDataRequest, p: Packet) -> bool {
    &&& p.source_port@ == req.source_port_id@
    &&& p.source_channel@ == req.source_channel_id@
    &&& p.destination_port@ == req.destination_port_id@
    &&& p.destination_channel@ == req.destination_channel_id@
    &&& req.sequences@.contains(p.sequence)
}

/// An event answers a packet request when it has the requested type and its
/// packet has the requested endpoints and one of the requested sequences.
pub open spec fn event_matches(req: QueryPacketEventDataRequest, e: IbcEvent) -> bool {
    match e {
        IbcEvent::SendPacket(p) => req.event_id == EventKind::SendPacket && packet_matches(req, p),
        IbcEvent::WriteAcknowledgement(p, _) => req.event_id == EventKind::WriteAck
            && packet_matches(req, p),
        _ => false,
    }
}

pub open spec fn at_height(e: IbcEvent, h: Height) -> IbcEventWithHeight {
    IbcEventWithHeight { event: e, height: h }
}

/// The height of a transaction's block on a chain of the given revision.
pub open spec fn tx_height(revision: u64, tx: TxRecord) -> Height {
    Height { revision_number: revision, revision_height: tx.height }
}

/// The events of `evs` that answer `req`, in their order, placed at `h`.
pub open spec fn matching_events(
    req: QueryPacketEventDataRequest,
    h: Height,
    evs: Seq<IbcEvent>,
) -> Seq<IbcEventWithHeight>
    decreases evs.len(),
{
    if evs.len() == 0 {
        Seq::empty()
    } else {
        let prev = matching_events(req, h, evs.drop_last());
        if event_matches(req, evs.last()) {
            prev.push(at_height(evs.last(), h))
        } else {
            prev
        }
    }
}

/// The packet events of a list of transactions that answer `req`: those of
/// each transaction visible at the request's height, in transaction order.
pub open spec fn packet_events(
    revision: u64,
    req: QueryPacketEventDataRequest,
    txs: Seq<TxRecord>,
) -> Seq<IbcEventWithHeight>
    decreases txs.len(),
{
    if txs.len() == 0 {
        Seq::empty()
    } else {
        let prev = packet_events(revision, req, txs.drop_last());
        let tx = txs.last();
        let h = tx_height(revision, tx);
        if req.height.admits(h) {
            prev + matching_events(req, h, tx.events@)
        } else {
            prev
        }
    }
}

pub open spec fn chain_error_of(tx: TxRecord) -> IbcEvent {
    IbcEvent::ChainError(ChainErrorInfo { hash: tx.hash, code: tx.code, log: tx.log })
}

/// The events a transaction produced: one chain-error event if its result
/// code is non-zero, else each of its events, all at the transaction's height.
pub open spec fn tx_events(revision: u64, tx: TxRecord) -> Seq<IbcEventWithHeight> {
    let h = tx_height(revision, tx);
    if tx.code != 0 {
        seq![at_height(chain_error_of(tx), h)]
    } else {
        tx.events@.map_values(|e: IbcEvent| at_height(e, h))
    }
}

pub open spec fn update_matches(req: QueryClientEventRequest, e: IbcEvent) -> bool {
    match e {
        IbcEvent::UpdateClient(u) => req.event_id == EventKind::UpdateClient && u.client_id@
            == req.client_id@ && u.consensus_height == req.consensus_height,
        _ => false,
    }
}

pub fn contains_sequence(sequences: &Vec<u64>, sequence: u64) -> (r: bool)
    ensures
        r == sequences@.contains(sequence),
{
    let mut i: usize = 0;
    while i < sequences.len()
        invariant
            i <= sequences.len(),
            forall|j: int| 0 <= j < i ==> sequences@[j] != sequence,
        decreases sequences.len() - i,
    {
        if sequences[i] == sequence {
            return true;
        }
        i = i + 1;
    }
    false
}

fn packet_matches_request(req: &QueryPacketEventDataRequest, p: &Packet) -> (r: bool)
    ensures
        r == packet_matches(*req, *p),
{
    p.source_port == req.source_port_id && p.source_channel == req.source_channel_id
        && p.destination_port == req.destination_port_id && p.destination_channel
        == req.destination_channel_id && contains_sequence(&req.sequences, p.sequence)
}

/// Keeps `event`, placed at `height`, exactly when it answers `request`.
pub fn filter_matching_event(
    event: IbcEvent,
    height: Height,
    request: &QueryPacketEventDataRequest,
) -> (r: Option<IbcEventWithHeight>)
    ensures
        r == (if event_matches(*request, event) {
            Some(at_height(event, height))
        } else {
            None
        }),
{
    let is_match = match &event {
        IbcEvent::SendPacket(p) => request.event_id == EventKind::SendPacket
            && packet_matches_request(request, p),
        IbcEvent::WriteAcknowledgement(p, _) => request.event_id == EventKind::WriteAck
            && packet_matches_request(request, p),
        _ => false,
    };
    if is_match {
        Some(IbcEventWithHeight::new(event, height))
    } else {
        None
    }
}

/// Every event of a successful transaction, placed at `height`.
pub fn all_ibc_events_from_tx_search_response(height: Height, tx: &TxRecord) -> (r: Vec<
    IbcEventWithHeight,
>)
    ensures
        r@ == tx.events@.map_values(|e: IbcEvent| at_height(e, height)),
{
    let mut out: Vec<IbcEventWithHeight> = Vec::new();
    let mut i: usize = 0;
    while i < tx.events.len()
        invariant
            i <= tx.events.len(),
            out@ == tx.events@.subrange(0, i as int).map_values(
                |e: IbcEvent| at_height(e, height),
            ),
        decreases tx.events.len() - i,
    {
        out.push(IbcEventWithHeight::new(tx.events[i].duplicate(), height));
        i = i + 1;
        assert(tx.events@.subrange(0, i as int).map_values(|e: IbcEvent| at_height(e, height))
            =~= out@);
    }
    assert(tx.events@.subrange(0, i as int) =~= tx.events@);
    out
}

/// The events of one transaction read back by hash: a single chain-error
/// event when the transaction failed on chain, else all of its events.
pub fn tx_result_events(revision: u64, tx: &TxRecord) -> (r: Vec<IbcEventWithHeight>)
    ensures
        r@ == tx_events(revision, *tx),
{
    let height = Height::new(revision, tx.height);
    if tx.code != 0 {
        let info = ChainErrorInfo { hash: tx.hash.clone(), code: tx.code, log: tx.log.clone() };
        let mut out: Vec<IbcEventWithHeight> = Vec::new();
        out.push(IbcEventWithHeight::new(IbcEvent::ChainError(info), height));
        assert(out@ =~= tx_events(revision, *tx));
        out
    } else {
        all_ibc_events_from_tx_search_response(height, tx)
    }
}

/// The events of each transaction of a batch, one list per transaction in
/// the batch's order.
pub fn all_ibc_events_from_tx_result_batch(revision: u64, responses: &Vec<TxRecord>) -> (r: Vec<
    Vec<IbcEventWithHeight>,
>)
    ensures
        r@.len() == responses@.len(),
        forall|i: int| 0 <= i < r@.len() ==> #[trigger] r@[i]@ == tx_events(revision, responses@[i]),
{
    let mut out: Vec<Vec<IbcEventWithHeight>> = Vec::new();
    let mut i: usize = 0;
    while i < responses.len()
        invariant
            i <= responses.len(),
            out@.len() == i,
            forall|j: int| 0 <= j < i ==> #[trigger] out@[j]@ == tx_events(revision, responses@[j]),
        decreases responses.len() - i,
    {
        out.push(tx_result_events(revision, &responses[i]));
        i = i + 1;
    }
    out
}

/// The packet events of the transactions `responses` that answer `request`,
/// skipping transactions above the request's height.
pub fn packet_events_from_tx_search_response(
    revision: u64,
    request: &QueryPacketEventDataRequest,
    responses: &Vec<TxRecord>,
) -> (r: Vec<IbcEventWithHeight>)
    ensures
        r@ == packet_events(revision, *request, responses@),
{
    let mut out: Vec<IbcEventWithHeight> = Vec::new();
    let mut i: usize = 0;
    while i < responses.len()
        invariant
            i <= responses.len(),
            out@ == packet_events(revision, *request, responses@.subrange(0, i as int)),
        decreases responses.len() - i,
    {
        let tx = &responses[i];
        let height = Height::new(revision, tx.height);
        assert(responses@.subrange(0, i + 1).drop_last() =~= responses@.subrange(0, i as int));
        if request.height.admits_height(&height) {
            let ghost before = out@;
            let mut k: usize = 0;
            while k < tx.events.len()
                invariant
                    i < responses.len(),
                    tx == responses@[i as int],
                    height == tx_height(revision, *tx),
                    k <= tx.events.len(),
                    out@ == before + matching_events(
                        *request,
                        height,
                        tx.events@.subrange(0, k as int),
                    ),
                decreases tx.events.len() - k,
            {
                assert(tx.events@.subrange(0, k + 1).drop_last() =~= tx.events@.subrange(
                    0,
                    k as int,
                ));
                match filter_matching_event(tx.events[k].duplicate(), height, request) {
                    Some(ev) => {
                        out.push(ev);
                        assert(out@ =~= before + matching_events(
                            *request,
                            height,
                            tx.events@.subrange(0, k + 1),
                        ));
                    },
                    None => {},
                }
                k = k + 1;
            }
            assert(tx.events@.subrange(0, k as int) =~= tx.events@);
        }
        i = i + 1;
    }
    assert(responses@.subrange(0, i as int) =~= responses@);
    out
}

proof fn lemma_matching_events_match(
    req: QueryPacketEventDataRequest,
    h: Height,
    evs: Seq<IbcEvent>,
)
    ensures
        forall|i: int|
            0 <= i < matching_events(req, h, evs).len() ==> event_matches(
                req,
                #[trigger] matching_events(req, h, evs)[i].event,
            ) && matching_events(req, h, evs)[i].height == h,
    decreases evs.len(),
{
    if evs.len() > 0 {
        lemma_matching_events_match(req, h, evs.drop_last());
    }
}

/// Correlation returns only what was asked for: every event it finds for a
/// packet request has the requested type, endpoints and one of the requested
/// sequences, and lies in a block visible at the request's height.
pub proof fn lemma_packet_events_answer_request(
    revision: u64,
    req: QueryPacketEventDataRequest,
    txs: Seq<TxRecord>,
)
    ensures
        forall|i: int|
            0 <= i < packet_events(revision, req, txs).len() ==> {
                let e = #[trigger] packet_events(revision, req, txs)[i];
                event_matches(req, e.event) && req.height.admits(e.height)
            },
    decreases txs.len(),
{
    if txs.len() > 0 {
        let prev = packet_events(revision, req, txs.drop_last());
        let tx = txs.last();
        let h = tx_height(revision, tx);
        lemma_packet_events_answer_request(revision, req, txs.drop_last());
        lemma_matching_events_match(req, h, tx.events@);
        if req.height.admits(h) {
            let all = prev + matching_events(req, h, tx.events@);
            assert forall|i: int| 0 <= i < all.len() implies {
                let e = #[trigger] all[i];
                event_matches(req, e.event) && req.height.admits(e.height)
            } by {
                if i >= prev.len() {
                    assert(all[i] == matching_events(req, h, tx.events@)[i - prev.len()]);
                }
            }
        }
    }
}

/// The first event of `evs` that records the requested client update.
pub open spec fn first_update(req: QueryClientEventRequest, evs: Seq<IbcEvent>) -> Option<IbcEvent>
    decreases evs.len(),
{
    if evs.len() == 0 {
        None
    } else if update_matches(req, evs[0]) {
        Some(evs[0])
    } else {
        first_update(req, evs.drop_first())
    }
}

/// The update of the requested client to the requested consensus height
/// that a transaction holds, if the transaction is visible at the query
/// height; a transaction may update other clients too.
pub open spec fn client_update(
    revision: u64,
    req: QueryClientEventRequest,
    tx: TxRecord,
) -> Option<IbcEventWithHeight> {
    let h = tx_height(revision, tx);
    if !req.query_height.admits(h) {
        None
    } else {
        match first_update(req, tx.events@) {
            Some(e) => Some(at_height(e, h)),
            None => None,
        }
    }
}

pub fn update_client_events_from_tx_search_response(
    revision: u64,
    request: &QueryClientEventRequest,
    response: &TxRecord,
) -> (r: Option<IbcEventWithHeight>)
    ensures
        r == client_update(revision, *request, *response),
{
    let height = Height::new(revision, response.height);
    if !request.query_height.admits_height(&height) {
        return None;
    }
    let ghost evs = response.events@;
    assert(evs.subrange(0, evs.len() as int) =~= evs);
    let mut i: usize = 0;
    while i < response.events.len()
        invariant
            i <= response.events.len(),
            evs == response.events@,
            height == tx_height(revision, *response),
            request.query_height.admits(height),
            first_update(*request, evs) == first_update(
                *request,
                evs.subrange(i as int, evs.len() as int),
            ),
        decreases response.events.len() - i,
    {
        assert(evs.subrange(i as int, evs.len() as int).drop_first() =~= evs.subrange(
            i + 1,
            evs.len() as int,
        ));
        let is_match = match &response.events[i] {
            IbcEvent::UpdateClient(u) => request.event_id == EventKind::UpdateClient
                && u.client_id == request.client_id && u.consensus_height
                == request.consensus_height,
            _ => false,
        };
        if is_match {
            return Some(IbcEventWithHeight::new(response.events[i].duplicate(), height));
        }
        i = i + 1;
    }
    None
}

/// The sequence of the packet an event carries, if it carries one.
pub open spec fn packet_sequence_of(e: IbcEvent) -> Option<u64> {
    match e {
        IbcEvent::SendPacket(p) => Some(p.sequence),
        IbcEvent::WriteAcknowledgement(p, _) => Some(p.sequence),
        _ => None,
    }
}

/// Whether some event of `evs` carries a packet with sequence `s`.
pub open spec fn sequence_found(evs: Seq<IbcEventWithHeight>, s: u64) -> bool {
    exists|i: int| 0 <= i < evs.len() && packet_sequence_of(#[trigger] evs[i].event) == Some(s)
}

fn is_sequence_found(found: &Vec<IbcEventWithHeight>, s: u64) -> (r: bool)
    ensures
        r == sequence_found(found@, s),
{
    let mut i: usize = 0;
    while i < found.len()
        invariant
            i <= found.len(),
            forall|j: int|
                0 <= j < i ==> packet_sequence_of(#[trigger] found@[j].event) != Some(s),
        decreases found.len() - i,
    {
        let seq_here = match &found[i].event {
            IbcEvent::SendPacket(p) => Some(p.sequence),
            IbcEvent::WriteAcknowledgement(p, _) => Some(p.sequence),
            _ => None,
        };
        if seq_here == Some(s) {
            assert(packet_sequence_of(found@[i as int].event) == Some(s));
            return true;
        }
        i = i + 1;
    }
    false
}

/// Drops from the request the sequences for which `found` already holds an
/// event, keeping the order of the others; the rest of the request is kept.
pub fn retain_unresolved_sequences(
    request: &mut QueryPacketEventDataRequest,
    found: &Vec<IbcEventWithHeight>,
)
    ensures
        final(request).sequences@ == old(request).sequences@.filter(
            |s: u64| !sequence_found(found@, s),
        ),
        final(request).event_id == old(request).event_id,
        final(request).source_port_id == old(request).source_port_id,
        final(request).source_channel_id == old(request).source_channel_id,
        final(request).destination_port_id == old(request).destination_port_id,
        final(request).destination_channel_id == old(request).destination_channel_id,
        final(request).height == old(request).height,
{
    let ghost orig = request.sequences@;
    let mut kept: Vec<u64> = Vec::new();
    let mut i: usize = 0;
    while i < request.sequences.len()
        invariant
            i <= request.sequences.len(),
            request.sequences@ == orig,
            kept@ == orig.subrange(0, i as int).filter(|s: u64| !sequence_found(found@, s)),
        decreases request.sequences.len() - i,
    {
        let s = request.sequences[i];
        assert(orig.subrange(0, i + 1).drop_last() =~= orig.subrange(0, i as int));
        reveal(Seq::filter);
        if !is_sequence_found(found, s) {
            kept.push(s);
        }
        i = i + 1;
    }
    assert(orig.subrange(0, i as int) =~= orig);
    request.sequences = kept;
}

/// The events of a list that are visible at a query height, in order.
pub open spec fn visible_events(q: QueryHeight, evs: Seq<IbcEventWithHeight>) -> Seq<
    IbcEventWithHeight,
> {
    evs.filter(|e: IbcEventWithHeight| q.admits(e.height))
}

/// A packet event row of a block-event index, with its fields decoded.
pub struct BlockPacketRow {
    pub block_id: u64,
    pub event_type: String,
    pub packet: Packet,
    pub ack: String,
}

/// The event a block-event row stands for: a sent packet for type
/// `send_packet`, a written acknowledgement for `write_acknowledgement`, and
/// none for another type; it is placed at the row's block.
pub open spec fn block_row_event(revision: u64, row: BlockPacketRow) -> Option<IbcEventWithHeight> {
    let h = Height { revision_number: revision, revision_height: row.block_id };
    if row.event_type@ == "send_packet"@ {
        Some(at_height(IbcEvent::SendPacket(row.packet), h))
    } else if row.event_type@ == "write_acknowledgement"@ {
        Some(at_height(IbcEvent::WriteAcknowledgement(row.packet, row.ack), h))
    } else {
        None
    }
}

pub fn ibc_packet_event_from_sql_block_query(revision: u64, row: &BlockPacketRow) -> (r: Option<
    IbcEventWithHeight,
>)
    ensures
        r == block_row_event(revision, *row),
{
    let height = Height::new(revision, row.block_id);
    if row.event_type == "send_packet".to_owned() {
        Some(IbcEventWithHeight::new(IbcEvent::SendPacket(row.packet.duplicate()), height))
    } else if row.event_type == "write_acknowledgement".to_owned() {
        Some(
            IbcEventWithHeight::new(
                IbcEvent::WriteAcknowledgement(row.packet.duplicate(), row.ack.clone()),
                height,
            ),
        )
    } else {
        None
    }
}

/// The events of the rows, in row order, that are visible at the request's
/// height; rows of another type are skipped.
pub open spec fn block_events(
    revision: u64,
    q: QueryHeight,
    rows: Seq<BlockPacketRow>,
) -> Seq<IbcEventWithHeight>
    decreases rows.len(),
{
    if rows.len() == 0 {
        Seq::empty()
    } else {
        let prev = block_events(revision, q, rows.drop_last());
        match block_row_event(revision, rows.last()) {
            Some(e) => if q.admits(e.height) {
                prev.push(e)
            } else {
                prev
            },
            None => prev,
        }
    }
}

pub fn block_search_response_from_packet_query(
    revision: u64,
    request: &QueryPacketEventDataRequest,
    rows: &Vec<BlockPacketRow>,
) -> (r: Vec<IbcEventWithHeight>)
    ensures
        r@ == block_events(revision, request.height, rows@),
{
    let mut out: Vec<IbcEventWithHeight> = Vec::new();
    let mut i: usize = 0;
    while i < rows.len()
        invariant
            i <= rows.len(),
            out@ == block_events(revision, request.height, rows@.subrange(0, i as int)),
        decreases rows.len() - i,
    {
        assert(rows@.subrange(0, i + 1).drop_last() =~= rows@.subrange(0, i as int));
        match ibc_packet_event_from_sql_block_query(revision, &rows[i]) {
            Some(e) => {
                if request.height.admits_height(&e.height) {
                    out.push(e);
                }
            },
            None => {},
        }
        i = i + 1;
    }
    assert(rows@.subrange(0, i as int) =~= rows@);
    out
}

/// A sent packet of a snapshot answers a request when it leaves the
/// requested port and channel with one of the requested sequences.
pub open spec fn snapshot_packet_matches(req: QueryPacketEventDataRequest, p: Packet) -> bool {
    &&& p.source_port@ == req.source_port_id@
    &&& p.source_channel@ == req.source_channel_id@
    &&& req.sequences@.contains(p.sequence)
}

pub open spec fn snapshot_events(
    req: QueryPacketEventDataRequest,
    h: Height,
    packets: Seq<Packet>,
) -> Seq<IbcEventWithHeight>
    decreases packets.len(),
{
    if packets.len() == 0 {
        Seq::empty()
    } else {
        let prev = snapshot_events(req, h, packets.drop_last());
        if snapshot_packet_matches(req, packets.last()) {
            prev.push(at_height(IbcEvent::SendPacket(packets.last()), h))
        } else {
            prev
        }
    }
}

/// Answers a packet request from a snapshot of the packets sent up to
/// `height`. Only sent-packet requests can be answered that way: for any
/// other the result is `None` and the request goes to the chain instead.
pub fn query_packets_from_ibc_snapshots(
    request: &QueryPacketEventDataRequest,
    height: Height,
    packets: &Vec<Packet>,
) -> (r: Option<Vec<IbcEventWithHeight>>)
    ensures
        request.event_id != EventKind::SendPacket ==> r is None,
        request.event_id == EventKind::SendPacket ==> r is Some && r->0@ == snapshot_events(
            *request,
            height,
            packets@,
        ),
{
    if request.event_id != EventKind::SendPacket {
        return None;
    }
    let mut out: Vec<IbcEventWithHeight> = Vec::new();
    let mut i: usize = 0;
    while i < packets.len()
        invariant
            i <= packets.len(),
            out@ == snapshot_events(*request, height, packets@.subrange(0, i as int)),
        decreases packets.len() - i,
    {
        assert(packets@.subrange(0, i + 1).drop_last() =~= packets@.subrange(0, i as int));
        let p = &packets[i];
        if p.source_port == request.source_port_id && p.source_channel == request.source_channel_id
            && contains_sequence(&request.sequences, p.sequence) {
            out.push(IbcEventWithHeight::new(IbcEvent::SendPacket(p.duplicate()), height));
        }
        i = i + 1;
    }
    assert(packets@.subrange(0, i as int) =~= packets@);
    Some(out)
}

/// A transaction query: the update of a client, or a transaction by hash.
pub enum QueryTxRequest {
    Client(QueryClientEventRequest),
    Transaction(String),
}

/// The events answering a transaction query, given the transactions the
/// index returned for it (at most one).
pub fn query_txs_from_tendermint(
    revision: u64,
    search: &QueryTxRequest,
    txs: &Vec<TxRecord>,
) -> (r: Vec<IbcEventWithHeight>)
    requires
        txs@.len() <= 1,
    ensures
        txs@.len() == 0 ==> r@.len() == 0,
        txs@.len() == 1 ==> match search {
            QueryTxRequest::Client(req) => match client_update(revision, *req, txs@[0]) {
                Some(e) => r@ == seq![e],
                None => r@.len() == 0,
            },
            QueryTxRequest::Transaction(_) => r@ == tx_events(revision, txs@[0]),
        },
{
    if txs.len() == 0 {
        return Vec::new();
    }
    match search {
        QueryTxRequest::Client(req) => {
            let mut out: Vec<IbcEventWithHeight> = Vec::new();
            match update_client_events_from_tx_search_response(revision, req, &txs[0]) {
                Some(ev) => {
                    out.push(ev);
                    assert(out@ =~= seq![ev]);
                },
                None => {},
            }
            out
        },
        QueryTxRequest::Transaction(_) => tx_result_events(revision, &txs[0]),
    }
}

} // verus!
