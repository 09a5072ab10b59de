//! The transaction pipeline of one signer, apart from its I/O: the fee to
//! submit with, the life cycle of a submitted transaction, the decision taken
//! at each poll for its response, and the mapping of a response to one group
//! of events per message.
use crate::correlation::tx_events;
use crate::nonce::{NonceAllocator, NonceError};
use crate::retry::RelayError;
use crate::types::{ChainErrorInfo, Height, IbcEvent, IbcEventWithHeight, TxRecord};
use vstd::prelude::*;

verus! {

/// The batching invariant was broken: a transaction of `expected` messages
/// came back with `actual` groups of events.
#[derive(Clone, Copy, Debug, PartialEq, Eq, Structural)]
pub struct MismatchIbcEventsCountError {
    pub expected: usize,
    pub actual: usize,
}

/// Where a submitted transaction stands.
#[derive(Clone, Copy, Debug, PartialEq, Eq, Structural)]
pub enum TxStatus {
    Pending,
    ReceivedResponse,
    TimedOut,
}

/// The fee to submit with: the simulated estimate, or the configured default
/// when simulation failed.
pub fn choose_fee<E>(estimate: Result<u64, E>, default_fee: u64) -> (r: u64)
    ensures
        r == match estimate {
            Ok(f) => f,
            Err(_) => default_fee,
        },
{
    match estimate {
        Ok(f) => f,
        Err(_) => default_fee,
    }
}

/// What to do after one look for a transaction's response.
#[derive(Debug, PartialEq, Eq)]
pub enum PollStep<R> {
    /// The response arrived within the deadline.
    Received(R),
    /// Nothing yet: look again after this many milliseconds.
    Wait(u64),
    /// The deadline has passed: the transaction may still land.
    TimedOut,
}

/// The decision after looking for a response `elapsed_ms` after submission.
/// A response seen after the deadline is not taken: the outcome is then a
/// time-out, whatever was seen.
pub fn poll_step<R>(elapsed_ms: u64, timeout_ms: u64, backoff_ms: u64, response: Option<R>) -> (r:
    PollStep<R>)
    ensures
        elapsed_ms > timeout_ms ==> r is TimedOut,
        elapsed_ms <= timeout_ms ==> match response {
            Some(x) => r == PollStep::Received(x),
            None => r == PollStep::<R>::Wait(backoff_ms),
        },
{
    if elapsed_ms > timeout_ms {
        PollStep::TimedOut
    } else {
        match response {
            Some(x) => PollStep::Received(x),
            None => PollStep::Wait(backoff_ms),
        }
    }
}

/// A transaction built for one signer: its messages, nonce and fee, the hash
/// once submitted, and its status.
pub struct PendingTransaction<M> {
    pub signer: u64,
    pub messages: Vec<M>,
    pub nonce: u64,
    pub fee: u64,
    pub hash: Option<String>,
    pub status: TxStatus,
    pub timeout_ms: u64,
    pub backoff_ms: u64,
}

impl<M> PendingTransaction<M> {
    pub fn new(
        signer: u64,
        messages: Vec<M>,
        nonce: u64,
        fee: u64,
        timeout_ms: u64,
        backoff_ms: u64,
    ) -> (r: Self)
        ensures
            r.signer == signer,
            r.messages == messages,
            r.nonce == nonce,
            r.fee == fee,
            r.hash is None,
            r.status == TxStatus::Pending,
            r.timeout_ms == timeout_ms,
            r.backoff_ms == backoff_ms,
    {
        PendingTransaction {
            signer,
            messages,
            nonce,
            fee,
            hash: None,
            status: TxStatus::Pending,
            timeout_ms,
            backoff_ms,
        }
    }

    /// Records the hash under which the transaction was broadcast.
    pub fn mark_submitted(&mut self, hash: String)
        ensures
            final(self).hash == Some(hash),
            final(self).status == old(self).status,
            final(self).signer == old(self).signer,
            final(self).messages == old(self).messages,
            final(self).nonce == old(self).nonce,
            final(self).fee == old(self).fee,
            final(self).timeout_ms == old(self).timeout_ms,
            final(self).backoff_ms == old(self).backoff_ms,
    {
        self.hash = Some(hash);
    }

    /// Takes the result of one look for the response of a pending
    /// transaction and moves it to its next status.
    pub fn on_poll<R>(&mut self, elapsed_ms: u64, response: Option<R>) -> (r: PollStep<R>)
        requires
            old(self).status == TxStatus::Pending,
        ensures
            elapsed_ms > old(self).timeout_ms ==> r is TimedOut && final(self).status
                == TxStatus::TimedOut,
            elapsed_ms <= old(self).timeout_ms ==> match response {
                Some(x) => r == PollStep::Received(x) && final(self).status
                    == TxStatus::ReceivedResponse,
                None => r == PollStep::<R>::Wait(old(self).backoff_ms) && final(self).status
                    == TxStatus::Pending,
            },
            final(self).hash == old(self).hash,
            final(self).signer == old(self).signer,
            final(self).messages == old(self).messages,
            final(self).nonce == old(self).nonce,
            final(self).fee == old(self).fee,
            final(self).timeout_ms == old(self).timeout_ms,
            final(self).backoff_ms == old(self).backoff_ms,
    {
        let step = poll_step(elapsed_ms, self.timeout_ms, self.backoff_ms, response);
        match &step {
            PollStep::Received(_) => {
                self.status = TxStatus::ReceivedResponse;
            },
            PollStep::Wait(_) => {},
            PollStep::TimedOut => {
                self.status = TxStatus::TimedOut;
            },
        }
        step
    }
}

/// A response can be split among `message_count` messages: it failed on
/// chain, or the backend parsed one group per message.
pub open spec fn response_groups_ok(
    code: u32,
    message_count: usize,
    parsed: Seq<Vec<IbcEvent>>,
) -> bool {
    code != 0 || parsed.len() == message_count
}

/// The event groups of a committed transaction of `message_count` messages:
/// when its result code is non-zero, each message gets one chain-error event
/// carrying the on-chain log; else the groups the backend parsed, which must
/// be one per message.
pub fn event_groups_from_response(
    hash: &String,
    code: u32,
    log: &String,
    message_count: usize,
    parsed: Vec<Vec<IbcEvent>>,
) -> (r: Result<Vec<Vec<IbcEvent>>, MismatchIbcEventsCountError>)
    ensures
        response_groups_ok(code, message_count, parsed@) <==> r is Ok,
        r is Err ==> r->Err_0 == (MismatchIbcEventsCountError {
            expected: message_count,
            actual: parsed@.len() as usize,
        }),
        code == 0 && r is Ok ==> r->Ok_0 == parsed,
        code != 0 && r is Ok ==> r->Ok_0@.len() == message_count && forall|i: int|
            0 <= i < message_count ==> (#[trigger] r->Ok_0@[i])@ == seq![
                IbcEvent::ChainError(ChainErrorInfo { hash: *hash, code, log: *log }),
            ],
{
    if code != 0 {
        let mut groups: Vec<Vec<IbcEvent>> = Vec::new();
        let mut i: usize = 0;
        while i < message_count
            invariant
                code != 0,
                i <= message_count,
                groups@.len() == i,
                forall|j: int|
                    0 <= j < i ==> (#[trigger] groups@[j])@ == seq![
                        IbcEvent::ChainError(ChainErrorInfo { hash: *hash, code, log: *log }),
                    ],
            decreases message_count - i,
        {
            let mut group: Vec<IbcEvent> = Vec::new();
            group.push(
                IbcEvent::ChainError(
                    ChainErrorInfo { hash: hash.clone(), code, log: log.clone() },
                ),
            );
            assert(group@ =~= seq![
                IbcEvent::ChainError(ChainErrorInfo { hash: *hash, code, log: *log }),
            ]);
            groups.push(group);
            i = i + 1;
        }
        Ok(groups)
    } else if parsed.len() != message_count {
        Err(MismatchIbcEventsCountError { expected: message_count, actual: parsed.len() })
    } else {
        Ok(parsed)
    }
}

/// A transaction broadcast in sync mode: the hash and the result of the
/// mempool check, one event slot per message, and its status.
pub struct TxSyncResult {
    pub hash: String,
    pub check_code: u32,
    pub check_log: String,
    pub events: Vec<IbcEventWithHeight>,
    pub status: TxStatus,
}

/// The event that stands for each message of a transaction that failed the
/// mempool check. No block holds it: it is placed at the first height.
pub open spec fn check_error_event(r: TxSyncResult) -> IbcEventWithHeight {
    IbcEventWithHeight {
        event: IbcEvent::ChainError(
            ChainErrorInfo { hash: r.hash, code: r.check_code, log: r.check_log },
        ),
        height: Height { revision_number: 1, revision_height: 1 },
    }
}

/// Fills each slot of every transaction that failed the mempool check with a
/// chain-error event; the other transactions are left as they are.
pub fn mark_check_tx_failures(results: &mut Vec<TxSyncResult>)
    ensures
        final(results)@.len() == old(results)@.len(),
        forall|i: int|
            0 <= i < old(results)@.len() ==> {
                let o = #[trigger] old(results)@[i];
                let n = final(results)@[i];
                &&& n.hash == o.hash
                &&& n.check_code == o.check_code
                &&& n.check_log == o.check_log
                &&& n.status == o.status
                &&& o.check_code != 0 ==> n.events@ == Seq::new(
                    o.events@.len(),
                    |k: int| check_error_event(o),
                )
                &&& o.check_code == 0 ==> n.events@ == o.events@
            },
{
    let ghost orig = results@;
    let mut i: usize = 0;
    while i < results.len()
        invariant
            i <= results.len(),
            results@.len() == orig.len(),
            forall|j: int| i <= j < orig.len() ==> results@[j] == orig[j],
            forall|j: int|
                0 <= j < i ==> {
                    let o = #[trigger] orig[j];
                    let n = results@[j];
                    &&& n.hash == o.hash
                    &&& n.check_code == o.check_code
                    &&& n.check_log == o.check_log
                    &&& n.status == o.status
                    &&& o.check_code != 0 ==> n.events@ == Seq::new(
                        o.events@.len(),
                        |k: int| check_error_event(o),
                    )
                    &&& o.check_code == 0 ==> n.events@ == o.events@
                },
        decreases results.len() - i,
    {
        if results[i].check_code != 0 {
            let n = results[i].events.len();
            let mut events: Vec<IbcEventWithHeight> = Vec::new();
            let mut k: usize = 0;
            while k < n
                invariant
                    i < results.len(),
                    results@[i as int] == orig[i as int],
                    k <= n,
                    events@.len() == k,
                    forall|m: int|
                        0 <= m < k ==> #[trigger] events@[m] == check_error_event(orig[i as int]),
                decreases n - k,
            {
                let info = ChainErrorInfo {
                    hash: results[i].hash.clone(),
                    code: results[i].check_code,
                    log: results[i].check_log.clone(),
                };
                events.push(IbcEventWithHeight::new(IbcEvent::ChainError(info), Height::new(1, 1)));
                k = k + 1;
            }
            results[i].events = events;
            assert(results@[i as int].events@ =~= Seq::new(
                orig[i as int].events@.len(),
                |k: int| check_error_event(orig[i as int]),
            ));
        }
        i = i + 1;
    }
}

/// The hashes of the transactions still waiting for their response, in order.
pub open spec fn pending_hash_seq(rs: Seq<TxSyncResult>) -> Seq<String>
    decreases rs.len(),
{
    if rs.len() == 0 {
        Seq::empty()
    } else if rs.last().status == TxStatus::Pending {
        pending_hash_seq(rs.drop_last()).push(rs.last().hash)
    } else {
        pending_hash_seq(rs.drop_last())
    }
}

pub fn pending_hashes(results: &Vec<TxSyncResult>) -> (r: Vec<String>)
    ensures
        r@ == pending_hash_seq(results@),
{
    let mut out: Vec<String> = Vec::new();
    let mut i: usize = 0;
    while i < results.len()
        invariant
            i <= results.len(),
            out@ == pending_hash_seq(results@.subrange(0, i as int)),
        decreases results.len() - i,
    {
        assert(results@.subrange(0, i + 1).drop_last() =~= results@.subrange(0, i as int));
        if results[i].status == TxStatus::Pending {
            out.push(results[i].hash.clone());
        }
        i = i + 1;
    }
    assert(results@.subrange(0, i as int) =~= results@);
    out
}

/// The first transaction of `txs` with hash `h`.
pub open spec fn first_with_hash(txs: Seq<TxRecord>, h: Seq<char>) -> Option<TxRecord>
    decreases txs.len(),
{
    if txs.len() == 0 {
        None
    } else if txs[0].hash@ == h {
        Some(txs[0])
    } else {
        first_with_hash(txs.drop_first(), h)
    }
}

/// The first chain-error event of a list.
pub open spec fn first_chain_error(evs: Seq<IbcEventWithHeight>) -> Option<IbcEventWithHeight>
    decreases evs.len(),
{
    if evs.len() == 0 {
        None
    } else if evs[0].event is ChainError {
        Some(evs[0])
    } else {
        first_chain_error(evs.drop_first())
    }
}

/// The slots of a transaction once its committed events `evs` are known: if
/// the transaction failed, every slot holds its error; else its events.
pub open spec fn resolved_events(
    slots: Seq<IbcEventWithHeight>,
    evs: Seq<IbcEventWithHeight>,
) -> Seq<IbcEventWithHeight> {
    match first_chain_error(evs) {
        Some(e) => Seq::new(slots.len(), |k: int| e),
        None => evs,
    }
}

fn find_with_hash(txs: &Vec<TxRecord>, h: &String) -> (r: Option<usize>)
    ensures
        match r {
            Some(j) => j < txs@.len() && first_with_hash(txs@, h@) == Some(txs@[j as int]),
            None => first_with_hash(txs@, h@) is None,
        },
{
    let ghost all = txs@;
    assert(all.subrange(0, all.len() as int) =~= all);
    let mut j: usize = 0;
    while j < txs.len()
        invariant
            j <= txs.len(),
            all == txs@,
            first_with_hash(all, h@) == first_with_hash(all.subrange(j as int, all.len() as int), h@),
        decreases txs.len() - j,
    {
        assert(all.subrange(j as int, all.len() as int).drop_first() =~= all.subrange(
            j + 1,
            all.len() as int,
        ));
        if txs[j].hash == *h {
            return Some(j);
        }
        j = j + 1;
    }
    None
}

fn find_chain_error(evs: &Vec<IbcEventWithHeight>) -> (r: Option<usize>)
    ensures
        match r {
            Some(j) => j < evs@.len() && first_chain_error(evs@) == Some(evs@[j as int]),
            None => first_chain_error(evs@) is None,
        },
{
    let ghost all = evs@;
    assert(all.subrange(0, all.len() as int) =~= all);
    let mut j: usize = 0;
    while j < evs.len()
        invariant
            j <= evs.len(),
            all == evs@,
            first_chain_error(all) == first_chain_error(all.subrange(j as int, all.len() as int)),
        decreases evs.len() - j,
    {
        assert(all.subrange(j as int, all.len() as int).drop_first() =~= all.subrange(
            j + 1,
            all.len() as int,
        ));
        if matches!(evs[j].event, IbcEvent::ChainError(_)) {
            return Some(j);
        }
        j = j + 1;
    }
    None
}

/// What becomes of one broadcast transaction once the committed transactions
/// `txs` were looked up: a pending one whose hash is among them takes the
/// events of the first such transaction and has its response; any other is
/// left as it is.
pub open spec fn synced(revision: u64, o: TxSyncResult, n: TxSyncResult, txs: Seq<TxRecord>) -> bool {
    &&& n.hash == o.hash
    &&& n.check_code == o.check_code
    &&& n.check_log == o.check_log
    &&& match first_with_hash(txs, o.hash@) {
        Some(tx) if o.status == TxStatus::Pending => {
            &&& n.status == TxStatus::ReceivedResponse
            &&& n.events@ == resolved_events(o.events@, tx_events(revision, tx))
        },
        _ => n.status == o.status && n.events@ == o.events@,
    }
}

/// Stores in each pending broadcast transaction the events of its committed
/// counterpart among `responses`, matched by hash.
pub fn update_tx_sync_events(
    revision: u64,
    results: &mut Vec<TxSyncResult>,
    responses: &Vec<TxRecord>,
)
    ensures
        final(results)@.len() == old(results)@.len(),
        forall|i: int|
            0 <= i < old(results)@.len() ==> synced(
                revision,
                #[trigger] old(results)@[i],
                final(results)@[i],
                responses@,
            ),
{
    let ghost orig = results@;
    let mut i: usize = 0;
    while i < results.len()
        invariant
            i <= results.len(),
            results@.len() == orig.len(),
            forall|j: int| i <= j < orig.len() ==> results@[j] == orig[j],
            forall|j: int|
                0 <= j < i ==> synced(revision, #[trigger] orig[j], results@[j], responses@),
        decreases results.len() - i,
    {
        if results[i].status == TxStatus::Pending {
            match find_with_hash(responses, &results[i].hash) {
                Some(j) => {
                    let evs = crate::correlation::tx_result_events(revision, &responses[j]);
                    match find_chain_error(&evs) {
                        Some(e) => {
                            let n = results[i].events.len();
                            let mut filled: Vec<IbcEventWithHeight> = Vec::new();
                            let mut k: usize = 0;
                            while k < n
                                invariant
                                    e < evs@.len(),
                                    k <= n,
                                    filled@.len() == k,
                                    forall|m: int|
                                        0 <= m < k ==> #[trigger] filled@[m] == evs@[e as int],
                                decreases n - k,
                            {
                                filled.push(evs[e].duplicate());
                                k = k + 1;
                            }
                            results[i].events = filled;
                            assert(results@[i as int].events@ =~= resolved_events(
                                orig[i as int].events@,
                                evs@,
                            ));
                        },
                        None => {
                            results[i].events = evs;
                        },
                    }
                    results[i].status = TxStatus::ReceivedResponse;
                },
                None => {},
            }
        }
        i = i + 1;
    }
}

/// A transaction's response as the backend parsed it.
pub struct TxResponse {
    pub code: u32,
    pub log: String,
    pub groups: Vec<Vec<IbcEvent>>,
}

/// Where a submission stands.
#[derive(Clone, Copy, Debug, PartialEq, Eq, Structural)]
pub enum SubmitState {
    EstimatingFee,
    AwaitingNonce,
    Encoding,
    Submitting,
    Polling,
    Done,
}

/// What the driver reports back to a submission.
pub enum SubmitEvent {
    FeeEstimated(Result<u64, RelayError>),
    ChainNonce(u64),
    Encoded(Result<(), RelayError>),
    Submitted(Result<String, RelayError>),
    Polled(u64, Option<TxResponse>),
}

/// What the driver must do next for a submission.
#[derive(Debug, PartialEq, Eq)]
pub enum SubmitAction {
    /// Simulate the transaction to estimate its fee.
    EstimateFee,
    /// Read the signer's nonce from the chain.
    QueryNonce,
    /// Encode and sign the messages with this nonce and fee.
    Encode(u64, u64),
    /// Broadcast the encoded transaction.
    Submit,
    /// Look for the response after this many milliseconds.
    Poll(u64),
    /// The transaction was committed: one group of events per message.
    Complete(Vec<Vec<IbcEvent>>),
    Fail(RelayError),
    /// Nothing: the event did not apply.
    Idle,
}

/// The allocation of a nonce for signer `s` with fee `fee`, given the nonce
/// table `prior` and the nonce read from the chain if any: the next state of
/// the submission, the action, and the table afterwards. A signer the table
/// does not know needs its on-chain nonce first.
pub open spec fn allocation_step(
    prior: Map<u64, crate::nonce::SignerState>,
    s: u64,
    on_chain: Option<u64>,
    fee: u64,
) -> (SubmitState, SubmitAction, Map<u64, crate::nonce::SignerState>) {
    if !prior.contains_key(s) && on_chain is None {
        (SubmitState::AwaitingNonce, SubmitAction::QueryNonce, prior)
    } else if prior.contains_key(s) && prior[s].busy {
        (SubmitState::Done, SubmitAction::Fail(RelayError::Nonce(NonceError::Busy)), prior)
    } else {
        let n = if prior.contains_key(s) {
            prior[s].next
        } else {
            on_chain->0
        };
        if n == u64::MAX {
            (SubmitState::Done, SubmitAction::Fail(RelayError::Nonce(NonceError::Exhausted)), prior)
        } else {
            (
                SubmitState::Encoding,
                SubmitAction::Encode(n, fee),
                prior.insert(s, crate::nonce::SignerState { next: n, busy: true }),
            )
        }
    }
}

/// The response of a committed transaction, as the action that completes
/// its submission.
pub open spec fn response_action(
    hash: String,
    message_count: usize,
    x: TxResponse,
    r: SubmitAction,
) -> bool {
    if response_groups_ok(x.code, message_count, x.groups@) {
        &&& r is Complete
        &&& x.code == 0 ==> r->Complete_0 == x.groups
        &&& x.code != 0 ==> r->Complete_0@.len() == message_count && forall|i: int|
            0 <= i < message_count ==> (#[trigger] r->Complete_0@[i])@ == seq![
                IbcEvent::ChainError(ChainErrorInfo { hash, code: x.code, log: x.log }),
            ]
    } else {
        r == SubmitAction::Fail(
            RelayError::MismatchIbcEventsCount(
                MismatchIbcEventsCountError {
                    expected: message_count,
                    actual: x.groups@.len() as usize,
                },
            ),
        )
    }
}

/// One transaction of one signer on its way through the pipeline.
pub struct TxSubmission {
    pub signer: u64,
    pub message_count: usize,
    pub default_fee: u64,
    pub timeout_ms: u64,
    pub backoff_ms: u64,
    pub fee: u64,
    pub nonce: u64,
    pub hash: String,
    pub state: SubmitState,
}

impl TxSubmission {
    /// While encoding or submitting, the submission holds its signer's guard
    /// and the nonce it was given is the one allocated.
    pub open spec fn holds_guard(self, nonces: NonceAllocator) -> bool {
        (self.state == SubmitState::Encoding || self.state == SubmitState::Submitting) ==> {
            &&& nonces.state().contains_key(self.signer)
            &&& nonces.state()[self.signer].busy
            &&& nonces.state()[self.signer].next == self.nonce
        }
    }

    pub fn new(
        signer: u64,
        message_count: usize,
        default_fee: u64,
        timeout_ms: u64,
        backoff_ms: u64,
    ) -> (r: (TxSubmission, SubmitAction))
        ensures
            r.0.signer == signer,
            r.0.message_count == message_count,
            r.0.default_fee == default_fee,
            r.0.timeout_ms == timeout_ms,
            r.0.backoff_ms == backoff_ms,
            r.0.state == SubmitState::EstimatingFee,
            r.1 == SubmitAction::EstimateFee,
    {
        (
            TxSubmission {
                signer,
                message_count,
                default_fee,
                timeout_ms,
                backoff_ms,
                fee: 0,
                nonce: 0,
                hash: String::new(),
                state: SubmitState::EstimatingFee,
            },
            SubmitAction::EstimateFee,
        )
    }

    fn allocate(&mut self, nonces: &mut NonceAllocator, on_chain: Option<u64>) -> (r: SubmitAction)
        requires
            old(nonces).wf(),
        ensures
            final(nonces).wf(),
            final(self).signer == old(self).signer,
            final(self).message_count == old(self).message_count,
            final(self).default_fee == old(self).default_fee,
            final(self).timeout_ms == old(self).timeout_ms,
            final(self).backoff_ms == old(self).backoff_ms,
            final(self).fee == old(self).fee,
            final(self).hash == old(self).hash,
            final(self).submitted_unchanged(*old(nonces), *final(nonces)),
            (final(self).state, r, final(nonces).state()) == allocation_step(
                old(nonces).state(),
                old(self).signer,
                on_chain,
                old(self).fee,
            ),
            r is Encode ==> final(self).nonce == r->Encode_0,
    {
        if on_chain.is_none() && nonces.local_nonce(self.signer).is_none() {
            self.state = SubmitState::AwaitingNonce;
            return SubmitAction::QueryNonce;
        }
        match nonces.acquire(self.signer, on_chain) {
            Ok(n) => {
                self.nonce = n;
                self.state = SubmitState::Encoding;
                SubmitAction::Encode(n, self.fee)
            },
            Err(e) => {
                self.state = SubmitState::Done;
                SubmitAction::Fail(RelayError::Nonce(e))
            },
        }
    }

    /// The submitted nonces of every other signer are left as they were.
    pub open spec fn submitted_unchanged(self, before: NonceAllocator, after: NonceAllocator) -> bool {
        forall|s: u64|
            s != self.signer && #[trigger] before.submitted().contains_key(s) ==> after.submitted().contains_key(s)
                && after.submitted()[s] == before.submitted()[s]
    }

    /// Takes the driver's report and returns the next action. The signer's
    /// guard is taken when the nonce is allocated and released as soon as
    /// the transaction was broadcast or failed before it: a finished
    /// submission never holds it.
    pub fn step(&mut self, nonces: &mut NonceAllocator, event: SubmitEvent) -> (r: SubmitAction)
        requires
            old(nonces).wf(),
            old(self).holds_guard(*old(nonces)),
        ensures
            final(nonces).wf(),
            final(self).holds_guard(*final(nonces)),
            final(self).signer == old(self).signer,
            final(self).message_count == old(self).message_count,
            final(self).submitted_unchanged(*old(nonces), *final(nonces)),
            (old(self).state == SubmitState::Encoding || old(self).state == SubmitState::Submitting)
                && (final(self).state == SubmitState::Done || final(self).state
                == SubmitState::Polling) ==> final(nonces).state().contains_key(old(self).signer)
                && !final(nonces).state()[old(self).signer].busy,
            old(self).state == SubmitState::Done ==> r == SubmitAction::Idle && final(self).state
                == SubmitState::Done,
            match event {
                SubmitEvent::FeeEstimated(res) => old(self).state == SubmitState::EstimatingFee
                    ==> {
                    let fee = match res {
                        Ok(f) => f,
                        Err(_) => old(self).default_fee,
                    };
                    &&& final(self).fee == fee
                    &&& (final(self).state, r, final(nonces).state()) == allocation_step(
                        old(nonces).state(),
                        old(self).signer,
                        None,
                        fee,
                    )
                    &&& r is Encode ==> final(self).nonce == r->Encode_0
                },
                SubmitEvent::ChainNonce(c) => old(self).state == SubmitState::AwaitingNonce ==> {
                    &&& final(self).fee == old(self).fee
                    &&& (final(self).state, r, final(nonces).state()) == allocation_step(
                        old(nonces).state(),
                        old(self).signer,
                        Some(c),
                        old(self).fee,
                    )
                    &&& r is Encode ==> final(self).nonce == r->Encode_0
                },
                SubmitEvent::Encoded(Err(e)) => old(self).state == SubmitState::Encoding ==> r
                    == SubmitAction::Fail(e) && final(self).state == SubmitState::Done
                    && final(nonces).state()[old(self).signer].next == old(self).nonce,
                SubmitEvent::Encoded(Ok(_)) => old(self).state == SubmitState::Encoding ==> r
                    == SubmitAction::Submit && final(self).state == SubmitState::Submitting,
                SubmitEvent::Submitted(Ok(h)) => old(self).state == SubmitState::Submitting ==> r
                    == SubmitAction::Poll(old(self).backoff_ms) && final(self).state
                    == SubmitState::Polling && final(self).hash == h && final(nonces).state()[old(
                    self).signer].next == old(self).nonce + 1 && final(nonces).submitted()[old(
                    self).signer] == old(nonces).submitted()[old(self).signer].push(old(self).nonce),
                SubmitEvent::Submitted(Err(e)) => old(self).state == SubmitState::Submitting ==> r
                    == SubmitAction::Fail(e) && final(self).state == SubmitState::Done
                    && final(nonces).state()[old(self).signer].next == old(self).nonce,
                SubmitEvent::Polled(elapsed, resp) => old(self).state == SubmitState::Polling
                    ==> if elapsed > old(self).timeout_ms {
                    r == SubmitAction::Fail(RelayError::Timeout) && final(self).state
                        == SubmitState::Done
                } else {
                    match resp {
                        None => r == SubmitAction::Poll(old(self).backoff_ms) && final(self).state
                            == SubmitState::Polling,
                        Some(x) => final(self).state == SubmitState::Done && response_action(
                            old(self).hash,
                            old(self).message_count,
                            x,
                            r,
                        ),
                    }
                },
            },
    {
        if self.state == SubmitState::Done {
            return SubmitAction::Idle;
        }
        match event {
            SubmitEvent::FeeEstimated(res) => {
                if self.state != SubmitState::EstimatingFee {
                    return SubmitAction::Idle;
                }
                self.fee = choose_fee(res, self.default_fee);
                self.allocate(nonces, None)
            },
            SubmitEvent::ChainNonce(c) => {
                if self.state != SubmitState::AwaitingNonce {
                    return SubmitAction::Idle;
                }
                self.allocate(nonces, Some(c))
            },
            SubmitEvent::Encoded(res) => {
                if self.state != SubmitState::Encoding {
                    return SubmitAction::Idle;
                }
                match res {
                    Ok(()) => {
                        self.state = SubmitState::Submitting;
                        SubmitAction::Submit
                    },
                    Err(e) => {
                        let _ = nonces.release(self.signer, false);
                        self.state = SubmitState::Done;
                        SubmitAction::Fail(e)
                    },
                }
            },
            SubmitEvent::Submitted(res) => {
                if self.state != SubmitState::Submitting {
                    return SubmitAction::Idle;
                }
                match res {
                    Ok(h) => {
                        let _ = nonces.release(self.signer, true);
                        self.hash = h;
                        self.state = SubmitState::Polling;
                        SubmitAction::Poll(self.backoff_ms)
                    },
                    Err(e) => {
                        let _ = nonces.release(self.signer, false);
                        self.state = SubmitState::Done;
                        SubmitAction::Fail(e)
                    },
                }
            },
            SubmitEvent::Polled(elapsed, resp) => {
                if self.state != SubmitState::Polling {
                    return SubmitAction::Idle;
                }
                match poll_step(elapsed, self.timeout_ms, self.backoff_ms, resp) {
                    PollStep::TimedOut => {
                        self.state = SubmitState::Done;
                        SubmitAction::Fail(RelayError::Timeout)
                    },
                    PollStep::Wait(d) => SubmitAction::Poll(d),
                    PollStep::Received(x) => {
                        self.state = SubmitState::Done;
                        match event_groups_from_response(
                            &self.hash,
                            x.code,
                            &x.log,
                            self.message_count,
                            x.groups,
                        ) {
                            Ok(groups) => SubmitAction::Complete(groups),
                            Err(m) => SubmitAction::Fail(RelayError::MismatchIbcEventsCount(m)),
                        }
                    },
                }
            },
        }
    }
}

} // verus!
