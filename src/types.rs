use vstd::prelude::*;

verus! {

/// A block height on a chain: the revision (epoch) and the height within it.
#[derive(Clone, Copy, Debug, PartialEq, Eq, Structural)]
pub struct Height {
    pub revision_number: u64,
    pub revision_height: u64,
}

impl Height {
    /// Heights are ordered by revision first, then by height within it.
    pub open spec fn le(self, other: Height) -> bool {
        self.revision_number < other.revision_number || (self.revision_number
            == other.revision_number && self.revision_height <= other.revision_height)
    }

    pub fn new(revision_number: u64, revision_height: u64) -> (r: Height)
        ensures
            r.revision_number == revision_number,
            r.revision_height == revision_height,
    {
        Height { revision_number, revision_height }
    }

    pub fn is_le(&self, other: &Height) -> (r: bool)
        ensures
            r == self.le(*other),
    {
        self.revision_number < other.revision_number || (self.revision_number
            == other.revision_number && self.revision_height <= other.revision_height)
    }
}

/// The height at which a query is evaluated.
#[derive(Clone, Copy, Debug, PartialEq, Eq, Structural)]
pub enum QueryHeight {
    Latest,
    Specific(Height),
}

impl QueryHeight {
    /// Whether data committed at `h` is visible to a query at this height.
    pub open spec fn admits(self, h: Height) -> bool {
        match self {
            QueryHeight::Latest => true,
            QueryHeight::Specific(q) => h.le(q),
        }
    }

    pub fn admits_height(&self, h: &Height) -> (r: bool)
        ensures
            r == self.admits(*h),
    {
        match self {
            QueryHeight::Latest => true,
            QueryHeight::Specific(q) => h.is_le(q),
        }
    }
}

/// The type of an on-chain event, as used to select events in a query.
#[derive(Clone, Copy, Debug, PartialEq, Eq, Structural)]
pub enum EventKind {
    SendPacket,
    WriteAck,
    UpdateClient,
}

/// A packet as reported by a chain event. Its identity is the pair of
/// endpoints and the sequence; the rest is carried along unchanged.
#[derive(Clone, Debug, PartialEq, Eq)]
pub struct Packet {
    pub sequence: u64,
    pub source_port: String,
    pub source_channel: String,
    pub destination_port: String,
    pub destination_channel: String,
    pub data: String,
    pub timeout_height: Height,
    pub timeout_timestamp: u64,
}

impl Packet {
    pub fn duplicate(&self) -> (r: Packet)
        ensures
            r == *self,
    {
        Packet {
            sequence: self.sequence,
            source_port: self.source_port.clone(),
            source_channel: self.source_channel.clone(),
            destination_port: self.destination_port.clone(),
            destination_channel: self.destination_channel.clone(),
            data: self.data.clone(),
            timeout_height: self.timeout_height,
            timeout_timestamp: self.timeout_timestamp,
        }
    }
}

/// A client update recorded on chain.
#[derive(Clone, Debug, PartialEq, Eq)]
pub struct UpdateClientEvent {
    pub client_id: String,
    pub consensus_height: Height,
}

/// A transaction that was committed or checked with a non-zero result code.
#[derive(Clone, Debug, PartialEq, Eq)]
pub struct ChainErrorInfo {
    pub hash: String,
    pub code: u32,
    pub log: String,
}

impl ChainErrorInfo {
    pub fn duplicate(&self) -> (r: ChainErrorInfo)
        ensures
            r == *self,
    {
        ChainErrorInfo { hash: self.hash.clone(), code: self.code, log: self.log.clone() }
    }
}

/// An event of the inter-chain protocol, as decoded by a chain backend.
#[derive(Clone, Debug, PartialEq, Eq)]
pub enum IbcEvent {
    SendPacket(Packet),
    /// A packet together with the acknowledgement the destination wrote.
    WriteAcknowledgement(Packet, String),
    UpdateClient(UpdateClientEvent),
    /// Stands for every message of a transaction that failed on chain.
    ChainError(ChainErrorInfo),
    /// An event of a type that the relay logic does not inspect.
    Other(String),
}

impl IbcEvent {
    pub fn duplicate(&self) -> (r: IbcEvent)
        ensures
            r == *self,
    {
        match self {
            IbcEvent::SendPacket(p) => IbcEvent::SendPacket(p.duplicate()),
            IbcEvent::WriteAcknowledgement(p, a) => IbcEvent::WriteAcknowledgement(
                p.duplicate(),
                a.clone(),
            ),
            IbcEvent::UpdateClient(u) => IbcEvent::UpdateClient(
                UpdateClientEvent {
                    client_id: u.client_id.clone(),
                    consensus_height: u.consensus_height,
                },
            ),
            IbcEvent::ChainError(e) => IbcEvent::ChainError(e.duplicate()),
            IbcEvent::Other(k) => IbcEvent::Other(k.clone()),
        }
    }

    pub open spec fn is_chain_error(self) -> bool {
        self is ChainError
    }
}

/// An event together with the height of the block that holds it.
#[derive(Clone, Debug, PartialEq, Eq)]
pub struct IbcEventWithHeight {
    pub event: IbcEvent,
    pub height: Height,
}

impl IbcEventWithHeight {
    pub fn new(event: IbcEvent, height: Height) -> (r: IbcEventWithHeight)
        ensures
            r == (IbcEventWithHeight { event, height }),
    {
        IbcEventWithHeight { event, height }
    }

    pub fn duplicate(&self) -> (r: IbcEventWithHeight)
        ensures
            r == *self,
    {
        IbcEventWithHeight { event: self.event.duplicate(), height: self.height }
    }
}

/// A committed transaction as read back from a chain or an index: its hash,
/// the block height, the result code and log, and its decoded events.
#[derive(Clone, Debug, PartialEq, Eq)]
pub struct TxRecord {
    pub hash: String,
    pub height: u64,
    pub code: u32,
    pub log: String,
    pub events: Vec<IbcEvent>,
}

} // verus!
