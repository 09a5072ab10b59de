//! A verified packet-relay engine for inter-chain message passing.
//!
//! The crate holds the decision logic of a relayer: selecting the chain a
//! message is addressed to, retrying fallible operations, allocating
//! per-signer nonces, batching messages of concurrent callers into shared
//! transactions, tracking submitted transactions, correlating on-chain events
//! with requests, and the receive / acknowledge / timeout state machine of a
//! packet. Chain backends, storage and network transport stay outside; they
//! hand plain values to the functions here and perform the actions these
//! functions return.
pub mod batch;
pub mod chain;
pub mod correlation;
pub mod nonce;
pub mod pipeline;
pub mod receive;
pub mod retry;
pub mod target;
pub mod types;
pub mod wallets;

pub use chain::{ofa_to_afo_chain, ConsensusStateTelemetryQuerier, OfaChainToChainBuilder, OfaChainWrapper};
pub use receive::BaseReceivePacketRelayer;
pub use target::{ChainTarget, DestinationTarget, RelayContext, Sealed, SourceTarget};
pub use types::{
    ChainErrorInfo, EventKind, Height, IbcEvent, IbcEventWithHeight, Packet, QueryHeight,
    TxRecord, UpdateClientEvent,
};
pub use wallets::{ChainWallets, Tagged, Wallet};
