//! A relay context pairs a source and a destination chain with the client
//! each holds of the other. A target selects, once and for all, which of
//! the two chains a piece of relay logic sends to, so that the logic is
//! written once for both directions.
use vstd::prelude::*;

verus! {

/// The two chains of a relay path and their clients of each other. The
/// pairing is fixed when the context is built.
pub struct RelayContext<Chain> {
    source_chain: Chain,
    destination_chain: Chain,
    source_client_id: String,
    destination_client_id: String,
}

impl<Chain> RelayContext<Chain> {
    pub closed spec fn src(&self) -> Chain {
        self.source_chain
    }

    pub closed spec fn dst(&self) -> Chain {
        self.destination_chain
    }

    /// The client, on the source chain, of the destination chain.
    pub closed spec fn src_client(&self) -> Seq<char> {
        self.source_client_id@
    }

    /// The client, on the destination chain, of the source chain.
    pub closed spec fn dst_client(&self) -> Seq<char> {
        self.destination_client_id@
    }

    pub fn new(
        source_chain: Chain,
        destination_chain: Chain,
        source_client_id: String,
        destination_client_id: String,
    ) -> (r: Self)
        ensures
            r.src() == source_chain,
            r.dst() == destination_chain,
            r.src_client() == source_client_id@,
            r.dst_client() == destination_client_id@,
    {
        RelayContext { source_chain, destination_chain, source_client_id, destination_client_id }
    }

    pub fn source_chain(&self) -> (r: &Chain)
        ensures
            *r == self.src(),
    {
        &self.source_chain
    }

    pub fn destination_chain(&self) -> (r: &Chain)
        ensures
            *r == self.dst(),
    {
        &self.destination_chain
    }

    pub fn source_client_id(&self) -> (r: &String)
        ensures
            r@ == self.src_client(),
    {
        &self.source_client_id
    }

    pub fn destination_client_id(&self) -> (r: &String)
        ensures
            r@ == self.dst_client(),
    {
        &self.destination_client_id
    }
}

/// Closes the set of targets to the two defined here.
pub trait Sealed {

}

/// Selects the chain that relay logic sends to (the target) and the chain
/// it reads from (the counterparty), with the client each holds.
pub trait ChainTarget: Sealed {
    /// Whether this target is the source chain of the context.
    spec fn targets_source() -> bool;

    fn target_chain<Chain>(context: &RelayContext<Chain>) -> (r: &Chain)
        ensures
            *r == if Self::targets_source() {
                context.src()
            } else {
                context.dst()
            },
    ;

    fn counterparty_chain<Chain>(context: &RelayContext<Chain>) -> (r: &Chain)
        ensures
            *r == if Self::targets_source() {
                context.dst()
            } else {
                context.src()
            },
    ;

    fn target_client_id<Chain>(context: &RelayContext<Chain>) -> (r: &String)
        ensures
            r@ == if Self::targets_source() {
                context.src_client()
            } else {
                context.dst_client()
            },
    ;

    fn counterparty_client_id<Chain>(context: &RelayContext<Chain>) -> (r: &String)
        ensures
            r@ == if Self::targets_source() {
                context.dst_client()
            } else {
                context.src_client()
            },
    ;
}

/// Addresses the source chain of a relay context.
pub struct SourceTarget;

/// Addresses the destination chain of a relay context.
pub struct DestinationTarget;

impl Sealed for SourceTarget {

}

impl Sealed for DestinationTarget {

}

impl ChainTarget for SourceTarget {
    open spec fn targets_source() -> bool {
        true
    }

    fn target_chain<Chain>(context: &RelayContext<Chain>) -> (r: &Chain) {
        context.source_chain()
    }

    fn counterparty_chain<Chain>(context: &RelayContext<Chain>) -> (r: &Chain) {
        context.destination_chain()
    }

    fn target_client_id<Chain>(context: &RelayContext<Chain>) -> (r: &String) {
        context.source_client_id()
    }

    fn counterparty_client_id<Chain>(context: &RelayContext<Chain>) -> (r: &String) {
        context.destination_client_id()
    }
}

impl ChainTarget for DestinationTarget {
    open spec fn targets_source() -> bool {
        false
    }

    fn target_chain<Chain>(context: &RelayContext<Chain>) -> (r: &Chain) {
        context.destination_chain()
    }

    fn counterparty_chain<Chain>(context: &RelayContext<Chain>) -> (r: &Chain) {
        context.source_chain()
    }

    fn target_client_id<Chain>(context: &RelayContext<Chain>) -> (r: &String) {
        context.destination_client_id()
    }

    fn counterparty_client_id<Chain>(context: &RelayContext<Chain>) -> (r: &String) {
        context.source_client_id()
    }
}

} // verus!
