//! Adapters around a chain backend: the wrapper through which relay logic
//! sees a backend, the builder step that produces it, query telemetry, and
//! the clock interface a backend supplies.
use vstd::prelude::*;

verus! {

/// A chain backend as seen by the relay logic.
pub struct OfaChainWrapper<Chain> {
    pub chain: Chain,
}

impl<Chain> OfaChainWrapper<Chain> {
    pub fn new(chain: Chain) -> (r: Self)
        ensures
            r.chain == chain,
    {
        OfaChainWrapper { chain }
    }
}

/// Turns a backend into the context the relay logic is written against.
pub fn ofa_to_afo_chain<Chain>(chain: Chain) -> (r: OfaChainWrapper<Chain>)
    ensures
        r.chain == chain,
{
    OfaChainWrapper::new(chain)
}

/// Builds the wrapped chain from what an inner builder produced.
pub struct OfaChainToChainBuilder<InBuilder> {
    pub in_builder: InBuilder,
}

impl<InBuilder> OfaChainToChainBuilder<InBuilder> {
    /// Wraps the chain the inner builder built, or passes its error on.
    pub fn build_chain<Chain, E>(self, built: Result<Chain, E>) -> (r: Result<
        OfaChainWrapper<Chain>,
        E,
    >)
        ensures
            match built {
                Ok(c) => r == Ok::<_, E>(OfaChainWrapper { chain: c }),
                Err(e) => r == Err::<OfaChainWrapper<Chain>, _>(e),
            },
    {
        match built {
            Ok(c) => Ok(OfaChainWrapper::new(c)),
            Err(e) => Err(e),
        }
    }
}

/// A consensus-state querier that counts its queries. The count never
/// changes what a query returns.
pub struct ConsensusStateTelemetryQuerier<InQuerier> {
    pub querier: InQuerier,
    pub queries: u64,
}

impl<InQuerier> ConsensusStateTelemetryQuerier<InQuerier> {
    pub fn new(querier: InQuerier) -> (r: Self)
        ensures
            r.querier == querier,
            r.queries == 0,
    {
        ConsensusStateTelemetryQuerier { querier, queries: 0 }
    }

    /// Counts one query and hands its result back unchanged; the counter
    /// stops at its maximum.
    pub fn query_consensus_state<S, E>(&mut self, result: Result<S, E>) -> (r: Result<S, E>)
        ensures
            r == result,
            final(self).querier == old(self).querier,
            final(self).queries == if old(self).queries < u64::MAX {
                (old(self).queries + 1) as u64
            } else {
                old(self).queries
            },
    {
        if self.queries < u64::MAX {
            self.queries = self.queries + 1;
        }
        result
    }
}

/// A point in time, as a chain backend measures it.
pub trait Time {
    /// Milliseconds from `other` to `self`.
    fn duration_since(&self, other: &Self) -> u64;
}

/// A source of the current time.
pub trait TimeContext {
    type Time: Time;

    fn now(&self) -> Self::Time;
}

} // verus!
