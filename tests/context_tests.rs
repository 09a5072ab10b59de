use std::marker::PhantomData;

use relay_engine::{
    ofa_to_afo_chain, ChainTarget, ChainWallets, ConsensusStateTelemetryQuerier, DestinationTarget,
    OfaChainToChainBuilder, RelayContext, SourceTarget, Tagged, Wallet,
};

fn context() -> RelayContext<&'static str> {
    RelayContext::new("chain-a", "chain-b", "client-on-a".to_string(), "client-on-b".to_string())
}

#[test]
fn source_target_selects_source() {
    let ctx = context();
    assert_eq!(*SourceTarget::target_chain(&ctx), "chain-a");
    assert_eq!(*SourceTarget::counterparty_chain(&ctx), "chain-b");
    assert_eq!(SourceTarget::target_client_id(&ctx), "client-on-a");
    assert_eq!(SourceTarget::counterparty_client_id(&ctx), "client-on-b");
}

#[test]
fn destination_target_is_the_dual() {
    let ctx = context();
    assert_eq!(*DestinationTarget::target_chain(&ctx), "chain-b");
    assert_eq!(*DestinationTarget::counterparty_chain(&ctx), "chain-a");
    assert_eq!(DestinationTarget::target_client_id(&ctx), "client-on-b");
    assert_eq!(DestinationTarget::counterparty_client_id(&ctx), "client-on-a");
    assert_eq!(ctx.source_client_id(), "client-on-a");
    assert_eq!(*ctx.destination_chain(), "chain-b");
}

fn wallet(id: &str) -> Wallet {
    Wallet { id: id.to_string(), address: format!("addr-{}", id) }
}

#[test]
fn tagged_wallet_accessors() {
    let wallets = ChainWallets {
        validator: wallet("validator"),
        relayer: wallet("relayer"),
        user1: wallet("user1"),
        user2: wallet("user2"),
    };
    let tagged: Tagged<u8, &ChainWallets> = Tagged { value: &wallets, chain: PhantomData };
    assert_eq!(tagged.validator().value.id, "validator");
    assert_eq!(tagged.relayer().value.id, "relayer");
    assert_eq!(tagged.user1().value.address, "addr-user1");
    assert_eq!(tagged.user2().value.id, "user2");
}

#[test]
fn chain_builders_wrap_backends() {
    assert_eq!(ofa_to_afo_chain(17u32).chain, 17);
    let builder = OfaChainToChainBuilder { in_builder: () };
    assert_eq!(builder.build_chain::<u8, &str>(Ok(3)).map(|w| w.chain), Ok(3));
    let builder = OfaChainToChainBuilder { in_builder: () };
    assert_eq!(builder.build_chain::<u8, &str>(Err("no rpc")).map(|w| w.chain), Err("no rpc"));
}

#[test]
fn telemetry_counts_queries_without_changing_results() {
    let mut q = ConsensusStateTelemetryQuerier::new("inner");
    assert_eq!(q.query_consensus_state::<u8, ()>(Ok(5)), Ok(5));
    assert_eq!(q.query_consensus_state::<u8, &str>(Err("down")), Err("down"));
    assert_eq!(q.queries, 2);
    q.queries = u64::MAX;
    q.query_consensus_state::<u8, ()>(Ok(1)).unwrap();
    assert_eq!(q.queries, u64::MAX);
}
