use core::marker::PhantomData;
use vstd::prelude::*;

verus! {

/// A funded account on a chain, identified by its key name and address.
pub struct Wallet {
    pub id: String,
    pub address: String,
}

/// The wallets that a test network provisions on one chain.
pub struct ChainWallets {
    pub validator: Wallet,
    pub relayer: Wallet,
    pub user1: Wallet,
    pub user2: Wallet,
}

/// A value tagged at the type level with the chain it belongs to.
pub struct Tagged<Chain, T> {
    pub value: T,
    pub chain: PhantomData<Chain>,
}

impl<Chain, T> Tagged<Chain, T> {
    pub fn new(value: T) -> (r: Self)
        ensures
            r.value == value,
    {
        Tagged { value, chain: PhantomData }
    }
}

impl<'a, Chain> Tagged<Chain, &'a ChainWallets> {
    pub fn validator(&self) -> (r: Tagged<Chain, &'a Wallet>)
        ensures
            *r.value == self.value.validator,
    {
        Tagged::new(&self.value.validator)
    }

    pub fn relayer(&self) -> (r: Tagged<Chain, &'a Wallet>)
        ensures
            *r.value == self.value.relayer,
    {
        Tagged::new(&self.value.relayer)
    }

    pub fn user1(&self) -> (r: Tagged<Chain, &'a Wallet>)
        ensures
            *r.value == self.value.user1,
    {
        Tagged::new(&self.value.user1)
    }

    pub fn user2(&self) -> (r: Tagged<Chain, &'a Wallet>)
        ensures
            *r.value == self.value.user2,
    {
        Tagged::new(&self.value.user2)
    }
}

} // verus!
