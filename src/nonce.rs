//! Per-signer nonce allocation. A signer's nonce is taken under an exclusive
//! guard, held from allocation until the transaction was submitted or
//! definitively failed before submission. A submitted nonce is never handed
//! out again; one whose transaction never left is handed out next.
use std::collections::HashMap;
use vstd::prelude::*;

verus! {

broadcast use vstd::std_specs::hash::group_hash_axioms;

/// Why a nonce could not be allocated or released.
#[derive(Clone, Copy, Debug, PartialEq, Eq, Structural)]
pub enum NonceError {
    /// Another allocation for the signer is in flight.
    Busy,
    /// No nonce is known for the signer and none was read from the chain.
    NeedsChainNonce,
    /// The signer's nonce space is used up.
    Exhausted,
    /// The signer holds no allocation to release.
    NotHeld,
}

/// The recorded state of one signer: the next nonce to hand out, and whether
/// that nonce is currently allocated to a caller.
#[derive(Clone, Copy, Debug, PartialEq, Eq, Structural)]
pub struct SignerState {
    pub next: u64,
    pub busy: bool,
}

/// The nonce table of a relayer: one lazily created entry per signer.
pub struct NonceAllocator {
    table: HashMap<u64, SignerState>,
    history: Ghost<Map<u64, Seq<u64>>>,
}

pub open spec fn strictly_increasing(s: Seq<u64>) -> bool {
    forall|i: int, j: int| 0 <= i < j < s.len() ==> s[i] < s[j]
}

/// A signer's submitted nonces increase strictly and lie below its next
/// nonce; while allocated, its next nonce has a successor.
pub open spec fn signer_ok(t: Map<u64, SignerState>, h: Map<u64, Seq<u64>>, s: u64) -> bool {
    &&& strictly_increasing(h[s])
    &&& forall|i: int| 0 <= i < h[s].len() ==> #[trigger] h[s][i] < t[s].next
    &&& t[s].busy ==> t[s].next < u64::MAX
}

impl NonceAllocator {
    /// The recorded state of each signer.
    pub closed spec fn state(self) -> Map<u64, SignerState> {
        self.table@
    }

    /// The nonces submitted so far by each known signer, in allocation order.
    pub closed spec fn submitted(self) -> Map<u64, Seq<u64>> {
        self.history@
    }

    pub closed spec fn wf(self) -> bool {
        &&& self.history@.dom() == self.table@.dom()
        &&& forall|s: u64|
            #[trigger] self.table@.contains_key(s) ==> signer_ok(self.table@, self.history@, s)
    }

    pub fn new() -> (r: NonceAllocator)
        ensures
            r.wf(),
            r.state() == Map::<u64, SignerState>::empty(),
            r.submitted() == Map::<u64, Seq<u64>>::empty(),
    {
        NonceAllocator { table: HashMap::new(), history: Ghost(Map::empty()) }
    }

    /// The nonce recorded for a signer; `None` means it must be read from the
    /// chain before the first allocation.
    pub fn local_nonce(&self, signer: u64) -> (r: Option<u64>)
        ensures
            self.state().contains_key(signer) ==> r == Some(self.state()[signer].next),
            !self.state().contains_key(signer) ==> r is None,
    {
        match self.table.get(&signer) {
            Some(st) => Some(st.next),
            None => None,
        }
    }

    /// Takes the signer's guard and hands out its next nonce: the recorded one,
    /// or, for a signer not known yet, the nonce read from the chain.
    pub fn acquire(&mut self, signer: u64, on_chain: Option<u64>) -> (r: Result<u64, NonceError>)
        requires
            old(self).wf(),
        ensures
            final(self).wf(),
            ({
                let prior = old(self).state();
                let known = prior.contains_key(signer);
                if known && prior[signer].busy {
                    r == Err::<u64, _>(NonceError::Busy) && final(self).state() == prior
                } else if !known && on_chain is None {
                    r == Err::<u64, _>(NonceError::NeedsChainNonce) && final(self).state() == prior
                } else {
                    let n = if known {
                        prior[signer].next
                    } else {
                        on_chain->0
                    };
                    if n == u64::MAX {
                        r == Err::<u64, _>(NonceError::Exhausted) && final(self).state() == prior
                    } else {
                        r == Ok::<u64, NonceError>(n) && final(self).state() == prior.insert(
                            signer,
                            SignerState { next: n, busy: true },
                        )
                    }
                }
            }),
            old(self).submitted().contains_key(signer) ==> final(self).submitted()
                == old(self).submitted(),
            !old(self).submitted().contains_key(signer) && r is Ok ==> final(self).submitted()
                == old(self).submitted().insert(signer, Seq::empty()),
            !old(self).submitted().contains_key(signer) && r is Err ==> final(self).submitted()
                == old(self).submitted(),
            r is Ok ==> forall|i: int|
                0 <= i < final(self).submitted()[signer].len()
                    ==> #[trigger] final(self).submitted()[signer][i] < r->Ok_0,
    {
        let n = match self.table.get(&signer) {
            Some(st) => {
                if st.busy {
                    return Err(NonceError::Busy);
                }
                st.next
            },
            None => match on_chain {
                Some(c) => c,
                None => {
                    return Err(NonceError::NeedsChainNonce);
                },
            },
        };
        if n == u64::MAX {
            return Err(NonceError::Exhausted);
        }
        let ghost t0 = self.table@;
        let ghost h0 = self.history@;
        proof {
            if !self.history@.contains_key(signer) {
                self.history@ = self.history@.insert(signer, Seq::empty());
            }
        }
        self.table.insert(signer, SignerState { next: n, busy: true });
        proof {
            assert forall|s: u64| #[trigger] self.table@.contains_key(s) implies signer_ok(
                self.table@,
                self.history@,
                s,
            ) by {
                if s != signer {
                    assert(t0.contains_key(s) && signer_ok(t0, h0, s));
                    assert(self.history@[s] == h0[s]);
                } else if t0.contains_key(signer) {
                    assert(signer_ok(t0, h0, s));
                }
            }
            assert(self.history@.dom() =~= self.table@.dom());
        }
        Ok(n)
    }

    /// Releases the signer's guard. When the transaction was submitted its
    /// nonce is spent and the next one follows it; when it definitively
    /// failed before submission the same nonce is handed out next.
    pub fn release(&mut self, signer: u64, was_submitted: bool) -> (r: Result<(), NonceError>)
        requires
            old(self).wf(),
        ensures
            final(self).wf(),
            old(self).state().contains_key(signer) && old(self).state()[signer].busy
                ==> old(self).state()[signer].next < u64::MAX,
            ({
                let prior = old(self).state();
                if !prior.contains_key(signer) || !prior[signer].busy {
                    r == Err::<(), _>(NonceError::NotHeld) && final(self).state() == prior
                        && final(self).submitted() == old(self).submitted()
                } else {
                    let n = prior[signer].next;
                    &&& r is Ok
                    &&& was_submitted ==> final(self).state() == prior.insert(
                        signer,
                        SignerState { next: (n + 1) as u64, busy: false },
                    ) && final(self).submitted() == old(self).submitted().insert(
                        signer,
                        old(self).submitted()[signer].push(n),
                    )
                    &&& !was_submitted ==> final(self).state() == prior.insert(
                        signer,
                        SignerState { next: n, busy: false },
                    ) && final(self).submitted() == old(self).submitted()
                }
            }),
    {
        let n = match self.table.get(&signer) {
            Some(st) => {
                if !st.busy {
                    return Err(NonceError::NotHeld);
                }
                st.next
            },
            None => {
                return Err(NonceError::NotHeld);
            },
        };
        let ghost t0 = self.table@;
        let ghost h0 = self.history@;
        assert(signer_ok(t0, h0, signer));
        if was_submitted {
            proof {
                let h = self.history@[signer];
                self.history@ = self.history@.insert(signer, h.push(n));
                assert(strictly_increasing(h.push(n)));
            }
            self.table.insert(signer, SignerState { next: n + 1, busy: false });
        } else {
            self.table.insert(signer, SignerState { next: n, busy: false });
        }
        proof {
            assert forall|s: u64| #[trigger] self.table@.contains_key(s) implies signer_ok(
                self.table@,
                self.history@,
                s,
            ) by {
                if s != signer {
                    assert(t0.contains_key(s) && signer_ok(t0, h0, s));
                    assert(self.history@[s] == h0[s]);
                }
            }
            assert(self.history@.dom() =~= self.table@.dom());
        }
        Ok(())
    }

    /// Raises a signer's recorded nonce to the chain's, after the chain
    /// reported a mismatch. The recorded nonce never goes down, so no spent
    /// nonce is handed out again.
    pub fn resync(&mut self, signer: u64, on_chain: u64) -> (r: Result<(), NonceError>)
        requires
            old(self).wf(),
        ensures
            final(self).wf(),
            final(self).submitted() == old(self).submitted(),
            ({
                let prior = old(self).state();
                if !prior.contains_key(signer) {
                    r is Ok && final(self).state() == prior
                } else if prior[signer].busy {
                    r == Err::<(), _>(NonceError::Busy) && final(self).state() == prior
                } else {
                    let n = prior[signer].next;
                    r is Ok && final(self).state() == prior.insert(
                        signer,
                        SignerState { next: if on_chain > n { on_chain } else { n }, busy: false },
                    )
                }
            }),
    {
        match self.table.get(&signer) {
            Some(st) => {
                if st.busy {
                    return Err(NonceError::Busy);
                }
                let n = if on_chain > st.next {
                    on_chain
                } else {
                    st.next
                };
                let ghost t0 = self.table@;
                assert(signer_ok(t0, self.history@, signer));
                self.table.insert(signer, SignerState { next: n, busy: false });
                proof {
                    assert forall|s: u64| #[trigger] self.table@.contains_key(s) implies signer_ok(
                        self.table@,
                        self.history@,
                        s,
                    ) by {
                        if s != signer {
                            assert(t0.contains_key(s) && signer_ok(t0, self.history@, s));
                        }
                    }
                    assert(self.history@.dom() =~= self.table@.dom());
                }
                Ok(())
            },
            None => Ok(()),
        }
    }
}

/// The nonces a signer submits are strictly increasing and never repeat,
/// whatever the interleaving of the callers that share the table: every
/// operation keeps the table well formed, and a well-formed table records
/// each signer's submitted nonces in strictly increasing order, all below the
/// nonce it hands out next.
pub proof fn lemma_submitted_nonces_increase(a: NonceAllocator, signer: u64)
    requires
        a.wf(),
        a.submitted().contains_key(signer),
    ensures
        a.state().contains_key(signer),
        strictly_increasing(a.submitted()[signer]),
        forall|i: int|
            0 <= i < a.submitted()[signer].len() ==> #[trigger] a.submitted()[signer][i]
                < a.state()[signer].next,
{
    assert(a.table@.contains_key(signer));
    assert(signer_ok(a.table@, a.history@, signer));
}

} // verus!
