use vstd::prelude::*;

use crate::storage::StorageMap;
use crate::types::{AccountId, BlockNumber, Nonce};

verus! {

/// The System Pallet: the low-level state the runtime itself keeps — the
/// current block number, and how many extrinsics each account has submitted.
#[derive(Debug)]
pub struct Pallet {
    /// The current block number.
    block_number: BlockNumber,
    /// A map from an account to its nonce.
    nonce: StorageMap<Nonce>,
}

/// The nonce an account holds in a nonce map: its entry, or zero if absent.
pub open spec fn nonce_in(m: Map<Seq<char>, Nonce>, who: Seq<char>) -> Nonce {
    if m.contains_key(who) {
        m[who]
    } else {
        0
    }
}

/// What `inc_nonce` does to a nonce map: the account's count grows by one.
pub open spec fn spec_inc_nonce(m: Map<Seq<char>, Nonce>, who: Seq<char>) -> Map<
    Seq<char>,
    Nonce,
> {
    m.insert(who, (nonce_in(m, who) + 1) as Nonce)
}

/// `spec_inc_nonce` applied to the same account `n` times over.
pub open spec fn spec_inc_nonce_times(m: Map<Seq<char>, Nonce>, who: Seq<char>, n: nat) -> Map<
    Seq<char>,
    Nonce,
>
    decreases n,
{
    if n == 0 {
        m
    } else {
        spec_inc_nonce(spec_inc_nonce_times(m, who, (n - 1) as nat), who)
    }
}

/// Incrementing an account's nonce `n` times yields a count exactly `n`
/// higher, as long as the counter does not run over its machine bound; in
/// particular `n` increments from a fresh state yield a nonce of `n`.
pub proof fn lemma_inc_nonce_times(m: Map<Seq<char>, Nonce>, who: Seq<char>, n: nat)
    requires
        nonce_in(m, who) + n <= Nonce::MAX,
    ensures
        nonce_in(spec_inc_nonce_times(m, who, n), who) == nonce_in(m, who) + n,
    decreases n,
{
    if n > 0 {
        lemma_inc_nonce_times(m, who, (n - 1) as nat);
    }
}

impl Pallet {
    /// The current block number, as specifications see it.
    pub closed spec fn spec_block_number(self) -> BlockNumber {
        self.block_number
    }

    /// The nonce bookkeeping as a mathematical map; an account that never
    /// submitted an extrinsic is absent.
    pub closed spec fn nonces(self) -> Map<Seq<char>, Nonce> {
        self.nonce@
    }

    /// The nonce of an account: its stored entry, or zero if absent.
    pub open spec fn spec_nonce(self, who: Seq<char>) -> Nonce {
        nonce_in(self.nonces(), who)
    }

    /// A fresh instance: block number zero, no nonces recorded.
    pub fn new() -> (p: Self)
        ensures
            p.spec_block_number() == 0,
            p.nonces() == Map::<Seq<char>, Nonce>::empty(),
    {
        Pallet { block_number: 0, nonce: StorageMap::new() }
    }

    /// Get the current block number.
    pub fn block_number(&self) -> (r: BlockNumber)
        ensures
            r == self.spec_block_number(),
    {
        self.block_number
    }

    /// Increase the block number by exactly one.
    pub fn inc_block_number(&mut self)
        requires
            old(self).spec_block_number() < BlockNumber::MAX,
        ensures
            final(self).spec_block_number() == old(self).spec_block_number() + 1,
            final(self).nonces() == old(self).nonces(),
    {
        self.block_number = self.block_number + 1;
    }

    /// Increase the nonce of `who` by exactly one, recording one where none
    /// was stored yet.
    pub fn inc_nonce(&mut self, who: &AccountId)
        requires
            old(self).spec_nonce(who@) < Nonce::MAX,
        ensures
            final(self).nonces() == spec_inc_nonce(old(self).nonces(), who@),
            final(self).spec_block_number() == old(self).spec_block_number(),
    {
        let current = self.nonce(who);
        self.nonce.insert(who.clone(), current + 1);
    }

    /// Get the nonce of `who`.
    pub fn nonce(&self, who: &AccountId) -> (r: Nonce)
        ensures
            r == self.spec_nonce(who@),
    {
        match self.nonce.get(who) {
            Some(n) => *n,
            None => 0,
        }
    }
}

} // verus!
