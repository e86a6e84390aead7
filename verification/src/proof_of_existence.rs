use vstd::prelude::*;

use crate::storage::StorageMap;
use crate::support::{Dispatch, DispatchError, DispatchResult};
use crate::types::{AccountId, Content};

verus! {

/// The Proof of Existence Module: an exclusive ownership registry that lets
/// accounts claim the existence of some data.
#[derive(Debug)]
pub struct Pallet {
    /// A storage map from content to the owner of that content. Accounts can
    /// make multiple different claims, but each claim has at most one owner.
    claims: StorageMap<AccountId>,
}

/// What `create_claim` does to a claims map: the new map and the result.
pub open spec fn spec_create_claim(
    m: Map<Seq<char>, Seq<char>>,
    caller: Seq<char>,
    content: Seq<char>,
) -> (Map<Seq<char>, Seq<char>>, DispatchResult) {
    if m.contains_key(content) {
        (m, Err(DispatchError::ClaimAlreadyExists))
    } else {
        (m.insert(content, caller), Ok(()))
    }
}

/// What `revoke_claim` does to a claims map: the new map and the result.
pub open spec fn spec_revoke_claim(
    m: Map<Seq<char>, Seq<char>>,
    caller: Seq<char>,
    content: Seq<char>,
) -> (Map<Seq<char>, Seq<char>>, DispatchResult) {
    if !m.contains_key(content) {
        (m, Err(DispatchError::ClaimNotFound))
    } else if m[content] != caller {
        (m, Err(DispatchError::NotClaimOwner))
    } else {
        (m.remove(content), Ok(()))
    }
}

/// What dispatching one proof-of-existence call does to a claims map.
pub open spec fn spec_dispatch(
    m: Map<Seq<char>, Seq<char>>,
    caller: Seq<char>,
    call: Call,
) -> (Map<Seq<char>, Seq<char>>, DispatchResult) {
    match call {
        Call::CreateClaim { content } => spec_create_claim(m, caller, content@),
        Call::RevokeClaim { content } => spec_revoke_claim(m, caller, content@),
    }
}

/// Creating a claim on unclaimed content succeeds, and from then on creating
/// a claim on the same content fails with `ClaimAlreadyExists` for any
/// account whatsoever — the content still belongs to the first claimant.
pub proof fn lemma_create_claim_exclusive(
    m: Map<Seq<char>, Seq<char>>,
    owner: Seq<char>,
    other: Seq<char>,
    content: Seq<char>,
)
    requires
        !m.contains_key(content),
    ensures
        spec_create_claim(m, owner, content).1 == Ok::<(), DispatchError>(()),
        spec_create_claim(spec_create_claim(m, owner, content).0, other, content) == (
            spec_create_claim(m, owner, content).0,
            Err::<(), DispatchError>(DispatchError::ClaimAlreadyExists),
        ),
        spec_create_claim(m, owner, content).0[content] == owner,
{
}

/// Revoking a claim succeeds exactly when the caller is the recorded owner of
/// an active claim; after success the claim is gone, and after any failure
/// the map is untouched.
pub proof fn lemma_revoke_claim_iff_owner(
    m: Map<Seq<char>, Seq<char>>,
    caller: Seq<char>,
    content: Seq<char>,
)
    ensures
        spec_revoke_claim(m, caller, content).1 == Ok::<(), DispatchError>(()) <==> (
        m.contains_key(content) && m[content] == caller),
        spec_revoke_claim(m, caller, content).1 == Ok::<(), DispatchError>(())
            ==> !spec_revoke_claim(m, caller, content).0.contains_key(content),
        spec_revoke_claim(m, caller, content).1 is Err ==> spec_revoke_claim(m, caller, content).0
            == m,
{
}

impl Pallet {
    /// The active claims as a mathematical map from content to its owner;
    /// content present in the map is exactly content with an active claim.
    pub closed spec fn claims(self) -> Map<Seq<char>, Seq<char>> {
        Map::new(
            |k: Seq<char>| self.claims@.contains_key(k),
            |k: Seq<char>| self.claims@[k]@,
        )
    }

    /// A fresh instance with no claims recorded.
    pub fn new() -> (p: Self)
        ensures
            p.claims() == Map::<Seq<char>, Seq<char>>::empty(),
    {
        let p = Pallet { claims: StorageMap::new() };
        proof {
            assert(p.claims() =~= Map::<Seq<char>, Seq<char>>::empty());
        }
        p
    }

    /// Get the owner (if any) of a claim.
    pub fn get_claim(&self, claim: &Content) -> (r: Option<&AccountId>)
        ensures
            match r {
                Some(owner) => self.claims().contains_key(claim@) && owner@ == self.claims()[claim@],
                None => !self.claims().contains_key(claim@),
            },
    {
        self.claims.get(claim)
    }

    /// Create a new claim on `claim` owned by `caller`; fails with
    /// `ClaimAlreadyExists`, changing nothing, if someone already claimed it.
    pub fn create_claim(&mut self, caller: AccountId, claim: Content) -> (r: DispatchResult)
        ensures
            (final(self).claims(), r) == spec_create_claim(old(self).claims(), caller@, claim@),
    {
        match self.claims.get(&claim) {
            Some(_) => Err(DispatchError::ClaimAlreadyExists),
            None => {
                self.claims.insert(claim, caller);
                proof {
                    assert(self.claims() =~= old(self).claims().insert(claim@, caller@));
                }
                Ok(())
            },
        }
    }

    /// Revoke the claim on `claim`; fails with `ClaimNotFound` if no claim is
    /// active, and with `NotClaimOwner` if `caller` does not own it, changing
    /// nothing in either case.
    pub fn revoke_claim(&mut self, caller: AccountId, claim: Content) -> (r: DispatchResult)
        ensures
            (final(self).claims(), r) == spec_revoke_claim(old(self).claims(), caller@, claim@),
    {
        let owner = match self.claims.get(&claim) {
            Some(owner) => owner,
            None => {
                return Err(DispatchError::ClaimNotFound);
            },
        };
        if !(*owner == caller) {
            return Err(DispatchError::NotClaimOwner);
        }
        self.claims.remove(&claim);
        proof {
            assert(self.claims() =~= old(self).claims().remove(claim@));
        }
        Ok(())
    }
}

/// A public enum which describes the calls this pallet exposes to the
/// dispatcher. The caller of each call is supplied by the dispatcher itself,
/// never by the extrinsic payload.
pub enum Call {
    CreateClaim { content: Content },
    RevokeClaim { content: Content },
}

impl Dispatch for Pallet {
    type Caller = AccountId;

    type Call = Call;

    /// Route a proof-of-existence call to the function it names, propagating
    /// the outcome unchanged.
    fn dispatch(&mut self, caller: Self::Caller, call: Self::Call) -> (r: DispatchResult)
        ensures
            (final(self).claims(), r) == spec_dispatch(old(self).claims(), caller@, call),
    {
        match call {
            Call::CreateClaim { content } => self.create_claim(caller, content),
            Call::RevokeClaim { content } => self.revoke_claim(caller, content),
        }
    }
}

} // verus!
