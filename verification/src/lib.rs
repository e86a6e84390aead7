use vstd::prelude::*;

pub mod balances;
pub mod proof_of_existence;
pub mod storage;
pub mod support;
pub mod system;
pub mod types;

use crate::support::{Dispatch, DispatchError, DispatchResult};
use crate::types::{AccountId, Balance, BlockNumber, Nonce};

verus! {

/// All the calls which are exposed to the world: the union of the calls each
/// pallet exposes, tagged by the pallet they belong to.
pub enum RuntimeCall {
    Balances(balances::Call),
    ProofOfExistence(proof_of_existence::Call),
}

/// The main runtime, accumulating one instance of each pallet it uses.
#[derive(Debug)]
pub struct Runtime {
    pub system: system::Pallet,
    pub balances: balances::Pallet,
    pub proof_of_existence: proof_of_existence::Pallet,
}

/// The whole runtime state as mathematics: the block counter and one map per
/// pallet. Every contract of the runtime is stated over this value.
#[verifier::ext_equal]
pub struct StateView {
    pub block_number: BlockNumber,
    pub nonces: Map<Seq<char>, Nonce>,
    pub balances: Map<Seq<char>, Balance>,
    pub claims: Map<Seq<char>, Seq<char>>,
}

impl StateView {
    /// The nonce of an account, zero where none is recorded.
    pub open spec fn nonce(self, who: Seq<char>) -> Nonce {
        system::nonce_in(self.nonces, who)
    }

    /// The balance of an account, zero where none is recorded.
    pub open spec fn balance(self, who: Seq<char>) -> Balance {
        balances::balance_of(self.balances, who)
    }
}

impl View for Runtime {
    type V = StateView;

    open spec fn view(&self) -> StateView {
        StateView {
            block_number: self.system.spec_block_number(),
            nonces: self.system.nonces(),
            balances: self.balances.balances(),
            claims: self.proof_of_existence.claims(),
        }
    }
}

/// What dispatching one runtime call does to the state: the call is routed to
/// the pallet it belongs to, which changes only its own map; the result is
/// propagated verbatim.
pub open spec fn spec_dispatch(s: StateView, caller: Seq<char>, call: RuntimeCall) -> (
    StateView,
    DispatchResult,
) {
    match call {
        RuntimeCall::Balances(c) => {
            let (m, r) = balances::spec_dispatch(s.balances, caller, c);
            (StateView { balances: m, ..s }, r)
        },
        RuntimeCall::ProofOfExistence(c) => {
            let (m, r) = proof_of_existence::spec_dispatch(s.claims, caller, c);
            (StateView { claims: m, ..s }, r)
        },
    }
}

/// What executing one extrinsic does to the state: the caller's nonce grows
/// by one whatever happens next, then the call is dispatched and its outcome
/// — success or failure — is dropped.
pub open spec fn spec_apply_extrinsic(s: StateView, ext: types::Extrinsic) -> StateView {
    let bumped = StateView { nonces: system::spec_inc_nonce(s.nonces, ext.caller@), ..s };
    spec_dispatch(bumped, ext.caller@, ext.call).0
}

/// What executing a sequence of extrinsics does to the state, front to back.
pub open spec fn spec_apply_extrinsics(s: StateView, exts: Seq<types::Extrinsic>) -> StateView
    decreases exts.len(),
{
    if exts.len() == 0 {
        s
    } else {
        spec_apply_extrinsics(spec_apply_extrinsic(s, exts[0]), exts.drop_first())
    }
}

/// How many extrinsics of a sequence are submitted by `who`.
pub open spec fn occurrences(exts: Seq<types::Extrinsic>, who: Seq<char>) -> nat
    decreases exts.len(),
{
    if exts.len() == 0 {
        0
    } else {
        (if exts[0].caller@ == who {
            1nat
        } else {
            0nat
        }) + occurrences(exts.drop_first(), who)
    }
}

/// What executing a block does to the state: the block counter always
/// advances by one; a header that does not carry the advanced number aborts
/// the whole block before any extrinsic runs, and otherwise every extrinsic
/// is applied in order.
pub open spec fn spec_execute_block(s: StateView, block: types::Block) -> (
    StateView,
    DispatchResult,
) {
    let bumped = StateView { block_number: (s.block_number + 1) as BlockNumber, ..s };
    if block.header.block_number != s.block_number + 1 {
        (bumped, Err(DispatchError::BlockNumberMismatch))
    } else {
        (spec_apply_extrinsics(bumped, block.extrinsics@), Ok(()))
    }
}

/// Dispatch routes a call to exactly one of the balances and claims maps: no
/// call — succeeding or failing — ever changes the block number or any
/// account's nonce. A nonce written before a failed dispatch therefore
/// persists.
pub proof fn lemma_dispatch_preserves_system(s: StateView, caller: Seq<char>, call: RuntimeCall)
    ensures
        spec_dispatch(s, caller, call).0.nonces == s.nonces,
        spec_dispatch(s, caller, call).0.block_number == s.block_number,
{
}

/// A dispatch that fails changes nothing at all: every pallet operation
/// either fully applies or leaves the state untouched.
pub proof fn lemma_failed_dispatch_changes_nothing(
    s: StateView,
    caller: Seq<char>,
    call: RuntimeCall,
)
    ensures
        spec_dispatch(s, caller, call).1 is Err ==> spec_dispatch(s, caller, call).0 == s,
{
    if spec_dispatch(s, caller, call).1 is Err {
        assert(spec_dispatch(s, caller, call).0 =~= s);
    }
}

/// Executing a sequence of extrinsics increments an account's nonce once per
/// extrinsic it submitted — no more and no less, whether each dispatch
/// succeeded or failed — as long as the counter stays within its machine
/// bound.
pub proof fn lemma_extrinsics_bump_every_nonce(
    s: StateView,
    exts: Seq<types::Extrinsic>,
    who: Seq<char>,
)
    requires
        s.nonce(who) + occurrences(exts, who) <= Nonce::MAX,
    ensures
        spec_apply_extrinsics(s, exts).nonce(who) == s.nonce(who) + occurrences(exts, who),
    decreases exts.len(),
{
    if exts.len() > 0 {
        let caller = exts[0].caller@;
        let bumped = StateView { nonces: system::spec_inc_nonce(s.nonces, caller), ..s };
        lemma_dispatch_preserves_system(bumped, caller, exts[0].call);
        let s1 = spec_apply_extrinsic(s, exts[0]);
        assert(s1.nonces == bumped.nonces);
        if caller == who {
            assert(s1.nonce(who) == s.nonce(who) + 1);
        } else {
            assert(s1.nonce(who) == s.nonce(who));
        }
        lemma_extrinsics_bump_every_nonce(s1, exts.drop_first(), who);
    }
}

impl Runtime {
    /// A fresh runtime: every pallet starts empty and the block counter at
    /// zero.
    pub fn new() -> (r: Runtime)
        ensures
            r@.block_number == 0,
            r@.nonces == Map::<Seq<char>, Nonce>::empty(),
            r@.balances == Map::<Seq<char>, Balance>::empty(),
            r@.claims == Map::<Seq<char>, Seq<char>>::empty(),
    {
        Runtime {
            system: system::Pallet::new(),
            balances: balances::Pallet::new(),
            proof_of_existence: proof_of_existence::Pallet::new(),
        }
    }

    /// Execute a block of extrinsics. The block counter is incremented first;
    /// a header number that does not match it rejects the whole block with
    /// `BlockNumberMismatch` and nothing else happens. Otherwise each
    /// extrinsic in order has its caller's nonce incremented and its call
    /// dispatched; a failed dispatch never stops the ones after it, and the
    /// block as a whole reports success.
    pub fn execute_block(&mut self, block: types::Block) -> (r: DispatchResult)
        requires
            old(self)@.block_number < BlockNumber::MAX,
            block.header.block_number == old(self)@.block_number + 1 ==> forall|who: Seq<char>|
                old(self)@.nonce(who) + #[trigger] occurrences(block.extrinsics@, who)
                    <= Nonce::MAX,
        ensures
            final(self)@ == spec_execute_block(old(self)@, block).0,
            r == spec_execute_block(old(self)@, block).1,
    {
        self.system.inc_block_number();
        proof {
            assert(self@ =~= (StateView {
                block_number: (old(self)@.block_number + 1) as BlockNumber,
                ..old(self)@
            }));
        }
        if block.header.block_number != self.system.block_number() {
            return Err(DispatchError::BlockNumberMismatch);
        }
        let support::Block { header: _, extrinsics: mut extrinsics } = block;
        let ghost s_start = self@;
        let ghost goal = spec_apply_extrinsics(s_start, extrinsics@);
        while extrinsics.len() > 0
            invariant
                spec_apply_extrinsics(self@, extrinsics@) == goal,
                forall|who: Seq<char>|
                    self@.nonce(who) + #[trigger] occurrences(extrinsics@, who) <= Nonce::MAX,
            decreases extrinsics.len(),
        {
            let ghost s0 = self@;
            let ghost rem0 = extrinsics@;
            let ext = extrinsics.remove(0);
            let support::Extrinsic { caller, call } = ext;
            let ghost who = caller@;
            let ghost gcall = call;
            proof {
                assert(rem0.remove(0) =~= rem0.drop_first());
                assert(occurrences(rem0, who) == 1 + occurrences(rem0.drop_first(), who));
                assert(s0.nonce(who) + occurrences(rem0, who) <= Nonce::MAX);
            }
            self.system.inc_nonce(&caller);
            proof {
                assert(self@ =~= (StateView {
                    nonces: system::spec_inc_nonce(s0.nonces, who),
                    ..s0
                }));
            }
            let ghost s1 = self@;
            let _ = self.dispatch(caller, call);
            proof {
                assert(self@ == spec_apply_extrinsic(s0, rem0[0]));
                assert(spec_apply_extrinsics(self@, extrinsics@) == goal);
                lemma_dispatch_preserves_system(s1, who, gcall);
                assert forall|a: Seq<char>|
                    self@.nonce(a) + #[trigger] occurrences(extrinsics@, a)
                        <= Nonce::MAX by {
                    assert(occurrences(rem0, a) == (if rem0[0].caller@ == a {
                        1nat
                    } else {
                        0nat
                    }) + occurrences(extrinsics@, a));
                    assert(s0.nonce(a) + occurrences(rem0, a) <= Nonce::MAX);
                    if a == who {
                        assert(self@.nonce(a) == s0.nonce(a) + 1);
                    } else {
                        assert(self@.nonce(a) == s0.nonce(a));
                    }
                }
            }
        }
        Ok(())
    }
}

impl Dispatch for Runtime {
    type Caller = AccountId;

    type Call = RuntimeCall;

    /// Route a call to the pallet it belongs to, on behalf of `caller`,
    /// propagating success or failure verbatim.
    fn dispatch(&mut self, caller: Self::Caller, runtime_call: Self::Call) -> (r: DispatchResult)
        ensures
            final(self)@ == spec_dispatch(old(self)@, caller@, runtime_call).0,
            r == spec_dispatch(old(self)@, caller@, runtime_call).1,
    {
        match runtime_call {
            RuntimeCall::Balances(call) => {
                let r = self.balances.dispatch(caller, call);
                proof {
                    assert(self@ =~= spec_dispatch(old(self)@, caller@, runtime_call).0);
                }
                r
            },
            RuntimeCall::ProofOfExistence(call) => {
                let r = self.proof_of_existence.dispatch(caller, call);
                proof {
                    assert(self@ =~= spec_dispatch(old(self)@, caller@, runtime_call).0);
                }
                r
            },
        }
    }
}

} // verus!
