use vstd::prelude::*;

verus! {

/// The reason a state transition was refused.
///
/// Every failure the runtime can produce is one of these variants; pallet
/// operations return them through `DispatchResult` and never panic.
#[derive(Clone, Copy, Debug, PartialEq, Eq, Structural)]
pub enum DispatchError {
    /// A transfer asked for more than the sender holds.
    InsufficientFunds,
    /// A transfer would overflow the recipient's balance.
    Overflow,
    /// A claim was created on content that already has an owner.
    ClaimAlreadyExists,
    /// A claim was revoked on content that has no owner.
    ClaimNotFound,
    /// A claim was revoked by an account that does not own it.
    NotClaimOwner,
    /// A block header's number does not match the next expected block number.
    BlockNumberMismatch,
}

impl DispatchError {
    /// A human-readable description of the failure.
    pub fn message(&self) -> (r: &'static str)
        ensures
            r@ == match self {
                DispatchError::InsufficientFunds => "Not enough funds."@,
                DispatchError::Overflow => "Overflow"@,
                DispatchError::ClaimAlreadyExists => "Claim already exists"@,
                DispatchError::ClaimNotFound => "Claim does not exist"@,
                DispatchError::NotClaimOwner => "Caller is not the owner of the claim"@,
                DispatchError::BlockNumberMismatch => "Block number does not match current block number."@,
            },
    {
        match self {
            DispatchError::InsufficientFunds => "Not enough funds.",
            DispatchError::Overflow => "Overflow",
            DispatchError::ClaimAlreadyExists => "Claim already exists",
            DispatchError::ClaimNotFound => "Claim does not exist",
            DispatchError::NotClaimOwner => "Caller is not the owner of the claim",
            DispatchError::BlockNumberMismatch => "Block number does not match current block number.",
        }
    }
}

/// The result type for every state transition: success carries nothing,
/// failure carries the typed reason.
pub type DispatchResult = Result<(), DispatchError>;

/// The most primitive representation of a block: a header with metadata and
/// the ordered state transitions to execute.
pub struct Block<Header, Extrinsic> {
    pub header: Header,
    pub extrinsics: Vec<Extrinsic>,
}

/// A simplified block header carrying only the number the block claims to be.
pub struct Header<BlockNumber> {
    pub block_number: BlockNumber,
}

/// An external message: who is making the call, and which call they make.
pub struct Extrinsic<Caller, Call> {
    pub caller: Caller,
    pub call: Call,
}

/// The capability to route a (caller, call) pair to the state transition it
/// names. Every pallet implements it for its own call enumeration, and the
/// runtime implements it by forwarding to the pallet the call belongs to.
///
/// Each implementation states in its own `ensures` exactly how the state and
/// the result relate to the call; callers that know the concrete implementer
/// get that stronger contract.
pub trait Dispatch {
    /// The type used to identify the caller.
    type Caller;

    /// The state transition the caller asks for.
    type Call;

    /// Execute `call` on behalf of `caller`.
    fn dispatch(&mut self, caller: Self::Caller, call: Self::Call) -> DispatchResult;
}

} // verus!
