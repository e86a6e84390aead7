use vstd::prelude::*;

verus! {

/// The identifier of an account.
pub type AccountId = String;

/// A non-negative quantity of funds.
pub type Balance = u128;

/// The counter of executed blocks.
pub type BlockNumber = u32;

/// The per-account counter of submitted extrinsics.
pub type Nonce = u32;

/// The data (or its hash) that a proof-of-existence claim is made on.
pub type Content = String;

/// An external message addressed to this runtime.
pub type Extrinsic = crate::support::Extrinsic<AccountId, crate::RuntimeCall>;

/// A block header for this runtime.
pub type Header = crate::support::Header<BlockNumber>;

/// A block of extrinsics for this runtime.
pub type Block = crate::support::Block<Header, Extrinsic>;

} // verus!
