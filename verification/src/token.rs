use vstd::prelude::*;

verus! {

/// Identifier of a token record; assigned densely from 0 by `mint_rwa` and
/// never reused.
pub type TokenId = u64;

/// A principal identity: an opaque actor identifier (an account or contract
/// address on the host ledger), modeled as a 64-bit value. The registry only
/// ever compares identities for equality; an embedding maps real addresses to
/// these values one-for-one.
pub type Identity = u64;

/// The four logical slots of the registry's persistent state, as an embedding
/// lays them out in a durable key-value store: one admin slot, one counter
/// slot, and one metadata and one escrow slot per token id.
#[derive(Debug)]
pub enum DataKey {
    Admin,
    TokenCounter,
    TokenData(TokenId),
    EscrowBalance(TokenId),
}

/// Metadata of one tokenized real-world asset.
#[derive(Debug)]
pub struct Metadata {
    /// Opaque content reference (an IPFS hash) describing the asset.
    pub ipfs_hash: String,
    /// Current owner of the token.
    pub owner: Identity,
    /// Yield threshold: the minimum escrow value a trade must declare.
    pub yield_data: u128,
    /// False once the token has been burned; burning is terminal.
    pub is_active: bool,
}

/// Mathematical view of a `Metadata` record: the content reference as a
/// character sequence, the remaining fields as plain values.
pub struct MetadataView {
    pub ipfs_hash: Seq<char>,
    pub owner: Identity,
    pub yield_data: u128,
    pub is_active: bool,
}

impl View for Metadata {
    type V = MetadataView;

    open spec fn view(&self) -> MetadataView {
        MetadataView {
            ipfs_hash: self.ipfs_hash@,
            owner: self.owner,
            yield_data: self.yield_data,
            is_active: self.is_active,
        }
    }
}

impl Clone for Metadata {
    /// Cloning preserves the record's view exactly.
    fn clone(&self) -> (r: Self)
        ensures
            r@ == self@,
    {
        Metadata {
            ipfs_hash: self.ipfs_hash.clone(),
            owner: self.owner,
            yield_data: self.yield_data,
            is_active: self.is_active,
        }
    }
}

} // verus!
