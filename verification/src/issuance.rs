//! Requests to the service that issues tokens. The lottery decides what is to
//! be issued; issuing it is the caller's part.

use vstd::prelude::*;
use crate::state::Identity;

verus! {

/// A party named as creator of a token.
#[derive(Clone, Copy, Debug)]
pub struct Creator {
    pub address: Identity,
    pub verified: bool,
    pub share: u8,
}

/// How a freshly issued token is attested.
#[derive(Clone, Copy, Debug, PartialEq, Eq, Structural)]
pub enum Attestation {
    /// The creator named in the token signs its metadata.
    CreatorSignature,
    /// The token is set and verified as an item of the lottery's collection.
    CollectionMembership,
}

/// One token to be issued: how much of it, how it is described, and how it is
/// attested afterwards.
#[derive(Debug)]
pub struct MintRequest {
    /// The mint of the collection, which signs for every token of the lottery.
    pub authority: Identity,
    /// The bump of the authority's address.
    pub authority_bump: u8,
    /// How many units to mint.
    pub amount: u64,
    pub name: String,
    pub symbol: String,
    pub uri: String,
    pub seller_fee_basis_points: u16,
    pub creators: Option<Vec<Creator>>,
    pub is_mutable: bool,
    pub update_authority_is_signer: bool,
    /// For a collection, the size it starts with; for an item, nothing.
    pub collection_size: Option<u64>,
    /// The cap on further editions of the token.
    pub max_supply: Option<u64>,
    pub attestation: Attestation,
}

/// A `MintRequest` with its texts and lists as sequences.
pub ghost struct MintRequestView {
    pub authority: Identity,
    pub authority_bump: u8,
    pub amount: u64,
    pub name: Seq<char>,
    pub symbol: Seq<char>,
    pub uri: Seq<char>,
    pub seller_fee_basis_points: u16,
    pub creators: Option<Seq<Creator>>,
    pub is_mutable: bool,
    pub update_authority_is_signer: bool,
    pub collection_size: Option<u64>,
    pub max_supply: Option<u64>,
    pub attestation: Attestation,
}

impl View for MintRequest {
    type V = MintRequestView;

    open spec fn view(&self) -> MintRequestView {
        MintRequestView {
            authority: self.authority,
            authority_bump: self.authority_bump,
            amount: self.amount,
            name: self.name@,
            symbol: self.symbol@,
            uri: self.uri@,
            seller_fee_basis_points: self.seller_fee_basis_points,
            creators: match self.creators {
                Some(list) => Some(list@),
                None => None,
            },
            is_mutable: self.is_mutable,
            update_authority_is_signer: self.update_authority_is_signer,
            collection_size: self.collection_size,
            max_supply: self.max_supply,
            attestation: self.attestation,
        }
    }
}

} // verus!
