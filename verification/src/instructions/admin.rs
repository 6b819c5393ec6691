//! Setting a lottery up: the session's terms, and the collection that its
//! tickets will belong to.

use vstd::prelude::*;
use crate::constants::{NAME, SYMBOL, URI};
use crate::error::ErrorCode;
use crate::issuance::{Attestation, Creator, MintRequest, MintRequestView};
use crate::state::{Identity, TokenLottery};

verus! {

/// What the configuration of a session works on.
#[derive(Clone, Copy, Debug)]
pub struct InitializeConfig {
    /// Who configures the session, and becomes its authority.
    pub payer: Identity,
    /// The session, if there is one already; configuration fills it in where
    /// there is none.
    pub token_lottery: Option<TokenLottery>,
    /// The bump of the record's address.
    pub token_lottery_bump: u8,
}

/// What the creation of the collection works on.
#[derive(Clone, Copy, Debug)]
pub struct InitializeLottery {
    /// Who pays for the collection's records.
    pub payer: Identity,
    /// The mint of the collection.
    pub collection_mint: Identity,
    /// The bump of the mint's address.
    pub collection_mint_bump: u8,
}

/// Whether `lottery` is a session as configuration leaves it: the terms as
/// given, `authority` in charge, no ticket sold, nothing in the pot, no
/// randomness bound, no winner. There is one such record for given terms.
pub open spec fn is_configured(
    lottery: TokenLottery,
    authority: Identity,
    bump: u8,
    start: u64,
    end: u64,
    price: u64,
) -> bool {
    &&& lottery.bump == bump
    &&& lottery.winner == 0
    &&& !lottery.winner_chosen
    &&& lottery.lottery_start == start
    &&& lottery.lottery_end == end
    &&& lottery.lottery_pot_amount == 0
    &&& lottery.ticket_num == 0
    &&& lottery.price == price
    &&& lottery.randomness_account.is_unset()
    &&& lottery.authority == authority
}

/// The collection as a token: one unit, under the shared name, created by its
/// own mint, an empty sized collection, attested by its creator's signature.
pub open spec fn collection_token(collection_mint: Identity, bump: u8) -> MintRequestView {
    MintRequestView {
        authority: collection_mint,
        authority_bump: bump,
        amount: 1,
        name: NAME@,
        symbol: SYMBOL@,
        uri: URI@,
        seller_fee_basis_points: 0,
        creators: Some(seq![Creator { address: collection_mint, verified: false, share: 100 }]),
        is_mutable: true,
        update_authority_is_signer: true,
        collection_size: Some(0u64),
        max_supply: Some(0u64),
        attestation: Attestation::CreatorSignature,
    }
}

/// Configures the session: tickets cost `price` and are sold from slot `start`
/// to slot `end`, both included; the caller becomes the authority.
///
/// A session is configured once. Where `ctx` holds one already the call is
/// refused and nothing changes: no counter, pot, winner or authority of an
/// existing session can be reset by configuring it again.
pub fn process_initialize_config(
    ctx: &mut InitializeConfig,
    start: u64,
    end: u64,
    price: u64,
) -> (res: Result<(), ErrorCode>)
    ensures
        res is Ok <==> old(ctx).token_lottery is None,
        old(ctx).token_lottery is None ==> {
            &&& final(ctx).token_lottery matches Some(lottery)
            &&& is_configured(
                lottery,
                old(ctx).payer,
                old(ctx).token_lottery_bump,
                start,
                end,
                price,
            )
            &&& lottery.is_fresh()
            &&& lottery.is_consistent()
        },
        old(ctx).token_lottery is Some ==> {
            &&& res == Err::<(), ErrorCode>(ErrorCode::AlreadyInitialized)
            &&& *final(ctx) == *old(ctx)
        },
        final(ctx).payer == old(ctx).payer,
        final(ctx).token_lottery_bump == old(ctx).token_lottery_bump,
{
    if ctx.token_lottery.is_some() {
        return Err(ErrorCode::AlreadyInitialized);
    }
    let lottery = TokenLottery {
        bump: ctx.token_lottery_bump,
        winner: 0,
        winner_chosen: false,
        lottery_start: start,
        lottery_end: end,
        lottery_pot_amount: 0,
        ticket_num: 0,
        price,
        randomness_account: Identity::default(),
        authority: ctx.payer,
    };
    assert(0 * price == 0) by (nonlinear_arith);
    ctx.token_lottery = Some(lottery);
    Ok(())
}

/// Describes the collection that the tickets of the lottery will belong to.
pub fn process_initialize_lottery(ctx: &InitializeLottery) -> (res: Result<MintRequest, ErrorCode>)
    ensures
        res matches Ok(request) && request@ == collection_token(
            ctx.collection_mint,
            ctx.collection_mint_bump,
        ),
{
    let mut creators: Vec<Creator> = Vec::new();
    creators.push(Creator { address: ctx.collection_mint, verified: false, share: 100 });
    let request = MintRequest {
        authority: ctx.collection_mint,
        authority_bump: ctx.collection_mint_bump,
        amount: 1,
        name: String::from_str(NAME),
        symbol: String::from_str(SYMBOL),
        uri: String::from_str(URI),
        seller_fee_basis_points: 0,
        creators: Some(creators),
        is_mutable: true,
        update_authority_is_signer: true,
        collection_size: Some(0),
        max_supply: Some(0),
        attestation: Attestation::CreatorSignature,
    };
    assert(request@.creators->0 =~= seq![
        Creator { address: ctx.collection_mint, verified: false, share: 100 },
    ]);
    Ok(request)
}

} // verus!
