//! A lottery settled by committed randomness: tickets are sold in a window of
//! slots, a random value is bound to the session before it is revealed, the
//! winning ticket is derived from that value, and the pot is paid to the holder
//! of the winning ticket.
//!
//! Every operation takes the session inside the context it works on, changes
//! it only if all its checks pass, and hands back what the caller has to carry
//! out: a payment, a token to issue, a payout.

use vstd::prelude::*;

pub mod constants;
pub mod encoding;
pub mod error;
pub mod instructions;
pub mod issuance;
pub mod laws;
pub mod naming;
pub mod oracle;
pub mod state;

use crate::error::ErrorCode;
use crate::instructions::admin::{
    collection_token, is_configured, process_initialize_config, process_initialize_lottery,
    InitializeConfig, InitializeLottery,
};
use crate::instructions::buy_ticket::{
    process_buy_ticket, purchase, ticket_order, BuyTicket, TicketOrder,
};
use crate::instructions::choose_winner::{
    process_choose_a_winner, settle, settle_outcome, ChooseWinner,
};
use crate::instructions::claim_prize::{claim, process_claim_prize, ClaimPrize};
use crate::instructions::commit_winner::{
    commit, commit_outcome, process_commit_a_winner, CommitWinner,
};
use crate::issuance::MintRequest;
use crate::oracle::{decodes_to, RandomnessSnapshot};

verus! {

/// Configures the session in `ctx`: see `process_initialize_config`.
pub fn initialize_config(ctx: &mut InitializeConfig, start: u64, end: u64, price: u64) -> (res:
    Result<(), ErrorCode>)
    ensures
        res is Ok <==> old(ctx).token_lottery is None,
        old(ctx).token_lottery is None ==> {
            &&& final(ctx).token_lottery matches Some(lottery)
            &&& is_configured(
                lottery,
                old(ctx).payer,
                old(ctx).token_lottery_bump,
                start,
                end,
                price,
            )
            &&& lottery.is_fresh()
            &&& lottery.is_consistent()
        },
        old(ctx).token_lottery is Some ==> {
            &&& res == Err::<(), ErrorCode>(ErrorCode::AlreadyInitialized)
            &&& *final(ctx) == *old(ctx)
        },
        final(ctx).payer == old(ctx).payer,
        final(ctx).token_lottery_bump == old(ctx).token_lottery_bump,
{
    process_initialize_config(ctx, start, end, price)
}

/// Describes the lottery's collection: see `process_initialize_lottery`.
pub fn initialize_lottery(ctx: &InitializeLottery) -> (res: Result<MintRequest, ErrorCode>)
    ensures
        res matches Ok(request) && request@ == collection_token(
            ctx.collection_mint,
            ctx.collection_mint_bump,
        ),
{
    process_initialize_lottery(ctx)
}

/// Sells one ticket at `slot`: see `process_buy_ticket`.
pub fn buy_ticket(ctx: &mut BuyTicket, slot: u64) -> (res: Result<TicketOrder, ErrorCode>)
    ensures
        match purchase(old(ctx).token_lottery, slot) {
            Ok(next) => {
                &&& res matches Ok(order)
                &&& order@ == ticket_order(*old(ctx))
                &&& *final(ctx) == (BuyTicket { token_lottery: next, ..*old(ctx) })
            },
            Err(e) => res matches Err(err) && err == e && *final(ctx) == *old(ctx),
        },
        res is Ok <==> old(ctx).token_lottery.is_open_at(slot) && old(ctx).token_lottery.has_room(),
        res matches Ok(order) ==> {
            &&& order.sequence_number == old(ctx).token_lottery.ticket_num
            &&& order.payment == old(ctx).token_lottery.price
            &&& final(ctx).token_lottery.ticket_num == old(ctx).token_lottery.ticket_num + 1
            &&& final(ctx).token_lottery.lottery_pot_amount == old(
                ctx,
            ).token_lottery.lottery_pot_amount + old(ctx).token_lottery.price
        },
        old(ctx).token_lottery.advances_to(final(ctx).token_lottery),
        old(ctx).token_lottery.is_consistent() ==> final(ctx).token_lottery.is_consistent(),
{
    process_buy_ticket(ctx, slot)
}

/// Binds the session to the randomness account presented: see
/// `process_commit_a_winner`.
pub fn commit_a_winner(ctx: &mut CommitWinner, slot: u64) -> (res: Result<(), ErrorCode>)
    ensures
        final(ctx).payer == old(ctx).payer,
        final(ctx).randomness_account == old(ctx).randomness_account,
        final(ctx).randomness_account_data == old(ctx).randomness_account_data,
        exists|parsed: Option<RandomnessSnapshot>|
            {
                &&& parsed matches Some(s) ==> decodes_to(old(ctx).randomness_account_data@, s)
                &&& #[trigger] commit_outcome(
                    commit(
                        old(ctx).token_lottery,
                        old(ctx).payer,
                        old(ctx).randomness_account,
                        parsed,
                        slot,
                    ),
                    old(ctx).token_lottery,
                    res,
                    final(ctx).token_lottery,
                )
            },
        old(ctx).token_lottery.advances_to(final(ctx).token_lottery),
        old(ctx).token_lottery.is_consistent() ==> final(ctx).token_lottery.is_consistent(),
{
    process_commit_a_winner(ctx, slot)
}

/// Draws the winner from the randomness account presented: see
/// `process_choose_a_winner`.
pub fn choose_a_winner(ctx: &mut ChooseWinner, slot: u64) -> (res: Result<(), ErrorCode>)
    ensures
        final(ctx).payer == old(ctx).payer,
        final(ctx).randomness_account == old(ctx).randomness_account,
        final(ctx).randomness_account_data == old(ctx).randomness_account_data,
        exists|parsed: Option<RandomnessSnapshot>|
            {
                &&& parsed matches Some(s) ==> decodes_to(old(ctx).randomness_account_data@, s)
                &&& #[trigger] settle_outcome(
                    settle(
                        old(ctx).token_lottery,
                        old(ctx).payer,
                        old(ctx).randomness_account,
                        parsed,
                        slot,
                    ),
                    old(ctx).token_lottery,
                    res,
                    final(ctx).token_lottery,
                )
            },
        res is Ok ==> {
            &&& !old(ctx).token_lottery.winner_chosen
            &&& !old(ctx).token_lottery.randomness_account.is_unset()
            &&& final(ctx).token_lottery.winner_chosen
            &&& final(ctx).token_lottery.winner < final(ctx).token_lottery.ticket_num
        },
        old(ctx).token_lottery.advances_to(final(ctx).token_lottery),
        old(ctx).token_lottery.is_consistent() ==> final(ctx).token_lottery.is_consistent(),
{
    process_choose_a_winner(ctx, slot)
}

/// Pays the pot to the holder of the winning ticket: see
/// `process_claim_prize`.
pub fn claim_prize(ctx: &mut ClaimPrize) -> (res: Result<u64, ErrorCode>)
    ensures
        match claim(
            old(ctx).token_lottery,
            old(ctx).payer,
            old(ctx).collection_mint,
            old(ctx).ticket@,
            old(ctx).destination,
        ) {
            Ok((next, payout)) => {
                &&& res == Ok::<u64, ErrorCode>(payout)
                &&& *final(ctx) == (ClaimPrize { token_lottery: next, ..*old(ctx) })
            },
            Err(e) => res == Err::<u64, ErrorCode>(e) && *final(ctx) == *old(ctx),
        },
        old(ctx).token_lottery.advances_to(final(ctx).token_lottery),
        old(ctx).token_lottery.is_consistent() ==> final(ctx).token_lottery.is_consistent(),
{
    process_claim_prize(ctx)
}

} // verus!
