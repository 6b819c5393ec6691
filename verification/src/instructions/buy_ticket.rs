//! The sale of one ticket.

use vstd::prelude::*;
use crate::constants::{SYMBOL, URI};
use crate::error::ErrorCode;
use crate::issuance::{Attestation, MintRequest, MintRequestView};
use crate::naming::{ticket_name, ticket_name_of};
use crate::state::{Identity, TokenLottery};

verus! {

/// What a purchase works on.
#[derive(Clone, Copy, Debug)]
pub struct BuyTicket {
    /// Who buys, and pays.
    pub payer: Identity,
    /// The session.
    pub token_lottery: TokenLottery,
    /// The mint of the lottery's collection.
    pub collection_mint: Identity,
    /// The bump of the collection mint's address.
    pub collection_mint_bump: u8,
}

/// What the caller has to carry out for a purchase that was accepted: the
/// payment into the pot and the issue of the ticket.
#[derive(Debug)]
pub struct TicketOrder {
    /// Who pays, and receives the ticket.
    pub buyer: Identity,
    /// What the buyer pays into the pot.
    pub payment: u64,
    /// The number of the ticket, counted from zero in the order of sale.
    pub sequence_number: u64,
    /// The ticket to issue.
    pub token: MintRequest,
}

/// A `TicketOrder` with the view of its token.
pub ghost struct TicketOrderView {
    pub buyer: Identity,
    pub payment: u64,
    pub sequence_number: u64,
    pub token: MintRequestView,
}

impl View for TicketOrder {
    type V = TicketOrderView;

    open spec fn view(&self) -> TicketOrderView {
        TicketOrderView {
            buyer: self.buyer,
            payment: self.payment,
            sequence_number: self.sequence_number,
            token: self.token@,
        }
    }
}

/// The session after one more ticket is sold at `slot`, or why none is sold:
/// outside the window, ends included, none; and none where the pot or the
/// count of tickets could not hold one more.
pub open spec fn purchase(lottery: TokenLottery, slot: u64) -> Result<TokenLottery, ErrorCode> {
    if !lottery.is_open_at(slot) {
        Err(ErrorCode::LotteryNotOpen)
    } else if !lottery.has_room() {
        Err(ErrorCode::CounterOverflow)
    } else {
        Ok(
            TokenLottery {
                lottery_pot_amount: (lottery.lottery_pot_amount + lottery.price) as u64,
                ticket_num: (lottery.ticket_num + 1) as u64,
                ..lottery
            },
        )
    }
}

/// The ticket with the given number as a token of the collection: one unit,
/// named by its number, immutable in supply, attested as a member of the
/// collection.
pub open spec fn ticket_token(collection_mint: Identity, bump: u8, number: u64) -> MintRequestView {
    MintRequestView {
        authority: collection_mint,
        authority_bump: bump,
        amount: 1,
        name: ticket_name_of(number),
        symbol: SYMBOL@,
        uri: URI@,
        seller_fee_basis_points: 0,
        creators: None,
        is_mutable: true,
        update_authority_is_signer: true,
        collection_size: None,
        max_supply: Some(0u64),
        attestation: Attestation::CollectionMembership,
    }
}

/// The order that a purchase in context `ctx` gives rise to: the price is paid
/// and the ticket takes the number of tickets sold before it.
pub open spec fn ticket_order(ctx: BuyTicket) -> TicketOrderView {
    TicketOrderView {
        buyer: ctx.payer,
        payment: ctx.token_lottery.price,
        sequence_number: ctx.token_lottery.ticket_num,
        token: ticket_token(
            ctx.collection_mint,
            ctx.collection_mint_bump,
            ctx.token_lottery.ticket_num,
        ),
    }
}

/// Sells one ticket at `slot`.
///
/// Within the window the pot grows by the price, the count of tickets by one,
/// and the order returned names the payment and the ticket to issue, whose
/// number is the count before the sale. Otherwise the session stays as it was.
pub fn process_buy_ticket(ctx: &mut BuyTicket, slot: u64) -> (res: Result<TicketOrder, ErrorCode>)
    ensures
        match purchase(old(ctx).token_lottery, slot) {
            Ok(next) => {
                &&& res matches Ok(order)
                &&& order@ == ticket_order(*old(ctx))
                &&& *final(ctx) == (BuyTicket { token_lottery: next, ..*old(ctx) })
            },
            Err(e) => res matches Err(err) && err == e && *final(ctx) == *old(ctx),
        },
        res is Ok <==> old(ctx).token_lottery.is_open_at(slot) && old(ctx).token_lottery.has_room(),
        res matches Ok(order) ==> {
            &&& order.sequence_number == old(ctx).token_lottery.ticket_num
            &&& order.payment == old(ctx).token_lottery.price
            &&& final(ctx).token_lottery.ticket_num == old(ctx).token_lottery.ticket_num + 1
            &&& final(ctx).token_lottery.lottery_pot_amount == old(
                ctx,
            ).token_lottery.lottery_pot_amount + old(ctx).token_lottery.price
        },
        old(ctx).token_lottery.advances_to(final(ctx).token_lottery),
        old(ctx).token_lottery.is_consistent() ==> final(ctx).token_lottery.is_consistent(),
{
    if slot < ctx.token_lottery.lottery_start || slot > ctx.token_lottery.lottery_end {
        return Err(ErrorCode::LotteryNotOpen);
    }
    let price = ctx.token_lottery.price;
    let number = ctx.token_lottery.ticket_num;
    let pot = match ctx.token_lottery.lottery_pot_amount.checked_add(price) {
        Some(pot) => pot,
        None => {
            return Err(ErrorCode::CounterOverflow);
        },
    };
    if number == u64::MAX {
        return Err(ErrorCode::CounterOverflow);
    }
    let order = TicketOrder {
        buyer: ctx.payer,
        payment: price,
        sequence_number: number,
        token: MintRequest {
            authority: ctx.collection_mint,
            authority_bump: ctx.collection_mint_bump,
            amount: 1,
            name: ticket_name(number),
            symbol: String::from_str(SYMBOL),
            uri: String::from_str(URI),
            seller_fee_basis_points: 0,
            creators: None,
            is_mutable: true,
            update_authority_is_signer: true,
            collection_size: None,
            max_supply: Some(0),
            attestation: Attestation::CollectionMembership,
        },
    };
    ctx.token_lottery.lottery_pot_amount = pot;
    ctx.token_lottery.ticket_num = number + 1;
    proof {
        let before = old(ctx).token_lottery.lottery_pot_amount;
        if old(ctx).token_lottery.is_consistent() {
            assert(before + price <= (number + 1) * price) by (nonlinear_arith)
                requires
                    before <= number * price,
            ;
        }
    }
    Ok(order)
}

} // verus!
