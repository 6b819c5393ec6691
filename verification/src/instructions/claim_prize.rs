//! Paying the pot to the holder of the winning ticket.

use vstd::prelude::*;
use crate::error::ErrorCode;
use crate::naming::{strip_nul, ticket_name, ticket_name_of, without_nul};
use crate::state::{Identity, TokenLottery};

verus! {

/// The collection that a ticket's metadata names, and whether the issuing
/// service attests the membership.
#[derive(Clone, Copy, Debug)]
pub struct Collection {
    pub verified: bool,
    pub key: Identity,
}

/// A ticket as its issuing service records it.
#[derive(Debug)]
pub struct Ticket {
    /// The number from which the ticket's address was derived.
    pub sequence_number: u64,
    /// The display name as stored, padding included.
    pub name: String,
    /// The collection the ticket claims to belong to, if any.
    pub collection: Option<Collection>,
}

/// A `Ticket` with its name as a sequence of characters.
pub ghost struct TicketView {
    pub sequence_number: u64,
    pub name: Seq<char>,
    pub collection: Option<Collection>,
}

impl View for Ticket {
    type V = TicketView;

    open spec fn view(&self) -> TicketView {
        TicketView {
            sequence_number: self.sequence_number,
            name: self.name@,
            collection: self.collection,
        }
    }
}

/// How many units of the presented ticket an account holds, and whose it is.
#[derive(Clone, Copy, Debug)]
pub struct TokenHolding {
    pub owner: Identity,
    pub amount: u64,
}

/// What a claim works on.
#[derive(Debug)]
pub struct ClaimPrize {
    /// Who claims, and would be paid.
    pub payer: Identity,
    /// The session.
    pub token_lottery: TokenLottery,
    /// The mint of the lottery's collection.
    pub collection_mint: Identity,
    /// The ticket presented.
    pub ticket: Ticket,
    /// The account in which the ticket is said to be held.
    pub destination: TokenHolding,
}

/// The session after `claimant` claims the prize with `ticket`, held as
/// `holding` says, together with the amount to pay out; or why nothing is
/// paid. The checks come in this order: a winner was drawn; the ticket is an
/// attested member of a collection; that collection is the lottery's; the
/// ticket has the winning number; its name, padding removed, is the name of
/// the winning ticket; the claimant holds at least one unit of it. The whole
/// pot is paid and the pot is emptied.
pub open spec fn claim(
    lottery: TokenLottery,
    claimant: Identity,
    collection_mint: Identity,
    ticket: TicketView,
    holding: TokenHolding,
) -> Result<(TokenLottery, u64), ErrorCode> {
    if !lottery.winner_chosen {
        Err(ErrorCode::WinnerNotChosen)
    } else if !(ticket.collection matches Some(c) && c.verified) {
        Err(ErrorCode::NotVerifiedTicket)
    } else if ticket.collection->0.key != collection_mint {
        Err(ErrorCode::IncorrectTicket)
    } else if ticket.sequence_number != lottery.winner {
        Err(ErrorCode::IncorrectTicket)
    } else if without_nul(ticket.name) != ticket_name_of(lottery.winner) {
        Err(ErrorCode::IncorrectTicket)
    } else if holding.owner != claimant || holding.amount == 0 {
        Err(ErrorCode::NotTicketHolder)
    } else {
        Ok((TokenLottery { lottery_pot_amount: 0, ..lottery }, lottery.lottery_pot_amount))
    }
}

/// Verifies the claim in `ctx` and, if it stands, empties the pot and returns
/// the amount that the caller has to move from the session's escrow to the
/// claimant. A refused claim changes nothing.
pub fn process_claim_prize(ctx: &mut ClaimPrize) -> (res: Result<u64, ErrorCode>)
    ensures
        match claim(
            old(ctx).token_lottery,
            old(ctx).payer,
            old(ctx).collection_mint,
            old(ctx).ticket@,
            old(ctx).destination,
        ) {
            Ok((next, payout)) => {
                &&& res == Ok::<u64, ErrorCode>(payout)
                &&& *final(ctx) == (ClaimPrize { token_lottery: next, ..*old(ctx) })
            },
            Err(e) => res == Err::<u64, ErrorCode>(e) && *final(ctx) == *old(ctx),
        },
        res matches Ok(payout) ==> {
            &&& payout == old(ctx).token_lottery.lottery_pot_amount
            &&& final(ctx).token_lottery.lottery_pot_amount == 0
        },
        old(ctx).token_lottery.advances_to(final(ctx).token_lottery),
        old(ctx).token_lottery.is_consistent() ==> final(ctx).token_lottery.is_consistent(),
{
    if !ctx.token_lottery.winner_chosen {
        return Err(ErrorCode::WinnerNotChosen);
    }
    let collection = match ctx.ticket.collection {
        Some(collection) => collection,
        None => {
            return Err(ErrorCode::NotVerifiedTicket);
        },
    };
    if !collection.verified {
        return Err(ErrorCode::NotVerifiedTicket);
    }
    if collection.key != ctx.collection_mint {
        return Err(ErrorCode::IncorrectTicket);
    }
    if ctx.ticket.sequence_number != ctx.token_lottery.winner {
        return Err(ErrorCode::IncorrectTicket);
    }
    let expected = ticket_name(ctx.token_lottery.winner);
    let stored = strip_nul(ctx.ticket.name.as_str());
    if stored != expected {
        return Err(ErrorCode::IncorrectTicket);
    }
    if ctx.destination.owner != ctx.payer || ctx.destination.amount == 0 {
        return Err(ErrorCode::NotTicketHolder);
    }
    let payout = ctx.token_lottery.lottery_pot_amount;
    ctx.token_lottery.lottery_pot_amount = 0;
    assert(0 <= ctx.token_lottery.ticket_num * ctx.token_lottery.price) by (nonlinear_arith);
    Ok(payout)
}

} // verus!
