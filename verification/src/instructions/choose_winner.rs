//! Drawing the winner from the revealed randomness.

use vstd::prelude::*;
use vstd::arithmetic::div_mod::{lemma_add_mod_noop_right, lemma_mul_mod_noop_right};
use crate::encoding::little_endian;
use crate::error::ErrorCode;
use crate::oracle::{decodes_to, read_randomness, RandomnessSnapshot};
use crate::state::{Identity, TokenLottery};

verus! {

/// What the draw works on.
#[derive(Debug)]
pub struct ChooseWinner {
    /// Who asks for the draw.
    pub payer: Identity,
    /// The session.
    pub token_lottery: TokenLottery,
    /// The address of the randomness account presented.
    pub randomness_account: Identity,
    /// The bytes of the randomness account presented.
    pub randomness_account_data: Vec<u8>,
}

/// The number that a revealed value stands for in the draw: the unsigned
/// integer that its thirty-two bytes spell, least significant byte first.
pub open spec fn revealed_number(value: [u8; 32]) -> nat {
    little_endian(value@)
}

/// The winning ticket for a revealed number among `ticket_count` tickets: the
/// remainder of the number by the count. With no ticket there is no winner.
pub open spec fn winning_ticket(revealed: nat, ticket_count: u64) -> Result<u64, ErrorCode> {
    if ticket_count == 0 {
        Err(ErrorCode::NoTicketsSold)
    } else {
        Ok((revealed % (ticket_count as nat)) as u64)
    }
}

/// The session after `requester` draws the winner at `slot` from the
/// randomness account `reference`, whose content was read as `parsed`; or why
/// no winner is drawn. The checks come in this order: the account is the one
/// the session was bound to, and one was bound; the requester is the
/// authority; the sale is over; no winner was drawn before; the account
/// could be read; its value was revealed at this very slot; a ticket was sold.
pub open spec fn settle(
    lottery: TokenLottery,
    requester: Identity,
    reference: Identity,
    parsed: Option<RandomnessSnapshot>,
    slot: u64,
) -> Result<TokenLottery, ErrorCode> {
    if reference != lottery.randomness_account || lottery.randomness_account.is_unset() {
        Err(ErrorCode::IncorrectRandomnessAccount)
    } else if requester != lottery.authority {
        Err(ErrorCode::NotAuthorized)
    } else if slot < lottery.lottery_end {
        Err(ErrorCode::LotteryNotCompleted)
    } else if lottery.winner_chosen {
        Err(ErrorCode::WinnerChosen)
    } else {
        match parsed {
            None => Err(ErrorCode::InvalidRandomnessAccount),
            Some(snapshot) => match snapshot.revealed_at(slot) {
                None => Err(ErrorCode::RandomnessNotResolved),
                Some(value) => match winning_ticket(revealed_number(value), lottery.ticket_num) {
                    Err(e) => Err(e),
                    Ok(winner) => Ok(TokenLottery { winner, winner_chosen: true, ..lottery }),
                },
            },
        }
    }
}

/// Whether the outcome `res` with the session left as `after` is what `settle`
/// prescribes: on success the session it gives, on failure its error and the
/// session untouched.
pub open spec fn settle_outcome(
    prescribed: Result<TokenLottery, ErrorCode>,
    before: TokenLottery,
    res: Result<(), ErrorCode>,
    after: TokenLottery,
) -> bool {
    match prescribed {
        Ok(next) => res is Ok && after == next,
        Err(e) => res == Err::<(), ErrorCode>(e) && after == before,
    }
}

/// Derives the winning ticket from a revealed number. Anyone who knows the
/// number and the count of tickets can recompute it.
pub fn select_winner(revealed: u64, ticket_count: u64) -> (res: Result<u64, ErrorCode>)
    ensures
        res == winning_ticket(revealed as nat, ticket_count),
        ticket_count == 0 <==> res is Err,
        res matches Ok(winner) ==> winner < ticket_count && winner == revealed % ticket_count,
{
    if ticket_count == 0 {
        Err(ErrorCode::NoTicketsSold)
    } else {
        Ok(revealed % ticket_count)
    }
}

/// Derives the winning ticket from a revealed value: the whole value, read as
/// one unsigned integer, is reduced by the count of tickets, so that every
/// ticket can win whatever their count.
pub fn draw_winner(value: &[u8; 32], ticket_count: u64) -> (res: Result<u64, ErrorCode>)
    ensures
        res == winning_ticket(revealed_number(*value), ticket_count),
        ticket_count == 0 <==> res is Err,
        res matches Ok(winner) ==> winner < ticket_count && winner == little_endian(value@) % (
        ticket_count as nat),
{
    if ticket_count == 0 {
        return Err(ErrorCode::NoTicketsSold);
    }
    let modulus: u128 = ticket_count as u128;
    let mut remainder: u64 = 0;
    let mut i: usize = 32;
    proof {
        assert(value@.subrange(32, 32) =~= Seq::<u8>::empty());
        assert(little_endian(value@.subrange(32, 32)) == 0);
    }
    // The bytes are taken from the most significant down: what is above
    // position `i` has been reduced, and each step brings in one byte below.
    while i > 0
        invariant
            i <= 32,
            ticket_count > 0,
            modulus == ticket_count,
            remainder < ticket_count,
            remainder == little_endian(value@.subrange(i as int, 32)) % (ticket_count as nat),
        decreases i,
    {
        i -= 1;
        let byte = value[i];
        let wide: u128 = remainder as u128 * 256 + byte as u128;
        proof {
            let lower = value@.subrange(i as int, 32);
            let upper = little_endian(value@.subrange(i + 1, 32)) as int;
            let n = ticket_count as int;
            assert(lower.drop_first() =~= value@.subrange(i + 1, 32));
            assert(lower[0] == byte);
            assert(little_endian(lower) == byte + 256 * upper);
            lemma_mul_mod_noop_right(256, upper, n);
            lemma_add_mod_noop_right(byte as int, 256 * (upper % n), n);
            lemma_add_mod_noop_right(byte as int, 256 * upper, n);
            assert((byte + 256 * (upper % n)) % n == (byte + 256 * upper) % n);
            assert(wide == byte + 256 * (upper % n));
        }
        remainder = (wide % modulus) as u64;
    }
    proof {
        assert(value@.subrange(0, 32) =~= value@);
    }
    Ok(remainder)
}

/// Draws the winner of `lottery`, given what was read of the randomness
/// account `reference`.
pub fn choose_winner(
    lottery: &mut TokenLottery,
    requester: &Identity,
    reference: &Identity,
    parsed: Option<RandomnessSnapshot>,
    slot: u64,
) -> (res: Result<(), ErrorCode>)
    ensures
        settle_outcome(
            settle(*old(lottery), *requester, *reference, parsed, slot),
            *old(lottery),
            res,
            *final(lottery),
        ),
        res is Ok ==> {
            &&& !old(lottery).winner_chosen
            &&& !old(lottery).randomness_account.is_unset()
            &&& final(lottery).winner_chosen
            &&& final(lottery).winner < final(lottery).ticket_num
        },
        old(lottery).advances_to(*final(lottery)),
        old(lottery).is_consistent() ==> final(lottery).is_consistent(),
{
    if *reference != lottery.randomness_account || lottery.randomness_account.unset() {
        return Err(ErrorCode::IncorrectRandomnessAccount);
    }
    if *requester != lottery.authority {
        return Err(ErrorCode::NotAuthorized);
    }
    if slot < lottery.lottery_end {
        return Err(ErrorCode::LotteryNotCompleted);
    }
    if lottery.winner_chosen {
        return Err(ErrorCode::WinnerChosen);
    }
    let snapshot = match parsed {
        Some(snapshot) => snapshot,
        None => {
            return Err(ErrorCode::InvalidRandomnessAccount);
        },
    };
    let value = match snapshot.get_value(slot) {
        Some(value) => value,
        None => {
            return Err(ErrorCode::RandomnessNotResolved);
        },
    };
    match draw_winner(&value, lottery.ticket_num) {
        Ok(winner) => {
            lottery.winner = winner;
            lottery.winner_chosen = true;
            Ok(())
        },
        Err(e) => Err(e),
    }
}

/// Draws the winner from the randomness account presented in `ctx`.
///
/// The account's bytes are read by the oracle's parser. If it refuses them the
/// draw fails; what it accepts is the account's content, and the outcome is
/// then the one `settle` prescribes for it. The four checks that come before
/// the reading are decided whatever the bytes are.
pub fn process_choose_a_winner(ctx: &mut ChooseWinner, slot: u64) -> (res: Result<(), ErrorCode>)
    ensures
        final(ctx).payer == old(ctx).payer,
        final(ctx).randomness_account == old(ctx).randomness_account,
        final(ctx).randomness_account_data == old(ctx).randomness_account_data,
        exists|parsed: Option<RandomnessSnapshot>|
            {
                &&& parsed matches Some(s) ==> decodes_to(old(ctx).randomness_account_data@, s)
                &&& #[trigger] settle_outcome(
                    settle(
                        old(ctx).token_lottery,
                        old(ctx).payer,
                        old(ctx).randomness_account,
                        parsed,
                        slot,
                    ),
                    old(ctx).token_lottery,
                    res,
                    final(ctx).token_lottery,
                )
            },
        res is Ok ==> {
            &&& !old(ctx).token_lottery.winner_chosen
            &&& !old(ctx).token_lottery.randomness_account.is_unset()
            &&& final(ctx).token_lottery.winner_chosen
            &&& final(ctx).token_lottery.winner < final(ctx).token_lottery.ticket_num
        },
        old(ctx).token_lottery.advances_to(final(ctx).token_lottery),
        old(ctx).token_lottery.is_consistent() ==> final(ctx).token_lottery.is_consistent(),
{
    let parsed = read_randomness(ctx.randomness_account_data.as_slice());
    let res = choose_winner(
        &mut ctx.token_lottery,
        &ctx.payer,
        &ctx.randomness_account,
        parsed,
        slot,
    );
    proof {
        assert(settle_outcome(
            settle(
                old(ctx).token_lottery,
                old(ctx).payer,
                old(ctx).randomness_account,
                parsed,
                slot,
            ),
            old(ctx).token_lottery,
            res,
            ctx.token_lottery,
        ));
    }
    res
}

} // verus!
