//! What holds of every session, whatever is bought, committed, drawn and
//! claimed: stated once over the transitions and proved.

use vstd::prelude::*;
use crate::error::{ErrorCode, ErrorKind};
use crate::instructions::buy_ticket::purchase;
use crate::instructions::choose_winner::{revealed_number, settle, winning_ticket};
use crate::instructions::claim_prize::{claim, TicketView, TokenHolding};
use crate::instructions::commit_winner::commit;
use crate::encoding::little_endian;
use crate::oracle::RandomnessSnapshot;
use crate::state::{Identity, TokenLottery};

verus! {

/// The session after one purchase at each of `slots`, in order, if every one
/// of them is accepted; nothing as soon as one is refused.
pub open spec fn after_purchases(lottery: TokenLottery, slots: Seq<u64>) -> Option<TokenLottery>
    decreases slots.len(),
{
    if slots.len() == 0 {
        Some(lottery)
    } else {
        match after_purchases(lottery, slots.drop_last()) {
            Some(before) => match purchase(before, slots.last()) {
                Ok(next) => Some(next),
                Err(_) => None,
            },
            None => None,
        }
    }
}

/// The number given to the ticket of the purchase at position `i` of `slots`:
/// the count of tickets that the purchases before it have left.
pub open spec fn issued_number(lottery: TokenLottery, slots: Seq<u64>, i: int) -> u64 {
    after_purchases(lottery, slots.subrange(0, i))->0.ticket_num
}

/// A run of accepted purchases has only accepted purchases before each of its
/// positions.
pub proof fn lemma_accepted_purchases_have_accepted_prefixes(
    lottery: TokenLottery,
    slots: Seq<u64>,
    i: int,
)
    requires
        after_purchases(lottery, slots) is Some,
        0 <= i <= slots.len(),
    ensures
        after_purchases(lottery, slots.subrange(0, i)) is Some,
    decreases slots.len(),
{
    if i == slots.len() {
        assert(slots.subrange(0, i) =~= slots);
    } else {
        assert(slots.drop_last().subrange(0, i) =~= slots.subrange(0, i));
        lemma_accepted_purchases_have_accepted_prefixes(lottery, slots.drop_last(), i);
    }
}

/// Accepted purchases change the count of tickets and the pot, and nothing
/// else: each adds one ticket and one price.
pub proof fn lemma_purchases_add_up(lottery: TokenLottery, slots: Seq<u64>)
    requires
        after_purchases(lottery, slots) is Some,
    ensures
        after_purchases(lottery, slots)->0 == (TokenLottery {
            ticket_num: (lottery.ticket_num + slots.len()) as u64,
            lottery_pot_amount: (lottery.lottery_pot_amount + slots.len() * lottery.price) as u64,
            ..lottery
        }),
        lottery.ticket_num + slots.len() <= u64::MAX,
        lottery.lottery_pot_amount + slots.len() * lottery.price <= u64::MAX,
    decreases slots.len(),
{
    if slots.len() == 0 {
        assert(0 * lottery.price == 0) by (nonlinear_arith);
    } else {
        let shorter = slots.drop_last();
        lemma_purchases_add_up(lottery, shorter);
        let n = shorter.len() as int;
        let price = lottery.price as int;
        assert((n + 1) * price == n * price + price) by (nonlinear_arith);
    }
}

/// After `n` accepted purchases on a fresh session the count of tickets is
/// `n`, and the tickets issued carry the numbers `0` to `n - 1` in the order
/// of sale: each number below `n`, no number twice.
pub proof fn lemma_tickets_are_numbered_in_order(lottery: TokenLottery, slots: Seq<u64>)
    requires
        lottery.is_fresh(),
        after_purchases(lottery, slots) is Some,
    ensures
        after_purchases(lottery, slots)->0.ticket_num == slots.len(),
        forall|i: int|
            0 <= i < slots.len() ==> #[trigger] issued_number(lottery, slots, i) == i,
        forall|i: int|
            0 <= i < slots.len() ==> #[trigger] issued_number(lottery, slots, i) < slots.len(),
        forall|i: int, j: int|
            0 <= i < j < slots.len() ==> #[trigger] issued_number(lottery, slots, i)
                != #[trigger] issued_number(lottery, slots, j),
{
    lemma_purchases_add_up(lottery, slots);
    assert forall|i: int| 0 <= i < slots.len() implies #[trigger] issued_number(lottery, slots, i)
        == i by {
        lemma_accepted_purchases_have_accepted_prefixes(lottery, slots, i);
        lemma_purchases_add_up(lottery, slots.subrange(0, i));
    }
}

/// After `n` accepted purchases on a fresh session the pot holds `n` times
/// the price of a ticket.
pub proof fn lemma_pot_is_the_price_of_the_tickets(lottery: TokenLottery, slots: Seq<u64>)
    requires
        lottery.is_fresh(),
        after_purchases(lottery, slots) is Some,
    ensures
        after_purchases(lottery, slots)->0.lottery_pot_amount == slots.len() * lottery.price,
{
    lemma_purchases_add_up(lottery, slots);
}

/// An accepted claim pays the whole pot and leaves it empty; the same claim
/// made again is accepted again and pays nothing.
pub proof fn lemma_claim_pays_the_pot_once(
    lottery: TokenLottery,
    claimant: Identity,
    collection_mint: Identity,
    ticket: TicketView,
    holding: TokenHolding,
)
    requires
        claim(lottery, claimant, collection_mint, ticket, holding) is Ok,
    ensures
        ({
            let (paid, payout) = claim(lottery, claimant, collection_mint, ticket, holding)->Ok_0;
            &&& payout == lottery.lottery_pot_amount
            &&& paid.lottery_pot_amount == 0
            &&& claim(paid, claimant, collection_mint, ticket, holding) == Ok::<
                (TokenLottery, u64),
                ErrorCode,
            >((paid, 0u64))
        }),
{
}

/// The winner is determined by the revealed value and the count of tickets
/// alone: whenever a draw is accepted, the winner is the remainder, by the
/// count of tickets, of the number that the whole revealed value spells. So
/// two accepted draws on the same value and the same count agree.
pub proof fn lemma_draw_is_determined(
    lottery: TokenLottery,
    requester: Identity,
    reference: Identity,
    snapshot: RandomnessSnapshot,
    slot: u64,
)
    requires
        settle(lottery, requester, reference, Some(snapshot), slot) is Ok,
    ensures
        lottery.ticket_num > 0,
        winning_ticket(revealed_number(snapshot.value), lottery.ticket_num) is Ok,
        ({
            let drawn = settle(lottery, requester, reference, Some(snapshot), slot)->Ok_0;
            &&& drawn.winner_chosen
            &&& drawn.winner == little_endian(snapshot.value@) % (lottery.ticket_num as nat)
            &&& drawn.winner < lottery.ticket_num
            &&& drawn == (TokenLottery { winner: drawn.winner, winner_chosen: true, ..lottery })
        }),
{
}

/// A draw is accepted exactly when every check passes: the account presented
/// is the one bound, and one was bound; the requester is the authority; the
/// sale is over; no winner was drawn; the value was revealed at this slot; a
/// ticket was sold.
pub proof fn lemma_draw_is_accepted_when_due(
    lottery: TokenLottery,
    requester: Identity,
    reference: Identity,
    snapshot: RandomnessSnapshot,
    slot: u64,
)
    ensures
        settle(lottery, requester, reference, Some(snapshot), slot) is Ok <==> {
            &&& reference == lottery.randomness_account
            &&& !lottery.randomness_account.is_unset()
            &&& requester == lottery.authority
            &&& slot >= lottery.lottery_end
            &&& !lottery.winner_chosen
            &&& snapshot.reveal_slot == slot
            &&& lottery.ticket_num > 0
        },
{
}

/// Every ticket can win: among `ticket_count` tickets, ticket `number` is the
/// winner for the revealed number `number`, however many tickets there are.
pub proof fn lemma_every_ticket_can_win(ticket_count: u64, number: u64)
    requires
        number < ticket_count,
    ensures
        winning_ticket(number as nat, ticket_count) == Ok::<u64, ErrorCode>(number),
{
    assert((number as nat) % (ticket_count as nat) == number as nat) by (nonlinear_arith)
        requires
            number < ticket_count,
    ;
}

/// With no ticket sold no draw is accepted, whoever asks, whenever, and
/// whatever the oracle revealed.
pub proof fn lemma_no_winner_without_tickets(
    lottery: TokenLottery,
    requester: Identity,
    reference: Identity,
    parsed: Option<RandomnessSnapshot>,
    slot: u64,
)
    requires
        lottery.ticket_num == 0,
    ensures
        settle(lottery, requester, reference, parsed, slot) is Err,
        forall|revealed: nat| #[trigger] winning_ticket(revealed, 0) is Err,
{
}

/// Two accepted commitments in a row leave the session bound to the second
/// reference, exactly as if the first had never been made.
pub proof fn lemma_recommit_binds_to_the_latest(
    lottery: TokenLottery,
    requester: Identity,
    first: Identity,
    first_read: RandomnessSnapshot,
    first_slot: u64,
    second: Identity,
    second_read: RandomnessSnapshot,
    second_slot: u64,
)
    requires
        commit(lottery, requester, first, Some(first_read), first_slot) is Ok,
        commit(
            commit(lottery, requester, first, Some(first_read), first_slot)->Ok_0,
            requester,
            second,
            Some(second_read),
            second_slot,
        ) is Ok,
    ensures
        ({
            let once = commit(lottery, requester, first, Some(first_read), first_slot)->Ok_0;
            let twice = commit(once, requester, second, Some(second_read), second_slot)->Ok_0;
            &&& twice.randomness_account == second
            &&& twice == (TokenLottery { randomness_account: second, ..lottery })
            &&& commit(lottery, requester, second, Some(second_read), second_slot) == Ok::<
                TokenLottery,
                ErrorCode,
            >(twice)
        }),
{
}

/// Within the window and with room in both counters a purchase is accepted:
/// the count grows by one, the pot by the price, and nothing else changes.
pub proof fn lemma_purchase_is_accepted_with_room(lottery: TokenLottery, slot: u64)
    requires
        lottery.is_open_at(slot),
        lottery.has_room(),
    ensures
        purchase(lottery, slot) == Ok::<TokenLottery, ErrorCode>(
            TokenLottery {
                ticket_num: (lottery.ticket_num + 1) as u64,
                lottery_pot_amount: (lottery.lottery_pot_amount + lottery.price) as u64,
                ..lottery
            },
        ),
{
}

/// A purchase is accepted only within the window and with room in both
/// counters; a refused purchase is refused for the window first.
pub proof fn lemma_purchase_is_refused_otherwise(lottery: TokenLottery, slot: u64)
    requires
        !lottery.is_open_at(slot) || !lottery.has_room(),
    ensures
        purchase(lottery, slot) is Err,
        !lottery.is_open_at(slot) ==> purchase(lottery, slot)->Err_0 == ErrorCode::LotteryNotOpen,
        lottery.is_open_at(slot) ==> purchase(lottery, slot)->Err_0 == ErrorCode::CounterOverflow,
{
}

/// The sale window includes both its ends: on a session whose window is not
/// empty and whose counters have room for one more ticket, a purchase at the
/// first slot and one at the last slot are accepted.
pub proof fn lemma_window_includes_its_ends(lottery: TokenLottery)
    requires
        lottery.lottery_start <= lottery.lottery_end,
        lottery.has_room(),
    ensures
        purchase(lottery, lottery.lottery_start) is Ok,
        purchase(lottery, lottery.lottery_end) is Ok,
{
}

/// Outside the sale window every purchase is refused as a violation of
/// timing: one slot after the end, one slot before the start, and anywhere
/// beyond.
pub proof fn lemma_window_excludes_the_rest(lottery: TokenLottery, slot: u64)
    requires
        slot < lottery.lottery_start || slot > lottery.lottery_end,
    ensures
        purchase(lottery, slot) == Err::<TokenLottery, ErrorCode>(ErrorCode::LotteryNotOpen),
        ErrorCode::LotteryNotOpen.spec_kind() == ErrorKind::Timing,
{
}

} // verus!
