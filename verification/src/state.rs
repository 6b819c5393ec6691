//! The session record and the identities it names.

use vstd::prelude::*;

verus! {

/// The address of a party or of a record: thirty-two bytes, compared byte by
/// byte.
#[derive(Clone, Copy, Debug)]
pub struct Identity {
    pub bytes: [u8; 32],
}

impl Identity {
    /// Whether every byte is zero: the value a session holds where no
    /// randomness commitment has been bound yet.
    pub open spec fn is_unset(self) -> bool {
        forall|i: int| 0 <= i < 32 ==> self.bytes[i] == 0u8
    }

    /// The identity made of the given bytes.
    pub fn new(bytes: [u8; 32]) -> (id: Identity)
        ensures
            id.bytes == bytes,
    {
        Identity { bytes }
    }

    /// Tells whether this is the all-zero identity.
    pub fn unset(&self) -> (unset: bool)
        ensures
            unset == self.is_unset(),
    {
        let mut i: usize = 0;
        while i < 32
            invariant
                i <= 32,
                forall|j: int| 0 <= j < i ==> self.bytes[j] == 0u8,
            decreases 32 - i,
        {
            if self.bytes[i] != 0 {
                return false;
            }
            i += 1;
        }
        true
    }
}

impl Default for Identity {
    /// The all-zero identity.
    fn default() -> (id: Identity)
        ensures
            id.is_unset(),
    {
        Identity { bytes: [0u8; 32] }
    }
}

impl PartialEq for Identity {
    fn eq(&self, other: &Identity) -> (same: bool) {
        let mut i: usize = 0;
        while i < 32
            invariant
                i <= 32,
                forall|j: int| 0 <= j < i ==> self.bytes[j] == other.bytes[j],
            decreases 32 - i,
        {
            if self.bytes[i] != other.bytes[i] {
                return false;
            }
            i += 1;
        }
        assert(self.bytes =~= other.bytes);
        true
    }
}

impl vstd::std_specs::cmp::PartialEqSpecImpl for Identity {
    open spec fn obeys_eq_spec() -> bool {
        true
    }

    open spec fn eq_spec(&self, other: &Identity) -> bool {
        *self == *other
    }
}

impl Eq for Identity {

}

/// One run of the lottery, from its configuration to the payment of the prize.
#[derive(Clone, Copy, Debug)]
pub struct TokenLottery {
    /// The bump of the address this record is kept at.
    pub bump: u8,
    /// The number of the winning ticket; it means something only once
    /// `winner_chosen` is set.
    pub winner: u64,
    /// Whether the winner has been drawn.
    pub winner_chosen: bool,
    /// The first slot at which tickets are sold.
    pub lottery_start: u64,
    /// The last slot at which tickets are sold.
    pub lottery_end: u64,
    /// What the sold tickets have brought in and has not been paid out.
    pub lottery_pot_amount: u64,
    /// How many tickets have been sold; also the number of the next ticket.
    pub ticket_num: u64,
    /// The price of one ticket.
    pub price: u64,
    /// The randomness account the session is bound to, all zero until one is
    /// committed.
    pub randomness_account: Identity,
    /// Who may commit randomness and draw the winner.
    pub authority: Identity,
}

impl TokenLottery {
    /// What holds of every session that was configured and then changed only
    /// by the operations of this library: the pot never exceeds what the sold
    /// tickets cost, and a drawn winner is one of the sold tickets.
    pub open spec fn is_consistent(self) -> bool {
        &&& self.lottery_pot_amount <= self.ticket_num * self.price
        &&& self.winner_chosen ==> self.winner < self.ticket_num
    }

    /// Whether no ticket has been sold and no winner drawn yet, as right after
    /// configuration.
    pub open spec fn is_fresh(self) -> bool {
        &&& self.ticket_num == 0
        &&& self.lottery_pot_amount == 0
        &&& !self.winner_chosen
    }

    /// How a session may differ from an earlier state of itself: the terms of
    /// the sale stay, the ticket count does not fall, and a drawn winner
    /// stays drawn and stays the same.
    pub open spec fn advances_to(self, later: TokenLottery) -> bool {
        &&& later.bump == self.bump
        &&& later.lottery_start == self.lottery_start
        &&& later.lottery_end == self.lottery_end
        &&& later.price == self.price
        &&& later.authority == self.authority
        &&& later.ticket_num >= self.ticket_num
        &&& self.winner_chosen ==> later.winner_chosen && later.winner == self.winner
    }

    /// Whether tickets are sold at `slot`: the window includes both its ends.
    pub open spec fn is_open_at(self, slot: u64) -> bool {
        self.lottery_start <= slot <= self.lottery_end
    }

    /// Whether the counters can take one more ticket: the pot can hold one
    /// more price and the count of tickets one more ticket.
    pub open spec fn has_room(self) -> bool {
        &&& self.lottery_pot_amount + self.price <= u64::MAX
        &&& self.ticket_num < u64::MAX
    }
}

impl PartialEq for TokenLottery {
    fn eq(&self, other: &TokenLottery) -> (same: bool) {
        self.bump == other.bump && self.winner == other.winner && self.winner_chosen
            == other.winner_chosen && self.lottery_start == other.lottery_start
            && self.lottery_end == other.lottery_end && self.lottery_pot_amount
            == other.lottery_pot_amount && self.ticket_num == other.ticket_num && self.price
            == other.price && self.randomness_account == other.randomness_account
            && self.authority == other.authority
    }
}

impl vstd::std_specs::cmp::PartialEqSpecImpl for TokenLottery {
    open spec fn obeys_eq_spec() -> bool {
        true
    }

    open spec fn eq_spec(&self, other: &TokenLottery) -> bool {
        *self == *other
    }
}

impl Eq for TokenLottery {

}

} // verus!
