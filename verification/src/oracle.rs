//! What the lottery reads of an oracle's randomness account: the slot of the
//! commitment, the slot of the reveal and the revealed value.

use vstd::prelude::*;
use crate::encoding::little_endian;
use std::cell::RefCell;
use switchboard_on_demand::OnDemandError;
use switchboard_on_demand::RandomnessAccountData;

verus! {

/// The oracle's failure type, carried through and never looked into.
#[verifier::external_type_specification]
#[verifier::external_body]
pub struct ExOnDemandError(OnDemandError);

/// The length of a randomness account: its tag and its record.
pub const RANDOMNESS_ACCOUNT_LEN: usize = 408;

/// The part of a randomness account that the lottery depends on.
#[derive(Clone, Copy, Debug)]
pub struct RandomnessSnapshot {
    /// The slot at which the commitment was registered.
    pub seed_slot: u64,
    /// The slot at which the value was revealed.
    pub reveal_slot: u64,
    /// The revealed value.
    pub value: [u8; 32],
}

/// The eight bytes that tag a randomness account.
pub open spec fn randomness_tag() -> Seq<u8> {
    seq![10u8, 66u8, 229u8, 135u8, 220u8, 239u8, 217u8, 114u8]
}

/// Whether `data` is long enough for a randomness account and carries its tag.
pub open spec fn has_randomness_layout(data: Seq<u8>) -> bool {
    &&& data.len() >= RANDOMNESS_ACCOUNT_LEN
    &&& data.subrange(0, 8) == randomness_tag()
}

/// Whether `snapshot` is what the randomness account `data` holds: the
/// commitment's slot at bytes 104 to 111, the reveal's slot at bytes 144 to
/// 151, the value at bytes 152 to 183.
pub open spec fn decodes_to(data: Seq<u8>, snapshot: RandomnessSnapshot) -> bool {
    &&& has_randomness_layout(data)
    &&& snapshot.seed_slot as nat == little_endian(data.subrange(104, 112))
    &&& snapshot.reveal_slot as nat == little_endian(data.subrange(144, 152))
    &&& snapshot.value@ == data.subrange(152, 184)
}

/// Calls `RandomnessAccountData::parse` of switchboard-on-demand on a copy of
/// `data` and copies the three fields out of what it returns.
///
/// Believed, not proved: the call succeeds only on data of at least 408 bytes
/// that starts with the account's tag, and the record it then returns is the
/// bytes behind the tag read in place, so each field is the bytes at its
/// offset. The two slots are kept with the least significant byte first and
/// are converted from that order here. Nothing is claimed of when the call
/// succeeds: it also fails where the copy is not aligned for the record.
#[verifier::external_body]
fn parse_randomness_account(data: &[u8]) -> (parsed: Result<RandomnessSnapshot, OnDemandError>)
    ensures
        parsed matches Ok(snapshot) ==> decodes_to(data@, snapshot),
{
    let mut copy = data.to_vec();
    let cell = RefCell::new(copy.as_mut_slice());
    let parsed = RandomnessAccountData::parse(cell.borrow());
    match parsed {
        Ok(account) => Ok(
            RandomnessSnapshot {
                seed_slot: u64::from_le(account.seed_slot),
                reveal_slot: u64::from_le(account.reveal_slot),
                value: account.value,
            },
        ),
        Err(failure) => Err(failure),
    }
}

/// Reads a randomness account. `None` means that the oracle's parser refused
/// the data; whatever it accepts has the account's layout and decodes to the
/// snapshot returned.
pub fn read_randomness(data: &[u8]) -> (snapshot: Option<RandomnessSnapshot>)
    ensures
        snapshot matches Some(s) ==> decodes_to(data@, s),
        !has_randomness_layout(data@) ==> snapshot is None,
{
    match parse_randomness_account(data) {
        Ok(s) => Some(s),
        Err(_) => None,
    }
}

impl RandomnessSnapshot {
    /// The value revealed for `slot`: the account's value if it was revealed at
    /// exactly that slot, nothing otherwise.
    pub open spec fn revealed_at(self, slot: u64) -> Option<[u8; 32]> {
        if slot == self.reveal_slot {
            Some(self.value)
        } else {
            None
        }
    }

    /// Whether the commitment was registered exactly one slot before `slot`.
    /// At slot zero no commitment is.
    pub open spec fn committed_just_before(self, slot: u64) -> bool {
        self.seed_slot + 1 == slot
    }

    /// The value, if it is the one revealed at `clock_slot`.
    pub fn get_value(&self, clock_slot: u64) -> (value: Option<[u8; 32]>)
        ensures
            value == self.revealed_at(clock_slot),
    {
        if clock_slot != self.reveal_slot {
            None
        } else {
            Some(self.value)
        }
    }

    /// Tells whether the commitment was registered one slot before `clock_slot`.
    pub fn is_fresh(&self, clock_slot: u64) -> (fresh: bool)
        ensures
            fresh == self.committed_just_before(clock_slot),
    {
        clock_slot > 0 && self.seed_slot == clock_slot - 1
    }
}

} // verus!
