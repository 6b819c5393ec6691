//! Binding the session to a randomness commitment.

use vstd::prelude::*;
use crate::error::ErrorCode;
use crate::oracle::{decodes_to, read_randomness, RandomnessSnapshot};
use crate::state::{Identity, TokenLottery};

verus! {

/// What a commitment works on.
#[derive(Debug)]
pub struct CommitWinner {
    /// Who asks for the commitment.
    pub payer: Identity,
    /// The session.
    pub token_lottery: TokenLottery,
    /// The address of the randomness account presented.
    pub randomness_account: Identity,
    /// The bytes of the randomness account presented.
    pub randomness_account_data: Vec<u8>,
}

/// The session after `requester` binds it to the randomness account
/// `reference`, whose content was read as `parsed`, at `slot`; or why it is
/// not bound. Only the authority may bind, and only to a commitment that was
/// registered exactly one slot earlier. A binding replaces the one before it.
pub open spec fn commit(
    lottery: TokenLottery,
    requester: Identity,
    reference: Identity,
    parsed: Option<RandomnessSnapshot>,
    slot: u64,
) -> Result<TokenLottery, ErrorCode> {
    if requester != lottery.authority {
        Err(ErrorCode::NotAuthorized)
    } else {
        match parsed {
            None => Err(ErrorCode::InvalidRandomnessAccount),
            Some(snapshot) => if !snapshot.committed_just_before(slot) {
                Err(ErrorCode::RandomnessAlreadyRevealed)
            } else {
                Ok(TokenLottery { randomness_account: reference, ..lottery })
            },
        }
    }
}

/// Whether the outcome `res` with the session left as `after` is what `commit`
/// prescribes: on success the session it gives, on failure its error and the
/// session untouched.
pub open spec fn commit_outcome(
    prescribed: Result<TokenLottery, ErrorCode>,
    before: TokenLottery,
    res: Result<(), ErrorCode>,
    after: TokenLottery,
) -> bool {
    match prescribed {
        Ok(next) => res is Ok && after == next,
        Err(e) => res == Err::<(), ErrorCode>(e) && after == before,
    }
}

/// Binds `lottery` to the randomness account `reference`, given what was read
/// of that account.
pub fn commit_randomness(
    lottery: &mut TokenLottery,
    requester: &Identity,
    reference: &Identity,
    parsed: Option<RandomnessSnapshot>,
    slot: u64,
) -> (res: Result<(), ErrorCode>)
    ensures
        commit_outcome(
            commit(*old(lottery), *requester, *reference, parsed, slot),
            *old(lottery),
            res,
            *final(lottery),
        ),
        old(lottery).advances_to(*final(lottery)),
        old(lottery).is_consistent() ==> final(lottery).is_consistent(),
{
    if *requester != lottery.authority {
        return Err(ErrorCode::NotAuthorized);
    }
    let snapshot = match parsed {
        Some(snapshot) => snapshot,
        None => {
            return Err(ErrorCode::InvalidRandomnessAccount);
        },
    };
    if !snapshot.is_fresh(slot) {
        return Err(ErrorCode::RandomnessAlreadyRevealed);
    }
    lottery.randomness_account = *reference;
    Ok(())
}

/// Binds the session to the randomness account presented in `ctx`.
///
/// The account's bytes are read by the oracle's parser. If it refuses them the
/// commitment fails; what it accepts is the account's content, and the outcome
/// is then the one `commit` prescribes for it. A caller who is not the
/// authority is refused whatever the bytes are.
pub fn process_commit_a_winner(ctx: &mut CommitWinner, slot: u64) -> (res: Result<(), ErrorCode>)
    ensures
        final(ctx).payer == old(ctx).payer,
        final(ctx).randomness_account == old(ctx).randomness_account,
        final(ctx).randomness_account_data == old(ctx).randomness_account_data,
        exists|parsed: Option<RandomnessSnapshot>|
            {
                &&& parsed matches Some(s) ==> decodes_to(old(ctx).randomness_account_data@, s)
                &&& #[trigger] commit_outcome(
                    commit(
                        old(ctx).token_lottery,
                        old(ctx).payer,
                        old(ctx).randomness_account,
                        parsed,
                        slot,
                    ),
                    old(ctx).token_lottery,
                    res,
                    final(ctx).token_lottery,
                )
            },
        old(ctx).token_lottery.advances_to(final(ctx).token_lottery),
        old(ctx).token_lottery.is_consistent() ==> final(ctx).token_lottery.is_consistent(),
{
    let parsed = read_randomness(ctx.randomness_account_data.as_slice());
    let res = commit_randomness(
        &mut ctx.token_lottery,
        &ctx.payer,
        &ctx.randomness_account,
        parsed,
        slot,
    );
    proof {
        assert(commit_outcome(
            commit(
                old(ctx).token_lottery,
                old(ctx).payer,
                old(ctx).randomness_account,
                parsed,
                slot,
            ),
            old(ctx).token_lottery,
            res,
            ctx.token_lottery,
        ));
    }
    res
}

} // verus!
