//! Failures of the lottery's operations, and the class each one belongs to.

use vstd::prelude::*;

verus! {

/// Why an operation on the lottery was refused. A refused operation leaves the
/// session exactly as it found it.
#[derive(Clone, Copy, Debug, PartialEq, Eq, Structural)]
pub enum ErrorCode {
    /// A ticket was asked for outside the sale window.
    LotteryNotOpen,
    /// The caller is not the authority recorded at configuration.
    NotAuthorized,
    /// The randomness commitment was not registered one slot before its use.
    RandomnessAlreadyRevealed,
    /// The randomness account presented is not the one the session is bound to.
    IncorrectRandomnessAccount,
    /// Settlement was asked for before the sale window closed.
    LotteryNotCompleted,
    /// A winner has already been drawn.
    WinnerChosen,
    /// The oracle has not revealed a value for the current slot.
    RandomnessNotResolved,
    /// The prize was claimed before a winner was drawn.
    WinnerNotChosen,
    /// The ticket is not attested as a member of a collection.
    NotVerifiedTicket,
    /// The ticket is not the winning ticket of this lottery.
    IncorrectTicket,
    /// The claimant holds no unit of the presented ticket.
    NotTicketHolder,
    /// The bytes presented as a randomness account are not one.
    InvalidRandomnessAccount,
    /// A winner was asked for although no ticket was sold.
    NoTicketsSold,
    /// A counter of the session cannot grow any further.
    CounterOverflow,
    /// Configuration was asked for although the session exists.
    AlreadyInitialized,
}

/// The four classes of failure.
#[derive(Clone, Copy, Debug, PartialEq, Eq, Structural)]
pub enum ErrorKind {
    /// The operation came too early or too late; it may succeed at another slot.
    Timing,
    /// The caller lacks the right to do this.
    Authorization,
    /// The session is not in a state that admits the operation.
    State,
    /// What was presented is not what it claims to be.
    Integrity,
}

impl ErrorCode {
    /// The class of each failure.
    pub open spec fn spec_kind(self) -> ErrorKind {
        match self {
            ErrorCode::LotteryNotOpen => ErrorKind::Timing,
            ErrorCode::LotteryNotCompleted => ErrorKind::Timing,
            ErrorCode::RandomnessAlreadyRevealed => ErrorKind::Timing,
            ErrorCode::NotAuthorized => ErrorKind::Authorization,
            ErrorCode::NotTicketHolder => ErrorKind::Authorization,
            ErrorCode::WinnerChosen => ErrorKind::State,
            ErrorCode::WinnerNotChosen => ErrorKind::State,
            ErrorCode::RandomnessNotResolved => ErrorKind::State,
            ErrorCode::IncorrectRandomnessAccount => ErrorKind::State,
            ErrorCode::CounterOverflow => ErrorKind::State,
            ErrorCode::AlreadyInitialized => ErrorKind::State,
            ErrorCode::NotVerifiedTicket => ErrorKind::Integrity,
            ErrorCode::IncorrectTicket => ErrorKind::Integrity,
            ErrorCode::InvalidRandomnessAccount => ErrorKind::Integrity,
            ErrorCode::NoTicketsSold => ErrorKind::Integrity,
        }
    }

    /// The text shown for each failure.
    pub open spec fn spec_message(self) -> Seq<char> {
        match self {
            ErrorCode::LotteryNotOpen => "Lottery is not open"@,
            ErrorCode::NotAuthorized => "Not authorized"@,
            ErrorCode::RandomnessAlreadyRevealed => "Randomness already revealed"@,
            ErrorCode::IncorrectRandomnessAccount => "Incorrect randomness account"@,
            ErrorCode::LotteryNotCompleted => "Lottery not completed"@,
            ErrorCode::WinnerChosen => "Winner already chosen"@,
            ErrorCode::RandomnessNotResolved => "Randomness not resolved"@,
            ErrorCode::WinnerNotChosen => "Winner not chosen"@,
            ErrorCode::NotVerifiedTicket => "Ticket is not verified"@,
            ErrorCode::IncorrectTicket => "Incorrect ticket"@,
            ErrorCode::NotTicketHolder => "Ticket is not held by the claimant"@,
            ErrorCode::InvalidRandomnessAccount => "Invalid randomness account"@,
            ErrorCode::NoTicketsSold => "No tickets sold"@,
            ErrorCode::CounterOverflow => "Counter overflow"@,
            ErrorCode::AlreadyInitialized => "Lottery already initialized"@,
        }
    }

    /// Classifies the failure.
    #[verifier::when_used_as_spec(spec_kind)]
    pub fn kind(self) -> (kind: ErrorKind)
        ensures
            kind == self.spec_kind(),
    {
        match self {
            ErrorCode::LotteryNotOpen
            | ErrorCode::LotteryNotCompleted
            | ErrorCode::RandomnessAlreadyRevealed => ErrorKind::Timing,
            ErrorCode::NotAuthorized | ErrorCode::NotTicketHolder => ErrorKind::Authorization,
            ErrorCode::WinnerChosen
            | ErrorCode::WinnerNotChosen
            | ErrorCode::RandomnessNotResolved
            | ErrorCode::IncorrectRandomnessAccount
            | ErrorCode::CounterOverflow
            | ErrorCode::AlreadyInitialized => ErrorKind::State,
            ErrorCode::NotVerifiedTicket
            | ErrorCode::IncorrectTicket
            | ErrorCode::InvalidRandomnessAccount
            | ErrorCode::NoTicketsSold => ErrorKind::Integrity,
        }
    }

    /// Renders the failure for a reader.
    pub fn message(self) -> (text: String)
        ensures
            text@ == self.spec_message(),
    {
        match self {
            ErrorCode::LotteryNotOpen => String::from_str("Lottery is not open"),
            ErrorCode::NotAuthorized => String::from_str("Not authorized"),
            ErrorCode::RandomnessAlreadyRevealed => String::from_str("Randomness already revealed"),
            ErrorCode::IncorrectRandomnessAccount => String::from_str(
                "Incorrect randomness account",
            ),
            ErrorCode::LotteryNotCompleted => String::from_str("Lottery not completed"),
            ErrorCode::WinnerChosen => String::from_str("Winner already chosen"),
            ErrorCode::RandomnessNotResolved => String::from_str("Randomness not resolved"),
            ErrorCode::WinnerNotChosen => String::from_str("Winner not chosen"),
            ErrorCode::NotVerifiedTicket => String::from_str("Ticket is not verified"),
            ErrorCode::IncorrectTicket => String::from_str("Incorrect ticket"),
            ErrorCode::NotTicketHolder => String::from_str("Ticket is not held by the claimant"),
            ErrorCode::InvalidRandomnessAccount => String::from_str("Invalid randomness account"),
            ErrorCode::NoTicketsSold => String::from_str("No tickets sold"),
            ErrorCode::CounterOverflow => String::from_str("Counter overflow"),
            ErrorCode::AlreadyInitialized => String::from_str("Lottery already initialized"),
        }
    }
}

} // verus!
