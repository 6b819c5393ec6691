//! Names and tags that every session shares.

use vstd::prelude::*;

verus! {

/// The base of every ticket's display name, and the name of the collection.
pub const NAME: &'static str = "Token Lottery Ticket #";

/// The symbol of the collection and of every ticket.
pub const SYMBOL: &'static str = "TICKET";

/// The metadata location of the collection and of every ticket.
pub const URI: &'static str = "Token Lottery";

/// The tag from which the address of the session record is derived.
pub const TOKEN_LOTTERY_SEED: &'static str = "token_lottery";

/// The tag from which the address of the collection's mint is derived.
pub const COLLECTION_MINT_SEED: &'static str = "collection_mint";

/// The tag from which the address of the collection's token account is derived.
pub const COLLECTION_TOKEN_ACCOUNT_SEED: &'static str = "collection_token_account";

} // verus!
