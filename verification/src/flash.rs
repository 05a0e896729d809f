//! The one-off messages that the budget shows after a form is posted.

use vstd::prelude::*;

verus! {

/// What a posted form achieved.
#[derive(Clone, Copy, Debug, PartialEq, Eq)]
pub enum Outcome {
    TransactionAdded,
    TransactionUpdated,
    TransactionDeleted,
    UserVerified,
    UserSignedUp,
}

/// A message and its kind, kept for the next page shown.
#[derive(Debug)]
pub struct FlashData {
    pub kind: String,
    pub message: String,
}

/// The message for each outcome. Signing up reports an updated transaction.
pub open spec fn flash_message(outcome: Outcome) -> Seq<char> {
    match outcome {
        Outcome::TransactionAdded => "Transaction successfully added"@,
        Outcome::TransactionUpdated => "Transaction successfully updated"@,
        Outcome::TransactionDeleted => "Transaction successfully deleted"@,
        Outcome::UserVerified => "User successfully verified"@,
        Outcome::UserSignedUp => "Transaction successfully updated"@,
    }
}

/// The message shown after a form that achieved `outcome`: always of kind "success".
pub fn flash_for(outcome: Outcome) -> (flash: FlashData)
    ensures
        flash.kind@ == "success"@,
        flash.message@ == flash_message(outcome),
{
    let message = match outcome {
        Outcome::TransactionAdded => String::from_str("Transaction successfully added"),
        Outcome::TransactionUpdated => String::from_str("Transaction successfully updated"),
        Outcome::TransactionDeleted => String::from_str("Transaction successfully deleted"),
        Outcome::UserVerified => String::from_str("User successfully verified"),
        Outcome::UserSignedUp => String::from_str("Transaction successfully updated"),
    };
    FlashData { kind: String::from_str("success"), message }
}

} // verus!
