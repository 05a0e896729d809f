use budget::flash::{flash_for, Outcome};

#[test]
fn flash_messages() {
    let cases = [
        (Outcome::TransactionAdded, "Transaction successfully added"),
        (Outcome::TransactionUpdated, "Transaction successfully updated"),
        (Outcome::TransactionDeleted, "Transaction successfully deleted"),
        (Outcome::UserVerified, "User successfully verified"),
        (Outcome::UserSignedUp, "Transaction successfully updated"),
    ];
    for (outcome, message) in cases {
        let f = flash_for(outcome);
        assert_eq!(f.kind, "success");
        assert_eq!(f.message, message);
    }
}
