//! A personal budget: transactions dated by day, the balance up to the next income,
//! the paged list of transactions, and password hashing for its users.

pub mod dates;
pub mod flash;
pub mod ledger;
pub mod money;
pub mod order;
pub mod paging;
pub mod passwords;
pub mod views;
pub mod schema;
