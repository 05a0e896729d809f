//! The migrations of the budget's database, in the order they run.

use vstd::prelude::*;
use crate::schema::m20220801_214614_create_users_table as users;
use crate::schema::m20220801_214627_create_transactions_table as transactions;
use crate::schema::m20220801_214641_create_tags_table as tags;
use crate::schema::m20220801_214650_create_transactiontags_table as transaction_tags;
use crate::schema::tables::TableSpec;

verus! {

/// Runs the migrations of the budget's database.
#[derive(Clone, Copy, Debug, PartialEq, Eq)]
pub struct Migrator;

impl Migrator {
    /// The names of the migrations, in the order they run: users, transactions, tags,
    /// and the table linking transactions to tags.
    pub fn migrations() -> (names: Vec<&'static str>)
        ensures
            names@.len() == 4,
            names@[0]@ == "m20220801_214614_create_users_table"@,
            names@[1]@ == "m20220801_214627_create_transactions_table"@,
            names@[2]@ == "m20220801_214641_create_tags_table"@,
            names@[3]@ == "m20220801_214650_create_transactiontags_table"@,
    {
        let mut names: Vec<&'static str> = Vec::new();
        names.push(users::Migration.name());
        names.push(transactions::Migration.name());
        names.push(tags::Migration.name());
        names.push(transaction_tags::Migration.name());
        names
    }

    /// The tables the migrations create, in the order of `migrations`: every table a
    /// foreign key refers to comes before the table holding the key.
    pub fn tables() -> (tables: Vec<TableSpec>)
        ensures
            tables@.len() == 4,
            users::is_users_table(tables@[0]),
            transactions::is_transactions_table(tables@[1]),
            tags::is_tags_table(tables@[2]),
            transaction_tags::is_transaction_tags_table(tables@[3]),
    {
        let mut tables: Vec<TableSpec> = Vec::new();
        tables.push(users::Migration.up());
        tables.push(transactions::Migration.up());
        tables.push(tags::Migration.up());
        tables.push(transaction_tags::Migration.up());
        tables
    }
}

} // verus!
