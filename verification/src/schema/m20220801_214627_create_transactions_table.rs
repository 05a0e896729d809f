//! The migration that creates the transactions table.

use vstd::prelude::*;
use crate::schema::tables::{
    cascading_key, is_cascading_key, is_plain_column, plain_column, ColumnKind, ColumnSpec,
    TableSpec,
};

verus! {

/// The identifiers of the transactions table and its columns.
#[derive(Clone, Copy, Debug, PartialEq, Eq)]
pub enum Transactions {
    Table,
    Id,
    Date,
    Amount,
    Expense,
    Note,
    UserId,
}

/// The name of each identifier.
pub open spec fn transactions_name(iden: Transactions) -> Seq<char> {
    match iden {
        Transactions::Table => "transactions"@,
        Transactions::Id => "id"@,
        Transactions::Date => "date"@,
        Transactions::Amount => "amount"@,
        Transactions::Expense => "expense"@,
        Transactions::Note => "note"@,
        Transactions::UserId => "user_id"@,
    }
}

impl Transactions {
    /// The name of the table or column in the database.
    pub fn name(&self) -> (name: &'static str)
        ensures
            name@ == transactions_name(*self),
    {
        match self {
            Transactions::Table => "transactions",
            Transactions::Id => "id",
            Transactions::Date => "date",
            Transactions::Amount => "amount",
            Transactions::Expense => "expense",
            Transactions::Note => "note",
            Transactions::UserId => "user_id",
        }
    }
}

/// The migration that creates the transactions table.
#[derive(Clone, Copy, Debug, PartialEq, Eq)]
pub struct Migration;

/// The transactions table: an auto-incremented integer id, a date, an amount of up to
/// fourteen digits with four after the point, whether it is an expense, an optional
/// note, and the id of its user, a foreign key to the users table that cascades.
pub open spec fn is_transactions_table(table: TableSpec) -> bool {
    &&& table.name@ == "transactions"@
    &&& table.if_not_exists
    &&& table.columns@.len() == 6
    &&& table.columns@[0].name@ == "id"@
    &&& table.columns@[0].kind == ColumnKind::Integer
    &&& table.columns@[0].not_null
    &&& table.columns@[0].auto_increment
    &&& table.columns@[0].primary_key
    &&& is_plain_column(table.columns@[1], "date"@, ColumnKind::Date, true)
    &&& is_plain_column(
        table.columns@[2],
        "amount"@,
        ColumnKind::Decimal { precision: 14, scale: 4 },
        true,
    )
    &&& is_plain_column(table.columns@[3], "expense"@, ColumnKind::Boolean, true)
    &&& is_plain_column(table.columns@[4], "note"@, ColumnKind::String, false)
    &&& is_plain_column(table.columns@[5], "user_id"@, ColumnKind::Integer, true)
    &&& table.foreign_keys@.len() == 1
    &&& is_cascading_key(
        table.foreign_keys@[0],
        "user_id"@,
        "transactions"@,
        "user_id"@,
        "users"@,
        "id"@,
    )
    &&& table.primary_key@.len() == 0
}

impl Migration {
    /// The name under which the migration is recorded.
    pub fn name(&self) -> (name: &'static str)
        ensures
            name@ == "m20220801_214627_create_transactions_table"@,
    {
        "m20220801_214627_create_transactions_table"
    }

    /// The table that the migration creates, if it does not exist yet.
    pub fn up(&self) -> (table: TableSpec)
        ensures
            is_transactions_table(table),
    {
        let mut columns: Vec<ColumnSpec> = Vec::new();
        columns.push(
            ColumnSpec {
                name: Transactions::Id.name().to_owned(),
                kind: ColumnKind::Integer,
                not_null: true,
                auto_increment: true,
                primary_key: true,
            },
        );
        columns.push(plain_column(Transactions::Date.name(), ColumnKind::Date, true));
        columns.push(
            plain_column(
                Transactions::Amount.name(),
                ColumnKind::Decimal { precision: 14, scale: 4 },
                true,
            ),
        );
        columns.push(plain_column(Transactions::Expense.name(), ColumnKind::Boolean, true));
        columns.push(plain_column(Transactions::Note.name(), ColumnKind::String, false));
        columns.push(plain_column(Transactions::UserId.name(), ColumnKind::Integer, true));
        let mut foreign_keys = Vec::new();
        foreign_keys.push(
            cascading_key(
                "user_id",
                Transactions::Table.name(),
                Transactions::UserId.name(),
                "users",
                "id",
            ),
        );
        TableSpec {
            name: Transactions::Table.name().to_owned(),
            if_not_exists: true,
            columns,
            foreign_keys,
            primary_key: Vec::new(),
        }
    }

    /// The table that undoing the migration drops.
    pub fn down(&self) -> (table: &'static str)
        ensures
            table@ == "transactions"@,
    {
        Transactions::Table.name()
    }
}

} // verus!
