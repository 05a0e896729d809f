//! The migration that creates the table linking transactions to tags.

use vstd::prelude::*;
use crate::schema::tables::{
    cascading_key, is_cascading_key, is_plain_column, plain_column, ColumnKind, ColumnSpec,
    TableSpec,
};

verus! {

/// The identifiers of the table linking transactions to tags and of its columns.
#[derive(Clone, Copy, Debug, PartialEq, Eq)]
pub enum TransactionTags {
    Table,
    TagId,
    TransactionId,
}

/// The name of each identifier.
pub open spec fn transaction_tags_name(iden: TransactionTags) -> Seq<char> {
    match iden {
        TransactionTags::Table => "transaction_tags"@,
        TransactionTags::TagId => "tag_id"@,
        TransactionTags::TransactionId => "transaction_id"@,
    }
}

impl TransactionTags {
    /// The name of the table or column in the database.
    pub fn name(&self) -> (name: &'static str)
        ensures
            name@ == transaction_tags_name(*self),
    {
        match self {
            TransactionTags::Table => "transaction_tags",
            TransactionTags::TagId => "tag_id",
            TransactionTags::TransactionId => "transaction_id",
        }
    }
}

/// The migration that creates the table linking transactions to tags.
#[derive(Clone, Copy, Debug, PartialEq, Eq)]
pub struct Migration;

/// The linking table: a tag id and a transaction id, both foreign keys that cascade,
/// which together form the primary key.
pub open spec fn is_transaction_tags_table(table: TableSpec) -> bool {
    &&& table.name@ == "transaction_tags"@
    &&& table.if_not_exists
    &&& table.columns@.len() == 2
    &&& is_plain_column(table.columns@[0], "tag_id"@, ColumnKind::Integer, true)
    &&& is_plain_column(table.columns@[1], "transaction_id"@, ColumnKind::Integer, true)
    &&& table.foreign_keys@.len() == 2
    &&& is_cascading_key(
        table.foreign_keys@[0],
        "tag_id"@,
        "transaction_tags"@,
        "tag_id"@,
        "tags"@,
        "id"@,
    )
    &&& is_cascading_key(
        table.foreign_keys@[1],
        "transaction_id"@,
        "transaction_tags"@,
        "transaction_id"@,
        "transactions"@,
        "id"@,
    )
    &&& table.primary_key@.len() == 2
    &&& table.primary_key@[0]@ == "tag_id"@
    &&& table.primary_key@[1]@ == "transaction_id"@
}

impl Migration {
    /// The name under which the migration is recorded.
    pub fn name(&self) -> (name: &'static str)
        ensures
            name@ == "m20220801_214650_create_transactiontags_table"@,
    {
        "m20220801_214650_create_transactiontags_table"
    }

    /// The table that the migration creates, if it does not exist yet.
    pub fn up(&self) -> (table: TableSpec)
        ensures
            is_transaction_tags_table(table),
    {
        let mut columns: Vec<ColumnSpec> = Vec::new();
        columns.push(plain_column(TransactionTags::TagId.name(), ColumnKind::Integer, true));
        columns.push(plain_column(TransactionTags::TransactionId.name(), ColumnKind::Integer, true));
        let mut foreign_keys = Vec::new();
        foreign_keys.push(
            cascading_key(
                "tag_id",
                TransactionTags::Table.name(),
                TransactionTags::TagId.name(),
                "tags",
                "id",
            ),
        );
        foreign_keys.push(
            cascading_key(
                "transaction_id",
                TransactionTags::Table.name(),
                TransactionTags::TransactionId.name(),
                "transactions",
                "id",
            ),
        );
        let mut primary_key: Vec<String> = Vec::new();
        primary_key.push(TransactionTags::TagId.name().to_owned());
        primary_key.push(TransactionTags::TransactionId.name().to_owned());
        TableSpec {
            name: TransactionTags::Table.name().to_owned(),
            if_not_exists: true,
            columns,
            foreign_keys,
            primary_key,
        }
    }

    /// The table that undoing the migration drops.
    pub fn down(&self) -> (table: &'static str)
        ensures
            table@ == "transaction_tags"@,
    {
        TransactionTags::Table.name()
    }
}

} // verus!
