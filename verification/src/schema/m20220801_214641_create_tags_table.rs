//! The migration that creates the tags table: the id that transactions are linked to.

use vstd::prelude::*;
use crate::schema::tables::{ColumnKind, ColumnSpec, TableSpec};

verus! {

/// The identifiers of the tags table and its id column.
#[derive(Clone, Copy, Debug, PartialEq, Eq)]
pub enum Tags {
    Table,
    Id,
}

/// The name of each identifier.
pub open spec fn tags_name(iden: Tags) -> Seq<char> {
    match iden {
        Tags::Table => "tags"@,
        Tags::Id => "id"@,
    }
}

impl Tags {
    /// The name of the table or column in the database.
    pub fn name(&self) -> (name: &'static str)
        ensures
            name@ == tags_name(*self),
    {
        match self {
            Tags::Table => "tags",
            Tags::Id => "id",
        }
    }
}

/// The migration that creates the tags table.
#[derive(Clone, Copy, Debug, PartialEq, Eq)]
pub struct Migration;

/// The tags table: an auto-incremented integer id.
pub open spec fn is_tags_table(table: TableSpec) -> bool {
    &&& table.name@ == "tags"@
    &&& table.if_not_exists
    &&& table.columns@.len() == 1
    &&& table.columns@[0].name@ == "id"@
    &&& table.columns@[0].kind == ColumnKind::Integer
    &&& table.columns@[0].not_null
    &&& table.columns@[0].auto_increment
    &&& table.columns@[0].primary_key
    &&& table.foreign_keys@.len() == 0
    &&& table.primary_key@.len() == 0
}

impl Migration {
    /// The name under which the migration is recorded.
    pub fn name(&self) -> (name: &'static str)
        ensures
            name@ == "m20220801_214641_create_tags_table"@,
    {
        "m20220801_214641_create_tags_table"
    }

    /// The table that the migration creates, if it does not exist yet.
    pub fn up(&self) -> (table: TableSpec)
        ensures
            is_tags_table(table),
    {
        let mut columns: Vec<ColumnSpec> = Vec::new();
        columns.push(
            ColumnSpec {
                name: Tags::Id.name().to_owned(),
                kind: ColumnKind::Integer,
                not_null: true,
                auto_increment: true,
                primary_key: true,
            },
        );
        TableSpec {
            name: Tags::Table.name().to_owned(),
            if_not_exists: true,
            columns,
            foreign_keys: Vec::new(),
            primary_key: Vec::new(),
        }
    }

    /// The table that undoing the migration drops.
    pub fn down(&self) -> (table: &'static str)
        ensures
            table@ == "tags"@,
    {
        Tags::Table.name()
    }
}

} // verus!
