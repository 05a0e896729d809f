//! The migration that creates the users table: the columns the sign-in and sign-up
//! pages read and write.

use vstd::prelude::*;
use crate::schema::tables::{is_plain_column, plain_column, ColumnKind, ColumnSpec, TableSpec};

verus! {

/// The identifiers of the users table and its columns.
#[derive(Clone, Copy, Debug, PartialEq, Eq)]
pub enum Users {
    Table,
    Id,
    Username,
    Password,
}

/// The name of each identifier.
pub open spec fn users_name(iden: Users) -> Seq<char> {
    match iden {
        Users::Table => "users"@,
        Users::Id => "id"@,
        Users::Username => "username"@,
        Users::Password => "password"@,
    }
}

impl Users {
    /// The name of the table or column in the database.
    pub fn name(&self) -> (name: &'static str)
        ensures
            name@ == users_name(*self),
    {
        match self {
            Users::Table => "users",
            Users::Id => "id",
            Users::Username => "username",
            Users::Password => "password",
        }
    }
}

/// The migration that creates the users table.
#[derive(Clone, Copy, Debug, PartialEq, Eq)]
pub struct Migration;

/// The users table: an auto-incremented integer id, a user name and a password hash.
pub open spec fn is_users_table(table: TableSpec) -> bool {
    &&& table.name@ == "users"@
    &&& table.if_not_exists
    &&& table.columns@.len() == 3
    &&& table.columns@[0].name@ == "id"@
    &&& table.columns@[0].kind == ColumnKind::Integer
    &&& table.columns@[0].not_null
    &&& table.columns@[0].auto_increment
    &&& table.columns@[0].primary_key
    &&& is_plain_column(table.columns@[1], "username"@, ColumnKind::String, true)
    &&& is_plain_column(table.columns@[2], "password"@, ColumnKind::String, true)
    &&& table.foreign_keys@.len() == 0
    &&& table.primary_key@.len() == 0
}

impl Migration {
    /// The name under which the migration is recorded.
    pub fn name(&self) -> (name: &'static str)
        ensures
            name@ == "m20220801_214614_create_users_table"@,
    {
        "m20220801_214614_create_users_table"
    }

    /// The table that the migration creates, if it does not exist yet.
    pub fn up(&self) -> (table: TableSpec)
        ensures
            is_users_table(table),
    {
        let mut columns: Vec<ColumnSpec> = Vec::new();
        columns.push(
            ColumnSpec {
                name: Users::Id.name().to_owned(),
                kind: ColumnKind::Integer,
                not_null: true,
                auto_increment: true,
                primary_key: true,
            },
        );
        columns.push(plain_column(Users::Username.name(), ColumnKind::String, true));
        columns.push(plain_column(Users::Password.name(), ColumnKind::String, true));
        TableSpec {
            name: Users::Table.name().to_owned(),
            if_not_exists: true,
            columns,
            foreign_keys: Vec::new(),
            primary_key: Vec::new(),
        }
    }

    /// The table that undoing the migration drops.
    pub fn down(&self) -> (table: &'static str)
        ensures
            table@ == "users"@,
    {
        Users::Table.name()
    }
}

} // verus!
