//! Descriptions of tables as a migration creates them.

use vstd::prelude::*;

verus! {

/// The type of a column.
#[derive(Clone, Copy, Debug, PartialEq, Eq)]
pub enum ColumnKind {
    Integer,
    Date,
    /// A decimal with `precision` digits, `scale` of them after the point.
    Decimal { precision: u32, scale: u32 },
    Boolean,
    String,
}

/// What a foreign key does to the referring rows.
#[derive(Clone, Copy, Debug, PartialEq, Eq)]
pub enum ForeignKeyAction {
    Cascade,
}

/// A column of a table.
#[derive(Debug)]
pub struct ColumnSpec {
    pub name: String,
    pub kind: ColumnKind,
    pub not_null: bool,
    pub auto_increment: bool,
    pub primary_key: bool,
}

/// A foreign key from a column of one table to a column of another.
#[derive(Debug)]
pub struct ForeignKeySpec {
    pub name: String,
    pub from_table: String,
    pub from_column: String,
    pub to_table: String,
    pub to_column: String,
    pub on_delete: ForeignKeyAction,
    pub on_update: ForeignKeyAction,
}

/// A table to create: its columns in order, its foreign keys, and the columns of a
/// primary key declared apart from the columns (empty where a column declares it).
#[derive(Debug)]
pub struct TableSpec {
    pub name: String,
    pub if_not_exists: bool,
    pub columns: Vec<ColumnSpec>,
    pub foreign_keys: Vec<ForeignKeySpec>,
    pub primary_key: Vec<String>,
}

/// `column` is named `name`, of `kind`, not null as `not_null` says, and neither
/// auto-incremented nor a primary key.
pub open spec fn is_plain_column(column: ColumnSpec, name: Seq<char>, kind: ColumnKind, not_null: bool) -> bool {
    &&& column.name@ == name
    &&& column.kind == kind
    &&& column.not_null == not_null
    &&& !column.auto_increment
    &&& !column.primary_key
}

/// `key`, named `name`, refers from `from_table.from_column` to `to_table.to_column`
/// and cascades deletes and updates.
pub open spec fn is_cascading_key(
    key: ForeignKeySpec,
    name: Seq<char>,
    from_table: Seq<char>,
    from_column: Seq<char>,
    to_table: Seq<char>,
    to_column: Seq<char>,
) -> bool {
    &&& key.name@ == name
    &&& key.from_table@ == from_table
    &&& key.from_column@ == from_column
    &&& key.to_table@ == to_table
    &&& key.to_column@ == to_column
    &&& key.on_delete == ForeignKeyAction::Cascade
    &&& key.on_update == ForeignKeyAction::Cascade
}

/// A plain column.
pub fn plain_column(name: &str, kind: ColumnKind, not_null: bool) -> (column: ColumnSpec)
    ensures
        is_plain_column(column, name@, kind, not_null),
{
    ColumnSpec {
        name: name.to_owned(),
        kind,
        not_null,
        auto_increment: false,
        primary_key: false,
    }
}

/// A foreign key that cascades deletes and updates.
pub fn cascading_key(
    name: &str,
    from_table: &str,
    from_column: &str,
    to_table: &str,
    to_column: &str,
) -> (key: ForeignKeySpec)
    ensures
        is_cascading_key(key, name@, from_table@, from_column@, to_table@, to_column@),
{
    ForeignKeySpec {
        name: name.to_owned(),
        from_table: from_table.to_owned(),
        from_column: from_column.to_owned(),
        to_table: to_table.to_owned(),
        to_column: to_column.to_owned(),
        on_delete: ForeignKeyAction::Cascade,
        on_update: ForeignKeyAction::Cascade,
    }
}

} // verus!
