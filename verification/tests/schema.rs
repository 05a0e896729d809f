use budget::schema::m20220801_214627_create_transactions_table::{Migration, Transactions};
use budget::schema::m20220801_214650_create_transactiontags_table::{
    Migration as TagsMigration, TransactionTags,
};
use budget::schema::migrator::Migrator;
use budget::schema::tables::{ColumnKind, ForeignKeyAction};

#[test]
fn transactions_table() {
    let t = Migration.up();
    assert_eq!(t.name, "transactions");
    assert!(t.if_not_exists);
    let names: Vec<&str> = t.columns.iter().map(|c| c.name.as_str()).collect();
    assert_eq!(names, vec!["id", "date", "amount", "expense", "note", "user_id"]);
    assert!(t.columns[0].auto_increment && t.columns[0].primary_key);
    assert_eq!(t.columns[2].kind, ColumnKind::Decimal { precision: 14, scale: 4 });
    assert!(!t.columns[4].not_null);
    assert_eq!(t.foreign_keys.len(), 1);
    assert_eq!(t.foreign_keys[0].to_table, "users");
    assert_eq!(t.foreign_keys[0].on_delete, ForeignKeyAction::Cascade);
    assert_eq!(Migration.down(), "transactions");
    assert_eq!(Migration.name(), "m20220801_214627_create_transactions_table");
    assert_eq!(Transactions::UserId.name(), "user_id");
}

#[test]
fn transaction_tags_table() {
    let t = TagsMigration.up();
    assert_eq!(t.name, "transaction_tags");
    assert_eq!(t.primary_key, vec!["tag_id".to_string(), "transaction_id".to_string()]);
    assert_eq!(t.foreign_keys[1].to_table, "transactions");
    assert_eq!(TransactionTags::TransactionId.name(), "transaction_id");
    assert_eq!(TagsMigration.down(), "transaction_tags");
}

#[test]
fn migration_order() {
    assert_eq!(
        Migrator::migrations(),
        vec![
            "m20220801_214614_create_users_table",
            "m20220801_214627_create_transactions_table",
            "m20220801_214641_create_tags_table",
            "m20220801_214650_create_transactiontags_table",
        ]
    );
}

#[test]
fn tables_in_migration_order() {
    let names: Vec<String> = Migrator::tables().into_iter().map(|t| t.name).collect();
    assert_eq!(names, vec!["users", "transactions", "tags", "transaction_tags"]);
    let users = &Migrator::tables()[0];
    let columns: Vec<&str> = users.columns.iter().map(|c| c.name.as_str()).collect();
    assert_eq!(columns, vec!["id", "username", "password"]);
}
