//! The database schema of the budget, as its migrations create it: plain
//! descriptions of tables, columns and foreign keys, and the order of the migrations.

pub mod m20220801_214614_create_users_table;
pub mod m20220801_214627_create_transactions_table;
pub mod m20220801_214641_create_tags_table;
pub mod m20220801_214650_create_transactiontags_table;
pub mod tables;
pub mod migrator;
