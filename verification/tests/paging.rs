use budget::ledger::Transaction;
use budget::paging::{num_pages, take_window, Params};

fn rows(n: i32) -> Vec<Transaction> {
    (0..n).map(|i| Transaction { id: i, date: i, amount: 1, expense: false, note: None, user_id: 1 }).collect()
}

#[test]
fn page_counts() {
    assert_eq!(num_pages(0, 10), 0);
    assert_eq!(num_pages(10, 10), 1);
    assert_eq!(num_pages(21, 10), 3);
    assert_eq!(num_pages(5, 1), 5);
}

#[test]
fn windows() {
    let ids: Vec<i32> = take_window(rows(25), 20, 10).iter().map(|t| t.id).collect();
    assert_eq!(ids, vec![20, 21, 22, 23, 24]);
    let ids: Vec<i32> = take_window(rows(25), 10, 10).iter().map(|t| t.id).collect();
    assert_eq!(ids, (10..20).collect::<Vec<i32>>());
    assert!(take_window(rows(25), 30, 10).is_empty());
}

#[test]
fn paging_defaults() {
    let none = Params { page: None, transactions_per_page: None };
    assert_eq!(none.page_or_default(), 1);
    assert_eq!(none.transactions_per_page_or_default(), 10);
    let some = Params { page: Some(3), transactions_per_page: Some(5) };
    assert_eq!(some.page_or_default(), 3);
    assert_eq!(some.transactions_per_page_or_default(), 5);
}
