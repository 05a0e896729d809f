use budget::ledger::Transaction;
use budget::order::sort_by_date;

fn row(id: i32, date: i32) -> Transaction {
    Transaction { id, date, amount: 1, expense: false, note: None, user_id: 1 }
}

#[test]
fn sorts_by_date_keeping_the_order_of_a_day() {
    let rows = vec![row(1, 30), row(2, 10), row(3, 20), row(4, 10), row(5, 30), row(6, 20)];
    let ids: Vec<i32> = sort_by_date(rows).iter().map(|t| t.id).collect();
    assert_eq!(ids, vec![2, 4, 3, 6, 1, 5]);
}

#[test]
fn sorting_sorted_or_empty_rows() {
    let ids: Vec<i32> = sort_by_date(vec![row(1, 1), row(2, 2)]).iter().map(|t| t.id).collect();
    assert_eq!(ids, vec![1, 2]);
    assert!(sort_by_date(Vec::new()).is_empty());
}
