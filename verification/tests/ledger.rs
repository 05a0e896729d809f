use budget::ledger::{next_income_date, position_of_id, sum_amounts, Transaction};

fn row(id: i32, date: i32, amount: i64, expense: bool) -> Transaction {
    Transaction { id, date, amount, expense, note: None, user_id: 1 }
}

fn rows() -> Vec<Transaction> {
    vec![
        row(1, 100, 2_000_000, false),
        row(2, 101, 150_000, true),
        row(3, 105, 2_000_000, false),
        row(4, 102, 55_000, true),
        row(5, 105, 10_000, true),
        row(6, 104, 1_000_000, false),
    ]
}

#[test]
fn sums_before_a_day() {
    let r = rows();
    assert_eq!(sum_amounts(&r, 103, true), Some(205_000));
    assert_eq!(sum_amounts(&r, 103, false), Some(2_000_000));
    assert_eq!(sum_amounts(&r, 106, true), Some(215_000));
    assert_eq!(sum_amounts(&r, 106, false), Some(5_000_000));
}

#[test]
fn a_sum_of_nothing_is_absent() {
    let r = rows();
    assert_eq!(sum_amounts(&r, 101, true), None);
    assert_eq!(sum_amounts(&r, 100, false), None);
    assert_eq!(sum_amounts(&Vec::new(), 1000, false), None);
}

#[test]
fn adding_a_row_moves_the_balance_by_its_amount() {
    let mut r = rows();
    let before = sum_amounts(&r, 103, false).unwrap() - sum_amounts(&r, 103, true).unwrap();
    r.push(row(7, 102, 30_000, true));
    let after = sum_amounts(&r, 103, false).unwrap() - sum_amounts(&r, 103, true).unwrap();
    assert_eq!(after, before - 30_000);
    r.push(row(8, 103, 30_000, true));
    let later = sum_amounts(&r, 103, false).unwrap() - sum_amounts(&r, 103, true).unwrap();
    assert_eq!(later, after);
}

#[test]
fn next_income_is_the_earliest_after_today() {
    let r = rows();
    assert_eq!(next_income_date(&r, 100), Some(104));
    assert_eq!(next_income_date(&r, 99), Some(100));
    assert_eq!(next_income_date(&r, 104), Some(105));
    assert_eq!(next_income_date(&r, 105), None);
}

#[test]
fn rows_by_id() {
    let r = rows();
    assert_eq!(position_of_id(&r, 4), Some(3));
    assert_eq!(position_of_id(&r, 1), Some(0));
    assert_eq!(position_of_id(&r, 9), None);
}

#[test]
fn rows_for_insert_and_update() {
    let submitted = Transaction {
        id: 0,
        date: 738000,
        amount: 125_000,
        expense: true,
        note: Some("rent".to_string()),
        user_id: 1,
    };
    let updated = Transaction { note: Some("rent".to_string()), ..submitted }.with_id(17);
    assert_eq!(updated.id, 17);
    assert_eq!(updated.date, 738000);
    assert_eq!(updated.note.as_deref(), Some("rent"));
    let inserted = updated.into_new();
    assert_eq!(inserted.date, 738000);
    assert_eq!(inserted.amount, 125_000);
    assert!(inserted.expense);
    assert_eq!(inserted.note.as_deref(), Some("rent"));
    assert_eq!(inserted.user_id, 1);
}
