use budget::ledger::Transaction;
use budget::paging::Params;
use budget::views::{
    edit_problem, edit_view, list_problem, list_view, new_view, summary, summary_problem,
    total_problem, total_view, PageError,
};

fn row(id: i32, date: i32, amount: i64, expense: bool) -> Transaction {
    Transaction { id, date, amount, expense, note: None, user_id: 1 }
}

fn rows() -> Vec<Transaction> {
    vec![
        row(1, 100, 2_000_000, false),
        row(2, 101, 150_000, true),
        row(3, 110, 2_000_000, false),
        row(4, 102, 55_000, true),
        row(5, 103, 12_345, true),
        row(6, 100, 1_000_000, false),
    ]
}

fn p(page: Option<usize>, per: Option<usize>) -> Params {
    Params { page, transactions_per_page: per }
}

#[test]
fn summary_counts_up_to_today() {
    assert_eq!(summary_problem(&rows(), 102), None);
    let s = summary(&rows(), 102);
    assert_eq!(s.user_id, 1);
    assert_eq!(s.today, 102);
    assert_eq!(s.next_income_date, 103);
    // 300.0000 - 15.0000 - 5.5000
    assert_eq!(s.sum, "$ 279.50");
    let s = summary(&rows(), 103);
    // 300.0000 - 21.7345 rounds to 278.27
    assert_eq!(s.sum, "$ 278.27");
    assert_eq!(new_view(&rows(), 103).sum, "$ 278.27");
}

#[test]
fn summary_problems() {
    assert_eq!(summary_problem(&rows(), 100), Some(PageError::NoExpenses));
    let only_expenses = vec![row(1, 10, 5, true)];
    assert_eq!(summary_problem(&only_expenses, 20), Some(PageError::NoIncome));
    assert_eq!(summary_problem(&rows(), i32::MAX), Some(PageError::DateOutOfRange));
    let huge = vec![row(1, 1, i64::MAX, false), row(2, 1, i64::MIN, true)];
    assert_eq!(summary_problem(&huge, 5), None);
    assert_eq!(summary(&huge, 5).sum, "$ 1844674407370955.16");
}

#[test]
fn list_pages_in_date_order() {
    let params = p(None, Some(4));
    assert_eq!(list_problem(&rows(), 105, params), None);
    let v = list_view(rows(), 105, params);
    assert_eq!(v.page, 1);
    assert_eq!(v.transactions_per_page, 4);
    assert_eq!(v.num_pages, 2);
    let ids: Vec<i32> = v.transacts.iter().map(|t| t.id).collect();
    assert_eq!(ids, vec![1, 6, 2, 4]);
    let v = list_view(rows(), 105, p(Some(2), Some(4)));
    let ids: Vec<i32> = v.transacts.iter().map(|t| t.id).collect();
    assert_eq!(ids, vec![5, 3]);
    let v = list_view(rows(), 105, p(None, None));
    assert_eq!(v.transactions_per_page, 10);
    assert_eq!(v.num_pages, 1);
    assert_eq!(v.transacts.len(), 6);
    let v = list_view(rows(), 105, p(Some(9), None));
    assert!(v.transacts.is_empty());
}

#[test]
fn list_pages_together_are_all_rows_in_date_order() {
    let mut all = Vec::new();
    let first = list_view(rows(), 105, p(Some(1), Some(4)));
    for page in 1..=first.num_pages {
        let v = list_view(rows(), 105, p(Some(page), Some(4)));
        assert!(v.transacts.len() <= 4);
        all.extend(v.transacts.into_iter().map(|t| t.id));
    }
    assert_eq!(all, vec![1, 6, 2, 4, 5, 3]);
    assert!(list_view(rows(), 105, p(Some(first.num_pages + 1), Some(4))).transacts.is_empty());
}

#[test]
fn list_problems() {
    assert_eq!(list_problem(&rows(), 105, p(None, Some(0))), Some(PageError::PageSizeZero));
    assert_eq!(list_problem(&rows(), 105, p(Some(0), None)), Some(PageError::PageZero));
    assert_eq!(
        list_problem(&rows(), 105, p(Some(usize::MAX), Some(2))),
        Some(PageError::PageOutOfRange)
    );
    assert_eq!(list_problem(&rows(), 100, p(Some(0), Some(0))), Some(PageError::NoExpenses));
}

#[test]
fn edit_shows_the_transaction() {
    assert_eq!(edit_problem(&rows(), 105, 4), None);
    let v = edit_view(rows(), 105, 4);
    assert_eq!(v.transaction.id, 4);
    assert_eq!(v.transaction.amount, 55_000);
    assert_eq!(v.summary.next_income_date, 106);
    assert_eq!(edit_problem(&rows(), 105, 42), Some(PageError::TransactionNotFound));
    assert_eq!(edit_problem(&rows(), 100, 42), Some(PageError::NoExpenses));
}

#[test]
fn total_runs_to_the_next_income() {
    assert_eq!(total_problem(&rows(), 102), None);
    let s = total_view(&rows(), 102);
    assert_eq!(s.today, 102);
    assert_eq!(s.next_income_date, 110);
    assert_eq!(s.sum, "$ 278.27");
    assert_eq!(total_problem(&rows(), 110), Some(PageError::NoUpcomingIncome));
    let early = vec![row(1, 8, 10, false), row(2, 5, 10, true)];
    assert_eq!(total_problem(&early, 6), Some(PageError::NoIncome));
    assert_eq!(total_problem(&rows(), i32::MAX), Some(PageError::DateOutOfRange));
}

#[test]
fn an_added_expense_lowers_the_total() {
    let before = total_view(&rows(), 102);
    let mut more = rows();
    more.insert(2, row(7, 105, 70_000, true));
    assert_eq!(total_problem(&more, 102), None);
    let after = total_view(&more, 102);
    assert_eq!(after.next_income_date, before.next_income_date);
    // 278.2655 - 7.0000
    assert_eq!(after.sum, "$ 271.27");
}
