//! What each page of the budget shows, computed from the rows of the transactions
//! table and today's day number: the balance up to the next income, the paged list,
//! one transaction, and the balance up to the next scheduled income.

use vstd::prelude::*;
use crate::dates::{day_after, is_calendar_day, UserParams, USER_ID_FOR_TEST};
use crate::ledger::{
    any_counted, any_upcoming_income, balance_of, counted, is_next_income_date,
    lemma_balance_insert_row, lemma_next_income_exists, lemma_next_income_unique, next_income,
    next_income_date,
    position_of_id, signed_amount, sum_amounts, upcoming_income, Transaction,
};
use crate::money::{balance_label, fits_decimal, format_balance, DECIMAL_MAX_MANTISSA};
use crate::order::{
    date_order, is_stable_date_order, lemma_stable_date_order_permutes, occurrences, sort_by_date,
};
use crate::paging::{
    lemma_page_size, lemma_pages_concatenate, num_pages, page_count, page_of, pages_through,
    take_window, Params,
};

verus! {

/// Why a page cannot be shown. The pages are shown only where none of these holds:
/// the handlers test for them first and stop the request where one does.
#[derive(Clone, Copy, Debug, PartialEq, Eq)]
pub enum PageError {
    /// Today, or the day after it, is not a calendar day.
    DateOutOfRange,
    /// No expense lies before the cutoff day, so the database's sum is empty.
    NoExpenses,
    /// No income lies before the cutoff day, so the database's sum is empty.
    NoIncome,
    /// The balance does not fit a decimal.
    BalanceOutOfRange,
    /// No income is scheduled after today.
    NoUpcomingIncome,
    /// No transaction has the id asked for.
    TransactionNotFound,
    /// The query asks for pages of no rows.
    PageSizeZero,
    /// The query asks for page 0 (pages count from 1).
    PageZero,
    /// The first row of the page asked for lies beyond what a `usize` counts.
    PageOutOfRange,
}

/// The header every budget page shows: whose budget, today, the day up to which the
/// balance runs, and the balance label.
#[derive(Debug)]
pub struct Summary {
    pub user_id: i32,
    pub today: i32,
    pub next_income_date: i32,
    pub sum: String,
}

/// The list page: the header and one page of transactions in date order.
#[derive(Debug)]
pub struct ListView {
    pub summary: Summary,
    pub transacts: Vec<Transaction>,
    pub page: usize,
    pub transactions_per_page: usize,
    pub num_pages: usize,
}

/// The edit page: the header and the transaction to edit.
#[derive(Debug)]
pub struct EditView {
    pub summary: Summary,
    pub transaction: Transaction,
}

/// The balance before `cutoff`, or why it cannot be shown: the expenses are summed
/// first, then the incomes.
pub open spec fn balance_outcome(rows: Seq<Transaction>, cutoff: int) -> Result<int, PageError> {
    if !any_counted(rows, cutoff, true) {
        Err(PageError::NoExpenses)
    } else if !any_counted(rows, cutoff, false) {
        Err(PageError::NoIncome)
    } else if !fits_decimal(balance_of(rows, cutoff)) {
        Err(PageError::BalanceOutOfRange)
    } else {
        Ok(balance_of(rows, cutoff))
    }
}

/// The header's failure, if any, for the budget up to tomorrow.
pub open spec fn summary_error(rows: Seq<Transaction>, today: int) -> Option<PageError> {
    if !(is_calendar_day(today) && is_calendar_day(today + 1)) {
        Some(PageError::DateOutOfRange)
    } else {
        match balance_outcome(rows, today + 1) {
            Err(e) => Some(e),
            Ok(_) => None,
        }
    }
}

/// `summary` is the header for the budget of the test user up to tomorrow.
pub open spec fn is_summary(summary: Summary, rows: Seq<Transaction>, today: int) -> bool {
    &&& summary.user_id == USER_ID_FOR_TEST
    &&& summary.today == today
    &&& summary.next_income_date == today + 1
    &&& summary.sum@ == balance_label(balance_of(rows, today + 1))
}

/// Why the balance before `cutoff` cannot be shown, if it cannot.
pub fn balance_problem(rows: &Vec<Transaction>, cutoff: i32) -> (problem: Option<PageError>)
    ensures
        problem is None <==> balance_outcome(rows@, cutoff as int) is Ok,
        problem matches Some(e) ==> balance_outcome(rows@, cutoff as int) == Err::<int, PageError>(e),
{
    let expense_sum = match sum_amounts(rows, cutoff, true) {
        Some(s) => s,
        None => {
            return Some(PageError::NoExpenses);
        },
    };
    let income_sum = match sum_amounts(rows, cutoff, false) {
        Some(s) => s,
        None => {
            return Some(PageError::NoIncome);
        },
    };
    match income_sum.checked_sub(expense_sum) {
        Some(t) => {
            if t < -DECIMAL_MAX_MANTISSA || t > DECIMAL_MAX_MANTISSA {
                Some(PageError::BalanceOutOfRange)
            } else {
                None
            }
        },
        None => Some(PageError::BalanceOutOfRange),
    }
}

/// The label of the balance before `cutoff`: incomes minus expenses, rounded to cents.
/// Some expense and some income lie before `cutoff`, and the balance fits a decimal.
pub fn balance_text(rows: &Vec<Transaction>, cutoff: i32) -> (text: String)
    requires
        balance_outcome(rows@, cutoff as int) is Ok,
    ensures
        text@ == balance_label(balance_of(rows@, cutoff as int)),
{
    let expense_sum = sum_amounts(rows, cutoff, true).unwrap();
    let income_sum = sum_amounts(rows, cutoff, false).unwrap();
    let total = income_sum - expense_sum;
    format_balance(total).unwrap()
}

/// Why the header cannot be shown on `today`, if it cannot.
pub fn summary_problem(rows: &Vec<Transaction>, today: i32) -> (problem: Option<PageError>)
    ensures
        problem == summary_error(rows@, today as int),
        ({
            let cutoff = today + 1;
            &&& is_calendar_day(today as int)
            &&& is_calendar_day(cutoff)
            &&& exists|i: int|
                0 <= i < rows@.len() && rows@[i].expense && #[trigger] rows@[i].date < cutoff
            &&& exists|i: int|
                0 <= i < rows@.len() && !rows@[i].expense && #[trigger] rows@[i].date < cutoff
            &&& -DECIMAL_MAX_MANTISSA <= balance_of(rows@, cutoff) <= DECIMAL_MAX_MANTISSA
        }) ==> problem is None,
{
    proof {
        let cutoff = today + 1;
        if exists|i: int| 0 <= i < rows@.len() && rows@[i].expense && #[trigger] rows@[i].date < cutoff {
            let i = choose|i: int|
                0 <= i < rows@.len() && rows@[i].expense && #[trigger] rows@[i].date < cutoff;
            assert(counted(rows@[i], cutoff, true));
        }
        if exists|i: int| 0 <= i < rows@.len() && !rows@[i].expense && #[trigger] rows@[i].date < cutoff {
            let i = choose|i: int|
                0 <= i < rows@.len() && !rows@[i].expense && #[trigger] rows@[i].date < cutoff;
            assert(counted(rows@[i], cutoff, false));
        }
    }
    match day_after(today) {
        Some(tomorrow) => balance_problem(rows, tomorrow),
        None => Some(PageError::DateOutOfRange),
    }
}

/// The header of the budget pages on `today`: the balance counts every transaction
/// up to and including today.
pub fn summary(rows: &Vec<Transaction>, today: i32) -> (s: Summary)
    requires
        summary_error(rows@, today as int) is None,
    ensures
        is_summary(s, rows@, today as int),
        s.user_id == 1,
        s.today == today,
        s.next_income_date == today + 1,
        s.sum@ == balance_label(balance_of(rows@, today + 1)),
{
    let user = UserParams::for_today(today).unwrap();
    let sum = balance_text(rows, user.next_income_date);
    Summary {
        user_id: user.user_id,
        today: user.todays_date,
        next_income_date: user.next_income_date,
        sum,
    }
}

/// The page for a new transaction shows the header alone.
pub fn new_view(rows: &Vec<Transaction>, today: i32) -> (s: Summary)
    requires
        summary_error(rows@, today as int) is None,
    ensures
        is_summary(s, rows@, today as int),
{
    summary(rows, today)
}

/// The failure, if any, of the list page for these paging parameters.
pub open spec fn list_error(rows: Seq<Transaction>, today: int, page: int, per_page: int) -> Option<
    PageError,
> {
    if summary_error(rows, today) is Some {
        summary_error(rows, today)
    } else if per_page == 0 {
        Some(PageError::PageSizeZero)
    } else if page == 0 {
        Some(PageError::PageZero)
    } else if (page - 1) * per_page > usize::MAX {
        Some(PageError::PageOutOfRange)
    } else {
        None
    }
}

/// The page asked for, defaulted.
pub open spec fn requested_page(params: Params) -> int {
    match params.page {
        Some(p) => p as int,
        None => 1,
    }
}

/// The rows per page asked for, defaulted.
pub open spec fn requested_per_page(params: Params) -> int {
    match params.transactions_per_page {
        Some(n) => n as int,
        None => 10,
    }
}

/// Why the list page cannot be shown for these paging parameters, if it cannot.
pub fn list_problem(rows: &Vec<Transaction>, today: i32, params: Params) -> (problem: Option<
    PageError,
>)
    ensures
        problem == list_error(
            rows@,
            today as int,
            requested_page(params),
            requested_per_page(params),
        ),
        ({
            let page = requested_page(params);
            let per_page = requested_per_page(params);
            &&& summary_error(rows@, today as int) is None
            &&& page >= 1
            &&& per_page >= 1
            &&& (page - 1) * per_page <= usize::MAX
        }) ==> problem is None,
        problem == Some(PageError::PageSizeZero) ==> requested_per_page(params) == 0,
        problem == Some(PageError::PageZero) ==> requested_page(params) == 0,
{
    let header = summary_problem(rows, today);
    if header.is_some() {
        return header;
    }
    let page = params.page_or_default();
    let per_page = params.transactions_per_page_or_default();
    if per_page == 0 {
        Some(PageError::PageSizeZero)
    } else if page == 0 {
        Some(PageError::PageZero)
    } else if (page - 1).checked_mul(per_page).is_none() {
        Some(PageError::PageOutOfRange)
    } else {
        None
    }
}

/// The list page: the header, and the page asked for (the first unless the query says
/// otherwise) of all transactions in date order, ten to a page unless the query says
/// otherwise, with the number of pages.
pub fn list_view(rows: Vec<Transaction>, today: i32, params: Params) -> (v: ListView)
    requires
        list_error(rows@, today as int, requested_page(params), requested_per_page(params)) is None,
    ensures
        is_summary(v.summary, rows@, today as int),
        v.page == requested_page(params),
        v.transactions_per_page == requested_per_page(params),
        v.num_pages == page_count(rows@.len() as int, requested_per_page(params)),
        v.transacts@ == page_of(date_order(rows@), requested_page(params), requested_per_page(params)),
        is_stable_date_order(rows@, date_order(rows@)),
        date_order(rows@).len() == rows@.len(),
        v.num_pages * v.transactions_per_page >= rows@.len(),
        rows@.len() > 0 ==> (v.num_pages - 1) * v.transactions_per_page < rows@.len(),
        v.transacts@.len() <= v.transactions_per_page,
{
    let header = summary(&rows, today);
    let page = params.page_or_default();
    let per_page = params.transactions_per_page_or_default();
    let pages = num_pages(rows.len(), per_page);
    let offset = (page - 1) * per_page;
    let sorted = sort_by_date(rows);
    let transacts = take_window(sorted, offset, per_page);
    ListView { summary: header, transacts, page, transactions_per_page: per_page, num_pages: pages }
}

/// The failure, if any, of the edit page for transaction `id`.
pub open spec fn edit_error(rows: Seq<Transaction>, today: int, id: i32) -> Option<PageError> {
    if summary_error(rows, today) is Some {
        summary_error(rows, today)
    } else if forall|j: int| 0 <= j < rows.len() ==> #[trigger] rows[j].id != id {
        Some(PageError::TransactionNotFound)
    } else {
        None
    }
}

/// Why the edit page for transaction `id` cannot be shown, if it cannot.
pub fn edit_problem(rows: &Vec<Transaction>, today: i32, id: i32) -> (problem: Option<PageError>)
    ensures
        problem == edit_error(rows@, today as int, id),
        summary_error(rows@, today as int) is None && (exists|j: int|
            0 <= j < rows@.len() && #[trigger] rows@[j].id == id) ==> problem is None,
        problem == Some(PageError::TransactionNotFound) ==> forall|j: int|
            0 <= j < rows@.len() ==> #[trigger] rows@[j].id != id,
{
    let header = summary_problem(rows, today);
    if header.is_some() {
        return header;
    }
    match position_of_id(rows, id) {
        Some(p) => {
            assert(rows@[p as int].id == id);
            None
        },
        None => Some(PageError::TransactionNotFound),
    }
}

/// The edit page for transaction `id`: the header and the first transaction with that id.
pub fn edit_view(rows: Vec<Transaction>, today: i32, id: i32) -> (v: EditView)
    requires
        edit_error(rows@, today as int, id) is None,
    ensures
        is_summary(v.summary, rows@, today as int),
        exists|p: int|
            0 <= p < rows@.len() && rows@[p].id == id && (forall|j: int|
                0 <= j < p ==> #[trigger] rows@[j].id != id) && v.transaction == rows@[p],
{
    let header = summary(&rows, today);
    let p = position_of_id(&rows, id).unwrap();
    let mut rows = rows;
    let transaction = rows.remove(p);
    EditView { summary: header, transaction }
}

/// The failure, if any, of the total page.
pub open spec fn total_error(rows: Seq<Transaction>, today: int) -> Option<PageError> {
    if !(is_calendar_day(today) && is_calendar_day(today + 1)) {
        Some(PageError::DateOutOfRange)
    } else if !any_upcoming_income(rows, today) {
        Some(PageError::NoUpcomingIncome)
    } else {
        match balance_outcome(rows, next_income(rows, today)) {
            Err(e) => Some(e),
            Ok(_) => None,
        }
    }
}

/// Why the total page cannot be shown on `today`, if it cannot.
pub fn total_problem(rows: &Vec<Transaction>, today: i32) -> (problem: Option<PageError>)
    ensures
        problem == total_error(rows@, today as int),
        problem == Some(PageError::NoUpcomingIncome) <==> is_calendar_day(today as int)
            && is_calendar_day(today + 1) && forall|i: int|
            0 <= i < rows@.len() && !rows@[i].expense ==> #[trigger] rows@[i].date <= today,
{
    if day_after(today).is_none() {
        return Some(PageError::DateOutOfRange);
    }
    match next_income_date(rows, today) {
        Some(next) => balance_problem(rows, next),
        None => Some(PageError::NoUpcomingIncome),
    }
}

/// The total page: the balance of the test user up to (not including) the first
/// income scheduled after today.
pub fn total_view(rows: &Vec<Transaction>, today: i32) -> (s: Summary)
    requires
        total_error(rows@, today as int) is None,
    ensures
        s.user_id == USER_ID_FOR_TEST,
        s.today == today,
        s.next_income_date == next_income(rows@, today as int),
        s.sum@ == balance_label(balance_of(rows@, next_income(rows@, today as int))),
{
    let user = UserParams::for_today(today).unwrap();
    let next = next_income_date(rows, today).unwrap();
    let sum = balance_text(rows, next);
    Summary { user_id: user.user_id, today: user.todays_date, next_income_date: next, sum }
}


/// The list pages, from the first to the last that `list_view` counts, taken one after
/// the other, are all transactions in date order, a permutation of the rows; each page
/// holds at most `per_page` of them, and a page after the last is empty.
pub proof fn lemma_list_pages_are_the_date_order(rows: Seq<Transaction>, per_page: int, page: int)
    requires
        is_stable_date_order(rows, date_order(rows)),
        date_order(rows).len() == rows.len(),
        per_page > 0,
        page >= 1,
    ensures
        pages_through(date_order(rows), per_page, page_count(rows.len() as int, per_page))
            == date_order(rows),
        forall|t: Transaction| #[trigger] occurrences(date_order(rows), t) == occurrences(rows, t),
        page_of(date_order(rows), page, per_page).len() <= per_page,
        page > page_count(rows.len() as int, per_page) ==> page_of(date_order(rows), page, per_page).len() == 0,
{
    lemma_pages_concatenate(date_order(rows), per_page);
    lemma_page_size(date_order(rows), page, per_page);
    assert forall|t: Transaction| #[trigger] occurrences(date_order(rows), t) == occurrences(rows, t) by {
        lemma_stable_date_order_permutes(rows, date_order(rows), t);
    }
}


/// Recording an expense dated before the next income, wherever its row stands, leaves
/// the total page's next income date as it was and lowers its balance by the expense's
/// amount, as long as the lower balance still fits a decimal.
pub proof fn lemma_total_after_expense(rows: Seq<Transaction>, today: int, i: int, e: Transaction)
    requires
        total_error(rows, today) is None,
        0 <= i <= rows.len(),
        e.expense,
        e.date < next_income(rows, today),
        fits_decimal(balance_of(rows, next_income(rows, today)) - e.amount),
    ensures
        total_error(rows.insert(i, e), today) is None,
        next_income(rows.insert(i, e), today) == next_income(rows, today),
        balance_of(rows.insert(i, e), next_income(rows, today)) == balance_of(
            rows,
            next_income(rows, today),
        ) - e.amount,
{
    let n = next_income(rows, today);
    let rows2 = rows.insert(i, e);
    lemma_next_income_exists(rows, today);
    let k = choose|k: int|
        0 <= k < rows.len() && #[trigger] upcoming_income(rows[k], today) && rows[k].date == n;
    let k2 = if k < i { k } else { k + 1 };
    assert(rows2[k2] == rows[k]);
    assert(upcoming_income(rows2[k2], today));
    assert forall|j: int| 0 <= j < rows2.len() && #[trigger] upcoming_income(rows2[j], today)
        implies n <= rows2[j].date by {
        if j < i {
            assert(rows2[j] == rows[j]);
            assert(upcoming_income(rows[j], today));
        } else if j > i {
            assert(rows2[j] == rows[j - 1]);
            assert(upcoming_income(rows[j - 1], today));
        } else {
            assert(rows2[j] == e);
        }
    }
    assert(is_next_income_date(rows2, today, n));
    assert(any_upcoming_income(rows2, today));
    lemma_next_income_exists(rows2, today);
    lemma_next_income_unique(rows2, today, n, next_income(rows2, today));
    lemma_balance_insert_row(rows, i, e, n);
    assert(rows2[i] == e);
    assert(counted(rows2[i], n, true));
    let j = choose|j: int| 0 <= j < rows.len() && #[trigger] counted(rows[j], n, false);
    let j2 = if j < i { j } else { j + 1 };
    assert(rows2[j2] == rows[j]);
    assert(counted(rows2[j2], n, false));
    assert(signed_amount(e, n) == -(e.amount as int));
}

} // verus!
