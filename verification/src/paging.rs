//! Pages of the transaction list: the page asked for (first page and ten rows unless
//! the query says otherwise), the number of pages, and the rows of a page.

use vstd::prelude::*;
use crate::ledger::Transaction;

verus! {

/// The page shown when the query names none (pages count from 1).
pub const DEFAULT_PAGE: usize = 1;

/// The rows per page when the query names no number.
pub const DEFAULT_TRANSACTIONS_PER_PAGE: usize = 10;

/// The paging part of the list page's query string.
#[derive(Clone, Copy, Debug, PartialEq, Eq)]
pub struct Params {
    pub page: Option<usize>,
    pub transactions_per_page: Option<usize>,
}

impl Params {
    /// The page asked for, or the first.
    pub fn page_or_default(&self) -> (page: usize)
        ensures
            page == (match self.page {
                Some(p) => p,
                None => DEFAULT_PAGE,
            }),
    {
        match self.page {
            Some(p) => p,
            None => DEFAULT_PAGE,
        }
    }

    /// The rows per page asked for, or ten.
    pub fn transactions_per_page_or_default(&self) -> (per_page: usize)
        ensures
            per_page == (match self.transactions_per_page {
                Some(n) => n,
                None => DEFAULT_TRANSACTIONS_PER_PAGE,
            }),
    {
        match self.transactions_per_page {
            Some(n) => n,
            None => DEFAULT_TRANSACTIONS_PER_PAGE,
        }
    }
}

/// The number of pages that `count` rows fill, `per_page` to a page.
pub open spec fn page_count(count: int, per_page: int) -> int
    recommends
        per_page > 0,
{
    count / per_page + if count % per_page > 0 { 1int } else { 0int }
}

/// The rows that a query with this offset and limit returns from `rows`.
pub open spec fn window<T>(rows: Seq<T>, offset: int, limit: int) -> Seq<T> {
    let start = if offset < rows.len() { offset } else { rows.len() as int };
    let end = if offset + limit < rows.len() { offset + limit } else { rows.len() as int };
    rows.subrange(start, end)
}

/// Page `page` (counting from 1) of `rows`, `per_page` rows to a page.
pub open spec fn page_of<T>(rows: Seq<T>, page: int, per_page: int) -> Seq<T> {
    window(rows, (page - 1) * per_page, per_page)
}

/// The page count is the least number of pages that hold all rows: the pages hold
/// them all, one page fewer would not, and no rows fill no pages.
pub proof fn lemma_page_count_least(count: int, per_page: int)
    requires
        count >= 0,
        per_page > 0,
    ensures
        page_count(count, per_page) * per_page >= count,
        count > 0 ==> (page_count(count, per_page) - 1) * per_page < count,
        count == 0 ==> page_count(count, per_page) == 0,
{
    let q = count / per_page;
    let r = count % per_page;
    assert(count == q * per_page + r && 0 <= r < per_page && q >= 0) by (nonlinear_arith)
        requires q == count / per_page, r == count % per_page, per_page > 0, count >= 0;
    if r > 0 {
        assert((q + 1) * per_page == q * per_page + per_page) by (nonlinear_arith);
    } else if count > 0 {
        assert(q >= 1) by (nonlinear_arith)
            requires count == q * per_page + r, r == 0, count > 0, per_page > 0, q >= 0;
        assert((q - 1) * per_page == q * per_page - per_page) by (nonlinear_arith);
    } else {
        assert(q == 0) by (nonlinear_arith)
            requires count == q * per_page + r, r == 0, count == 0, per_page > 0, q >= 0;
    }
}

/// The number of pages that `count` rows fill; there is no page size of zero.
pub fn num_pages(count: usize, per_page: usize) -> (pages: usize)
    requires
        per_page > 0,
    ensures
        pages == page_count(count as int, per_page as int),
        pages * per_page >= count,
        count > 0 ==> (pages - 1) * per_page < count,
        count == 0 ==> pages == 0,
{
    proof {
        lemma_page_count_least(count as int, per_page as int);
    }
    let whole = count / per_page;
    if count % per_page > 0 {
        proof {
            assert(whole < count) by (nonlinear_arith)
                requires whole == count / per_page, per_page > 0, count % per_page > 0;
        }
        whole + 1
    } else {
        whole
    }
}

/// The rows from `offset` on, at most `limit` of them, as `LIMIT` and `OFFSET` give them.
pub fn take_window(rows: Vec<Transaction>, offset: usize, limit: usize) -> (page: Vec<Transaction>)
    ensures
        page@ == window(rows@, offset as int, limit as int),
        page@.len() <= limit,
        offset + limit <= rows@.len() ==> page@.len() == limit,
        offset >= rows@.len() ==> page@.len() == 0,
        offset < rows@.len() && offset + limit > rows@.len() ==> page@.len() == rows@.len() - offset,
        forall|i: int| 0 <= i < page@.len() ==> #[trigger] page@[i] == rows@[offset + i],
{
    let ghost orig = rows@;
    let mut rows = rows;
    if offset >= rows.len() {
        assert(window(rows@, offset as int, limit as int) =~= Seq::<Transaction>::empty());
        Vec::new()
    } else {
        let mut page = rows.split_off(offset);
        page.truncate(limit);
        assert(page@ =~= window(orig, offset as int, limit as int));
        page
    }
}

/// Every row lies on exactly the page its position says, and that page exists: the
/// pages `1..=page_count` taken together are the rows, in order.
pub proof fn lemma_pages_cover<T>(rows: Seq<T>, per_page: int, i: int)
    requires
        per_page > 0,
        0 <= i < rows.len(),
    ensures
        1 <= i / per_page + 1 <= page_count(rows.len() as int, per_page),
        page_of(rows, i / per_page + 1, per_page)[i % per_page] == rows[i],
        i % per_page < page_of(rows, i / per_page + 1, per_page).len(),
{
    let q = i / per_page;
    let r = i % per_page;
    let n = rows.len() as int;
    assert(i == q * per_page + r && 0 <= r < per_page) by (nonlinear_arith)
        requires q == i / per_page, r == i % per_page, per_page > 0, i >= 0;
    assert(q >= 0) by (nonlinear_arith)
        requires q == i / per_page, per_page > 0, i >= 0;
    assert(q + 1 <= page_count(n, per_page)) by (nonlinear_arith)
        requires q == i / per_page, i < n, per_page > 0, i >= 0;
    assert((q + 1 - 1) * per_page == q * per_page);
}

/// A page has at most `per_page` rows, and pages after the last are empty.
pub proof fn lemma_page_size<T>(rows: Seq<T>, page: int, per_page: int)
    requires
        per_page > 0,
        page >= 1,
    ensures
        page_of(rows, page, per_page).len() <= per_page,
        page > page_count(rows.len() as int, per_page) ==> page_of(rows, page, per_page).len() == 0,
{
    let n = rows.len() as int;
    if page > page_count(n, per_page) {
        assert((page - 1) * per_page >= n) by (nonlinear_arith)
            requires page > page_count(n, per_page), per_page > 0, n >= 0, page >= 1;
    }
}


/// Pages `1..=last` of `rows`, one after the other.
pub open spec fn pages_through<T>(rows: Seq<T>, per_page: int, last: int) -> Seq<T>
    decreases last,
{
    if last <= 0 {
        Seq::empty()
    } else {
        pages_through(rows, per_page, last - 1) + page_of(rows, last, per_page)
    }
}

/// The first `last` pages are the rows before position `last * per_page`.
pub proof fn lemma_pages_through<T>(rows: Seq<T>, per_page: int, last: int)
    requires
        per_page > 0,
        last >= 0,
    ensures
        pages_through(rows, per_page, last) == rows.take(
            if last * per_page < rows.len() { last * per_page } else { rows.len() as int },
        ),
    decreases last,
{
    if last == 0 {
        assert(rows.take(0) =~= Seq::<T>::empty());
    } else {
        lemma_pages_through(rows, per_page, last - 1);
        assert((last - 1) * per_page + per_page == last * per_page) by (nonlinear_arith);
        assert((last - 1) * per_page >= 0) by (nonlinear_arith)
            requires last >= 1, per_page > 0;
        let n = rows.len() as int;
        let a = if (last - 1) * per_page < n { (last - 1) * per_page } else { n };
        let b = if last * per_page < n { last * per_page } else { n };
        assert(rows.take(a) + rows.subrange(a, b) =~= rows.take(b));
    }
}

/// The pages of `rows` taken in order, from the first to the last, are `rows` again.
pub proof fn lemma_pages_concatenate<T>(rows: Seq<T>, per_page: int)
    requires
        per_page > 0,
    ensures
        pages_through(rows, per_page, page_count(rows.len() as int, per_page)) == rows,
{
    let n = rows.len() as int;
    let m = page_count(n, per_page);
    assert(m >= 0 && m * per_page >= n) by (nonlinear_arith)
        requires m == page_count(n, per_page), per_page > 0, n >= 0;
    lemma_pages_through(rows, per_page, m);
    assert(rows.take(n) =~= rows);
}

} // verus!
