//! The rows of the transactions table and what the budget reads from them: sums of
//! amounts before a day, the next income after a day, and a row by its id.

use vstd::prelude::*;

verus! {

/// A row of the transactions table. `date` is a day number (see `dates`); `amount`
/// is a whole number of ten-thousandths (the column is `decimal(14, 4)`).
#[derive(Debug)]
pub struct Transaction {
    pub id: i32,
    pub date: i32,
    pub amount: i64,
    pub expense: bool,
    pub note: Option<String>,
    pub user_id: i32,
}

/// The columns of a transaction that an insert sets; the table gives the id.
#[derive(Debug)]
pub struct NewTransaction {
    pub date: i32,
    pub amount: i64,
    pub expense: bool,
    pub note: Option<String>,
    pub user_id: i32,
}

impl Transaction {
    /// The row to insert for a submitted transaction: every column but the id.
    pub fn into_new(self) -> (row: NewTransaction)
        ensures
            row.date == self.date,
            row.amount == self.amount,
            row.expense == self.expense,
            row.note == self.note,
            row.user_id == self.user_id,
    {
        NewTransaction {
            date: self.date,
            amount: self.amount,
            expense: self.expense,
            note: self.note,
            user_id: self.user_id,
        }
    }

    /// The row that replaces transaction `id` with a submitted transaction: the
    /// submitted columns under the id of the path.
    pub fn with_id(self, id: i32) -> (row: Transaction)
        ensures
            row.id == id,
            row.date == self.date,
            row.amount == self.amount,
            row.expense == self.expense,
            row.note == self.note,
            row.user_id == self.user_id,
    {
        Transaction { id, ..self }
    }
}

/// A transaction of the given kind dated strictly before `cutoff`.
pub open spec fn counted(t: Transaction, cutoff: int, expense: bool) -> bool {
    t.date < cutoff && t.expense == expense
}

/// The sum of the amounts of the transactions of the given kind before `cutoff`.
pub open spec fn total_of(rows: Seq<Transaction>, cutoff: int, expense: bool) -> int
    decreases rows.len(),
{
    if rows.len() == 0 {
        0
    } else {
        total_of(rows.drop_last(), cutoff, expense) + if counted(rows.last(), cutoff, expense) {
            rows.last().amount as int
        } else {
            0
        }
    }
}

/// No rows sum to nothing.
pub proof fn lemma_total_of_empty(cutoff: int, expense: bool)
    ensures
        total_of(Seq::<Transaction>::empty(), cutoff, expense) == 0,
{
}

/// Appending a row of the summed kind dated strictly before `cutoff` adds its amount to
/// the sum; appending a row of the other kind, or one dated on or after `cutoff`, leaves
/// the sum as it was.
pub proof fn lemma_total_of_push(rows: Seq<Transaction>, t: Transaction, cutoff: int, expense: bool)
    ensures
        t.date < cutoff && t.expense == expense ==> total_of(rows.push(t), cutoff, expense)
            == total_of(rows, cutoff, expense) + t.amount,
        t.date >= cutoff || t.expense != expense ==> total_of(rows.push(t), cutoff, expense)
            == total_of(rows, cutoff, expense),
{
    assert(rows.push(t).drop_last() =~= rows);
}

/// Some transaction of the given kind lies before `cutoff`.
pub open spec fn any_counted(rows: Seq<Transaction>, cutoff: int, expense: bool) -> bool {
    exists|i: int| 0 <= i < rows.len() && #[trigger] counted(rows[i], cutoff, expense)
}

/// Incomes minus expenses, over the transactions before `cutoff`.
pub open spec fn balance_of(rows: Seq<Transaction>, cutoff: int) -> int {
    total_of(rows, cutoff, false) - total_of(rows, cutoff, true)
}

/// How a transaction moves the balance before `cutoff`: an income raises it by its
/// amount, an expense lowers it, and one dated on or after `cutoff` leaves it alone.
pub open spec fn signed_amount(t: Transaction, cutoff: int) -> int {
    if t.date >= cutoff {
        0
    } else if t.expense {
        -(t.amount as int)
    } else {
        t.amount as int
    }
}

/// Adding a transaction moves the balance before `cutoff` by its signed amount.
pub proof fn lemma_balance_add_row(rows: Seq<Transaction>, t: Transaction, cutoff: int)
    ensures
        balance_of(rows.push(t), cutoff) == balance_of(rows, cutoff) + signed_amount(t, cutoff),
        t.date < cutoff && !t.expense ==> balance_of(rows.push(t), cutoff) == balance_of(rows, cutoff)
            + t.amount,
        t.date < cutoff && t.expense ==> balance_of(rows.push(t), cutoff) == balance_of(rows, cutoff)
            - t.amount,
        t.date >= cutoff ==> balance_of(rows.push(t), cutoff) == balance_of(rows, cutoff),
{
    assert(rows.push(t).drop_last() =~= rows);
}

/// The balance of the rows of two tables taken together is the sum of their balances.
pub proof fn lemma_balance_concat(a: Seq<Transaction>, b: Seq<Transaction>, cutoff: int)
    ensures
        balance_of(a + b, cutoff) == balance_of(a, cutoff) + balance_of(b, cutoff),
    decreases b.len(),
{
    if b.len() == 0 {
        assert(a + b =~= a);
    } else {
        assert((a + b).drop_last() =~= a + b.drop_last());
        lemma_balance_concat(a, b.drop_last(), cutoff);
    }
}

/// A transaction added anywhere among the rows moves the balance before `cutoff` by
/// its signed amount: the balance does not depend on where the row stands.
pub proof fn lemma_balance_insert_row(rows: Seq<Transaction>, i: int, t: Transaction, cutoff: int)
    requires
        0 <= i <= rows.len(),
    ensures
        balance_of(rows.insert(i, t), cutoff) == balance_of(rows, cutoff) + signed_amount(t, cutoff),
{
    let front = rows.subrange(0, i);
    let back = rows.subrange(i, rows.len() as int);
    assert(rows.insert(i, t) =~= front.push(t) + back);
    assert(rows =~= front + back);
    lemma_balance_concat(front.push(t), back, cutoff);
    lemma_balance_concat(front, back, cutoff);
    lemma_balance_add_row(front, t, cutoff);
}

/// The sum of the amounts of the transactions of the given kind dated before `cutoff`
/// (expenses where `expense`, incomes otherwise), as the database's `SUM` gives it:
/// `None` where no transaction is summed.
pub fn sum_amounts(rows: &Vec<Transaction>, cutoff: i32, expense: bool) -> (sum: Option<i128>)
    ensures
        sum is Some <==> any_counted(rows@, cutoff as int, expense),
        sum matches Some(s) ==> s == total_of(rows@, cutoff as int, expense),
{
    let mut total: i128 = 0;
    let mut found = false;
    let mut i: usize = 0;
    while i < rows.len()
        invariant
            i <= rows.len(),
            total == total_of(rows@.take(i as int), cutoff as int, expense),
            found <==> any_counted(rows@.take(i as int), cutoff as int, expense),
            -(i as int) * 0x8000_0000_0000_0000 <= total <= (i as int) * 0x8000_0000_0000_0000,
        decreases rows.len() - i,
    {
        let row = &rows[i];
        proof {
            let next = rows@.take(i + 1);
            assert(next.drop_last() =~= rows@.take(i as int));
            assert(next.last() == rows@[i as int]);
            if any_counted(rows@.take(i as int), cutoff as int, expense) {
                let k = choose|k: int|
                    0 <= k < i && #[trigger] counted(rows@.take(i as int)[k], cutoff as int, expense);
                assert(counted(next[k], cutoff as int, expense));
            }
            if counted(rows@[i as int], cutoff as int, expense) {
                assert(counted(next[i as int], cutoff as int, expense));
            }
            if any_counted(next, cutoff as int, expense) {
                let k = choose|k: int| 0 <= k < i + 1 && #[trigger] counted(next[k], cutoff as int, expense);
                if k < i {
                    assert(counted(rows@.take(i as int)[k], cutoff as int, expense));
                }
            }
        }
        if row.date < cutoff && row.expense == expense {
            total = total + row.amount as i128;
            found = true;
        }
        i = i + 1;
    }
    assert(rows@.take(rows.len() as int) =~= rows@);
    if found {
        Some(total)
    } else {
        None
    }
}

/// An income dated strictly after `today`.
pub open spec fn upcoming_income(t: Transaction, today: int) -> bool {
    !t.expense && t.date > today
}

/// Some income lies after `today`.
pub open spec fn any_upcoming_income(rows: Seq<Transaction>, today: int) -> bool {
    exists|i: int| 0 <= i < rows.len() && #[trigger] upcoming_income(rows[i], today)
}

/// `day` is the earliest date of an income after `today`.
pub open spec fn is_next_income_date(rows: Seq<Transaction>, today: int, day: int) -> bool {
    &&& exists|i: int|
        0 <= i < rows.len() && #[trigger] upcoming_income(rows[i], today) && rows[i].date == day
    &&& forall|i: int|
        0 <= i < rows.len() && #[trigger] upcoming_income(rows[i], today) ==> day <= rows[i].date
}

/// The date of the first income after `today`, where there is one.
pub open spec fn next_income(rows: Seq<Transaction>, today: int) -> int {
    choose|day: int| is_next_income_date(rows, today, day)
}

/// Only one day is the earliest date of an income after `today`.
pub proof fn lemma_next_income_unique(rows: Seq<Transaction>, today: int, d1: int, d2: int)
    requires
        is_next_income_date(rows, today, d1),
        is_next_income_date(rows, today, d2),
    ensures
        d1 == d2,
{
    let i = choose|i: int|
        0 <= i < rows.len() && #[trigger] upcoming_income(rows[i], today) && rows[i].date == d1;
    let j = choose|j: int|
        0 <= j < rows.len() && #[trigger] upcoming_income(rows[j], today) && rows[j].date == d2;
}

/// Where an income lies after `today`, an earliest one exists.
pub proof fn lemma_next_income_exists(rows: Seq<Transaction>, today: int)
    requires
        any_upcoming_income(rows, today),
    ensures
        is_next_income_date(rows, today, next_income(rows, today)),
    decreases rows.len(),
{
    let rest = rows.drop_last();
    let x = rows.last();
    assert(rows[rows.len() - 1] == x);
    if any_upcoming_income(rest, today) {
        lemma_next_income_exists(rest, today);
        let m = next_income(rest, today);
        let k = choose|k: int|
            0 <= k < rest.len() && #[trigger] upcoming_income(rest[k], today) && rest[k].date == m;
        assert(rows[k] == rest[k]);
        let d = if upcoming_income(x, today) && x.date < m { x.date as int } else { m };
        assert forall|j: int| 0 <= j < rows.len() && #[trigger] upcoming_income(rows[j], today)
            implies d <= rows[j].date by {
            if j < rows.len() - 1 {
                assert(rest[j] == rows[j]);
                assert(upcoming_income(rest[j], today));
            }
        }
        assert(is_next_income_date(rows, today, d));
    } else {
        let w = choose|j: int| 0 <= j < rows.len() && #[trigger] upcoming_income(rows[j], today);
        if w < rows.len() - 1 {
            assert(rest[w] == rows[w]);
            assert(upcoming_income(rest[w], today));
        }
        assert forall|j: int| 0 <= j < rows.len() && #[trigger] upcoming_income(rows[j], today)
            implies x.date <= rows[j].date by {
            if j < rows.len() - 1 {
                assert(rest[j] == rows[j]);
                assert(upcoming_income(rest[j], today));
            }
        }
        assert(is_next_income_date(rows, today, x.date as int));
    }
}

/// The date of the first income after `today` in date order; `None` where no income
/// lies after `today`.
pub fn next_income_date(rows: &Vec<Transaction>, today: i32) -> (day: Option<i32>)
    ensures
        day is Some <==> any_upcoming_income(rows@, today as int),
        day matches Some(d) ==> is_next_income_date(rows@, today as int, d as int) && d
            == next_income(rows@, today as int),
        day is Some <==> exists|i: int|
            0 <= i < rows@.len() && !rows@[i].expense && #[trigger] rows@[i].date > today,
        day matches Some(d) ==> forall|i: int|
            0 <= i < rows@.len() && !rows@[i].expense && #[trigger] rows@[i].date > today ==> d
                <= rows@[i].date,
        day matches Some(d) ==> exists|i: int|
            0 <= i < rows@.len() && !rows@[i].expense && #[trigger] rows@[i].date > today
                && rows@[i].date == d,
{
    let mut best: Option<i32> = None;
    let mut i: usize = 0;
    while i < rows.len()
        invariant
            i <= rows.len(),
            best is Some <==> exists|k: int| 0 <= k < i && #[trigger] upcoming_income(rows@[k], today as int),
            best matches Some(d) ==> {
                &&& exists|k: int|
                    0 <= k < i && #[trigger] upcoming_income(rows@[k], today as int) && rows@[k].date == d
                &&& forall|k: int|
                    0 <= k < i && #[trigger] upcoming_income(rows@[k], today as int) ==> d <= rows@[k].date
            },
        decreases rows.len() - i,
    {
        let row = &rows[i];
        let ghost up = upcoming_income(rows@[i as int], today as int);
        if !row.expense && row.date > today {
            match best {
                Some(d) => {
                    if row.date < d {
                        best = Some(row.date);
                    }
                },
                None => {
                    best = Some(row.date);
                },
            }
        }
        i = i + 1;
    }
    proof {
        if let Some(d) = best {
            lemma_next_income_unique(rows@, today as int, d as int, next_income(rows@, today as int));
            let k = choose|k: int|
                0 <= k < rows@.len() && #[trigger] upcoming_income(rows@[k], today as int)
                    && rows@[k].date == d;
            assert(rows@[k].date > today);
            assert forall|i: int|
                0 <= i < rows@.len() && !rows@[i].expense && #[trigger] rows@[i].date > today implies d
                <= rows@[i].date by {
                assert(upcoming_income(rows@[i], today as int));
            }
        } else {
            assert forall|i: int|
                0 <= i < rows@.len() && !rows@[i].expense implies !(#[trigger] rows@[i].date > today) by {
                if rows@[i].date > today {
                    assert(upcoming_income(rows@[i], today as int));
                }
            }
        }
    }
    best
}

/// The position of the transaction with the given id: the first such row, `None` where
/// no row has that id.
pub fn position_of_id(rows: &Vec<Transaction>, id: i32) -> (pos: Option<usize>)
    ensures
        pos matches Some(p) ==> p < rows.len() && rows@[p as int].id == id && forall|j: int|
            0 <= j < p ==> #[trigger] rows@[j].id != id,
        pos is None ==> forall|j: int| 0 <= j < rows.len() ==> #[trigger] rows@[j].id != id,
{
    let mut i: usize = 0;
    while i < rows.len()
        invariant
            i <= rows.len(),
            forall|j: int| 0 <= j < i ==> #[trigger] rows@[j].id != id,
        decreases rows.len() - i,
    {
        if rows[i].id == id {
            return Some(i);
        }
        i = i + 1;
    }
    None
}

} // verus!
