//! Transactions in date order, as the list page shows them: a stable sort by date, so
//! that transactions of one day keep the order in which the table gave them.

use vstd::prelude::*;
use crate::ledger::Transaction;

verus! {

/// Dates never decrease along `rows`.
pub open spec fn sorted_by_date(rows: Seq<Transaction>) -> bool {
    forall|i: int, j: int| 0 <= i <= j < rows.len() ==> rows[i].date <= rows[j].date
}

/// The transactions of `rows` dated `day`, in their order in `rows`.
pub open spec fn dated(rows: Seq<Transaction>, day: int) -> Seq<Transaction>
    decreases rows.len(),
{
    if rows.len() == 0 {
        Seq::empty()
    } else {
        let rest = dated(rows.drop_last(), day);
        if rows.last().date == day {
            rest.push(rows.last())
        } else {
            rest
        }
    }
}

/// `sorted` is `rows` in date order, transactions of one day in their order in `rows`.
/// At most one sequence is such for given `rows` (`lemma_stable_date_order_unique`).
pub open spec fn is_stable_date_order(rows: Seq<Transaction>, sorted: Seq<Transaction>) -> bool {
    &&& sorted_by_date(sorted)
    &&& forall|day: int| #[trigger] dated(sorted, day) == dated(rows, day)
}

/// `rows` in stable date order (`sort_by_date` shows that it exists).
pub open spec fn date_order(rows: Seq<Transaction>) -> Seq<Transaction> {
    choose|sorted: Seq<Transaction>| is_stable_date_order(rows, sorted)
}

/// Picking the transactions of a day distributes over concatenation.
pub proof fn lemma_dated_add(a: Seq<Transaction>, b: Seq<Transaction>, day: int)
    ensures
        dated(a + b, day) == dated(a, day) + dated(b, day),
    decreases b.len(),
{
    if b.len() == 0 {
        assert(a + b =~= a);
        assert(dated(a, day) + dated(b, day) =~= dated(a, day));
    } else {
        assert((a + b).drop_last() =~= a + b.drop_last());
        lemma_dated_add(a, b.drop_last(), day);
        if b.last().date == day {
            assert(dated(a, day) + dated(b.drop_last(), day).push(b.last()) =~= (dated(a, day)
                + dated(b.drop_last(), day)).push(b.last()));
        }
    }
}

/// No transaction of `rows` is dated `day`: none is picked.
pub proof fn lemma_dated_absent(rows: Seq<Transaction>, day: int)
    requires
        forall|i: int| 0 <= i < rows.len() ==> #[trigger] rows[i].date != day,
    ensures
        dated(rows, day) == Seq::<Transaction>::empty(),
    decreases rows.len(),
{
    if rows.len() > 0 {
        lemma_dated_absent(rows.drop_last(), day);
    }
}

proof fn lemma_dated_single(x: Transaction, day: int)
    ensures
        dated(seq![x], day) == (if x.date == day {
            seq![x]
        } else {
            Seq::<Transaction>::empty()
        }),
{
    assert(seq![x].drop_last() =~= Seq::<Transaction>::empty());
    assert(dated(Seq::<Transaction>::empty(), day) == Seq::<Transaction>::empty());
    assert(seq![x].last() == x);
    if x.date == day {
        assert(Seq::<Transaction>::empty().push(x) =~= seq![x]);
    }
}

/// Inserting `x` after every transaction dated no later than it, in front of every
/// later one, extends the day of `x` by `x` at its end and leaves the other days alone.
proof fn lemma_dated_insert(out: Seq<Transaction>, p: int, x: Transaction, day: int)
    requires
        0 <= p <= out.len(),
        forall|i: int| p <= i < out.len() ==> #[trigger] out[i].date > x.date,
    ensures
        dated(out.insert(p, x), day) == (if x.date == day {
            dated(out, day).push(x)
        } else {
            dated(out, day)
        }),
{
    let front = out.subrange(0, p);
    let back = out.subrange(p, out.len() as int);
    assert(out.insert(p, x) =~= front + seq![x] + back);
    assert(out =~= front + back);
    lemma_dated_add(front + seq![x], back, day);
    lemma_dated_add(front, seq![x], day);
    lemma_dated_add(front, back, day);
    lemma_dated_single(x, day);
    if x.date == day {
        assert forall|i: int| 0 <= i < back.len() implies #[trigger] back[i].date != day by {
            assert(back[i] == out[p + i]);
        }
        lemma_dated_absent(back, day);
        assert(dated(front, day) + seq![x] + Seq::<Transaction>::empty() =~= (dated(front, day)
            + Seq::<Transaction>::empty()).push(x));
    } else {
        assert(dated(front, day) + Seq::<Transaction>::empty() =~= dated(front, day));
    }
}

/// Some transaction of `rows` is dated `day` exactly where one is picked.
pub proof fn lemma_dated_nonempty(rows: Seq<Transaction>, day: int)
    ensures
        dated(rows, day).len() > 0 <==> exists|i: int| 0 <= i < rows.len() && #[trigger] rows[i].date
            == day,
    decreases rows.len(),
{
    if rows.len() > 0 {
        let rest = rows.drop_last();
        lemma_dated_nonempty(rest, day);
        if exists|i: int| 0 <= i < rest.len() && #[trigger] rest[i].date == day {
            let i = choose|i: int| 0 <= i < rest.len() && #[trigger] rest[i].date == day;
            assert(rows[i].date == day);
        }
        if exists|i: int| 0 <= i < rows.len() && #[trigger] rows[i].date == day {
            let i = choose|i: int| 0 <= i < rows.len() && #[trigger] rows[i].date == day;
            if i < rows.len() - 1 {
                assert(rest[i].date == day);
            }
        }
    }
}

/// The date order of `rows` is determined: two sequences that both put `rows` in
/// stable date order are the same sequence.
pub proof fn lemma_stable_date_order_unique(
    rows: Seq<Transaction>,
    s1: Seq<Transaction>,
    s2: Seq<Transaction>,
)
    requires
        is_stable_date_order(rows, s1),
        is_stable_date_order(rows, s2),
    ensures
        s1 == s2,
{
    lemma_same_days_same_order(s1, s2);
}

proof fn lemma_same_days_same_order(s1: Seq<Transaction>, s2: Seq<Transaction>)
    requires
        sorted_by_date(s1),
        sorted_by_date(s2),
        forall|day: int| #[trigger] dated(s1, day) == dated(s2, day),
    ensures
        s1 == s2,
    decreases s1.len(),
{
    if s1.len() == 0 {
        if s2.len() > 0 {
            let d = s2.last().date as int;
            lemma_dated_nonempty(s2, d);
            assert(s2[s2.len() - 1].date == d);
            assert(dated(s1, d) == dated(s2, d));
        }
        assert(s1 =~= s2);
    } else {
        let m1 = s1.last().date as int;
        lemma_dated_nonempty(s1, m1);
        assert(s1[s1.len() - 1].date == m1);
        assert(dated(s1, m1) == dated(s2, m1));
        lemma_dated_nonempty(s2, m1);
        let j = choose|j: int| 0 <= j < s2.len() && #[trigger] s2[j].date == m1;
        let m2 = s2.last().date as int;
        assert(s2[s2.len() - 1].date == m2);
        assert(m1 <= m2);
        lemma_dated_nonempty(s2, m2);
        assert(dated(s1, m2) == dated(s2, m2));
        lemma_dated_nonempty(s1, m2);
        let k = choose|k: int| 0 <= k < s1.len() && #[trigger] s1[k].date == m2;
        assert(m2 <= m1);
        let r1 = s1.drop_last();
        let r2 = s2.drop_last();
        assert(dated(s1, m1) == dated(r1, m1).push(s1.last()));
        assert(dated(s2, m1) == dated(r2, m1).push(s2.last()));
        assert(s1.last() == dated(s1, m1).last());
        assert(s1.last() == s2.last());
        assert forall|day: int| #[trigger] dated(r1, day) == dated(r2, day) by {
            if day == m1 {
                assert(dated(r1, day) =~= dated(s1, day).drop_last());
                assert(dated(r2, day) =~= dated(s2, day).drop_last());
            } else {
                assert(dated(s1, day) == dated(r1, day));
                assert(dated(s2, day) == dated(r2, day));
            }
        }
        lemma_same_days_same_order(r1, r2);
        assert(s1 =~= r1.push(s1.last()));
        assert(s2 =~= r2.push(s2.last()));
    }
}

/// `rows` in date order; transactions of one day keep their order in `rows`.
pub fn sort_by_date(rows: Vec<Transaction>) -> (sorted: Vec<Transaction>)
    ensures
        is_stable_date_order(rows@, sorted@),
        sorted@ == date_order(rows@),
        sorted@.len() == rows@.len(),
        forall|i: int, j: int|
            0 <= i <= j < sorted@.len() ==> #[trigger] sorted@[i].date <= #[trigger] sorted@[j].date,
{
    let ghost orig = rows@;
    let mut rest = rows;
    let mut out: Vec<Transaction> = Vec::new();
    let ghost mut k: int = 0;
    while rest.len() > 0
        invariant
            0 <= k <= orig.len(),
            rest@ == orig.subrange(k, orig.len() as int),
            out@.len() == k,
            sorted_by_date(out@),
            forall|day: int| #[trigger] dated(out@, day) == dated(orig.take(k), day),
        decreases rest.len(),
    {
        let x = rest.remove(0);
        let mut p: usize = 0;
        while p < out.len() && out[p].date <= x.date
            invariant
                p <= out.len(),
                sorted_by_date(out@),
                forall|i: int| 0 <= i < p ==> #[trigger] out@[i].date <= x.date,
            decreases out.len() - p,
        {
            p = p + 1;
        }
        proof {
            assert forall|i: int| p <= i < out@.len() implies #[trigger] out@[i].date > x.date by {
                assert(out@[p as int].date > x.date);
                assert(out@[p as int].date <= out@[i].date);
            }
            let next = orig.take(k + 1);
            assert(next.drop_last() =~= orig.take(k));
            assert(next.last() == x);
            assert forall|day: int|
                #[trigger] dated(out@.insert(p as int, x), day) == dated(next, day) by {
                lemma_dated_insert(out@, p as int, x, day);
            }
            let ins = out@.insert(p as int, x);
            assert forall|i: int, j: int| 0 <= i <= j < ins.len() implies ins[i].date
                <= ins[j].date by {
                if i < p && j > p {
                    assert(ins[j] == out@[j - 1]);
                } else if i < p && j == p {
                } else if i == p && j > p {
                    assert(ins[j] == out@[j - 1]);
                } else if i > p {
                    assert(ins[i] == out@[i - 1] && ins[j] == out@[j - 1]);
                }
            }
            k = k + 1;
        }
        out.insert(p, x);
        assert(rest@ =~= orig.subrange(k, orig.len() as int));
    }
    assert(orig.take(k) =~= orig);
    proof {
        lemma_stable_date_order_unique(orig, out@, date_order(orig));
    }
    out
}


/// How many times `t` occurs in `rows`.
pub open spec fn occurrences(rows: Seq<Transaction>, t: Transaction) -> nat
    decreases rows.len(),
{
    if rows.len() == 0 {
        0
    } else {
        occurrences(rows.drop_last(), t) + if rows.last() == t { 1nat } else { 0nat }
    }
}

proof fn lemma_occurrences_in_day(rows: Seq<Transaction>, t: Transaction)
    ensures
        occurrences(rows, t) == occurrences(dated(rows, t.date as int), t),
    decreases rows.len(),
{
    if rows.len() > 0 {
        lemma_occurrences_in_day(rows.drop_last(), t);
        let rest = dated(rows.drop_last(), t.date as int);
        if rows.last().date == t.date {
            assert(rest.push(rows.last()).drop_last() =~= rest);
        }
    } else {
        assert(dated(rows, t.date as int) == Seq::<Transaction>::empty());
    }
}

/// A stable date order of `rows` holds every transaction of `rows` as often as `rows`
/// does: it is a permutation of `rows`.
pub proof fn lemma_stable_date_order_permutes(rows: Seq<Transaction>, sorted: Seq<Transaction>, t: Transaction)
    requires
        is_stable_date_order(rows, sorted),
    ensures
        occurrences(sorted, t) == occurrences(rows, t),
{
    lemma_occurrences_in_day(rows, t);
    lemma_occurrences_in_day(sorted, t);
    assert(dated(sorted, t.date as int) == dated(rows, t.date as int));
}

} // verus!
