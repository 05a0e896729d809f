//! Calendar days, counted as chrono counts them from the common era
//! (0001-01-01 is day 1), and the per-user date parameters of the budget.

use vstd::prelude::*;

verus! {

/// The user every page of the budget is shown for.
pub const USER_ID_FOR_TEST: i32 = 1;

/// The first day number that chrono's `NaiveDate` can hold (January 1 of year -262143).
pub const FIRST_DAY: i32 = -95746129;

/// The last day number that chrono's `NaiveDate` can hold (December 31 of year 262142).
pub const LAST_DAY: i32 = 95745399;

/// A day number names a calendar date.
pub open spec fn is_calendar_day(day: int) -> bool {
    FIRST_DAY <= day <= LAST_DAY
}

/// `NaiveDate::from_num_days_from_ce_opt`, `NaiveDate::checked_add_signed` with
/// `Duration::days(days)` and `Datelike::num_days_from_ce`: the day `days` after `day`,
/// or `None` where either day is not a calendar date that chrono can hold.
#[verifier::external_body]
fn chrono_add_days(day: i32, days: i64) -> (later: Option<i32>)
    requires
        -1_000_000_000 <= days <= 1_000_000_000,
    ensures
        later == (if is_calendar_day(day as int) && is_calendar_day(day + days) {
            Some((day + days) as i32)
        } else {
            None::<i32>
        }),
{
    match chrono::NaiveDate::from_num_days_from_ce_opt(day) {
        Some(date) => match date.checked_add_signed(chrono::Duration::days(days)) {
            Some(later) => Some(chrono::Datelike::num_days_from_ce(&later)),
            None => None,
        },
        None => None,
    }
}

/// The day after `day`: `None` exactly where the successor falls outside the calendar.
pub fn day_after(day: i32) -> (next: Option<i32>)
    ensures
        next is Some <==> is_calendar_day(day as int) && is_calendar_day(day + 1),
        next matches Some(n) ==> n == day + 1,
{
    chrono_add_days(day, 1)
}

/// Who the budget is shown for, the day it is shown on, and the day on which the
/// next income is due: transactions strictly before that day are counted.
#[derive(Clone, Copy, Debug, PartialEq, Eq)]
pub struct UserParams {
    pub user_id: i32,
    pub todays_date: i32,
    pub next_income_date: i32,
}

impl UserParams {
    /// The parameters of the test user on `today`, with the next income assumed due
    /// tomorrow. `None` where tomorrow is not a calendar day.
    pub fn for_today(today: i32) -> (params: Option<UserParams>)
        ensures
            params is Some <==> is_calendar_day(today as int) && is_calendar_day(today + 1),
            params matches Some(p) ==> p.user_id == USER_ID_FOR_TEST && p.todays_date == today
                && p.next_income_date == today + 1,
    {
        match day_after(today) {
            Some(next) => Some(UserParams {
                user_id: USER_ID_FOR_TEST,
                todays_date: today,
                next_income_date: next,
            }),
            None => None,
        }
    }
}

} // verus!
