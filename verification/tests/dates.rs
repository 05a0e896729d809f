use budget::dates::{day_after, UserParams, FIRST_DAY, LAST_DAY, USER_ID_FOR_TEST};
use chrono::Datelike;

#[test]
fn calendar_bounds_are_chronos() {
    assert_eq!(chrono::NaiveDate::MIN.num_days_from_ce(), FIRST_DAY);
    assert_eq!(chrono::NaiveDate::MAX.num_days_from_ce(), LAST_DAY);
}

#[test]
fn day_after_is_the_next_day() {
    let d = chrono::NaiveDate::from_ymd_opt(2022, 8, 31).unwrap().num_days_from_ce();
    let next = day_after(d).unwrap();
    assert_eq!(next, d + 1);
    assert_eq!(
        chrono::NaiveDate::from_num_days_from_ce_opt(next).unwrap(),
        chrono::NaiveDate::from_ymd_opt(2022, 9, 1).unwrap()
    );
}

#[test]
fn day_after_at_the_ends_of_the_calendar() {
    assert_eq!(day_after(LAST_DAY - 1), Some(LAST_DAY));
    assert_eq!(day_after(LAST_DAY), None);
    assert_eq!(day_after(FIRST_DAY), Some(FIRST_DAY + 1));
    assert_eq!(day_after(FIRST_DAY - 1), None);
}

#[test]
fn user_params_for_today() {
    let p = UserParams::for_today(738000).unwrap();
    assert_eq!(p.user_id, USER_ID_FOR_TEST);
    assert_eq!(p.user_id, 1);
    assert_eq!(p.todays_date, 738000);
    assert_eq!(p.next_income_date, 738001);
    assert_eq!(UserParams::for_today(LAST_DAY), None);
}
