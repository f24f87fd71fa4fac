use semaphore::units::{give_unit, must_wait, take_unit};

#[test]
fn caller_waits_only_at_zero() {
    assert!(must_wait(0));
    assert!(!must_wait(1));
    assert!(!must_wait(2));
    assert!(!must_wait(u32::MAX));
}

#[test]
fn take_unit_lowers_count_by_one() {
    assert_eq!(take_unit(1), 0);
    assert_eq!(take_unit(2), 1);
    assert_eq!(take_unit(1000), 999);
    assert_eq!(take_unit(u32::MAX), u32::MAX - 1);
}

#[test]
fn give_unit_raises_count_by_one() {
    assert_eq!(give_unit(0), 1);
    assert_eq!(give_unit(1), 2);
    assert_eq!(give_unit(999), 1000);
    assert_eq!(give_unit(u32::MAX - 1), u32::MAX);
}

#[test]
fn give_unit_saturates_at_max() {
    assert_eq!(give_unit(u32::MAX), u32::MAX);
    assert_eq!(give_unit(give_unit(u32::MAX - 1)), u32::MAX);
}

#[test]
fn unit_given_is_never_zero() {
    assert!(!must_wait(give_unit(0)));
    assert!(!must_wait(give_unit(7)));
    assert!(!must_wait(give_unit(u32::MAX)));
}

#[test]
fn binary_count_goes_to_zero_and_back() {
    let start: u32 = 1;
    assert!(!must_wait(start));
    let taken = take_unit(start);
    assert_eq!(taken, 0);
    assert!(must_wait(taken));
    assert_eq!(give_unit(taken), 1);
}

#[test]
fn third_down_after_two_ups_on_empty_count_waits() {
    let mut count: u32 = 0;
    assert!(must_wait(count));
    count = give_unit(count);
    count = give_unit(count);
    assert_eq!(count, 2);
    assert!(!must_wait(count));
    count = take_unit(count);
    assert!(!must_wait(count));
    count = take_unit(count);
    assert_eq!(count, 0);
    assert!(must_wait(count));
}

#[test]
fn count_balances_downs_against_ups() {
    // start 2; down, up, up, down, down: 2 - 3 + 2
    let mut count: u32 = 2;
    count = take_unit(count);
    count = give_unit(count);
    count = give_unit(count);
    count = take_unit(count);
    count = take_unit(count);
    assert_eq!(count, 1);
}

#[test]
fn downs_never_outnumber_start_and_ups() {
    // start 1; up, down, down: after them nothing is left to take
    let mut count: u32 = 1;
    count = give_unit(count);
    count = take_unit(count);
    count = take_unit(count);
    assert_eq!(count, 0);
    assert!(must_wait(count));
}

#[test]
fn dropped_unit_breaks_the_balance_by_one() {
    // start MAX; up, down: one unit was dropped, so the count is MAX - 1
    let mut count: u32 = u32::MAX;
    count = give_unit(count);
    count = take_unit(count);
    assert_eq!(count, u32::MAX - 1);
}
