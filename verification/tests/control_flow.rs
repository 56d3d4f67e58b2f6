use primer::control_flow::{
    boolean_report, condition_report, conditional_number, count_up, countdown, divisibility,
    doubled_count, nonzero_report, reversed_range, walked_values, Divisibility, Tally,
};

#[test]
fn numbers_below_five_meet_the_condition() {
    assert_eq!(condition_report(3), "condition was true");
    assert_eq!(condition_report(4), "condition was true");
    assert_eq!(condition_report(-10), "condition was true");
    assert_eq!(condition_report(i32::MIN), "condition was true");
}

#[test]
fn five_and_above_fail_the_condition() {
    assert_eq!(condition_report(5), "condition was false");
    assert_eq!(condition_report(7), "condition was false");
    assert_eq!(condition_report(i32::MAX), "condition was false");
}

#[test]
fn a_set_flag_is_reported() {
    assert_eq!(boolean_report(true), Some("boolean is true"));
    assert_eq!(boolean_report(false), None);
}

#[test]
fn every_number_but_zero_is_reported() {
    assert_eq!(nonzero_report(3), Some("number is something other than zero"));
    assert_eq!(nonzero_report(-1), Some("number is something other than zero"));
    assert_eq!(nonzero_report(0), None);
}

#[test]
fn six_is_found_divisible_by_three() {
    assert_eq!(divisibility(6), Divisibility::ByThree);
    assert_eq!(divisibility(6).message(), "number is divisible by 3");
}

#[test]
fn the_first_divisor_in_the_order_four_three_two_wins() {
    assert_eq!(divisibility(8), Divisibility::ByFour);
    assert_eq!(divisibility(12), Divisibility::ByFour);
    assert_eq!(divisibility(0), Divisibility::ByFour);
    assert_eq!(divisibility(9), Divisibility::ByThree);
    assert_eq!(divisibility(18), Divisibility::ByThree);
    assert_eq!(divisibility(2), Divisibility::ByTwo);
    assert_eq!(divisibility(10), Divisibility::ByTwo);
    assert_eq!(divisibility(1), Divisibility::Indivisible);
    assert_eq!(divisibility(7), Divisibility::Indivisible);
    assert_eq!(divisibility(25), Divisibility::Indivisible);
}

#[test]
fn negative_numbers_are_divided_like_positive_ones() {
    assert_eq!(divisibility(-8), Divisibility::ByFour);
    assert_eq!(divisibility(-9), Divisibility::ByThree);
    assert_eq!(divisibility(-6), Divisibility::ByThree);
    assert_eq!(divisibility(-2), Divisibility::ByTwo);
    assert_eq!(divisibility(-7), Divisibility::Indivisible);
    assert_eq!(divisibility(i32::MIN), Divisibility::ByFour);
    assert_eq!(divisibility(i32::MAX), Divisibility::Indivisible);
}

#[test]
fn each_finding_has_its_sentence() {
    assert_eq!(Divisibility::ByFour.message(), "number is divisible by 4");
    assert_eq!(Divisibility::ByThree.message(), "number is divisible by 3");
    assert_eq!(Divisibility::ByTwo.message(), "number is divisible by 2");
    assert_eq!(
        Divisibility::Indivisible.message(),
        "number is not divisible by 4, 3, or 2"
    );
}

#[test]
fn the_condition_picks_five_or_six() {
    assert_eq!(conditional_number(true), 5);
    assert_eq!(conditional_number(false), 6);
}

#[test]
fn counting_to_ten_yields_twenty() {
    assert_eq!(doubled_count(10), 20);
}

#[test]
fn doubled_count_doubles_its_goal() {
    assert_eq!(doubled_count(1), 2);
    assert_eq!(doubled_count(2), 4);
    assert_eq!(doubled_count(1000), 2000);
    assert_eq!(doubled_count(i32::MAX / 2), i32::MAX - 1);
}

#[test]
fn counting_up_to_two_stops_both_loops_in_the_third_round() {
    let (tally, count) = count_up(2);
    assert_eq!(
        tally,
        vec![
            Tally::Count(0),
            Tally::Remaining(10),
            Tally::Remaining(9),
            Tally::Count(1),
            Tally::Remaining(10),
            Tally::Remaining(9),
            Tally::Count(2),
            Tally::Remaining(10),
        ]
    );
    assert_eq!(count, 2);
}

#[test]
fn counting_up_to_zero_stops_in_the_first_round() {
    let (tally, count) = count_up(0);
    assert_eq!(tally, vec![Tally::Count(0), Tally::Remaining(10)]);
    assert_eq!(count, 0);
}

#[test]
fn counting_up_takes_three_lines_a_round_and_two_at_the_end() {
    let (tally, count) = count_up(50);
    assert_eq!(count, 50);
    assert_eq!(tally.len(), 3 * 50 + 2);
    assert_eq!(tally[3 * 17], Tally::Count(17));
    assert_eq!(tally[3 * 17 + 1], Tally::Remaining(10));
    assert_eq!(tally[3 * 17 + 2], Tally::Remaining(9));
    assert_eq!(tally[3 * 50], Tally::Count(50));
    assert_eq!(tally[3 * 50 + 1], Tally::Remaining(10));
}

#[test]
fn the_countdown_from_three_runs_three_two_one() {
    assert_eq!(countdown(3), vec![3, 2, 1]);
}

#[test]
fn the_countdown_from_zero_is_empty() {
    assert_eq!(countdown(0), Vec::<u32>::new());
    assert_eq!(countdown(1), vec![1]);
}

#[test]
fn the_range_from_one_to_four_runs_backwards_three_two_one() {
    assert_eq!(reversed_range(1, 4), vec![3, 2, 1]);
}

#[test]
fn reversed_ranges_leave_their_end_out() {
    assert_eq!(reversed_range(-2, 2), vec![1, 0, -1, -2]);
    assert_eq!(reversed_range(5, 6), vec![5]);
    assert_eq!(reversed_range(i32::MAX - 2, i32::MAX), vec![i32::MAX - 1, i32::MAX - 2]);
    assert_eq!(reversed_range(i32::MIN, i32::MIN + 2), vec![i32::MIN + 1, i32::MIN]);
}

#[test]
fn a_range_that_ends_before_it_starts_is_empty() {
    assert_eq!(reversed_range(4, 1), Vec::<i32>::new());
    assert_eq!(reversed_range(4, 4), Vec::<i32>::new());
}

#[test]
fn the_walk_goes_through_five_tens() {
    assert_eq!(walked_values(), [10, 20, 30, 40, 50]);
}
