use game_engine::Guess;
use game_engine::GuessOutcome;
use game_engine::Rectangle;
use game_engine::TimerScoped;
use game_engine::area;
use game_engine::entity;
use game_engine::guess_in_range;
use game_engine::guess_outcome;
use game_engine::now_ms;
use game_engine::now_ms_workaround;
use game_engine::now_ns;
use game_engine::ns_to_ms;
use game_engine::ns_to_us;
use game_engine::us_to_ms;
use game_engine::now_us;
use game_engine::checked_total;
use game_engine::cofactor_sign;
use game_engine::minor_index;
use game_engine::parts_sums;

#[test]
fn guess_keeps_its_value() {
    let g = Guess::new(50);
    assert_eq!(g.value(), 50);
    assert_eq!(Guess::new(1).value(), 1);
    assert_eq!(Guess::new(100).value(), 100);
}

#[test]
fn guess_range_boundaries() {
    assert!(!guess_in_range(0));
    assert!(guess_in_range(1));
    assert!(guess_in_range(100));
    assert!(!guess_in_range(101));
    assert!(!guess_in_range(-7));
}

#[test]
fn guess_outcome_each_way() {
    let secret = Guess::new(42);
    assert_eq!(guess_outcome(&Guess::new(10), &secret), GuessOutcome::TooLow);
    assert_eq!(guess_outcome(&Guess::new(90), &secret), GuessOutcome::TooHigh);
    assert_eq!(guess_outcome(&Guess::new(42), &secret), GuessOutcome::Correct);
}

#[test]
fn area_of_a_rectangle() {
    let r = Rectangle { width: 3, height: 4 };
    assert_eq!(area(&r), 12);
    let tall = Rectangle { width: 1, height: 4000000 };
    assert_eq!(area(&tall), 4000000);
}

#[test]
fn parts_sums_of_the_sample_list() {
    let input: Vec<u64> = vec![0, 1, 3, 6, 10];
    let output = parts_sums(&input);
    assert_eq!(output, vec![20, 20, 19, 16, 10, 0]);
}

#[test]
fn parts_sums_of_an_empty_list() {
    let input: Vec<u64> = vec![];
    assert_eq!(parts_sums(&input), vec![0]);
}

#[test]
fn parts_sums_of_a_single_part() {
    let input: Vec<u64> = vec![5];
    assert_eq!(parts_sums(&input), vec![5, 0]);
}

#[test]
fn clock_reads_after_the_epoch() {
    // This machine's clock stands well after 1970, at every resolution.
    assert!(now_ms() > 0);
    assert!(now_us() > now_ms());
    assert!(now_ns() > now_us());
}

#[test]
fn workaround_milliseconds_agree() {
    let a = now_ms();
    let b = now_ms_workaround();
    // Two separate clock reads, so allow a generous gap.
    assert!(b >= a && b - a < 1000);
}

#[test]
fn timer_reads_every_resolution() {
    let t = TimerScoped::new();
    assert!(t.t_ms > 0);
    assert!(t.t_us >= t.t_ms);
    assert!(t.t_ns >= t.t_us);
}

#[test]
fn entity_holds_its_id() {
    let e = entity { id: 7 };
    assert_eq!(e.id, 7);
}

#[test]
fn cofactor_sign_checkerboard() {
    assert_eq!(cofactor_sign(0, 0), 1);
    assert_eq!(cofactor_sign(0, 1), -1);
    assert_eq!(cofactor_sign(1, 0), -1);
    assert_eq!(cofactor_sign(1, 1), 1);
    assert_eq!(cofactor_sign(2, 3), -1);
    assert_eq!(cofactor_sign(3, 3), 1);
}

#[test]
fn minor_index_shifts_past_the_deleted_line() {
    assert_eq!(minor_index(0, 2), 0);
    assert_eq!(minor_index(1, 2), 1);
    assert_eq!(minor_index(3, 2), 2);
    assert_eq!(minor_index(3, 0), 2);
}

#[test]
fn checked_total_of_the_parts() {
    let input: Vec<u64> = vec![0, 1, 3, 6, 10];
    assert_eq!(checked_total(&input), Some(20));
    let empty: Vec<u64> = vec![];
    assert_eq!(checked_total(&empty), Some(0));
    let too_big: Vec<u64> = vec![u64::MAX, 1];
    assert_eq!(checked_total(&too_big), None);
    let edge: Vec<u64> = vec![u64::MAX, 0];
    assert_eq!(checked_total(&edge), Some(u64::MAX));
}

#[test]
fn clock_unit_conversions_are_exact() {
    assert_eq!(ns_to_ms(1_999_999), 1);
    assert_eq!(ns_to_ms(2_000_000), 2);
    assert_eq!(ns_to_us(12_345), 12);
    assert_eq!(us_to_ms(999), 0);
    assert_eq!(us_to_ms(65_432), 65);
    assert_eq!(us_to_ms(ns_to_us(3_000_000_000)), ns_to_ms(3_000_000_000));
}
