use spinning_top::pacing::{Pace, PaceError, Pacer, NANOS_PER_MICRO};

const MILLI: i64 = 1_000_000;

#[test]
fn a_new_pacer_holds_nothing() {
    let pacer = Pacer::new(MILLI, 42);
    assert_eq!(pacer.step(), MILLI);
    assert_eq!(pacer.tick(), 0);
    assert_eq!(pacer.previous(), 42);
}

#[test]
fn from_micros_scales_the_step() {
    assert_eq!(NANOS_PER_MICRO, 1_000);
    let pacer = Pacer::from_micros(1_000, 7).unwrap();
    assert_eq!(pacer.step(), MILLI);
    assert_eq!(pacer.tick(), 0);
    assert_eq!(pacer.previous(), 7);
    let slow = Pacer::from_micros(100_000, 0).unwrap();
    assert_eq!(slow.step(), 100 * MILLI);
}

#[test]
fn from_micros_refuses_a_step_beyond_64_bits() {
    assert!(Pacer::from_micros(i64::MAX / 1_000 + 1, 0).is_none());
    assert!(Pacer::from_micros(i64::MIN / 1_000 - 1, 0).is_none());
    assert_eq!(Pacer::from_micros(i64::MAX / 1_000, 0).unwrap().step(), 9_223_372_036_854_775_000);
}

#[test]
fn on_time_sleeps_out_the_rest_of_the_step() {
    let mut pacer = Pacer::new(MILLI, 0);
    assert_eq!(pacer.advance(400_000), Ok(Pace::Sleep(600)));
    assert_eq!(pacer.tick(), 0);
    assert_eq!(pacer.previous(), 400_000);
    assert_eq!(pacer.step(), MILLI);
}

#[test]
fn exactly_one_step_late_sleeps_for_nothing() {
    let mut pacer = Pacer::new(MILLI, 10);
    assert_eq!(pacer.advance(MILLI + 10), Ok(Pace::Sleep(0)));
    assert_eq!(pacer.tick(), 0);
}

#[test]
fn the_sleep_is_cut_to_whole_microseconds() {
    let mut pacer = Pacer::new(MILLI, 0);
    assert_eq!(pacer.advance(1), Ok(Pace::Sleep(999)));
    assert_eq!(pacer.advance(1 + 999_001), Ok(Pace::Sleep(0)));
    assert_eq!(pacer.advance(1 + 999_001 + 998_999), Ok(Pace::Sleep(1)));
}

#[test]
fn behind_consumes_one_step_and_does_not_sleep() {
    let mut pacer = Pacer::new(MILLI, 0);
    assert_eq!(pacer.advance(2_500_000), Ok(Pace::CatchUp));
    assert_eq!(pacer.tick(), 1_500_000);
    assert_eq!(pacer.previous(), 2_500_000);
    assert_eq!(pacer.advance(2_500_000), Ok(Pace::CatchUp));
    assert_eq!(pacer.tick(), 500_000);
    assert_eq!(pacer.advance(2_500_000), Ok(Pace::Sleep(500)));
    assert_eq!(pacer.tick(), 0);
}

#[test]
fn one_nanosecond_late_is_behind() {
    let mut pacer = Pacer::new(MILLI, 0);
    assert_eq!(pacer.advance(MILLI + 1), Ok(Pace::CatchUp));
    assert_eq!(pacer.tick(), 1);
}

#[test]
fn a_clock_that_went_back_lengthens_the_sleep() {
    let mut pacer = Pacer::new(MILLI, 5_000_000);
    assert_eq!(pacer.advance(3_000_000), Ok(Pace::Sleep(3_000)));
    assert_eq!(pacer.tick(), 0);
    assert_eq!(pacer.previous(), 3_000_000);
}

#[test]
fn a_step_of_nothing_or_less_never_sleeps_once_time_has_passed() {
    let mut pacer = Pacer::new(0, 0);
    assert_eq!(pacer.advance(0), Ok(Pace::Sleep(0)));
    assert_eq!(pacer.advance(5), Ok(Pace::CatchUp));
    assert_eq!(pacer.tick(), 5);
    let mut backwards = Pacer::new(-10, 0);
    assert_eq!(backwards.advance(0), Ok(Pace::CatchUp));
    assert_eq!(backwards.tick(), 10);
}

#[test]
fn the_widest_sleep_fits() {
    let mut pacer = Pacer::new(i64::MAX, i64::MAX);
    assert_eq!(pacer.advance(i64::MIN), Ok(Pace::Sleep(27_670_116_110_564_327)));
    assert_eq!(pacer.tick(), 0);
    assert_eq!(pacer.previous(), i64::MIN);
}

#[test]
fn a_backlog_beyond_64_bits_is_an_error_and_changes_nothing() {
    let mut pacer = Pacer::new(MILLI, i64::MIN);
    assert_eq!(pacer.advance(i64::MAX), Err(PaceError::LagOverflow));
    assert_eq!(pacer.step(), MILLI);
    assert_eq!(pacer.tick(), 0);
    assert_eq!(pacer.previous(), i64::MIN);
}

#[test]
fn the_largest_backlog_that_fits_is_kept() {
    let mut pacer = Pacer::new(0, 0);
    assert_eq!(pacer.advance(i64::MAX), Ok(Pace::CatchUp));
    assert_eq!(pacer.tick(), i64::MAX);
    assert_eq!(pacer.advance(i64::MAX), Ok(Pace::CatchUp));
    assert_eq!(pacer.tick(), i64::MAX);
    let mut over = Pacer::new(-1, 0);
    assert_eq!(over.advance(i64::MAX), Err(PaceError::LagOverflow));
}
