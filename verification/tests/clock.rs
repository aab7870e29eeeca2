use identify_unused_iam::clock::current_time_nanos;
use identify_unused_iam::clock::saturate_to_i64;

#[test]
fn the_clock_reads_a_present_day_time() {
    // Well after 2020, well before the end of the i64 nanosecond range.
    let now = current_time_nanos();
    assert!(now > 1_600_000_000_000_000_000);
    assert!(now < i64::MAX);
}

#[test]
fn in_range_values_pass_through() {
    assert_eq!(saturate_to_i64(0), 0);
    assert_eq!(saturate_to_i64(1_700_000_000_000_000_000), 1_700_000_000_000_000_000);
    assert_eq!(saturate_to_i64(-42), -42);
    assert_eq!(saturate_to_i64(i64::MAX as i128), i64::MAX);
    assert_eq!(saturate_to_i64(i64::MIN as i128), i64::MIN);
}

#[test]
fn out_of_range_values_saturate() {
    assert_eq!(saturate_to_i64(i64::MAX as i128 + 1), i64::MAX);
    assert_eq!(saturate_to_i64(i64::MIN as i128 - 1), i64::MIN);
    assert_eq!(saturate_to_i64(i128::MAX), i64::MAX);
    assert_eq!(saturate_to_i64(i128::MIN), i64::MIN);
}
