use presence_link::utils::elapsed_seconds;
use presence_link::utils::map_range;
use presence_link::utils::seconds_from_reading;
use presence_link::utils::truncate_seconds;
use presence_link::utils::unix_seconds;

#[test]
fn map_range_holds_the_ends() {
    assert_eq!(map_range(-100, -100, -10, 2, 30), 2);
    assert_eq!(map_range(-10, -100, -10, 2, 30), 30);
    assert_eq!(map_range(-101, -100, -10, 2, 30), 2);
    assert_eq!(map_range(-9, -100, -10, 2, 30), 30);
    assert_eq!(map_range(i32::MIN, -100, -10, 2, 30), 2);
    assert_eq!(map_range(i32::MAX, -100, -10, 2, 30), 30);
}

#[test]
fn map_range_interpolates_and_truncates() {
    // 45 of 90 steps along a span of 28: 2 + 14.
    assert_eq!(map_range(-55, -100, -10, 2, 30), 16);
    // 1 of 90 steps: 2 + 0.31.. truncates to 2.
    assert_eq!(map_range(-99, -100, -10, 2, 30), 2);
    // 89 of 90 steps: 2 + 27.68.. truncates to 29.
    assert_eq!(map_range(-11, -100, -10, 2, 30), 29);
    // 4 of 90 steps: 2 + 1.24..
    assert_eq!(map_range(-96, -100, -10, 2, 30), 3);
    assert_eq!(map_range(5, 0, 10, 0, 255), 127);
    assert_eq!(map_range(1, 0, 3, 10, 20), 13);
}

#[test]
fn map_range_agrees_with_floating_point() {
    for x in -120..=10 {
        let clamped = (x as f32).clamp(-100.0, -10.0);
        let mapped = (clamped - -100.0) * (40.0 - 2.0) / (-10.0 - -100.0) + 2.0;
        let expected = mapped.clamp(2.0, 40.0) as u8;
        assert_eq!(map_range(x, -100, -10, 2, 40), expected);
    }
}

#[test]
fn map_range_never_decreases() {
    let mut last = map_range(-130, -100, -10, 2, 40);
    for x in -129..=20 {
        let here = map_range(x, -100, -10, 2, 40);
        assert!(here >= last);
        last = here;
    }
}

#[test]
fn map_range_takes_the_widest_input() {
    assert_eq!(map_range(0, i32::MIN, i32::MAX, 0, 255), 127);
    assert_eq!(map_range(i32::MAX, i32::MIN, i32::MAX, 0, 255), 255);
    assert_eq!(map_range(i32::MIN, i32::MIN, i32::MAX, 0, 255), 0);
    assert_eq!(map_range(7, 0, 1, 9, 9), 9);
}

#[test]
fn elapsed_seconds_counts_forward_only() {
    assert_eq!(elapsed_seconds(10, 25), 15);
    assert_eq!(elapsed_seconds(10, 10), 0);
    assert_eq!(elapsed_seconds(25, 10), 0);
    assert_eq!(elapsed_seconds(0, u32::MAX), u32::MAX);
    assert_eq!(elapsed_seconds(u32::MAX, 0), 0);
}

#[test]
fn truncate_seconds_keeps_the_low_half() {
    assert_eq!(truncate_seconds(0), 0);
    assert_eq!(truncate_seconds(1_700_000_000), 1_700_000_000);
    assert_eq!(truncate_seconds(0xffff_ffff), u32::MAX);
    assert_eq!(truncate_seconds(0x1_0000_0000), 0);
    assert_eq!(truncate_seconds(0x1_0000_0007), 7);
    assert_eq!(truncate_seconds(u64::MAX), u32::MAX);
}

#[test]
fn unix_seconds_reads_a_present_day_clock() {
    let first = unix_seconds();
    let second = unix_seconds();
    // Later than the start of 2020, and the two readings lie close together.
    assert!(first > 1_577_836_800);
    assert!(second.wrapping_sub(first) < 60);
}

#[test]
fn a_reading_before_the_epoch_counts_as_zero() {
    assert_eq!(seconds_from_reading(None), 0);
    assert_eq!(seconds_from_reading(Some(0)), 0);
    assert_eq!(seconds_from_reading(Some(1_700_000_000)), 1_700_000_000);
    assert_eq!(seconds_from_reading(Some(0x1_0000_0007)), 7);
    assert_eq!(seconds_from_reading(Some(u64::MAX)), u32::MAX);
}
