use rust_graphics::time::{delta_time, startup, total_elapsed, update, Clock};

#[test]
fn startup_sets_both_instants() {
    let clock = startup(1_000);
    assert_eq!(clock, Clock { start_nanos: 1_000, last_frame_nanos: 1_000 });
    assert_eq!(total_elapsed(&clock, 1_000), 0);
    assert_eq!(delta_time(&clock, 1_000), 0);
}

#[test]
fn update_moves_last_frame_only() {
    let mut clock = startup(500);
    update(&mut clock, 2_500);
    assert_eq!(clock.start_nanos, 500);
    assert_eq!(clock.last_frame_nanos, 2_500);
    assert_eq!(total_elapsed(&clock, 4_000), 3_500);
    assert_eq!(delta_time(&clock, 4_000), 1_500);
}

#[test]
fn delta_time_is_zero_right_after_update() {
    let mut clock = startup(0);
    update(&mut clock, 16_666_667);
    assert_eq!(delta_time(&clock, 16_666_667), 0);
    assert_eq!(total_elapsed(&clock, 16_666_667), 16_666_667);
}

#[test]
fn readings_before_the_clock_give_zero() {
    let mut clock = startup(10_000);
    update(&mut clock, 20_000);
    assert_eq!(total_elapsed(&clock, 5_000), 0);
    assert_eq!(delta_time(&clock, 15_000), 0);
}

#[test]
fn largest_readings_do_not_overflow() {
    let clock = startup(0);
    assert_eq!(total_elapsed(&clock, u64::MAX), u64::MAX);
    let late = startup(u64::MAX);
    assert_eq!(delta_time(&late, 0), 0);
}
