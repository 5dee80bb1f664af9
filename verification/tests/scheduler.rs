use phythyst::physics_time::PhysicsTime;
use phythyst::physics_time::MICROS_PER_SECOND;

#[test]
fn default_configuration() {
    let t = PhysicsTime::default();
    assert_eq!(t.delta_micros(), MICROS_PER_SECOND / 60);
    assert_eq!(t.delta_micros(), 16666);
    assert_eq!(t.sub_max_sub_steps(), 8);
    assert!(!t.in_sub_step());
    assert_eq!(t.time_bank, 0);
    assert_eq!(t.max_bank_size, 8 * 16666);
}

#[test]
fn huge_frame_is_clamped_to_max_sub_steps() {
    // One frame of ten seconds at the default 60 steps/s, 8 sub-steps max:
    // the bank clamps, so the frame pays for 8 sub-steps, not six hundred.
    let mut t = PhysicsTime::default();
    let steps = t.begin_sub_stepping(10_000_000);
    assert_eq!(steps, 8);
    assert!(t.in_sub_step());
    assert!(t.time_bank < t.delta_micros());
    t.end_sub_stepping();
    assert!(!t.in_sub_step());
}

#[test]
fn thirty_fps_four_sub_steps_consume_clamped_bank_exactly() {
    // fps = 30, max 4 sub-steps: the bank clamps to 4/30 s and is consumed
    // exactly, leaving an empty bank.
    let mut t = PhysicsTime::default()
        .with_frames_per_second(30)
        .with_max_sub_steps(4);
    assert_eq!(t.delta_micros(), 33333);
    assert_eq!(t.max_bank_size, 4 * 33333);

    let steps = t.begin_sub_stepping(200_000);
    assert_eq!(steps, 4);
    assert_eq!(t.time_bank, 0);
    t.end_sub_stepping();
}

#[test]
fn bank_stays_below_delta_after_every_pass() {
    let mut t = PhysicsTime::default();
    let frame_deltas: [u64; 7] = [0, 3_000, 16_666, 20_000, 1_000_000, 7, 999];
    for dt in frame_deltas {
        let steps = t.begin_sub_stepping(dt);
        assert!(t.time_bank < t.delta_micros());
        assert!(steps <= t.sub_max_sub_steps());
        t.end_sub_stepping();
    }
}

#[test]
fn short_frames_accumulate_into_a_step() {
    let mut t = PhysicsTime::default();
    let steps = t.begin_sub_stepping(10_000);
    assert_eq!(steps, 0);
    assert_eq!(t.time_bank, 10_000);
    t.end_sub_stepping();

    let steps = t.begin_sub_stepping(7_000);
    assert_eq!(steps, 1);
    assert_eq!(t.time_bank, 17_000 - 16_666);
    t.end_sub_stepping();
}

#[test]
fn shrinking_the_configuration_still_bounds_the_bank() {
    // Leave time in the bank, then shrink the sub-step duration below it:
    // the next pass clamps and pays out sub-steps, and the invariant
    // 0 <= time_bank < delta_micros holds again.
    let mut t = PhysicsTime::default();
    t.begin_sub_stepping(16_000);
    t.end_sub_stepping();
    assert_eq!(t.time_bank, 16_000);

    t.set_frames_per_seconds(500);
    assert_eq!(t.delta_micros(), 2_000);
    let steps = t.begin_sub_stepping(0);
    assert_eq!(steps, 8);
    assert!(t.time_bank < t.delta_micros());
    t.end_sub_stepping();
}

#[test]
fn reconfiguration_recomputes_the_bank_bound() {
    let mut t = PhysicsTime::default();
    t.set_frames_per_seconds(100);
    assert_eq!(t.delta_micros(), 10_000);
    assert_eq!(t.max_bank_size, 8 * 10_000);
    t.set_max_sub_steps(2);
    assert_eq!(t.max_bank_size, 2 * 10_000);

    let steps = t.begin_sub_stepping(1_000_000);
    assert_eq!(steps, 2);
    assert_eq!(t.time_bank, 0);
    t.end_sub_stepping();
}
