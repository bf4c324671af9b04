use ljka::schedule::{StepController, MAX_STEPS_PER_FRAME};

#[test]
fn hundredth_step_completes_generation() {
    let mut sc = StepController::new(50, 100);
    for i in 1..=100u32 {
        let done = sc.add_step();
        if i < 100 {
            assert!(!done);
            assert_eq!(sc.current_step(), i);
        } else {
            assert!(done);
        }
    }
    assert_eq!(sc.current_step(), 0);
}

#[test]
fn no_steps_before_a_period_has_passed() {
    // 50 steps per second: a period is 20 000 microseconds
    let mut sc = StepController::new(50, 100);
    assert_eq!(sc.steps_next_frame(10_000), 0);
    assert_eq!(sc.accumulated_micros(), 10_000);
    // exactly one period does not exceed it
    assert_eq!(sc.steps_next_frame(10_000), 0);
    assert_eq!(sc.accumulated_micros(), 20_000);
    assert_eq!(sc.steps_next_frame(1), 1);
    assert_eq!(sc.accumulated_micros(), 0);
}

#[test]
fn steps_are_rounded_half_up() {
    let mut sc = StepController::new(50, 100);
    // 0.05 s at 50/s: 2.5 steps
    assert_eq!(sc.steps_next_frame(50_000), 3);
    // 0.049 s: 2.45 steps
    assert_eq!(sc.steps_next_frame(49_000), 2);
}

#[test]
fn burst_after_stall_is_capped() {
    let mut sc = StepController::new(50, 100);
    assert_eq!(sc.steps_next_frame(10_000_000), MAX_STEPS_PER_FRAME);
    assert_eq!(sc.accumulated_micros(), 0);
    assert_eq!(sc.steps_next_frame(u64::MAX), MAX_STEPS_PER_FRAME);
}

#[test]
fn zero_speed_never_steps() {
    let mut sc = StepController::new(0, 10);
    assert_eq!(sc.steps_next_frame(1_000_000_000), 0);
}

#[test]
fn speed_changes_scale_and_restart_the_timer() {
    let mut sc = StepController::new(50, 100);
    assert_eq!(sc.millisteps_per_second(), 50_000);
    assert_eq!(sc.steps_next_frame(15_000), 0);
    sc.increase_speed();
    assert_eq!(sc.millisteps_per_second(), 62_500);
    assert_eq!(sc.accumulated_micros(), 0);
    sc.decrease_speed();
    assert_eq!(sc.millisteps_per_second(), 50_000);
    sc.change_speed(3, 2);
    assert_eq!(sc.millisteps_per_second(), 75_000);
    sc.change_speed(1, 7);
    assert_eq!(sc.millisteps_per_second(), 10_714);
    assert_eq!(sc.max_steps(), 100);
}

#[test]
fn zero_length_generation_completes_every_step() {
    let mut sc = StepController::new(50, 0);
    assert!(sc.add_step());
    assert!(sc.add_step());
    assert_eq!(sc.current_step(), 0);
}
