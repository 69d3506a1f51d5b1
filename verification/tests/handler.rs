use tunnel::tools::handler::{after_step, Pace, TICK_MILLIS};

#[test]
fn a_step_that_wants_more_pauses_for_one_millisecond() {
    assert_eq!(TICK_MILLIS, 1);
    assert_eq!(after_step::<String>(Ok(()), true), Pace::Pause(1));
}

#[test]
fn a_step_that_is_done_finishes_the_loop() {
    assert_eq!(after_step::<String>(Ok(()), false), Pace::Finished);
}

#[test]
fn a_failed_step_ends_the_loop_whatever_the_flag() {
    assert_eq!(after_step(Err("broken pipe".to_string()), true), Pace::Failed("broken pipe".to_string()));
    assert_eq!(after_step(Err(7u8), false), Pace::Failed(7u8));
}
