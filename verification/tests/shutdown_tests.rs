use ipbot::shutdown::{race_after_signal, Termination};

#[test]
fn unresponsive_loop_exits_when_the_grace_period_elapses() {
    let (winner, exit_after) = race_after_signal(None, 5);
    assert_eq!(winner, Termination::GraceExpired);
    assert_eq!(exit_after, 5);
}

#[test]
fn prompt_loop_exits_at_once_without_waiting_out_the_grace_period() {
    let (winner, exit_after) = race_after_signal(Some(2), 5);
    assert_eq!(winner, Termination::LoopCompleted);
    assert_eq!(exit_after, 2);
}

#[test]
fn slow_loop_is_cut_off_at_the_grace_period() {
    let (winner, exit_after) = race_after_signal(Some(9), 5);
    assert_eq!(winner, Termination::GraceExpired);
    assert_eq!(exit_after, 5);
}

#[test]
fn loop_stopping_exactly_at_the_deadline_is_cut_off() {
    let (winner, exit_after) = race_after_signal(Some(5), 5);
    assert_eq!(winner, Termination::GraceExpired);
    assert_eq!(exit_after, 5);
}
