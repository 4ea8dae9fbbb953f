use avr_delay::control_loop::LoopState;
use avr_delay::control_loop::loop_transition;
use avr_delay::control_loop::run_delay_loop;

#[test]
fn transition_counts_down_to_done() {
    assert_eq!(loop_transition(LoopState::Looping(2)), LoopState::Looping(1));
    assert_eq!(loop_transition(LoopState::Looping(1)), LoopState::Looping(0));
    assert_eq!(loop_transition(LoopState::Looping(0)), LoopState::Done);
    assert_eq!(loop_transition(LoopState::Done), LoopState::Done);
}

#[test]
fn run_accounts_every_cycle() {
    // Zero iterations still pay for the final failing check.
    assert_eq!(run_delay_loop(0), 7);
    // Each iteration costs one 25-cycle atom plus 16 bookkeeping cycles.
    assert_eq!(run_delay_loop(1), 48);
    assert_eq!(run_delay_loop(2), 89);
    assert_eq!(run_delay_loop(15), 622);
    assert_eq!(run_delay_loop(40), 1647);
}
