use avr_delay::actual_iterations;
use avr_delay::cycle_count_micros;
use avr_delay::iteration_count;
use avr_delay::atoms::twenty_five_cycles::iterations_required;
use avr_delay::control_loop::run_delay_loop;
use avr_delay::nap::naps_required;
use avr_delay::util::division_ceil;

#[test]
fn scenario_thousand_cycles() {
    assert_eq!(iterations_required(1000), 40);
    assert_eq!(actual_iterations(40), 15);
    assert_eq!(iteration_count(1000), 15);
}

#[test]
fn scenario_one_atom() {
    assert_eq!(iterations_required(25), 1);
    assert_eq!(actual_iterations(1), 1);
    assert_eq!(iteration_count(25), 1);
}

#[test]
fn scenario_sub_atom_request() {
    // A request shorter than one atom still rounds up to a single atom.
    assert_eq!(iterations_required(10), 1);
    assert_eq!(iteration_count(10), 1);
}

#[test]
fn zero_request_solves_to_zero() {
    assert_eq!(iterations_required(0), 0);
    assert_eq!(actual_iterations(0), 0);
    assert_eq!(iteration_count(0), 0);
    assert_eq!(naps_required(0), 0);
}

#[test]
fn microsecond_conversion() {
    // 16 MHz clock: one millisecond of microseconds is 16,000 cycles.
    assert_eq!(cycle_count_micros(1000), 16_000);
    assert_eq!(cycle_count_micros(1), 16);
    assert_eq!(cycle_count_micros(0), 0);
}

#[test]
fn division_ceil_exact_values() {
    assert_eq!(division_ceil(0, 5), 0);
    assert_eq!(division_ceil(1, 5), 1);
    assert_eq!(division_ceil(4, 5), 1);
    assert_eq!(division_ceil(5, 5), 1);
    assert_eq!(division_ceil(6, 5), 2);
    assert_eq!(division_ceil(647, 25), 26);
    assert_eq!(division_ceil(u32::MAX, 1), u32::MAX);
    assert_eq!(division_ceil(u32::MAX, 25), 171_798_692);
}

#[test]
fn naps_required_exact_values() {
    assert_eq!(naps_required(1000), 40);
    assert_eq!(naps_required(23), 1);
    assert_eq!(naps_required(25), 1);
    assert_eq!(naps_required(26), 2);
}

#[test]
fn solver_is_monotonic_over_small_requests() {
    let mut cycles: u32 = 0;
    let mut last: u32 = iteration_count(0);
    while cycles < 1200 {
        cycles += 1;
        let next: u32 = iteration_count(cycles);
        assert!(last <= next);
        last = next;
    }
}

#[test]
fn solver_is_deterministic() {
    let mut cycles: u32 = 0;
    while cycles <= 2000 {
        assert_eq!(iteration_count(cycles), iteration_count(cycles));
        cycles += 97;
    }
}

#[test]
fn realized_delay_covers_small_requests() {
    let mut cycles: u32 = 0;
    while cycles <= 48 {
        let trips: u32 = iteration_count(cycles);
        if trips > 0 {
            assert!(run_delay_loop(trips) >= cycles as u64);
        }
        cycles += 1;
    }
    cycles = 76;
    while cycles <= 89 {
        let trips: u32 = iteration_count(cycles);
        assert!(trips > 0);
        assert!(run_delay_loop(trips) >= cycles as u64);
        cycles += 1;
    }
}

#[test]
fn discount_boundary_exact_values() {
    // Past 48 requested cycles the discount starts to undershoot: a
    // 49-cycle request still solves to a single iteration, whose realized
    // cost is 48 cycles.
    assert_eq!(iteration_count(48), 1);
    assert_eq!(iteration_count(49), 1);
    assert_eq!(run_delay_loop(1), 48);
}
