use project_evolution::creature::MovementParameters;
use project_evolution::simulation::motor_limits;
use project_evolution::simulation::motor_target;

#[test]
fn extension_scenario() {
    // extension_period = 10, contraction_period = 10.
    let mp = MovementParameters::new(1000, 10, 10);
    assert_eq!(mp.get_extension_at(0), 500);
    assert_eq!(mp.get_extension_at(5), 750);
    assert_eq!(mp.get_extension_at(10), 1000);
    assert_eq!(mp.get_extension_at(15), 500);
    // After the first period the fraction rises from 0, so the wrap lands
    // on the non-first-period rule.
    assert_eq!(mp.get_extension_at(20), 0);
}

#[test]
fn extension_stays_in_range_and_rests_at_zero() {
    let schedules = [
        MovementParameters::new(5000, 15, 240),
        MovementParameters::new(0, 240, 15),
        MovementParameters::new(123, 17, 23),
        MovementParameters::new(4_000_000_000, 1, 1),
    ];
    for mp in &schedules {
        assert_eq!(mp.get_extension_at(0), 500);
        for t in 0..2000u64 {
            let v = mp.get_extension_at(t);
            assert!(0 <= v && v <= 1000);
        }
    }
}

#[test]
fn extending_fractions_never_decrease() {
    let mp = MovementParameters::new(777, 17, 23);
    let total = 40u64;
    for t in 0..2000u64 {
        if mp.is_extending(t) && mp.is_extending(t + 1) && (t + 1) % total != 0 {
            assert!(mp.get_extension_at(t + 1) >= mp.get_extension_at(t));
        }
    }
}

#[test]
fn is_extending_matches_cycle_halves() {
    let mp = MovementParameters::new(777, 10, 30);
    for t in 0..10u64 {
        assert!(mp.is_extending(t));
    }
    for t in 10..40u64 {
        assert!(!mp.is_extending(t));
    }
    assert!(mp.is_extending(40));
}

#[test]
fn mutation_keeps_periods_in_legal_range() {
    let mut mp = MovementParameters::new(5000, 60, 60);
    for _ in 0..1000 {
        mp = MovementParameters::mutate(&mp);
        assert!(15 <= mp.extension_period() && mp.extension_period() <= 240);
        assert!(15 <= mp.contraction_period() && mp.contraction_period() <= 240);
        assert_eq!(mp.muscle_length(), 5000);
    }
}

#[test]
fn mutation_moves_periods() {
    // The deltas are drawn from the random source: over many mutations
    // the periods must actually move, not echo their inputs.
    let mut mp = MovementParameters::new(5000, 60, 60);
    let mut changed = false;
    for _ in 0..100 {
        mp = MovementParameters::mutate(&mp);
        if mp.extension_period() != 60 || mp.contraction_period() != 60 {
            changed = true;
        }
    }
    assert!(changed);
}

#[test]
fn motor_target_tracks_extension() {
    let mp = MovementParameters::new(1000, 10, 10);
    // At rest (fraction 500) the motor target is zero.
    assert_eq!(motor_target(&mp, 0), 0);
    // Fully extended: half the natural length beyond rest.
    assert_eq!(motor_target(&mp, 10), 500);
    // Fully contracted: half the natural length under rest.
    assert_eq!(motor_target(&mp, 20), -500);
}

#[test]
fn motor_limits_allow_overshoot() {
    let mp = MovementParameters::new(1000, 10, 10);
    assert_eq!(motor_limits(&mp), (-575, 575));
    let long = MovementParameters::new(2000, 10, 10);
    assert_eq!(motor_limits(&long), (-1150, 1150));
}
