use chaos_particles::config::{Equation, SimulationConfig, EXPONENT_STEP_TENTHS};

#[test]
fn starts_with_lorenz_one_step_and_exponent_two_and_a_half() {
    let config = SimulationConfig::new();
    assert_eq!(config.equation, Equation::LorenzStandard);
    assert_eq!(config.steps, 1);
    assert_eq!(config.exponent_tenths, 25);
}

#[test]
fn fewer_steps_stops_at_zero() {
    let mut config = SimulationConfig::new();
    config.fewer_steps();
    assert_eq!(config.steps, 0);
    config.fewer_steps();
    assert_eq!(config.steps, 0);
    assert_eq!(config.equation, Equation::LorenzStandard);
    assert_eq!(config.exponent_tenths, 25);
}

#[test]
fn more_steps_adds_one_and_stops_at_the_largest_count() {
    let mut config = SimulationConfig::new();
    config.more_steps();
    assert_eq!(config.steps, 2);
    config.steps = 254;
    config.more_steps();
    assert_eq!(config.steps, 255);
    config.more_steps();
    assert_eq!(config.steps, 255);
}

#[test]
fn exponent_moves_by_one_increment_in_either_direction() {
    assert_eq!(EXPONENT_STEP_TENTHS, 2);
    let mut config = SimulationConfig::new();
    config.raise_exponent();
    assert_eq!(config.exponent_tenths, 27);
    config.lower_exponent();
    config.lower_exponent();
    assert_eq!(config.exponent_tenths, 23);
    for _ in 0..20 {
        config.lower_exponent();
    }
    assert_eq!(config.exponent_tenths, -17);
    assert_eq!(config.steps, 1);
}

#[test]
fn exponent_stays_where_the_next_value_does_not_fit() {
    let mut config = SimulationConfig::new();
    config.exponent_tenths = i32::MAX - 1;
    config.raise_exponent();
    assert_eq!(config.exponent_tenths, i32::MAX - 1);
    config.exponent_tenths = i32::MAX - 2;
    config.raise_exponent();
    assert_eq!(config.exponent_tenths, i32::MAX);
    config.exponent_tenths = i32::MIN + 1;
    config.lower_exponent();
    assert_eq!(config.exponent_tenths, i32::MIN + 1);
}

#[test]
fn select_changes_the_equation_only() {
    let mut config = SimulationConfig::new();
    config.select(Equation::RosslerVariant2);
    assert_eq!(
        config,
        SimulationConfig { equation: Equation::RosslerVariant2, steps: 1, exponent_tenths: 25 }
    );
}
