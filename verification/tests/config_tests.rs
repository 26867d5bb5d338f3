use block_breaker_tui::config::{Config, ConfigError, DENSITY_SCALE};

#[test]
fn config_keeps_valid_parameters() {
    let config = Config::new(200, 3, 10, 2).unwrap();
    assert_eq!(config.block_density(), 200);
    assert_eq!(config.block_strength(), 3);
    assert_eq!(config.bar_width(), 10);
    assert_eq!(config.ball_power(), 2);
}

#[test]
fn config_accepts_both_ends_of_the_density_range() {
    assert!(Config::new(0, 1, 1, 1).is_ok());
    assert!(Config::new(DENSITY_SCALE, 1, 1, 1).is_ok());
    assert_eq!(DENSITY_SCALE, 1000);
}

#[test]
fn config_rejects_density_above_one() {
    assert_eq!(Config::new(1001, 1, 1, 1).err(), Some(ConfigError::DensityOutOfRange));
    assert_eq!(Config::new(u32::MAX, 1, 1, 1).err(), Some(ConfigError::DensityOutOfRange));
}

#[test]
fn config_rejects_zero_block_strength() {
    assert_eq!(Config::new(200, 0, 10, 1).err(), Some(ConfigError::ZeroBlockStrength));
}

#[test]
fn config_rejects_zero_bar_width() {
    assert_eq!(Config::new(200, 1, 0, 1).err(), Some(ConfigError::ZeroBarWidth));
}

#[test]
fn config_rejects_zero_ball_power() {
    assert_eq!(Config::new(200, 1, 10, 0).err(), Some(ConfigError::ZeroBallPower));
}

#[test]
fn config_reports_the_first_fault_only() {
    assert_eq!(Config::new(2000, 0, 0, 0).err(), Some(ConfigError::DensityOutOfRange));
    assert_eq!(Config::new(1000, 0, 0, 0).err(), Some(ConfigError::ZeroBlockStrength));
    assert_eq!(Config::new(1000, 1, 0, 0).err(), Some(ConfigError::ZeroBarWidth));
}

#[test]
fn config_errors_describe_themselves() {
    assert_eq!(ConfigError::DensityOutOfRange.describe(), "block density must lie between 0 and 1");
    assert_eq!(ConfigError::ZeroBlockStrength.describe(), "block strength must be at least 1");
    assert_eq!(ConfigError::ZeroBarWidth.describe(), "bar width must be at least 1");
    assert_eq!(ConfigError::ZeroBallPower.describe(), "ball power must be at least 1");
}
