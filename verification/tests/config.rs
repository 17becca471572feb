use consciousness_core::fixed::Fixed;
use consciousness_core::{
    ConfigSource, ConfigValues, ConsciousnessConfig, ConsciousnessMetricsConfig,
};

struct Empty;

impl ConfigSource for Empty {
    fn get_f64(&self, _key: &str) -> Option<Fixed> {
        None
    }

    fn get_bool(&self, _key: &str) -> Option<bool> {
        None
    }

    fn get_u64(&self, _key: &str) -> Option<u64> {
        None
    }

    fn get_string(&self, _key: &str) -> Option<String> {
        None
    }
}

struct Table;

impl ConfigSource for Table {
    fn get_f64(&self, key: &str) -> Option<Fixed> {
        match key {
            "consciousness.threshold" => Some(Fixed::from_micros(750_000)),
            "consciousness.metrics.naming_control_weight" => Some(Fixed::from_micros(100_000)),
            _ => None,
        }
    }

    fn get_bool(&self, key: &str) -> Option<bool> {
        match key {
            "consciousness.fire_adaptation" => Some(false),
            _ => None,
        }
    }

    fn get_u64(&self, key: &str) -> Option<u64> {
        match key {
            "consciousness.validation_interval_ms" => Some(250),
            _ => None,
        }
    }

    fn get_string(&self, key: &str) -> Option<String> {
        match key {
            "consciousness.metrics.phi_calculation_method" => Some("fire_adapted".to_string()),
            _ => None,
        }
    }
}

#[test]
fn default_config_has_documented_values() {
    let config = ConsciousnessConfig::default();
    assert_eq!(config.threshold, Fixed::from_micros(600_000));
    assert!(config.agency_assertion);
    assert!(config.naming_control);
    assert!(config.fire_adaptation);
    assert_eq!(config.validation_interval_ms, 1000);
    assert_eq!(config.metrics.phi_calculation_method, "integrated_information");
    assert_eq!(config.metrics.agency_strength_weight.micros, 300_000);
    assert_eq!(config.metrics.naming_control_weight.micros, 200_000);
    assert_eq!(config.metrics.social_coordination_weight.micros, 250_000);
    assert_eq!(config.metrics.resistance_strength_weight.micros, 250_000);
}

#[test]
fn default_metrics_have_documented_values() {
    let metrics = ConsciousnessMetricsConfig::default();
    assert_eq!(metrics.phi_calculation_method, "integrated_information");
    assert_eq!(metrics.agency_strength_weight.micros, 300_000);
}

#[test]
fn from_config_falls_back_to_defaults() {
    let config = ConsciousnessConfig::from_config(&Empty);
    assert_eq!(config.threshold.micros, 600_000);
    assert!(config.agency_assertion);
    assert!(config.naming_control);
    assert!(config.fire_adaptation);
    assert_eq!(config.validation_interval_ms, 1000);
    assert_eq!(config.metrics.phi_calculation_method, "integrated_information");
    assert_eq!(config.metrics.agency_strength_weight.micros, 300_000);
    assert_eq!(config.metrics.naming_control_weight.micros, 200_000);
    assert_eq!(config.metrics.social_coordination_weight.micros, 250_000);
    assert_eq!(config.metrics.resistance_strength_weight.micros, 250_000);
}

#[test]
fn from_config_takes_stored_values() {
    let config = ConsciousnessConfig::from_config(&Table);
    assert_eq!(config.threshold.micros, 750_000);
    assert!(!config.fire_adaptation);
    assert!(config.naming_control);
    assert_eq!(config.validation_interval_ms, 250);
    assert_eq!(config.metrics.phi_calculation_method, "fire_adapted");
    assert_eq!(config.metrics.naming_control_weight.micros, 100_000);
    assert_eq!(config.metrics.agency_strength_weight.micros, 300_000);
}

#[test]
fn config_clone_keeps_every_field() {
    let config = ConsciousnessConfig::from_config(&Table);
    let copy = config.clone();
    assert_eq!(copy.threshold, config.threshold);
    assert_eq!(copy.fire_adaptation, config.fire_adaptation);
    assert_eq!(copy.validation_interval_ms, config.validation_interval_ms);
    assert_eq!(copy.metrics.phi_calculation_method, config.metrics.phi_calculation_method);
}

#[test]
fn from_values_fills_each_gap_with_its_default() {
    let config = ConsciousnessConfig::from_values(ConfigValues {
        threshold: None,
        agency_assertion: Some(false),
        naming_control: None,
        fire_adaptation: None,
        validation_interval_ms: Some(5),
        phi_calculation_method: None,
        agency_strength_weight: None,
        naming_control_weight: None,
        social_coordination_weight: Some(Fixed::from_micros(1)),
        resistance_strength_weight: None,
    });
    assert_eq!(config.threshold.micros, 600_000);
    assert!(!config.agency_assertion);
    assert!(config.naming_control);
    assert!(config.fire_adaptation);
    assert_eq!(config.validation_interval_ms, 5);
    assert_eq!(config.metrics.phi_calculation_method, "integrated_information");
    assert_eq!(config.metrics.agency_strength_weight.micros, 300_000);
    assert_eq!(config.metrics.naming_control_weight.micros, 200_000);
    assert_eq!(config.metrics.social_coordination_weight.micros, 1);
    assert_eq!(config.metrics.resistance_strength_weight.micros, 250_000);
}
