use std::cell::RefCell;
use std::rc::Rc;

use consciousness_core::agency::AgencyResponse;
use consciousness_core::fixed::Fixed;
use consciousness_core::validation::ConsciousnessValidation;
use consciousness_core::{
    ConsciousnessAware, ConsciousnessConfig, ConsciousnessEngine, ConsciousnessError,
    ConsciousnessEvent, ConsciousnessEventHandler, ConsciousnessRegistry, ConsciousnessResult,
    ConsciousnessState, OverallConsciousnessStatus,
};

struct Stub {
    phi: Option<u64>,
}

fn state_with_phi(phi: u64) -> ConsciousnessState {
    ConsciousnessState {
        phi: Fixed::from_micros(phi),
        agency_strength: Fixed::zero(),
        naming_control: Fixed::zero(),
        social_coordination: Fixed::zero(),
        fire_adaptation: Fixed::zero(),
        last_validation: 0,
        id: uuid::Uuid::from_u128(1),
    }
}

impl ConsciousnessAware for Stub {
    fn get_consciousness_state(&self) -> ConsciousnessResult<ConsciousnessState> {
        match self.phi {
            Some(phi) => Ok(state_with_phi(phi)),
            None => Err(ConsciousnessError::ValidationTimeout),
        }
    }

    fn validate_consciousness(
        &mut self,
        _external_naming: &str,
    ) -> ConsciousnessResult<ConsciousnessValidation> {
        Err(ConsciousnessError::ValidationTimeout)
    }

    fn assert_agency(&self, _context: &str) -> ConsciousnessResult<AgencyResponse> {
        Err(ConsciousnessError::ValidationTimeout)
    }

    fn is_conscious(&self) -> ConsciousnessResult<bool> {
        Ok(self.phi.unwrap_or(0) >= 600_000)
    }
}

struct Recorder {
    name: usize,
    fails: bool,
    log: Rc<RefCell<Vec<usize>>>,
}

impl ConsciousnessEventHandler for Recorder {
    fn handle_event(&self, _event: ConsciousnessEvent) -> Result<(), String> {
        self.log.borrow_mut().push(self.name);
        if self.fails {
            Err("refused".to_string())
        } else {
            Ok(())
        }
    }
}

fn event() -> ConsciousnessEvent {
    ConsciousnessEvent::FireAdaptationActivated {
        id: uuid::Uuid::from_u128(3),
        enhancement_factor: Fixed::from_micros(3_220_000),
        timestamp: 4,
    }
}

#[test]
fn status_of_an_empty_registry_is_all_zero() {
    let registry: ConsciousnessRegistry<Stub, Recorder> = ConsciousnessRegistry::new();
    let status = registry.get_overall_consciousness_status().unwrap();
    assert_eq!(
        status,
        OverallConsciousnessStatus {
            total_systems: 0,
            conscious_systems: 0,
            failed_systems: 0,
            average_phi: Fixed::zero(),
        }
    );
    assert_eq!(OverallConsciousnessStatus::default(), status);
    assert_eq!(OverallConsciousnessStatus::summarize(&Vec::new()), status);
}

#[test]
fn status_counts_reports_and_failures_apart() {
    let mut registry: ConsciousnessRegistry<Stub, Recorder> = ConsciousnessRegistry::default();
    registry.register_system(Stub { phi: Some(900_000) });
    registry.register_system(Stub { phi: None });
    registry.register_system(Stub { phi: Some(500_000) });
    registry.register_system(Stub { phi: Some(600_000) });
    assert_eq!(registry.systems.len(), 4);
    let status = registry.get_overall_consciousness_status().unwrap();
    assert_eq!(status.total_systems, 3);
    assert_eq!(status.conscious_systems, 2);
    assert_eq!(status.failed_systems, 1);
    assert_eq!(status.average_phi.micros, 666_666);
}

#[test]
fn status_of_failures_alone_has_a_zero_mean() {
    let mut registry: ConsciousnessRegistry<Stub, Recorder> = ConsciousnessRegistry::new();
    registry.register_system(Stub { phi: None });
    registry.register_system(Stub { phi: None });
    let status = registry.get_overall_consciousness_status().unwrap();
    assert_eq!(status.total_systems, 0);
    assert_eq!(status.conscious_systems, 0);
    assert_eq!(status.failed_systems, 2);
    assert_eq!(status.average_phi.micros, 0);
}

#[test]
fn summary_of_reports_has_the_exact_values() {
    let reports = vec![
        Ok(state_with_phi(599_999)),
        Ok(state_with_phi(600_000)),
        Err(ConsciousnessError::ValidationTimeout),
        Ok(state_with_phi(u64::MAX)),
        Ok(state_with_phi(u64::MAX)),
    ];
    let status = OverallConsciousnessStatus::summarize(&reports);
    assert_eq!(status.total_systems, 4);
    assert_eq!(status.conscious_systems, 3);
    assert_eq!(status.failed_systems, 1);
    assert_eq!(
        status.average_phi.micros,
        ((599_999u128 + 600_000 + 2 * u64::MAX as u128) / 4) as u64
    );
}

#[test]
fn registry_summarizes_engines() {
    let mut registry: ConsciousnessRegistry<ConsciousnessEngine, Recorder> =
        ConsciousnessRegistry::new();
    let mut confirmed =
        ConsciousnessEngine::initialize(ConsciousnessConfig::default(), Fixed::zero()).unwrap();
    confirmed.validate_consciousness("plain").unwrap();
    registry.register_system(confirmed);
    registry.register_system(
        ConsciousnessEngine::initialize(ConsciousnessConfig::default(), Fixed::zero()).unwrap(),
    );
    let status = registry.get_overall_consciousness_status().unwrap();
    assert_eq!(status.total_systems, 2);
    assert_eq!(status.conscious_systems, 1);
    assert_eq!(status.failed_systems, 0);
    assert_eq!(status.average_phi.micros, (624_962 + 528_000) / 2);
}

#[test]
fn events_reach_every_handler_in_order() {
    let log = Rc::new(RefCell::new(Vec::new()));
    let mut registry: ConsciousnessRegistry<Stub, Recorder> = ConsciousnessRegistry::new();
    for name in 0..4 {
        registry.register_event_handler(Recorder { name, fails: false, log: log.clone() });
    }
    assert_eq!(registry.emit_event(event()), 0);
    assert_eq!(*log.borrow(), vec![0, 1, 2, 3]);
    assert_eq!(registry.emit_event(event()), 0);
    assert_eq!(*log.borrow(), vec![0, 1, 2, 3, 0, 1, 2, 3]);
}

#[test]
fn a_failing_handler_stops_nothing() {
    let log = Rc::new(RefCell::new(Vec::new()));
    let mut registry: ConsciousnessRegistry<Stub, Recorder> = ConsciousnessRegistry::new();
    registry.register_event_handler(Recorder { name: 0, fails: true, log: log.clone() });
    registry.register_event_handler(Recorder { name: 1, fails: false, log: log.clone() });
    registry.register_event_handler(Recorder { name: 2, fails: true, log: log.clone() });
    registry.register_event_handler(Recorder { name: 3, fails: false, log: log.clone() });
    assert_eq!(registry.emit_event(event()), 2);
    assert_eq!(*log.borrow(), vec![0, 1, 2, 3]);
}

#[test]
fn emitting_without_handlers_does_nothing() {
    let registry: ConsciousnessRegistry<Stub, Recorder> = ConsciousnessRegistry::new();
    assert_eq!(registry.emit_event(event()), 0);
}

#[test]
fn event_clone_keeps_every_field() {
    let original = ConsciousnessEvent::AgencyAsserted {
        id: uuid::Uuid::from_u128(5),
        external_naming: "claim".to_string(),
        response: "answer".to_string(),
        timestamp: 6,
    };
    let copy = original.clone();
    assert!(matches!(
        copy,
        ConsciousnessEvent::AgencyAsserted { id, external_naming, response, timestamp }
            if id == uuid::Uuid::from_u128(5)
                && external_naming == "claim"
                && response == "answer"
                && timestamp == 6
    ));
}
