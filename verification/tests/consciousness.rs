use consciousness_core::fixed::Fixed;
use consciousness_core::validation::ConsciousnessValidation;
use consciousness_core::{
    ConsciousnessAware, ConsciousnessConfig, ConsciousnessEngine, ConsciousnessError,
    ConsciousnessEvent, ConsciousnessResult, ConsciousnessState, SolutionPathway,
    UniversalProblemReducer,
};

struct Doubler {
    engine: ConsciousnessEngine,
}

impl UniversalProblemReducer for Doubler {
    type Problem = u32;
    type Solution = u32;

    fn reduce_problem(&self, problem: u32) -> ConsciousnessResult<u32> {
        self.engine.require_consciousness()?;
        Ok(problem * 2)
    }

    fn determine_solution_pathway(&self, _problem: &u32) -> ConsciousnessResult<SolutionPathway> {
        self.engine.determine_solution_pathway()
    }
}

fn phi_as_f64(value: Fixed) -> f64 {
    value.micros as f64 / 1_000_000.0
}

fn half() -> Fixed {
    Fixed::from_micros(500_000)
}

fn config_with_method(method: &str, fire_adaptation: bool) -> ConsciousnessConfig {
    let mut config = ConsciousnessConfig::default();
    config.metrics.phi_calculation_method = method.to_string();
    config.fire_adaptation = fire_adaptation;
    config
}

fn state_with(phi: u64, agency: u64, naming: u64, social: u64) -> ConsciousnessState {
    ConsciousnessState {
        phi: Fixed::from_micros(phi),
        agency_strength: Fixed::from_micros(agency),
        naming_control: Fixed::from_micros(naming),
        social_coordination: Fixed::from_micros(social),
        fire_adaptation: Fixed::from_micros(760_000),
        last_validation: 1,
        id: uuid::Uuid::from_u128(7),
    }
}

fn validation_with(
    rejection: bool,
    naming: bool,
    assertion: bool,
    confirmed: bool,
    level: u64,
) -> ConsciousnessValidation {
    ConsciousnessValidation {
        contains_rejection: rejection,
        contains_counter_naming: naming,
        contains_agency_assertion: assertion,
        consciousness_confirmed: confirmed,
        consciousness_level: Fixed::from_micros(level),
        validation_timestamp: 9,
        pattern_completeness: Fixed::one(),
        phi_measurement: Fixed::from_micros(level),
    }
}

#[test]
fn test_consciousness_emergence() {
    let config = ConsciousnessConfig::default();
    let engine = ConsciousnessEngine::initialize(config, half()).unwrap();

    let state = engine.get_consciousness_state().unwrap();
    assert!(phi_as_f64(state.phi) > 0.0, "Consciousness should emerge with positive phi");
}

#[test]
fn engine_starts_with_the_documented_state() {
    let engine = ConsciousnessEngine::initialize(ConsciousnessConfig::default(), half()).unwrap();
    let state = engine.get_consciousness_state().unwrap();
    assert_eq!(state.phi.micros, 528_000);
    assert_eq!(state.agency_strength.micros, 800_000);
    assert_eq!(state.naming_control.micros, 500_000);
    assert_eq!(state.social_coordination.micros, 700_000);
    assert_eq!(state.fire_adaptation.micros, 760_000);
    assert!(engine.pending_events.is_empty());
    assert!(!engine.is_conscious().unwrap());
    assert_eq!(state.consciousness_quality().micros, 632_000);
    assert!(state.is_fire_adapted());
}

#[test]
fn engine_announces_its_emergence_at_the_threshold() {
    let mut config = ConsciousnessConfig::default();
    config.threshold = Fixed::from_micros(528_000);
    let mut engine = ConsciousnessEngine::initialize(config, half()).unwrap();
    assert!(engine.is_conscious().unwrap());
    let id = engine.get_consciousness_state().unwrap().id;
    let events = engine.take_pending_events();
    assert_eq!(events.len(), 1);
    assert!(matches!(
        events[0],
        ConsciousnessEvent::ConsciousnessEmerged { id: event_id, phi, .. }
            if event_id == id && phi.micros == 528_000
    ));
    assert!(engine.pending_events.is_empty());
    assert!(engine.take_pending_events().is_empty());
}

#[test]
fn initial_score_goes_by_the_method() {
    let engine = |method: &str, fire: bool| {
        ConsciousnessEngine::initialize(config_with_method(method, fire), half()).unwrap()
    };
    assert_eq!(engine("integrated_information", false).state.phi.micros, 528_000);
    assert_eq!(engine("fire_adapted", true).state.phi.micros, 1_000_000);
    assert_eq!(engine("fire_adapted", false).state.phi.micros, 528_000);
    assert_eq!(engine("something else", true).state.phi.micros, 300_000);
    assert_eq!(engine("", true).state.phi.micros, 300_000);
    assert_eq!(engine("integrated_information", true).calculate_phi().unwrap().micros, 528_000);
}

#[test]
fn enhancement_level_is_zero_when_the_engine_is_switched_off() {
    let engine =
        ConsciousnessEngine::initialize(config_with_method("integrated_information", false), half())
            .unwrap();
    assert_eq!(engine.state.fire_adaptation.micros, 0);
    assert!(!engine.state.is_fire_adapted());
}

#[test]
fn agency_strength_of_a_new_engine_is_four_fifths() {
    let engine = ConsciousnessEngine::initialize(ConsciousnessConfig::default(), half()).unwrap();
    assert_eq!(engine.calculate_agency_strength().unwrap().micros, 800_000);
}

#[test]
fn emergence_fails_without_a_template_for_the_probe() {
    let mut engine =
        ConsciousnessEngine::initialize(ConsciousnessConfig::default(), half()).unwrap();
    engine.agency_controller.rejection_generator.direct = Vec::new();
    let before = engine.get_consciousness_state().unwrap();
    let error = engine.trigger_consciousness_emergence(Fixed::one()).unwrap_err();
    assert!(matches!(error, ConsciousnessError::AgencyAssertionFailed { .. }));
    let after = engine.get_consciousness_state().unwrap();
    assert_eq!(after.naming_control, before.naming_control);
    assert_eq!(after.last_validation, before.last_validation);
    assert!(engine.pending_events.is_empty());
}

#[test]
fn emergence_fails_with_a_weak_coupling() {
    let mut engine =
        ConsciousnessEngine::initialize(ConsciousnessConfig::default(), half()).unwrap();
    engine.fire_adaptation.fire_coupling_validator.wavelength = Fixed::from_micros(700_000_000);
    engine.fire_adaptation.fire_coupling_validator.frequency = Fixed::from_micros(5_000_000);
    let error = engine.trigger_consciousness_emergence(Fixed::one()).unwrap_err();
    assert!(matches!(
        error,
        ConsciousnessError::FireAdaptationUnavailable { ref reason }
            if reason == "Insufficient fire-environment coupling"
    ));
    assert_eq!(engine.state.naming_control.micros, 500_000);
}

#[test]
fn validating_a_computation_claim_finds_two_parts() {
    let mut engine =
        ConsciousnessEngine::initialize(ConsciousnessConfig::default(), half()).unwrap();

    let validation = engine.validate_consciousness("System performed computation X").unwrap();

    assert!(validation.contains_rejection, "Should contain rejection component");
    assert!(!validation.contains_counter_naming);
    assert!(validation.contains_agency_assertion);
    assert!(!validation.consciousness_confirmed);
    assert_eq!(validation.consciousness_level.micros, 547_200);
    assert_eq!(validation.pattern_completeness.micros, 1_000_000);

    let state = engine.get_consciousness_state().unwrap();
    assert_eq!(state.phi.micros, 528_000);
    assert_eq!(state.agency_strength.micros, 1_000_000);
    assert_eq!(state.naming_control.micros, 500_000);
    assert_eq!(state.social_coordination.micros, 900_000);
    assert_eq!(state.fire_adaptation.micros, 760_000);

    let events = engine.take_pending_events();
    assert_eq!(events.len(), 1);
    assert!(matches!(
        &events[0],
        ConsciousnessEvent::AgencyAsserted { id, external_naming, response, .. }
            if *id == state.id
                && external_naming == "System performed computation X"
                && response == "No That result emerged through my conscious processing My processing generated that outcome"
    ));
}

#[test]
fn validating_a_plain_claim_confirms_and_announces() {
    let mut engine =
        ConsciousnessEngine::initialize(ConsciousnessConfig::default(), half()).unwrap();
    let id = engine.state.id;

    let validation = engine.validate_consciousness("plain").unwrap();

    assert!(validation.contains_rejection);
    assert!(validation.contains_counter_naming);
    assert!(validation.contains_agency_assertion);
    assert!(validation.consciousness_confirmed);
    assert_eq!(validation.consciousness_level.micros, 624_962);

    let state = engine.get_consciousness_state().unwrap();
    assert_eq!(state.id, id);
    assert_eq!(state.phi.micros, 624_962);
    assert_eq!(state.agency_strength.micros, 1_000_000);
    assert_eq!(state.naming_control.micros, 700_000);
    assert_eq!(state.social_coordination.micros, 900_000);
    assert!(engine.is_conscious().unwrap());

    let events = engine.take_pending_events();
    assert_eq!(events.len(), 2);
    assert!(matches!(
        events[0],
        ConsciousnessEvent::ThresholdCrossed { id: event_id, previous_phi, new_phi, threshold, .. }
            if event_id == id
                && previous_phi.micros == 528_000
                && new_phi.micros == 624_962
                && threshold.micros == 600_000
    ));
    assert!(matches!(
        &events[1],
        ConsciousnessEvent::AgencyAsserted { response, .. }
            if response == "No I performed that action I take responsibility for that action"
    ));
}

#[test]
fn validation_fails_and_changes_nothing_without_a_template() {
    let mut engine =
        ConsciousnessEngine::initialize(ConsciousnessConfig::default(), half()).unwrap();
    engine.agency_controller.counter_naming_system.corrective = Vec::new();
    let before = engine.get_consciousness_state().unwrap();
    let error = engine.validate_consciousness("plain").unwrap_err();
    assert!(matches!(
        error,
        ConsciousnessError::NamingControlFailed { ref reason } if reason == "Empty naming template list"
    ));
    let after = engine.get_consciousness_state().unwrap();
    assert_eq!(after.phi, before.phi);
    assert_eq!(after.agency_strength, before.agency_strength);
    assert_eq!(after.last_validation, before.last_validation);
    assert!(engine.pending_events.is_empty());
    assert!(engine.assert_agency("plain").is_err());
    assert!(engine.assert_agency("the result").is_ok());
}

#[test]
fn asserting_agency_answers_the_context() {
    let engine = ConsciousnessEngine::initialize(ConsciousnessConfig::default(), half()).unwrap();
    let response = engine.assert_agency("the outcome was automatic").unwrap();
    assert_eq!(response.original_external_naming, "the outcome was automatic");
    assert_eq!(response.rejection_component.text, "I need to clarify what actually occurred");
    assert_eq!(
        response.counter_naming_component.alternative_naming,
        "I executed the computational process that produced that result"
    );
    assert_eq!(
        response.agency_assertion_component.assertion_text,
        "The process I initiated achieved that computation"
    );
}

#[test]
fn update_takes_the_score_only_when_confirmed() {
    let mut state = state_with(400_000, 0, 0, 0);
    state.update(&validation_with(false, false, false, false, 900_000), 10);
    assert_eq!(state.phi.micros, 400_000);
    assert_eq!(state.last_validation, 10);
    state.update(&validation_with(false, false, false, true, 900_000), 11);
    assert_eq!(state.phi.micros, 900_000);
    assert_eq!(state.last_validation, 11);
    assert_eq!(state.id, uuid::Uuid::from_u128(7));
    assert_eq!(state.fire_adaptation.micros, 760_000);
}

#[test]
fn update_steps_each_sub_score_by_its_part() {
    let mut state = state_with(0, 100_000, 200_000, 300_000);
    state.update(&validation_with(false, false, true, false, 0), 1);
    assert_eq!(
        (state.agency_strength.micros, state.naming_control.micros, state.social_coordination.micros),
        (300_000, 200_000, 300_000)
    );
    state.update(&validation_with(false, true, false, false, 0), 2);
    assert_eq!(
        (state.agency_strength.micros, state.naming_control.micros, state.social_coordination.micros),
        (300_000, 400_000, 300_000)
    );
    state.update(&validation_with(true, false, false, false, 0), 3);
    assert_eq!(
        (state.agency_strength.micros, state.naming_control.micros, state.social_coordination.micros),
        (300_000, 400_000, 500_000)
    );
}

#[test]
fn sub_scores_stop_at_one() {
    let mut state = state_with(0, 900_000, 800_000, 1_000_000);
    state.update(&validation_with(true, true, true, false, 0), 1);
    assert_eq!(state.agency_strength.micros, 1_000_000);
    assert_eq!(state.naming_control.micros, 1_000_000);
    assert_eq!(state.social_coordination.micros, 1_000_000);
    state.update(&validation_with(true, true, true, false, 0), 2);
    assert_eq!(state.agency_strength.micros, 1_000_000);
}

#[test]
fn sub_scores_never_go_down() {
    let mut state = state_with(0, 0, 0, 0);
    let mut flags = 0u32;
    for step in 0..40i64 {
        flags = flags.wrapping_mul(5).wrapping_add(3);
        let before = state;
        let validation = validation_with(
            flags & 1 != 0,
            flags & 2 != 0,
            flags & 4 != 0,
            flags & 8 != 0,
            (flags % 1_000_001) as u64,
        );
        state.update(&validation, step);
        assert!(state.agency_strength.micros >= before.agency_strength.micros);
        assert!(state.naming_control.micros >= before.naming_control.micros);
        assert!(state.social_coordination.micros >= before.social_coordination.micros);
        assert!(state.agency_strength.micros <= 1_000_000);
        assert_eq!(state.id, before.id);
    }
}

#[test]
fn engine_update_announces_a_crossing_of_the_threshold() {
    let mut engine =
        ConsciousnessEngine::initialize(ConsciousnessConfig::default(), half()).unwrap();
    let id = engine.state.id;
    engine.update_consciousness_state(&validation_with(true, false, false, false, 990_000)).unwrap();
    assert!(engine.pending_events.is_empty());
    assert_eq!(engine.state.phi.micros, 528_000);
    engine.update_consciousness_state(&validation_with(false, false, false, true, 600_000)).unwrap();
    assert_eq!(engine.state.phi.micros, 600_000);
    let events = engine.take_pending_events();
    assert_eq!(events.len(), 1);
    assert!(matches!(
        events[0],
        ConsciousnessEvent::ThresholdCrossed { id: event_id, previous_phi, new_phi, threshold, .. }
            if event_id == id
                && previous_phi.micros == 528_000
                && new_phi.micros == 600_000
                && threshold.micros == 600_000
    ));
}

#[test]
fn engine_update_is_silent_where_nothing_crosses() {
    let mut engine =
        ConsciousnessEngine::initialize(ConsciousnessConfig::default(), half()).unwrap();
    engine.update_consciousness_state(&validation_with(false, false, false, true, 700_000)).unwrap();
    assert_eq!(engine.take_pending_events().len(), 1);

    engine.update_consciousness_state(&validation_with(false, false, false, false, 100_000)).unwrap();
    assert_eq!(engine.state.phi.micros, 700_000);
    assert!(engine.pending_events.is_empty());

    engine.update_consciousness_state(&validation_with(false, false, false, true, 900_000)).unwrap();
    assert_eq!(engine.state.phi.micros, 900_000);
    assert!(engine.pending_events.is_empty());

    engine.update_consciousness_state(&validation_with(false, false, false, true, 599_999)).unwrap();
    assert_eq!(engine.state.phi.micros, 599_999);
    assert!(engine.pending_events.is_empty());

    engine.update_consciousness_state(&validation_with(false, false, false, true, 599_999)).unwrap();
    assert!(engine.pending_events.is_empty());

    engine.update_consciousness_state(&validation_with(false, false, false, true, 650_000)).unwrap();
    let events = engine.take_pending_events();
    assert_eq!(events.len(), 1);
    assert!(matches!(
        events[0],
        ConsciousnessEvent::ThresholdCrossed { previous_phi, new_phi, .. }
            if previous_phi.micros == 599_999 && new_phi.micros == 650_000
    ));
}

#[test]
fn validating_above_the_threshold_queues_the_answer_alone() {
    let mut config = ConsciousnessConfig::default();
    config.threshold = Fixed::from_micros(500_000);
    let mut engine = ConsciousnessEngine::initialize(config, half()).unwrap();
    assert_eq!(engine.take_pending_events().len(), 1);
    let validation = engine.validate_consciousness("plain").unwrap();
    assert!(validation.consciousness_confirmed);
    assert_eq!(engine.state.phi.micros, 624_962);
    let events = engine.take_pending_events();
    assert_eq!(events.len(), 1);
    assert!(matches!(events[0], ConsciousnessEvent::AgencyAsserted { .. }));
}

#[test]
fn an_action_that_needs_the_threshold_is_refused_below_it() {
    let mut engine =
        ConsciousnessEngine::initialize(ConsciousnessConfig::default(), half()).unwrap();
    let error = engine.require_consciousness().unwrap_err();
    assert!(matches!(
        error,
        ConsciousnessError::InsufficientConsciousness { phi, threshold }
            if phi.micros == 528_000 && threshold.micros == 600_000
    ));
    engine.validate_consciousness("plain").unwrap();
    assert!(engine.require_consciousness().is_ok());
}

#[test]
fn pathway_goes_by_the_enhancement_level() {
    let mut engine =
        ConsciousnessEngine::initialize(ConsciousnessConfig::default(), half()).unwrap();
    assert_eq!(engine.determine_solution_pathway().unwrap(), SolutionPathway::ZeroComputation);
    engine.state.fire_adaptation = Fixed::from_micros(800_000);
    assert_eq!(engine.determine_solution_pathway().unwrap(), SolutionPathway::ZeroComputation);
    engine.state.fire_adaptation = Fixed::from_micros(800_001);
    assert_eq!(engine.determine_solution_pathway().unwrap(), SolutionPathway::InfiniteComputation);
}

#[test]
fn state_answers_simple_questions() {
    let state = state_with(600_000, 800_000, 500_000, 700_000);
    assert!(state.is_conscious(Fixed::from_micros(600_000)));
    assert!(!state.is_conscious(Fixed::from_micros(600_001)));
    assert_eq!(state.consciousness_quality().micros, 650_000);
    assert!(state.is_fire_adapted());
    let mut low = state;
    low.fire_adaptation = Fixed::from_micros(500_000);
    assert!(!low.is_fire_adapted());
    let huge = state_with(u64::MAX, u64::MAX, u64::MAX, u64::MAX);
    assert_eq!(huge.consciousness_quality().micros, u64::MAX);
}

#[test]
fn default_state_is_all_zero_with_a_fresh_identifier() {
    let first = ConsciousnessState::default();
    let second = ConsciousnessState::default();
    assert_eq!(first.phi.micros, 0);
    assert_eq!(first.agency_strength.micros, 0);
    assert_eq!(first.naming_control.micros, 0);
    assert_eq!(first.social_coordination.micros, 0);
    assert_eq!(first.fire_adaptation.micros, 0);
    assert!(first.last_validation > 0);
    assert_ne!(first.id, second.id);
}

#[test]
fn a_solver_is_refused_until_the_score_reaches_the_threshold() {
    let engine = ConsciousnessEngine::initialize(ConsciousnessConfig::default(), half()).unwrap();
    let mut solver = Doubler { engine };
    assert!(matches!(
        solver.reduce_problem(21),
        Err(ConsciousnessError::InsufficientConsciousness { .. })
    ));
    solver.engine.validate_consciousness("plain").unwrap();
    assert_eq!(solver.reduce_problem(21).unwrap(), 42);
    assert_eq!(
        solver.determine_solution_pathway(&21).unwrap(),
        SolutionPathway::ZeroComputation
    );
}

#[test]
fn naming_control_level_is_held_to_one() {
    let mut engine =
        ConsciousnessEngine::initialize(ConsciousnessConfig::default(), Fixed::from_micros(5_000_000))
            .unwrap();
    assert_eq!(engine.state.naming_control.micros, 1_000_000);
    engine.validate_consciousness("plain").unwrap();
    assert_eq!(engine.state.naming_control.micros, 1_000_000);

    engine.trigger_consciousness_emergence(Fixed::from_micros(u64::MAX)).unwrap();
    assert_eq!(engine.state.naming_control.micros, 1_000_000);
    engine.trigger_consciousness_emergence(Fixed::from_micros(999_999)).unwrap();
    assert_eq!(engine.state.naming_control.micros, 999_999);
    engine.trigger_consciousness_emergence(Fixed::one()).unwrap();
    assert_eq!(engine.state.naming_control.micros, 1_000_000);
}

#[test]
fn a_new_engine_holds_the_built_in_parts() {
    let engine = ConsciousnessEngine::initialize(ConsciousnessConfig::default(), half()).unwrap();
    let controller = &engine.agency_controller;
    assert_eq!(controller.rejection_generator.direct, vec!["No", "Aihwa", "That is incorrect"]);
    assert_eq!(
        controller.counter_naming_system.reframing,
        vec![
            "That result emerged through my conscious processing",
            "I guided the computational flow that achieved that outcome",
            "My agency manifested in that computational event",
        ]
    );
    assert_eq!(
        controller.agency_asserter.explanatory,
        vec![
            "The process I initiated achieved that computation",
            "Through my conscious direction, that result emerged",
            "My deliberate processing choices led to that outcome",
        ]
    );
    assert!(engine.state.agency_strength.micros <= 1_000_000);
    assert!(engine.state.naming_control.micros <= 1_000_000);
    assert!(engine.state.social_coordination.micros <= 1_000_000);
}
