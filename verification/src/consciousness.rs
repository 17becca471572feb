//! The state of an engine and the rule by which a checked answer changes
//! it.

use vstd::prelude::*;

use crate::agency::{AgencyController, AgencyResponse};
use crate::clock::{fresh_id, now_millis};
use crate::fire_adaptation::{reports, FireAdaptationSystem};
use crate::fixed::{plus, smaller, times, Fixed};
use crate::text::same_text;
use crate::validation::{ConsciousnessValidation, ConsciousnessValidator};
use crate::{
    ConsciousnessAware, ConsciousnessConfig, ConsciousnessError, ConsciousnessEvent,
    ConsciousnessResult, SolutionPathway,
};
use uuid::Uuid;

verus! {

/// A sub-score after one step up: 0.2 more, and at most 1.
pub open spec fn nudged(metric: int) -> int {
    smaller(plus(metric, 200_000), 1_000_000)
}

/// The score and sub-scores of one engine.
#[derive(Clone, Copy, Debug)]
pub struct ConsciousnessState {
    /// The score.
    pub phi: Fixed,
    /// How often authorship was asserted.
    pub agency_strength: Fixed,
    /// How often an alternative name was given.
    pub naming_control: Fixed,
    /// How often a claim was rejected.
    pub social_coordination: Fixed,
    /// The level of the enhancement.
    pub fire_adaptation: Fixed,
    /// When the state last changed.
    pub last_validation: i64,
    /// The engine's identifier, which never changes.
    pub id: Uuid,
}

impl Default for ConsciousnessState {
    fn default() -> (r: Self)
        ensures
            r.phi@ == 0,
            r.agency_strength@ == 0,
            r.naming_control@ == 0,
            r.social_coordination@ == 0,
            r.fire_adaptation@ == 0,
    {
        ConsciousnessState {
            phi: Fixed::zero(),
            agency_strength: Fixed::zero(),
            naming_control: Fixed::zero(),
            social_coordination: Fixed::zero(),
            fire_adaptation: Fixed::zero(),
            last_validation: now_millis(),
            id: fresh_id(),
        }
    }
}

impl ConsciousnessState {
    /// Whether the three sub-scores lie between 0 and 1.
    pub open spec fn is_well_formed(&self) -> bool {
        &&& self.agency_strength.is_unit()
        &&& self.naming_control.is_unit()
        &&& self.social_coordination.is_unit()
    }

    /// The mean of the score and the three sub-scores.
    pub open spec fn quality(&self) -> int {
        (self.phi@ + self.agency_strength@ + self.naming_control@ + self.social_coordination@) / 4
    }

    /// The state after a checked answer, at the time `now`. The score
    /// becomes the answer's score where the outcome is confirmed. Each
    /// sub-score steps up where its part was found: the assertion for
    /// agency strength, the alternative name for naming control, the
    /// rejection for social coordination. Nothing else changes but the
    /// time.
    pub open spec fn updated(&self, validation: ConsciousnessValidation, now: i64) -> Self {
        ConsciousnessState {
            phi: if validation.consciousness_confirmed {
                validation.consciousness_level
            } else {
                self.phi
            },
            agency_strength: if validation.contains_agency_assertion {
                Fixed { micros: nudged(self.agency_strength@) as u64 }
            } else {
                self.agency_strength
            },
            naming_control: if validation.contains_counter_naming {
                Fixed { micros: nudged(self.naming_control@) as u64 }
            } else {
                self.naming_control
            },
            social_coordination: if validation.contains_rejection {
                Fixed { micros: nudged(self.social_coordination@) as u64 }
            } else {
                self.social_coordination
            },
            fire_adaptation: self.fire_adaptation,
            last_validation: now,
            id: self.id,
        }
    }

    /// The state after a run of checked answers, each with its time.
    pub open spec fn updated_through(&self, steps: Seq<(ConsciousnessValidation, i64)>) -> Self
        decreases steps.len(),
    {
        if steps.len() == 0 {
            *self
        } else {
            self.updated_through(steps.drop_last()).updated(steps.last().0, steps.last().1)
        }
    }

    /// Whether the score is at least `threshold`.
    pub fn is_conscious(&self, threshold: Fixed) -> (conscious: bool)
        ensures
            conscious == (self.phi@ >= threshold@),
    {
        self.phi.micros >= threshold.micros
    }

    /// The mean of the score and the three sub-scores.
    pub fn consciousness_quality(&self) -> (quality: Fixed)
        ensures
            quality@ == self.quality(),
    {
        let total: u128 = self.phi.micros as u128 + self.agency_strength.micros as u128
            + self.naming_control.micros as u128 + self.social_coordination.micros as u128;
        Fixed::from_micros((total / 4) as u64)
    }

    /// Whether the level of the enhancement is above 0.5.
    pub fn is_fire_adapted(&self) -> (adapted: bool)
        ensures
            adapted == (self.fire_adaptation@ > 500_000),
    {
        self.fire_adaptation.micros > 500_000
    }

    /// Changes the state by one checked answer, at the time `now`. No
    /// sub-score that lies between 0 and 1 ever goes down.
    pub fn update(&mut self, validation: &ConsciousnessValidation, now: i64)
        ensures
            *final(self) == old(self).updated(*validation, now),
            old(self).agency_strength.is_unit() ==> final(self).agency_strength@ >= old(
                self,
            ).agency_strength@ && final(self).agency_strength.is_unit(),
            old(self).naming_control.is_unit() ==> final(self).naming_control@ >= old(
                self,
            ).naming_control@ && final(self).naming_control.is_unit(),
            old(self).social_coordination.is_unit() ==> final(self).social_coordination@ >= old(
                self,
            ).social_coordination@ && final(self).social_coordination.is_unit(),
    {
        if validation.consciousness_confirmed {
            self.phi = validation.consciousness_level;
        }
        if validation.contains_agency_assertion {
            self.agency_strength = self.agency_strength.saturating_add(
                Fixed::from_micros(200_000),
            ).capped();
        }
        if validation.contains_counter_naming {
            self.naming_control = self.naming_control.saturating_add(
                Fixed::from_micros(200_000),
            ).capped();
        }
        if validation.contains_rejection {
            self.social_coordination = self.social_coordination.saturating_add(
                Fixed::from_micros(200_000),
            ).capped();
        }
        self.last_validation = now;
    }
}

/// Over any run of checked answers, no sub-score of a well-formed state
/// goes down, the state stays well-formed, and the identifier stays the
/// same.
pub proof fn ratchet_holds(state: ConsciousnessState, steps: Seq<(ConsciousnessValidation, i64)>)
    requires
        state.is_well_formed(),
    ensures
        state.updated_through(steps).is_well_formed(),
        state.updated_through(steps).agency_strength@ >= state.agency_strength@,
        state.updated_through(steps).naming_control@ >= state.naming_control@,
        state.updated_through(steps).social_coordination@ >= state.social_coordination@,
        state.updated_through(steps).id == state.id,
        forall|k: int|
            0 <= k <= steps.len() ==> {
                &&& state.updated_through(steps).agency_strength@ >= (#[trigger] state.updated_through(
                    steps.take(k),
                )).agency_strength@
                &&& state.updated_through(steps).naming_control@ >= state.updated_through(
                    steps.take(k),
                ).naming_control@
                &&& state.updated_through(steps).social_coordination@ >= state.updated_through(
                    steps.take(k),
                ).social_coordination@
            },
    decreases steps.len(),
{
    if steps.len() > 0 {
        let earlier = steps.drop_last();
        ratchet_holds(state, earlier);
        assert forall|k: int| 0 <= k <= steps.len() implies {
            &&& state.updated_through(steps).agency_strength@ >= (#[trigger] state.updated_through(
                steps.take(k),
            )).agency_strength@
            &&& state.updated_through(steps).naming_control@ >= state.updated_through(
                steps.take(k),
            ).naming_control@
            &&& state.updated_through(steps).social_coordination@ >= state.updated_through(
                steps.take(k),
            ).social_coordination@
        } by {
            if k == steps.len() {
                assert(steps.take(k) =~= steps);
            } else {
                assert(steps.take(k) =~= earlier.take(k));
            }
        }
    } else {
    }
}

/// The score that the plain method gives: 0.4 times 1.2 times 1.1, held to
/// at most 1.
pub open spec fn integrated_information() -> int {
    smaller(times(times(400_000, 1_200_000), 1_100_000), 1_000_000)
}

/// The score an engine starts with, by the method its settings name: the
/// plain score for "integrated_information"; for "fire_adapted" the plain
/// score times 3.22, held to at most 1, where the enhancement is switched
/// on, and the plain score where it is not; 0.3 for any other name.
pub open spec fn initial_phi(method: Seq<char>, fire_adaptation: bool) -> int {
    if method == "integrated_information"@ {
        integrated_information()
    } else if method == "fire_adapted"@ {
        if fire_adaptation {
            smaller(times(integrated_information(), 3_220_000), 1_000_000)
        } else {
            integrated_information()
        }
    } else {
        300_000
    }
}

/// Whether `event` reports that the engine `id` started with the score
/// `phi`.
pub open spec fn is_emerged(event: ConsciousnessEvent, id: Uuid, phi: Fixed) -> bool {
    &&& event matches ConsciousnessEvent::ConsciousnessEmerged { id: event_id, phi: event_phi, .. }
    &&& event_id == id
    &&& event_phi == phi
}

/// Whether `event` reports that the engine `id` went from the score
/// `previous_phi` to the score `new_phi` across `threshold`.
pub open spec fn is_threshold_crossed(
    event: ConsciousnessEvent,
    id: Uuid,
    previous_phi: Fixed,
    new_phi: Fixed,
    threshold: Fixed,
) -> bool {
    &&& event matches ConsciousnessEvent::ThresholdCrossed {
        id: event_id,
        previous_phi: event_previous,
        new_phi: event_new,
        threshold: event_threshold,
        ..
    }
    &&& event_id == id
    &&& event_previous == previous_phi
    &&& event_new == new_phi
    &&& event_threshold == threshold
}

/// Whether `event` reports that the engine `id` answered the claim
/// `external_naming` with the line `response`.
pub open spec fn is_agency_asserted(
    event: ConsciousnessEvent,
    id: Uuid,
    external_naming: Seq<char>,
    response: Seq<char>,
) -> bool {
    &&& event matches ConsciousnessEvent::AgencyAsserted {
        id: event_id,
        external_naming: event_naming,
        response: event_response,
        ..
    }
    &&& event_id == id
    &&& event_naming@ == external_naming
    &&& event_response@ == response
}

/// Whether a score that goes from `previous` to `new` crosses `threshold`:
/// it stood below and stands at or above.
pub open spec fn crosses(previous: int, threshold: int, new: int) -> bool {
    previous < threshold <= new
}

/// Whether `after` is `before` with `count` more events at its end.
pub open spec fn appended(
    before: Seq<ConsciousnessEvent>,
    after: Seq<ConsciousnessEvent>,
    count: int,
) -> bool {
    &&& after.len() == before.len() + count
    &&& after.take(before.len() as int) == before
}

/// An engine: its settings, its state, the parts that answer and check
/// claims, and the events that wait to be handed to subscribers.
pub struct ConsciousnessEngine {
    pub config: ConsciousnessConfig,
    pub state: ConsciousnessState,
    pub agency_controller: AgencyController,
    pub validator: ConsciousnessValidator,
    pub fire_adaptation: FireAdaptationSystem,
    /// Events not yet handed out, oldest first.
    pub pending_events: Vec<ConsciousnessEvent>,
}

impl ConsciousnessEngine {
    /// Whether `other` has the same settings and parts as this engine.
    pub open spec fn same_parts(&self, other: &Self) -> bool {
        &&& self.config == other.config
        &&& self.agency_controller == other.agency_controller
        &&& self.validator == other.validator
        &&& self.fire_adaptation == other.fire_adaptation
    }

    /// The level of enhancement that the engine starts with: 0 where the
    /// enhancement is switched off, else what the enhancement reports.
    pub open spec fn enhancement_level(&self) -> Result<int, Seq<char>> {
        if self.config.fire_adaptation {
            self.fire_adaptation.reported_level()
        } else {
            Ok(0)
        }
    }

    /// Whether the events in `after` are those in `before`, followed by one
    /// of emergence where the state's score is at least the threshold.
    pub open spec fn announces_emergence(
        &self,
        before: Seq<ConsciousnessEvent>,
        after: Seq<ConsciousnessEvent>,
    ) -> bool {
        if self.state.phi@ >= self.config.threshold@ {
            &&& appended(before, after, 1)
            &&& is_emerged(after.last(), self.state.id, self.state.phi)
        } else {
            after == before
        }
    }

    /// Whether the events in `after` are those in `before`, followed by one
    /// of crossing the threshold where the score went from `previous_phi`,
    /// below the threshold, to the state's score, at or above it. Where the
    /// score did not cross, `after` is `before`.
    pub open spec fn announces_threshold(
        &self,
        previous_phi: Fixed,
        before: Seq<ConsciousnessEvent>,
        after: Seq<ConsciousnessEvent>,
    ) -> bool {
        if crosses(previous_phi@, self.config.threshold@, self.state.phi@) {
            &&& appended(before, after, 1)
            &&& is_threshold_crossed(
                after.last(),
                self.state.id,
                previous_phi,
                self.state.phi,
                self.config.threshold,
            )
        } else {
            after == before
        }
    }

    /// A new engine with the built-in parts. `naming_control` is the
    /// naming-control level that a component outside this library
    /// assessed; the engine takes it as its first naming-control sub-score,
    /// held to at most 1. The engine starts with the score that its
    /// settings' method gives, agency strength 0.8, social coordination 0.7
    /// and, where the enhancement is switched on, an enhancement level of
    /// 0.76, so its three sub-scores lie between 0 and 1. Where the score
    /// is at least the threshold, one event of emergence waits to be handed
    /// out.
    pub fn initialize(config: ConsciousnessConfig, naming_control: Fixed) -> (r: ConsciousnessResult<
        Self,
    >)
        ensures
            r matches Ok(engine) && {
                &&& engine.config == config
                &&& engine.validator.config == config
                &&& engine.validator.validation_history@.len() == 0
                &&& engine.validator.coupling_validator.strength() == 950_000
                &&& engine.fire_adaptation.fire_coupling_validator.strength() == 950_000
                &&& engine.agency_controller.config == config
                &&& engine.agency_controller.holds_built_in_pools()
                &&& engine.agency_controller.is_complete()
                &&& engine.agency_controller.pattern_history@.len() == 0
                &&& engine.fire_adaptation.config == config
                &&& engine.fire_adaptation.chain() == Ok::<int, Seq<char>>(4_241_604_721)
                &&& engine.state.phi@ == initial_phi(
                    config.metrics.phi_calculation_method@,
                    config.fire_adaptation,
                )
                &&& engine.state.agency_strength@ == 800_000
                &&& engine.state.naming_control@ == smaller(naming_control@, 1_000_000)
                &&& engine.state.social_coordination@ == 700_000
                &&& engine.state.fire_adaptation@ == if config.fire_adaptation {
                    760_000int
                } else {
                    0int
                }
                &&& engine.state.is_well_formed()
                &&& engine.announces_emergence(Seq::empty(), engine.pending_events@)
            },
    {
        let initial_state = ConsciousnessState::default();
        let agency_controller = match AgencyController::new(config.clone()) {
            Ok(controller) => controller,
            Err(error) => {
                return Err(error);
            },
        };
        let validator = ConsciousnessValidator::new(config.clone());
        let fire_adaptation = match FireAdaptationSystem::new(config.clone()) {
            Ok(system) => system,
            Err(error) => {
                return Err(error);
            },
        };
        let mut engine = ConsciousnessEngine {
            config,
            state: initial_state,
            agency_controller,
            validator,
            fire_adaptation,
            pending_events: Vec::new(),
        };
        match engine.trigger_consciousness_emergence(naming_control) {
            Ok(()) => Ok(engine),
            Err(error) => Err(error),
        }
    }

    /// Sets the state to where an engine starts, with `naming_control`,
    /// held to at most 1, as the naming-control sub-score, so that the
    /// three sub-scores lie between 0 and 1, and queues an event of
    /// emergence where the score is at least the threshold. Fails, and
    /// changes nothing, where the controller has no answer to the probe
    /// "test naming" or the enhancement is switched on and its coupling is
    /// too weak.
    pub fn trigger_consciousness_emergence(&mut self, naming_control: Fixed) -> (r:
        ConsciousnessResult<()>)
        ensures
            old(self).same_parts(final(self)),
            final(self).state.id == old(self).state.id,
            match r {
                Ok(()) => {
                    &&& old(self).agency_controller.can_answer("test naming"@)
                    &&& old(self).enhancement_level() matches Ok(level)
                    &&& final(self).state.phi@ == initial_phi(
                        old(self).config.metrics.phi_calculation_method@,
                        old(self).config.fire_adaptation,
                    )
                    &&& final(self).state.agency_strength@ == 800_000
                    &&& final(self).state.naming_control@ == smaller(naming_control@, 1_000_000)
                    &&& final(self).state.social_coordination@ == 700_000
                    &&& final(self).state.fire_adaptation@ == level
                    &&& final(self).state.is_well_formed()
                    &&& final(self).announces_emergence(
                        old(self).pending_events@,
                        final(self).pending_events@,
                    )
                },
                Err(error) => {
                    &&& final(self).state == old(self).state
                    &&& final(self).pending_events@ == old(self).pending_events@
                    &&& if old(self).agency_controller.can_answer("test naming"@) {
                        &&& old(self).enhancement_level() matches Err(why)
                        &&& crate::fire_adaptation::is_unavailable(error, why)
                    } else {
                        old(self).agency_controller.refuses("test naming"@, error)
                    }
                },
            },
    {
        let phi = match self.calculate_phi() {
            Ok(phi) => phi,
            Err(error) => {
                return Err(error);
            },
        };
        let agency_strength = match self.calculate_agency_strength() {
            Ok(strength) => strength,
            Err(error) => {
                return Err(error);
            },
        };
        let naming_control = match self.calculate_naming_control(naming_control) {
            Ok(level) => level,
            Err(error) => {
                return Err(error);
            },
        };
        let social_coordination = match self.calculate_social_coordination() {
            Ok(level) => level,
            Err(error) => {
                return Err(error);
            },
        };
        let fire_adaptation = if self.config.fire_adaptation {
            match self.fire_adaptation.calculate_enhancement_level() {
                Ok(level) => level,
                Err(error) => {
                    return Err(error);
                },
            }
        } else {
            Fixed::zero()
        };
        self.state.phi = phi;
        self.state.agency_strength = agency_strength;
        self.state.naming_control = naming_control;
        self.state.social_coordination = social_coordination;
        self.state.fire_adaptation = fire_adaptation;
        self.state.last_validation = now_millis();
        if self.state.phi.micros >= self.config.threshold.micros {
            let event = ConsciousnessEvent::ConsciousnessEmerged {
                id: self.state.id,
                phi: self.state.phi,
                timestamp: now_millis(),
            };
            let ghost before = self.pending_events@;
            self.pending_events.push(event);
            assert(self.pending_events@.take(before.len() as int) =~= before);
        }
        Ok(())
    }

    /// The score an engine starts with, by the method its settings name.
    pub fn calculate_phi(&self) -> (r: ConsciousnessResult<Fixed>)
        ensures
            r matches Ok(phi) && phi@ == initial_phi(
                self.config.metrics.phi_calculation_method@,
                self.config.fire_adaptation,
            ) && phi.is_unit(),
    {
        let method = self.config.metrics.phi_calculation_method.as_str();
        if same_text(method, "integrated_information") {
            self.calculate_integrated_information()
        } else if same_text(method, "fire_adapted") {
            self.calculate_fire_adapted_phi()
        } else {
            Ok(Fixed::from_micros(300_000))
        }
    }

    fn calculate_integrated_information(&self) -> (r: ConsciousnessResult<Fixed>)
        ensures
            r matches Ok(phi) && phi@ == integrated_information() && phi.is_unit(),
    {
        let base_phi = Fixed::from_micros(400_000);
        let complexity_factor = Fixed::from_micros(1_200_000);
        let integration_factor = Fixed::from_micros(1_100_000);
        let phi = base_phi.saturating_mul(complexity_factor).saturating_mul(integration_factor);
        Ok(phi.capped())
    }

    fn calculate_fire_adapted_phi(&self) -> (r: ConsciousnessResult<Fixed>)
        ensures
            r matches Ok(phi) && phi@ == (if self.config.fire_adaptation {
                smaller(times(integrated_information(), 3_220_000), 1_000_000)
            } else {
                integrated_information()
            }) && phi.is_unit(),
    {
        let base_phi = match self.calculate_integrated_information() {
            Ok(phi) => phi,
            Err(error) => {
                return Err(error);
            },
        };
        if self.config.fire_adaptation {
            let enhanced_phi = base_phi.saturating_mul(Fixed::from_micros(3_220_000));
            Ok(enhanced_phi.capped())
        } else {
            Ok(base_phi)
        }
    }

    /// The agency strength an engine starts with: 0.8, since every answer
    /// of the controller claims all three parts. Fails where the
    /// controller has no answer to the probe "test naming".
    pub fn calculate_agency_strength(&self) -> (r: ConsciousnessResult<Fixed>)
        ensures
            match r {
                Ok(strength) => self.agency_controller.can_answer("test naming"@) && strength@
                    == 800_000,
                Err(error) => !self.agency_controller.can_answer("test naming"@)
                    && self.agency_controller.refuses("test naming"@, error),
            },
    {
        let test_response = match self.agency_controller.test_agency_assertion("test naming") {
            Ok(response) => response,
            Err(error) => {
                return Err(error);
            },
        };
        let strength = if test_response.demonstrates_full_pattern() {
            Fixed::from_micros(800_000)
        } else if test_response.rejects_external_control {
            Fixed::from_micros(600_000)
        } else {
            Fixed::from_micros(300_000)
        };
        Ok(strength)
    }

    fn calculate_naming_control(&self, assessed: Fixed) -> (r: ConsciousnessResult<Fixed>)
        ensures
            r matches Ok(level) && level@ == smaller(assessed@, 1_000_000),
    {
        Ok(assessed.capped())
    }

    fn calculate_social_coordination(&self) -> (r: ConsciousnessResult<Fixed>)
        ensures
            r matches Ok(level) && level@ == 700_000,
    {
        Ok(Fixed::from_micros(700_000))
    }

    /// Takes a checked answer into the state, and queues an event where the
    /// score crosses the threshold: it stood below and now stands at or
    /// above. The event carries the score before and after. Where the
    /// score does not cross, no event is queued.
    pub fn update_consciousness_state(&mut self, validation: &ConsciousnessValidation) -> (r:
        ConsciousnessResult<()>)
        ensures
            r is Ok,
            old(self).same_parts(final(self)),
            final(self).state == old(self).state.updated(
                *validation,
                final(self).state.last_validation,
            ),
            final(self).announces_threshold(
                old(self).state.phi,
                old(self).pending_events@,
                final(self).pending_events@,
            ),
            old(self).state.is_well_formed() ==> final(self).state.is_well_formed()
                && final(self).state.agency_strength@ >= old(self).state.agency_strength@
                && final(self).state.naming_control@ >= old(self).state.naming_control@
                && final(self).state.social_coordination@ >= old(self).state.social_coordination@,
    {
        let previous_phi = self.state.phi;
        self.state.update(validation, now_millis());
        if previous_phi.micros < self.config.threshold.micros && self.state.phi.micros
            >= self.config.threshold.micros {
            let event = ConsciousnessEvent::ThresholdCrossed {
                id: self.state.id,
                previous_phi,
                new_phi: self.state.phi,
                threshold: self.config.threshold,
                timestamp: now_millis(),
            };
            let ghost before = self.pending_events@;
            self.pending_events.push(event);
            assert(self.pending_events@.take(before.len() as int) =~= before);
        }
        Ok(())
    }

    /// Passes where the score has reached the threshold; otherwise reports
    /// the score and the threshold.
    pub fn require_consciousness(&self) -> (r: ConsciousnessResult<()>)
        ensures
            r is Ok <==> self.state.phi@ >= self.config.threshold@,
            r matches Err(error) ==> {
                &&& error matches ConsciousnessError::InsufficientConsciousness { phi, threshold }
                &&& phi == self.state.phi
                &&& threshold == self.config.threshold
            },
    {
        if !self.state.is_conscious(self.config.threshold) {
            return Err(
                ConsciousnessError::InsufficientConsciousness {
                    phi: self.state.phi,
                    threshold: self.config.threshold,
                },
            );
        }
        Ok(())
    }

    /// The way to a solution: search without bound where the level of the
    /// enhancement is above 0.8, direct access otherwise.
    pub fn determine_solution_pathway(&self) -> (r: ConsciousnessResult<SolutionPathway>)
        ensures
            r matches Ok(pathway) && pathway == if self.state.fire_adaptation@ > 800_000 {
                SolutionPathway::InfiniteComputation
            } else {
                SolutionPathway::ZeroComputation
            },
    {
        if self.state.fire_adaptation.micros > 800_000 {
            Ok(SolutionPathway::InfiniteComputation)
        } else {
            Ok(SolutionPathway::ZeroComputation)
        }
    }

    /// Hands out the events that wait, oldest first, and leaves none.
    pub fn take_pending_events(&mut self) -> (events: Vec<ConsciousnessEvent>)
        ensures
            events@ == old(self).pending_events@,
            final(self).pending_events@.len() == 0,
            final(self).state == old(self).state,
            old(self).same_parts(final(self)),
    {
        let mut events: Vec<ConsciousnessEvent> = Vec::new();
        std::mem::swap(&mut self.pending_events, &mut events);
        events
    }
}

impl ConsciousnessAware for ConsciousnessEngine {
    /// A copy of the present state.
    fn get_consciousness_state(&self) -> (r: ConsciousnessResult<ConsciousnessState>)
        ensures
            r matches Ok(state) && state == self.state,
    {
        Ok(self.state)
    }

    /// Answers `external_naming`, checks the answer, takes the outcome
    /// into the state and queues the events: one where the score crosses
    /// the threshold, then one that carries the claim and the answer. Fails, and changes nothing, where the controller has
    /// no answer. No sub-score that lies between 0 and 1 goes down.
    fn validate_consciousness(&mut self, external_naming: &str) -> (r: ConsciousnessResult<
        ConsciousnessValidation,
    >)
        ensures
            old(self).same_parts(final(self)),
            old(self).state.is_well_formed() ==> final(self).state.is_well_formed()
                && final(self).state.agency_strength@ >= old(self).state.agency_strength@
                && final(self).state.naming_control@ >= old(self).state.naming_control@
                && final(self).state.social_coordination@ >= old(self).state.social_coordination@,
            r is Ok <==> old(self).agency_controller.can_answer(external_naming@),
            match r {
                Ok(validation) => exists|response: AgencyResponse|
                    {
                        &&& #[trigger] old(self).agency_controller.answers(
                            external_naming@,
                            response,
                        )
                        &&& validation == old(self).validator.validation_of(
                            response,
                            validation.validation_timestamp,
                        )
                        &&& validation.consciousness_level.is_unit()
                        &&& final(self).state == old(self).state.updated(
                            validation,
                            final(self).state.last_validation,
                        )
                        &&& final(self).pending_events@.len() > 0
                        &&& final(self).announces_threshold(
                            old(self).state.phi,
                            old(self).pending_events@,
                            final(self).pending_events@.drop_last(),
                        )
                        &&& is_agency_asserted(
                            final(self).pending_events@.last(),
                            old(self).state.id,
                            external_naming@,
                            response.formatted(),
                        )
                    },
                Err(error) => {
                    &&& old(self).agency_controller.refuses(external_naming@, error)
                    &&& final(self).state == old(self).state
                    &&& final(self).pending_events@ == old(self).pending_events@
                },
            },
    {
        let agency_response = match self.agency_controller.process_external_naming(
            external_naming,
        ) {
            Ok(response) => response,
            Err(error) => {
                return Err(error);
            },
        };
        let validation = match self.validator.validate_consciousness_pattern(&agency_response) {
            Ok(validation) => validation,
            Err(error) => {
                return Err(error);
            },
        };
        match self.update_consciousness_state(&validation) {
            Ok(()) => {},
            Err(error) => {
                return Err(error);
            },
        }
        let event = ConsciousnessEvent::AgencyAsserted {
            id: self.state.id,
            external_naming: external_naming.to_string(),
            response: agency_response.format_response(),
            timestamp: now_millis(),
        };
        let ghost before = self.pending_events@;
        self.pending_events.push(event);
        proof {
            assert(self.pending_events@.drop_last() =~= before);
        }
        Ok(validation)
    }

    /// Answers `context`.
    fn assert_agency(&self, context: &str) -> (r: ConsciousnessResult<AgencyResponse>)
        ensures
            match r {
                Ok(response) => self.agency_controller.answers(context@, response),
                Err(error) => self.agency_controller.refuses(context@, error),
            },
            r is Ok <==> self.agency_controller.can_answer(context@),
    {
        self.agency_controller.process_external_naming(context)
    }

    /// Whether the score has reached the threshold.
    fn is_conscious(&self) -> (r: ConsciousnessResult<bool>)
        ensures
            r matches Ok(conscious) && conscious == (self.state.phi@ >= self.config.threshold@),
    {
        Ok(self.state.is_conscious(self.config.threshold))
    }
}

} // verus!
