//! Rule-based scoring of free-text claims against the pattern "reject the
//! claim, name what happened instead, assert authorship of that name".
//!
//! Every score, weight and multiplier is a [`fixed::Fixed`]: a non-negative
//! decimal with six fractional digits whose arithmetic is exact integer
//! arithmetic with stated rounding. Times are milliseconds since the start
//! of 1970, UTC.

use vstd::prelude::*;

pub mod agency;
pub mod clock;
pub mod consciousness;
pub mod fire_adaptation;
pub mod fixed;
pub mod text;
pub mod validation;

use crate::fixed::Fixed;
use uuid::Uuid;

pub use crate::agency::{AgencyController, AgencyResponse};
pub use crate::consciousness::{ConsciousnessEngine, ConsciousnessState};
pub use crate::validation::{ConsciousnessValidation, ConsciousnessValidator};

verus! {

/// Settings of one engine.
#[derive(Debug)]
pub struct ConsciousnessConfig {
    /// The least score that counts as confirmed.
    pub threshold: Fixed,
    /// Whether the assertion stage is in use.
    pub agency_assertion: bool,
    /// Whether the alternative-naming stage is in use.
    pub naming_control: bool,
    /// Whether scores pass through the enhancement step.
    pub fire_adaptation: bool,
    /// The interval between validations, for callers that schedule them.
    pub validation_interval_ms: u64,
    /// How the initial score is computed, and the weights of its parts.
    pub metrics: ConsciousnessMetricsConfig,
}

/// How the initial score is computed, and the weights of its parts.
#[derive(Debug)]
pub struct ConsciousnessMetricsConfig {
    pub phi_calculation_method: String,
    pub agency_strength_weight: Fixed,
    pub naming_control_weight: Fixed,
    pub social_coordination_weight: Fixed,
    pub resistance_strength_weight: Fixed,
}

impl Default for ConsciousnessMetricsConfig {
    fn default() -> (r: Self)
        ensures
            r.phi_calculation_method@ == "integrated_information"@,
            r.agency_strength_weight@ == 300_000,
            r.naming_control_weight@ == 200_000,
            r.social_coordination_weight@ == 250_000,
            r.resistance_strength_weight@ == 250_000,
    {
        ConsciousnessMetricsConfig {
            phi_calculation_method: "integrated_information".to_string(),
            agency_strength_weight: Fixed::from_micros(300_000),
            naming_control_weight: Fixed::from_micros(200_000),
            social_coordination_weight: Fixed::from_micros(250_000),
            resistance_strength_weight: Fixed::from_micros(250_000),
        }
    }
}

impl Default for ConsciousnessConfig {
    fn default() -> (r: Self)
        ensures
            r.threshold@ == 600_000,
            r.agency_assertion,
            r.naming_control,
            r.fire_adaptation,
            r.validation_interval_ms == 1000,
            r.metrics.phi_calculation_method@ == "integrated_information"@,
            r.metrics.agency_strength_weight@ == 300_000,
            r.metrics.naming_control_weight@ == 200_000,
            r.metrics.social_coordination_weight@ == 250_000,
            r.metrics.resistance_strength_weight@ == 250_000,
    {
        ConsciousnessConfig {
            threshold: Fixed::from_micros(600_000),
            agency_assertion: true,
            naming_control: true,
            fire_adaptation: true,
            validation_interval_ms: 1000,
            metrics: ConsciousnessMetricsConfig::default(),
        }
    }
}

impl Clone for ConsciousnessMetricsConfig {
    fn clone(&self) -> (r: Self)
        ensures
            r == *self,
    {
        ConsciousnessMetricsConfig {
            phi_calculation_method: self.phi_calculation_method.clone(),
            agency_strength_weight: self.agency_strength_weight,
            naming_control_weight: self.naming_control_weight,
            social_coordination_weight: self.social_coordination_weight,
            resistance_strength_weight: self.resistance_strength_weight,
        }
    }
}

impl Clone for ConsciousnessConfig {
    fn clone(&self) -> (r: Self)
        ensures
            r == *self,
    {
        ConsciousnessConfig {
            threshold: self.threshold,
            agency_assertion: self.agency_assertion,
            naming_control: self.naming_control,
            fire_adaptation: self.fire_adaptation,
            validation_interval_ms: self.validation_interval_ms,
            metrics: self.metrics.clone(),
        }
    }
}

/// A keyed store of settings.
pub trait ConfigSource {
    /// The decimal stored under `key`, if there is one.
    fn get_f64(&self, key: &str) -> Option<Fixed>;

    /// The switch stored under `key`, if there is one.
    fn get_bool(&self, key: &str) -> Option<bool>;

    /// The count stored under `key`, if there is one.
    fn get_u64(&self, key: &str) -> Option<u64>;

    /// The text stored under `key`, if there is one.
    fn get_string(&self, key: &str) -> Option<String>;
}

/// What a store holds for each setting of an engine; `None` where it holds
/// nothing.
pub struct ConfigValues {
    pub threshold: Option<Fixed>,
    pub agency_assertion: Option<bool>,
    pub naming_control: Option<bool>,
    pub fire_adaptation: Option<bool>,
    pub validation_interval_ms: Option<u64>,
    pub phi_calculation_method: Option<String>,
    pub agency_strength_weight: Option<Fixed>,
    pub naming_control_weight: Option<Fixed>,
    pub social_coordination_weight: Option<Fixed>,
    pub resistance_strength_weight: Option<Fixed>,
}

/// `stored`, or `fallback` where nothing is stored.
pub open spec fn or_default<T>(stored: Option<T>, fallback: T) -> T {
    match stored {
        Some(value) => value,
        None => fallback,
    }
}

/// Whether `values` is what `config` gave back when it was asked for each
/// setting under its key.
pub open spec fn read_from<C: ConfigSource>(config: &C, values: ConfigValues) -> bool {
    &&& call_ensures(C::get_f64, (config, "consciousness.threshold"), values.threshold)
    &&& call_ensures(
        C::get_bool,
        (config, "consciousness.agency_assertion"),
        values.agency_assertion,
    )
    &&& call_ensures(C::get_bool, (config, "consciousness.naming_control"), values.naming_control)
    &&& call_ensures(
        C::get_bool,
        (config, "consciousness.fire_adaptation"),
        values.fire_adaptation,
    )
    &&& call_ensures(
        C::get_u64,
        (config, "consciousness.validation_interval_ms"),
        values.validation_interval_ms,
    )
    &&& call_ensures(
        C::get_string,
        (config, "consciousness.metrics.phi_calculation_method"),
        values.phi_calculation_method,
    )
    &&& call_ensures(
        C::get_f64,
        (config, "consciousness.metrics.agency_strength_weight"),
        values.agency_strength_weight,
    )
    &&& call_ensures(
        C::get_f64,
        (config, "consciousness.metrics.naming_control_weight"),
        values.naming_control_weight,
    )
    &&& call_ensures(
        C::get_f64,
        (config, "consciousness.metrics.social_coordination_weight"),
        values.social_coordination_weight,
    )
    &&& call_ensures(
        C::get_f64,
        (config, "consciousness.metrics.resistance_strength_weight"),
        values.resistance_strength_weight,
    )
}

impl ConsciousnessConfig {
    /// Whether these are the settings that `values` holds, each falling
    /// back to its default where nothing is held: threshold 0.6, every
    /// switch on, an interval of 1000 ms, the method
    /// "integrated_information", and the weights 0.3, 0.2, 0.25 and 0.25.
    pub open spec fn made_of(&self, values: ConfigValues) -> bool {
        &&& self.threshold == or_default(values.threshold, Fixed { micros: 600_000 })
        &&& self.agency_assertion == or_default(values.agency_assertion, true)
        &&& self.naming_control == or_default(values.naming_control, true)
        &&& self.fire_adaptation == or_default(values.fire_adaptation, true)
        &&& self.validation_interval_ms == or_default(values.validation_interval_ms, 1000)
        &&& self.metrics.phi_calculation_method@ == match values.phi_calculation_method {
            Some(name) => name@,
            None => "integrated_information"@,
        }
        &&& self.metrics.agency_strength_weight == or_default(
            values.agency_strength_weight,
            Fixed { micros: 300_000 },
        )
        &&& self.metrics.naming_control_weight == or_default(
            values.naming_control_weight,
            Fixed { micros: 200_000 },
        )
        &&& self.metrics.social_coordination_weight == or_default(
            values.social_coordination_weight,
            Fixed { micros: 250_000 },
        )
        &&& self.metrics.resistance_strength_weight == or_default(
            values.resistance_strength_weight,
            Fixed { micros: 250_000 },
        )
    }

    /// The settings that `values` holds, each falling back to its default
    /// where nothing is held.
    pub fn from_values(values: ConfigValues) -> (r: Self)
        ensures
            r.made_of(values),
    {
        let method = match values.phi_calculation_method {
            Some(name) => name,
            None => "integrated_information".to_string(),
        };
        ConsciousnessConfig {
            threshold: decimal_or(values.threshold, 600_000),
            agency_assertion: flag_or(values.agency_assertion, true),
            naming_control: flag_or(values.naming_control, true),
            fire_adaptation: flag_or(values.fire_adaptation, true),
            validation_interval_ms: match values.validation_interval_ms {
                Some(interval) => interval,
                None => 1000,
            },
            metrics: ConsciousnessMetricsConfig {
                phi_calculation_method: method,
                agency_strength_weight: decimal_or(values.agency_strength_weight, 300_000),
                naming_control_weight: decimal_or(values.naming_control_weight, 200_000),
                social_coordination_weight: decimal_or(values.social_coordination_weight, 250_000),
                resistance_strength_weight: decimal_or(values.resistance_strength_weight, 250_000),
            },
        }
    }

    /// The settings that `config` holds under the `consciousness.` keys:
    /// the store is asked once for each key, and what it gives back is
    /// made into settings as [`Self::from_values`] does.
    pub fn from_config<C: ConfigSource>(config: &C) -> (r: Self)
        ensures
            exists|values: ConfigValues| #[trigger] read_from(config, values) && r.made_of(values),
    {
        let values = ConfigValues {
            threshold: config.get_f64("consciousness.threshold"),
            agency_assertion: config.get_bool("consciousness.agency_assertion"),
            naming_control: config.get_bool("consciousness.naming_control"),
            fire_adaptation: config.get_bool("consciousness.fire_adaptation"),
            validation_interval_ms: config.get_u64("consciousness.validation_interval_ms"),
            phi_calculation_method: config.get_string(
                "consciousness.metrics.phi_calculation_method",
            ),
            agency_strength_weight: config.get_f64(
                "consciousness.metrics.agency_strength_weight",
            ),
            naming_control_weight: config.get_f64("consciousness.metrics.naming_control_weight"),
            social_coordination_weight: config.get_f64(
                "consciousness.metrics.social_coordination_weight",
            ),
            resistance_strength_weight: config.get_f64(
                "consciousness.metrics.resistance_strength_weight",
            ),
        };
        proof {
            assert(read_from(config, values));
        }
        ConsciousnessConfig::from_values(values)
    }
}

fn decimal_or(stored: Option<Fixed>, fallback_micros: u64) -> (r: Fixed)
    ensures
        r == or_default(stored, Fixed { micros: fallback_micros }),
{
    match stored {
        Some(value) => value,
        None => Fixed::from_micros(fallback_micros),
    }
}

fn flag_or(stored: Option<bool>, fallback: bool) -> (r: bool)
    ensures
        r == or_default(stored, fallback),
{
    match stored {
        Some(value) => value,
        None => fallback,
    }
}

/// What can go wrong.
#[derive(Debug)]
pub enum ConsciousnessError {
    /// An action that needs a confirmed score found the score too low.
    InsufficientConsciousness { phi: Fixed, threshold: Fixed },
    /// The rejection or the assertion stage has no template to offer.
    AgencyAssertionFailed { reason: String },
    /// The alternative-naming stage has no template to offer.
    NamingControlFailed { reason: String },
    /// A caller's deadline passed before validation ended.
    ValidationTimeout,
    /// The enhancement step, or one stage of it, refused its input.
    FireAdaptationUnavailable { reason: String },
    /// An engine could not be set up.
    InitializationFailed { source: String },
}

pub type ConsciousnessResult<T> = Result<T, ConsciousnessError>;

/// What the enhancement step currently offers.
#[derive(Clone, Copy, Debug)]
pub struct FireAdaptationStatus {
    pub enabled: bool,
    pub cognitive_enhancement_factor: Fixed,
    pub quantum_coherence_time_ms: Fixed,
    pub fire_wavelength_optimization: Fixed,
    pub alpha_rhythm_resonance: Fixed,
}

/// Anything that solves problems of one kind. An engine offers the two
/// decisions that such a solver rests on:
/// [`ConsciousnessEngine::require_consciousness`] and
/// [`ConsciousnessEngine::determine_solution_pathway`].
pub trait UniversalProblemReducer {
    type Problem;

    type Solution;

    /// The solution of `problem`.
    fn reduce_problem(&self, problem: Self::Problem) -> ConsciousnessResult<Self::Solution>;

    /// The way by which `problem` is to be solved.
    fn determine_solution_pathway(&self, problem: &Self::Problem) -> ConsciousnessResult<
        SolutionPathway,
    >;
}

/// The two ways to a solution.
#[derive(Clone, Copy, Debug, PartialEq, Eq, Structural)]
pub enum SolutionPathway {
    /// Search without bound.
    InfiniteComputation,
    /// Direct access.
    ZeroComputation,
}

/// What an engine reports to its subscribers.
#[derive(Debug)]
pub enum ConsciousnessEvent {
    /// The initial score reached the threshold.
    ConsciousnessEmerged { id: Uuid, phi: Fixed, timestamp: i64 },
    /// A claim was answered.
    AgencyAsserted { id: Uuid, external_naming: String, response: String, timestamp: i64 },
    /// A name was replaced.
    NamingControlExercised {
        id: Uuid,
        original_naming: String,
        modified_naming: String,
        timestamp: i64,
    },
    /// The enhancement step was engaged.
    FireAdaptationActivated { id: Uuid, enhancement_factor: Fixed, timestamp: i64 },
    /// An update took the score from below the threshold to it or above.
    ThresholdCrossed {
        id: Uuid,
        previous_phi: Fixed,
        new_phi: Fixed,
        threshold: Fixed,
        timestamp: i64,
    },
}

impl Clone for ConsciousnessEvent {
    fn clone(&self) -> (r: Self)
        ensures
            r == *self,
    {
        match self {
            ConsciousnessEvent::ConsciousnessEmerged { id, phi, timestamp } => {
                ConsciousnessEvent::ConsciousnessEmerged {
                    id: *id,
                    phi: *phi,
                    timestamp: *timestamp,
                }
            },
            ConsciousnessEvent::AgencyAsserted { id, external_naming, response, timestamp } => {
                ConsciousnessEvent::AgencyAsserted {
                    id: *id,
                    external_naming: external_naming.clone(),
                    response: response.clone(),
                    timestamp: *timestamp,
                }
            },
            ConsciousnessEvent::NamingControlExercised {
                id,
                original_naming,
                modified_naming,
                timestamp,
            } => {
                ConsciousnessEvent::NamingControlExercised {
                    id: *id,
                    original_naming: original_naming.clone(),
                    modified_naming: modified_naming.clone(),
                    timestamp: *timestamp,
                }
            },
            ConsciousnessEvent::FireAdaptationActivated { id, enhancement_factor, timestamp } => {
                ConsciousnessEvent::FireAdaptationActivated {
                    id: *id,
                    enhancement_factor: *enhancement_factor,
                    timestamp: *timestamp,
                }
            },
            ConsciousnessEvent::ThresholdCrossed {
                id,
                previous_phi,
                new_phi,
                threshold,
                timestamp,
            } => {
                ConsciousnessEvent::ThresholdCrossed {
                    id: *id,
                    previous_phi: *previous_phi,
                    new_phi: *new_phi,
                    threshold: *threshold,
                    timestamp: *timestamp,
                }
            },
        }
    }
}

/// Anything that holds a score and can check a claim.
pub trait ConsciousnessAware {
    /// A copy of the present state.
    fn get_consciousness_state(&self) -> ConsciousnessResult<ConsciousnessState>;

    /// Answers `external_naming`, checks the answer and takes the outcome
    /// into the state.
    fn validate_consciousness(&mut self, external_naming: &str) -> ConsciousnessResult<
        ConsciousnessValidation,
    >;

    /// Answers `context`.
    fn assert_agency(&self, context: &str) -> ConsciousnessResult<AgencyResponse>;

    /// Whether the score has reached the threshold.
    fn is_conscious(&self) -> ConsciousnessResult<bool>;
}

/// Anything that can lift a score through the chain of stages.
pub trait FireAdapted {
    /// The factor by which the chain lifts a level of 1.
    fn enhance_consciousness(&self) -> ConsciousnessResult<Fixed>;

    /// What the enhancement currently offers.
    fn get_fire_adaptation_status(&self) -> ConsciousnessResult<FireAdaptationStatus>;

    /// Whether the coupling is strong enough for the enhanced figures.
    fn validate_fire_coupling(&self) -> ConsciousnessResult<bool>;
}

/// Anything that takes events.
pub trait ConsciousnessEventHandler {
    /// Takes one event, or says why it could not.
    fn handle_event(&self, event: ConsciousnessEvent) -> Result<(), String>;
}

/// What one system reported: its score, or nothing where it failed to
/// report.
pub open spec fn score_of(report: ConsciousnessResult<ConsciousnessState>) -> Option<int> {
    match report {
        Ok(state) => Some(state.phi@),
        Err(_) => None,
    }
}

/// How many systems reported.
pub open spec fn reporting(reports: Seq<ConsciousnessResult<ConsciousnessState>>) -> nat
    decreases reports.len(),
{
    if reports.len() == 0 {
        0
    } else {
        reporting(reports.drop_last()) + if reports.last() is Ok {
            1nat
        } else {
            0nat
        }
    }
}

/// How many systems reported a score of at least 0.6.
pub open spec fn passing(reports: Seq<ConsciousnessResult<ConsciousnessState>>) -> nat
    decreases reports.len(),
{
    if reports.len() == 0 {
        0
    } else {
        passing(reports.drop_last()) + if score_of(reports.last()) matches Some(phi) && phi
            >= 600_000 {
            1nat
        } else {
            0nat
        }
    }
}

/// The sum of the scores reported.
pub open spec fn score_total(reports: Seq<ConsciousnessResult<ConsciousnessState>>) -> nat
    decreases reports.len(),
{
    if reports.len() == 0 {
        0
    } else {
        score_total(reports.drop_last()) + match reports.last() {
            Ok(state) => state.phi.micros as nat,
            Err(_) => 0nat,
        }
    }
}

/// The summary of a list of reports: how many systems reported, how many
/// of them a score of at least 0.6, how many failed to report, and the
/// mean of the scores reported, which is 0 where none was.
pub open spec fn status_of(
    reports: Seq<ConsciousnessResult<ConsciousnessState>>,
) -> OverallConsciousnessStatus {
    OverallConsciousnessStatus {
        total_systems: reporting(reports) as usize,
        conscious_systems: passing(reports) as usize,
        failed_systems: (reports.len() - reporting(reports)) as usize,
        average_phi: Fixed {
            micros: if reporting(reports) > 0 {
                (score_total(reports) / reporting(reports)) as u64
            } else {
                0
            },
        },
    }
}

/// The summary with nothing in it: no system, and a mean of 0.
pub open spec fn empty_status() -> OverallConsciousnessStatus {
    OverallConsciousnessStatus {
        total_systems: 0,
        conscious_systems: 0,
        failed_systems: 0,
        average_phi: Fixed { micros: 0 },
    }
}

/// The counts of a summary are bounded by the number of reports, and the
/// sum of the scores by that number of largest scores.
pub proof fn status_bounds(reports: Seq<ConsciousnessResult<ConsciousnessState>>)
    ensures
        passing(reports) <= reporting(reports) <= reports.len(),
        score_total(reports) <= reporting(reports) * 0xffff_ffff_ffff_ffff,
    decreases reports.len(),
{
    if reports.len() > 0 {
        status_bounds(reports.drop_last());
        assert((reporting(reports.drop_last()) + 1) * 0xffff_ffff_ffff_ffff == reporting(
            reports.drop_last(),
        ) * 0xffff_ffff_ffff_ffff + 0xffff_ffff_ffff_ffff) by (nonlinear_arith);
    }
}

/// A summary of the systems of a registry.
#[derive(Clone, Copy, Debug, PartialEq, Eq, Structural)]
pub struct OverallConsciousnessStatus {
    /// How many systems reported.
    pub total_systems: usize,
    /// How many reported a score of at least 0.6.
    pub conscious_systems: usize,
    /// How many failed to report.
    pub failed_systems: usize,
    /// The mean of the scores reported.
    pub average_phi: Fixed,
}

impl Default for OverallConsciousnessStatus {
    fn default() -> (r: Self)
        ensures
            r == empty_status(),
    {
        OverallConsciousnessStatus {
            total_systems: 0,
            conscious_systems: 0,
            failed_systems: 0,
            average_phi: Fixed::zero(),
        }
    }
}

impl OverallConsciousnessStatus {
    /// The summary of what the systems of a registry reported. No report
    /// gives the summary of all zeros.
    pub fn summarize(reports: &Vec<ConsciousnessResult<ConsciousnessState>>) -> (status: Self)
        ensures
            status == status_of(reports@),
            reports@.len() == 0 ==> status == empty_status(),
    {
        let mut status = OverallConsciousnessStatus::default();
        let mut total_phi: u128 = 0;
        let mut i: usize = 0;
        while i < reports.len()
            invariant
                i <= reports@.len(),
                status.total_systems == reporting(reports@.take(i as int)),
                status.conscious_systems == passing(reports@.take(i as int)),
                status.failed_systems == i - reporting(reports@.take(i as int)),
                total_phi == score_total(reports@.take(i as int)),
                status.average_phi@ == 0,
            decreases reports@.len() - i,
        {
            proof {
                assert(reports@.take(i + 1).drop_last() =~= reports@.take(i as int));
                status_bounds(reports@.take(i as int));
                status_bounds(reports@.take(i + 1));
            }
            match &reports[i] {
                Ok(state) => {
                    status.total_systems += 1;
                    if state.phi.micros >= 600_000 {
                        status.conscious_systems += 1;
                    }
                    total_phi = total_phi + state.phi.micros as u128;
                },
                Err(_) => {
                    status.failed_systems += 1;
                },
            }
            i += 1;
        }
        proof {
            assert(reports@.take(i as int) =~= reports@);
            status_bounds(reports@);
        }
        if status.total_systems > 0 {
            proof {
                let count = status.total_systems as int;
                assert(total_phi as int / count <= 0xffff_ffff_ffff_ffff) by (nonlinear_arith)
                    requires
                        0 <= total_phi <= count * 0xffff_ffff_ffff_ffff,
                        count > 0,
                ;
            }
            status.average_phi = Fixed::from_micros(
                (total_phi / (status.total_systems as u128)) as u64,
            );
        }
        status
    }
}

/// How many of the outcomes are refusals.
pub open spec fn refusals(outcomes: Seq<Result<(), String>>) -> nat
    decreases outcomes.len(),
{
    if outcomes.len() == 0 {
        0
    } else {
        refusals(outcomes.drop_last()) + if outcomes.last() is Err {
            1nat
        } else {
            0nat
        }
    }
}

/// The systems that report a score and the handlers that take events, each
/// list in the order of registration.
pub struct ConsciousnessRegistry<S: ConsciousnessAware, H: ConsciousnessEventHandler> {
    pub systems: Vec<S>,
    pub event_handlers: Vec<H>,
}

impl<S: ConsciousnessAware, H: ConsciousnessEventHandler> ConsciousnessRegistry<S, H> {
    /// A registry with no system and no handler.
    pub fn new() -> (r: Self)
        ensures
            r.systems@.len() == 0,
            r.event_handlers@.len() == 0,
    {
        ConsciousnessRegistry { systems: Vec::new(), event_handlers: Vec::new() }
    }

    /// Adds a system behind those already registered.
    pub fn register_system(&mut self, system: S)
        ensures
            final(self).systems@ == old(self).systems@.push(system),
            final(self).event_handlers@ == old(self).event_handlers@,
    {
        self.systems.push(system);
    }

    /// Adds a handler behind those already registered.
    pub fn register_event_handler(&mut self, handler: H)
        ensures
            final(self).event_handlers@ == old(self).event_handlers@.push(handler),
            final(self).systems@ == old(self).systems@,
    {
        self.event_handlers.push(handler);
    }

    /// Whether `outcomes` is what the handlers gave back, each in its
    /// place, when each was handed `event`.
    pub open spec fn handed_out(
        &self,
        event: ConsciousnessEvent,
        outcomes: Seq<Result<(), String>>,
    ) -> bool {
        &&& outcomes.len() == self.event_handlers@.len()
        &&& forall|i: int|
            0 <= i < outcomes.len() ==> call_ensures(
                H::handle_event,
                (&self.event_handlers@[i], event),
                #[trigger] outcomes[i],
            )
    }

    /// Whether `reports` is what the systems gave back, each in its place,
    /// when each was asked for its state.
    pub open spec fn asked(&self, reports: Seq<ConsciousnessResult<ConsciousnessState>>) -> bool {
        &&& reports.len() == self.systems@.len()
        &&& forall|i: int|
            0 <= i < reports.len() ==> call_ensures(
                S::get_consciousness_state,
                (&self.systems@[i],),
                #[trigger] reports[i],
            )
    }

    /// Hands a copy of `event` to every handler, in the order of
    /// registration. A handler that fails stops nothing: the next one is
    /// served all the same. Returns how many handlers failed.
    pub fn emit_event(&self, event: ConsciousnessEvent) -> (failures: usize)
        ensures
            exists|outcomes: Seq<Result<(), String>>| #[trigger]
                self.handed_out(event, outcomes) && failures == refusals(outcomes),
            failures <= self.event_handlers@.len(),
    {
        let mut failures: usize = 0;
        let mut i: usize = 0;
        let ghost mut outcomes: Seq<Result<(), String>> = Seq::empty();
        while i < self.event_handlers.len()
            invariant
                i <= self.event_handlers@.len(),
                outcomes.len() == i,
                forall|k: int|
                    0 <= k < i ==> call_ensures(
                        H::handle_event,
                        (&self.event_handlers@[k], event),
                        #[trigger] outcomes[k],
                    ),
                failures == refusals(outcomes),
                failures <= i,
            decreases self.event_handlers@.len() - i,
        {
            let outcome = self.event_handlers[i].handle_event(event.clone());
            proof {
                assert(outcomes.push(outcome).drop_last() =~= outcomes);
                outcomes = outcomes.push(outcome);
            }
            match outcome {
                Ok(()) => {},
                Err(_) => {
                    failures += 1;
                },
            }
            i += 1;
        }
        proof {
            assert(self.handed_out(event, outcomes));
        }
        failures
    }

    /// Asks every system for its state and summarizes what came back. The
    /// summary is that of one report for each system; with no system it is
    /// all zeros.
    pub fn get_overall_consciousness_status(&self) -> (r: ConsciousnessResult<
        OverallConsciousnessStatus,
    >)
        ensures
            r matches Ok(status) && (exists|reports: Seq<ConsciousnessResult<ConsciousnessState>>|
                #[trigger] self.asked(reports) && status == status_of(reports)),
            self.systems@.len() == 0 ==> (r matches Ok(status) && status == empty_status()),
    {
        let mut reports: Vec<ConsciousnessResult<ConsciousnessState>> = Vec::new();
        let mut i: usize = 0;
        while i < self.systems.len()
            invariant
                i <= self.systems@.len(),
                reports@.len() == i,
                forall|k: int|
                    0 <= k < i ==> call_ensures(
                        S::get_consciousness_state,
                        (&self.systems@[k],),
                        #[trigger] reports@[k],
                    ),
            decreases self.systems@.len() - i,
        {
            let report = self.systems[i].get_consciousness_state();
            reports.push(report);
            i += 1;
        }
        proof {
            assert(self.asked(reports@));
        }
        Ok(OverallConsciousnessStatus::summarize(&reports))
    }
}

impl<S: ConsciousnessAware, H: ConsciousnessEventHandler> Default for ConsciousnessRegistry<S, H> {
    fn default() -> (r: Self)
        ensures
            r.systems@.len() == 0,
            r.event_handlers@.len() == 0,
    {
        Self::new()
    }
}

} // verus!
