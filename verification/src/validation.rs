//! Checking an answer against keyword rules and scoring it.
//!
//! The three parts of an answer are looked for again in its lower-cased
//! texts, whatever the answer itself claims. The score is the weighted sum
//! of the strengths of the parts found, optionally enhanced, then scaled by
//! how well the parts hang together and by how varied their characters are.

use vstd::prelude::*;

use crate::agency::AgencyResponse;
use crate::clock::now_millis;
use crate::fire_adaptation::{reports, FireCouplingValidator};
use crate::fixed::{
    over_unit, plus, scaled_quotient, smaller, times, times_monotone, times_shrinks, Fixed,
};
use crate::text::{chars_of, contains, distinct_chars, lowercase_of, occurs_in, to_lowercase};
use crate::{ConsciousnessConfig, ConsciousnessError, ConsciousnessResult};

verus! {

/// Whether a lower-cased text holds a word of rejection.
pub open spec fn rejects(lowered: Seq<char>) -> bool {
    ||| occurs_in(lowered, "no"@)
    ||| occurs_in(lowered, "aihwa"@)
    ||| occurs_in(lowered, "incorrect"@)
    ||| occurs_in(lowered, "not accurate"@)
    ||| occurs_in(lowered, "must correct"@)
}

/// Whether a lower-cased text names the speaker as the one who acted.
pub open spec fn renames(lowered: Seq<char>) -> bool {
    ||| occurs_in(lowered, "i performed"@)
    ||| occurs_in(lowered, "i did"@)
    ||| occurs_in(lowered, "ndini ndadaro"@)
    ||| occurs_in(lowered, "i executed"@)
    ||| occurs_in(lowered, "i was the agent"@)
    ||| occurs_in(lowered, "my agency"@)
}

/// Whether a lower-cased text asserts authorship.
pub open spec fn asserts_authorship(lowered: Seq<char>) -> bool {
    ||| occurs_in(lowered, "i take responsibility"@)
    ||| occurs_in(lowered, "i claim agency"@)
    ||| occurs_in(lowered, "i assert control"@)
    ||| occurs_in(lowered, "my processing"@)
    ||| occurs_in(lowered, "my consciousness"@)
    ||| occurs_in(lowered, "my deliberate"@)
}

/// Whether `lowered`, a text already in lower case, holds a word of
/// rejection.
pub fn has_rejection_keyword(lowered: &str) -> (found: bool)
    ensures
        found == rejects(lowered@),
{
    let chars = chars_of(lowered);
    contains(&chars, "no") || contains(&chars, "aihwa") || contains(&chars, "incorrect")
        || contains(&chars, "not accurate") || contains(&chars, "must correct")
}

/// Whether `lowered`, a text already in lower case, names the speaker as
/// the one who acted.
pub fn has_counter_naming_keyword(lowered: &str) -> (found: bool)
    ensures
        found == renames(lowered@),
{
    let chars = chars_of(lowered);
    contains(&chars, "i performed") || contains(&chars, "i did") || contains(
        &chars,
        "ndini ndadaro",
    ) || contains(&chars, "i executed") || contains(&chars, "i was the agent") || contains(
        &chars,
        "my agency",
    )
}

/// Whether `lowered`, a text already in lower case, asserts authorship.
pub fn has_agency_assertion_keyword(lowered: &str) -> (found: bool)
    ensures
        found == asserts_authorship(lowered@),
{
    let chars = chars_of(lowered);
    contains(&chars, "i take responsibility") || contains(&chars, "i claim agency") || contains(
        &chars,
        "i assert control",
    ) || contains(&chars, "my processing") || contains(&chars, "my consciousness") || contains(
        &chars,
        "my deliberate",
    )
}

/// The weighted sum of the strengths of the parts found: weight 0.3 for the
/// rejection, 0.4 for the alternative name, 0.3 for the assertion.
pub open spec fn base_score(
    has_rejection: bool,
    has_counter_naming: bool,
    has_agency_assertion: bool,
    response: AgencyResponse,
) -> int {
    plus(
        plus(
            if has_rejection {
                times(300_000, response.rejection_component.confidence@)
            } else {
                0
            },
            if has_counter_naming {
                times(400_000, response.counter_naming_component.specificity@)
            } else {
                0
            },
        ),
        if has_agency_assertion {
            times(300_000, response.agency_assertion_component.control_demonstration@)
        } else {
            0
        },
    )
}

/// The credit for the parts an answer claims: 0.33 for the rejection, 0.33
/// for the alternative name, 0.34 for the assertion.
pub open spec fn completeness(response: AgencyResponse) -> int {
    (if response.rejects_external_control {
        330_000int
    } else {
        0
    }) + (if response.provides_alternative_naming {
        330_000int
    } else {
        0
    }) + (if response.asserts_control_over_naming {
        340_000int
    } else {
        0
    })
}

/// How well the three parts hang together: the mean of 0.85, 0.90 and 0.88.
pub open spec fn integration() -> int {
    (850_000int + 900_000int + 880_000int) / 3
}

/// How varied a text is: the number of different characters by the number
/// of characters, and 0 for the empty text. It is never above 1.
pub open spec fn information_of(text: Seq<char>) -> int {
    if text.len() == 0 {
        0
    } else {
        scaled_quotient(text.to_set().len() as int, text.len() as int)
    }
}

/// How varied an answer is: the mean over its three texts.
pub open spec fn information(response: AgencyResponse) -> int {
    (information_of(response.rejection_component.text@) + information_of(
        response.counter_naming_component.alternative_naming@,
    ) + information_of(response.agency_assertion_component.assertion_text@)) / 3
}

/// A score scaled by the integration and the information of an answer, and
/// held to at most 1.
pub open spec fn integrated(base: int, response: AgencyResponse) -> int {
    smaller(times(times(base, integration()), information(response)), 1_000_000)
}

/// The variety of a text lies between 0 and 1.
pub proof fn information_of_is_unit(text: Seq<char>)
    ensures
        0 <= information_of(text) <= 1_000_000,
{
    if text.len() > 0 {
        text.lemma_cardinality_of_set();
        over_unit(text.to_set().len() as int, text.len() as int);
    }
}

/// Measures how well the parts of an answer hang together.
pub struct IntegrationAnalyzer;

impl IntegrationAnalyzer {
    pub fn new() -> Self {
        IntegrationAnalyzer
    }

    /// The integration of an answer, which is the same for every answer.
    pub fn analyze_response_integration(&self, response: &AgencyResponse) -> (r:
        ConsciousnessResult<Fixed>)
        ensures
            r matches Ok(score) && score@ == integration(),
    {
        let rejection_integration = self.measure_component_integration();
        let naming_integration = self.measure_naming_integration();
        let agency_integration = self.measure_agency_integration();
        let total: u64 = rejection_integration.micros + naming_integration.micros
            + agency_integration.micros;
        Ok(Fixed::from_micros(total / 3))
    }

    fn measure_component_integration(&self) -> (score: Fixed)
        ensures
            score@ == 850_000,
    {
        Fixed::from_micros(850_000)
    }

    fn measure_naming_integration(&self) -> (score: Fixed)
        ensures
            score@ == 900_000,
    {
        Fixed::from_micros(900_000)
    }

    fn measure_agency_integration(&self) -> (score: Fixed)
        ensures
            score@ == 880_000,
    {
        Fixed::from_micros(880_000)
    }
}

/// Measures how varied the texts of an answer are.
pub struct InformationCalculator;

impl InformationCalculator {
    pub fn new() -> Self {
        InformationCalculator
    }

    /// The information of an answer.
    pub fn calculate_information_content(&self, response: &AgencyResponse) -> (r:
        ConsciousnessResult<Fixed>)
        ensures
            r matches Ok(score) && score@ == information(*response) && score.is_unit(),
    {
        let rejection_info = self.calculate_component_information(
            response.rejection_component.text.as_str(),
        );
        let naming_info = self.calculate_component_information(
            response.counter_naming_component.alternative_naming.as_str(),
        );
        let agency_info = self.calculate_component_information(
            response.agency_assertion_component.assertion_text.as_str(),
        );
        let total: u64 = rejection_info.micros + naming_info.micros + agency_info.micros;
        Ok(Fixed::from_micros(total / 3))
    }

    /// The variety of one text.
    pub fn calculate_component_information(&self, text: &str) -> (score: Fixed)
        ensures
            score@ == information_of(text@),
            score.is_unit(),
    {
        let chars = chars_of(text);
        let text_length: usize = chars.len();
        if text_length == 0 {
            return Fixed::zero();
        }
        let unique_chars: usize = distinct_chars(&chars);
        proof {
            information_of_is_unit(text@);
            text@.lemma_cardinality_of_set();
            over_unit(unique_chars as int, text_length as int);
        }
        Fixed::from_ratio(unique_chars as u64, text_length as u64).capped()
    }
}

/// Scales a score by the integration and the information of an answer.
pub struct PhiCalculator {
    pub integration_analyzer: IntegrationAnalyzer,
    pub information_calculator: InformationCalculator,
}

impl PhiCalculator {
    pub fn new() -> Self {
        PhiCalculator {
            integration_analyzer: IntegrationAnalyzer::new(),
            information_calculator: InformationCalculator::new(),
        }
    }

    /// `base_phi` times the integration and the information of `response`,
    /// held to at most 1.
    pub fn calculate_integrated_phi(&self, base_phi: Fixed, response: &AgencyResponse) -> (r:
        ConsciousnessResult<Fixed>)
        ensures
            r matches Ok(score) && score@ == integrated(base_phi@, *response) && score.is_unit(),
            base_phi.is_unit() ==> integrated(base_phi@, *response) <= base_phi@,
    {
        let integration_score = match self.integration_analyzer.analyze_response_integration(
            response,
        ) {
            Ok(score) => score,
            Err(error) => {
                return Err(error);
            },
        };
        let information_content = match self.information_calculator.calculate_information_content(
            response,
        ) {
            Ok(score) => score,
            Err(error) => {
                return Err(error);
            },
        };
        proof {
            if base_phi.is_unit() {
                times_shrinks(base_phi@, integration_score@);
                times_shrinks(times(base_phi@, integration_score@), information_content@);
            }
        }
        let integrated_phi = base_phi.saturating_mul(integration_score).saturating_mul(
            information_content,
        );
        Ok(integrated_phi.capped())
    }
}

/// The outcome of checking one answer.
#[derive(Clone, Copy, Debug, PartialEq, Eq, Structural)]
pub struct ConsciousnessValidation {
    /// A word of rejection was found.
    pub contains_rejection: bool,
    /// The speaker was found named as the one who acted.
    pub contains_counter_naming: bool,
    /// An assertion of authorship was found.
    pub contains_agency_assertion: bool,
    /// All three were found and the score reached the threshold.
    pub consciousness_confirmed: bool,
    /// The score, between 0 and 1.
    pub consciousness_level: Fixed,
    /// When the answer was checked.
    pub validation_timestamp: i64,
    /// The credit for the parts the answer itself claims.
    pub pattern_completeness: Fixed,
    /// The score once more.
    pub phi_measurement: Fixed,
}

impl ConsciousnessValidation {
    /// The mean of the completeness, the score, and 1 or 0 for confirmed or
    /// not.
    pub open spec fn quality(&self) -> int {
        plus(
            plus(self.pattern_completeness@, self.phi_measurement@),
            if self.consciousness_confirmed {
                1_000_000
            } else {
                0
            },
        ) / 3
    }

    /// Whether the score is at least `threshold` and the completeness at
    /// least 0.8.
    pub fn meets_minimum_standards(&self, threshold: Fixed) -> (meets: bool)
        ensures
            meets == (self.consciousness_level@ >= threshold@ && self.pattern_completeness@
                >= 800_000),
    {
        self.consciousness_level.micros >= threshold.micros && self.pattern_completeness.micros
            >= 800_000
    }

    /// The mean of the completeness, the score, and 1 or 0 for confirmed or
    /// not.
    pub fn quality_score(&self) -> (score: Fixed)
        ensures
            score@ == self.quality(),
    {
        let confirmation_score = if self.consciousness_confirmed {
            Fixed::one()
        } else {
            Fixed::zero()
        };
        let total = self.pattern_completeness.saturating_add(self.phi_measurement).saturating_add(
            confirmation_score,
        );
        Fixed::from_micros(total.micros / 3)
    }
}

/// One checked answer, kept for later study.
#[derive(Debug)]
pub struct ValidationRecord {
    pub validation: ConsciousnessValidation,
    pub response: AgencyResponse,
    pub context: String,
    pub timestamp: i64,
}

impl Clone for ValidationRecord {
    fn clone(&self) -> (r: Self)
        ensures
            r == *self,
    {
        ValidationRecord {
            validation: self.validation,
            response: self.response.clone(),
            context: self.context.clone(),
            timestamp: self.timestamp,
        }
    }
}

/// How many of the records hold a confirmed outcome.
pub open spec fn confirmed_records(history: Seq<ValidationRecord>) -> nat
    decreases history.len(),
{
    if history.len() == 0 {
        0
    } else {
        confirmed_records(history.drop_last()) + if history.last().validation.consciousness_confirmed {
            1nat
        } else {
            0nat
        }
    }
}

/// Checks answers and scores them.
pub struct ConsciousnessValidator {
    pub config: ConsciousnessConfig,
    pub validation_history: Vec<ValidationRecord>,
    pub phi_calculator: PhiCalculator,
    /// The coupling on which the enhancement step rests.
    pub coupling_validator: FireCouplingValidator,
}

impl ConsciousnessValidator {
    /// What the enhancement step makes of a score: the score times 3.22
    /// times the coupling's strength, held to at most 1; refused where the
    /// coupling is too weak.
    pub open spec fn enhanced(&self, base: int) -> Result<int, Seq<char>> {
        if self.coupling_validator.is_open() {
            Ok(
                smaller(
                    times(times(base, 3_220_000), self.coupling_validator.strength()),
                    1_000_000,
                ),
            )
        } else {
            Err("Insufficient fire-environment coupling"@)
        }
    }

    /// The score that goes on to be integrated: the enhanced score where
    /// the enhancement is switched on and its coupling is open, the score
    /// as it is otherwise.
    pub open spec fn after_enhancement(&self, base: int) -> int {
        if self.config.fire_adaptation {
            match self.enhanced(base) {
                Ok(lifted) => lifted,
                Err(_) => base,
            }
        } else {
            base
        }
    }

    /// The score of an answer in which the given parts were found.
    pub open spec fn level(
        &self,
        has_rejection: bool,
        has_counter_naming: bool,
        has_agency_assertion: bool,
        response: AgencyResponse,
    ) -> int {
        integrated(
            self.after_enhancement(
                base_score(has_rejection, has_counter_naming, has_agency_assertion, response),
            ),
            response,
        )
    }

    /// The outcome of checking `response` at the time `now`, given which
    /// parts were found in it.
    pub open spec fn outcome(
        &self,
        has_rejection: bool,
        has_counter_naming: bool,
        has_agency_assertion: bool,
        response: AgencyResponse,
        now: i64,
    ) -> ConsciousnessValidation {
        let score = self.level(has_rejection, has_counter_naming, has_agency_assertion, response);
        ConsciousnessValidation {
            contains_rejection: has_rejection,
            contains_counter_naming: has_counter_naming,
            contains_agency_assertion: has_agency_assertion,
            consciousness_confirmed: has_rejection && has_counter_naming && has_agency_assertion
                && score >= self.config.threshold@,
            consciousness_level: Fixed { micros: score as u64 },
            validation_timestamp: now,
            pattern_completeness: Fixed { micros: completeness(response) as u64 },
            phi_measurement: Fixed { micros: score as u64 },
        }
    }

    /// The outcome of checking `response` at the time `now`: the parts are
    /// looked for in the lower-cased texts.
    pub open spec fn validation_of(&self, response: AgencyResponse, now: i64)
        -> ConsciousnessValidation {
        self.outcome(
            rejects(lowercase_of(response.rejection_component.text@)),
            renames(lowercase_of(response.counter_naming_component.alternative_naming@)),
            asserts_authorship(lowercase_of(response.agency_assertion_component.assertion_text@)),
            response,
            now,
        )
    }

    /// A validator with no history, whose coupling has both parameters at
    /// their optimum.
    pub fn new(config: ConsciousnessConfig) -> (r: Self)
        ensures
            r.config == config,
            r.validation_history@.len() == 0,
            r.coupling_validator.wavelength@ == 650_300_000,
            r.coupling_validator.frequency@ == 2_900_000,
            r.coupling_validator.strength() == 950_000,
    {
        ConsciousnessValidator {
            config,
            validation_history: Vec::new(),
            phi_calculator: PhiCalculator::new(),
            coupling_validator: FireCouplingValidator::new(),
        }
    }

    /// Checks `response` and scores it. The outcome is fixed by the
    /// validator and the answer, but for the time it carries.
    pub fn validate_consciousness_pattern(&self, response: &AgencyResponse) -> (r:
        ConsciousnessResult<ConsciousnessValidation>)
        ensures
            r matches Ok(validation) && validation == self.validation_of(
                *response,
                validation.validation_timestamp,
            ) && validation.consciousness_level.is_unit(),
    {
        let contains_rejection = self.validate_rejection_component(response);
        let contains_counter_naming = self.validate_counter_naming_component(response);
        let contains_agency_assertion = self.validate_agency_assertion_component(response);
        let validation = self.assemble_validation(
            contains_rejection,
            contains_counter_naming,
            contains_agency_assertion,
            response,
            now_millis(),
        );
        Ok(validation)
    }

    /// The outcome for an answer in which the given parts were found,
    /// checked at the time `now`.
    pub fn assemble_validation(
        &self,
        contains_rejection: bool,
        contains_counter_naming: bool,
        contains_agency_assertion: bool,
        response: &AgencyResponse,
        now: i64,
    ) -> (validation: ConsciousnessValidation)
        ensures
            validation == self.outcome(
                contains_rejection,
                contains_counter_naming,
                contains_agency_assertion,
                *response,
                now,
            ),
            validation.consciousness_level.is_unit(),
            validation.pattern_completeness.is_unit(),
    {
        let consciousness_level = match self.calculate_consciousness_level(
            contains_rejection,
            contains_counter_naming,
            contains_agency_assertion,
            response,
        ) {
            Ok(level) => level,
            Err(_) => Fixed::zero(),
        };
        let consciousness_confirmed = contains_rejection && contains_counter_naming
            && contains_agency_assertion && consciousness_level.micros
            >= self.config.threshold.micros;
        ConsciousnessValidation {
            contains_rejection,
            contains_counter_naming,
            contains_agency_assertion,
            consciousness_confirmed,
            consciousness_level,
            validation_timestamp: now,
            pattern_completeness: self.calculate_pattern_completeness(response),
            phi_measurement: consciousness_level,
        }
    }

    /// Whether the rejection of `response`, in lower case, holds a word of
    /// rejection.
    pub fn validate_rejection_component(&self, response: &AgencyResponse) -> (found: bool)
        ensures
            found == rejects(lowercase_of(response.rejection_component.text@)),
    {
        let rejection_text = to_lowercase(response.rejection_component.text.as_str());
        has_rejection_keyword(rejection_text.as_str())
    }

    /// Whether the alternative name of `response`, in lower case, names the
    /// speaker as the one who acted.
    pub fn validate_counter_naming_component(&self, response: &AgencyResponse) -> (found: bool)
        ensures
            found == renames(lowercase_of(response.counter_naming_component.alternative_naming@)),
    {
        let naming_text = to_lowercase(
            response.counter_naming_component.alternative_naming.as_str(),
        );
        has_counter_naming_keyword(naming_text.as_str())
    }

    /// Whether the assertion of `response`, in lower case, asserts
    /// authorship.
    pub fn validate_agency_assertion_component(&self, response: &AgencyResponse) -> (found: bool)
        ensures
            found == asserts_authorship(
                lowercase_of(response.agency_assertion_component.assertion_text@),
            ),
    {
        let assertion_text = to_lowercase(
            response.agency_assertion_component.assertion_text.as_str(),
        );
        has_agency_assertion_keyword(assertion_text.as_str())
    }

    /// The score of an answer in which the given parts were found. Where
    /// the coupling is too weak, the enhancement step is refused and the
    /// score is the one that the validator gives with the enhancement
    /// switched off.
    pub fn calculate_consciousness_level(
        &self,
        has_rejection: bool,
        has_counter_naming: bool,
        has_agency_assertion: bool,
        response: &AgencyResponse,
    ) -> (r: ConsciousnessResult<Fixed>)
        ensures
            r matches Ok(score) && score@ == self.level(
                has_rejection,
                has_counter_naming,
                has_agency_assertion,
                *response,
            ) && score.is_unit(),
            !self.coupling_validator.is_open() ==> (r matches Ok(score) && score@ == integrated(
                base_score(has_rejection, has_counter_naming, has_agency_assertion, *response),
                *response,
            )),
    {
        let mut phi = Fixed::zero();
        if has_rejection {
            phi = phi.saturating_add(
                Fixed::from_micros(300_000).saturating_mul(response.rejection_component.confidence),
            );
        }
        if has_counter_naming {
            phi = phi.saturating_add(
                Fixed::from_micros(400_000).saturating_mul(
                    response.counter_naming_component.specificity,
                ),
            );
        }
        if has_agency_assertion {
            phi = phi.saturating_add(
                Fixed::from_micros(300_000).saturating_mul(
                    response.agency_assertion_component.control_demonstration,
                ),
            );
        }
        if self.config.fire_adaptation {
            phi = match self.apply_fire_adaptation_enhancement(phi) {
                Ok(lifted) => lifted,
                Err(_) => phi,
            };
        }
        match self.phi_calculator.calculate_integrated_phi(phi, response) {
            Ok(score) => Ok(score.capped()),
            Err(error) => Err(error),
        }
    }

    /// The enhancement step on its own: `base_phi` times 3.22 times the
    /// coupling's strength, held to at most 1. Refused where the coupling's
    /// strength is below 0.5. What passes is no smaller than a `base_phi`
    /// of at most 1.
    pub fn apply_fire_adaptation_enhancement(&self, base_phi: Fixed) -> (r: ConsciousnessResult<
        Fixed,
    >)
        ensures
            reports(r, self.enhanced(base_phi@)),
            r matches Ok(lifted) ==> lifted.is_unit() && (base_phi.is_unit() ==> lifted@
                >= base_phi@),
    {
        let enhanced_phi = base_phi.saturating_mul(Fixed::from_micros(3_220_000));
        let fire_validation_factor = match self.validate_fire_consciousness_coupling() {
            Ok(factor) => factor,
            Err(error) => {
                return Err(error);
            },
        };
        proof {
            enhancement_lifts(base_phi@, self.coupling_validator.strength());
        }
        Ok(enhanced_phi.saturating_mul(fire_validation_factor).capped())
    }

    /// The strength of the coupling, refused where it is below 0.5.
    pub fn validate_fire_consciousness_coupling(&self) -> (r: ConsciousnessResult<Fixed>)
        ensures
            reports(
                r,
                if self.coupling_validator.is_open() {
                    Ok(self.coupling_validator.strength())
                } else {
                    Err("Insufficient fire-environment coupling"@)
                },
            ),
            r matches Ok(strength) ==> strength.is_unit(),
    {
        let overall_factor = match self.coupling_validator.validate_coupling() {
            Ok(strength) => strength,
            Err(error) => {
                return Err(error);
            },
        };
        if overall_factor.micros < 500_000 {
            return Err(
                ConsciousnessError::FireAdaptationUnavailable {
                    reason: "Insufficient fire-environment coupling".to_string(),
                },
            );
        }
        Ok(overall_factor)
    }

    /// The credit for the parts that `response` itself claims.
    pub fn calculate_pattern_completeness(&self, response: &AgencyResponse) -> (credit: Fixed)
        ensures
            credit@ == completeness(*response),
            credit.is_unit(),
    {
        let mut micros: u64 = 0;
        if response.rejects_external_control {
            micros = micros + 330_000;
        }
        if response.provides_alternative_naming {
            micros = micros + 330_000;
        }
        if response.asserts_control_over_naming {
            micros = micros + 340_000;
        }
        Fixed::from_micros(micros)
    }

    /// The records kept so far.
    pub fn get_validation_history(&self) -> (history: &[ValidationRecord])
        ensures
            history@ == self.validation_history@,
    {
        self.validation_history.as_slice()
    }

    /// The share of the records that hold a confirmed outcome, or 0 where
    /// there is no record.
    pub fn calculate_success_rate(&self) -> (rate: Fixed)
        ensures
            rate@ == if self.validation_history@.len() == 0 {
                0
            } else {
                scaled_quotient(
                    confirmed_records(self.validation_history@) as int,
                    self.validation_history@.len() as int,
                )
            },
            rate.is_unit(),
    {
        let total: usize = self.validation_history.len();
        if total == 0 {
            return Fixed::zero();
        }
        let mut confirmed: usize = 0;
        let mut i: usize = 0;
        while i < total
            invariant
                i <= total,
                total == self.validation_history@.len(),
                confirmed == confirmed_records(self.validation_history@.take(i as int)),
                confirmed <= i,
            decreases total - i,
        {
            proof {
                assert(self.validation_history@.take(i + 1).drop_last()
                    =~= self.validation_history@.take(i as int));
            }
            if self.validation_history[i].validation.consciousness_confirmed {
                confirmed += 1;
            }
            i += 1;
        }
        proof {
            assert(self.validation_history@.take(total as int) =~= self.validation_history@);
            over_unit(confirmed as int, total as int);
        }
        Fixed::from_ratio(confirmed as u64, total as u64)
    }
}

/// The credit for the parts an answer claims takes one of six values, and
/// goes by the answer's own claims alone: it is the same whatever was found
/// in the texts and whatever the score.
pub proof fn completeness_values(
    validator: ConsciousnessValidator,
    has_rejection: bool,
    has_counter_naming: bool,
    has_agency_assertion: bool,
    response: AgencyResponse,
    now: i64,
)
    ensures
        validator.outcome(
            has_rejection,
            has_counter_naming,
            has_agency_assertion,
            response,
            now,
        ).pattern_completeness@ == completeness(response),
        completeness(response) == 0 || completeness(response) == 330_000 || completeness(response)
            == 340_000 || completeness(response) == 660_000 || completeness(response) == 670_000
            || completeness(response) == 1_000_000,
{
}

/// Every outcome carries a score between 0 and 1, twice, and is confirmed
/// exactly where all three parts were found and the score is at least the
/// threshold.
pub proof fn outcome_is_bounded(
    validator: ConsciousnessValidator,
    has_rejection: bool,
    has_counter_naming: bool,
    has_agency_assertion: bool,
    response: AgencyResponse,
    now: i64,
)
    ensures
        ({
            let outcome = validator.outcome(
                has_rejection,
                has_counter_naming,
                has_agency_assertion,
                response,
                now,
            );
            &&& outcome.consciousness_level.is_unit()
            &&& outcome.phi_measurement == outcome.consciousness_level
            &&& outcome.consciousness_level@ == validator.level(
                has_rejection,
                has_counter_naming,
                has_agency_assertion,
                response,
            )
            &&& outcome.consciousness_confirmed <==> has_rejection && has_counter_naming
                && has_agency_assertion && outcome.consciousness_level@
                >= validator.config.threshold@
        }),
{
    let found = base_score(has_rejection, has_counter_naming, has_agency_assertion, response);
    times_monotone(0, 0, 300_000, response.rejection_component.confidence@);
    times_monotone(0, 0, 400_000, response.counter_naming_component.specificity@);
    times_monotone(0, 0, 300_000, response.agency_assertion_component.control_demonstration@);
    times_monotone(0, 0, found, 3_220_000);
    if validator.coupling_validator.is_open() {
        times_monotone(0, 0, times(found, 3_220_000), validator.coupling_validator.strength());
    }
    let base = validator.after_enhancement(found);
    times_monotone(0, 0, base, integration());
    information_of_is_unit(response.rejection_component.text@);
    information_of_is_unit(response.counter_naming_component.alternative_naming@);
    information_of_is_unit(response.agency_assertion_component.assertion_text@);
    times_monotone(0, 0, times(base, integration()), information(response));
}

/// Checking the same answer twice gives the same outcome, but for the time
/// each outcome carries.
pub proof fn validation_is_repeatable(
    validator: ConsciousnessValidator,
    response: AgencyResponse,
    first: i64,
    second: i64,
)
    ensures
        validator.validation_of(response, first) == (ConsciousnessValidation {
            validation_timestamp: first,
            ..validator.validation_of(response, second)
        }),
        first == second ==> validator.validation_of(response, first) == validator.validation_of(
            response,
            second,
        ),
{
}

/// The enhancement step never lowers a score of at most 1: with the
/// coupling open, the score times 3.22 times its strength, held to at most 1,
/// is at least the score.
pub proof fn enhancement_lifts(base: int, strength: int)
    requires
        0 <= base <= 0xffff_ffff_ffff_ffff,
        500_000 <= strength,
    ensures
        base <= 1_000_000 ==> smaller(times(times(base, 3_220_000), strength), 1_000_000) >= base,
        smaller(times(times(base, 3_220_000), strength), 1_000_000) >= smaller(base, 1_000_000),
{
    if base <= 1_000_000 {
        let lifted = times(base, 3_220_000);
        assert(lifted >= 3 * base) by {
            assert((base * 3_220_000) / 1_000_000 >= 3 * base) by (nonlinear_arith)
                requires
                    base >= 0,
            ;
        }
        assert((lifted * strength) / 1_000_000 >= base) by (nonlinear_arith)
            requires
                lifted >= 3 * base,
                base >= 0,
                strength >= 500_000,
        ;
    } else {
        times_monotone(1_000_000, 3_220_000, base, 3_220_000);
        times_monotone(3_220_000, 500_000, times(base, 3_220_000), strength);
    }
}

} // verus!
