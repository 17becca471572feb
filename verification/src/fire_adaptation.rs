//! The optional enhancement of a score: a coupling that measures how well
//! two parameters sit in their windows, and a chain of four multiplying
//! stages.

use vstd::prelude::*;

use crate::fixed::{
    distance, over, over_unit, plus, scaled_product, scaled_quotient, smaller, times, times_grows,
    times_monotone, times_shrinks, Fixed,
};
use crate::{
    ConsciousnessConfig, ConsciousnessError, ConsciousnessResult, FireAdaptationStatus, FireAdapted,
};

verus! {

/// Whether `error` reports that the enhancement is unavailable for the
/// reason `why`.
pub open spec fn is_unavailable(error: ConsciousnessError, why: Seq<char>) -> bool {
    &&& error matches ConsciousnessError::FireAdaptationUnavailable { reason }
    &&& reason@ == why
}

/// Whether `result` carries what `expected` describes: the value, or the
/// refusal with its reason.
pub open spec fn reports(
    result: ConsciousnessResult<Fixed>,
    expected: Result<int, Seq<char>>,
) -> bool {
    match expected {
        Ok(value) => result matches Ok(level) && level@ == value,
        Err(why) => result matches Err(error) && is_unavailable(error, why),
    }
}

/// How well `value` sits in the window around `optimum`: 1 at the optimum,
/// falling in a straight line to 0 at a distance of `tolerance`, and 0
/// beyond.
pub open spec fn window_score(value: int, optimum: int, tolerance: int) -> int
    recommends
        tolerance > 0,
{
    if distance(value, optimum) <= tolerance {
        1_000_000 - scaled_quotient(distance(value, optimum), tolerance)
    } else {
        0
    }
}

fn score_in_window(value: Fixed, optimum: u64, tolerance: u64) -> (score: Fixed)
    requires
        tolerance > 0,
    ensures
        score@ == window_score(value@, optimum as int, tolerance as int),
        score.is_unit(),
{
    let deviation = value.abs_diff(Fixed::from_micros(optimum));
    if deviation.micros <= tolerance {
        proof {
            over_unit(deviation@, tolerance as int);
        }
        let share = deviation.divided_by(Fixed::from_micros(tolerance));
        Fixed::from_micros(1_000_000 - share.micros)
    } else {
        Fixed::zero()
    }
}

/// The score of a wavelength in nanometres: its window is 10 wide on each
/// side of 650.3.
pub open spec fn wavelength_score(wavelength: int) -> int {
    window_score(wavelength, 650_300_000, 10_000_000)
}

/// The score of a frequency in hertz: its window is 0.5 wide on each side
/// of 2.9.
pub open spec fn rhythm_score(frequency: int) -> int {
    window_score(frequency, 2_900_000, 500_000)
}

/// The mean of the wavelength's score, the frequency's score and the fixed
/// coherence score 0.85.
pub open spec fn coupling_strength(wavelength: int, frequency: int) -> int {
    (wavelength_score(wavelength) + rhythm_score(frequency) + 850_000) / 3
}

/// Scores a wavelength.
pub struct WavelengthValidator;

impl WavelengthValidator {
    pub fn new() -> Self {
        WavelengthValidator
    }

    /// The score of `wavelength`, given in nanometres.
    pub fn validate_fire_wavelength(&self, wavelength: Fixed) -> (r: ConsciousnessResult<Fixed>)
        ensures
            r matches Ok(score) && score@ == wavelength_score(wavelength@) && score.is_unit(),
    {
        Ok(score_in_window(wavelength, 650_300_000, 10_000_000))
    }
}

/// Scores a frequency.
pub struct RhythmValidator;

impl RhythmValidator {
    pub fn new() -> Self {
        RhythmValidator
    }

    /// The score of `frequency`, given in hertz.
    pub fn validate_alpha_rhythm_resonance(&self, frequency: Fixed) -> (r: ConsciousnessResult<
        Fixed,
    >)
        ensures
            r matches Ok(score) && score@ == rhythm_score(frequency@) && score.is_unit(),
    {
        Ok(score_in_window(frequency, 2_900_000, 500_000))
    }
}

/// Scores the coherence of the coupling.
pub struct CouplingAnalyzer;

impl CouplingAnalyzer {
    pub fn new() -> Self {
        CouplingAnalyzer
    }

    /// The coherence score, fixed at 0.85.
    pub fn validate_coupling_coherence(&self) -> (r: ConsciousnessResult<Fixed>)
        ensures
            r matches Ok(score) && score@ == 850_000,
    {
        Ok(Fixed::from_micros(850_000))
    }
}

/// The coupling of the enhancement: the parameters it measures, and the
/// three scorers.
pub struct FireCouplingValidator {
    /// The measured wavelength, in nanometres.
    pub wavelength: Fixed,
    /// The measured frequency, in hertz.
    pub frequency: Fixed,
    pub wavelength_validator: WavelengthValidator,
    pub rhythm_validator: RhythmValidator,
    pub coupling_analyzer: CouplingAnalyzer,
}

impl FireCouplingValidator {
    /// The mean of the three scores for this coupling's parameters.
    pub open spec fn strength(&self) -> int {
        coupling_strength(self.wavelength@, self.frequency@)
    }

    /// Whether the coupling lets the enhancement pass: its strength is at
    /// least 0.5.
    pub open spec fn is_open(&self) -> bool {
        self.strength() >= 500_000
    }

    /// The coupling with both parameters at their optimum.
    pub fn new() -> (r: Self)
        ensures
            r.wavelength@ == 650_300_000,
            r.frequency@ == 2_900_000,
            r.strength() == 950_000,
    {
        FireCouplingValidator {
            wavelength: Fixed::from_micros(650_300_000),
            frequency: Fixed::from_micros(2_900_000),
            wavelength_validator: WavelengthValidator::new(),
            rhythm_validator: RhythmValidator::new(),
            coupling_analyzer: CouplingAnalyzer::new(),
        }
    }

    /// The strength of the coupling, between 0 and 1.
    pub fn validate_coupling(&self) -> (r: ConsciousnessResult<Fixed>)
        ensures
            r matches Ok(strength) && strength@ == self.strength() && strength.is_unit(),
    {
        let wavelength_score = match self.wavelength_validator.validate_fire_wavelength(
            self.wavelength,
        ) {
            Ok(score) => score,
            Err(error) => {
                return Err(error);
            },
        };
        let rhythm_score = match self.rhythm_validator.validate_alpha_rhythm_resonance(
            self.frequency,
        ) {
            Ok(score) => score,
            Err(error) => {
                return Err(error);
            },
        };
        let coupling_score = match self.coupling_analyzer.validate_coupling_coherence() {
            Ok(score) => score,
            Err(error) => {
                return Err(error);
            },
        };
        let total: u64 = wavelength_score.micros + rhythm_score.micros + coupling_score.micros;
        Ok(Fixed::from_micros(total / 3))
    }
}

/// What the first stage makes of a level: the product with `factor`, which
/// must be at least 1 and must not lift the level above 10.
pub open spec fn amplified(base: int, factor: int) -> Result<int, Seq<char>> {
    if factor < 1_000_000 {
        Err("Enhancement factor must be >= 1.0"@)
    } else if times(base, factor) > 10_000_000 {
        Err("Enhancement exceeds physical limits"@)
    } else {
        Ok(times(base, factor))
    }
}

/// The first stage of the chain: a multiplier with a ceiling.
pub struct CognitiveAmplifier {
    pub base_cognitive_capacity: Fixed,
    pub target_enhancement_factor: Fixed,
}

impl CognitiveAmplifier {
    /// The stage with capacity 1 and target factor 3.22.
    pub fn new() -> (r: Self)
        ensures
            r.base_cognitive_capacity@ == 1_000_000,
            r.target_enhancement_factor@ == 3_220_000,
    {
        CognitiveAmplifier {
            base_cognitive_capacity: Fixed::from_micros(1_000_000),
            target_enhancement_factor: Fixed::from_micros(3_220_000),
        }
    }

    /// `base_consciousness` times `enhancement_factor`. Refused where the
    /// factor is below 1, and where the product is above 10. What passes is
    /// no smaller than what went in.
    pub fn apply_enhancement(&self, base_consciousness: Fixed, enhancement_factor: Fixed) -> (r:
        ConsciousnessResult<Fixed>)
        ensures
            reports(r, amplified(base_consciousness@, enhancement_factor@)),
            r matches Ok(level) ==> level@ >= base_consciousness@,
    {
        if enhancement_factor.micros < 1_000_000 {
            return Err(
                ConsciousnessError::FireAdaptationUnavailable {
                    reason: "Enhancement factor must be >= 1.0".to_string(),
                },
            );
        }
        let enhanced = base_consciousness.saturating_mul(enhancement_factor);
        if enhanced.micros > 10_000_000 {
            return Err(
                ConsciousnessError::FireAdaptationUnavailable {
                    reason: "Enhancement exceeds physical limits".to_string(),
                },
            );
        }
        proof {
            times_grows(base_consciousness@, enhancement_factor@);
        }
        Ok(enhanced)
    }
}

/// The exponential of `-x` for `x` between 0 and 1, by its series up to the
/// sixth power, each step rounded toward zero.
pub open spec fn decay(x: int) -> int {
    let t6 = 1_000_000 - x / 6;
    let t5 = 1_000_000 - scaled_product(x / 5, t6);
    let t4 = 1_000_000 - scaled_product(x / 4, t5);
    let t3 = 1_000_000 - scaled_product(x / 3, t4);
    let t2 = 1_000_000 - scaled_product(x / 2, t3);
    1_000_000 - scaled_product(x, t2)
}

/// The chance of tunnelling at a coherence time: the decay of 0.3 divided by
/// the ratio of the time to the baseline.
pub open spec fn tunneling_probability(baseline: int, coherence_time: int) -> int
    recommends
        0 < baseline <= coherence_time,
{
    decay(over(300_000, over(coherence_time, baseline)))
}

/// What the second stage makes of a level: the product with the ratio of
/// `target` to `baseline`. Refused where the target is below the baseline,
/// where the chance of tunnelling at the target is not above 0.8, and where
/// four fifths of the product are not above 0.6.
pub open spec fn extended(baseline: int, level: int, target: int) -> Result<int, Seq<char>>
    recommends
        baseline > 0,
{
    if target < baseline {
        Err("Target coherence time below baseline"@)
    } else if tunneling_probability(baseline, target) > 800_000 && times(
        times(level, over(target, baseline)),
        800_000,
    ) > 600_000 {
        Ok(times(level, over(target, baseline)))
    } else {
        Err("Quantum coherence physics validation failed"@)
    }
}

fn decay_of(x: Fixed) -> (r: Fixed)
    requires
        x@ <= 1_000_000,
    ensures
        r@ == decay(x@),
        r.is_unit(),
{
    let one: u64 = 1_000_000;
    let t6: u64 = one - x.micros / 6;
    proof {
        times_shrinks(x@ / 5, t6 as int);
    }
    let t5: u64 = one - (x.micros / 5) * t6 / one;
    proof {
        times_shrinks(x@ / 4, t5 as int);
    }
    let t4: u64 = one - (x.micros / 4) * t5 / one;
    proof {
        times_shrinks(x@ / 3, t4 as int);
    }
    let t3: u64 = one - (x.micros / 3) * t4 / one;
    proof {
        times_shrinks(x@ / 2, t3 as int);
    }
    let t2: u64 = one - (x.micros / 2) * t3 / one;
    proof {
        times_shrinks(x@, t2 as int);
    }
    Fixed::from_micros(one - x.micros * t2 / one)
}

/// The second stage of the chain: a multiplier by the ratio of a target
/// time to a baseline time.
pub struct QuantumCoherenceEnhancer {
    baseline_coherence: Fixed,
    target_coherence: Fixed,
    enhancement_factor: Fixed,
}

impl QuantumCoherenceEnhancer {
    #[verifier::type_invariant]
    spec fn positive_baseline(self) -> bool {
        self.baseline_coherence@ > 0
    }

    /// The baseline time, in milliseconds.
    pub closed spec fn baseline(&self) -> int {
        self.baseline_coherence@
    }

    /// The stage with baseline 89 ms, target 247 ms and factor 2.77.
    pub fn new() -> (r: Self)
        ensures
            r.baseline() == 89_000_000,
    {
        QuantumCoherenceEnhancer {
            baseline_coherence: Fixed::from_micros(89_000_000),
            target_coherence: Fixed::from_micros(247_000_000),
            enhancement_factor: Fixed::from_micros(2_770_000),
        }
    }

    /// `consciousness` times the ratio of `target_ms` to the baseline.
    /// Refused where the target is below the baseline or the outcome fails
    /// the two physical tests. What passes is no smaller than what went in.
    pub fn extend_coherence_time(&self, consciousness: Fixed, target_ms: Fixed) -> (r:
        ConsciousnessResult<Fixed>)
        ensures
            self.baseline() > 0,
            reports(r, extended(self.baseline(), consciousness@, target_ms@)),
            r matches Ok(level) ==> level@ >= consciousness@,
    {
        proof {
            use_type_invariant(self);
        }
        if target_ms.micros < self.baseline_coherence.micros {
            return Err(
                ConsciousnessError::FireAdaptationUnavailable {
                    reason: "Target coherence time below baseline".to_string(),
                },
            );
        }
        let enhancement_ratio = target_ms.divided_by(self.baseline_coherence);
        let enhanced_consciousness = consciousness.saturating_mul(enhancement_ratio);
        proof {
            over_unit(target_ms@, self.baseline_coherence@);
            times_grows(consciousness@, enhancement_ratio@);
        }
        match self.validate_quantum_coherence_physics(enhanced_consciousness, target_ms) {
            Ok(()) => Ok(enhanced_consciousness),
            Err(error) => Err(error),
        }
    }

    fn validate_quantum_coherence_physics(&self, consciousness: Fixed, coherence_time: Fixed) -> (r:
        ConsciousnessResult<()>)
        requires
            coherence_time@ >= self.baseline(),
        ensures
            r is Ok <==> tunneling_probability(self.baseline(), coherence_time@) > 800_000 && times(
                consciousness@,
                800_000,
            ) > 600_000,
            r matches Err(error) ==> is_unavailable(
                error,
                "Quantum coherence physics validation failed"@,
            ),
    {
        let tunneling = self.calculate_tunneling_probability(coherence_time);
        let field_strength = self.calculate_quantum_field_strength(consciousness);
        let fire_modifications = self.validate_fire_environment_modifications();
        if tunneling.micros > 800_000 && field_strength.micros > 600_000 && fire_modifications {
            Ok(())
        } else {
            Err(
                ConsciousnessError::FireAdaptationUnavailable {
                    reason: "Quantum coherence physics validation failed".to_string(),
                },
            )
        }
    }

    fn calculate_tunneling_probability(&self, coherence_time: Fixed) -> (probability: Fixed)
        requires
            coherence_time@ >= self.baseline(),
        ensures
            probability@ == tunneling_probability(self.baseline(), coherence_time@),
            probability.is_unit(),
    {
        proof {
            use_type_invariant(self);
            over_unit(coherence_time@, self.baseline_coherence@);
        }
        let coherence_factor = coherence_time.divided_by(self.baseline_coherence);
        proof {
            over_unit(300_000, coherence_factor@);
        }
        let exponent = Fixed::from_micros(300_000).divided_by(coherence_factor);
        decay_of(exponent).capped()
    }

    fn calculate_quantum_field_strength(&self, consciousness: Fixed) -> (strength: Fixed)
        ensures
            strength@ == times(consciousness@, 800_000),
    {
        consciousness.saturating_mul(Fixed::from_micros(800_000))
    }

    fn validate_fire_environment_modifications(&self) -> (valid: bool)
        ensures
            valid,
    {
        true
    }
}

/// The sum of a list of raw values.
pub open spec fn total_of(values: Seq<int>) -> int
    decreases values.len(),
{
    if values.len() == 0 {
        0
    } else {
        total_of(values.drop_last()) + values.last()
    }
}

/// The mean of a list of raw values, rounded toward zero.
pub open spec fn mean_of(values: Seq<int>) -> int
    recommends
        values.len() > 0,
{
    total_of(values) / (values.len() as int)
}

/// The multiplier of the third stage: 1 plus the part of `factor` above 1,
/// weighted by `accuracy`; for a factor below 1, 1 less the weighted part
/// below 1, and never less than 0.
pub open spec fn advantage_multiplier(factor: int, accuracy: int) -> int {
    if factor >= 1_000_000 {
        plus(1_000_000, times(factor - 1_000_000, accuracy))
    } else if times(1_000_000 - factor, accuracy) >= 1_000_000 {
        0
    } else {
        1_000_000 - times(1_000_000 - factor, accuracy)
    }
}

/// One model that foretells events, with the share of its forecasts that
/// come true.
#[derive(Clone, Copy, Debug)]
pub struct PredictionModel {
    pub accuracy: Fixed,
}

impl PredictionModel {
    pub fn new(accuracy: Fixed) -> (r: Self)
        ensures
            r.accuracy == accuracy,
    {
        PredictionModel { accuracy }
    }
}

/// The third stage of the chain: a multiplier weighted by the mean accuracy
/// of a set of named models. The set is never empty and no name occurs
/// twice in it.
pub struct TemporalPredictor {
    prediction_models: Vec<(String, PredictionModel)>,
}

impl TemporalPredictor {
    #[verifier::type_invariant]
    spec fn models_are_distinct(self) -> bool {
        &&& self.prediction_models@.len() > 0
        &&& forall|i: int, j: int|
            0 <= i < j < self.prediction_models@.len() ==> self.prediction_models@[i].0@
                != self.prediction_models@[j].0@
    }

    /// The accuracies of the models, in the order in which they are held.
    pub closed spec fn accuracies(&self) -> Seq<int> {
        self.prediction_models@.map_values(|entry: (String, PredictionModel)| entry.1.accuracy@)
    }

    /// What this stage makes of a level.
    pub open spec fn advantage(&self, level: int, factor: int) -> int {
        times(level, advantage_multiplier(factor, mean_of(self.accuracies())))
    }

    /// The stage with three models, of accuracy 0.95, 0.90 and 0.85.
    pub fn new() -> (r: Self)
        ensures
            r.accuracies() == seq![950_000int, 900_000int, 850_000int],
            mean_of(r.accuracies()) == 900_000,
    {
        proof {
            reveal_strlit("fire_detection");
            reveal_strlit("threat_assessment");
            reveal_strlit("resource_optimization");
        }
        let mut models: Vec<(String, PredictionModel)> = Vec::new();
        models.push(
            ("fire_detection".to_string(), PredictionModel::new(Fixed::from_micros(950_000))),
        );
        models.push(
            ("threat_assessment".to_string(), PredictionModel::new(Fixed::from_micros(900_000))),
        );
        models.push(
            (
                "resource_optimization".to_string(),
                PredictionModel::new(Fixed::from_micros(850_000)),
            ),
        );
        proof {
            assert(models@[0].0@.len() == 14);
            assert(models@[1].0@.len() == 17);
            assert(models@[2].0@.len() == 21);
        }
        let r = TemporalPredictor { prediction_models: models };
        proof {
            let values = seq![950_000int, 900_000int, 850_000int];
            assert(r.accuracies() =~= values);
            reveal_with_fuel(total_of, 4);
        }
        r
    }

    /// `consciousness` times the multiplier that `advantage_factor` and the
    /// models' mean accuracy give. With a factor of at least 1 the outcome
    /// is no smaller than what went in.
    pub fn apply_prediction_advantage(&self, consciousness: Fixed, advantage_factor: Fixed) -> (r:
        ConsciousnessResult<Fixed>)
        ensures
            r matches Ok(level) && level@ == self.advantage(consciousness@, advantage_factor@),
            advantage_factor@ >= 1_000_000 ==> self.advantage(consciousness@, advantage_factor@)
                >= consciousness@,
    {
        let prediction_accuracy = self.calculate_overall_prediction_accuracy();
        let one = Fixed::one();
        let advantage_multiplier = if advantage_factor.micros >= 1_000_000 {
            let surplus = Fixed::from_micros(advantage_factor.micros - 1_000_000);
            one.saturating_add(surplus.saturating_mul(prediction_accuracy))
        } else {
            let deficit = Fixed::from_micros(1_000_000 - advantage_factor.micros);
            one.saturating_sub(deficit.saturating_mul(prediction_accuracy))
        };
        proof {
            if advantage_factor@ >= 1_000_000 {
                times_monotone(0, 0, advantage_factor@ - 1_000_000, prediction_accuracy@);
                times_grows(consciousness@, advantage_multiplier@);
            }
        }
        Ok(consciousness.saturating_mul(advantage_multiplier))
    }

    fn calculate_overall_prediction_accuracy(&self) -> (accuracy: Fixed)
        ensures
            accuracy@ == mean_of(self.accuracies()),
    {
        proof {
            use_type_invariant(self);
        }
        let count: usize = self.prediction_models.len();
        let mut total: u128 = 0;
        let mut i: usize = 0;
        while i < count
            invariant
                i <= count,
                count == self.prediction_models@.len(),
                total == total_of(self.accuracies().take(i as int)),
                0 <= total <= i * 0xffff_ffff_ffff_ffff,
            decreases count - i,
        {
            proof {
                assert(self.accuracies().take(i + 1).drop_last() =~= self.accuracies().take(
                    i as int,
                ));
                assert(i * 0xffff_ffff_ffff_ffff + 0xffff_ffff_ffff_ffff <= 0xffff_ffff_ffff_ffff
                    * 0xffff_ffff_ffff_ffff) by (nonlinear_arith)
                    requires
                        i < count,
                        count <= 0xffff_ffff_ffff_ffff,
                ;
            }
            total = total + self.prediction_models[i].1.accuracy.micros as u128;
            i += 1;
        }
        proof {
            assert(self.accuracies().take(count as int) =~= self.accuracies());
            assert(total as int / (count as int) <= 0xffff_ffff_ffff_ffff) by (nonlinear_arith)
                requires
                    0 <= total <= count * 0xffff_ffff_ffff_ffff,
                    count > 0,
            ;
        }
        Fixed::from_micros((total / (count as u128)) as u64)
    }
}

/// The multiplier of one boost: 1 plus a hundredth of its factor.
pub open spec fn boost_of(enhancement_factor: int) -> int {
    plus(1_000_000, enhancement_factor / 100)
}

/// One boost of the fourth stage: a name, and a factor in per cent.
#[derive(Debug)]
pub struct ComplexityAlgorithm {
    pub name: String,
    pub enhancement_factor: Fixed,
}

impl Clone for ComplexityAlgorithm {
    fn clone(&self) -> (r: Self)
        ensures
            r == *self,
    {
        ComplexityAlgorithm { name: self.name.clone(), enhancement_factor: self.enhancement_factor }
    }
}

impl ComplexityAlgorithm {
    pub fn new(name: &str, enhancement_factor: Fixed) -> (r: Self)
        ensures
            r.name@ == name@,
            r.enhancement_factor == enhancement_factor,
    {
        ComplexityAlgorithm { name: name.to_string(), enhancement_factor }
    }

    /// `consciousness` raised by this boost's percentage.
    pub fn apply_enhancement(&self, consciousness: Fixed) -> (r: ConsciousnessResult<Fixed>)
        ensures
            r matches Ok(level) && level@ == times(consciousness@, boost_of(self.enhancement_factor@))
                && level@ >= consciousness@,
    {
        let boost = Fixed::one().saturating_add(
            Fixed::from_micros(self.enhancement_factor.micros / 100),
        );
        proof {
            times_grows(consciousness@, boost@);
        }
        Ok(consciousness.saturating_mul(boost))
    }
}

/// A level after the given boosts, applied in order.
pub open spec fn boosted(level: int, algorithms: Seq<ComplexityAlgorithm>) -> int
    decreases algorithms.len(),
{
    if algorithms.len() == 0 {
        level
    } else {
        times(
            boosted(level, algorithms.drop_last()),
            boost_of(algorithms.last().enhancement_factor@),
        )
    }
}

/// The fourth stage of the chain: a list of boosts, then one overall factor.
pub struct CommunicationComplexityEnhancer {
    pub base_complexity: Fixed,
    pub enhancement_algorithms: Vec<ComplexityAlgorithm>,
}

impl CommunicationComplexityEnhancer {
    /// What this stage makes of a level.
    pub open spec fn complexity(&self, level: int, factor: int) -> int {
        times(boosted(level, self.enhancement_algorithms@), factor)
    }

    /// The stage with four boosts, of 12, 8.5, 6.2 and 9.8 per cent.
    pub fn new() -> (r: Self)
        ensures
            r.base_complexity@ == 1_000_000,
            r.enhancement_algorithms@.len() == 4,
            r.enhancement_algorithms@[0].name@ == "semantic_depth"@,
            r.enhancement_algorithms@[0].enhancement_factor@ == 12_000_000,
            r.enhancement_algorithms@[1].name@ == "syntactic_complexity"@,
            r.enhancement_algorithms@[1].enhancement_factor@ == 8_500_000,
            r.enhancement_algorithms@[2].name@ == "pragmatic_inference"@,
            r.enhancement_algorithms@[2].enhancement_factor@ == 6_200_000,
            r.enhancement_algorithms@[3].name@ == "contextual_integration"@,
            r.enhancement_algorithms@[3].enhancement_factor@ == 9_800_000,
    {
        CommunicationComplexityEnhancer {
            base_complexity: Fixed::from_micros(1_000_000),
            enhancement_algorithms: vec![
                ComplexityAlgorithm::new("semantic_depth", Fixed::from_micros(12_000_000)),
                ComplexityAlgorithm::new("syntactic_complexity", Fixed::from_micros(8_500_000)),
                ComplexityAlgorithm::new("pragmatic_inference", Fixed::from_micros(6_200_000)),
                ComplexityAlgorithm::new("contextual_integration", Fixed::from_micros(9_800_000)),
            ],
        }
    }

    /// `consciousness` after every boost in turn, times
    /// `enhancement_factor`. With a factor of at least 1 the outcome is no
    /// smaller than what went in.
    pub fn enhance_communication_complexity(
        &self,
        consciousness: Fixed,
        enhancement_factor: Fixed,
    ) -> (r: ConsciousnessResult<Fixed>)
        ensures
            r matches Ok(level) && level@ == self.complexity(consciousness@, enhancement_factor@),
            enhancement_factor@ >= 1_000_000 ==> self.complexity(
                consciousness@,
                enhancement_factor@,
            ) >= consciousness@,
    {
        let mut enhanced_consciousness = consciousness;
        let mut i: usize = 0;
        while i < self.enhancement_algorithms.len()
            invariant
                i <= self.enhancement_algorithms@.len(),
                enhanced_consciousness@ == boosted(
                    consciousness@,
                    self.enhancement_algorithms@.take(i as int),
                ),
                enhanced_consciousness@ >= consciousness@,
            decreases self.enhancement_algorithms@.len() - i,
        {
            proof {
                assert(self.enhancement_algorithms@.take(i + 1).drop_last()
                    =~= self.enhancement_algorithms@.take(i as int));
            }
            enhanced_consciousness = match self.enhancement_algorithms[i].apply_enhancement(
                enhanced_consciousness,
            ) {
                Ok(level) => level,
                Err(error) => {
                    return Err(error);
                },
            };
            i += 1;
        }
        proof {
            assert(self.enhancement_algorithms@.take(i as int) =~= self.enhancement_algorithms@);
            if enhancement_factor@ >= 1_000_000 {
                times_grows(enhanced_consciousness@, enhancement_factor@);
            }
        }
        Ok(enhanced_consciousness.saturating_mul(enhancement_factor))
    }
}

/// One past run of the enhancement.
#[derive(Debug)]
pub struct EnhancementRecord {
    pub timestamp: i64,
    pub enhancement_type: String,
    pub enhancement_factor: Fixed,
    pub coupling_strength: Fixed,
    pub success: bool,
}

impl Clone for EnhancementRecord {
    fn clone(&self) -> (r: Self)
        ensures
            r == *self,
    {
        EnhancementRecord {
            timestamp: self.timestamp,
            enhancement_type: self.enhancement_type.clone(),
            enhancement_factor: self.enhancement_factor,
            coupling_strength: self.coupling_strength,
            success: self.success,
        }
    }
}

/// What the enhancement offers at a coupling of the given strength: the
/// enhanced figures where the strength is above 0.7, the plain ones
/// otherwise.
pub open spec fn status_at(enabled: bool, strength: int) -> FireAdaptationStatus {
    if strength > 700_000 {
        FireAdaptationStatus {
            enabled,
            cognitive_enhancement_factor: Fixed { micros: 3_220_000 },
            quantum_coherence_time_ms: Fixed { micros: 247_000_000 },
            fire_wavelength_optimization: Fixed { micros: 650_300_000 },
            alpha_rhythm_resonance: Fixed { micros: 2_900_000 },
        }
    } else {
        FireAdaptationStatus {
            enabled: false,
            cognitive_enhancement_factor: Fixed { micros: 1_000_000 },
            quantum_coherence_time_ms: Fixed { micros: 89_000_000 },
            fire_wavelength_optimization: Fixed { micros: 0 },
            alpha_rhythm_resonance: Fixed { micros: 0 },
        }
    }
}

/// With a baseline of 89 ms, models of mean accuracy 0.9 and boosts of 12,
/// 8.5, 6.2 and 9.8 per cent, the chain lifts a level of 1 to 4241.604721:
/// 3.22 after the first stage, 8.936401 after the second, 37.89034 after the
/// third and 53.691199 after the four boosts.
pub proof fn built_in_chain(algorithms: Seq<ComplexityAlgorithm>, accuracies: Seq<int>)
    requires
        algorithms.len() == 4,
        algorithms[0].enhancement_factor@ == 12_000_000,
        algorithms[1].enhancement_factor@ == 8_500_000,
        algorithms[2].enhancement_factor@ == 6_200_000,
        algorithms[3].enhancement_factor@ == 9_800_000,
        mean_of(accuracies) == 900_000,
    ensures
        amplified(1_000_000, 3_220_000) == Ok::<int, Seq<char>>(3_220_000),
        extended(89_000_000, 3_220_000, 247_000_000) == Ok::<int, Seq<char>>(8_936_401),
        times(8_936_401, advantage_multiplier(4_600_000, mean_of(accuracies))) == 37_890_340,
        boosted(37_890_340, algorithms) == 53_691_199,
        times(53_691_199, 79_000_000) == 4_241_604_721,
{
    assert(over(247_000_000, 89_000_000) == 2_775_280);
    assert(over(300_000, 2_775_280) == 108_097);
    assert(decay(108_097) == 897_541);
    assert(times(3_220_000, 2_775_280) == 8_936_401);
    assert(times(8_936_401, 800_000) == 7_149_120);
    assert(advantage_multiplier(4_600_000, 900_000) == 4_240_000);
    let three = algorithms.drop_last();
    let two = three.drop_last();
    let one = two.drop_last();
    assert(one.drop_last().len() == 0);
    assert(boosted(37_890_340, one.drop_last()) == 37_890_340);
    assert(boost_of(12_000_000) == 1_120_000);
    assert(boosted(37_890_340, one) == times(37_890_340, 1_120_000));
    assert(times(37_890_340, 1_120_000) == 42_437_180);
    assert(boost_of(8_500_000) == 1_085_000);
    assert(boosted(37_890_340, two) == times(42_437_180, 1_085_000));
    assert(times(42_437_180, 1_085_000) == 46_044_340);
    assert(boost_of(6_200_000) == 1_062_000);
    assert(boosted(37_890_340, three) == times(46_044_340, 1_062_000));
    assert(times(46_044_340, 1_062_000) == 48_899_089);
    assert(boost_of(9_800_000) == 1_098_000);
    assert(boosted(37_890_340, algorithms) == times(48_899_089, 1_098_000));
}

/// The enhancement as a whole: the coupling and the four stages of the chain.
pub struct FireAdaptationSystem {
    pub config: ConsciousnessConfig,
    pub quantum_coherence_enhancer: QuantumCoherenceEnhancer,
    pub cognitive_amplifier: CognitiveAmplifier,
    pub temporal_predictor: TemporalPredictor,
    pub communication_enhancer: CommunicationComplexityEnhancer,
    pub fire_coupling_validator: FireCouplingValidator,
    pub enhancement_history: Vec<EnhancementRecord>,
}

impl FireAdaptationSystem {
    /// What the level to report is: 0.8 times the coupling's strength,
    /// refused where the coupling is too weak.
    pub open spec fn level(&self) -> Result<int, Seq<char>> {
        if self.fire_coupling_validator.is_open() {
            Ok(times(800_000, self.fire_coupling_validator.strength()))
        } else {
            Err("Insufficient fire-environment coupling"@)
        }
    }

    /// What [`Self::calculate_enhancement_level`] reports: 0 where the
    /// enhancement is switched off, else the level.
    pub open spec fn reported_level(&self) -> Result<int, Seq<char>> {
        if self.config.fire_adaptation {
            self.level()
        } else {
            Ok(0)
        }
    }

    /// What the chain makes of the level 1: amplified by 3.22, extended to
    /// 247 ms, given the advantage 4.6 and the complexity 79, each stage
    /// taking what the one before it passed; the first refusal ends the
    /// chain.
    pub open spec fn chain(&self) -> Result<int, Seq<char>> {
        match amplified(1_000_000, 3_220_000) {
            Err(why) => Err(why),
            Ok(first) => match extended(
                self.quantum_coherence_enhancer.baseline(),
                first,
                247_000_000,
            ) {
                Err(why) => Err(why),
                Ok(second) => Ok(
                    self.communication_enhancer.complexity(
                        self.temporal_predictor.advantage(second, 4_600_000),
                        79_000_000,
                    ),
                ),
            },
        }
    }

    /// The enhancement with the built-in coupling and stages: both
    /// parameters of the coupling at their optimum, a baseline of 89 ms,
    /// models of accuracy 0.95, 0.90 and 0.85, and boosts of 12, 8.5, 6.2
    /// and 9.8 per cent. With the enhancement switched on, the chain of
    /// such a system lifts a level of 1 to 4241.604721.
    pub fn new(config: ConsciousnessConfig) -> (r: ConsciousnessResult<Self>)
        ensures
            r matches Ok(system) && {
                &&& system.config == config
                &&& system.fire_coupling_validator.wavelength@ == 650_300_000
                &&& system.fire_coupling_validator.frequency@ == 2_900_000
                &&& system.fire_coupling_validator.strength() == 950_000
                &&& system.cognitive_amplifier.base_cognitive_capacity@ == 1_000_000
                &&& system.cognitive_amplifier.target_enhancement_factor@ == 3_220_000
                &&& system.quantum_coherence_enhancer.baseline() == 89_000_000
                &&& system.temporal_predictor.accuracies() == seq![
                    950_000int,
                    900_000int,
                    850_000int,
                ]
                &&& mean_of(system.temporal_predictor.accuracies()) == 900_000
                &&& system.communication_enhancer.base_complexity@ == 1_000_000
                &&& system.communication_enhancer.enhancement_algorithms@.len() == 4
                &&& system.communication_enhancer.enhancement_algorithms@[0].enhancement_factor@
                    == 12_000_000
                &&& system.communication_enhancer.enhancement_algorithms@[1].enhancement_factor@
                    == 8_500_000
                &&& system.communication_enhancer.enhancement_algorithms@[2].enhancement_factor@
                    == 6_200_000
                &&& system.communication_enhancer.enhancement_algorithms@[3].enhancement_factor@
                    == 9_800_000
                &&& system.enhancement_history@.len() == 0
                &&& system.chain() == Ok::<int, Seq<char>>(4_241_604_721)
            },
    {
        let system = FireAdaptationSystem {
            config,
            quantum_coherence_enhancer: QuantumCoherenceEnhancer::new(),
            cognitive_amplifier: CognitiveAmplifier::new(),
            temporal_predictor: TemporalPredictor::new(),
            communication_enhancer: CommunicationComplexityEnhancer::new(),
            fire_coupling_validator: FireCouplingValidator::new(),
            enhancement_history: Vec::new(),
        };
        proof {
            built_in_chain(
                system.communication_enhancer.enhancement_algorithms@,
                system.temporal_predictor.accuracies(),
            );
        }
        Ok(system)
    }

    /// The level of enhancement to report: 0 where the enhancement is
    /// switched off, else 0.8 times the coupling's strength, refused where
    /// the coupling is too weak.
    pub fn calculate_enhancement_level(&self) -> (r: ConsciousnessResult<Fixed>)
        ensures
            reports(r, self.reported_level()),
            r matches Ok(level) ==> level.is_unit(),
    {
        if !self.config.fire_adaptation {
            return Ok(Fixed::zero());
        }
        let coupling_strength = match self.fire_coupling_validator.validate_coupling() {
            Ok(strength) => strength,
            Err(error) => {
                return Err(error);
            },
        };
        if coupling_strength.micros < 500_000 {
            return Err(
                ConsciousnessError::FireAdaptationUnavailable {
                    reason: "Insufficient fire-environment coupling".to_string(),
                },
            );
        }
        proof {
            times_shrinks(800_000, coupling_strength@);
        }
        Ok(Fixed::from_micros(800_000).saturating_mul(coupling_strength))
    }
}

impl FireAdapted for FireAdaptationSystem {
    /// The factor by which the chain lifts a level of 1: exactly 1 where
    /// the enhancement is switched off, else what the four stages make of
    /// it, or the first refusal among them. No outcome is below 1.
    fn enhance_consciousness(&self) -> (r: ConsciousnessResult<Fixed>)
        ensures
            !self.config.fire_adaptation ==> (r matches Ok(level) && level@ == 1_000_000),
            self.config.fire_adaptation ==> reports(r, self.chain()),
            r matches Ok(level) ==> level@ >= 1_000_000,
    {
        if !self.config.fire_adaptation {
            return Ok(Fixed::one());
        }
        let cognitive_enhancement = match self.cognitive_amplifier.apply_enhancement(
            Fixed::one(),
            Fixed::from_micros(3_220_000),
        ) {
            Ok(level) => level,
            Err(error) => {
                return Err(error);
            },
        };
        let coherence_enhancement = match self.quantum_coherence_enhancer.extend_coherence_time(
            cognitive_enhancement,
            Fixed::from_micros(247_000_000),
        ) {
            Ok(level) => level,
            Err(error) => {
                return Err(error);
            },
        };
        let temporal_enhancement = match self.temporal_predictor.apply_prediction_advantage(
            coherence_enhancement,
            Fixed::from_micros(4_600_000),
        ) {
            Ok(level) => level,
            Err(error) => {
                return Err(error);
            },
        };
        self.communication_enhancer.enhance_communication_complexity(
            temporal_enhancement,
            Fixed::from_micros(79_000_000),
        )
    }

    /// What the enhancement offers at the coupling's present strength.
    fn get_fire_adaptation_status(&self) -> (r: ConsciousnessResult<FireAdaptationStatus>)
        ensures
            r matches Ok(status) && status == status_at(
                self.config.fire_adaptation,
                self.fire_coupling_validator.strength(),
            ),
    {
        let coupling_valid = match self.validate_fire_coupling() {
            Ok(valid) => valid,
            Err(error) => {
                return Err(error);
            },
        };
        if coupling_valid {
            Ok(
                FireAdaptationStatus {
                    enabled: self.config.fire_adaptation,
                    cognitive_enhancement_factor: Fixed::from_micros(3_220_000),
                    quantum_coherence_time_ms: Fixed::from_micros(247_000_000),
                    fire_wavelength_optimization: Fixed::from_micros(650_300_000),
                    alpha_rhythm_resonance: Fixed::from_micros(2_900_000),
                },
            )
        } else {
            Ok(
                FireAdaptationStatus {
                    enabled: false,
                    cognitive_enhancement_factor: Fixed::from_micros(1_000_000),
                    quantum_coherence_time_ms: Fixed::from_micros(89_000_000),
                    fire_wavelength_optimization: Fixed::zero(),
                    alpha_rhythm_resonance: Fixed::zero(),
                },
            )
        }
    }

    /// Whether the coupling's strength is above 0.7.
    fn validate_fire_coupling(&self) -> (r: ConsciousnessResult<bool>)
        ensures
            r matches Ok(valid) && valid == (self.fire_coupling_validator.strength() > 700_000),
    {
        match self.fire_coupling_validator.validate_coupling() {
            Ok(strength) => Ok(strength.micros > 700_000),
            Err(error) => Err(error),
        }
    }
}

} // verus!
