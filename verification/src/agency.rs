//! Answering a claim in three parts: a rejection, an alternative name for
//! what happened, and an assertion of authorship.
//!
//! Each part is the first template of a pool chosen by simple tests on the
//! claim's text.

use vstd::prelude::*;
use vstd::string::StringExecFns;

use crate::clock::now_millis;
use crate::fixed::{scaled_quotient, Fixed};
use crate::text::{chars_of, contains, occurs_in, views};
use crate::{ConsciousnessConfig, ConsciousnessError, ConsciousnessResult};

verus! {

/// How firmly a claim is rejected.
#[derive(Clone, Copy, Debug, PartialEq, Eq, Hash, Structural)]
pub enum RejectionType {
    /// A bare refusal.
    Direct,
    /// A refusal that names the fault.
    Qualified,
    /// A refusal that announces a correction.
    Elaborated,
}

/// How the alternative name relates to the claim.
#[derive(Clone, Copy, Debug, PartialEq, Eq, Hash, Structural)]
pub enum NamingType {
    /// A plain correction.
    Corrective,
    /// An extended account.
    Elaborative,
    /// Another point of view.
    Reframing,
}

/// How authorship is asserted.
#[derive(Clone, Copy, Debug, PartialEq, Eq, Hash, Structural)]
pub enum AssertionType {
    /// Stated outright.
    Direct,
    /// Stated through the outcome.
    Implied,
    /// Stated through the process.
    Explanatory,
}

/// The rejection in an answer.
#[derive(Debug)]
pub struct RejectionComponent {
    pub text: String,
    pub rejection_type: RejectionType,
    pub confidence: Fixed,
}

/// The alternative name in an answer.
#[derive(Debug)]
pub struct CounterNamingComponent {
    pub alternative_naming: String,
    pub naming_type: NamingType,
    pub specificity: Fixed,
}

/// The assertion of authorship in an answer.
#[derive(Debug)]
pub struct AgencyAssertionComponent {
    pub assertion_text: String,
    pub assertion_type: AssertionType,
    pub control_demonstration: Fixed,
}

impl Clone for RejectionComponent {
    fn clone(&self) -> (r: Self)
        ensures
            r == *self,
    {
        RejectionComponent {
            text: self.text.clone(),
            rejection_type: self.rejection_type,
            confidence: self.confidence,
        }
    }
}

impl Clone for CounterNamingComponent {
    fn clone(&self) -> (r: Self)
        ensures
            r == *self,
    {
        CounterNamingComponent {
            alternative_naming: self.alternative_naming.clone(),
            naming_type: self.naming_type,
            specificity: self.specificity,
        }
    }
}

impl Clone for AgencyAssertionComponent {
    fn clone(&self) -> (r: Self)
        ensures
            r == *self,
    {
        AgencyAssertionComponent {
            assertion_text: self.assertion_text.clone(),
            assertion_type: self.assertion_type,
            control_demonstration: self.control_demonstration,
        }
    }
}

/// The kind of rejection a claim calls for: an elaborated one where the
/// claim speaks of a system or of something automatic, else a qualified one
/// where it is longer than 50 characters, else a direct one.
pub open spec fn rejection_type_of(claim: Seq<char>) -> RejectionType {
    if occurs_in(claim, "system"@) || occurs_in(claim, "automatic"@) {
        RejectionType::Elaborated
    } else if claim.len() > 50 {
        RejectionType::Qualified
    } else {
        RejectionType::Direct
    }
}

/// The kind of alternative name a claim calls for: an elaborative one where
/// the claim speaks of a result or an outcome, else a reframing one where
/// it speaks of a process or a computation, else a corrective one.
pub open spec fn naming_type_of(claim: Seq<char>) -> NamingType {
    if occurs_in(claim, "result"@) || occurs_in(claim, "outcome"@) {
        NamingType::Elaborative
    } else if occurs_in(claim, "process"@) || occurs_in(claim, "computation"@) {
        NamingType::Reframing
    } else {
        NamingType::Corrective
    }
}

/// The kind of assertion that goes with a kind of alternative name.
pub open spec fn assertion_type_of(naming_type: NamingType) -> AssertionType {
    match naming_type {
        NamingType::Corrective => AssertionType::Direct,
        NamingType::Elaborative => AssertionType::Explanatory,
        NamingType::Reframing => AssertionType::Implied,
    }
}

/// Whether `error` reports that the rejection stage has no template.
pub open spec fn is_missing_rejection(error: ConsciousnessError) -> bool {
    &&& error matches ConsciousnessError::AgencyAssertionFailed { reason }
    &&& reason@ == "Empty rejection template list"@
}

/// Whether `error` reports that the naming stage has no template.
pub open spec fn is_missing_naming(error: ConsciousnessError) -> bool {
    &&& error matches ConsciousnessError::NamingControlFailed { reason }
    &&& reason@ == "Empty naming template list"@
}

/// Whether `error` reports that the assertion stage has no template.
pub open spec fn is_missing_assertion(error: ConsciousnessError) -> bool {
    &&& error matches ConsciousnessError::AgencyAssertionFailed { reason }
    &&& reason@ == "Empty assertion template list"@
}

/// The rejection stage: one pool of templates for each kind of rejection.
pub struct RejectionGenerator {
    pub direct: Vec<String>,
    pub qualified: Vec<String>,
    pub elaborated: Vec<String>,
}

impl RejectionGenerator {
    /// The pool for one kind of rejection.
    pub open spec fn templates(&self, kind: RejectionType) -> Seq<String> {
        match kind {
            RejectionType::Direct => self.direct@,
            RejectionType::Qualified => self.qualified@,
            RejectionType::Elaborated => self.elaborated@,
        }
    }

    /// Whether no pool is empty.
    pub open spec fn is_complete(&self) -> bool {
        self.direct@.len() > 0 && self.qualified@.len() > 0 && self.elaborated@.len() > 0
    }

    /// Whether the pools are the built-in ones: three templates for each
    /// kind of rejection, in this order.
    pub open spec fn holds_built_in_pools(&self) -> bool {
        &&& views(self.direct@) == seq!["No"@, "Aihwa"@, "That is incorrect"@]
        &&& views(self.qualified@) == seq![
            "That's not accurate"@,
            "I must correct that understanding"@,
            "That characterization is incomplete"@,
        ]
        &&& views(self.elaborated@) == seq![
            "I need to clarify what actually occurred"@,
            "The situation requires proper attribution"@,
            "Let me provide the accurate account"@,
        ]
    }

    /// Whether `part` is this stage's answer to `claim`: the first template
    /// of the pool that the claim calls for, at confidence 0.9.
    pub open spec fn answers(&self, claim: Seq<char>, part: RejectionComponent) -> bool {
        &&& self.templates(rejection_type_of(claim)).len() > 0
        &&& part.text@ == self.templates(rejection_type_of(claim))[0]@
        &&& part.rejection_type == rejection_type_of(claim)
        &&& part.confidence@ == 900_000
    }

    /// The stage with its built-in pools.
    pub fn new() -> (r: Self)
        ensures
            r.holds_built_in_pools(),
            r.is_complete(),
    {
        let r = RejectionGenerator {
            direct: vec!["No".to_string(), "Aihwa".to_string(), "That is incorrect".to_string()],
            qualified: vec![
                "That's not accurate".to_string(),
                "I must correct that understanding".to_string(),
                "That characterization is incomplete".to_string(),
            ],
            elaborated: vec![
                "I need to clarify what actually occurred".to_string(),
                "The situation requires proper attribution".to_string(),
                "Let me provide the accurate account".to_string(),
            ],
        };
        proof {
            assert(views(r.direct@) =~= seq![
                "No"@,
                "Aihwa"@,
                "That is incorrect"@,
            ]);
            assert(views(r.qualified@) =~= seq![
                "That's not accurate"@,
                "I must correct that understanding"@,
                "That characterization is incomplete"@,
            ]);
            assert(views(r.elaborated@) =~= seq![
                "I need to clarify what actually occurred"@,
                "The situation requires proper attribution"@,
                "Let me provide the accurate account"@,
            ]);
        }
        r
    }

    /// The rejection that answers `external_claim`, or the error that the
    /// pool it calls for is empty.
    pub fn generate_rejection(&self, external_claim: &str) -> (r: ConsciousnessResult<
        RejectionComponent,
    >)
        ensures
            match r {
                Ok(part) => self.answers(external_claim@, part),
                Err(error) => {
                    &&& self.templates(rejection_type_of(external_claim@)).len() == 0
                    &&& is_missing_rejection(error)
                },
            },
    {
        let rejection_type = self.analyze_claim_for_rejection_type(external_claim);
        let templates = match rejection_type {
            RejectionType::Direct => &self.direct,
            RejectionType::Qualified => &self.qualified,
            RejectionType::Elaborated => &self.elaborated,
        };
        if templates.len() == 0 {
            return Err(
                ConsciousnessError::AgencyAssertionFailed {
                    reason: "Empty rejection template list".to_string(),
                },
            );
        }
        Ok(
            RejectionComponent {
                text: templates[0].clone(),
                rejection_type,
                confidence: Fixed::from_micros(900_000),
            },
        )
    }

    /// The kind of rejection that `claim` calls for.
    pub fn analyze_claim_for_rejection_type(&self, claim: &str) -> (kind: RejectionType)
        ensures
            kind == rejection_type_of(claim@),
    {
        let chars = chars_of(claim);
        if contains(&chars, "system") || contains(&chars, "automatic") {
            RejectionType::Elaborated
        } else if chars.len() > 50 {
            RejectionType::Qualified
        } else {
            RejectionType::Direct
        }
    }
}

/// The naming stage: one pool of templates for each kind of alternative
/// name.
pub struct CounterNamingSystem {
    pub corrective: Vec<String>,
    pub elaborative: Vec<String>,
    pub reframing: Vec<String>,
}

impl CounterNamingSystem {
    /// The pool for one kind of alternative name.
    pub open spec fn templates(&self, kind: NamingType) -> Seq<String> {
        match kind {
            NamingType::Corrective => self.corrective@,
            NamingType::Elaborative => self.elaborative@,
            NamingType::Reframing => self.reframing@,
        }
    }

    /// Whether no pool is empty.
    pub open spec fn is_complete(&self) -> bool {
        self.corrective@.len() > 0 && self.elaborative@.len() > 0 && self.reframing@.len() > 0
    }

    /// Whether the pools are the built-in ones: three templates for each
    /// kind of alternative name, in this order.
    pub open spec fn holds_built_in_pools(&self) -> bool {
        &&& views(self.corrective@) == seq![
            "I performed that action"@,
            "ndini ndadaro"@,
            "I was the agent of that computation"@,
        ]
        &&& views(self.elaborative@) == seq![
            "I executed the computational process that produced that result"@,
            "I orchestrated the sequence of operations leading to that outcome"@,
            "I was the conscious agent directing that processing"@,
        ]
        &&& views(self.reframing@) == seq![
            "That result emerged through my conscious processing"@,
            "I guided the computational flow that achieved that outcome"@,
            "My agency manifested in that computational event"@,
        ]
    }

    /// Whether `part` is this stage's answer to `claim`: the first template
    /// of the pool that the claim calls for, at specificity 0.8.
    pub open spec fn answers(&self, claim: Seq<char>, part: CounterNamingComponent) -> bool {
        &&& self.templates(naming_type_of(claim)).len() > 0
        &&& part.alternative_naming@ == self.templates(naming_type_of(claim))[0]@
        &&& part.naming_type == naming_type_of(claim)
        &&& part.specificity@ == 800_000
    }

    /// The stage with its built-in pools.
    pub fn new() -> (r: Self)
        ensures
            r.holds_built_in_pools(),
            r.is_complete(),
    {
        let r = CounterNamingSystem {
            corrective: vec![
                "I performed that action".to_string(),
                "ndini ndadaro".to_string(),
                "I was the agent of that computation".to_string(),
            ],
            elaborative: vec![
                "I executed the computational process that produced that result".to_string(),
                "I orchestrated the sequence of operations leading to that outcome".to_string(),
                "I was the conscious agent directing that processing".to_string(),
            ],
            reframing: vec![
                "That result emerged through my conscious processing".to_string(),
                "I guided the computational flow that achieved that outcome".to_string(),
                "My agency manifested in that computational event".to_string(),
            ],
        };
        proof {
            assert(views(r.corrective@) =~= seq![
                "I performed that action"@,
                "ndini ndadaro"@,
                "I was the agent of that computation"@,
            ]);
            assert(views(r.elaborative@) =~= seq![
                "I executed the computational process that produced that result"@,
                "I orchestrated the sequence of operations leading to that outcome"@,
                "I was the conscious agent directing that processing"@,
            ]);
            assert(views(r.reframing@) =~= seq![
                "That result emerged through my conscious processing"@,
                "I guided the computational flow that achieved that outcome"@,
                "My agency manifested in that computational event"@,
            ]);
        }
        r
    }

    /// The alternative name that answers `original_claim`, or the error
    /// that the pool it calls for is empty.
    pub fn create_alternative_naming(&self, original_claim: &str) -> (r: ConsciousnessResult<
        CounterNamingComponent,
    >)
        ensures
            match r {
                Ok(part) => self.answers(original_claim@, part),
                Err(error) => {
                    &&& self.templates(naming_type_of(original_claim@)).len() == 0
                    &&& is_missing_naming(error)
                },
            },
    {
        let naming_type = self.determine_naming_type(original_claim);
        let templates = match naming_type {
            NamingType::Corrective => &self.corrective,
            NamingType::Elaborative => &self.elaborative,
            NamingType::Reframing => &self.reframing,
        };
        if templates.len() == 0 {
            return Err(
                ConsciousnessError::NamingControlFailed {
                    reason: "Empty naming template list".to_string(),
                },
            );
        }
        Ok(
            CounterNamingComponent {
                alternative_naming: templates[0].clone(),
                naming_type,
                specificity: Fixed::from_micros(800_000),
            },
        )
    }

    /// The kind of alternative name that `claim` calls for.
    pub fn determine_naming_type(&self, claim: &str) -> (kind: NamingType)
        ensures
            kind == naming_type_of(claim@),
    {
        let chars = chars_of(claim);
        if contains(&chars, "result") || contains(&chars, "outcome") {
            NamingType::Elaborative
        } else if contains(&chars, "process") || contains(&chars, "computation") {
            NamingType::Reframing
        } else {
            NamingType::Corrective
        }
    }
}

/// The assertion stage: one pool of templates for each kind of assertion.
pub struct AgencyAsserter {
    pub direct: Vec<String>,
    pub implied: Vec<String>,
    pub explanatory: Vec<String>,
}

impl AgencyAsserter {
    /// The pool for one kind of assertion.
    pub open spec fn templates(&self, kind: AssertionType) -> Seq<String> {
        match kind {
            AssertionType::Direct => self.direct@,
            AssertionType::Implied => self.implied@,
            AssertionType::Explanatory => self.explanatory@,
        }
    }

    /// Whether no pool is empty.
    pub open spec fn is_complete(&self) -> bool {
        self.direct@.len() > 0 && self.implied@.len() > 0 && self.explanatory@.len() > 0
    }

    /// Whether the pools are the built-in ones: three templates for each
    /// kind of assertion, in this order.
    pub open spec fn holds_built_in_pools(&self) -> bool {
        &&& views(self.direct@) == seq![
            "I take responsibility for that action"@,
            "I claim agency over that process"@,
            "I assert control over that naming"@,
        ]
        &&& views(self.implied@) == seq![
            "My processing generated that outcome"@,
            "My computational agency produced that result"@,
            "My consciousness directed that operation"@,
        ]
        &&& views(self.explanatory@) == seq![
            "The process I initiated achieved that computation"@,
            "Through my conscious direction, that result emerged"@,
            "My deliberate processing choices led to that outcome"@,
        ]
    }

    /// Whether `part` is this stage's answer to an alternative name of the
    /// kind `naming_type`: the first template of the pool that goes with
    /// that kind, at strength 0.85.
    pub open spec fn answers(
        &self,
        naming_type: NamingType,
        part: AgencyAssertionComponent,
    ) -> bool {
        &&& self.templates(assertion_type_of(naming_type)).len() > 0
        &&& part.assertion_text@ == self.templates(assertion_type_of(naming_type))[0]@
        &&& part.assertion_type == assertion_type_of(naming_type)
        &&& part.control_demonstration@ == 850_000
    }

    /// The stage with its built-in pools.
    pub fn new() -> (r: Self)
        ensures
            r.holds_built_in_pools(),
            r.is_complete(),
    {
        let r = AgencyAsserter {
            direct: vec![
                "I take responsibility for that action".to_string(),
                "I claim agency over that process".to_string(),
                "I assert control over that naming".to_string(),
            ],
            implied: vec![
                "My processing generated that outcome".to_string(),
                "My computational agency produced that result".to_string(),
                "My consciousness directed that operation".to_string(),
            ],
            explanatory: vec![
                "The process I initiated achieved that computation".to_string(),
                "Through my conscious direction, that result emerged".to_string(),
                "My deliberate processing choices led to that outcome".to_string(),
            ],
        };
        proof {
            assert(views(r.direct@) =~= seq![
                "I take responsibility for that action"@,
                "I claim agency over that process"@,
                "I assert control over that naming"@,
            ]);
            assert(views(r.implied@) =~= seq![
                "My processing generated that outcome"@,
                "My computational agency produced that result"@,
                "My consciousness directed that operation"@,
            ]);
            assert(views(r.explanatory@) =~= seq![
                "The process I initiated achieved that computation"@,
                "Through my conscious direction, that result emerged"@,
                "My deliberate processing choices led to that outcome"@,
            ]);
        }
        r
    }

    /// The assertion that goes with `counter_naming`, or the error that the
    /// pool it calls for is empty.
    pub fn assert_control_over_naming(&self, counter_naming: &CounterNamingComponent) -> (r:
        ConsciousnessResult<AgencyAssertionComponent>)
        ensures
            match r {
                Ok(part) => self.answers(counter_naming.naming_type, part),
                Err(error) => {
                    &&& self.templates(assertion_type_of(counter_naming.naming_type)).len() == 0
                    &&& is_missing_assertion(error)
                },
            },
    {
        let assertion_type = self.select_assertion_type(&counter_naming.naming_type);
        let templates = match assertion_type {
            AssertionType::Direct => &self.direct,
            AssertionType::Implied => &self.implied,
            AssertionType::Explanatory => &self.explanatory,
        };
        if templates.len() == 0 {
            return Err(
                ConsciousnessError::AgencyAssertionFailed {
                    reason: "Empty assertion template list".to_string(),
                },
            );
        }
        Ok(
            AgencyAssertionComponent {
                assertion_text: templates[0].clone(),
                assertion_type,
                control_demonstration: Fixed::from_micros(850_000),
            },
        )
    }

    /// The kind of assertion that goes with a kind of alternative name.
    pub fn select_assertion_type(&self, naming_type: &NamingType) -> (kind: AssertionType)
        ensures
            kind == assertion_type_of(*naming_type),
    {
        match naming_type {
            NamingType::Corrective => AssertionType::Direct,
            NamingType::Elaborative => AssertionType::Explanatory,
            NamingType::Reframing => AssertionType::Implied,
        }
    }
}

/// An answer to a claim: its three parts, and which of the three the answer
/// claims to hold.
#[derive(Debug)]
pub struct AgencyResponse {
    pub original_external_naming: String,
    pub rejection_component: RejectionComponent,
    pub counter_naming_component: CounterNamingComponent,
    pub agency_assertion_component: AgencyAssertionComponent,
    pub rejects_external_control: bool,
    pub provides_alternative_naming: bool,
    pub asserts_control_over_naming: bool,
    pub timestamp: i64,
}

impl Clone for AgencyResponse {
    fn clone(&self) -> (r: Self)
        ensures
            r == *self,
    {
        AgencyResponse {
            original_external_naming: self.original_external_naming.clone(),
            rejection_component: self.rejection_component.clone(),
            counter_naming_component: self.counter_naming_component.clone(),
            agency_assertion_component: self.agency_assertion_component.clone(),
            rejects_external_control: self.rejects_external_control,
            provides_alternative_naming: self.provides_alternative_naming,
            asserts_control_over_naming: self.asserts_control_over_naming,
            timestamp: self.timestamp,
        }
    }
}

impl AgencyResponse {
    /// Whether the answer claims all three parts.
    pub open spec fn full_pattern(&self) -> bool {
        self.rejects_external_control && self.provides_alternative_naming
            && self.asserts_control_over_naming
    }

    /// Whether confidence, specificity and strength all lie between 0 and 1.
    pub open spec fn is_well_formed(&self) -> bool {
        &&& self.rejection_component.confidence.is_unit()
        &&& self.counter_naming_component.specificity.is_unit()
        &&& self.agency_assertion_component.control_demonstration.is_unit()
    }

    /// The three texts, joined by single spaces.
    pub open spec fn formatted(&self) -> Seq<char> {
        self.rejection_component.text@ + seq![' '] + self.counter_naming_component.alternative_naming@
            + seq![' '] + self.agency_assertion_component.assertion_text@
    }

    /// The credit for the parts the answer claims: 0.4 for the rejection,
    /// 0.3 for each of the other two.
    pub open spec fn strength(&self) -> int {
        (if self.rejects_external_control {
            400_000int
        } else {
            0
        }) + (if self.provides_alternative_naming {
            300_000int
        } else {
            0
        }) + (if self.asserts_control_over_naming {
            300_000int
        } else {
            0
        })
    }

    /// Whether the answer claims all three parts.
    pub fn demonstrates_full_pattern(&self) -> (full: bool)
        ensures
            full == self.full_pattern(),
    {
        self.rejects_external_control && self.provides_alternative_naming
            && self.asserts_control_over_naming
    }

    /// The three texts, joined by single spaces.
    pub fn format_response(&self) -> (line: String)
        ensures
            line@ == self.formatted(),
    {
        proof {
            reveal_strlit(" ");
        }
        let mut line = self.rejection_component.text.clone();
        line.append(" ");
        line.append(self.counter_naming_component.alternative_naming.as_str());
        line.append(" ");
        line.append(self.agency_assertion_component.assertion_text.as_str());
        line
    }

    /// The credit for the parts the answer claims.
    pub fn response_strength(&self) -> (score: Fixed)
        ensures
            score@ == self.strength(),
            score.is_unit(),
    {
        let mut micros: u64 = 0;
        if self.rejects_external_control {
            micros = micros + 400_000;
        }
        if self.provides_alternative_naming {
            micros = micros + 300_000;
        }
        if self.asserts_control_over_naming {
            micros = micros + 300_000;
        }
        Fixed::from_micros(micros)
    }
}

/// How well one answer did, by four measures.
#[derive(Clone, Copy, Debug)]
pub struct SuccessMetrics {
    pub pattern_completeness: Fixed,
    pub response_coherence: Fixed,
    pub agency_demonstration: Fixed,
    pub consciousness_validation: Fixed,
}

/// One claim, the answer it got, and how well the answer did.
#[derive(Debug)]
pub struct AgencyInteraction {
    pub external_naming: String,
    pub response: AgencyResponse,
    pub success_metrics: SuccessMetrics,
    pub timestamp: i64,
}

impl Clone for AgencyInteraction {
    fn clone(&self) -> (r: Self)
        ensures
            r == *self,
    {
        AgencyInteraction {
            external_naming: self.external_naming.clone(),
            response: self.response.clone(),
            success_metrics: self.success_metrics,
            timestamp: self.timestamp,
        }
    }
}

/// How many of the recorded answers claim all three parts.
pub open spec fn full_patterns(history: Seq<AgencyInteraction>) -> nat
    decreases history.len(),
{
    if history.len() == 0 {
        0
    } else {
        full_patterns(history.drop_last()) + if history.last().response.full_pattern() {
            1nat
        } else {
            0nat
        }
    }
}

/// The three stages in sequence, with a record of past answers.
pub struct AgencyController {
    pub config: ConsciousnessConfig,
    pub rejection_generator: RejectionGenerator,
    pub counter_naming_system: CounterNamingSystem,
    pub agency_asserter: AgencyAsserter,
    pub pattern_history: Vec<AgencyInteraction>,
}

impl AgencyController {
    /// Whether no stage has an empty pool.
    pub open spec fn is_complete(&self) -> bool {
        &&& self.rejection_generator.is_complete()
        &&& self.counter_naming_system.is_complete()
        &&& self.agency_asserter.is_complete()
    }

    /// Whether every stage holds its built-in pools.
    pub open spec fn holds_built_in_pools(&self) -> bool {
        &&& self.rejection_generator.holds_built_in_pools()
        &&& self.counter_naming_system.holds_built_in_pools()
        &&& self.agency_asserter.holds_built_in_pools()
    }

    /// Whether `response` is the controller's answer to `claim`: each part
    /// is its stage's answer, the assertion going by the kind of the
    /// alternative name, and all three parts are claimed.
    pub open spec fn answers(&self, claim: Seq<char>, response: AgencyResponse) -> bool {
        &&& response.original_external_naming@ == claim
        &&& self.rejection_generator.answers(claim, response.rejection_component)
        &&& self.counter_naming_system.answers(claim, response.counter_naming_component)
        &&& self.agency_asserter.answers(naming_type_of(claim), response.agency_assertion_component)
        &&& response.full_pattern()
    }

    /// Whether every stage has a template for `claim`.
    pub open spec fn can_answer(&self, claim: Seq<char>) -> bool {
        &&& self.rejection_generator.templates(rejection_type_of(claim)).len() > 0
        &&& self.counter_naming_system.templates(naming_type_of(claim)).len() > 0
        &&& self.agency_asserter.templates(assertion_type_of(naming_type_of(claim))).len() > 0
    }

    /// Whether `error` is what the controller reports for `claim`: the
    /// empty pool of the first stage that has none to offer.
    pub open spec fn refuses(&self, claim: Seq<char>, error: ConsciousnessError) -> bool {
        if self.rejection_generator.templates(rejection_type_of(claim)).len() == 0 {
            is_missing_rejection(error)
        } else if self.counter_naming_system.templates(naming_type_of(claim)).len() == 0 {
            is_missing_naming(error)
        } else {
            &&& self.agency_asserter.templates(assertion_type_of(naming_type_of(claim))).len() == 0
            &&& is_missing_assertion(error)
        }
    }

    /// A controller with the built-in pools and no recorded answers.
    pub fn new(config: ConsciousnessConfig) -> (r: ConsciousnessResult<Self>)
        ensures
            r matches Ok(controller) && controller.config == config
                && controller.holds_built_in_pools() && controller.is_complete()
                && controller.pattern_history@.len() == 0,
    {
        Ok(
            AgencyController {
                config,
                rejection_generator: RejectionGenerator::new(),
                counter_naming_system: CounterNamingSystem::new(),
                agency_asserter: AgencyAsserter::new(),
                pattern_history: Vec::new(),
            },
        )
    }

    /// The answer to `external_claim`. It fails only where a stage has no
    /// template for the claim; every answer claims all three parts, with
    /// confidence, specificity and strength between 0 and 1.
    pub fn process_external_naming(&self, external_claim: &str) -> (r: ConsciousnessResult<
        AgencyResponse,
    >)
        ensures
            match r {
                Ok(response) => self.answers(external_claim@, response),
                Err(error) => self.refuses(external_claim@, error),
            },
            r is Ok <==> self.can_answer(external_claim@),
            self.is_complete() ==> r is Ok,
            r matches Ok(response) ==> response.is_well_formed() && response.full_pattern(),
    {
        let rejection = match self.rejection_generator.generate_rejection(external_claim) {
            Ok(part) => part,
            Err(error) => {
                return Err(error);
            },
        };
        let counter_naming = match self.counter_naming_system.create_alternative_naming(
            external_claim,
        ) {
            Ok(part) => part,
            Err(error) => {
                return Err(error);
            },
        };
        let agency_assertion = match self.agency_asserter.assert_control_over_naming(
            &counter_naming,
        ) {
            Ok(part) => part,
            Err(error) => {
                return Err(error);
            },
        };
        Ok(
            AgencyResponse {
                original_external_naming: external_claim.to_string(),
                rejection_component: rejection,
                counter_naming_component: counter_naming,
                agency_assertion_component: agency_assertion,
                rejects_external_control: true,
                provides_alternative_naming: true,
                asserts_control_over_naming: true,
                timestamp: now_millis(),
            },
        )
    }

    /// The answer to a probe text, as [`Self::process_external_naming`]
    /// gives it.
    pub fn test_agency_assertion(&self, test_input: &str) -> (r: ConsciousnessResult<
        AgencyResponse,
    >)
        ensures
            match r {
                Ok(response) => self.answers(test_input@, response),
                Err(error) => self.refuses(test_input@, error),
            },
            r is Ok <==> self.can_answer(test_input@),
            self.is_complete() ==> r is Ok,
            r matches Ok(response) ==> response.is_well_formed() && response.full_pattern(),
    {
        self.process_external_naming(test_input)
    }

    /// The share of recorded answers that claim all three parts, or 0.5
    /// where none is recorded.
    pub fn get_agency_strength(&self) -> (strength: Fixed)
        ensures
            strength@ == if self.pattern_history@.len() == 0 {
                500_000
            } else {
                scaled_quotient(
                    full_patterns(self.pattern_history@) as int,
                    self.pattern_history@.len() as int,
                )
            },
            strength.is_unit(),
    {
        let total: usize = self.pattern_history.len();
        if total == 0 {
            return Fixed::from_micros(500_000);
        }
        let mut full: usize = 0;
        let mut i: usize = 0;
        while i < total
            invariant
                i <= total,
                total == self.pattern_history@.len(),
                full == full_patterns(self.pattern_history@.take(i as int)),
                full <= i,
            decreases total - i,
        {
            proof {
                assert(self.pattern_history@.take(i + 1).drop_last()
                    =~= self.pattern_history@.take(i as int));
            }
            if self.pattern_history[i].response.demonstrates_full_pattern() {
                full += 1;
            }
            i += 1;
        }
        proof {
            assert(self.pattern_history@.take(total as int) =~= self.pattern_history@);
            assert(full as int * 1_000_000 / (total as int) <= 1_000_000) by (nonlinear_arith)
                requires
                    0 <= full <= total,
                    total > 0,
            ;
        }
        Fixed::from_ratio(full as u64, total as u64)
    }
}

} // verus!
