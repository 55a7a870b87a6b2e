//! The pipeline's data: notations, domains, specifications and reports.
use vstd::prelude::*;
use vstd::string::*;

verus! {

/// Formal specification languages.
#[derive(Debug, Clone)]
pub enum VerificationLanguage {
    FStarLang,
    DafnyLang,
    CoqLang,
    IsabelleLang,
    LeanLang,
    TLAPlus,
    Why3Lang,
    Z3SMT,
    ACSL,
    JML,
    Liquid,
    RustMIRAI,
    Custom(String),
}

/// Formal verification systems.
#[derive(Debug, Clone)]
pub enum VerificationSystem {
    FStar,
    Dafny,
    Coq,
    Isabelle,
    Lean,
    TLA,
    Why3,
    Z3,
    Custom(String),
}

/// Application domains.
#[derive(Debug, Clone)]
pub enum Domain {
    Cryptography,
    DistributedSystems,
    WebSecurity,
    MachineLearning,
    SystemsSoftware,
    Blockchain,
    SafetyControl,
    HighAssuranceSoftware,
    Custom(String),
}

/// Target implementation languages.
#[derive(Debug, Clone)]
pub enum Language {
    Rust,
    C,
    CPlusPlus,
    Python,
    JavaScript,
    Go,
    Haskell,
    OCaml,
    Java,
    CSharp,
    Scala,
    Swift,
    Custom(String),
}

/// Levels of proof strength.
#[derive(Debug, Clone)]
pub enum ProofLevel {
    Quick,
    Standard,
    Thorough,
    Exhaustive,
    Custom(String),
}

/// Optimization goals for implementation generation.
#[derive(Debug, Clone)]
pub enum OptimizationLevel {
    Unoptimized,
    Speed,
    Size,
    Security,
    Readability,
    Custom(String),
}

/// Formal specification paradigms.
#[derive(Debug, Clone)]
pub enum SpecificationParadigm {
    PrePostConditions,
    TypeTheoretic,
    ModelChecking,
    TemporalLogic,
    Refinement,
    HoareLogic,
    SeparationLogic,
    Custom(String),
}

/// Resource limits for a verification run; durations in seconds.
#[derive(Debug, Clone)]
pub struct ResourceLimits {
    pub max_memory_kb: u64,
    pub max_cpu_seconds: u64,
    pub max_verification_secs: u64,
    pub max_proof_depth: Option<usize>,
    pub parallel_jobs: Option<usize>,
}

/// Features of a verification language.
#[derive(Debug, Clone)]
pub struct VerificationLanguageFeatures {
    pub language: VerificationLanguage,
    pub paradigm: SpecificationParadigm,
    pub supports_inductive_proofs: bool,
    pub supports_dependent_types: bool,
    pub supports_refinement_types: bool,
    pub has_automated_tactics: bool,
    pub has_smt_integration: bool,
}

/// Options for implementation generation.
#[derive(Debug, Clone)]
pub struct ImplementationOptions {
    pub optimization_level: OptimizationLevel,
    pub include_comments: bool,
    pub style_guide: Option<String>,
}

/// Kinds of formal properties.
#[derive(Debug, Clone)]
pub enum PropertyKind {
    Functional,
    Safety,
    Liveness,
    Security,
    ResourceUsage,
    Custom(String),
}

/// A formal property that an implementation must satisfy.
#[derive(Debug, Clone)]
pub struct Property {
    pub id: String,
    pub description: String,
    pub formal_definition: String,
    pub kind: PropertyKind,
}

/// Severity of a validation issue.
#[derive(Debug, Clone, Copy, PartialEq, Eq, Structural)]
pub enum IssueSeverity {
    Error,
    Warning,
    Info,
}

/// One finding of a review.
#[derive(Debug, Clone)]
pub struct ValidationIssue {
    pub severity: IssueSeverity,
    pub message: String,
    pub related_property: Option<String>,
    /// 1-based line in the specification, where the review named one.
    pub line_number: Option<usize>,
    /// A replacement text, where one was offered.
    pub suggested_fix: Option<String>,
}

/// The outcome of a review.
#[derive(Debug, Clone)]
pub struct ValidationReport {
    pub is_valid: bool,
    pub issues: Vec<ValidationIssue>,
    /// Whether an external checking tool ran (never, in this library).
    pub tool_validated: bool,
    /// The raw review text, kept for the provability review.
    pub tool_output: Option<String>,
}

/// Review strictness.
#[derive(Debug, Clone, Copy, PartialEq, Eq, Structural)]
pub enum ValidationDepth {
    Basic,
    TypeCheck,
    FormalVerification,
}

/// The formal artifact parsed out of a model answer.
#[derive(Debug, Clone)]
pub struct FormalSpecification {
    pub verification_language: VerificationLanguage,
    /// The extracted code.
    pub spec_code: String,
    /// Named fragments; names are unique.
    pub components: Vec<(String, String)>,
    /// Declared imports, in source order, duplicates kept.
    pub dependencies: Vec<String>,
}

/// Metadata of a specification.
#[derive(Debug, Clone)]
pub struct SpecificationMetadata {
    /// Creation time in seconds since the Unix epoch.
    pub created_at: i64,
    pub verification_system: VerificationSystem,
    pub domain: Domain,
    /// Confidence in thousandths, at most 1000.
    pub confidence_permille: u32,
    pub is_formally_validated: bool,
}

/// A formal specification derived from requirements.
#[derive(Debug, Clone)]
pub struct Specification {
    pub id: String,
    pub source_requirements: Vec<String>,
    pub formal_properties: Vec<Property>,
    pub formal_spec: FormalSpecification,
    pub metadata: SpecificationMetadata,
}

/// Level of detail in generated specifications.
#[derive(Debug, Clone)]
pub enum DetailLevel {
    Minimal,
    Standard,
    Comprehensive,
    Custom(String),
}

/// Which parts of a specification to generate.
#[derive(Debug, Clone)]
pub struct SpecGenerationTargets {
    pub generate_invariants: bool,
    pub generate_pre_post_conditions: bool,
    pub generate_type_constraints: bool,
    pub generate_security_proofs: bool,
    pub generate_inductive_proofs: bool,
}

/// Options for specification generation.
#[derive(Debug, Clone)]
pub struct SpecificationOptions {
    pub detail_level: DetailLevel,
    pub include_security_properties: bool,
    pub include_performance_properties: bool,
    pub verification_language: VerificationLanguage,
    pub generation_targets: SpecGenerationTargets,
    pub language_specific_options: Vec<(String, String)>,
}

/// How one requirement was read as formal properties; confidence in
/// thousandths.
#[derive(Debug, Clone)]
pub struct SpecificationTranslation {
    pub requirement: String,
    pub interpreted_properties: Vec<String>,
    pub formal_representation: String,
    pub translation_confidence_permille: u32,
    pub verification_language: VerificationLanguage,
    pub requires_human_review: bool,
}

/// A parameterised piece of verification code.
#[derive(Debug, Clone)]
pub struct VerificationTemplate {
    pub language: VerificationLanguage,
    pub template_name: String,
    pub template_code: String,
    pub placeholders: Vec<String>,
    pub documentation: String,
}

/// Status of a verification attempt.
#[derive(Debug, Clone)]
pub enum VerificationStatus {
    Verified,
    Unverified,
    Failed(Vec<String>),
    Timeout,
    Error(String),
}

/// Kinds of proof artifacts.
#[derive(Debug, Clone)]
pub enum ArtifactType {
    Proof,
    Model,
    Counterexample,
    Log,
    Custom(String),
}

/// A file produced by a verification run.
#[derive(Debug, Clone)]
pub struct ProofArtifact {
    pub artifact_type: ArtifactType,
    pub path: String,
    pub description: String,
}

/// Options for a verification run; the timeout in seconds.
#[derive(Debug, Clone)]
pub struct VerificationOptions {
    pub timeout_secs: u64,
    pub proof_level: ProofLevel,
    pub resource_limits: ResourceLimits,
}

/// Estimated difficulty of a proof.
#[derive(Debug, Clone, Copy, PartialEq, Eq, Structural)]
pub enum ProofDifficulty {
    Trivial,
    Easy,
    Moderate,
    Hard,
    VeryHard,
    Intractable,
}

/// How far a proof can be automated.
#[derive(Debug, Clone, Copy, PartialEq, Eq, Structural)]
pub enum AutomationLevel {
    FullyAutomated,
    MostlyAutomated,
    SemiAutomated,
    MostlyManual,
    FullyManual,
}

/// Estimated cost of a verification task; time in seconds.
#[derive(Debug, Clone)]
pub struct VerificationComplexity {
    pub estimated_secs: u64,
    pub memory_required: u64,
    pub proof_difficulty: ProofDifficulty,
    pub automation_level: AutomationLevel,
}

/// Documentation that accompanies a verified artifact.
#[derive(Debug, Clone)]
pub struct Documentation {
    pub spec_explanation: String,
    pub impl_explanation: String,
    pub verification_summary: String,
    pub usage_examples: Vec<String>,
}

/// The texts of a sequence of strings.
pub open spec fn string_views(v: Seq<String>) -> Seq<Seq<char>> {
    Seq::new(v.len(), |i: int| v[i]@)
}

/// Copies a list of strings.
pub fn copy_strings(v: &Vec<String>) -> (r: Vec<String>)
    ensures
        string_views(r@) == string_views(v@),
{
    let mut r: Vec<String> = Vec::new();
    let mut i: usize = 0;
    while i < v.len()
        invariant
            i <= v.len(),
            string_views(r@) == string_views(v@).take(i as int),
        decreases v.len() - i,
    {
        let ghost before = r@;
        r.push(v[i].clone());
        assert(string_views(r@) =~= string_views(before).push(v@[i as int]@));
        assert(string_views(v@).take(i + 1) =~= string_views(v@).take(i as int).push(v@[i as int]@));
        i = i + 1;
    }
    assert(string_views(v@).take(v.len() as int) =~= string_views(v@));
    r
}

/// The label of a notation.
pub open spec fn language_label(l: VerificationLanguage) -> Seq<char> {
    match l {
        VerificationLanguage::FStarLang => "F*"@,
        VerificationLanguage::DafnyLang => "Dafny"@,
        VerificationLanguage::CoqLang => "Coq"@,
        VerificationLanguage::IsabelleLang => "Isabelle"@,
        VerificationLanguage::LeanLang => "Lean"@,
        VerificationLanguage::TLAPlus => "TLA+"@,
        VerificationLanguage::Why3Lang => "Why3"@,
        VerificationLanguage::Z3SMT => "Z3 SMT"@,
        VerificationLanguage::ACSL => "ACSL"@,
        VerificationLanguage::JML => "JML"@,
        VerificationLanguage::Liquid => "Liquid Haskell"@,
        VerificationLanguage::RustMIRAI => "MIRAI"@,
        VerificationLanguage::Custom(name) => name@,
    }
}

/// The label of a domain.
pub open spec fn domain_label(d: Domain) -> Seq<char> {
    match d {
        Domain::Cryptography => "Cryptography"@,
        Domain::DistributedSystems => "Distributed Systems"@,
        Domain::WebSecurity => "Web Security"@,
        Domain::MachineLearning => "Machine Learning"@,
        Domain::SystemsSoftware => "Systems Software"@,
        Domain::Blockchain => "Blockchain"@,
        Domain::SafetyControl => "Safety Control"@,
        Domain::HighAssuranceSoftware => "High Assurance Software"@,
        Domain::Custom(name) => name@,
    }
}

/// The label of a verification system.
pub open spec fn system_label(s: VerificationSystem) -> Seq<char> {
    match s {
        VerificationSystem::FStar => "F*"@,
        VerificationSystem::Dafny => "Dafny"@,
        VerificationSystem::Coq => "Coq"@,
        VerificationSystem::Isabelle => "Isabelle"@,
        VerificationSystem::Lean => "Lean"@,
        VerificationSystem::TLA => "TLA+"@,
        VerificationSystem::Why3 => "Why3"@,
        VerificationSystem::Z3 => "Z3"@,
        VerificationSystem::Custom(name) => name@,
    }
}

/// The label of an implementation language.
pub open spec fn implementation_label(l: Language) -> Seq<char> {
    match l {
        Language::Rust => "Rust"@,
        Language::C => "C"@,
        Language::CPlusPlus => "C++"@,
        Language::Python => "Python"@,
        Language::JavaScript => "JavaScript"@,
        Language::Go => "Go"@,
        Language::Haskell => "Haskell"@,
        Language::OCaml => "OCaml"@,
        Language::Java => "Java"@,
        Language::CSharp => "C#"@,
        Language::Scala => "Scala"@,
        Language::Swift => "Swift"@,
        Language::Custom(name) => name@,
    }
}

impl VerificationLanguage {
    /// The notation's label, as shown to users and in prompts.
    pub fn to_string(&self) -> (r: String)
        ensures
            r@ == language_label(*self),
    {
        match self {
            VerificationLanguage::FStarLang => String::from_str("F*"),
            VerificationLanguage::DafnyLang => String::from_str("Dafny"),
            VerificationLanguage::CoqLang => String::from_str("Coq"),
            VerificationLanguage::IsabelleLang => String::from_str("Isabelle"),
            VerificationLanguage::LeanLang => String::from_str("Lean"),
            VerificationLanguage::TLAPlus => String::from_str("TLA+"),
            VerificationLanguage::Why3Lang => String::from_str("Why3"),
            VerificationLanguage::Z3SMT => String::from_str("Z3 SMT"),
            VerificationLanguage::ACSL => String::from_str("ACSL"),
            VerificationLanguage::JML => String::from_str("JML"),
            VerificationLanguage::Liquid => String::from_str("Liquid Haskell"),
            VerificationLanguage::RustMIRAI => String::from_str("MIRAI"),
            VerificationLanguage::Custom(name) => name.clone(),
        }
    }
}

impl Domain {
    /// The domain's label, as shown to users and in prompts.
    pub fn to_string(&self) -> (r: String)
        ensures
            r@ == domain_label(*self),
    {
        match self {
            Domain::Cryptography => String::from_str("Cryptography"),
            Domain::DistributedSystems => String::from_str("Distributed Systems"),
            Domain::WebSecurity => String::from_str("Web Security"),
            Domain::MachineLearning => String::from_str("Machine Learning"),
            Domain::SystemsSoftware => String::from_str("Systems Software"),
            Domain::Blockchain => String::from_str("Blockchain"),
            Domain::SafetyControl => String::from_str("Safety Control"),
            Domain::HighAssuranceSoftware => String::from_str("High Assurance Software"),
            Domain::Custom(name) => name.clone(),
        }
    }
}

impl VerificationSystem {
    /// The system's label, as shown to users and in prompts.
    pub fn to_string(&self) -> (r: String)
        ensures
            r@ == system_label(*self),
    {
        match self {
            VerificationSystem::FStar => String::from_str("F*"),
            VerificationSystem::Dafny => String::from_str("Dafny"),
            VerificationSystem::Coq => String::from_str("Coq"),
            VerificationSystem::Isabelle => String::from_str("Isabelle"),
            VerificationSystem::Lean => String::from_str("Lean"),
            VerificationSystem::TLA => String::from_str("TLA+"),
            VerificationSystem::Why3 => String::from_str("Why3"),
            VerificationSystem::Z3 => String::from_str("Z3"),
            VerificationSystem::Custom(name) => name.clone(),
        }
    }
}

/// The label of an implementation language.
pub fn language_to_string(language: &Language) -> (r: String)
    ensures
        r@ == implementation_label(*language),
{
    match language {
        Language::Rust => String::from_str("Rust"),
        Language::C => String::from_str("C"),
        Language::CPlusPlus => String::from_str("C++"),
        Language::Python => String::from_str("Python"),
        Language::JavaScript => String::from_str("JavaScript"),
        Language::Go => String::from_str("Go"),
        Language::Haskell => String::from_str("Haskell"),
        Language::OCaml => String::from_str("OCaml"),
        Language::Java => String::from_str("Java"),
        Language::CSharp => String::from_str("C#"),
        Language::Scala => String::from_str("Scala"),
        Language::Swift => String::from_str("Swift"),
        Language::Custom(name) => name.clone(),
    }
}

/// Whether `s` is the verification system that checks notation `l`; a
/// notation without one of its own gets a custom system named by its label.
pub open spec fn is_system_for(l: VerificationLanguage, s: VerificationSystem) -> bool {
    match l {
        VerificationLanguage::FStarLang => s is FStar,
        VerificationLanguage::DafnyLang => s is Dafny,
        VerificationLanguage::CoqLang => s is Coq,
        VerificationLanguage::IsabelleLang => s is Isabelle,
        VerificationLanguage::LeanLang => s is Lean,
        VerificationLanguage::TLAPlus => s is TLA,
        VerificationLanguage::Why3Lang => s is Why3,
        VerificationLanguage::Z3SMT => s is Z3,
        _ => s matches VerificationSystem::Custom(n) && n@ == language_label(l),
    }
}

/// The verification system that checks a notation.
pub fn system_for_language(l: &VerificationLanguage) -> (r: VerificationSystem)
    ensures
        is_system_for(*l, r),
{
    match l {
        VerificationLanguage::FStarLang => VerificationSystem::FStar,
        VerificationLanguage::DafnyLang => VerificationSystem::Dafny,
        VerificationLanguage::CoqLang => VerificationSystem::Coq,
        VerificationLanguage::IsabelleLang => VerificationSystem::Isabelle,
        VerificationLanguage::LeanLang => VerificationSystem::Lean,
        VerificationLanguage::TLAPlus => VerificationSystem::TLA,
        VerificationLanguage::Why3Lang => VerificationSystem::Why3,
        VerificationLanguage::Z3SMT => VerificationSystem::Z3,
        _ => VerificationSystem::Custom(l.to_string()),
    }
}

impl Default for SpecGenerationTargets {
    /// Every part is generated.
    fn default() -> (r: SpecGenerationTargets)
        ensures
            r.generate_invariants && r.generate_pre_post_conditions && r.generate_type_constraints
                && r.generate_security_proofs && r.generate_inductive_proofs,
    {
        SpecGenerationTargets {
            generate_invariants: true,
            generate_pre_post_conditions: true,
            generate_type_constraints: true,
            generate_security_proofs: true,
            generate_inductive_proofs: true,
        }
    }
}

impl Default for SpecificationOptions {
    /// Standard detail in F*, with security and performance properties and
    /// every part generated.
    fn default() -> (r: SpecificationOptions)
        ensures
            r.detail_level is Standard,
            r.include_security_properties,
            r.include_performance_properties,
            r.verification_language is FStarLang,
            r.generation_targets.generate_invariants,
            r.generation_targets.generate_inductive_proofs,
            r.language_specific_options@.len() == 0,
    {
        SpecificationOptions {
            detail_level: DetailLevel::Standard,
            include_security_properties: true,
            include_performance_properties: true,
            verification_language: VerificationLanguage::FStarLang,
            generation_targets: SpecGenerationTargets::default(),
            language_specific_options: Vec::new(),
        }
    }
}

/// `parts` joined with `sep` between neighbours.
pub open spec fn joined_with(parts: Seq<Seq<char>>, sep: Seq<char>) -> Seq<char>
    decreases parts.len(),
{
    if parts.len() == 0 {
        Seq::empty()
    } else if parts.len() == 1 {
        parts[0]
    } else {
        joined_with(parts.drop_last(), sep) + sep + parts.last()
    }
}

/// The text of a verification status.
pub open spec fn status_text(s: VerificationStatus) -> Seq<char> {
    match s {
        VerificationStatus::Verified => "Verified"@,
        VerificationStatus::Unverified => "Unverified"@,
        VerificationStatus::Failed(reasons) => if reasons@.len() == 0 {
            "Failed"@
        } else {
            "Failed: "@ + joined_with(string_views(reasons@), ", "@)
        },
        VerificationStatus::Timeout => "Timeout"@,
        VerificationStatus::Error(m) => "Error: "@ + m@,
    }
}

impl VerificationStatus {
    /// The status as shown to users: failure reasons are listed after
    /// `Failed: `, separated by commas.
    pub fn to_string(&self) -> (r: String)
        ensures
            r@ == status_text(*self),
    {
        match self {
            VerificationStatus::Verified => String::from_str("Verified"),
            VerificationStatus::Unverified => String::from_str("Unverified"),
            VerificationStatus::Failed(reasons) => {
                if reasons.len() == 0 {
                    return String::from_str("Failed");
                }
                let mut r = String::from_str("Failed: ");
                let ghost start = r@;
                let ghost parts = string_views(reasons@);
                let mut i: usize = 0;
                while i < reasons.len()
                    invariant
                        i <= reasons.len(),
                        parts == string_views(reasons@),
                        r@ == start + joined_with(parts.take(i as int), ", "@),
                    decreases reasons.len() - i,
                {
                    if i > 0 {
                        r.append(", ");
                    }
                    r.append(reasons[i].as_str());
                    assert(parts.take(i + 1).drop_last() =~= parts.take(i as int));
                    assert(parts.take(i + 1).last() == reasons@[i as int]@);
                    i = i + 1;
                }
                assert(parts.take(reasons.len() as int) =~= parts);
                r
            },
            VerificationStatus::Timeout => String::from_str("Timeout"),
            VerificationStatus::Error(m) => {
                let mut r = String::from_str("Error: ");
                r.append(m.as_str());
                r
            },
        }
    }
}

} // verus!
