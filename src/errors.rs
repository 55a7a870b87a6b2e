//! Error types.
use vstd::prelude::*;
use vstd::string::*;

verus! {

/// Errors of the pipeline.
#[derive(Debug, Clone)]
pub enum AxiomError {
    SpecificationError(String),
    ImplementationError(String),
    VerificationError(String),
    SystemError(String),
    ExternalToolError { tool: String, message: String },
    InvalidInput(String),
    SpecTranslationError(String),
    FormalLanguageError { language: String, message: String },
    FormalTypeError(String),
    ProofError(String),
    LanguageCompatibilityError { source_lang: String, target_lang: String },
    RequirementParsingError(String),
    AmbiguousRequirementError { requirement: String, interpretations: Vec<String> },
    InconsistentSpecificationError(String),
    MissingDependenciesError(String),
    VerificationToolIntegrationError { tool: String, reason: String },
}

/// Severity of an error report.
#[derive(Debug, Clone, Copy, PartialEq, Eq, Structural)]
pub enum ErrorSeverity {
    Fatal,
    Error,
    Warning,
    Info,
}

/// Context for reporting an error.
#[derive(Debug, Clone)]
pub struct ErrorContext {
    pub source_location: Option<String>,
    pub related_requirement: Option<String>,
    pub stack_trace: Vec<String>,
    pub suggestion: Option<String>,
    pub severity: ErrorSeverity,
}

/// Errors met while talking to the model service or preparing its input.
#[derive(Debug, Clone)]
pub enum SpecGenError {
    /// The service answered without content.
    ApiError(String),
    /// No credential is available for any provider.
    CredentialMissing(String),
    /// The configuration is unusable.
    ConfigError(String),
    /// The answer is not JSON or lacks the expected content.
    ParseError(String),
    /// A prompt template is missing.
    TemplateError(String),
    ValidationError(String),
    /// The request did not reach the service or timed out.
    NetworkError(String),
    /// The service answered with a non-success status.
    HttpError { status: u16, message: String },
}

pub open spec fn error_message(e: SpecGenError) -> Seq<char> {
    match e {
        SpecGenError::ApiError(m) => m@,
        SpecGenError::CredentialMissing(m) => m@,
        SpecGenError::ConfigError(m) => m@,
        SpecGenError::ParseError(m) => m@,
        SpecGenError::TemplateError(m) => m@,
        SpecGenError::ValidationError(m) => m@,
        SpecGenError::NetworkError(m) => m@,
        SpecGenError::HttpError { message, .. } => message@,
    }
}

/// The pipeline error that a service error becomes.
pub fn to_axiom_error(err: SpecGenError) -> (r: AxiomError)
    ensures
        (err is ApiError || err is CredentialMissing) ==> (r matches AxiomError::ExternalToolError { tool, message } && tool@
            == "LLM API"@ && message@ == error_message(err)),
        err is NetworkError ==> (r matches AxiomError::ExternalToolError { tool, message } && tool@
            == "Network"@ && message@ == error_message(err)),
        err matches SpecGenError::HttpError { status, message } ==> (
        r matches AxiomError::ExternalToolError { tool, message: m } && tool@ == "HTTP"@ && m@
            == "Status "@ + crate::parser::decimal(status as nat) + ": "@ + message@),
        err is ConfigError ==> (r matches AxiomError::SystemError(m) && m@ == error_message(err)),
        (err is ParseError || err is TemplateError) ==> (r matches AxiomError::SpecTranslationError(
            m,
        ) && m@ == error_message(err)),
        err is ValidationError ==> (r matches AxiomError::SpecificationError(m) && m@
            == error_message(err)),
{
    match err {
        SpecGenError::ApiError(msg) => AxiomError::ExternalToolError {
            tool: String::from_str("LLM API"),
            message: msg,
        },
        SpecGenError::CredentialMissing(msg) => AxiomError::ExternalToolError {
            tool: String::from_str("LLM API"),
            message: msg,
        },
        SpecGenError::ConfigError(msg) => AxiomError::SystemError(msg),
        SpecGenError::ParseError(msg) => AxiomError::SpecTranslationError(msg),
        SpecGenError::TemplateError(msg) => AxiomError::SpecTranslationError(msg),
        SpecGenError::ValidationError(msg) => AxiomError::SpecificationError(msg),
        SpecGenError::NetworkError(msg) => AxiomError::ExternalToolError {
            tool: String::from_str("Network"),
            message: msg,
        },
        SpecGenError::HttpError { status, message } => {
            let mut m = String::from_str("Status ");
            let digits = crate::text::string_of(&crate::parser::decimal_chars(status as u128));
            m.append(digits.as_str());
            m.append(": ");
            m.append(message.as_str());
            AxiomError::ExternalToolError { tool: String::from_str("HTTP"), message: m }
        },
    }
}

} // verus!
