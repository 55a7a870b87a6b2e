//! System-level settings and the interfaces that users implement.
use vstd::prelude::*;
use crate::errors::AxiomError;
use crate::models::{
    Domain, FormalSpecification, ImplementationOptions, Language, Property, ResourceLimits,
    SpecificationOptions, VerificationLanguage, VerificationOptions, VerificationSystem,
};

verus! {

/// Settings of external verification tools; the timeout in seconds.
#[derive(Debug, Clone)]
pub struct ExternalToolsConfig {
    pub tool_paths: Vec<(String, String)>,
    pub timeout_secs: u64,
}

/// Configuration of the whole system.
#[derive(Debug, Clone)]
pub struct AxiomConfig {
    pub verification_system: VerificationSystem,
    pub target_languages: Vec<Language>,
    pub resource_limits: ResourceLimits,
    pub external_tools_config: ExternalToolsConfig,
}

/// Options for one run of the whole pipeline.
#[derive(Debug, Clone)]
pub struct AxiomOptions {
    pub specification_options: SpecificationOptions,
    pub implementation_options: ImplementationOptions,
    pub verification_options: VerificationOptions,
}

/// Errors that say whether and how they can be recovered from.
pub trait RecoverableError {
    fn is_recoverable(&self) -> bool;

    fn recovery_strategy(&self) -> Option<String>;
}

/// Adapts language-independent properties to one implementation language.
pub trait LanguageAdapter {
    fn language(&self) -> Language;

    fn convert_properties(&self, properties: &Vec<Property>) -> Result<String, AxiomError>;

    fn generate_tests(&self, properties: &Vec<Property>) -> Result<String, AxiomError>;

    fn validate_source(&self, source: &str) -> Result<bool, AxiomError>;
}

/// Integration with the tools of one verification language.
pub trait VerificationLanguageIntegration {
    fn supported_language(&self) -> VerificationLanguage;

    fn validate_syntax(&self, code: &str) -> Result<bool, AxiomError>;

    fn type_check(&self, spec: &FormalSpecification) -> Result<bool, AxiomError>;

    fn compile_specification(&self, spec: &FormalSpecification) -> Result<Vec<u8>, AxiomError>;

    fn generate_preamble(&self, domain: Domain) -> Result<String, AxiomError>;

    fn property_to_syntax(&self, property: &Property) -> Result<String, AxiomError>;
}

} // verus!
