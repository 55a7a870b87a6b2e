//! Reading user choices (notation, domain, review depth) from names.
use vstd::prelude::*;
use vstd::string::*;
use crate::errors::AxiomError;
use crate::models::{Domain, ValidationDepth, VerificationLanguage};
use crate::parser::chars_eq;
use crate::text::{chars_of, lower_of, lowercase};

verus! {

/// Whether text `a` is the literal `lit`.
fn is_text(a: &Vec<char>, lit: &str) -> (r: bool)
    ensures
        r == (a@ == lit@),
{
    chars_eq(a, &chars_of(lit))
}

/// The notation that a lower-case name stands for.
pub open spec fn language_named(n: Seq<char>) -> Option<VerificationLanguage> {
    if n == "fstar"@ {
        Some(VerificationLanguage::FStarLang)
    } else if n == "dafny"@ {
        Some(VerificationLanguage::DafnyLang)
    } else if n == "coq"@ {
        Some(VerificationLanguage::CoqLang)
    } else if n == "isabelle"@ {
        Some(VerificationLanguage::IsabelleLang)
    } else if n == "lean"@ {
        Some(VerificationLanguage::LeanLang)
    } else if n == "tla"@ || n == "tlaplus"@ {
        Some(VerificationLanguage::TLAPlus)
    } else if n == "why3"@ {
        Some(VerificationLanguage::Why3Lang)
    } else if n == "z3"@ || n == "smt"@ {
        Some(VerificationLanguage::Z3SMT)
    } else if n == "acsl"@ {
        Some(VerificationLanguage::ACSL)
    } else if n == "jml"@ {
        Some(VerificationLanguage::JML)
    } else if n == "liquid"@ {
        Some(VerificationLanguage::Liquid)
    } else if n == "mirai"@ {
        Some(VerificationLanguage::RustMIRAI)
    } else {
        None
    }
}

/// The notation that a lower-case name stands for.
pub fn verification_language_named(lowered: &str) -> (r: Option<VerificationLanguage>)
    ensures
        r == language_named(lowered@),
{
    let n = chars_of(lowered);
    if is_text(&n, "fstar") {
        Some(VerificationLanguage::FStarLang)
    } else if is_text(&n, "dafny") {
        Some(VerificationLanguage::DafnyLang)
    } else if is_text(&n, "coq") {
        Some(VerificationLanguage::CoqLang)
    } else if is_text(&n, "isabelle") {
        Some(VerificationLanguage::IsabelleLang)
    } else if is_text(&n, "lean") {
        Some(VerificationLanguage::LeanLang)
    } else if is_text(&n, "tla") || is_text(&n, "tlaplus") {
        Some(VerificationLanguage::TLAPlus)
    } else if is_text(&n, "why3") {
        Some(VerificationLanguage::Why3Lang)
    } else if is_text(&n, "z3") || is_text(&n, "smt") {
        Some(VerificationLanguage::Z3SMT)
    } else if is_text(&n, "acsl") {
        Some(VerificationLanguage::ACSL)
    } else if is_text(&n, "jml") {
        Some(VerificationLanguage::JML)
    } else if is_text(&n, "liquid") {
        Some(VerificationLanguage::Liquid)
    } else if is_text(&n, "mirai") {
        Some(VerificationLanguage::RustMIRAI)
    } else {
        None
    }
}

/// Reads a notation name, in any case; an unknown name is rejected as
/// invalid input.
pub fn parse_verification_language(language_str: &str) -> (r: Result<VerificationLanguage, AxiomError>)
    ensures
        r matches Ok(l) ==> language_named(lower_of(language_str@)) == Some(l),
        r is Err <==> language_named(lower_of(language_str@)) is None,
        r matches Err(e) ==> (e matches AxiomError::InvalidInput(m) && m@
            == "Unsupported verification language: "@ + language_str@),
{
    let lowered = lowercase(language_str);
    match verification_language_named(lowered.as_str()) {
        Some(l) => Ok(l),
        None => {
            let mut m = String::from_str("Unsupported verification language: ");
            m.append(language_str);
            Err(AxiomError::InvalidInput(m))
        },
    }
}

/// The domain that a lower-case name stands for; `None` for a custom one.
pub open spec fn domain_named(n: Seq<char>) -> Option<Domain> {
    if n == "crypto"@ || n == "cryptography"@ {
        Some(Domain::Cryptography)
    } else if n == "distributed"@ || n == "distributedsystems"@ {
        Some(Domain::DistributedSystems)
    } else if n == "web"@ || n == "websecurity"@ {
        Some(Domain::WebSecurity)
    } else if n == "ml"@ || n == "machinelearning"@ {
        Some(Domain::MachineLearning)
    } else if n == "systems"@ || n == "systemssoftware"@ {
        Some(Domain::SystemsSoftware)
    } else if n == "blockchain"@ {
        Some(Domain::Blockchain)
    } else if n == "safety"@ || n == "safetycontrol"@ {
        Some(Domain::SafetyControl)
    } else if n == "highassurance"@ {
        Some(Domain::HighAssuranceSoftware)
    } else {
        None
    }
}

/// The domain that a name stands for, given the name in lower case; an
/// unknown name becomes a custom domain that keeps the name as given.
pub fn domain_from_names(lowered: &str, original: &str) -> (r: Domain)
    ensures
        domain_named(lowered@) matches Some(d) ==> r == d,
        domain_named(lowered@) is None ==> (r matches Domain::Custom(c) && c@ == original@),
{
    let n = chars_of(lowered);
    if is_text(&n, "crypto") || is_text(&n, "cryptography") {
        Domain::Cryptography
    } else if is_text(&n, "distributed") || is_text(&n, "distributedsystems") {
        Domain::DistributedSystems
    } else if is_text(&n, "web") || is_text(&n, "websecurity") {
        Domain::WebSecurity
    } else if is_text(&n, "ml") || is_text(&n, "machinelearning") {
        Domain::MachineLearning
    } else if is_text(&n, "systems") || is_text(&n, "systemssoftware") {
        Domain::SystemsSoftware
    } else if is_text(&n, "blockchain") {
        Domain::Blockchain
    } else if is_text(&n, "safety") || is_text(&n, "safetycontrol") {
        Domain::SafetyControl
    } else if is_text(&n, "highassurance") {
        Domain::HighAssuranceSoftware
    } else {
        Domain::Custom(String::from_str(original))
    }
}

/// Reads a domain name, in any case; an unknown name becomes a custom
/// domain. It never fails.
pub fn parse_domain(domain_str: &str) -> (r: Result<Domain, AxiomError>)
    ensures
        r is Ok,
        domain_named(lower_of(domain_str@)) matches Some(d) ==> r == Ok::<Domain, AxiomError>(d),
        domain_named(lower_of(domain_str@)) is None ==> (r matches Ok(Domain::Custom(c)) && c@
            == domain_str@),
{
    let lowered = lowercase(domain_str);
    Ok(domain_from_names(lowered.as_str(), domain_str))
}

/// The review depth that a lower-case name stands for.
pub open spec fn depth_named(n: Seq<char>) -> Option<ValidationDepth> {
    if n == "basic"@ {
        Some(ValidationDepth::Basic)
    } else if n == "typecheck"@ {
        Some(ValidationDepth::TypeCheck)
    } else if n == "formal"@ {
        Some(ValidationDepth::FormalVerification)
    } else {
        None
    }
}

/// The review depth that a lower-case name stands for.
pub fn validation_depth_named(lowered: &str) -> (r: Option<ValidationDepth>)
    ensures
        r == depth_named(lowered@),
{
    let n = chars_of(lowered);
    if is_text(&n, "basic") {
        Some(ValidationDepth::Basic)
    } else if is_text(&n, "typecheck") {
        Some(ValidationDepth::TypeCheck)
    } else if is_text(&n, "formal") {
        Some(ValidationDepth::FormalVerification)
    } else {
        None
    }
}

/// Reads a review depth name, in any case; an unknown name is rejected as
/// invalid input.
pub fn parse_validation_depth(depth_str: &str) -> (r: Result<ValidationDepth, AxiomError>)
    ensures
        r matches Ok(d) ==> depth_named(lower_of(depth_str@)) == Some(d),
        r is Err <==> depth_named(lower_of(depth_str@)) is None,
        r matches Err(e) ==> (e matches AxiomError::InvalidInput(m) && m@
            == "Unsupported validation depth: "@ + depth_str@),
{
    let lowered = lowercase(depth_str);
    match validation_depth_named(lowered.as_str()) {
        Some(d) => Ok(d),
        None => {
            let mut m = String::from_str("Unsupported validation depth: ");
            m.append(depth_str);
            Err(AxiomError::InvalidInput(m))
        },
    }
}

} // verus!
