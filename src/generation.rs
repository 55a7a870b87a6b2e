//! Building prompts for generation and turning answers into specification
//! values.
use vstd::prelude::*;
use vstd::string::*;
use crate::errors::{ErrorContext, ErrorSeverity, SpecGenError};
use crate::models::{
    copy_strings, domain_label, is_system_for, language_label, string_views, system_for_language,
    Domain, Specification, SpecificationMetadata, VerificationLanguage,
    VerificationSystem,
};
use crate::parser::{
    decimal, decimal_chars, dependencies_of, extracted_code, pair_views, parse_formal_specification,
};
use crate::prompts::{domain_context, domain_context_text, domain_key, render_result, render_template, GeneratorConfig};
use crate::repair::{fstar_guidelines, join};
use crate::text::{
    extend_chars, chars_of, contains, contains_chars, find, find_from, find_from_chars, lines_of, lower_of, lowercase, occurs_at,
    slice_chars, split_lines, starts_with, starts_with_chars, string_of, strip_prefix_all,
    strip_prefix_all_chars, trim, trim_chars, views,
};

verus! {

/// The texts of `v` joined with `sep` between neighbours.
fn joined(v: &Vec<String>, sep: &str) -> (r: String)
    ensures
        r@ == join(string_views(v@), sep@),
{
    let mut r = String::new();
    let mut i: usize = 0;
    while i < v.len()
        invariant
            i <= v.len(),
            r@ == join(string_views(v@).take(i as int), sep@),
        decreases v.len() - i,
    {
        if i > 0 {
            r.append(sep);
        }
        r.append(v[i].as_str());
        assert(string_views(v@).take(i + 1).drop_last() =~= string_views(v@).take(i as int));
        assert(string_views(v@).take(i + 1).last() == v@[i as int]@);
        i = i + 1;
    }
    assert(string_views(v@).take(v.len() as int) =~= string_views(v@));
    r
}

/// The style guidance given for a notation: the F* guidelines for F*,
/// none for the others.
pub open spec fn guidelines_for(l: VerificationLanguage) -> Seq<char> {
    match l {
        VerificationLanguage::FStarLang => fstar_guidelines(),
        _ => Seq::empty(),
    }
}

/// The parameters of the generation template.
pub open spec fn generation_params(requirements: Seq<Seq<char>>, d: Domain, l: VerificationLanguage) -> crate::parser::Table {
    seq![
        ("domain"@, domain_label(d)),
        ("verification_language"@, language_label(l)),
        ("requirements"@, join(requirements, "\n"@)),
        ("domain_context"@, domain_context_text(domain_key(d))),
        ("language_guidelines"@, guidelines_for(l)),
    ]
}

/// The prompt that asks the model for a specification of `requirements`:
/// the `specification` template rendered with the domain, notation,
/// requirements (one per line), domain guidance and style guidance.
pub fn generation_prompt(
    config: &GeneratorConfig,
    requirements: &Vec<String>,
    domain: &Domain,
    language: &VerificationLanguage,
) -> (r: Result<String, SpecGenError>)
    ensures
        r matches Ok(p) ==> render_result(
            pair_views(config.prompt_templates@),
            "specification"@,
            generation_params(string_views(requirements@), *domain, *language),
        ) == Some(p@),
        r is Err <==> render_result(
            pair_views(config.prompt_templates@),
            "specification"@,
            generation_params(string_views(requirements@), *domain, *language),
        ) is None,
{
    let guidelines = match language {
        VerificationLanguage::FStarLang => String::from_str(crate::repair::fstar_guidelines_text()),
        _ => String::new(),
    };
    let mut params: Vec<(String, String)> = Vec::new();
    params.push((String::from_str("domain"), domain.to_string()));
    params.push((String::from_str("verification_language"), language.to_string()));
    params.push((String::from_str("requirements"), joined(requirements, "\n")));
    params.push((String::from_str("domain_context"), domain_context(domain)));
    params.push((String::from_str("language_guidelines"), guidelines));
    assert(pair_views(params@) =~= generation_params(string_views(requirements@), *domain, *language));
    render_template(config, "specification", &params)
}

/// A time stamp `t` written in decimal, with a sign when negative.
pub open spec fn signed_decimal(t: int) -> Seq<char> {
    if t < 0 {
        "-"@ + decimal((-t) as nat)
    } else {
        decimal(t as nat)
    }
}

fn signed_decimal_string(t: i64) -> (r: String)
    ensures
        r@ == signed_decimal(t as int),
{
    if t < 0 {
        let mut r = String::from_str("-");
        let m: u128 = ((0i128 - t as i128) as u128);
        let d = string_of(&decimal_chars(m));
        r.append(d.as_str());
        r
    } else {
        string_of(&decimal_chars(t as u128))
    }
}

/// The specification that a generation answer gives: id `spec_<time>`,
/// the requirements, no properties, the artifact parsed from the answer,
/// the notation's system, confidence 0.9 and not formally validated.
pub fn build_specification(
    requirements: &Vec<String>,
    domain: Domain,
    language: VerificationLanguage,
    answer: &str,
    now_secs: i64,
) -> (r: Specification)
    ensures
        r.id@ == "spec_"@ + signed_decimal(now_secs as int),
        string_views(r.source_requirements@) == string_views(requirements@),
        r.formal_properties@.len() == 0,
        r.formal_spec.verification_language == language,
        r.formal_spec.spec_code@ == extracted_code(answer@),
        crate::parser::pair_views(r.formal_spec.components@) == crate::parser::components_of(answer@),
        string_views(r.formal_spec.dependencies@) == dependencies_of(r.formal_spec.spec_code@, language),
        is_system_for(language, r.metadata.verification_system),
        r.metadata.domain == domain,
        r.metadata.created_at == now_secs,
        r.metadata.confidence_permille == 900,
        !r.metadata.is_formally_validated,
{
    let mut id = String::from_str("spec_");
    let stamp = signed_decimal_string(now_secs);
    id.append(stamp.as_str());
    let system = system_for_language(&language);
    let formal_spec = parse_formal_specification(answer, language);
    Specification {
        id,
        source_requirements: copy_strings(requirements),
        formal_properties: Vec::new(),
        formal_spec,
        metadata: SpecificationMetadata {
            created_at: now_secs,
            verification_system: system,
            domain,
            confidence_permille: 900,
            is_formally_validated: false,
        },
    }
}

/// The index of a notation among the fixed ones; custom ones share one.
pub open spec fn notation_index(l: VerificationLanguage) -> nat {
    match l {
        VerificationLanguage::FStarLang => 0,
        VerificationLanguage::DafnyLang => 1,
        VerificationLanguage::CoqLang => 2,
        VerificationLanguage::IsabelleLang => 3,
        VerificationLanguage::LeanLang => 4,
        VerificationLanguage::TLAPlus => 5,
        VerificationLanguage::Why3Lang => 6,
        VerificationLanguage::Z3SMT => 7,
        VerificationLanguage::ACSL => 8,
        VerificationLanguage::JML => 9,
        VerificationLanguage::Liquid => 10,
        VerificationLanguage::RustMIRAI => 11,
        VerificationLanguage::Custom(_) => 12,
    }
}

/// Whether two notations are the same one (custom ones by name).
pub open spec fn same_notation(a: VerificationLanguage, b: VerificationLanguage) -> bool {
    notation_index(a) == notation_index(b) && (notation_index(a) == 12 ==> language_label(a)
        == language_label(b))
}

fn notation_number(l: &VerificationLanguage) -> (r: u8)
    ensures
        r as nat == notation_index(*l),
{
    match l {
        VerificationLanguage::FStarLang => 0,
        VerificationLanguage::DafnyLang => 1,
        VerificationLanguage::CoqLang => 2,
        VerificationLanguage::IsabelleLang => 3,
        VerificationLanguage::LeanLang => 4,
        VerificationLanguage::TLAPlus => 5,
        VerificationLanguage::Why3Lang => 6,
        VerificationLanguage::Z3SMT => 7,
        VerificationLanguage::ACSL => 8,
        VerificationLanguage::JML => 9,
        VerificationLanguage::Liquid => 10,
        VerificationLanguage::RustMIRAI => 11,
        VerificationLanguage::Custom(_) => 12,
    }
}

/// Whether a specification in `from` must be translated to reach `to`.
pub fn translation_needed(from: &VerificationLanguage, to: &VerificationLanguage) -> (r: bool)
    ensures
        r == !same_notation(*from, *to),
{
    let a = notation_number(from);
    let b = notation_number(to);
    if a != b {
        return true;
    }
    if a == 12 {
        let x = from.to_string();
        let y = to.to_string();
        return !crate::parser::chars_eq(&chars_of(x.as_str()), &chars_of(y.as_str()));
    }
    false
}

/// The prompt that asks for a refinement of `spec` addressing `feedback`.
pub open spec fn refinement_prompt_text(label: Seq<char>, code: Seq<char>, feedback: Seq<char>) -> Seq<char> {
    "You are a formal verification expert. You need to refine a formal specification based on feedback.\n\nOriginal specification in "@
        + label + ":\n```\n"@ + code + "\n```\n\nFeedback to address:\n"@ + feedback
        + "\n\nPlease provide a revised specification that addresses the feedback while maintaining all the original requirements. Include all necessary types, functions, and properties."@
}

pub fn refinement_prompt(spec: &Specification, feedback: &str) -> (r: String)
    ensures
        r@ == refinement_prompt_text(
            language_label(spec.formal_spec.verification_language),
            spec.formal_spec.spec_code@,
            feedback@,
        ),
{
    let mut r = String::from_str("You are a formal verification expert. You need to refine a formal specification based on feedback.\n\nOriginal specification in ");
    let label = spec.formal_spec.verification_language.to_string();
    r.append(label.as_str());
    r.append(":\n```\n");
    r.append(spec.formal_spec.spec_code.as_str());
    r.append("\n```\n\nFeedback to address:\n");
    r.append(feedback);
    r.append("\n\nPlease provide a revised specification that addresses the feedback while maintaining all the original requirements. Include all necessary types, functions, and properties.");
    r
}

/// The prompt that asks for a translation of `spec` into notation `to`.
pub open spec fn translation_prompt_text(from: Seq<char>, to: Seq<char>, code: Seq<char>) -> Seq<char> {
    "You are a formal verification expert. Translate this "@ + from + " specification to "@ + to
        + ":\n\n```\n"@ + code
        + "\n```\n\nEnsure that all properties and semantics are preserved in the translation. Format your response as a valid "@
        + to + " specification."@
}

pub fn translation_prompt(spec: &Specification, target: &VerificationLanguage) -> (r: String)
    ensures
        r@ == translation_prompt_text(
            language_label(spec.formal_spec.verification_language),
            language_label(*target),
            spec.formal_spec.spec_code@,
        ),
{
    let from = spec.formal_spec.verification_language.to_string();
    let to = target.to_string();
    let mut r = String::from_str("You are a formal verification expert. Translate this ");
    r.append(from.as_str());
    r.append(" specification to ");
    r.append(to.as_str());
    r.append(":\n\n```\n");
    r.append(spec.formal_spec.spec_code.as_str());
    r.append("\n```\n\nEnsure that all properties and semantics are preserved in the translation. Format your response as a valid ");
    r.append(to.as_str());
    r.append(" specification.");
    r
}

/// Confidence after a translation: nine tenths, rounded down.
pub open spec fn damped(c: nat) -> nat {
    c * 9 / 10
}

/// A new specification from a refinement answer: id with `_refined`,
/// same requirements, properties, system, domain and confidence, the
/// artifact parsed from the answer in the same notation, created at
/// `now_secs`, not formally validated.
pub fn refined_specification(spec: Specification, answer: &str, now_secs: i64) -> (r: Specification)
    ensures
        r.id@ == spec.id@ + "_refined"@,
        r.source_requirements == spec.source_requirements,
        r.formal_properties == spec.formal_properties,
        r.formal_spec.verification_language == spec.formal_spec.verification_language,
        r.formal_spec.spec_code@ == extracted_code(answer@),
        crate::parser::pair_views(r.formal_spec.components@) == crate::parser::components_of(answer@),
        string_views(r.formal_spec.dependencies@) == dependencies_of(
            r.formal_spec.spec_code@,
            spec.formal_spec.verification_language,
        ),
        r.metadata.verification_system == spec.metadata.verification_system,
        r.metadata.domain == spec.metadata.domain,
        r.metadata.confidence_permille == spec.metadata.confidence_permille,
        r.metadata.created_at == now_secs,
        !r.metadata.is_formally_validated,
{
    let Specification { id, source_requirements, formal_properties, formal_spec, metadata } = spec;
    let mut new_id = id;
    new_id.append("_refined");
    let parsed = parse_formal_specification(answer, formal_spec.verification_language);
    Specification {
        id: new_id,
        source_requirements,
        formal_properties,
        formal_spec: parsed,
        metadata: SpecificationMetadata {
            created_at: now_secs,
            verification_system: metadata.verification_system,
            domain: metadata.domain,
            confidence_permille: metadata.confidence_permille,
            is_formally_validated: false,
        },
    }
}

/// A new specification from a translation answer: id with `_translated`,
/// same requirements, properties and domain, the artifact parsed in the
/// target notation, the target's system, and the confidence damped.
pub fn translated_specification(
    spec: Specification,
    target: VerificationLanguage,
    answer: &str,
    now_secs: i64,
) -> (r: Specification)
    ensures
        r.id@ == spec.id@ + "_translated"@,
        r.source_requirements == spec.source_requirements,
        r.formal_properties == spec.formal_properties,
        r.formal_spec.verification_language == target,
        r.formal_spec.spec_code@ == extracted_code(answer@),
        crate::parser::pair_views(r.formal_spec.components@) == crate::parser::components_of(answer@),
        string_views(r.formal_spec.dependencies@) == dependencies_of(r.formal_spec.spec_code@, target),
        is_system_for(target, r.metadata.verification_system),
        r.metadata.domain == spec.metadata.domain,
        r.metadata.confidence_permille as nat == damped(spec.metadata.confidence_permille as nat),
        r.metadata.created_at == now_secs,
        !r.metadata.is_formally_validated,
{
    let Specification { id, source_requirements, formal_properties, formal_spec, metadata } = spec;
    let mut new_id = id;
    new_id.append("_translated");
    let system = system_for_language(&target);
    let parsed = parse_formal_specification(answer, target);
    let confidence = ((metadata.confidence_permille as u64) * 9 / 10) as u32;
    Specification {
        id: new_id,
        source_requirements,
        formal_properties,
        formal_spec: parsed,
        metadata: SpecificationMetadata {
            created_at: now_secs,
            verification_system: system,
            domain: metadata.domain,
            confidence_permille: confidence,
            is_formally_validated: false,
        },
    }
}

/// Confidence never grows along a chain of translations: after `n` of
/// them it is at most what it was, and a positive confidence strictly
/// drops with each one.
pub proof fn confidence_never_increases(c: nat, n: nat)
    ensures
        damped_times(c, n) <= c,
        n > 0 && c > 0 ==> damped_times(c, n) < c,
    decreases n,
{
    if n > 0 {
        confidence_never_increases(c, (n - 1) as nat);
        assert(damped(damped_times(c, (n - 1) as nat)) <= damped_times(c, (n - 1) as nat));
    }
}

/// Confidence after `n` translations.
pub open spec fn damped_times(c: nat, n: nat) -> nat
    decreases n,
{
    if n == 0 {
        c
    } else {
        damped(damped_times(c, (n - 1) as nat))
    }
}

/// The notation in which a system checks specifications; a custom system
/// keeps the current notation.
pub fn language_for_system(system: &VerificationSystem, current: VerificationLanguage) -> (r:
    VerificationLanguage)
    ensures
        system is Custom ==> r == current,
        !(system is Custom) ==> is_system_for(r, *system),
{
    match system {
        VerificationSystem::FStar => VerificationLanguage::FStarLang,
        VerificationSystem::Dafny => VerificationLanguage::DafnyLang,
        VerificationSystem::Coq => VerificationLanguage::CoqLang,
        VerificationSystem::Isabelle => VerificationLanguage::IsabelleLang,
        VerificationSystem::Lean => VerificationLanguage::LeanLang,
        VerificationSystem::TLA => VerificationLanguage::TLAPlus,
        VerificationSystem::Why3 => VerificationLanguage::Why3Lang,
        VerificationSystem::Z3 => VerificationLanguage::Z3SMT,
        VerificationSystem::Custom(_) => current,
    }
}

/// The prompt that asks for checkable verification code.
pub fn verification_code_prompt(language: &VerificationLanguage, system: &VerificationSystem, code: &str) -> (r: String)
    ensures
        r@ == "You are a formal verification expert. Generate executable verification code for this "@
            + language_label(*language) + " specification that can be used with "@
            + crate::models::system_label(*system) + ":\n\n```\n"@ + code@
            + "\n```\n\nAdd any necessary verification directives, proof scripts, or commands needed to verify this specification. The result should be a complete file that can be directly verified using the appropriate tool."@,
{
    let mut r = String::from_str("You are a formal verification expert. Generate executable verification code for this ");
    let l = language.to_string();
    r.append(l.as_str());
    r.append(" specification that can be used with ");
    let s = system.to_string();
    r.append(s.as_str());
    r.append(":\n\n```\n");
    r.append(code);
    r.append("\n```\n\nAdd any necessary verification directives, proof scripts, or commands needed to verify this specification. The result should be a complete file that can be directly verified using the appropriate tool.");
    r
}

/// The system recommended for a domain.
pub fn recommended_verification_system(domain: &Domain) -> (r: VerificationSystem)
    ensures
        domain is Cryptography ==> r is FStar,
        domain is DistributedSystems ==> r is TLA,
        domain is WebSecurity ==> r is Dafny,
        !(domain is Cryptography || domain is DistributedSystems || domain is WebSecurity) ==> r is FStar,
{
    match domain {
        Domain::Cryptography => VerificationSystem::FStar,
        Domain::DistributedSystems => VerificationSystem::TLA,
        Domain::WebSecurity => VerificationSystem::Dafny,
        _ => VerificationSystem::FStar,
    }
}

/// The file extension for specifications in a notation.
pub fn spec_file_extension(language: &VerificationLanguage) -> (r: &'static str)
    ensures
        r@ == match *language {
            VerificationLanguage::FStarLang => "fst"@,
            VerificationLanguage::DafnyLang => "dfy"@,
            VerificationLanguage::CoqLang => "v"@,
            VerificationLanguage::IsabelleLang => "thy"@,
            VerificationLanguage::LeanLang => "lean"@,
            VerificationLanguage::TLAPlus => "tla"@,
            VerificationLanguage::Why3Lang => "why"@,
            VerificationLanguage::Z3SMT => "smt2"@,
            _ => "txt"@,
        },
{
    match language {
        VerificationLanguage::FStarLang => "fst",
        VerificationLanguage::DafnyLang => "dfy",
        VerificationLanguage::CoqLang => "v",
        VerificationLanguage::IsabelleLang => "thy",
        VerificationLanguage::LeanLang => "lean",
        VerificationLanguage::TLAPlus => "tla",
        VerificationLanguage::Why3Lang => "why",
        VerificationLanguage::Z3SMT => "smt2",
        _ => "txt",
    }
}

/// The context reported for a specification error: a suggestion to check
/// syntax and structure, at `Error` severity.
pub fn get_error_context(error: &str, spec: &Specification) -> (r: ErrorContext)
    ensures
        r.severity == ErrorSeverity::Error,
        r.suggestion matches Some(s) && s@ == "Check the formal specification syntax and structure."@,
        r.source_location is None,
        r.related_requirement is None,
        r.stack_trace@.len() == 0,
{
    ErrorContext {
        source_location: None,
        related_requirement: None,
        stack_trace: Vec::new(),
        suggestion: Some(String::from_str("Check the formal specification syntax and structure.")),
        severity: ErrorSeverity::Error,
    }
}

/// Whether a lower-cased completeness answer states that the
/// specification is complete.
pub open spec fn completeness_holds(lowered: Seq<char>) -> bool {
    contains(lowered, "the specification is complete: true"@) || contains(
        lowered,
        "is the specification complete? true"@,
    )
}

/// The requirement that one answer line reports as not fully covered: on
/// a line that says `not covered` or `partially covered`, the trimmed text
/// after the first `- `.
pub open spec fn uncovered_in_line(l: Seq<char>) -> Seq<Seq<char>> {
    if (contains(l, "not covered"@) || contains(l, "partially covered"@)) && find(l, "- "@) is Some {
        seq![trim(l.subrange(find(l, "- "@)->Some_0 + 2, l.len() as int))]
    } else {
        Seq::empty()
    }
}

pub open spec fn uncovered_in_lines(ls: Seq<Seq<char>>) -> Seq<Seq<char>>
    decreases ls.len(),
{
    if ls.len() == 0 {
        Seq::empty()
    } else {
        uncovered_in_lines(ls.drop_last()) + uncovered_in_line(ls.last())
    }
}

/// The completeness verdict and the requirements reported as not fully
/// covered, where `lowered` is the answer in lower case.
pub fn completeness_from_answer(answer: &str, lowered: &str) -> (r: (bool, Vec<String>))
    ensures
        r.0 == completeness_holds(lowered@),
        string_views(r.1@) == uncovered_in_lines(lines_of(answer@)),
{
    let low = chars_of(lowered);
    let complete = contains_chars(&low, &chars_of("the specification is complete: true"))
        || contains_chars(&low, &chars_of("is the specification complete? true"));
    let text = chars_of(answer);
    let lines = split_lines(&text);
    let dash = chars_of("- ");
    proof {
        reveal_strlit("- ");
    }
    let not_covered = chars_of("not covered");
    let partially = chars_of("partially covered");
    let mut missing: Vec<String> = Vec::new();
    let mut i: usize = 0;
    assert(string_views(missing@) =~= Seq::<Seq<char>>::empty());
    while i < lines.len()
        invariant
            i <= lines.len(),
            views(lines@) == lines_of(answer@),
            dash@ == "- "@,
            dash@.len() == 2,
            not_covered@ == "not covered"@,
            partially@ == "partially covered"@,
            string_views(missing@) == uncovered_in_lines(views(lines@).take(i as int)),
        decreases lines.len() - i,
    {
        assert(views(lines@).take(i + 1).drop_last() == views(lines@).take(i as int));
        assert(views(lines@).take(i + 1).last() == lines@[i as int]@);
        let l = &lines[i];
        let ghost before = string_views(missing@);
        if contains_chars(l, &not_covered) || contains_chars(l, &partially) {
            match find_from_chars(l, &dash, 0) {
                Some(st) => {
                    assert(occurs_at(l@, dash@, st as int));
                    assert(st + dash@.len() <= l@.len());
                    assert(st + 2 <= l.len());
                    let req = trim_chars(&slice_chars(l, st + 2, l.len()));
                    missing.push(string_of(&req));
                    assert(string_views(missing@) =~= before + uncovered_in_line(l@));
                },
                None => {
                    assert(uncovered_in_line(l@) =~= Seq::<Seq<char>>::empty());
                    assert(string_views(missing@) =~= before + uncovered_in_line(l@));
                },
            }
        } else {
            assert(string_views(missing@) =~= before + uncovered_in_line(l@));
        }
        i = i + 1;
    }
    assert(views(lines@).take(lines.len() as int) == views(lines@));
    (complete, missing)
}

/// The completeness verdict of an answer, read in lower case, and the
/// requirements it reports as not fully covered.
pub fn completeness_of_answer(answer: &str) -> (r: (bool, Vec<String>))
    ensures
        r.0 == completeness_holds(lower_of(answer@)),
        string_views(r.1@) == uncovered_in_lines(lines_of(answer@)),
{
    let lowered = lowercase(answer);
    completeness_from_answer(answer, lowered.as_str())
}

/// The prompt that asks whether `spec` covers `requirements`.
pub fn completeness_prompt(spec: &Specification, requirements: &Vec<String>) -> (r: String)
    ensures
        r@ == "You are a formal verification expert. Check if this "@ + language_label(
            spec.formal_spec.verification_language,
        ) + " specification completely covers all requirements:\n\nSpecification:\n```\n"@
            + spec.formal_spec.spec_code@ + "\n```\n\nRequirements:\n"@ + join(
            bullets(string_views(requirements@)),
            "\n"@,
        )
            + "\n\nFor each requirement, indicate whether it is fully covered, partially covered, or not covered by the specification. List any requirements that are not fully covered, explaining what aspects are missing. Finally, provide a boolean judgment: Is the specification complete (true/false)?"@,
{
    let mut r = String::from_str("You are a formal verification expert. Check if this ");
    let label = spec.formal_spec.verification_language.to_string();
    r.append(label.as_str());
    r.append(" specification completely covers all requirements:\n\nSpecification:\n```\n");
    r.append(spec.formal_spec.spec_code.as_str());
    r.append("\n```\n\nRequirements:\n");
    let list = bullet_list(requirements);
    r.append(list.as_str());
    r.append("\n\nFor each requirement, indicate whether it is fully covered, partially covered, or not covered by the specification. List any requirements that are not fully covered, explaining what aspects are missing. Finally, provide a boolean judgment: Is the specification complete (true/false)?");
    r
}

/// Each text as a `- ` bullet.
pub open spec fn bullets(v: Seq<Seq<char>>) -> Seq<Seq<char>> {
    Seq::new(v.len(), |i: int| "- "@ + v[i])
}

fn bullet_list(v: &Vec<String>) -> (r: String)
    ensures
        r@ == join(bullets(string_views(v@)), "\n"@),
{
    let ghost parts = bullets(string_views(v@));
    let mut r = String::new();
    let mut i: usize = 0;
    while i < v.len()
        invariant
            i <= v.len(),
            parts == bullets(string_views(v@)),
            r@ == join(parts.take(i as int), "\n"@),
        decreases v.len() - i,
    {
        if i > 0 {
            r.append("\n");
        }
        r.append("- ");
        r.append(v[i].as_str());
        assert(parts.take(i + 1).drop_last() =~= parts.take(i as int));
        assert(parts.take(i + 1).last() == "- "@ + v@[i as int]@);
        i = i + 1;
    }
    assert(parts.take(v.len() as int) =~= parts);
    r
}

/// The scan for requirements in an import answer: whether a requirements
/// heading was seen, and the requirements so far.
pub open spec fn requirement_scan(ls: Seq<Seq<char>>) -> (bool, Seq<Seq<char>>)
    decreases ls.len(),
{
    if ls.len() == 0 {
        (false, Seq::empty())
    } else {
        let prev = requirement_scan(ls.drop_last());
        let l = ls.last();
        if contains(l, "Requirements:"@) || contains(l, "Requirement:"@) {
            (true, prev.1)
        } else if prev.0 && starts_with(l, "-"@) && trim(strip_prefix_all(l, "-"@)).len() > 0 {
            (true, prev.1.push(trim(strip_prefix_all(l, "-"@))))
        } else {
            prev
        }
    }
}

/// The requirements that an import answer lists: the `-` items after a
/// requirements heading, or a generic one where there are none.
pub open spec fn imported_requirements(answer: Seq<char>) -> Seq<Seq<char>> {
    let found = requirement_scan(lines_of(answer)).1;
    if found.len() == 0 {
        seq!["Imported specification requirements"@]
    } else {
        found
    }
}

/// The requirements that an import answer lists.
pub fn extract_imported_requirements(answer: &str) -> (r: Vec<String>)
    ensures
        string_views(r@) == imported_requirements(answer@),
{
    let text = chars_of(answer);
    let lines = split_lines(&text);
    let heading = chars_of("Requirements:");
    let heading1 = chars_of("Requirement:");
    let dash = chars_of("-");
    let mut seen = false;
    let mut reqs: Vec<String> = Vec::new();
    let mut i: usize = 0;
    assert(string_views(reqs@) =~= Seq::<Seq<char>>::empty());
    while i < lines.len()
        invariant
            i <= lines.len(),
            views(lines@) == lines_of(answer@),
            heading@ == "Requirements:"@,
            heading1@ == "Requirement:"@,
            dash@ == "-"@,
            (seen, string_views(reqs@)) == requirement_scan(views(lines@).take(i as int)),
        decreases lines.len() - i,
    {
        assert(views(lines@).take(i + 1).drop_last() == views(lines@).take(i as int));
        assert(views(lines@).take(i + 1).last() == lines@[i as int]@);
        let l = &lines[i];
        if contains_chars(l, &heading) || contains_chars(l, &heading1) {
            seen = true;
        } else if seen && starts_with_chars(l, &dash) {
            let req = trim_chars(&strip_prefix_all_chars(l, &dash));
            if req.len() > 0 {
                let ghost before = string_views(reqs@);
                reqs.push(string_of(&req));
                assert(string_views(reqs@) =~= before.push(req@));
            }
        }
        i = i + 1;
    }
    assert(views(lines@).take(lines.len() as int) == views(lines@));
    if reqs.len() == 0 {
        let mut d: Vec<String> = Vec::new();
        d.push(String::from_str("Imported specification requirements"));
        assert(string_views(d@) =~= seq!["Imported specification requirements"@]);
        return d;
    }
    reqs
}

/// The description of a specification in notation `label` with
/// requirements `reqs`, declared types `types` and functions `fns`.
pub open spec fn description_text(
    label: Seq<char>,
    reqs: Seq<Seq<char>>,
    types: Seq<Seq<char>>,
    fns: Seq<Seq<char>>,
) -> Seq<char> {
    "# Specification Overview\n\nThis is a "@ + label
        + " specification that addresses the following requirements:\n\n"@ + join(
        bullets(reqs),
        "\n"@,
    ) + "\n\n## Key Components\n\nThe specification includes "@ + decimal(types.len())
        + " types and "@ + decimal(fns.len()) + " functions/properties.\n\n"@ + (if types.len() > 0 {
        "### Types\n\n"@ + join(crate::repair::symbol_entries(types), "\n"@) + "\n\n"@
    } else {
        Seq::empty()
    }) + (if fns.len() > 0 {
        "### Functions and Properties\n\n"@ + join(crate::repair::symbol_entries(fns), "\n"@)
            + "\n"@
    } else {
        Seq::empty()
    }) + "This specification can be used as a basis for implementation and formal verification."@
}

/// A natural-language overview of a specification: its notation, its
/// requirements, and the types and functions that its code declares.
pub fn generate_description(spec: &Specification) -> (r: String)
    ensures
        r@ == description_text(
            language_label(spec.formal_spec.verification_language),
            string_views(spec.source_requirements@),
            crate::parser::types_of(spec.formal_spec.spec_code@, spec.formal_spec.verification_language),
            crate::parser::functions_of(
                spec.formal_spec.spec_code@,
                spec.formal_spec.verification_language,
            ),
        ),
{
    let language = &spec.formal_spec.verification_language;
    let code = spec.formal_spec.spec_code.as_str();
    let functions = crate::parser::extract_functions(code, language);
    let types = crate::parser::extract_types(code, language);
    let mut r = String::from_str("# Specification Overview\n\nThis is a ");
    let label = language.to_string();
    r.append(label.as_str());
    r.append(" specification that addresses the following requirements:\n\n");
    let reqs = bullet_list(&spec.source_requirements);
    r.append(reqs.as_str());
    r.append("\n\n## Key Components\n\nThe specification includes ");
    let tc = string_of(&decimal_chars(types.len() as u128));
    r.append(tc.as_str());
    r.append(" types and ");
    let fc = string_of(&decimal_chars(functions.len() as u128));
    r.append(fc.as_str());
    r.append(" functions/properties.\n\n");
    if types.len() > 0 {
        r.append("### Types\n\n");
        crate::repair::append_join_symbols(&mut r, &types);
        r.append("\n\n");
    }
    if functions.len() > 0 {
        r.append("### Functions and Properties\n\n");
        crate::repair::append_join_symbols(&mut r, &functions);
        r.append("\n");
    }
    r.append("This specification can be used as a basis for implementation and formal verification.");
    r
}

/// The specification that an import gives: id `import_<time>`, the
/// requirements listed in the model's answer, the artifact parsed from the
/// imported code, the notation's system, a custom `imported` domain and
/// confidence 0.8.
pub fn imported_specification(
    code: &str,
    language: VerificationLanguage,
    answer: &str,
    now_secs: i64,
) -> (r: Specification)
    ensures
        r.id@ == "import_"@ + signed_decimal(now_secs as int),
        string_views(r.source_requirements@) == imported_requirements(answer@),
        r.formal_properties@.len() == 0,
        r.formal_spec.verification_language == language,
        r.formal_spec.spec_code@ == extracted_code(code@),
        crate::parser::pair_views(r.formal_spec.components@) == crate::parser::components_of(code@),
        string_views(r.formal_spec.dependencies@) == dependencies_of(r.formal_spec.spec_code@, language),
        is_system_for(language, r.metadata.verification_system),
        r.metadata.domain matches Domain::Custom(d) && d@ == "imported"@,
        r.metadata.confidence_permille == 800,
        r.metadata.created_at == now_secs,
        !r.metadata.is_formally_validated,
{
    let mut id = String::from_str("import_");
    let stamp = signed_decimal_string(now_secs);
    id.append(stamp.as_str());
    let system = system_for_language(&language);
    let formal_spec = parse_formal_specification(code, language);
    Specification {
        id,
        source_requirements: extract_imported_requirements(answer),
        formal_properties: Vec::new(),
        formal_spec,
        metadata: SpecificationMetadata {
            created_at: now_secs,
            verification_system: system,
            domain: Domain::Custom(String::from_str("imported")),
            confidence_permille: 800,
            is_formally_validated: false,
        },
    }
}

/// `s` from position `i` split at each occurrence of a non-empty `sep`.
pub open spec fn split_from(s: Seq<char>, sep: Seq<char>, i: int) -> Seq<Seq<char>>
    decreases s.len() + 1 - i,
{
    if sep.len() > 0 && 0 <= i <= s.len() && find_from(s, sep, i) is Some && find_from(s, sep, i)->Some_0
        + sep.len() <= s.len() + 1 && find_from(s, sep, i)->Some_0 >= i {
        let j = find_from(s, sep, i)->Some_0;
        seq![s.subrange(i, j)] + split_from(s, sep, j + sep.len())
    } else if 0 <= i <= s.len() {
        seq![s.subrange(i, s.len() as int)]
    } else {
        Seq::empty()
    }
}

/// `l` without `p` in front, where it starts with `p`.
pub open spec fn strip_prefix_once(l: Seq<char>, p: Seq<char>) -> Seq<char> {
    if starts_with(l, p) {
        l.subrange(p.len() as int, l.len() as int)
    } else {
        l
    }
}

/// One property translation as the model wrote it; the confidence stays
/// text.
#[derive(Debug, Clone)]
pub struct TranslationText {
    pub requirement: String,
    pub interpreted_property: String,
    pub formal_representation: String,
    pub confidence_text: String,
}

pub open spec fn translation_model(t: TranslationText) -> (Seq<char>, Seq<char>, Seq<char>, Seq<char>) {
    (t.requirement@, t.interpreted_property@, t.formal_representation@, t.confidence_text@)
}

/// The translation that one answer section gives, if it has at least four
/// lines: the first four lines without their labels; a fourth line without
/// `Confidence: ` reads as `0.7`.
pub open spec fn section_translation(sec: Seq<char>) -> Option<(Seq<char>, Seq<char>, Seq<char>, Seq<char>)> {
    let ls = lines_of(sec);
    if sec.len() == 0 || ls.len() < 4 {
        None
    } else {
        Some((
            strip_prefix_once(ls[0], "Requirement: "@),
            strip_prefix_once(ls[1], "Formal property: "@),
            strip_prefix_once(ls[2], "Mathematical form: "@),
            trim(if starts_with(ls[3], "Confidence: "@) { strip_prefix_once(ls[3], "Confidence: "@) } else { "0.7"@ }),
        ))
    }
}

pub open spec fn sections_translations(secs: Seq<Seq<char>>) -> Seq<(Seq<char>, Seq<char>, Seq<char>, Seq<char>)>
    decreases secs.len(),
{
    if secs.len() == 0 {
        Seq::empty()
    } else {
        let prev = sections_translations(secs.drop_last());
        match section_translation(secs.last()) {
            Some(t) => prev.push(t),
            None => prev,
        }
    }
}

/// The property translations that an answer lists, one per blank-line
/// separated section.
pub open spec fn translations_of(answer: Seq<char>) -> Seq<(Seq<char>, Seq<char>, Seq<char>, Seq<char>)> {
    sections_translations(split_from(answer, "\n\n"@, 0))
}

fn strip_once(l: &Vec<char>, p: &str) -> (r: Vec<char>)
    ensures
        r@ == strip_prefix_once(l@, p@),
{
    let pc = chars_of(p);
    if starts_with_chars(l, &pc) {
        slice_chars(l, pc.len(), l.len())
    } else {
        slice_chars(l, 0, l.len())
    }
}

fn translation_of_section(sec: &Vec<char>) -> (r: Option<TranslationText>)
    ensures
        match r {
            Some(t) => section_translation(sec@) == Some(translation_model(t)),
            None => section_translation(sec@) is None,
        },
{
    let ls = split_lines(sec);
    if sec.len() == 0 || ls.len() < 4 {
        return None;
    }
    let requirement = strip_once(&ls[0], "Requirement: ");
    let property = strip_once(&ls[1], "Formal property: ");
    let formal = strip_once(&ls[2], "Mathematical form: ");
    let conf = if starts_with_chars(&ls[3], &chars_of("Confidence: ")) {
        strip_once(&ls[3], "Confidence: ")
    } else {
        chars_of("0.7")
    };
    let confidence = trim_chars(&conf);
    Some(TranslationText {
        requirement: string_of(&requirement),
        interpreted_property: string_of(&property),
        formal_representation: string_of(&formal),
        confidence_text: string_of(&confidence),
    })
}

pub open spec fn translation_models(v: Seq<TranslationText>) -> Seq<(Seq<char>, Seq<char>, Seq<char>, Seq<char>)> {
    Seq::new(v.len(), |i: int| translation_model(v[i]))
}

/// The property translations that an answer lists.
pub fn parse_translations(answer: &str) -> (r: Vec<TranslationText>)
    ensures
        translation_models(r@) == translations_of(answer@),
{
    let text = chars_of(answer);
    let sep = chars_of("\n\n");
    proof {
        reveal_strlit("\n\n");
    }
    let mut out: Vec<TranslationText> = Vec::new();
    let mut i: usize = 0;
    let ghost secs = split_from(text@, sep@, 0);
    let ghost done: Seq<Seq<char>> = Seq::empty();
    assert(translation_models(out@) =~= sections_translations(done));
    loop
        invariant
            i <= text.len(),
            text@ == answer@,
            sep@ == "\n\n"@,
            sep@.len() == 2,
            secs == split_from(text@, sep@, 0),
            secs == done + split_from(text@, sep@, i as int),
            translation_models(out@) == sections_translations(done),
        decreases text.len() + 1 - i,
    {
        let found = find_from_chars(&text, &sep, i);
        proof {
            crate::text::lemma_find_from_found(text@, sep@, i as int);
        }
        let (sec, next) = match found {
            Some(j) => {
                assert(occurs_at(text@, sep@, j as int));
                (slice_chars(&text, i, j), Some(j + 2))
            },
            None => (slice_chars(&text, i, text.len()), None),
        };
        let ghost rest = split_from(text@, sep@, i as int);
        assert(rest[0] == sec@);
        let ghost before = translation_models(out@);
        match translation_of_section(&sec) {
            Some(t) => {
                out.push(t);
                assert(translation_models(out@) =~= before.push(translation_model(t)));
            },
            None => {},
        }
        proof {
            assert(done.push(sec@).drop_last() =~= done);
            assert(done.push(sec@).last() == sec@);
            done = done.push(sec@);
        }
        match next {
            Some(n) => {
                assert(rest =~= seq![sec@] + split_from(text@, sep@, n as int));
                assert(secs =~= done + split_from(text@, sep@, n as int));
                i = n;
            },
            None => {
                assert(rest =~= seq![sec@]);
                assert(secs =~= done);
                return out;
            },
        }
    }
}

/// The non-empty trimmed lines of `t`, in order.
pub open spec fn trimmed_lines(ls: Seq<Seq<char>>) -> Seq<Seq<char>>
    decreases ls.len(),
{
    if ls.len() == 0 {
        Seq::empty()
    } else {
        let prev = trimmed_lines(ls.drop_last());
        if trim(ls.last()).len() > 0 {
            prev.push(trim(ls.last()))
        } else {
            prev
        }
    }
}

/// One template that a model answer describes, as text.
#[derive(Debug, Clone)]
pub struct TemplateText {
    pub name: String,
    pub code: String,
    pub placeholders: Vec<String>,
    pub documentation: String,
}

pub open spec fn template_model(t: TemplateText) -> (Seq<char>, Seq<char>, Seq<Seq<char>>, Seq<char>) {
    (t.name@, t.code@, string_views(t.placeholders@), t.documentation@)
}

pub open spec fn template_models(v: Seq<TemplateText>) -> Seq<(Seq<char>, Seq<char>, Seq<Seq<char>>, Seq<char>)> {
    Seq::new(v.len(), |i: int| template_model(v[i]))
}

/// The template that section `c` describes: its name (the rest of the
/// first line, after `Name:` in the first section), the trimmed text
/// between the first two fences, the non-empty lines between
/// `Placeholders:` and `Documentation:` (none where they come in the other
/// order), and the text after `Documentation:`.
pub open spec fn template_of(c: Seq<char>, first: bool) -> (Seq<char>, Seq<char>, Seq<Seq<char>>, Seq<char>) {
    let start: int = if first { 5 } else { 0 };
    let name_end = match find_from(c, "\n"@, start) {
        Some(e) => e,
        None => c.len() as int,
    };
    let code = match find(c, "```"@) {
        Some(s) => {
            let end = match find_from(c, "```"@, s + 3) {
                Some(e) => e,
                None => c.len() as int,
            };
            trim(c.subrange(s + 3, end))
        },
        None => "// Template code not found"@,
    };
    let placeholders = match (find(c, "Placeholders:"@), find(c, "Documentation:"@)) {
        (Some(p), Some(d)) => if p + 13 <= d {
            trimmed_lines(lines_of(c.subrange(p + 13, d)))
        } else {
            Seq::empty()
        },
        (Some(p), None) => trimmed_lines(lines_of(c.subrange(p + 13, c.len() as int))),
        _ => Seq::empty(),
    };
    let documentation = match find(c, "Documentation:"@) {
        Some(d) => trim(c.subrange(d + 14, c.len() as int)),
        None => "No documentation provided"@,
    };
    (trim(c.subrange(start, name_end)), code, placeholders, documentation)
}

/// The templates of answer sections `secs`, the first of them being the
/// answer's first section when `first` holds: a first section counts
/// only where it starts with `Name:`, and later ones get `Name:` back in
/// front.
pub open spec fn templates_of_sections(secs: Seq<Seq<char>>, first_index: bool) -> Seq<(Seq<char>, Seq<char>, Seq<Seq<char>>, Seq<char>)>
    decreases secs.len(),
{
    if secs.len() == 0 {
        Seq::empty()
    } else {
        let head = if first_index {
            if starts_with(secs[0], "Name:"@) {
                seq![template_of(secs[0], true)]
            } else {
                Seq::empty()
            }
        } else {
            seq![template_of("Name:"@ + secs[0], false)]
        };
        head + templates_of_sections(secs.drop_first(), false)
    }
}

/// The templates that a model answer describes.
pub open spec fn templates_of(answer: Seq<char>) -> Seq<(Seq<char>, Seq<char>, Seq<Seq<char>>, Seq<char>)> {
    templates_of_sections(split_from(answer, "\n\nName:"@, 0), true)
}

fn nonempty_trimmed_lines(c: &Vec<char>, lo: usize, hi: usize) -> (r: Vec<String>)
    requires
        lo <= hi <= c.len(),
    ensures
        string_views(r@) == trimmed_lines(lines_of(c@.subrange(lo as int, hi as int))),
{
    let part = slice_chars(c, lo, hi);
    let ls = split_lines(&part);
    let mut out: Vec<String> = Vec::new();
    let mut i: usize = 0;
    assert(string_views(out@) =~= Seq::<Seq<char>>::empty());
    while i < ls.len()
        invariant
            i <= ls.len(),
            views(ls@) == lines_of(part@),
            part@ == c@.subrange(lo as int, hi as int),
            string_views(out@) == trimmed_lines(views(ls@).take(i as int)),
        decreases ls.len() - i,
    {
        assert(views(ls@).take(i + 1).drop_last() == views(ls@).take(i as int));
        assert(views(ls@).take(i + 1).last() == ls@[i as int]@);
        let t = trim_chars(&ls[i]);
        if t.len() > 0 {
            let ghost before = string_views(out@);
            out.push(string_of(&t));
            assert(string_views(out@) =~= before.push(t@));
        }
        i = i + 1;
    }
    assert(views(ls@).take(ls.len() as int) == views(ls@));
    out
}

fn find_text(c: &Vec<char>, p: &str, from: usize) -> (r: Option<usize>)
    ensures
        r matches Some(i) ==> find_from(c@, p@, from as int) == Some(i as int) && from <= i && i
            + p@.len() <= c@.len(),
        r is None ==> find_from(c@, p@, from as int) is None,
{
    let pc = chars_of(p);
    let r = find_from_chars(c, &pc, from);
    proof {
        crate::text::lemma_find_from_found(c@, p@, from as int);
    }
    r
}

fn template_of_content(c: &Vec<char>, first: bool) -> (r: TemplateText)
    requires
        first ==> c@.len() >= 5,
    ensures
        template_model(r) == template_of(c@, first),
{
    proof {
        reveal_strlit("Name:");
        reveal_strlit("```");
        reveal_strlit("Placeholders:");
        reveal_strlit("Documentation:");
    }
    assert("```"@.len() == 3);
    assert("Placeholders:"@.len() == 13);
    assert("Documentation:"@.len() == 14);
    let start: usize = if first { 5 } else { 0 };
    let name_end = match find_text(c, "\n", start) {
        Some(e) => e,
        None => c.len(),
    };
    let name = trim_chars(&slice_chars(c, start, name_end));
    let ghost spec_t = template_of(c@, first);
    assert(name@ == spec_t.0);
    let fence_at = find_text(c, "```", 0);
    let code = match fence_at {
        Some(s) => {
            assert(s + "```"@.len() <= c@.len());
            assert(s + 3 <= c.len());
            let end = match find_text(c, "```", s + 3) {
                Some(e) => e,
                None => c.len(),
            };
            trim_chars(&slice_chars(c, s + 3, end))
        },
        None => chars_of("// Template code not found"),
    };
    assert(code@ == spec_t.1);
    let ph = find_text(c, "Placeholders:", 0);
    let doc = find_text(c, "Documentation:", 0);
    let placeholders = match (ph, doc) {
        (Some(p), Some(d)) => if p + 13 <= d {
            nonempty_trimmed_lines(c, p + 13, d)
        } else {
            let v: Vec<String> = Vec::new();
            assert(string_views(v@) =~= Seq::<Seq<char>>::empty());
            v
        },
        (Some(p), None) => {
            assert(p + "Placeholders:"@.len() <= c@.len());
            assert(p + 13 <= c.len());
            nonempty_trimmed_lines(c, p + 13, c.len())
        },
        _ => {
            let v: Vec<String> = Vec::new();
            assert(string_views(v@) =~= Seq::<Seq<char>>::empty());
            v
        },
    };
    assert(string_views(placeholders@) == spec_t.2);
    let documentation = match doc {
        Some(d) => trim_chars(&slice_chars(c, d + 14, c.len())),
        None => chars_of("No documentation provided"),
    };
    assert(documentation@ == spec_t.3);
    TemplateText {
        name: string_of(&name),
        code: string_of(&code),
        placeholders,
        documentation: string_of(&documentation),
    }
}

/// The templates that a model answer describes: it is split at each
/// blank line followed by `Name:`; a first part that does not start with
/// `Name:` is an introduction and is skipped.
pub fn parse_templates(answer: &str) -> (r: Vec<TemplateText>)
    ensures
        template_models(r@) == templates_of(answer@),
{
    let text = chars_of(answer);
    let sep = chars_of("\n\nName:");
    let name_prefix = chars_of("Name:");
    proof {
        reveal_strlit("\n\nName:");
        reveal_strlit("Name:");
    }
    let mut out: Vec<TemplateText> = Vec::new();
    let mut i: usize = 0;
    let mut first = true;
    let ghost secs = split_from(text@, sep@, 0);
    assert(template_models(out@) =~= Seq::empty());
    loop
        invariant
            i <= text.len(),
            text@ == answer@,
            sep@ == "\n\nName:"@,
            sep@.len() == 7,
            name_prefix@ == "Name:"@,
            name_prefix@.len() == 5,
            first ==> i == 0,
            secs == split_from(text@, sep@, 0),
            templates_of_sections(secs, true) == template_models(out@) + templates_of_sections(
                split_from(text@, sep@, i as int),
                first,
            ),
        decreases text.len() + 1 - i,
    {
        let found = find_text(&text, "\n\nName:", i);
        let (sec, next) = match found {
            Some(j) => (slice_chars(&text, i, j), Some(j + 7)),
            None => (slice_chars(&text, i, text.len()), None),
        };
        let ghost rest = split_from(text@, sep@, i as int);
        assert(rest[0] == sec@);
        let ghost before = template_models(out@);
        if first {
            if starts_with_chars(&sec, &name_prefix) {
                let t = template_of_content(&sec, true);
                out.push(t);
                assert(template_models(out@) =~= before.push(template_model(t)));
            }
        } else {
            let mut content = slice_chars(&name_prefix, 0, 5);
            assert(name_prefix@.subrange(0, 5) =~= "Name:"@);
            extend_chars(&mut content, &sec);
            let t = template_of_content(&content, false);
            out.push(t);
            assert(template_models(out@) =~= before.push(template_model(t)));
        }
        match next {
            Some(n) => {
                assert(rest.drop_first() =~= split_from(text@, sep@, n as int));
                assert(templates_of_sections(secs, true) =~= template_models(out@)
                    + templates_of_sections(split_from(text@, sep@, n as int), false));
                i = n;
                first = false;
            },
            None => {
                assert(rest =~= seq![sec@]);
                assert(rest.drop_first() =~= Seq::<Seq<char>>::empty());
                assert(templates_of_sections(rest.drop_first(), false) =~= Seq::empty());
                assert(templates_of_sections(secs, true) =~= template_models(out@));
                return out;
            },
        }
    }
}

/// The prompt that asks for the formal properties of `requirements`.
pub fn properties_prompt(requirements: &Vec<String>, domain: &Domain) -> (r: String)
    ensures
        r@ == "You are a formal verification expert. Extract formal properties from these requirements for a "@
            + domain_label(*domain) + " system:\n\n"@ + join(string_views(requirements@), "\n"@)
            + "\n\nFor each requirement, provide:\n1. The formal interpretation as a property\n2. The property expressed in a mathematical notation\n3. A confidence score (0-1) for your translation\nFormat each property as: \"Requirement: [original text]\\nFormal property: [interpretation]\\nMathematical form: [formal notation]\\nConfidence: [score]\""@,
{
    let mut r = String::from_str("You are a formal verification expert. Extract formal properties from these requirements for a ");
    let d = domain.to_string();
    r.append(d.as_str());
    r.append(" system:\n\n");
    let reqs = joined(requirements, "\n");
    r.append(reqs.as_str());
    r.append("\n\nFor each requirement, provide:\n1. The formal interpretation as a property\n2. The property expressed in a mathematical notation\n3. A confidence score (0-1) for your translation\nFormat each property as: \"Requirement: [original text]\\nFormal property: [interpretation]\\nMathematical form: [formal notation]\\nConfidence: [score]\"");
    r
}

/// A translation built from parsed text and its confidence in thousandths;
/// one below 800 asks for human review.
pub fn translation_from_text(
    t: TranslationText,
    confidence_permille: u32,
    language: VerificationLanguage,
) -> (r: crate::models::SpecificationTranslation)
    ensures
        r.requirement@ == t.requirement@,
        string_views(r.interpreted_properties@) == seq![t.interpreted_property@],
        r.formal_representation@ == t.formal_representation@,
        r.translation_confidence_permille == confidence_permille,
        r.verification_language == language,
        r.requires_human_review == (confidence_permille < 800),
{
    let TranslationText { requirement, interpreted_property, formal_representation, confidence_text: _ } = t;
    let mut props: Vec<String> = Vec::new();
    props.push(interpreted_property);
    assert(string_views(props@) =~= seq![props@[0]@]);
    crate::models::SpecificationTranslation {
        requirement,
        interpreted_properties: props,
        formal_representation,
        translation_confidence_permille: confidence_permille,
        verification_language: language,
        requires_human_review: confidence_permille < 800,
    }
}

/// The prompt that asks for example templates.
pub fn templates_prompt(domain: &Domain, language: &VerificationLanguage) -> (r: String)
    ensures
        r@ == "You are a formal verification expert. Generate 3 template examples for "@
            + language_label(*language) + " specifications in "@ + language_label(*language)
            + " for the "@ + domain_label(*domain) + " domain. Each template should be a complete code example that can be parameterized. For each template, provide:\n1. A name describing its purpose\n2. The template code\n3. A list of placeholders that need to be filled in\n4. A brief documentation explaining how to use the template\nFormat each template as: \"Name: [name]\\nTemplate:\\n```\\n[code]\\n```\\nPlaceholders: [list]\\nDocumentation: [explanation]\""@,
{
    let l = language.to_string();
    let d = domain.to_string();
    let mut r = String::from_str("You are a formal verification expert. Generate 3 template examples for ");
    r.append(l.as_str());
    r.append(" specifications in ");
    r.append(l.as_str());
    r.append(" for the ");
    r.append(d.as_str());
    r.append(" domain. Each template should be a complete code example that can be parameterized. For each template, provide:\n1. A name describing its purpose\n2. The template code\n3. A list of placeholders that need to be filled in\n4. A brief documentation explaining how to use the template\nFormat each template as: \"Name: [name]\\nTemplate:\\n```\\n[code]\\n```\\nPlaceholders: [list]\\nDocumentation: [explanation]\"");
    r
}

/// How one translation is listed in a conversion prompt.
pub open spec fn translation_entry(t: crate::models::SpecificationTranslation) -> Seq<char> {
    "Requirement: "@ + t.requirement@ + "\nFormal Property: "@ + join(
        string_views(t.interpreted_properties@),
        ", "@,
    ) + "\nFormalization: "@ + t.formal_representation@
}

pub open spec fn paradigm_text(p: crate::models::SpecificationParadigm) -> Seq<char> {
    match p {
        crate::models::SpecificationParadigm::PrePostConditions => "pre and post conditions"@,
        crate::models::SpecificationParadigm::TypeTheoretic => "type theory"@,
        crate::models::SpecificationParadigm::ModelChecking => "model checking"@,
        crate::models::SpecificationParadigm::TemporalLogic => "temporal logic"@,
        crate::models::SpecificationParadigm::Refinement => "refinement types"@,
        crate::models::SpecificationParadigm::HoareLogic => "Hoare logic"@,
        crate::models::SpecificationParadigm::SeparationLogic => "separation logic"@,
        crate::models::SpecificationParadigm::Custom(s) => s@,
    }
}

fn translation_entry_string(t: &crate::models::SpecificationTranslation) -> (r: String)
    ensures
        r@ == translation_entry(*t),
{
    let mut r = String::from_str("Requirement: ");
    r.append(t.requirement.as_str());
    r.append("\nFormal Property: ");
    let props = joined(&t.interpreted_properties, ", ");
    r.append(props.as_str());
    r.append("\nFormalization: ");
    r.append(t.formal_representation.as_str());
    r
}

/// The prompt that asks to turn translated properties into one
/// specification in `target` using `paradigm`.
pub fn conversion_prompt(
    translations: &Vec<crate::models::SpecificationTranslation>,
    target: &VerificationLanguage,
    paradigm: &crate::models::SpecificationParadigm,
) -> (r: String)
    ensures
        r@ == "You are a formal verification expert. Convert these formal properties into a complete "@
            + language_label(*target) + " specification using "@ + paradigm_text(*paradigm)
            + ":\n\n"@ + join(
            Seq::new(translations@.len(), |i: int| translation_entry(translations@[i])),
            "\n\n"@,
        )
            + "\n\nGenerate a complete, well-structured formal specification that captures all these properties. Include all necessary type definitions, functions, and verification statements. Format your response as a valid "@
            + language_label(*target)
            + " specification that could be directly input to the verification tool."@,
{
    let ghost parts = Seq::new(translations@.len(), |i: int| translation_entry(translations@[i]));
    let mut list = String::new();
    let mut i: usize = 0;
    while i < translations.len()
        invariant
            i <= translations.len(),
            parts == Seq::new(translations@.len(), |i: int| translation_entry(translations@[i])),
            list@ == join(parts.take(i as int), "\n\n"@),
        decreases translations.len() - i,
    {
        if i > 0 {
            list.append("\n\n");
        }
        let e = translation_entry_string(&translations[i]);
        list.append(e.as_str());
        assert(parts.take(i + 1).drop_last() =~= parts.take(i as int));
        assert(parts.take(i + 1).last() == translation_entry(translations@[i as int]));
        i = i + 1;
    }
    assert(parts.take(translations.len() as int) =~= parts);
    let l = target.to_string();
    let paradigm_str = match paradigm {
        crate::models::SpecificationParadigm::PrePostConditions => String::from_str("pre and post conditions"),
        crate::models::SpecificationParadigm::TypeTheoretic => String::from_str("type theory"),
        crate::models::SpecificationParadigm::ModelChecking => String::from_str("model checking"),
        crate::models::SpecificationParadigm::TemporalLogic => String::from_str("temporal logic"),
        crate::models::SpecificationParadigm::Refinement => String::from_str("refinement types"),
        crate::models::SpecificationParadigm::HoareLogic => String::from_str("Hoare logic"),
        crate::models::SpecificationParadigm::SeparationLogic => String::from_str("separation logic"),
        crate::models::SpecificationParadigm::Custom(s) => s.clone(),
    };
    let mut r = String::from_str("You are a formal verification expert. Convert these formal properties into a complete ");
    r.append(l.as_str());
    r.append(" specification using ");
    r.append(paradigm_str.as_str());
    r.append(":\n\n");
    r.append(list.as_str());
    r.append("\n\nGenerate a complete, well-structured formal specification that captures all these properties. Include all necessary type definitions, functions, and verification statements. Format your response as a valid ");
    r.append(l.as_str());
    r.append(" specification that could be directly input to the verification tool.");
    r
}

/// How one property is listed when a template is applied.
pub open spec fn property_entry(p: crate::models::Property) -> Seq<char> {
    "Property "@ + p.id@ + ": "@ + p.description@ + " - "@ + p.formal_definition@
}

/// The prompt that asks to fill `template` from `properties`.
pub fn apply_template_prompt(
    template: &crate::models::VerificationTemplate,
    properties: &Vec<crate::models::Property>,
) -> (r: String)
    ensures
        r@ == "You are a formal verification expert. Apply this template to generate a formal specification for these properties:\n\nTemplate: "@
            + template.template_name@ + "\n\n```\n"@ + template.template_code@
            + "\n```\n\nProperties:\n"@ + join(
            Seq::new(properties@.len(), |i: int| property_entry(properties@[i])),
            "\n"@,
        ) + "\n\nFill in the template placeholders using these properties. The result should be a complete "@
            + language_label(template.language)
            + " specification. Return only the filled template, no explanations."@,
{
    let ghost parts = Seq::new(properties@.len(), |i: int| property_entry(properties@[i]));
    let mut list = String::new();
    let mut i: usize = 0;
    while i < properties.len()
        invariant
            i <= properties.len(),
            parts == Seq::new(properties@.len(), |i: int| property_entry(properties@[i])),
            list@ == join(parts.take(i as int), "\n"@),
        decreases properties.len() - i,
    {
        if i > 0 {
            list.append("\n");
        }
        let p = &properties[i];
        list.append("Property ");
        list.append(p.id.as_str());
        list.append(": ");
        list.append(p.description.as_str());
        list.append(" - ");
        list.append(p.formal_definition.as_str());
        assert(parts.take(i + 1).drop_last() =~= parts.take(i as int));
        assert(parts.take(i + 1).last() == property_entry(properties@[i as int]));
        i = i + 1;
    }
    assert(parts.take(properties.len() as int) =~= parts);
    let mut r = String::from_str("You are a formal verification expert. Apply this template to generate a formal specification for these properties:\n\nTemplate: ");
    r.append(template.template_name.as_str());
    r.append("\n\n```\n");
    r.append(template.template_code.as_str());
    r.append("\n```\n\nProperties:\n");
    r.append(list.as_str());
    r.append("\n\nFill in the template placeholders using these properties. The result should be a complete ");
    let l = template.language.to_string();
    r.append(l.as_str());
    r.append(" specification. Return only the filled template, no explanations.");
    r
}

/// The prompt that asks which requirements imported code fulfils.
pub fn import_prompt(code: &str, language: &VerificationLanguage) -> (r: String)
    ensures
        r@ == "You are a formal verification expert. Analyze this "@ + language_label(*language)
            + " specification and extract the requirements it fulfills:\n\n```\n"@ + code@
            + "\n```\n\nList each requirement that this specification addresses, in natural language form. Also extract any formal properties defined in the specification."@,
{
    let mut r = String::from_str("You are a formal verification expert. Analyze this ");
    let l = language.to_string();
    r.append(l.as_str());
    r.append(" specification and extract the requirements it fulfills:\n\n```\n");
    r.append(code);
    r.append("\n```\n\nList each requirement that this specification addresses, in natural language form. Also extract any formal properties defined in the specification.");
    r
}

} // verus!
