use specgen::choices::{parse_domain, parse_validation_depth, parse_verification_language};
use specgen::errors::{to_axiom_error, AxiomError, ErrorSeverity, SpecGenError};
use specgen::generation::{
    build_specification, completeness_of_answer, extract_imported_requirements,
    generate_description, generation_prompt, get_error_context, translated_specification,
    translation_needed,
};
use specgen::models::{
    language_to_string, Domain, FormalSpecification, IssueSeverity, Language, Specification,
    SpecificationMetadata, ValidationDepth, ValidationIssue, ValidationReport,
    VerificationLanguage, VerificationSystem,
};
use specgen::parser::{
    extract_code_blocks, extract_dependencies, extract_functions, extract_types,
    parse_formal_specification,
};
use specgen::prompts::{render_template, GeneratorConfig};
use specgen::repair::{
    extract_name_from_error, repair_focus, RepairLoop, RepairProgress, RepairStart,
};
use specgen::review::{
    classify_issue_line, parse_issues, parse_review_answer, review_prompt, validate_formal_verification,
    validate_syntax, validate_type_checking,
};

fn strings(v: &[&str]) -> Vec<String> {
    v.iter().map(|s| s.to_string()).collect()
}

fn mock_spec(code: &str) -> Specification {
    Specification {
        id: "mock_spec".to_string(),
        source_requirements: vec!["Test requirement".to_string()],
        formal_properties: vec![],
        formal_spec: FormalSpecification {
            verification_language: VerificationLanguage::FStarLang,
            spec_code: code.to_string(),
            components: vec![],
            dependencies: vec![],
        },
        metadata: SpecificationMetadata {
            created_at: 0,
            verification_system: VerificationSystem::FStar,
            domain: Domain::Cryptography,
            confidence_permille: 900,
            is_formally_validated: false,
        },
    }
}

fn invalid_report(message: &str) -> ValidationReport {
    ValidationReport {
        is_valid: false,
        issues: vec![ValidationIssue {
            severity: IssueSeverity::Error,
            message: message.to_string(),
            related_property: None,
            line_number: Some(1),
            suggested_fix: None,
        }],
        tool_validated: false,
        tool_output: None,
    }
}

fn valid_report() -> ValidationReport {
    ValidationReport { is_valid: true, issues: vec![], tool_validated: false, tool_output: None }
}

#[test]
fn test_mock_validation() {
    let mock_spec = mock_spec("module Test\nlet test (x:int) : int = x + 1");
    let error_ctx = get_error_context("Test error", &mock_spec);
    assert!(matches!(error_ctx.severity, ErrorSeverity::Error));
    assert!(error_ctx.suggestion.is_some());
    assert_eq!(
        error_ctx.suggestion.as_deref(),
        Some("Check the formal specification syntax and structure.")
    );
}

#[test]
fn rendering_twice_gives_the_same_text() {
    let config = GeneratorConfig::default();
    let params = vec![
        ("domain".to_string(), "Cryptography".to_string()),
        ("verification_language".to_string(), "F*".to_string()),
        ("requirements".to_string(), "must encrypt data".to_string()),
        ("domain_context".to_string(), "ctx {{domain}}".to_string()),
    ];
    let a = render_template(&config, "specification", &params).unwrap();
    let b = render_template(&config, "specification", &params).unwrap();
    assert_eq!(a, b);
    assert!(a.contains("in the F* verification language"));
    assert!(a.contains("for a Cryptography system"));
    assert!(!a.contains("{{verification_language}}"));
    // a value is inserted verbatim and not expanded again
    assert!(a.contains("ctx {{domain}}"));
}

#[test]
fn rendering_a_missing_template_fails() {
    let config = GeneratorConfig::default();
    match render_template(&config, "nothing", &vec![]) {
        Err(SpecGenError::TemplateError(m)) => assert_eq!(m, "Template not found: nothing"),
        other => panic!("unexpected {:?}", other),
    }
}

#[test]
fn unbound_placeholders_stay() {
    let mut config = GeneratorConfig::default();
    config.prompt_templates.push(("t".to_string(), "a {{x}} b {{y}} {{x".to_string()));
    let r = render_template(&config, "t", &vec![("x".to_string(), "1".to_string())]).unwrap();
    assert_eq!(r, "a 1 b {{y}} {{x");
}

#[test]
fn unbalanced_fence_keeps_accumulated_code() {
    // no block was ever closed: the whole answer is the code
    let f = parse_formal_specification("intro\n```fstar\nlet x = 1\nlet y = 2", VerificationLanguage::FStarLang);
    assert_eq!(f.spec_code, "intro\n```fstar\nlet x = 1\nlet y = 2");
    let lone = parse_formal_specification("```\nabc", VerificationLanguage::FStarLang);
    assert_eq!(lone.spec_code, "```\nabc");
    let g = parse_formal_specification("just text\n```", VerificationLanguage::FStarLang);
    assert_eq!(g.spec_code, "just text\n```");
    // once a block closed, what was accumulated is the code
    let h = parse_formal_specification("```\na\n```\n```\nb", VerificationLanguage::FStarLang);
    assert_eq!(h.spec_code, "a\nb\n");
    assert!(h.components.iter().any(|(k, v)| k == "description" && v == "```\na\n```\n```\nb"));
}

#[test]
fn untagged_blocks_become_components() {
    let f = parse_formal_specification("```\nA\n```", VerificationLanguage::FStarLang);
    assert_eq!(f.spec_code, "A\n");
    let get = |k: &str| f.components.iter().find(|(n, _)| n == k).map(|(_, v)| v.clone());
    assert_eq!(get("component_2"), Some("A\n".to_string()));
    let g = parse_formal_specification("```fstar\nA\n```\n```\nB\n```", VerificationLanguage::FStarLang);
    let get = |k: &str| g.components.iter().find(|(n, _)| n == k).map(|(_, v)| v.clone());
    assert_eq!(get("component_2"), Some("A\n".to_string()));
    assert_eq!(get("component_3"), Some("B\n".to_string()));
    assert_eq!(g.components.len(), 3);
}

#[test]
fn unfenced_answer_is_used_whole() {
    let f = parse_formal_specification("let x = 1", VerificationLanguage::FStarLang);
    assert_eq!(f.spec_code, "let x = 1");
    assert!(f.components.iter().any(|(k, v)| k == "description" && v == "let x = 1"));
}

#[test]
fn empty_answer_gives_empty_code() {
    let f = parse_formal_specification("", VerificationLanguage::FStarLang);
    assert_eq!(f.spec_code, "");
    assert!(f.dependencies.is_empty());
}

#[test]
fn tagged_blocks_become_components() {
    let answer = "Here:\n```fstar\nmodule M\nopen FStar.All\n```\ntext\n```fstar\nlet f x = x\n```";
    let f = parse_formal_specification(answer, VerificationLanguage::FStarLang);
    assert_eq!(f.spec_code, "module M\nopen FStar.All\nlet f x = x\n");
    let get = |k: &str| f.components.iter().find(|(n, _)| n == k).map(|(_, v)| v.clone());
    assert_eq!(get("description"), Some(answer.to_string()));
    assert_eq!(get("component_2"), Some("module M\nopen FStar.All\n".to_string()));
    assert_eq!(get("component_3"), Some("let f x = x\n".to_string()));
    assert_eq!(f.components.len(), 3);
    assert_eq!(f.dependencies, strings(&["M", "FStar.All"]));
}

#[test]
fn dependencies_in_source_order() {
    let deps = extract_dependencies("open Foo\nopen Bar.Baz", &VerificationLanguage::FStarLang);
    assert_eq!(deps, strings(&["Foo", "Bar.Baz"]));
}

#[test]
fn dependencies_trim_separators_and_keep_duplicates() {
    let deps = extract_dependencies(
        "  Require Import Arith;\nRequire Export Lists, \nRequire Import Arith;",
        &VerificationLanguage::CoqLang,
    );
    assert_eq!(deps, strings(&["Arith", "Lists", "Arith"]));
    assert!(extract_dependencies("open Foo", &VerificationLanguage::ACSL).is_empty());
    assert!(extract_dependencies("open ", &VerificationLanguage::FStarLang).is_empty());
}

#[test]
fn functions_and_types_are_found() {
    let code = "type key = int\nval encrypt: key -> key\nlet encrypt k = k\nlet";
    assert_eq!(extract_functions(code, &VerificationLanguage::FStarLang), strings(&["encrypt", "encrypt"]));
    assert_eq!(extract_types(code, &VerificationLanguage::FStarLang), strings(&["key"]));
    assert_eq!(extract_types("datatype T = A | B\nclass C{", &VerificationLanguage::DafnyLang), strings(&["T", "C"]));
    assert!(extract_functions(code, &VerificationLanguage::LeanLang).is_empty());
}

#[test]
fn code_blocks_are_extracted() {
    assert_eq!(extract_code_blocks("a\n```\nx\n```\nb"), "x\n");
    assert_eq!(extract_code_blocks("no code"), "no code");
}

#[test]
fn error_line_is_error_even_after_warnings() {
    let answer = "Warning: a general remark\nLine 3: missing semicolon - Error\nSuggestion: add ;\nLocation 5: style - Warning\nThe specification syntax is valid: false";
    let issues = parse_issues(answer);
    assert_eq!(issues.len(), 2);
    assert_eq!(issues[0].severity, IssueSeverity::Error);
    assert_eq!(issues[0].message, "Line 3: missing semicolon - Error");
    assert_eq!(issues[0].line_number, Some(3));
    assert_eq!(issues[0].suggested_fix.as_deref(), Some("add ;"));
    assert_eq!(issues[1].severity, IssueSeverity::Warning);
    // a header without a `Line ` number has none
    assert_eq!(issues[1].line_number, None);
    assert_eq!(issues[1].suggested_fix, None);
    assert_eq!(classify_issue_line("Line 1: Warning and Error - x"), IssueSeverity::Error);
    assert_eq!(classify_issue_line("Line 1: plain"), IssueSeverity::Info);
}

#[test]
fn line_numbers_accept_plus_and_reject_garbage() {
    let issues = parse_issues("Line +7 : a\nLine x: b\nLine 99999999999999999999999: c");
    assert_eq!(issues[0].line_number, Some(7));
    assert_eq!(issues[1].line_number, None);
    assert_eq!(issues[2].line_number, None);
}

#[test]
fn verdict_is_read_case_insensitively() {
    let r = parse_review_answer("Is the specification syntax valid? TRUE", ValidationDepth::Basic);
    assert!(r.is_valid);
    assert!(r.tool_output.is_none());
    let t = parse_review_answer("The specification passes type checking: True", ValidationDepth::TypeCheck);
    assert!(t.is_valid);
    let b = parse_review_answer("The specification passes type checking: True", ValidationDepth::Basic);
    assert!(!b.is_valid);
    let f = parse_review_answer("Line 2: bad - Error\ncan the specification be formally verified as written? true", ValidationDepth::FormalVerification);
    assert!(f.is_valid);
    assert_eq!(f.issues.len(), 1);
    assert_eq!(f.tool_output.as_deref(), Some("Line 2: bad - Error\ncan the specification be formally verified as written? true"));
    assert!(!f.tool_validated);
}

#[test]
fn end_to_end_generation_and_review() {
    let reqs = strings(&["must encrypt data"]);
    let config = GeneratorConfig::default();
    let prompt = generation_prompt(&config, &reqs, &Domain::Cryptography, &VerificationLanguage::FStarLang).unwrap();
    assert!(prompt.contains("must encrypt data"));
    assert!(prompt.contains("Domain: cryptography"));
    let answer = "```\ntype key = int\nlet encrypt k = k\n```";
    let spec = build_specification(&reqs, Domain::Cryptography, VerificationLanguage::FStarLang, answer, 1700000000);
    assert_eq!(spec.formal_spec.spec_code, "type key = int\nlet encrypt k = k\n");
    assert_eq!(spec.id, "spec_1700000000");
    assert_eq!(spec.source_requirements, reqs);
    assert!(matches!(spec.metadata.verification_system, VerificationSystem::FStar));
    assert_eq!(spec.metadata.confidence_permille, 900);
    let review = review_prompt(&spec, ValidationDepth::Basic);
    assert!(review.contains("Validate the syntax of this F* specification"));
    let report = parse_review_answer("the specification syntax is valid: true", ValidationDepth::Basic);
    assert!(report.is_valid);
    assert!(report.issues.is_empty());
    match RepairLoop::start(spec, report) {
        RepairStart::AlreadyValid(r) => assert!(r.is_valid && r.issues.is_empty()),
        RepairStart::Started(..) => panic!("a valid report needs no repair"),
    }
}

fn run_repair(verdicts: &[bool]) -> (usize, ValidationReport, Vec<ValidationDepth>) {
    let spec = mock_spec("let f = g");
    let first = invalid_report("Line 1: type mismatch in f - Error");
    let (mut lp, _prompt) = match RepairLoop::start(spec, first) {
        RepairStart::Started(lp, p) => (lp, p),
        RepairStart::AlreadyValid(_) => panic!("needs repair"),
    };
    let mut requests = 1;
    let mut depths = vec![];
    let mut k = 0;
    loop {
        let answer = format!("```\nlet f = {}\n```", k);
        let (next, depth, _review_prompt) = lp.on_repair_answer(&answer);
        depths.push(depth);
        let review = if verdicts[k] { valid_report() } else { invalid_report("Line 1: undefined name - Warning") };
        k += 1;
        match next.on_review(review) {
            RepairProgress::Continue(l, _p) => {
                requests += 1;
                lp = l;
            }
            RepairProgress::Done(r) => return (requests, r, depths),
        }
    }
}

#[test]
fn repair_gives_up_after_three_attempts() {
    let (requests, report, depths) = run_repair(&[false, false, false, false]);
    assert_eq!(requests, 3);
    assert!(!report.is_valid);
    let last = report.issues.last().unwrap();
    assert_eq!(last.severity, IssueSeverity::Warning);
    assert_eq!(last.message, "Automatic fixing was attempted 3 times but issues remain");
    assert_eq!(last.suggested_fix.as_deref(), Some("let f = 2\n"));
    assert_eq!(depths, vec![ValidationDepth::TypeCheck, ValidationDepth::Basic, ValidationDepth::Basic]);
}

#[test]
fn repair_stops_at_first_success() {
    let (requests, report, _) = run_repair(&[false, true, false]);
    assert_eq!(requests, 2);
    assert!(report.is_valid);
    let last = report.issues.last().unwrap();
    assert_eq!(last.severity, IssueSeverity::Info);
    assert_eq!(last.message, "Specification was automatically fixed after 2 attempts");
    assert_eq!(last.suggested_fix.as_deref(), Some("let f = 1\n"));
}

#[test]
fn fixed_specification_gets_new_id() {
    let spec = mock_spec("x");
    match RepairLoop::start(spec, invalid_report("Line 1: syntax error - Error")) {
        RepairStart::Started(lp, prompt) => {
            assert!(prompt.contains("IMPORTANT: Fix all syntax errors"));
            assert!(prompt.contains("Line 1: Line 1: syntax error - Error - Error\n"));
            assert!(prompt.ends_with("Return ONLY the corrected specification code without any explanations."));
            let (next, _, _) = lp.on_repair_answer("y");
            assert_eq!(next.spec.id, "mock_spec_fixed");
            assert_eq!(next.spec.formal_spec.spec_code, "y");
        }
        RepairStart::AlreadyValid(_) => panic!("needs repair"),
    }
}

#[test]
fn names_are_taken_from_error_messages() {
    assert_eq!(extract_name_from_error("Error: undefined function `encrypt_block ` here").as_deref(), Some("encrypt_block"));
    assert_eq!(extract_name_from_error("undefined predicate is_valid, used here").as_deref(), Some("is_valid"));
    assert_eq!(extract_name_from_error("unbound variable `x").as_deref(), Some("`x"));
    assert_eq!(extract_name_from_error("all good"), None);
}

#[test]
fn issues_are_classified_in_lower_case() {
    let mut report = invalid_report("Undefined function `foo` used");
    report.issues.push(ValidationIssue { message: "Expected ';'".to_string(), ..report.issues[0].clone() });
    report.issues.push(ValidationIssue { message: "TYPE error".to_string(), ..report.issues[0].clone() });
    let f = repair_focus(&report.issues);
    // the name markers are matched case-sensitively
    assert!(f.missing_symbols.is_empty());
    assert!(f.has_syntax_issues);
    assert!(f.has_type_issues);
    let g = repair_focus(&invalid_report("undefined function `foo` used").issues);
    assert_eq!(g.missing_symbols, strings(&["foo"]));
    assert!(!g.has_syntax_issues && !g.has_type_issues);
}

#[test]
fn choices_are_read_in_any_case() {
    assert!(matches!(parse_verification_language("FStar"), Ok(VerificationLanguage::FStarLang)));
    assert!(matches!(parse_verification_language("TLAPLUS"), Ok(VerificationLanguage::TLAPlus)));
    match parse_verification_language("Pascal") {
        Err(AxiomError::InvalidInput(m)) => assert_eq!(m, "Unsupported verification language: Pascal"),
        other => panic!("unexpected {:?}", other),
    }
    assert!(matches!(parse_domain("Crypto"), Ok(Domain::Cryptography)));
    match parse_domain("Avionics") {
        Ok(Domain::Custom(n)) => assert_eq!(n, "Avionics"),
        other => panic!("unexpected {:?}", other),
    }
    assert!(matches!(parse_validation_depth("TypeCheck"), Ok(ValidationDepth::TypeCheck)));
    assert!(matches!(parse_validation_depth("formal"), Ok(ValidationDepth::FormalVerification)));
    match parse_validation_depth("deep") {
        Err(AxiomError::InvalidInput(m)) => assert_eq!(m, "Unsupported validation depth: deep"),
        other => panic!("unexpected {:?}", other),
    }
    assert_eq!(language_to_string(&Language::CSharp), "C#");
    assert_eq!(language_to_string(&Language::Custom("Zig".to_string())), "Zig");
    assert_eq!(VerificationLanguage::Z3SMT.to_string(), "Z3 SMT");
    assert_eq!(Domain::HighAssuranceSoftware.to_string(), "High Assurance Software");
}

#[test]
fn translation_damps_confidence() {
    let spec = mock_spec("let x = 1");
    assert!(!translation_needed(&VerificationLanguage::FStarLang, &VerificationLanguage::FStarLang));
    assert!(translation_needed(&VerificationLanguage::FStarLang, &VerificationLanguage::DafnyLang));
    assert!(!translation_needed(&VerificationLanguage::Custom("A".into()), &VerificationLanguage::Custom("A".into())));
    assert!(translation_needed(&VerificationLanguage::Custom("A".into()), &VerificationLanguage::Custom("B".into())));
    let t = translated_specification(spec, VerificationLanguage::DafnyLang, "```\nmethod M()\n```", 5);
    assert_eq!(t.id, "mock_spec_translated");
    assert_eq!(t.metadata.confidence_permille, 810);
    assert!(matches!(t.metadata.verification_system, VerificationSystem::Dafny));
    assert_eq!(t.formal_spec.spec_code, "method M()\n");
}

#[test]
fn completeness_and_imported_requirements() {
    let (complete, missing) = completeness_of_answer("1. - encrypt data: not covered\n- rotate keys: fully covered\nThe Specification Is Complete: False");
    assert!(!complete);
    assert_eq!(missing, strings(&["encrypt data: not covered"]));
    let (complete, _) = completeness_of_answer("Is the specification complete? TRUE");
    assert!(complete);
    let reqs = extract_imported_requirements("Intro\n- ignored\nRequirements:\n- Keys rotate\n-   \n--Data encrypted\nOther");
    assert_eq!(reqs, strings(&["Keys rotate", "Data encrypted"]));
    assert_eq!(extract_imported_requirements("nothing"), strings(&["Imported specification requirements"]));
}

#[test]
fn description_lists_types_and_functions() {
    let mut spec = mock_spec("type key = int\nval encrypt: key -> key\nlet encrypt k = k");
    spec.source_requirements = strings(&["must encrypt data"]);
    let d = generate_description(&spec);
    assert_eq!(
        d,
        "# Specification Overview\n\nThis is a F* specification that addresses the following requirements:\n\n- must encrypt data\n\n## Key Components\n\nThe specification includes 1 types and 2 functions/properties.\n\n### Types\n\n- `key`\n\n### Functions and Properties\n\n- `encrypt`\n- `encrypt`\nThis specification can be used as a basis for implementation and formal verification."
    );
}

#[test]
fn service_errors_map_to_pipeline_errors() {
    match to_axiom_error(SpecGenError::HttpError { status: 404, message: "nf".to_string() }) {
        AxiomError::ExternalToolError { tool, message } => {
            assert_eq!(tool, "HTTP");
            assert_eq!(message, "Status 404: nf");
        }
        other => panic!("unexpected {:?}", other),
    }
    assert!(matches!(to_axiom_error(SpecGenError::TemplateError("t".into())), AxiomError::SpecTranslationError(_)));
    assert!(matches!(to_axiom_error(SpecGenError::ConfigError("c".into())), AxiomError::SystemError(_)));
}

#[test]
fn each_depth_reads_its_own_verdict() {
    assert!(validate_syntax("The specification syntax is valid: true").is_valid);
    assert!(!validate_syntax("The specification passes type checking: true").is_valid);
    assert!(validate_type_checking("Does the specification pass type checking? TRUE").is_valid);
    let f = validate_formal_verification("The specification can be formally verified: true");
    assert!(f.is_valid);
    assert_eq!(f.tool_output.as_deref(), Some("The specification can be formally verified: true"));
}

#[test]
fn missing_credentials_map_to_the_model_service() {
    match to_axiom_error(SpecGenError::CredentialMissing("none".into())) {
        AxiomError::ExternalToolError { tool, message } => {
            assert_eq!(tool, "LLM API");
            assert_eq!(message, "none");
        }
        other => panic!("unexpected {:?}", other),
    }
}
