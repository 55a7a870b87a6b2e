use specgen::generation::{
    apply_template_prompt, conversion_prompt, imported_specification, language_for_system,
    parse_templates, parse_translations, properties_prompt, recommended_verification_system,
    refined_specification, refinement_prompt, spec_file_extension, templates_prompt,
    translation_from_text, verification_code_prompt,
};
use specgen::models::{
    Domain, Property, PropertyKind, SpecificationOptions, SpecificationParadigm,
    VerificationLanguage, VerificationStatus, VerificationSystem, VerificationTemplate,
};
use specgen::prompts::{DomainConfig, GeneratorConfig};

fn strings(v: &[&str]) -> Vec<String> {
    v.iter().map(|s| s.to_string()).collect()
}

#[test]
fn translations_are_read_per_section() {
    let answer = "Intro line\n\nRequirement: encrypt data\nFormal property: confidentiality\nMathematical form: forall m. dec(enc(m)) = m\nConfidence: 0.95 \n\nshort\nsection\n\nR2\nP2\nM2\nno score";
    let t = parse_translations(answer);
    assert_eq!(t.len(), 2);
    assert_eq!(t[0].requirement, "encrypt data");
    assert_eq!(t[0].interpreted_property, "confidentiality");
    assert_eq!(t[0].formal_representation, "forall m. dec(enc(m)) = m");
    assert_eq!(t[0].confidence_text, "0.95");
    assert_eq!(t[1].requirement, "R2");
    assert_eq!(t[1].confidence_text, "0.7");
    let s = translation_from_text(t[1].clone(), 700, VerificationLanguage::FStarLang);
    assert!(s.requires_human_review);
    assert_eq!(s.interpreted_properties, strings(&["P2"]));
    let s2 = translation_from_text(t[0].clone(), 950, VerificationLanguage::FStarLang);
    assert!(!s2.requires_human_review);
    let p = conversion_prompt(&vec![s2], &VerificationLanguage::DafnyLang, &SpecificationParadigm::HoareLogic);
    assert!(p.contains("complete Dafny specification using Hoare logic:\n\nRequirement: encrypt data\nFormal Property: confidentiality\nFormalization: forall m. dec(enc(m)) = m\n\n"));
}

#[test]
fn templates_are_read_per_section() {
    let answer = "Here are templates.\n\nName: Key rotation\nTemplate:\n```fstar\nlet rotate k = k\n```\nPlaceholders:\n  KEY\n\n  PERIOD\nDocumentation: Rotates keys.\n\nName: Bare\nno code here";
    let t = parse_templates(answer);
    assert_eq!(t.len(), 2);
    assert_eq!(t[0].name, "Name: Key rotation");
    assert_eq!(t[0].code, "fstar\nlet rotate k = k");
    assert_eq!(t[0].placeholders, strings(&["KEY", "PERIOD"]));
    assert_eq!(t[0].documentation, "Rotates keys.");
    assert_eq!(t[1].name, "Name: Bare");
    assert_eq!(t[1].code, "// Template code not found");
    assert!(t[1].placeholders.is_empty());
    assert_eq!(t[1].documentation, "No documentation provided");
}

#[test]
fn first_template_section_keeps_its_name() {
    let t = parse_templates("Name: First\n```\ncode\n```\nDocumentation: d\nPlaceholders: X");
    assert_eq!(t.len(), 1);
    assert_eq!(t[0].name, "First");
    assert_eq!(t[0].code, "code");
    // Documentation before Placeholders: no placeholders are read
    assert!(t[0].placeholders.is_empty());
    assert_eq!(t[0].documentation, "d\nPlaceholders: X");
}

#[test]
fn imported_specification_lists_requirements() {
    let s = imported_specification("```\nmodule M\n```", VerificationLanguage::LeanLang, "Requirements:\n- a\n- b", 42);
    assert_eq!(s.id, "import_42");
    assert_eq!(s.source_requirements, strings(&["a", "b"]));
    assert_eq!(s.formal_spec.spec_code, "module M\n");
    assert!(matches!(s.metadata.verification_system, VerificationSystem::Lean));
    assert_eq!(s.metadata.confidence_permille, 800);
    match &s.metadata.domain {
        Domain::Custom(d) => assert_eq!(d, "imported"),
        other => panic!("unexpected {:?}", other),
    }
    let neg = imported_specification("x", VerificationLanguage::ACSL, "", -5);
    assert_eq!(neg.id, "import_-5");
    assert!(matches!(&neg.metadata.verification_system, VerificationSystem::Custom(n) if n == "ACSL"));
}

#[test]
fn refinement_keeps_confidence_and_marks_id() {
    let spec = imported_specification("let x = 1", VerificationLanguage::FStarLang, "", 1);
    let prompt = refinement_prompt(&spec, "use nat");
    assert!(prompt.contains("Original specification in F*:\n```\nlet x = 1\n```\n\nFeedback to address:\nuse nat\n\n"));
    let r = refined_specification(spec, "```\nlet x : nat = 1\n```", 2);
    assert_eq!(r.id, "import_1_refined");
    assert_eq!(r.metadata.confidence_permille, 800);
    assert_eq!(r.formal_spec.spec_code, "let x : nat = 1\n");
}

#[test]
fn prompts_name_their_subjects() {
    let p = properties_prompt(&strings(&["r1", "r2"]), &Domain::WebSecurity);
    assert!(p.contains("for a Web Security system:\n\nr1\nr2\n\nFor each requirement"));
    let t = templates_prompt(&Domain::Blockchain, &VerificationLanguage::CoqLang);
    assert!(t.contains("examples for Coq specifications in Coq for the Blockchain domain."));
    let v = verification_code_prompt(&VerificationLanguage::TLAPlus, &VerificationSystem::TLA, "SPEC");
    assert!(v.contains("this TLA+ specification that can be used with TLA+:\n\n```\nSPEC\n```"));
    let template = VerificationTemplate {
        language: VerificationLanguage::FStarLang,
        template_name: "T".to_string(),
        template_code: "CODE".to_string(),
        placeholders: vec![],
        documentation: String::new(),
    };
    let props = vec![Property {
        id: "p1".to_string(),
        description: "desc".to_string(),
        formal_definition: "def".to_string(),
        kind: PropertyKind::Safety,
    }];
    let a = apply_template_prompt(&template, &props);
    assert!(a.contains("Template: T\n\n```\nCODE\n```\n\nProperties:\nProperty p1: desc - def\n\n"));
    assert!(a.ends_with("complete F* specification. Return only the filled template, no explanations."));
}

#[test]
fn mappings_between_systems_and_languages() {
    assert!(matches!(language_for_system(&VerificationSystem::Why3, VerificationLanguage::FStarLang), VerificationLanguage::Why3Lang));
    assert!(matches!(language_for_system(&VerificationSystem::Custom("x".into()), VerificationLanguage::JML), VerificationLanguage::JML));
    assert!(matches!(recommended_verification_system(&Domain::DistributedSystems), VerificationSystem::TLA));
    assert!(matches!(recommended_verification_system(&Domain::Blockchain), VerificationSystem::FStar));
    assert_eq!(spec_file_extension(&VerificationLanguage::Z3SMT), "smt2");
    assert_eq!(spec_file_extension(&VerificationLanguage::JML), "txt");
}

#[test]
fn statuses_are_written_out() {
    assert_eq!(VerificationStatus::Verified.to_string(), "Verified");
    assert_eq!(VerificationStatus::Failed(vec![]).to_string(), "Failed");
    assert_eq!(VerificationStatus::Failed(strings(&["a", "b"])).to_string(), "Failed: a, b");
    assert_eq!(VerificationStatus::Error("x".into()).to_string(), "Error: x");
}

#[test]
fn defaults_and_domain_settings() {
    let o = SpecificationOptions::default();
    assert!(matches!(o.verification_language, VerificationLanguage::FStarLang));
    assert!(o.include_security_properties && o.generation_targets.generate_invariants);
    let mut config = GeneratorConfig::default();
    assert_eq!(config.max_tokens, Some(4096));
    assert!(config.get_template("specification").unwrap().contains("{{requirements}}"));
    let empty = config.get_domain_config("crypto");
    assert!(empty.templates.is_none() && empty.prompt_additions.is_none());
    config.domain_configs = Some(vec![(
        "crypto".to_string(),
        DomainConfig {
            templates: Some(strings(&["t1"])),
            prompt_additions: Some("extra".to_string()),
            recommended_verification_systems: None,
            recommended_verification_languages: Some(strings(&["fstar"])),
        },
    )]);
    let c = config.get_domain_config("crypto");
    assert_eq!(c.templates, Some(strings(&["t1"])));
    assert_eq!(c.prompt_additions.as_deref(), Some("extra"));
    assert_eq!(c.recommended_verification_languages, Some(strings(&["fstar"])));
    assert!(config.get_domain_config("web").prompt_additions.is_none());
}
