use specgen::errors::SpecGenError;
use specgen::gateway::{interpret_response, plan_request, select_credential, temperature_string, ProviderFamily};
use specgen::prompts::GeneratorConfig;

fn env(pairs: &[(&str, &str)]) -> Vec<(String, String)> {
    pairs.iter().map(|(a, b)| (a.to_string(), b.to_string())).collect()
}

#[test]
fn configured_key_goes_with_preferred_provider() {
    let r = select_credential(&Some("cfg".to_string()), "anthropic", &env(&[("OPENAI_API_KEY", "o")])).unwrap();
    assert_eq!(r, ("anthropic".to_string(), "cfg".to_string()));
}

#[test]
fn preferred_provider_variable_wins() {
    let r = select_credential(&None, "Anthropic", &env(&[("OPENAI_API_KEY", "o"), ("ANTHROPIC_API_KEY", "a")])).unwrap();
    assert_eq!(r, ("Anthropic".to_string(), "a".to_string()));
}

#[test]
fn first_other_provider_in_order_is_used() {
    let r = select_credential(&None, "anthropic", &env(&[("TOGETHER_API_KEY", "t"), ("MISTRAL_API_KEY", "m")])).unwrap();
    assert_eq!(r, ("mistral".to_string(), "m".to_string()));
    let s = select_credential(&None, "unknown", &env(&[("OPENAI_API_KEY", "o")])).unwrap();
    assert_eq!(s, ("openai".to_string(), "o".to_string()));
}

#[test]
fn no_credential_is_an_error() {
    match select_credential(&None, "anthropic", &env(&[])) {
        Err(SpecGenError::CredentialMissing(m)) => assert_eq!(m, "No API keys found for any provider"),
        other => panic!("unexpected {:?}", other),
    }
}

#[test]
fn messages_request_is_planned() {
    let mut config = GeneratorConfig::default();
    config.messages_model = Some("messages-model-1".to_string());
    let plan = plan_request(&config, "anthropic", "k", "say \"hi\"\n");
    assert_eq!(plan.family, ProviderFamily::Messages);
    assert_eq!(plan.endpoint, "https://api.anthropic.com/v1/messages");
    assert_eq!(plan.model, "messages-model-1");
    assert_eq!(v_model(&plan.body), "messages-model-1");
    assert_eq!(plan.headers, env(&[("Content-Type", "application/json"), ("x-api-key", "k"), ("anthropic-version", "2023-06-01")]));
    let v: serde_json::Value = serde_json::from_str(&plan.body).unwrap();
    assert_eq!(v["max_tokens"].as_u64(), Some(4096));
    assert_eq!(v["messages"][0]["content"].as_str(), Some("say \"hi\"\n"));
    assert_eq!(v["messages"][0]["role"].as_str(), Some("user"));
    assert_eq!(v["temperature"].as_f64(), Some(0.2));
    assert!(v["system"].as_str().unwrap().starts_with("You are a formal verification expert"));
}

#[test]
fn chat_request_is_planned() {
    let mut config = GeneratorConfig::default();
    config.max_tokens = None;
    config.temperature_hundredths = Some(5);
    let plan = plan_request(&config, "openai", "sk", "p");
    assert_eq!(plan.family, ProviderFamily::ChatCompletions);
    assert_eq!(plan.endpoint, "https://api.openai.com/v1/chat/completions");
    assert_eq!(plan.model, "gpt-4o");
    assert_eq!(plan.headers[1], ("Authorization".to_string(), "Bearer sk".to_string()));
    assert_eq!(
        plan.body,
        "{\"model\":\"gpt-4o\",\"messages\":[{\"role\":\"system\",\"content\":\"You are a formal verification expert who creates precise, detailed formal specifications.\"},{\"role\":\"user\",\"content\":\"p\"}],\"temperature\":0.05,\"max_tokens\":4096}"
    );
    let m = plan_request(&config, "mistral", "x", "p");
    assert_eq!(m.model, "mistral-large-latest");
}

#[test]
fn temperatures_are_written_as_numbers() {
    assert_eq!(temperature_string(20), "0.2");
    assert_eq!(temperature_string(5), "0.05");
    assert_eq!(temperature_string(100), "1.0");
    assert_eq!(temperature_string(125), "1.25");
    assert_eq!(temperature_string(150), "1.5");
}

#[test]
fn chat_answers_are_read() {
    let ok = interpret_response(ProviderFamily::ChatCompletions, 200, r#"{"choices":[{"message":{"role":"assistant","content":"hello"}}]}"#);
    assert_eq!(ok.unwrap(), "hello");
    assert!(matches!(interpret_response(ProviderFamily::ChatCompletions, 200, r#"{"choices":[]}"#), Err(SpecGenError::ApiError(_))));
    assert!(matches!(interpret_response(ProviderFamily::ChatCompletions, 200, r#"{"choices":[{"message":"x"}]}"#), Err(SpecGenError::ParseError(_))));
    match interpret_response(ProviderFamily::ChatCompletions, 200, "not json") {
        Err(SpecGenError::ParseError(m)) => assert!(m.starts_with("Invalid JSON response: ")),
        other => panic!("unexpected {:?}", other),
    }
}

#[test]
fn messages_answers_are_read() {
    assert_eq!(interpret_response(ProviderFamily::Messages, 200, r#"{"content":[{"type":"text","text":"hi"}]}"#).unwrap(), "hi");
    assert_eq!(interpret_response(ProviderFamily::Messages, 201, r#"{"content":"plain"}"#).unwrap(), "plain");
    assert_eq!(interpret_response(ProviderFamily::Messages, 200, r#"{"completion":"c"}"#).unwrap(), "c");
    match interpret_response(ProviderFamily::Messages, 200, r#"{"content":[]}"#) {
        Err(SpecGenError::ParseError(m)) => assert_eq!(m, "Empty content array in Anthropic response"),
        other => panic!("unexpected {:?}", other),
    }
    match interpret_response(ProviderFamily::Messages, 200, r#"{"other":1}"#) {
        Err(SpecGenError::ParseError(m)) => assert_eq!(m, "Unable to find content in Anthropic response"),
        other => panic!("unexpected {:?}", other),
    }
}

#[test]
fn failing_status_is_an_http_error() {
    match interpret_response(ProviderFamily::Messages, 500, "boom") {
        Err(SpecGenError::HttpError { status, message }) => {
            assert_eq!(status, 500);
            assert_eq!(message, "boom");
        }
        other => panic!("unexpected {:?}", other),
    }
}

fn v_model(body: &str) -> String {
    let v: serde_json::Value = serde_json::from_str(body).unwrap();
    v["model"].as_str().unwrap_or("").to_string()
}

#[test]
fn messages_model_falls_back_to_the_configured_model() {
    let config = GeneratorConfig::default();
    let plan = plan_request(&config, "anthropic", "k", "p");
    assert_eq!(plan.model, "gpt-4o");
    assert_eq!(plan.endpoint, "https://api.anthropic.com/v1/messages");
}

#[test]
fn prompts_are_escaped_as_json_strings() {
    let config = GeneratorConfig::default();
    let plan = plan_request(&config, "openai", "k", "a\"b\\c\u{1}\u{8}\t\né");
    assert!(plan.body.contains("\"content\":\"a\\\"b\\\\c\\u0001\\b\\t\\né\"}"));
}

#[test]
fn messages_text_prefers_the_first_element() {
    let r = interpret_response(ProviderFamily::Messages, 200, r#"{"content":[{"type":"image"}],"completion":"c"}"#);
    match r {
        Err(SpecGenError::ParseError(m)) => assert_eq!(m, "Missing text in Anthropic response content"),
        other => panic!("unexpected {:?}", other),
    }
    let n = interpret_response(ProviderFamily::Messages, 200, r#"{"content":5,"completion":"c"}"#);
    assert_eq!(n.unwrap(), "c");
}
