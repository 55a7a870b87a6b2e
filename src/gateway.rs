//! The model gateway's decisions: which provider and credential to use,
//! the request to send, and how an answer becomes text. Sending the
//! request is the caller's part.
use vstd::prelude::*;
use vstd::string::*;
use crate::errors::SpecGenError;
use crate::parser::{chars_eq, decimal, decimal_chars, pair_views, Table};
use crate::prompts::{find_entry, table_get, GeneratorConfig};
use crate::text::{chars_of, lower_of, lowercase, string_of};

verus! {

#[verifier::external_type_specification]
#[verifier::external_body]
pub struct ExJsonValue(serde_json::Value);

/// Whether a text is one JSON document.
pub uninterp spec fn json_valid(text: Seq<char>) -> bool;

/// A name for the document that `serde_json::from_str::<Value>` reads from
/// a text.
pub uninterp spec fn json_doc(text: Seq<char>) -> serde_json::Value;

/// A name for what `Value::get` with a key gives: the member of an object.
pub uninterp spec fn json_get(v: serde_json::Value, key: Seq<char>) -> Option<serde_json::Value>;

/// A name for what `Value::as_str` gives: the text of a string value.
pub uninterp spec fn json_str(v: serde_json::Value) -> Option<Seq<char>>;

/// A name for what `Value::as_array` gives: the elements of an array value.
pub uninterp spec fn json_elements(v: serde_json::Value) -> Option<Seq<serde_json::Value>>;

/// A name for what `Value::is_object` gives.
pub uninterp spec fn json_is_obj(v: serde_json::Value) -> bool;

/// Relies on `serde_json::from_str::<Value>`: it succeeds exactly on valid
/// JSON text, and reports why otherwise.
#[verifier::external_body]
fn parse_json(text: &str) -> (r: Result<serde_json::Value, String>)
    ensures
        r is Ok <==> json_valid(text@),
        r matches Ok(v) ==> v == json_doc(text@),
{
    serde_json::from_str::<serde_json::Value>(text).map_err(|e| e.to_string())
}

/// Relies on `serde_json::Value::get` with a key: the member of an object.
#[verifier::external_body]
fn json_member<'a>(v: &'a serde_json::Value, key: &str) -> (r: Option<&'a serde_json::Value>)
    ensures
        match r {
            Some(x) => json_get(*v, key@) == Some(*x),
            None => json_get(*v, key@) is None,
        },
{
    v.get(key)
}

/// Relies on `serde_json::Value::as_str`: the text of a string value.
#[verifier::external_body]
fn json_text(v: &serde_json::Value) -> (r: Option<String>)
    ensures
        crate::review::opt_view(r) == json_str(*v),
{
    v.as_str().map(String::from)
}

/// Relies on `serde_json::Value::as_array`: the elements of an array
/// value.
#[verifier::external_body]
fn json_array(v: &serde_json::Value) -> (r: Option<&Vec<serde_json::Value>>)
    ensures
        match r {
            Some(a) => json_elements(*v) == Some(a@),
            None => json_elements(*v) is None,
        },
{
    v.as_array()
}

/// Relies on `serde_json::Value::is_object`.
#[verifier::external_body]
fn json_is_object(v: &serde_json::Value) -> (r: bool)
    ensures
        r == json_is_obj(*v),
{
    v.is_object()
}

/// A hexadecimal digit in lower case.
pub open spec fn hex_digit(d: nat) -> char {
    "0123456789abcdef"@[d as int]
}

/// How `serde_json` writes one character inside a string literal: quote
/// and backslash escaped, the short escapes for backspace, tab, newline,
/// form feed and carriage return, `\u00XX` for other control characters,
/// and any other character as it is.
pub open spec fn json_escape(c: char) -> Seq<char> {
    let u = c as u32;
    if c == '"' {
        seq!['\\', '"']
    } else if c == '\\' {
        seq!['\\', '\\']
    } else if u == 8 {
        seq!['\\', 'b']
    } else if u == 9 {
        seq!['\\', 't']
    } else if u == 10 {
        seq!['\\', 'n']
    } else if u == 12 {
        seq!['\\', 'f']
    } else if u == 13 {
        seq!['\\', 'r']
    } else if u < 32 {
        seq!['\\', 'u', '0', '0', hex_digit((u / 16) as nat), hex_digit((u % 16) as nat)]
    } else {
        seq![c]
    }
}

pub open spec fn json_escaped(s: Seq<char>) -> Seq<char>
    decreases s.len(),
{
    if s.len() == 0 {
        Seq::empty()
    } else {
        json_escaped(s.drop_last()) + json_escape(s.last())
    }
}

/// The JSON string literal for `s`.
pub open spec fn json_quoted(s: Seq<char>) -> Seq<char> {
    seq!['"'] + json_escaped(s) + seq!['"']
}

/// Relies on `serde_json::to_string` on a string, which cannot fail: the
/// string in quotes, escaped as `format_escaped_str` does.
#[verifier::external_body]
fn json_string(s: &str) -> (r: String)
    ensures
        r@ == json_quoted(s@),
{
    match serde_json::to_string(s) {
        Ok(t) => t,
        Err(_) => String::new(),
    }
}

/// The providers tried, in order, with the environment variable that holds
/// each one's key.
pub open spec fn provider_table() -> Seq<(Seq<char>, Seq<char>)> {
    seq![
        ("openai"@, "OPENAI_API_KEY"@),
        ("anthropic"@, "ANTHROPIC_API_KEY"@),
        ("azure"@, "AZURE_OPENAI_API_KEY"@),
        ("mistral"@, "MISTRAL_API_KEY"@),
        ("together"@, "TOGETHER_API_KEY"@),
    ]
}

/// The first provider of `list` other than `skip` whose key variable is
/// set in `env`, with that key.
pub open spec fn first_available(list: Seq<(Seq<char>, Seq<char>)>, skip: Seq<char>, env: Table) -> Option<
    (Seq<char>, Seq<char>),
>
    decreases list.len(),
{
    if list.len() == 0 {
        None
    } else if list[0].0 != skip && table_get(env, list[0].1) is Some {
        Some((list[0].0, table_get(env, list[0].1)->Some_0))
    } else {
        first_available(list.drop_first(), skip, env)
    }
}

/// The key variable of a provider, by lower-case name.
pub open spec fn key_variable(lowered: Seq<char>) -> Option<Seq<char>> {
    if lowered == "openai"@ {
        Some("OPENAI_API_KEY"@)
    } else if lowered == "anthropic"@ {
        Some("ANTHROPIC_API_KEY"@)
    } else if lowered == "azure"@ {
        Some("AZURE_OPENAI_API_KEY"@)
    } else if lowered == "mistral"@ {
        Some("MISTRAL_API_KEY"@)
    } else if lowered == "together"@ {
        Some("TOGETHER_API_KEY"@)
    } else {
        None
    }
}

/// The provider and key to use: a key in the configuration goes with the
/// preferred provider; else the preferred provider's own variable; else the
/// first other provider, in the fixed order, whose variable is set. `env`
/// holds the variables that are set, by name.
pub open spec fn credential_choice(
    config_key: Option<Seq<char>>,
    preferred: Seq<char>,
    lowered: Seq<char>,
    env: Table,
) -> Option<(Seq<char>, Seq<char>)> {
    match config_key {
        Some(k) => Some((preferred, k)),
        None => match key_variable(lowered) {
            Some(var) if table_get(env, var) is Some => Some((preferred, table_get(env, var)->Some_0)),
            _ => first_available(provider_table(), lowered, env),
        },
    }
}

fn provider_list() -> (r: Vec<(String, String)>)
    ensures
        pair_views(r@) == provider_table(),
{
    let mut r: Vec<(String, String)> = Vec::new();
    r.push((String::from_str("openai"), String::from_str("OPENAI_API_KEY")));
    r.push((String::from_str("anthropic"), String::from_str("ANTHROPIC_API_KEY")));
    r.push((String::from_str("azure"), String::from_str("AZURE_OPENAI_API_KEY")));
    r.push((String::from_str("mistral"), String::from_str("MISTRAL_API_KEY")));
    r.push((String::from_str("together"), String::from_str("TOGETHER_API_KEY")));
    assert(pair_views(r@) =~= provider_table());
    r
}

fn lookup(env: &Vec<(String, String)>, name: &str) -> (r: Option<String>)
    ensures
        r matches Some(v) ==> table_get(pair_views(env@), name@) == Some(v@),
        r is None ==> table_get(pair_views(env@), name@) is None,
{
    match find_entry(env, &chars_of(name)) {
        Some(i) => Some(env[i].1.clone()),
        None => None,
    }
}

/// The provider and key to use, given the preferred provider's name in
/// lower case.
pub fn select_credential_lowered(
    config_key: &Option<String>,
    preferred_provider: &str,
    lowered: &str,
    env: &Vec<(String, String)>,
) -> (r: Result<(String, String), SpecGenError>)
    ensures
        r matches Ok((p, k)) ==> credential_choice(
            crate::review::opt_view(*config_key),
            preferred_provider@,
            lowered@,
            pair_views(env@),
        ) == Some((p@, k@)),
        r is Err <==> credential_choice(
            crate::review::opt_view(*config_key),
            preferred_provider@,
            lowered@,
            pair_views(env@),
        ) is None,
        r matches Err(e) ==> (e matches SpecGenError::CredentialMissing(m) && m@
            == "No API keys found for any provider"@),
{
    match config_key {
        Some(k) => {
            return Ok((String::from_str(preferred_provider), k.clone()));
        },
        None => {},
    }
    let l = chars_of(lowered);
    let var: Option<&str> = if chars_eq(&l, &chars_of("openai")) {
        Some("OPENAI_API_KEY")
    } else if chars_eq(&l, &chars_of("anthropic")) {
        Some("ANTHROPIC_API_KEY")
    } else if chars_eq(&l, &chars_of("azure")) {
        Some("AZURE_OPENAI_API_KEY")
    } else if chars_eq(&l, &chars_of("mistral")) {
        Some("MISTRAL_API_KEY")
    } else if chars_eq(&l, &chars_of("together")) {
        Some("TOGETHER_API_KEY")
    } else {
        None
    };
    assert(var matches Some(v) ==> key_variable(lowered@) == Some(v@));
    assert(var is None ==> key_variable(lowered@) is None);
    match var {
        Some(v) => match lookup(env, v) {
            Some(key) => {
                return Ok((String::from_str(preferred_provider), key));
            },
            None => {},
        },
        None => {},
    }
    assert(config_key is None);
    assert(credential_choice(
        crate::review::opt_view(*config_key),
        preferred_provider@,
        lowered@,
        pair_views(env@),
    ) == first_available(provider_table(), lowered@, pair_views(env@)));
    let list = provider_list();
    let ghost t = provider_table();
    let mut i: usize = 0;
    assert(t.subrange(0, 5) =~= t);
    while i < list.len()
        invariant
            i <= list.len() == 5,
            t == provider_table(),
            pair_views(list@) == t,
            l@ == lowered@,
            credential_choice(
                crate::review::opt_view(*config_key),
                preferred_provider@,
                lowered@,
                pair_views(env@),
            ) == first_available(t, lowered@, pair_views(env@)),
            first_available(t, lowered@, pair_views(env@)) == first_available(
                t.subrange(i as int, 5),
                lowered@,
                pair_views(env@),
            ),
        decreases list.len() - i,
    {
        assert(t.subrange(i as int, 5).drop_first() =~= t.subrange(i + 1, 5));
        assert(t.subrange(i as int, 5)[0] == t[i as int]);
        let name = chars_of(list[i].0.as_str());
        if !chars_eq(&name, &l) {
            match lookup(env, list[i].1.as_str()) {
                Some(key) => {
                    assert(pair_views(list@)[i as int] == (list@[i as int].0@, list@[i as int].1@));
                    return Ok((list[i].0.clone(), key));
                },
                None => {},
            }
        }
        i = i + 1;
    }
    Err(SpecGenError::CredentialMissing(String::from_str("No API keys found for any provider")))
}

/// The provider and key to use; the preferred provider's name is compared
/// in lower case.
pub fn select_credential(
    config_key: &Option<String>,
    preferred_provider: &str,
    env: &Vec<(String, String)>,
) -> (r: Result<(String, String), SpecGenError>)
    ensures
        r matches Ok((p, k)) ==> credential_choice(
            crate::review::opt_view(*config_key),
            preferred_provider@,
            lower_of(preferred_provider@),
            pair_views(env@),
        ) == Some((p@, k@)),
        r is Err <==> credential_choice(
            crate::review::opt_view(*config_key),
            preferred_provider@,
            lower_of(preferred_provider@),
            pair_views(env@),
        ) is None,
        r matches Err(e) ==> (e matches SpecGenError::CredentialMissing(m) && m@
            == "No API keys found for any provider"@),
{
    let lowered = lowercase(preferred_provider);
    select_credential_lowered(config_key, preferred_provider, lowered.as_str(), env)
}

/// The two request shapes that providers take.
#[derive(Debug, Clone, Copy, PartialEq, Eq, Structural)]
pub enum ProviderFamily {
    /// A `messages` array with system and user turns, bearer
    /// authentication; the answer is at `choices[0].message.content`.
    ChatCompletions,
    /// A `system` field and one user message, a key header and a protocol
    /// version header; the answer is at `content[0].text`.
    Messages,
}

/// Everything needed to send one model request.
#[derive(Debug, Clone)]
pub struct RequestPlan {
    pub provider: String,
    pub family: ProviderFamily,
    pub endpoint: String,
    pub model: String,
    pub headers: Vec<(String, String)>,
    pub body: String,
}

pub open spec fn family_of(provider: Seq<char>) -> ProviderFamily {
    if provider == "anthropic"@ {
        ProviderFamily::Messages
    } else {
        ProviderFamily::ChatCompletions
    }
}

pub open spec fn or_default(o: Option<Seq<char>>, d: Seq<char>) -> Seq<char> {
    match o {
        Some(v) => v,
        None => d,
    }
}

/// The endpoint and model for a provider, given the configured ones.
pub open spec fn endpoint_and_model(
    provider: Seq<char>,
    endpoint: Option<Seq<char>>,
    model: Option<Seq<char>>,
    messages_model: Option<Seq<char>>,
) -> (Seq<char>, Seq<char>) {
    if provider == "openai"@ {
        (
            or_default(endpoint, "https://api.openai.com/v1/chat/completions"@),
            or_default(model, "gpt-4o"@),
        )
    } else if provider == "anthropic"@ {
        ("https://api.anthropic.com/v1/messages"@, or_default(messages_model, or_default(model, Seq::empty())))
    } else if provider == "azure"@ {
        (or_default(endpoint, Seq::empty()), or_default(model, "gpt-4"@))
    } else if provider == "mistral"@ {
        ("https://api.mistral.ai/v1/chat/completions"@, "mistral-large-latest"@)
    } else if provider == "together"@ {
        ("https://api.together.xyz/v1/completions"@, "llama-3-70b-instruct"@)
    } else {
        ("https://api.openai.com/v1/chat/completions"@, "gpt-4o"@)
    }
}

/// A temperature given in hundredths, written as a JSON number.
pub open spec fn temperature_text(h: nat) -> Seq<char> {
    let frac = h % 100;
    decimal(h / 100) + "."@ + if frac == 0 {
        "0"@
    } else if frac % 10 == 0 {
        decimal(frac / 10)
    } else if frac < 10 {
        "0"@ + decimal(frac)
    } else {
        decimal(frac)
    }
}

pub open spec fn system_persona() -> Seq<char> {
    "You are a formal verification expert who creates precise, detailed formal specifications."@
}

/// The JSON request body.
pub open spec fn request_body(family: ProviderFamily, model: Seq<char>, prompt: Seq<char>, temp: Seq<
    char,
>, max_tokens: nat) -> Seq<char> {
    match family {
        ProviderFamily::ChatCompletions => "{\"model\":"@ + json_quoted(model)
            + ",\"messages\":[{\"role\":\"system\",\"content\":"@ + json_quoted(system_persona())
            + "},{\"role\":\"user\",\"content\":"@ + json_quoted(prompt) + "}],\"temperature\":"@
            + temp + ",\"max_tokens\":"@ + decimal(max_tokens) + "}"@,
        ProviderFamily::Messages => "{\"max_tokens\":"@ + decimal(max_tokens)
            + ",\"messages\":[{\"content\":"@ + json_quoted(prompt)
            + ",\"role\":\"user\"}],\"model\":"@ + json_quoted(model) + ",\"system\":"@
            + json_quoted(system_persona()) + ",\"temperature\":"@ + temp + "}"@,
    }
}

/// The request headers.
pub open spec fn request_headers(family: ProviderFamily, key: Seq<char>) -> Table {
    match family {
        ProviderFamily::ChatCompletions => seq![
            ("Content-Type"@, "application/json"@),
            ("Authorization"@, "Bearer "@ + key),
        ],
        ProviderFamily::Messages => seq![
            ("Content-Type"@, "application/json"@),
            ("x-api-key"@, key),
            ("anthropic-version"@, "2023-06-01"@),
        ],
    }
}

fn opt_text(o: &Option<String>) -> (r: Option<String>)
    ensures
        crate::review::opt_view(r) == crate::review::opt_view(*o),
{
    match o {
        Some(s) => Some(s.clone()),
        None => None,
    }
}

fn text_or(o: Option<String>, d: &str) -> (r: String)
    ensures
        r@ == or_default(crate::review::opt_view(o), d@),
{
    match o {
        Some(s) => s,
        None => String::from_str(d),
    }
}

/// A temperature given in hundredths, written as a JSON number.
pub fn temperature_string(h: u32) -> (r: String)
    ensures
        r@ == temperature_text(h as nat),
{
    let frac = h % 100;
    let mut r = string_of(&decimal_chars((h / 100) as u128));
    r.append(".");
    if frac == 0 {
        r.append("0");
    } else if frac % 10 == 0 {
        let d = string_of(&decimal_chars((frac / 10) as u128));
        r.append(d.as_str());
    } else if frac < 10 {
        r.append("0");
        let d = string_of(&decimal_chars(frac as u128));
        r.append(d.as_str());
    } else {
        let d = string_of(&decimal_chars(frac as u128));
        r.append(d.as_str());
    }
    r
}

/// The request to send for `prompt` to `provider` with key `api_key`:
/// its endpoint and model, headers, and JSON body; the temperature
/// defaults to 0.2 and the token budget to 4096. The `azure` provider
/// needs a configured endpoint. The `anthropic` provider is asked for the
/// configured `messages_model`, else the configured model.
pub fn plan_request(config: &GeneratorConfig, provider: &str, api_key: &str, prompt: &str) -> (r:
    RequestPlan)
    requires
        provider@ == "azure"@ ==> config.llm_api.api_endpoint is Some,
    ensures
        r.provider@ == provider@,
        r.family == family_of(provider@),
        (r.endpoint@, r.model@) == endpoint_and_model(
            provider@,
            crate::review::opt_view(config.llm_api.api_endpoint),
            crate::review::opt_view(config.llm_api.model),
            crate::review::opt_view(config.messages_model),
        ),
        pair_views(r.headers@) == request_headers(r.family, api_key@),
        r.body@ == request_body(
            r.family,
            r.model@,
            prompt@,
            temperature_text(
                match config.temperature_hundredths {
                    Some(h) => h as nat,
                    None => 20,
                },
            ),
            match config.max_tokens {
                Some(m) => m as nat,
                None => 4096,
            },
        ),
{
    let p = chars_of(provider);
    let endpoint_cfg = opt_text(&config.llm_api.api_endpoint);
    let model_cfg = opt_text(&config.llm_api.model);
    let (endpoint, model) = if chars_eq(&p, &chars_of("openai")) {
        (
            text_or(endpoint_cfg, "https://api.openai.com/v1/chat/completions"),
            text_or(model_cfg, "gpt-4o"),
        )
    } else if chars_eq(&p, &chars_of("anthropic")) {
        (
            String::from_str("https://api.anthropic.com/v1/messages"),
            match opt_text(&config.messages_model) {
                Some(m) => m,
                None => text_or(opt_text(&config.llm_api.model), ""),
            },
        )
    } else if chars_eq(&p, &chars_of("azure")) {
        (text_or(endpoint_cfg, ""), text_or(model_cfg, "gpt-4"))
    } else if chars_eq(&p, &chars_of("mistral")) {
        (
            String::from_str("https://api.mistral.ai/v1/chat/completions"),
            String::from_str("mistral-large-latest"),
        )
    } else if chars_eq(&p, &chars_of("together")) {
        (
            String::from_str("https://api.together.xyz/v1/completions"),
            String::from_str("llama-3-70b-instruct"),
        )
    } else {
        (
            String::from_str("https://api.openai.com/v1/chat/completions"),
            String::from_str("gpt-4o"),
        )
    };
    proof {
        reveal_strlit("");
    }
    let family = if chars_eq(&p, &chars_of("anthropic")) {
        ProviderFamily::Messages
    } else {
        ProviderFamily::ChatCompletions
    };
    let h: u32 = match config.temperature_hundredths {
        Some(h) => h,
        None => 20,
    };
    let max: usize = match config.max_tokens {
        Some(m) => m,
        None => 4096,
    };
    let temp = temperature_string(h);
    let max_text = string_of(&decimal_chars(max as u128));
    let q_model = json_string(model.as_str());
    let q_prompt = json_string(prompt);
    let q_system = json_string("You are a formal verification expert who creates precise, detailed formal specifications.");
    let mut headers: Vec<(String, String)> = Vec::new();
    headers.push((String::from_str("Content-Type"), String::from_str("application/json")));
    let mut body;
    match family {
        ProviderFamily::ChatCompletions => {
            let mut auth = String::from_str("Bearer ");
            auth.append(api_key);
            headers.push((String::from_str("Authorization"), auth));
            body = String::from_str("{\"model\":");
            body.append(q_model.as_str());
            body.append(",\"messages\":[{\"role\":\"system\",\"content\":");
            body.append(q_system.as_str());
            body.append("},{\"role\":\"user\",\"content\":");
            body.append(q_prompt.as_str());
            body.append("}],\"temperature\":");
            body.append(temp.as_str());
            body.append(",\"max_tokens\":");
            body.append(max_text.as_str());
            body.append("}");
        },
        ProviderFamily::Messages => {
            headers.push((String::from_str("x-api-key"), String::from_str(api_key)));
            headers.push((String::from_str("anthropic-version"), String::from_str("2023-06-01")));
            body = String::from_str("{\"max_tokens\":");
            body.append(max_text.as_str());
            body.append(",\"messages\":[{\"content\":");
            body.append(q_prompt.as_str());
            body.append(",\"role\":\"user\"}],\"model\":");
            body.append(q_model.as_str());
            body.append(",\"system\":");
            body.append(q_system.as_str());
            body.append(",\"temperature\":");
            body.append(temp.as_str());
            body.append("}");
        },
    }
    assert(pair_views(headers@) =~= request_headers(family, api_key@));
    RequestPlan { provider: String::from_str(provider), family, endpoint, model, headers, body }
}

/// Whether an HTTP status reports success.
pub open spec fn is_success(status: u16) -> bool {
    200 <= status < 300
}

/// The text at `choices[0].message.content`, where `message` is an object.
pub open spec fn chat_text(v: serde_json::Value) -> Option<Seq<char>> {
    match json_get(v, "choices"@) {
        Some(c) => match json_elements(c) {
            Some(items) => if items.len() == 0 {
                None
            } else {
                match json_get(items[0], "message"@) {
                    Some(m) => if json_is_obj(m) {
                        match json_get(m, "content"@) {
                            Some(t) => json_str(t),
                            None => None,
                        }
                    } else {
                        None
                    },
                    None => None,
                }
            },
            None => None,
        },
        None => None,
    }
}

/// Whether `choices` is an empty array.
pub open spec fn choices_empty(v: serde_json::Value) -> bool {
    json_get(v, "choices"@) matches Some(c) && json_elements(c) matches Some(items) && items.len()
        == 0
}

/// The text of a `completion` string member.
pub open spec fn completion_of(v: serde_json::Value) -> Option<Seq<char>> {
    match json_get(v, "completion"@) {
        Some(c) => json_str(c),
        None => None,
    }
}

/// The text of a messages answer: where `content` is an array, the text
/// of its first element (none for an empty array or a first element
/// without text); where it is a string, that string; else the
/// `completion` string.
pub open spec fn messages_text(v: serde_json::Value) -> Option<Seq<char>> {
    match json_get(v, "content"@) {
        Some(c) => match json_elements(c) {
            Some(items) => if items.len() == 0 {
                None
            } else {
                match json_get(items[0], "text"@) {
                    Some(t) => json_str(t),
                    None => None,
                }
            },
            None => match json_str(c) {
                Some(t) => Some(t),
                None => completion_of(v),
            },
        },
        None => completion_of(v),
    }
}

/// The text that an answer of a family holds.
pub open spec fn answer_text(family: ProviderFamily, v: serde_json::Value) -> Option<Seq<char>> {
    match family {
        ProviderFamily::ChatCompletions => chat_text(v),
        ProviderFamily::Messages => messages_text(v),
    }
}

fn first_choice_content(v: &serde_json::Value) -> (r: Option<String>)
    ensures
        crate::review::opt_view(r) == chat_text(*v),
{
    let items = match json_member(v, "choices") {
        Some(choices) => match json_array(choices) {
            Some(items) => items,
            None => return None,
        },
        None => return None,
    };
    if items.len() == 0 {
        return None;
    }
    let message = match json_member(&items[0], "message") {
        Some(m) => m,
        None => return None,
    };
    if !json_is_object(message) {
        return None;
    }
    match json_member(message, "content") {
        Some(content) => json_text(content),
        None => None,
    }
}

fn chat_completions_content(v: &serde_json::Value) -> (r: Result<String, SpecGenError>)
    ensures
        chat_text(*v) matches Some(t) ==> (r matches Ok(s) && s@ == t),
        chat_text(*v) is None && choices_empty(*v) ==> (r matches Err(e) && e is ApiError),
        chat_text(*v) is None && !choices_empty(*v) ==> (r matches Err(e) && e is ParseError),
{
    match first_choice_content(v) {
        Some(text) => Ok(text),
        None => {
            let empty = match json_member(v, "choices") {
                Some(choices) => match json_array(choices) {
                    Some(items) => items.len() == 0,
                    None => false,
                },
                None => false,
            };
            if empty {
                Err(SpecGenError::ApiError(String::from_str("No response from API")))
            } else {
                Err(
                    SpecGenError::ParseError(
                        String::from_str("Failed to parse API response: unexpected response shape"),
                    ),
                )
            }
        },
    }
}

fn messages_content(v: &serde_json::Value) -> (r: Result<String, SpecGenError>)
    ensures
        messages_text(*v) matches Some(t) ==> (r matches Ok(s) && s@ == t),
        messages_text(*v) is None ==> (r matches Err(e) && e is ParseError),
{
    let content = match json_member(v, "content") {
        Some(c) => c,
        None => return completion_text(v),
    };
    match json_array(content) {
        Some(items) => {
            if items.len() == 0 {
                return Err(
                    SpecGenError::ParseError(
                        String::from_str("Empty content array in Anthropic response"),
                    ),
                );
            }
            let text = match json_member(&items[0], "text") {
                Some(t) => json_text(t),
                None => None,
            };
            match text {
                Some(t) => Ok(t),
                None => Err(
                    SpecGenError::ParseError(
                        String::from_str("Missing text in Anthropic response content"),
                    ),
                ),
            }
        },
        None => match json_text(content) {
            Some(t) => Ok(t),
            None => completion_text(v),
        },
    }
}

fn completion_text(v: &serde_json::Value) -> (r: Result<String, SpecGenError>)
    ensures
        completion_of(*v) matches Some(t) ==> (r matches Ok(s) && s@ == t),
        completion_of(*v) is None ==> (r matches Err(e) && e is ParseError),
{
    let found = match json_member(v, "completion") {
        Some(c) => json_text(c),
        None => None,
    };
    match found {
        Some(t) => Ok(t),
        None => Err(
            SpecGenError::ParseError(String::from_str("Unable to find content in Anthropic response")),
        ),
    }
}

/// Turns a provider's answer into text. A non-success status is an HTTP
/// error carrying the body; a body that is not JSON is a parse error; a JSON
/// body gives the text where the family puts it, else a parse error (or,
/// for a chat answer with an empty `choices` array, an API error).
pub fn interpret_response(family: ProviderFamily, status: u16, body: &str) -> (r: Result<
    String,
    SpecGenError,
>)
    ensures
        !is_success(status) ==> (r matches Err(SpecGenError::HttpError { status: s, message }) && s
            == status && message@ == body@),
        is_success(status) && !json_valid(body@) ==> (r matches Err(e) && e is ParseError),
        r is Ok ==> is_success(status) && json_valid(body@),
        is_success(status) && json_valid(body@) ==> (answer_text(family, json_doc(body@)) matches Some(
            t,
        ) ==> (r matches Ok(s) && s@ == t)),
        is_success(status) && json_valid(body@) && answer_text(family, json_doc(body@)) is None ==> (
        r matches Err(e) && (if family == ProviderFamily::ChatCompletions && choices_empty(
            json_doc(body@),
        ) {
            e is ApiError
        } else {
            e is ParseError
        })),
        r matches Err(e) ==> (e is HttpError || e is ParseError || (e is ApiError && family
            == ProviderFamily::ChatCompletions)),
{
    if !(200 <= status && status < 300) {
        return Err(SpecGenError::HttpError { status, message: String::from_str(body) });
    }
    match parse_json(body) {
        Ok(v) => match family {
            ProviderFamily::ChatCompletions => chat_completions_content(&v),
            ProviderFamily::Messages => messages_content(&v),
        },
        Err(e) => {
            let mut m = match family {
                ProviderFamily::ChatCompletions => String::from_str("Invalid JSON response: "),
                ProviderFamily::Messages => String::new(),
            };
            m.append(e.as_str());
            Err(SpecGenError::ParseError(m))
        },
    }
}

} // verus!
