//! Generator configuration and the prompt renderer.
use vstd::prelude::*;
use vstd::string::*;
use crate::errors::SpecGenError;
use crate::parser::{chars_eq, pair_views, table_index, Table};
use crate::text::{
    chars_of, extend_chars, find_from, find_from_chars, occurs_at, occurs_at_chars, slice_chars,
    string_of,
};

verus! {

/// Access settings of a model service.
#[derive(Debug, Clone)]
pub struct ApiConfig {
    pub api_key: Option<String>,
    pub api_endpoint: Option<String>,
    pub model: Option<String>,
    pub organization_id: Option<String>,
    pub parameters: Option<Vec<(String, String)>>,
}

/// Settings for one application domain.
#[derive(Debug, Clone)]
pub struct DomainConfig {
    pub templates: Option<Vec<String>>,
    pub prompt_additions: Option<String>,
    pub recommended_verification_systems: Option<Vec<String>>,
    pub recommended_verification_languages: Option<Vec<String>>,
}

/// Configuration of the generator. Tables are lists of named entries with
/// unique names; the temperature is kept in hundredths.
#[derive(Debug, Clone)]
pub struct GeneratorConfig {
    pub llm_api: ApiConfig,
    pub verification_apis: Vec<(String, ApiConfig)>,
    pub templates_dir: Option<String>,
    pub prompt_templates: Vec<(String, String)>,
    pub use_chain_of_thought: Option<bool>,
    pub max_tokens: Option<usize>,
    pub temperature_hundredths: Option<u32>,
    pub domain_configs: Option<Vec<(String, DomainConfig)>>,
    /// The model that the `anthropic` provider is asked for; where it is
    /// not set, that provider is asked for `llm_api.model`.
    pub messages_model: Option<String>,
}

/// The entry named `k` in `t`, if any.
pub open spec fn table_get(t: Table, k: Seq<char>) -> Option<Seq<char>> {
    match table_index(t, k) {
        Some(i) => Some(t[i].1),
        None => None,
    }
}

/// The position of the entry named `key`.
pub fn find_entry(t: &Vec<(String, String)>, key: &Vec<char>) -> (r: Option<usize>)
    ensures
        r matches Some(i) ==> table_index(pair_views(t@), key@) == Some(i as int) && i < t.len(),
        r is None ==> table_index(pair_views(t@), key@) is None,
{
    let ghost v = pair_views(t@);
    let mut i = t.len();
    assert(v.take(i as int) =~= v);
    while i > 0
        invariant
            i <= t.len(),
            v == pair_views(t@),
            table_index(v, key@) == table_index(v.take(i as int), key@),
        decreases i,
    {
        assert(v.take(i as int).drop_last() =~= v.take(i - 1));
        let name = chars_of(t[i - 1].0.as_str());
        if chars_eq(&name, key) {
            assert(table_index(v.take(i as int), key@) == Some(i - 1));
            return Some(i - 1);
        }
        i = i - 1;
    }
    None
}

impl GeneratorConfig {
    /// The prompt template named `template_name`.
    pub fn get_template(&self, template_name: &str) -> (r: Option<String>)
        ensures
            r matches Some(t) ==> table_get(pair_views(self.prompt_templates@), template_name@)
                == Some(t@),
            r is None ==> table_get(pair_views(self.prompt_templates@), template_name@) is None,
    {
        match find_entry(&self.prompt_templates, &chars_of(template_name)) {
            Some(i) => Some(self.prompt_templates[i].1.clone()),
            None => None,
        }
    }
}

/// Single-pass placeholder substitution from position `i` of template `t`:
/// at `{{`, the name runs to the next `}}`; a name bound in `params` is
/// replaced by its value, which is not itself scanned again. Any other
/// character is copied.
pub open spec fn render_from(t: Seq<char>, params: Table, i: int) -> Seq<char>
    decreases t.len() - i,
{
    if i < 0 || i >= t.len() {
        Seq::empty()
    } else if occurs_at(t, "{{"@, i) && find_from(t, "}}"@, i + 2) is Some && table_get(
        params,
        t.subrange(i + 2, find_from(t, "}}"@, i + 2)->Some_0),
    ) is Some && i < find_from(t, "}}"@, i + 2)->Some_0 + 2 <= t.len() {
        let j = find_from(t, "}}"@, i + 2)->Some_0;
        table_get(params, t.subrange(i + 2, j))->Some_0 + render_from(t, params, j + 2)
    } else {
        seq![t[i]] + render_from(t, params, i + 1)
    }
}

/// Template `t` with every bound placeholder replaced.
pub open spec fn rendered(t: Seq<char>, params: Table) -> Seq<char> {
    render_from(t, params, 0)
}

/// Fills the placeholders of `template` from `params` in a single pass.
pub fn substitute(template: &str, params: &Vec<(String, String)>) -> (r: String)
    ensures
        r@ == rendered(template@, pair_views(params@)),
{
    let t = chars_of(template);
    let open = chars_of("{{");
    let close = chars_of("}}");
    proof {
        reveal_strlit("{{");
        reveal_strlit("}}");
    }
    let ghost p = pair_views(params@);
    let mut out: Vec<char> = Vec::new();
    let mut i: usize = 0;
    while i < t.len()
        invariant
            i <= t.len(),
            t@ == template@,
            open@ == "{{"@,
            close@ == "}}"@,
            open@.len() == 2,
            close@.len() == 2,
            p == pair_views(params@),
            rendered(t@, p) == out@ + render_from(t@, p, i as int),
        decreases t.len() - i,
    {
        let mut replaced = false;
        if occurs_at_chars(&t, &open, i) {
            assert(i + 2 <= t.len());
            match find_from_chars(&t, &close, i + 2) {
                Some(j) => {
                    proof {
                        crate::text::lemma_find_from_found(t@, close@, i + 2);
                    }
                    let key = slice_chars(&t, i + 2, j);
                    match find_entry(params, &key) {
                        Some(k) => {
                            let value = chars_of(params[k].1.as_str());
                            assert(p[k as int].1 == value@);
                            assert(table_get(p, t@.subrange(i + 2, j as int)) == Some(value@));
                            assert(render_from(t@, p, i as int) == value@ + render_from(
                                t@,
                                p,
                                j + 2,
                            ));
                            let ghost before = out@;
                            extend_chars(&mut out, &value);
                            assert(before + render_from(t@, p, i as int) =~= out@ + render_from(
                                t@,
                                p,
                                j + 2,
                            ));
                            i = j + 2;
                            replaced = true;
                        },
                        None => {},
                    }
                },
                None => {},
            }
        }
        if !replaced {
            let ghost before = out@;
            out.push(t[i]);
            assert(before + render_from(t@, p, i as int) =~= out@ + render_from(t@, p, i + 1));
            i = i + 1;
        }
    }
    string_of(&out)
}

/// What rendering template `name` of `templates` with `params` gives: the
/// rendered text, or `None` where no such template exists.
pub open spec fn render_result(templates: Table, name: Seq<char>, params: Table) -> Option<Seq<char>> {
    match table_get(templates, name) {
        Some(t) => Some(rendered(t, params)),
        None => None,
    }
}

/// Renders the template named `template_name` with `params`; a missing
/// template is a template error.
pub fn render_template(
    config: &GeneratorConfig,
    template_name: &str,
    params: &Vec<(String, String)>,
) -> (r: Result<String, SpecGenError>)
    ensures
        r matches Ok(t) ==> render_result(
            pair_views(config.prompt_templates@),
            template_name@,
            pair_views(params@),
        ) == Some(t@),
        r is Err <==> render_result(
            pair_views(config.prompt_templates@),
            template_name@,
            pair_views(params@),
        ) is None,
        r matches Err(e) ==> (e matches SpecGenError::TemplateError(m) && m@ == "Template not found: "@
            + template_name@),
{
    match config.get_template(template_name) {
        Some(t) => Ok(substitute(t.as_str(), params)),
        None => {
            let mut m = String::from_str("Template not found: ");
            m.append(template_name);
            Err(SpecGenError::TemplateError(m))
        },
    }
}

/// Rendering is a function of the templates, the name and the parameters:
/// rendering the same template with the same parameters twice yields the
/// same text.
pub proof fn rendering_is_idempotent(t1: Table, t2: Table, name: Seq<char>, p1: Table, p2: Table)
    requires
        t1 == t2,
        p1 == p2,
    ensures
        render_result(t1, name, p1) == render_result(t2, name, p2),
{
}

/// A template without `{{` is rendered unchanged.
pub proof fn template_without_placeholders_is_unchanged(t: Seq<char>, params: Table, i: int)
    requires
        0 <= i <= t.len(),
        forall|k: int| i <= k < t.len() ==> !occurs_at(t, "{{"@, k),
    ensures
        render_from(t, params, i) == t.subrange(i, t.len() as int),
    decreases t.len() - i,
{
    if i < t.len() {
        template_without_placeholders_is_unchanged(t, params, i + 1);
        assert(seq![t[i]] + t.subrange(i + 1, t.len() as int) =~= t.subrange(i, t.len() as int));
    } else {
        assert(t.subrange(i, t.len() as int) =~= Seq::<char>::empty());
    }
}

pub open spec fn specification_template() -> Seq<char> {
    "\nYou are a formal verification expert. Your task is to translate natural language requirements into\nformal specifications in the {{verification_language}} verification language.\n\nGiven the following requirements for a {{domain}} system:\n\n{{requirements}}\n\nGenerate a complete, formal specification in {{verification_language}} that captures all the \nrequirements and ensures correctness, safety, and security properties. Be thorough and precise.\n\nThe specification should include:\n1. All necessary types and functions\n2. Formal properties that must be satisfied\n3. Preconditions and postconditions\n4. Invariants that must be maintained\n5. Security properties (if applicable)\n6. Resource usage constraints (if applicable)\n\nAdditional context for this domain:\n{{domain_context}}\n"@
}

impl Default for GeneratorConfig {
    /// The default configuration: the `specification` template, an
    /// OpenAI-style endpoint and model, 4096 tokens, temperature 0.2.
    fn default() -> (r: GeneratorConfig)
        ensures
            pair_views(r.prompt_templates@) == seq![("specification"@, specification_template())],
            r.llm_api.api_key is None,
            r.max_tokens == Some(4096usize),
            r.temperature_hundredths == Some(20u32),
    {
        let mut prompt_templates: Vec<(String, String)> = Vec::new();
        prompt_templates.push((String::from_str("specification"), String::from_str("\nYou are a formal verification expert. Your task is to translate natural language requirements into\nformal specifications in the {{verification_language}} verification language.\n\nGiven the following requirements for a {{domain}} system:\n\n{{requirements}}\n\nGenerate a complete, formal specification in {{verification_language}} that captures all the \nrequirements and ensures correctness, safety, and security properties. Be thorough and precise.\n\nThe specification should include:\n1. All necessary types and functions\n2. Formal properties that must be satisfied\n3. Preconditions and postconditions\n4. Invariants that must be maintained\n5. Security properties (if applicable)\n6. Resource usage constraints (if applicable)\n\nAdditional context for this domain:\n{{domain_context}}\n")));
        assert(pair_views(prompt_templates@) =~= seq![("specification"@, specification_template())]);
        GeneratorConfig {
            llm_api: ApiConfig {
                api_key: None,
                api_endpoint: Some(String::from_str("https://api.openai.com/v1/chat/completions")),
                model: Some(String::from_str("gpt-4o")),
                organization_id: None,
                parameters: None,
            },
            verification_apis: Vec::new(),
            templates_dir: None,
            prompt_templates,
            use_chain_of_thought: Some(true),
            max_tokens: Some(4096),
            temperature_hundredths: Some(20),
            domain_configs: None,
            messages_model: None,
        }
    }
}

/// The key under which a domain's guidance is kept.
pub open spec fn domain_key(d: crate::models::Domain) -> Seq<char> {
    match d {
        crate::models::Domain::Cryptography => "cryptography"@,
        crate::models::Domain::DistributedSystems => "distributedsystems"@,
        crate::models::Domain::WebSecurity => "websecurity"@,
        crate::models::Domain::MachineLearning => "machinelearning"@,
        crate::models::Domain::SystemsSoftware => "systemssoftware"@,
        crate::models::Domain::Blockchain => "blockchain"@,
        crate::models::Domain::SafetyControl => "safetycontrol"@,
        crate::models::Domain::HighAssuranceSoftware => "highassurance"@,
        crate::models::Domain::Custom(name) => name@,
    }
}

/// The guidance text for domain key `key`: a description, common
/// properties and advice for the two domains that have them, else a note
/// that none is available.
pub open spec fn domain_context_text(key: Seq<char>) -> Seq<char> {
    if key == "cryptography"@ {
        "Domain: cryptography\nDescription: Cryptographic systems require formal verification to ensure security properties like confidentiality, integrity, and authenticity.\n\nCommon properties for this domain:\n- Confidentiality: Encrypted data cannot be read by unauthorized parties\n- Integrity: Data cannot be modified without detection\n- Authentication: The identity of parties can be verified\n- Non-repudiation: Actions cannot be denied by the party that performed them\n- Forward secrecy: Compromise of long-term keys does not compromise past session keys\n\nVerification advice: Focus on proving security properties against active adversaries with defined capabilities. Consider side-channel attacks and timing vulnerabilities.\n"@
    } else if key == "distributedsystems"@ {
        "Domain: distributedsystems\nDescription: Distributed systems require formal verification to ensure consistency, fault tolerance, and liveness properties across multiple nodes.\n\nCommon properties for this domain:\n- Safety: Bad things never happen\n- Liveness: Good things eventually happen\n- Fault tolerance: The system can recover from specified types of failures\n- Consistency: All nodes eventually agree on the state\n- Deadlock freedom: The system never reaches a state where progress is impossible\n\nVerification advice: Use temporal logic to reason about system behavior over time. Consider all possible interleavings of events across nodes.\n"@
    } else {
        "Domain: "@ + key + "\nNo specific guidance available for this domain."@
    }
}

/// The guidance text for a domain.
pub fn domain_context(domain: &crate::models::Domain) -> (r: String)
    ensures
        r@ == domain_context_text(domain_key(*domain)),
{
    let key = match domain {
        crate::models::Domain::Cryptography => String::from_str("cryptography"),
        crate::models::Domain::DistributedSystems => String::from_str("distributedsystems"),
        crate::models::Domain::WebSecurity => String::from_str("websecurity"),
        crate::models::Domain::MachineLearning => String::from_str("machinelearning"),
        crate::models::Domain::SystemsSoftware => String::from_str("systemssoftware"),
        crate::models::Domain::Blockchain => String::from_str("blockchain"),
        crate::models::Domain::SafetyControl => String::from_str("safetycontrol"),
        crate::models::Domain::HighAssuranceSoftware => String::from_str("highassurance"),
        crate::models::Domain::Custom(name) => name.clone(),
    };
    let k = chars_of(key.as_str());
    if chars_eq(&k, &chars_of("cryptography")) {
        String::from_str("Domain: cryptography\nDescription: Cryptographic systems require formal verification to ensure security properties like confidentiality, integrity, and authenticity.\n\nCommon properties for this domain:\n- Confidentiality: Encrypted data cannot be read by unauthorized parties\n- Integrity: Data cannot be modified without detection\n- Authentication: The identity of parties can be verified\n- Non-repudiation: Actions cannot be denied by the party that performed them\n- Forward secrecy: Compromise of long-term keys does not compromise past session keys\n\nVerification advice: Focus on proving security properties against active adversaries with defined capabilities. Consider side-channel attacks and timing vulnerabilities.\n")
    } else if chars_eq(&k, &chars_of("distributedsystems")) {
        String::from_str("Domain: distributedsystems\nDescription: Distributed systems require formal verification to ensure consistency, fault tolerance, and liveness properties across multiple nodes.\n\nCommon properties for this domain:\n- Safety: Bad things never happen\n- Liveness: Good things eventually happen\n- Fault tolerance: The system can recover from specified types of failures\n- Consistency: All nodes eventually agree on the state\n- Deadlock freedom: The system never reaches a state where progress is impossible\n\nVerification advice: Use temporal logic to reason about system behavior over time. Consider all possible interleavings of events across nodes.\n")
    } else {
        let mut r = String::from_str("Domain: ");
        r.append(key.as_str());
        r.append("\nNo specific guidance available for this domain.");
        r
    }
}

pub open spec fn opt_strings_view(o: Option<Vec<String>>) -> Option<Seq<Seq<char>>> {
    match o {
        Some(v) => Some(crate::models::string_views(v@)),
        None => None,
    }
}

fn copy_opt_strings(o: &Option<Vec<String>>) -> (r: Option<Vec<String>>)
    ensures
        opt_strings_view(r) == opt_strings_view(*o),
{
    match o {
        Some(v) => Some(crate::models::copy_strings(v)),
        None => None,
    }
}

fn copy_opt_string(o: &Option<String>) -> (r: Option<String>)
    ensures
        crate::review::opt_view(r) == crate::review::opt_view(*o),
{
    match o {
        Some(s) => Some(s.clone()),
        None => None,
    }
}

/// The names of a domain table, in order.
pub open spec fn domain_names(v: Seq<(String, DomainConfig)>) -> Table {
    Seq::new(v.len(), |i: int| (v[i].0@, Seq::<char>::empty()))
}

/// Whether `r` holds the same settings as `c`.
pub open spec fn same_domain_config(r: DomainConfig, c: DomainConfig) -> bool {
    &&& opt_strings_view(r.templates) == opt_strings_view(c.templates)
    &&& crate::review::opt_view(r.prompt_additions) == crate::review::opt_view(c.prompt_additions)
    &&& opt_strings_view(r.recommended_verification_systems) == opt_strings_view(
        c.recommended_verification_systems,
    )
    &&& opt_strings_view(r.recommended_verification_languages) == opt_strings_view(
        c.recommended_verification_languages,
    )
}

impl GeneratorConfig {
    /// The settings of a domain, or empty settings where none are
    /// configured.
    pub fn get_domain_config(&self, domain: &str) -> (r: DomainConfig)
        ensures
            match self.domain_configs {
                Some(v) => match table_index(domain_names(v@), domain@) {
                    Some(i) => same_domain_config(r, v@[i].1),
                    None => r.templates is None && r.prompt_additions is None
                        && r.recommended_verification_systems is None
                        && r.recommended_verification_languages is None,
                },
                None => r.templates is None && r.prompt_additions is None
                    && r.recommended_verification_systems is None
                    && r.recommended_verification_languages is None,
            },
    {
        let key = chars_of(domain);
        match &self.domain_configs {
            Some(v) => {
                let ghost t = domain_names(v@);
                let mut i = v.len();
                assert(t.take(i as int) =~= t);
                while i > 0
                    invariant
                        i <= v.len(),
                        t == domain_names(v@),
                        key@ == domain@,
                        self.domain_configs == Some(*v),
                        table_index(t, domain@) == table_index(t.take(i as int), domain@),
                    decreases i,
                {
                    assert(t.take(i as int).drop_last() =~= t.take(i - 1));
                    let name = chars_of(v[i - 1].0.as_str());
                    if chars_eq(&name, &key) {
                        assert(table_index(t.take(i as int), domain@) == Some(i - 1));
                        let c = &v[i - 1].1;
                        return DomainConfig {
                            templates: copy_opt_strings(&c.templates),
                            prompt_additions: copy_opt_string(&c.prompt_additions),
                            recommended_verification_systems: copy_opt_strings(
                                &c.recommended_verification_systems,
                            ),
                            recommended_verification_languages: copy_opt_strings(
                                &c.recommended_verification_languages,
                            ),
                        };
                    }
                    i = i - 1;
                }
            },
            None => {},
        }
        DomainConfig {
            templates: None,
            prompt_additions: None,
            recommended_verification_systems: None,
            recommended_verification_languages: None,
        }
    }
}

} // verus!
