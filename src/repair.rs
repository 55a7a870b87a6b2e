//! The bounded auto-repair loop: issue classification, the repair prompt,
//! and the loop's decisions as a state machine driven by its caller.
use vstd::prelude::*;
use vstd::string::*;
use crate::models::{
    IssueSeverity, Specification, ValidationDepth, ValidationIssue, ValidationReport,
    string_views,
};
use crate::parser::{extracted_code, parse_formal_specification};
use crate::review::{issue_model, issue_models, review_prompt, IssueModel};
use crate::text::{
    chars_of, contains, contains_chars, find, find_from_chars, lower_of, lowercase, occurs_at,
    slice_chars, string_of, trim, trim_chars, views,
};

verus! {

/// Error-message phrases that precede a back-quoted symbol name.
pub open spec fn quoted_name_markers() -> Seq<Seq<char>> {
    seq![
        "undefined function `"@,
        "undefined predicate `"@,
        "undefined identifier `"@,
        "unknown identifier `"@,
        "unbound variable `"@,
    ]
}

/// Error-message phrases that precede a bare symbol name.
pub open spec fn bare_name_markers() -> Seq<Seq<char>> {
    seq![
        "undefined function "@,
        "undefined predicate "@,
        "undefined identifier "@,
        "unknown identifier "@,
        "unbound variable "@,
    ]
}

/// The first marker, in order, that occurs in `m` and is followed later by
/// a back-quote; the name is the trimmed text up to that back-quote.
pub open spec fn quoted_name(m: Seq<char>, markers: Seq<Seq<char>>) -> Option<Seq<char>>
    decreases markers.len(),
{
    if markers.len() == 0 {
        None
    } else {
        match find(m, markers[0]) {
            Some(i) => {
                let rest = m.subrange(i + markers[0].len(), m.len() as int);
                match find(rest, "`"@) {
                    Some(e) => Some(trim(rest.subrange(0, e))),
                    None => quoted_name(m, markers.drop_first()),
                }
            },
            None => quoted_name(m, markers.drop_first()),
        }
    }
}

pub open spec fn is_name_stop(c: char) -> bool {
    c == ' ' || c == ',' || c == '.' || c == ':'
}

/// The length of the leading run of `s` without a space, comma, period or
/// colon.
pub open spec fn name_len(s: Seq<char>) -> int
    decreases s.len(),
{
    if s.len() == 0 || is_name_stop(s[0]) {
        0
    } else {
        1 + name_len(s.drop_first())
    }
}

/// The first marker, in order, that occurs in `m`; the name is the trimmed
/// text after it up to a space, comma, period or colon.
pub open spec fn bare_name(m: Seq<char>, markers: Seq<Seq<char>>) -> Option<Seq<char>>
    decreases markers.len(),
{
    if markers.len() == 0 {
        None
    } else {
        match find(m, markers[0]) {
            Some(i) => {
                let rest = m.subrange(i + markers[0].len(), m.len() as int);
                Some(trim(rest.subrange(0, name_len(rest))))
            },
            None => bare_name(m, markers.drop_first()),
        }
    }
}

/// The symbol that an error message reports as undefined.
pub open spec fn name_from_error(m: Seq<char>) -> Option<Seq<char>> {
    match quoted_name(m, quoted_name_markers()) {
        Some(n) => Some(n),
        None => bare_name(m, bare_name_markers()),
    }
}

fn marker_list(quoted: bool) -> (r: Vec<Vec<char>>)
    ensures
        views(r@) == if quoted { quoted_name_markers() } else { bare_name_markers() },
{
    let mut r: Vec<Vec<char>> = Vec::new();
    if quoted {
        r.push(chars_of("undefined function `"));
        r.push(chars_of("undefined predicate `"));
        r.push(chars_of("undefined identifier `"));
        r.push(chars_of("unknown identifier `"));
        r.push(chars_of("unbound variable `"));
    } else {
        r.push(chars_of("undefined function "));
        r.push(chars_of("undefined predicate "));
        r.push(chars_of("undefined identifier "));
        r.push(chars_of("unknown identifier "));
        r.push(chars_of("unbound variable "));
    }
    assert(views(r@) =~= if quoted { quoted_name_markers() } else { bare_name_markers() });
    r
}

fn name_len_chars(s: &Vec<char>) -> (r: usize)
    ensures
        r as int == name_len(s@),
        r <= s.len(),
{
    let mut i: usize = 0;
    assert(s@.subrange(0, s.len() as int) == s@);
    while i < s.len() && !(s[i] == ' ' || s[i] == ',' || s[i] == '.' || s[i] == ':')
        invariant
            i <= s.len(),
            name_len(s@) == i + name_len(s@.subrange(i as int, s.len() as int)),
        decreases s.len() - i,
    {
        assert(s@.subrange(i as int, s.len() as int).drop_first() == s@.subrange(i + 1, s.len() as int));
        i = i + 1;
    }
    i
}

/// The symbol that an error message reports as undefined: the text after
/// the first marker that is followed by a back-quote, up to that
/// back-quote; else the text after the first bare marker, up to a space,
/// comma, period or colon; trimmed.
pub fn extract_name_from_error(error_message: &str) -> (r: Option<String>)
    ensures
        match r {
            Some(n) => name_from_error(error_message@) == Some(n@),
            None => name_from_error(error_message@) is None,
        },
{
    let m = chars_of(error_message);
    let tick = chars_of("`");
    let quoted = marker_list(true);
    let mut j: usize = 0;
    assert(views(quoted@).subrange(0, quoted.len() as int) == views(quoted@));
    while j < quoted.len()
        invariant
            j <= quoted.len(),
            m@ == error_message@,
            tick@ == "`"@,
            quoted_name(m@, quoted_name_markers()) == quoted_name(
                m@,
                views(quoted@).subrange(j as int, quoted.len() as int),
            ),
        decreases quoted.len() - j,
    {
        let ghost ms = views(quoted@).subrange(j as int, quoted.len() as int);
        assert(ms.drop_first() == views(quoted@).subrange(j + 1, quoted.len() as int));
        assert(ms[0] == quoted@[j as int]@);
        let p = &quoted[j];
        match find_from_chars(&m, p, 0) {
            Some(i) => {
                assert(occurs_at(m@, p@, i as int));
                assert(i + p@.len() <= m@.len());
                assert(i + p.len() <= m.len());
                let rest = slice_chars(&m, i + p.len(), m.len());
                match find_from_chars(&rest, &tick, 0) {
                    Some(e) => {
                        let name = trim_chars(&slice_chars(&rest, 0, e));
                        return Some(string_of(&name));
                    },
                    None => {},
                }
            },
            None => {},
        }
        j = j + 1;
    }
    let bare = marker_list(false);
    let mut j: usize = 0;
    assert(views(bare@).subrange(0, bare.len() as int) == views(bare@));
    while j < bare.len()
        invariant
            j <= bare.len(),
            m@ == error_message@,
            quoted_name(m@, quoted_name_markers()) is None,
            bare_name(m@, bare_name_markers()) == bare_name(
                m@,
                views(bare@).subrange(j as int, bare.len() as int),
            ),
        decreases bare.len() - j,
    {
        let ghost ms = views(bare@).subrange(j as int, bare.len() as int);
        assert(ms.drop_first() == views(bare@).subrange(j + 1, bare.len() as int));
        assert(ms[0] == bare@[j as int]@);
        let p = &bare[j];
        match find_from_chars(&m, p, 0) {
            Some(i) => {
                assert(occurs_at(m@, p@, i as int));
                assert(i + p@.len() <= m@.len());
                let rest = slice_chars(&m, i + p.len(), m.len());
                let e = name_len_chars(&rest);
                let name = trim_chars(&slice_chars(&rest, 0, e));
                return Some(string_of(&name));
            },
            None => {},
        }
        j = j + 1;
    }
    None
}

/// An issue message (in lower case) that reports an undefined function or
/// predicate.
pub open spec fn is_missing_symbol(low: Seq<char>) -> bool {
    contains(low, "undefined"@) && (contains(low, "function"@) || contains(low, "predicate"@))
}

/// An issue message (in lower case) about syntax, not a missing symbol.
pub open spec fn is_syntax_problem(low: Seq<char>) -> bool {
    !is_missing_symbol(low) && (contains(low, "syntax"@) || contains(low, "expected"@) || contains(
        low,
        "missing"@,
    ))
}

/// An issue message (in lower case) about types, and neither of the above.
pub open spec fn is_type_problem(low: Seq<char>) -> bool {
    !is_missing_symbol(low) && !(contains(low, "syntax"@) || contains(low, "expected"@) || contains(
        low,
        "missing"@,
    )) && contains(low, "type"@)
}

/// What a repair must address.
pub struct FocusModel {
    pub missing_symbols: Seq<Seq<char>>,
    pub syntax: bool,
    pub types: bool,
}

/// The repair focus of issue messages `msgs`, given each in lower case in
/// `lows`: the names of the undefined symbols in order, and whether any
/// message is about syntax or about types.
pub open spec fn focus_of(msgs: Seq<Seq<char>>, lows: Seq<Seq<char>>) -> FocusModel
    decreases msgs.len(),
{
    if msgs.len() == 0 || lows.len() == 0 {
        FocusModel { missing_symbols: Seq::empty(), syntax: false, types: false }
    } else {
        let prev = focus_of(msgs.drop_last(), lows.drop_last());
        let low = lows.last();
        FocusModel {
            missing_symbols: if is_missing_symbol(low) && name_from_error(msgs.last()) is Some {
                prev.missing_symbols.push(name_from_error(msgs.last())->Some_0)
            } else {
                prev.missing_symbols
            },
            syntax: prev.syntax || is_syntax_problem(low),
            types: prev.types || is_type_problem(low),
        }
    }
}

pub open spec fn messages(issues: Seq<IssueModel>) -> Seq<Seq<char>> {
    Seq::new(issues.len(), |i: int| issues[i].message)
}

pub open spec fn lowered(msgs: Seq<Seq<char>>) -> Seq<Seq<char>> {
    Seq::new(msgs.len(), |i: int| lower_of(msgs[i]))
}

/// What a repair must address, as executable values.
pub struct RepairFocus {
    pub missing_symbols: Vec<String>,
    pub has_syntax_issues: bool,
    pub has_type_issues: bool,
}

pub open spec fn focus_model(f: RepairFocus) -> FocusModel {
    FocusModel {
        missing_symbols: string_views(f.missing_symbols@),
        syntax: f.has_syntax_issues,
        types: f.has_type_issues,
    }
}

/// The repair focus of `issues`, where `lowered_messages` holds each
/// issue's message in lower case.
pub fn repair_focus_lowered(issues: &Vec<ValidationIssue>, lowered_messages: &Vec<String>) -> (r:
    RepairFocus)
    requires
        lowered_messages.len() == issues.len(),
    ensures
        focus_model(r) == focus_of(messages(issue_models(issues@)), string_views(lowered_messages@)),
{
    let ghost msgs = messages(issue_models(issues@));
    let ghost lows = string_views(lowered_messages@);
    let mut missing: Vec<String> = Vec::new();
    let mut syntax = false;
    let mut types = false;
    let mut i: usize = 0;
    assert(string_views(missing@) =~= Seq::<Seq<char>>::empty());
    while i < issues.len()
        invariant
            i <= issues.len() == lowered_messages.len(),
            msgs == messages(issue_models(issues@)),
            lows == string_views(lowered_messages@),
            (FocusModel { missing_symbols: string_views(missing@), syntax, types }) == focus_of(
                msgs.take(i as int),
                lows.take(i as int),
            ),
        decreases issues.len() - i,
    {
        assert(msgs.take(i + 1).drop_last() == msgs.take(i as int));
        assert(lows.take(i + 1).drop_last() == lows.take(i as int));
        assert(msgs.take(i + 1).last() == issues@[i as int].message@);
        assert(lows.take(i + 1).last() == lowered_messages@[i as int]@);
        let low = chars_of(lowered_messages[i].as_str());
        let undefined = contains_chars(&low, &chars_of("undefined"));
        let function = contains_chars(&low, &chars_of("function"));
        let predicate = contains_chars(&low, &chars_of("predicate"));
        let syn = contains_chars(&low, &chars_of("syntax"));
        let expected = contains_chars(&low, &chars_of("expected"));
        let miss = contains_chars(&low, &chars_of("missing"));
        let ty = contains_chars(&low, &chars_of("type"));
        if undefined && (function || predicate) {
            match extract_name_from_error(issues[i].message.as_str()) {
                Some(name) => {
                    let ghost before = string_views(missing@);
                    missing.push(name);
                    assert(string_views(missing@) =~= before.push(name@));
                },
                None => {},
            }
        } else if syn || expected || miss {
            syntax = true;
        } else if ty {
            types = true;
        }
        i = i + 1;
    }
    assert(msgs.take(issues.len() as int) == msgs);
    assert(lows.take(issues.len() as int) == lows);
    RepairFocus { missing_symbols: missing, has_syntax_issues: syntax, has_type_issues: types }
}

/// The repair focus of `issues`: their messages are classified in lower
/// case.
pub fn repair_focus(issues: &Vec<ValidationIssue>) -> (r: RepairFocus)
    ensures
        focus_model(r) == focus_of(
            messages(issue_models(issues@)),
            lowered(messages(issue_models(issues@))),
        ),
{
    let mut lows: Vec<String> = Vec::new();
    let mut i: usize = 0;
    while i < issues.len()
        invariant
            i <= issues.len(),
            string_views(lows@) == lowered(messages(issue_models(issues@))).take(i as int),
        decreases issues.len() - i,
    {
        let ghost before = string_views(lows@);
        let l = lowercase(issues[i].message.as_str());
        lows.push(l);
        assert(string_views(lows@) =~= before.push(lower_of(issues@[i as int].message@)));
        assert(lowered(messages(issue_models(issues@))).take(i + 1) =~= lowered(
            messages(issue_models(issues@)),
        ).take(i as int).push(lower_of(issues@[i as int].message@)));
        i = i + 1;
    }
    assert(lowered(messages(issue_models(issues@))).take(issues.len() as int) =~= lowered(
        messages(issue_models(issues@)),
    ));
    repair_focus_lowered(issues, &lows)
}

/// `parts` joined with `sep` between neighbours.
pub open spec fn join(parts: Seq<Seq<char>>, sep: Seq<char>) -> Seq<char>
    decreases parts.len(),
{
    if parts.len() == 0 {
        Seq::empty()
    } else if parts.len() == 1 {
        parts[0]
    } else {
        join(parts.drop_last(), sep) + sep + parts.last()
    }
}

pub open spec fn severity_word(s: IssueSeverity) -> Seq<char> {
    match s {
        IssueSeverity::Error => "Error"@,
        IssueSeverity::Warning => "Warning"@,
        IssueSeverity::Info => "Info"@,
    }
}

/// How one issue is listed in a repair prompt.
pub open spec fn issue_entry(i: IssueModel) -> Seq<char> {
    let location = match i.line_number {
        Some(n) => "Line "@ + crate::parser::decimal(n as nat),
        None => "Unknown location"@,
    };
    let fix = match i.suggested_fix {
        Some(f) => "Suggested fix: "@ + f,
        None => Seq::empty(),
    };
    location + ": "@ + i.message + " - "@ + severity_word(i.severity) + "\n"@ + fix
}

pub open spec fn issue_entries(issues: Seq<IssueModel>) -> Seq<Seq<char>> {
    Seq::new(issues.len(), |k: int| issue_entry(issues[k]))
}

pub open spec fn symbol_entries(names: Seq<Seq<char>>) -> Seq<Seq<char>> {
    Seq::new(names.len(), |k: int| "- `"@ + names[k] + "`"@)
}

/// The instructions that a repair focus adds, each only where it applies.
pub open spec fn focus_instructions(f: FocusModel) -> Seq<char> {
    (if f.missing_symbols.len() > 0 {
        "IMPORTANT: The following functions/predicates are undefined and MUST be implemented:\n"@ + join(symbol_entries(f.missing_symbols), "\n"@) + "\n\n"@
    } else {
        Seq::empty()
    }) + (if f.syntax {
        "IMPORTANT: Fix all syntax errors, ensuring proper keywords (let/val), closing braces, and proper F* syntax.\n\n"@
    } else {
        Seq::empty()
    }) + (if f.types {
        "IMPORTANT: Fix all type errors, ensuring proper typing for all expressions.\n\n"@
    } else {
        Seq::empty()
    })
}

pub open spec fn fstar_guidelines() -> Seq<char> {
    "\n## F* Syntax Guidelines\n\n1. **Module Structure**:\n   - Always begin with a module declaration: `module ModuleName`\n   - Use `open` statements for imports: `open FStar.All`\n\n2. **Type Definitions**:\n   - Use `type` keyword for type definitions\n   - For refined types, use the syntax: `type t = x:int{x > 0}`\n   - Always close type refinements with a closing brace `}`\n\n3. **Function Declarations**:\n   - Use `val` for function signatures/declarations\n   - Use `let` for function implementations/definitions\n   - Example: `val func: int -> int` and `let func x = x + 1`\n\n4. **Predicates and Properties**:\n   - Define predicates using `let` (not just the name)\n   - Example: `let lemma_name (x: int) : Lemma (x + 0 = x) = ()`\n\n5. **Common Errors to Avoid**:\n   - Missing `let` keyword in function definitions\n   - Incomplete type refinements (missing `}`)\n   - Incorrect function type signatures\n   - Using undefined functions or types\n   \n6. **Security Properties**:\n   - Use `Lemma` type for security properties\n   - Always include pre-conditions with `requires` and post-conditions with `ensures`\n\n7. **Memory Management**:\n   - Use the ST effect when dealing with stateful computation\n   - Reference memory with `ref` type\n\n8. **Error Handling**:\n   - Use option types for operations that might fail\n   - Pattern: `val safe_div: x:int -> y:int{y <> 0} -> int`\n   \n9. **Self-Verification**:\n   - Review the specification for syntax correctness\n   - Ensure all types are properly defined before use\n   - Check that all functions have correct `let` definitions\n"@
}

/// The F* style guidelines given to the model.
pub fn fstar_guidelines_text() -> (r: &'static str)
    ensures
        r@ == fstar_guidelines(),
{
    "\n## F* Syntax Guidelines\n\n1. **Module Structure**:\n   - Always begin with a module declaration: `module ModuleName`\n   - Use `open` statements for imports: `open FStar.All`\n\n2. **Type Definitions**:\n   - Use `type` keyword for type definitions\n   - For refined types, use the syntax: `type t = x:int{x > 0}`\n   - Always close type refinements with a closing brace `}`\n\n3. **Function Declarations**:\n   - Use `val` for function signatures/declarations\n   - Use `let` for function implementations/definitions\n   - Example: `val func: int -> int` and `let func x = x + 1`\n\n4. **Predicates and Properties**:\n   - Define predicates using `let` (not just the name)\n   - Example: `let lemma_name (x: int) : Lemma (x + 0 = x) = ()`\n\n5. **Common Errors to Avoid**:\n   - Missing `let` keyword in function definitions\n   - Incomplete type refinements (missing `}`)\n   - Incorrect function type signatures\n   - Using undefined functions or types\n   \n6. **Security Properties**:\n   - Use `Lemma` type for security properties\n   - Always include pre-conditions with `requires` and post-conditions with `ensures`\n\n7. **Memory Management**:\n   - Use the ST effect when dealing with stateful computation\n   - Reference memory with `ref` type\n\n8. **Error Handling**:\n   - Use option types for operations that might fail\n   - Pattern: `val safe_div: x:int -> y:int{y <> 0} -> int`\n   \n9. **Self-Verification**:\n   - Review the specification for syntax correctness\n   - Ensure all types are properly defined before use\n   - Check that all functions have correct `let` definitions\n"
}

/// The prompt that asks the model to rewrite `code` so that `issues` go
/// away; it ends by asking for the corrected code only.
pub open spec fn repair_prompt_text(code: Seq<char>, issues: Seq<IssueModel>, f: FocusModel) -> Seq<
    char,
> {
    "You are a formal verification expert. Fix the following issues in this F* specification:\n\nOriginal specification:\n```\n"@ + code + "\n```\n\nIssues to fix:\n"@ + join(issue_entries(issues), "\n\n"@) + "\n\n"@
        + focus_instructions(f) + "\n"@ + fstar_guidelines() + "\n"@ + "Requirements:\n1. Implement ALL missing functions/predicates with simple but valid implementations\n2. Ensure proper syntax for F* (including all keywords and braces)\n3. Fix ALL identified issues\n4. Return a COMPLETE specification that preserves the original functionality\n\nReturn ONLY the corrected specification code without any explanations."@
}

pub(crate) fn append_join_symbols(r: &mut String, names: &Vec<String>)
    ensures
        final(r)@ == old(r)@ + join(symbol_entries(string_views(names@)), "\n"@),
{
    let ghost start = r@;
    let ghost parts = symbol_entries(string_views(names@));
    let mut i: usize = 0;
    while i < names.len()
        invariant
            i <= names.len(),
            parts == symbol_entries(string_views(names@)),
            r@ == start + join(parts.take(i as int), "\n"@),
        decreases names.len() - i,
    {
        if i > 0 {
            r.append("\n");
        }
        r.append("- `");
        r.append(names[i].as_str());
        r.append("`");
        assert(parts.take(i + 1).drop_last() =~= parts.take(i as int));
        assert(parts.take(i + 1).last() == "- `"@ + names@[i as int]@ + "`"@);
        i = i + 1;
    }
    assert(parts.take(names.len() as int) =~= parts);
}

fn issue_entry_string(issue: &ValidationIssue) -> (r: String)
    ensures
        r@ == issue_entry(issue_model(*issue)),
{
    let mut r = match issue.line_number {
        Some(n) => {
            let mut t = String::from_str("Line ");
            let digits = string_of(&crate::parser::decimal_chars(n as u128));
            t.append(digits.as_str());
            t
        },
        None => String::from_str("Unknown location"),
    };
    r.append(": ");
    r.append(issue.message.as_str());
    r.append(" - ");
    match issue.severity {
        IssueSeverity::Error => r.append("Error"),
        IssueSeverity::Warning => r.append("Warning"),
        IssueSeverity::Info => r.append("Info"),
    }
    r.append("\n");
    match &issue.suggested_fix {
        Some(f) => {
            r.append("Suggested fix: ");
            r.append(f.as_str());
        },
        None => {},
    }
    r
}

fn append_issue_list(r: &mut String, issues: &Vec<ValidationIssue>)
    ensures
        final(r)@ == old(r)@ + join(issue_entries(issue_models(issues@)), "\n\n"@),
{
    let ghost start = r@;
    let ghost parts = issue_entries(issue_models(issues@));
    let mut i: usize = 0;
    while i < issues.len()
        invariant
            i <= issues.len(),
            parts == issue_entries(issue_models(issues@)),
            r@ == start + join(parts.take(i as int), "\n\n"@),
        decreases issues.len() - i,
    {
        if i > 0 {
            r.append("\n\n");
        }
        let entry = issue_entry_string(&issues[i]);
        r.append(entry.as_str());
        assert(parts.take(i + 1).drop_last() =~= parts.take(i as int));
        assert(parts.take(i + 1).last() == issue_entry(issue_model(issues@[i as int])));
        i = i + 1;
    }
    assert(parts.take(issues.len() as int) =~= parts);
}

/// The prompt that asks the model to repair `spec` given `report`.
pub fn repair_prompt(spec: &Specification, report: &ValidationReport) -> (r: String)
    ensures
        r@ == repair_prompt_text(
            spec.formal_spec.spec_code@,
            issue_models(report.issues@),
            focus_of(
                messages(issue_models(report.issues@)),
                lowered(messages(issue_models(report.issues@))),
            ),
        ),
{
    let focus = repair_focus(&report.issues);
    let mut r = String::from_str("You are a formal verification expert. Fix the following issues in this F* specification:\n\nOriginal specification:\n```\n");
    r.append(spec.formal_spec.spec_code.as_str());
    r.append("\n```\n\nIssues to fix:\n");
    append_issue_list(&mut r, &report.issues);
    r.append("\n\n");
    if focus.missing_symbols.len() > 0 {
        r.append("IMPORTANT: The following functions/predicates are undefined and MUST be implemented:\n");
        append_join_symbols(&mut r, &focus.missing_symbols);
        r.append("\n\n");
    }
    if focus.has_syntax_issues {
        r.append("IMPORTANT: Fix all syntax errors, ensuring proper keywords (let/val), closing braces, and proper F* syntax.\n\n");
    }
    if focus.has_type_issues {
        r.append("IMPORTANT: Fix all type errors, ensuring proper typing for all expressions.\n\n");
    }
    r.append("\n");
    r.append(fstar_guidelines_text());
    r.append("\n");
    r.append("Requirements:\n1. Implement ALL missing functions/predicates with simple but valid implementations\n2. Ensure proper syntax for F* (including all keywords and braces)\n3. Fix ALL identified issues\n4. Return a COMPLETE specification that preserves the original functionality\n\nReturn ONLY the corrected specification code without any explanations.");
    r
}

/// The most repair attempts the loop makes.
pub const MAX_REPAIR_ATTEMPTS: usize = 3;

/// A new specification built from `spec` and a model's repair answer: same
/// requirements, properties and metadata, an id with `_fixed` appended,
/// and the artifact parsed from the answer in the same notation.
pub fn fixed_specification(spec: Specification, answer: &str) -> (r: Specification)
    ensures
        r.id@ == spec.id@ + "_fixed"@,
        r.source_requirements == spec.source_requirements,
        r.formal_properties == spec.formal_properties,
        r.metadata == spec.metadata,
        r.formal_spec.verification_language == spec.formal_spec.verification_language,
        r.formal_spec.spec_code@ == extracted_code(answer@),
        crate::parser::pair_views(r.formal_spec.components@) == crate::parser::components_of(answer@),
        string_views(r.formal_spec.dependencies@) == crate::parser::dependencies_of(
            r.formal_spec.spec_code@,
            spec.formal_spec.verification_language,
        ),
{
    let Specification { id, source_requirements, formal_properties, formal_spec, metadata } = spec;
    let mut new_id = id;
    new_id.append("_fixed");
    let parsed = parse_formal_specification(answer, formal_spec.verification_language);
    Specification {
        id: new_id,
        source_requirements,
        formal_properties,
        formal_spec: parsed,
        metadata,
    }
}

/// Whether a report holds an `Error` issue whose message mentions `type`,
/// which makes the next review a type-checking one.
pub open spec fn escalates(issues: Seq<IssueModel>) -> bool {
    exists|k: int|
        0 <= k < issues.len() && (#[trigger] issues[k]).severity == IssueSeverity::Error
            && contains(issues[k].message, "type"@)
}

/// The review depth after a repair of a specification with `issues`.
pub open spec fn depth_after(issues: Seq<IssueModel>) -> ValidationDepth {
    if escalates(issues) {
        ValidationDepth::TypeCheck
    } else {
        ValidationDepth::Basic
    }
}

/// The review depth after a repair of a specification with `report`.
pub fn escalated_depth(report: &ValidationReport) -> (r: ValidationDepth)
    ensures
        r == depth_after(issue_models(report.issues@)),
{
    let ty = chars_of("type");
    let mut i: usize = 0;
    while i < report.issues.len()
        invariant
            i <= report.issues.len(),
            ty@ == "type"@,
            forall|k: int|
                0 <= k < i ==> !((#[trigger] issue_models(report.issues@)[k]).severity
                    == IssueSeverity::Error && contains(
                    issue_models(report.issues@)[k].message,
                    "type"@,
                )),
        decreases report.issues.len() - i,
    {
        let issue = &report.issues[i];
        if issue.severity == IssueSeverity::Error && contains_chars(
            &chars_of(issue.message.as_str()),
            &ty,
        ) {
            assert(issue_models(report.issues@)[i as int].severity == IssueSeverity::Error);
            return ValidationDepth::TypeCheck;
        }
        i = i + 1;
    }
    ValidationDepth::Basic
}

/// What the loop does after a review.
pub enum StepKind {
    Repair,
    Review,
    Fixed,
    GaveUp,
}

/// After the review of repair attempt `attempt`: a passing review ends the
/// loop as fixed; a failing one asks for another repair, or gives up once
/// the attempts are spent.
pub open spec fn review_outcome(attempt: nat, valid: bool) -> StepKind {
    if valid {
        StepKind::Fixed
    } else if attempt >= MAX_REPAIR_ATTEMPTS {
        StepKind::GaveUp
    } else {
        StepKind::Repair
    }
}

/// Repair requests made after the first one, and how the loop stands, when
/// the reviews of successive repairs, from attempt `attempt` on, pass or
/// fail as `verdicts` says.
pub open spec fn repair_run(attempt: nat, verdicts: Seq<bool>) -> (nat, StepKind)
    decreases verdicts.len(),
{
    if verdicts.len() == 0 {
        (0, StepKind::Review)
    } else {
        match review_outcome(attempt, verdicts[0]) {
            StepKind::Repair => {
                let rest = repair_run(attempt + 1, verdicts.drop_first());
                (rest.0 + 1, rest.1)
            },
            k => (0, k),
        }
    }
}

/// The loop between a repair request and the review of its result.
pub struct RepairLoop {
    /// The specification that the next review or repair is about.
    pub spec: Specification,
    /// The report that the pending repair addresses.
    pub report: ValidationReport,
    /// The current attempt, from 1.
    pub attempt: usize,
}

impl RepairLoop {
    pub open spec fn wf(self) -> bool {
        1 <= self.attempt <= MAX_REPAIR_ATTEMPTS
    }
}

/// How a repair begins.
pub enum RepairStart {
    /// The report is valid: nothing to repair; the report is handed back.
    AlreadyValid(ValidationReport),
    /// Send the prompt to the model and hand its answer to
    /// `RepairLoop::on_repair_answer`.
    Started(RepairLoop, String),
}

/// How the loop goes on after a review.
pub enum RepairProgress {
    /// Send the prompt to the model and hand its answer to
    /// `RepairLoop::on_repair_answer`.
    Continue(RepairLoop, String),
    /// The loop is over with this report.
    Done(ValidationReport),
}

pub open spec fn success_message(attempt: nat) -> Seq<char> {
    "Specification was automatically fixed after "@ + crate::parser::decimal(attempt)
        + " attempts"@
}

pub open spec fn give_up_message() -> Seq<char> {
    "Automatic fixing was attempted 3 times but issues remain"@
}

/// The note appended to the final report: its severity, message, and the
/// code it carries as a suggested fix.
pub open spec fn closing_note(severity: IssueSeverity, message: Seq<char>, code: Seq<char>) -> IssueModel {
    IssueModel {
        severity,
        message,
        related_property: None,
        line_number: None,
        suggested_fix: Some(code),
    }
}

impl RepairLoop {
    /// Starts a repair of `spec` after a review gave `report`.
    pub fn start(spec: Specification, report: ValidationReport) -> (r: RepairStart)
        ensures
            report.is_valid ==> r == RepairStart::AlreadyValid(report),
            !report.is_valid ==> (r matches RepairStart::Started(lp, prompt) && lp.wf()
                && lp.attempt == 1 && lp.spec == spec && lp.report == report && prompt@
                == repair_prompt_text(
                spec.formal_spec.spec_code@,
                issue_models(report.issues@),
                focus_of(
                    messages(issue_models(report.issues@)),
                    lowered(messages(issue_models(report.issues@))),
                ),
            )),
    {
        if report.is_valid {
            RepairStart::AlreadyValid(report)
        } else {
            let prompt = repair_prompt(&spec, &report);
            RepairStart::Started(RepairLoop { spec, report, attempt: 1 }, prompt)
        }
    }

    /// Takes the model's repair answer: the fixed specification replaces
    /// the current one, and the result is the depth and prompt of its
    /// review (type checking where the report that prompted the repair had a
    /// type error, else basic).
    pub fn on_repair_answer(self, answer: &str) -> (r: (RepairLoop, ValidationDepth, String))
        requires
            self.wf(),
        ensures
            r.0.wf(),
            r.0.attempt == self.attempt,
            r.0.report == self.report,
            r.0.spec.id@ == self.spec.id@ + "_fixed"@,
            r.0.spec.source_requirements == self.spec.source_requirements,
            r.0.spec.formal_properties == self.spec.formal_properties,
            r.0.spec.metadata == self.spec.metadata,
            r.0.spec.formal_spec.verification_language == self.spec.formal_spec.verification_language,
            r.0.spec.formal_spec.spec_code@ == extracted_code(answer@),
            crate::parser::pair_views(r.0.spec.formal_spec.components@)
                == crate::parser::components_of(answer@),
            string_views(r.0.spec.formal_spec.dependencies@) == crate::parser::dependencies_of(
                r.0.spec.formal_spec.spec_code@,
                self.spec.formal_spec.verification_language,
            ),
            r.1 == depth_after(issue_models(self.report.issues@)),
            r.2@ == crate::review::review_prompt_text(
                r.1,
                crate::models::language_label(r.0.spec.formal_spec.verification_language),
                r.0.spec.formal_spec.spec_code@,
            ),
    {
        let RepairLoop { spec, report, attempt } = self;
        let depth = escalated_depth(&report);
        let fixed = fixed_specification(spec, answer);
        let prompt = review_prompt(&fixed, depth);
        (RepairLoop { spec: fixed, report, attempt }, depth, prompt)
    }

    /// Takes the review of the current specification. A passing review ends
    /// the loop with that report and an `Info` note carrying the fixed code;
    /// a failing one after the last attempt ends it with that report and a
    /// `Warning` note carrying the last code; otherwise the next attempt
    /// starts on the failing report.
    pub fn on_review(self, review: ValidationReport) -> (r: RepairProgress)
        requires
            self.wf(),
        ensures
            review_outcome(self.attempt as nat, review.is_valid) == (match r {
                RepairProgress::Continue(..) => StepKind::Repair,
                RepairProgress::Done(d) => if review.is_valid {
                    StepKind::Fixed
                } else {
                    StepKind::GaveUp
                },
            }),
            r matches RepairProgress::Done(d) ==> (d.is_valid == review.is_valid && d.tool_validated
                == review.tool_validated && d.tool_output == review.tool_output && issue_models(
                d.issues@,
            ) == issue_models(review.issues@).push(
                if review.is_valid {
                    closing_note(
                        IssueSeverity::Info,
                        success_message(self.attempt as nat),
                        self.spec.formal_spec.spec_code@,
                    )
                } else {
                    closing_note(
                        IssueSeverity::Warning,
                        give_up_message(),
                        self.spec.formal_spec.spec_code@,
                    )
                },
            )),
            r matches RepairProgress::Continue(lp, prompt) ==> (lp.wf() && lp.attempt == self.attempt
                + 1 && lp.spec == self.spec && lp.report == review && prompt@ == repair_prompt_text(
                self.spec.formal_spec.spec_code@,
                issue_models(review.issues@),
                focus_of(
                    messages(issue_models(review.issues@)),
                    lowered(messages(issue_models(review.issues@))),
                ),
            )),
    {
        let RepairLoop { spec, report: _, attempt } = self;
        if review.is_valid || attempt >= MAX_REPAIR_ATTEMPTS {
            let ValidationReport { is_valid, issues, tool_validated, tool_output } = review;
            let mut issues = issues;
            let (severity, message) = if is_valid {
                let mut m = String::from_str("Specification was automatically fixed after ");
                let digits = string_of(&crate::parser::decimal_chars(attempt as u128));
                m.append(digits.as_str());
                m.append(" attempts");
                (IssueSeverity::Info, m)
            } else {
                (IssueSeverity::Warning, String::from_str("Automatic fixing was attempted 3 times but issues remain"))
            };
            let code = spec.formal_spec.spec_code.clone();
            let ghost before = issue_models(issues@);
            issues.push(
                ValidationIssue {
                    severity,
                    message,
                    related_property: None,
                    line_number: None,
                    suggested_fix: Some(code),
                },
            );
            assert(issue_models(issues@) =~= before.push(issue_model(issues@.last())));
            RepairProgress::Done(ValidationReport { is_valid, issues, tool_validated, tool_output })
        } else {
            let prompt = repair_prompt(&spec, &review);
            RepairProgress::Continue(RepairLoop { spec, report: review, attempt: attempt + 1 }, prompt)
        }
    }
}

/// With reviews that always fail, the loop makes exactly three repair
/// requests (the first one and two more) and then gives up.
pub proof fn repair_gives_up_after_three_attempts(verdicts: Seq<bool>)
    requires
        verdicts.len() >= 3,
        forall|k: int| 0 <= k < verdicts.len() ==> !#[trigger] verdicts[k],
    ensures
        1 + repair_run(1, verdicts).0 == 3,
        repair_run(1, verdicts).1 == StepKind::GaveUp,
{
    let v1 = verdicts.drop_first();
    let v2 = v1.drop_first();
    assert(!verdicts[0] && !v1[0] && !v2[0]);
    assert(repair_run(3, v2) == (0nat, StepKind::GaveUp));
    assert(repair_run(2, v1) == (1nat, StepKind::GaveUp));
}

/// When the first repair's review fails and the second one's passes, the
/// loop stops after the second repair request, fixed.
pub proof fn repair_stops_at_first_success(verdicts: Seq<bool>)
    requires
        verdicts.len() >= 2,
        !verdicts[0],
        verdicts[1],
    ensures
        1 + repair_run(1, verdicts).0 == 2,
        repair_run(1, verdicts).1 == StepKind::Fixed,
{
    let v1 = verdicts.drop_first();
    assert(v1[0]);
    assert(repair_run(2, v1) == (0nat, StepKind::Fixed));
}

/// However the reviews come out, the loop makes at most three repair
/// requests.
pub proof fn repair_requests_are_bounded(attempt: nat, verdicts: Seq<bool>)
    requires
        1 <= attempt <= MAX_REPAIR_ATTEMPTS,
    ensures
        attempt + repair_run(attempt, verdicts).0 <= MAX_REPAIR_ATTEMPTS,
    decreases verdicts.len(),
{
    if verdicts.len() > 0 && review_outcome(attempt, verdicts[0]) == StepKind::Repair {
        repair_requests_are_bounded(attempt + 1, verdicts.drop_first());
    }
}

} // verus!
