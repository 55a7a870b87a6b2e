//! Reviews of a specification: the prompt for each depth and the parsing of
//! the model's verdict and itemised issues.
use vstd::prelude::*;
use vstd::string::*;
use crate::models::{
    IssueSeverity, Specification, ValidationDepth, ValidationIssue, ValidationReport,
    language_label,
};
use crate::text::{
    chars_of, contains, contains_chars, occurs_at, find, find_from_chars, lines_of, lower_of, lowercase,
    parse_usize, parse_usize_chars, slice_chars, split_lines, starts_with, starts_with_chars,
    string_of, strip_prefix_all, strip_prefix_all_chars, trim, trim_chars, views,
};

verus! {

pub open spec fn opt_view(o: Option<String>) -> Option<Seq<char>> {
    match o {
        Some(s) => Some(s@),
        None => None,
    }
}

/// What a report's issue says, as plain values.
pub struct IssueModel {
    pub severity: IssueSeverity,
    pub message: Seq<char>,
    pub related_property: Option<Seq<char>>,
    pub line_number: Option<usize>,
    pub suggested_fix: Option<Seq<char>>,
}

pub open spec fn issue_model(i: ValidationIssue) -> IssueModel {
    IssueModel {
        severity: i.severity,
        message: i.message@,
        related_property: opt_view(i.related_property),
        line_number: i.line_number,
        suggested_fix: opt_view(i.suggested_fix),
    }
}

pub open spec fn issue_models(v: Seq<ValidationIssue>) -> Seq<IssueModel> {
    Seq::new(v.len(), |i: int| issue_model(v[i]))
}

/// The two verdict sentences that mark a review as passed, in lower case.
pub open spec fn verdict_phrases(d: ValidationDepth) -> (Seq<char>, Seq<char>) {
    match d {
        ValidationDepth::Basic => (
            "the specification syntax is valid: true"@,
            "is the specification syntax valid? true"@,
        ),
        ValidationDepth::TypeCheck => (
            "the specification passes type checking: true"@,
            "does the specification pass type checking? true"@,
        ),
        ValidationDepth::FormalVerification => (
            "the specification can be formally verified: true"@,
            "can the specification be formally verified as written? true"@,
        ),
    }
}

/// Whether a lower-cased review answer states the passing verdict.
pub open spec fn verdict_holds(lowered: Seq<char>, d: ValidationDepth) -> bool {
    contains(lowered, verdict_phrases(d).0) || contains(lowered, verdict_phrases(d).1)
}

/// Whether a line opens a new issue.
pub open spec fn is_issue_start(l: Seq<char>) -> bool {
    starts_with(l, "Line "@) || starts_with(l, "Location "@)
}

/// The severity that an issue line states: `Error` wins over `Warning`,
/// and a line naming neither is `Info`.
pub open spec fn severity_of_line(l: Seq<char>) -> IssueSeverity {
    if contains(l, "Error"@) {
        IssueSeverity::Error
    } else if contains(l, "Warning"@) {
        IssueSeverity::Warning
    } else {
        IssueSeverity::Info
    }
}

/// The line number that an issue line states: the text between `Line ` and
/// the next `:`, trimmed, read as a decimal number.
pub open spec fn line_number_of(l: Seq<char>) -> Option<usize> {
    match find(l, "Line "@) {
        Some(s) => {
            let rest = l.subrange(s + 5, l.len() as int);
            match find(rest, ":"@) {
                Some(e) => parse_usize(trim(rest.subrange(0, e))),
                None => None,
            }
        },
        None => None,
    }
}

/// The issue scan: issues recorded so far and the one being read.
pub struct IssueScan {
    pub issues: Seq<IssueModel>,
    pub message: Seq<char>,
    pub line_number: Option<usize>,
    pub severity: IssueSeverity,
    pub suggestion: Option<Seq<char>>,
}

pub open spec fn pending_issue(st: IssueScan) -> IssueModel {
    IssueModel {
        severity: st.severity,
        message: st.message,
        related_property: None,
        line_number: st.line_number,
        suggested_fix: st.suggestion,
    }
}

/// Records the pending issue, if any.
pub open spec fn flush(st: IssueScan) -> Seq<IssueModel> {
    if st.message.len() > 0 {
        st.issues.push(pending_issue(st))
    } else {
        st.issues
    }
}

/// One line of a review answer. An issue line records the pending issue and
/// starts a new one with the line number that it states, if any; a
/// `Suggestion:` line attaches its text to the pending
/// issue.
pub open spec fn issue_step(st: IssueScan, l: Seq<char>) -> IssueScan {
    if is_issue_start(l) {
        IssueScan {
            issues: flush(st),
            message: l,
            line_number: line_number_of(l),
            severity: severity_of_line(l),
            suggestion: None,
        }
    } else if starts_with(l, "Suggestion:"@) {
        IssueScan { suggestion: Some(trim(strip_prefix_all(l, "Suggestion:"@))), ..st }
    } else {
        st
    }
}

pub open spec fn issue_scan(ls: Seq<Seq<char>>) -> IssueScan
    decreases ls.len(),
{
    if ls.len() == 0 {
        IssueScan {
            issues: Seq::empty(),
            message: Seq::empty(),
            line_number: None,
            severity: IssueSeverity::Info,
            suggestion: None,
        }
    } else {
        issue_step(issue_scan(ls.drop_last()), ls.last())
    }
}

/// The issues that a review answer lists, in order.
pub open spec fn issues_of(answer: Seq<char>) -> Seq<IssueModel> {
    flush(issue_scan(lines_of(answer)))
}

fn severity_chars(l: &Vec<char>) -> (r: IssueSeverity)
    ensures
        r == severity_of_line(l@),
{
    if contains_chars(l, &chars_of("Error")) {
        IssueSeverity::Error
    } else if contains_chars(l, &chars_of("Warning")) {
        IssueSeverity::Warning
    } else {
        IssueSeverity::Info
    }
}

fn line_number_chars(l: &Vec<char>) -> (r: Option<usize>)
    ensures
        r == line_number_of(l@),
{
    let key = chars_of("Line ");
    proof {
        reveal_strlit("Line ");
    }
    assert(key@.len() == 5);
    match find_from_chars(l, &key, 0) {
        Some(s) => {
            assert(occurs_at(l@, key@, s as int));
            assert(s + 5 <= l.len());
            let rest = slice_chars(l, s + 5, l.len());
            match find_from_chars(&rest, &chars_of(":"), 0) {
                Some(e) => {
                    let num = slice_chars(&rest, 0, e);
                    parse_usize_chars(&trim_chars(&num))
                },
                None => None,
            }
        },
        None => None,
    }
}

/// The severity that one issue line states.
pub fn classify_issue_line(line: &str) -> (r: IssueSeverity)
    ensures
        r == severity_of_line(line@),
{
    severity_chars(&chars_of(line))
}

fn opt_string(o: &Option<Vec<char>>) -> (r: Option<String>)
    ensures
        opt_view(r) == match *o {
            Some(v) => Some(v@),
            None => None::<Seq<char>>,
        },
{
    match o {
        Some(v) => Some(string_of(v)),
        None => None,
    }
}

/// The issues that a review answer lists, in order.
pub fn parse_issues(answer: &str) -> (r: Vec<ValidationIssue>)
    ensures
        issue_models(r@) == issues_of(answer@),
{
    let text = chars_of(answer);
    let lines = split_lines(&text);
    let line_key = chars_of("Line ");
    let location_key = chars_of("Location ");
    let suggestion_key = chars_of("Suggestion:");
    let mut issues: Vec<ValidationIssue> = Vec::new();
    let mut message: Vec<char> = Vec::new();
    let mut line_number: Option<usize> = None;
    let mut severity = IssueSeverity::Info;
    let mut suggestion: Option<Vec<char>> = None;
    let mut i: usize = 0;
    assert(issue_models(issues@) =~= Seq::<IssueModel>::empty());
    while i < lines.len()
        invariant
            i <= lines.len(),
            views(lines@) == lines_of(answer@),
            line_key@ == "Line "@,
            location_key@ == "Location "@,
            suggestion_key@ == "Suggestion:"@,
            (IssueScan {
                issues: issue_models(issues@),
                message: message@,
                line_number,
                severity,
                suggestion: match suggestion {
                    Some(v) => Some(v@),
                    None => None,
                },
            }) == issue_scan(views(lines@).take(i as int)),
        decreases lines.len() - i,
    {
        let ghost st = issue_scan(views(lines@).take(i as int));
        assert(views(lines@).take(i + 1).drop_last() == views(lines@).take(i as int));
        assert(views(lines@).take(i + 1).last() == lines@[i as int]@);
        let l = &lines[i];
        if starts_with_chars(l, &line_key) || starts_with_chars(l, &location_key) {
            if message.len() > 0 {
                let ghost before = issue_models(issues@);
                let issue = ValidationIssue {
                    severity,
                    message: string_of(&message),
                    related_property: None,
                    line_number,
                    suggested_fix: opt_string(&suggestion),
                };
                issues.push(issue);
                assert(issue_models(issues@) =~= before.push(pending_issue(st)));
            }
            message = slice_chars(l, 0, l.len());
            assert(l@.subrange(0, l.len() as int) == l@);
            line_number = line_number_chars(l);
            severity = severity_chars(l);
            suggestion = None;
        } else if starts_with_chars(l, &suggestion_key) {
            let body = strip_prefix_all_chars(l, &suggestion_key);
            suggestion = Some(trim_chars(&body));
        }
        i = i + 1;
    }
    assert(views(lines@).take(lines.len() as int) == views(lines@));
    if message.len() > 0 {
        let ghost st = issue_scan(views(lines@));
        let ghost before = issue_models(issues@);
        let issue = ValidationIssue {
            severity,
            message: string_of(&message),
            related_property: None,
            line_number,
            suggested_fix: opt_string(&suggestion),
        };
        issues.push(issue);
        assert(issue_models(issues@) =~= before.push(pending_issue(st)));
    }
    issues
}

/// Whether a lower-cased review answer states the passing verdict for
/// depth `depth`.
pub fn verdict_in_lowered(lowered: &str, depth: ValidationDepth) -> (r: bool)
    ensures
        r == verdict_holds(lowered@, depth),
{
    let t = chars_of(lowered);
    let (a, b) = match depth {
        ValidationDepth::Basic => (
            chars_of("the specification syntax is valid: true"),
            chars_of("is the specification syntax valid? true"),
        ),
        ValidationDepth::TypeCheck => (
            chars_of("the specification passes type checking: true"),
            chars_of("does the specification pass type checking? true"),
        ),
        ValidationDepth::FormalVerification => (
            chars_of("the specification can be formally verified: true"),
            chars_of("can the specification be formally verified as written? true"),
        ),
    };
    contains_chars(&t, &a) || contains_chars(&t, &b)
}

/// The report that a review answer gives, where `lowered` is the answer in
/// lower case: the verdict is read from `lowered`, the issues from
/// `answer`, and the provability review keeps the raw answer.
pub fn report_from_answer(answer: &str, lowered: &str, depth: ValidationDepth) -> (r:
    ValidationReport)
    ensures
        r.is_valid == verdict_holds(lowered@, depth),
        issue_models(r.issues@) == issues_of(answer@),
        !r.tool_validated,
        depth == ValidationDepth::FormalVerification ==> opt_view(r.tool_output) == Some(answer@),
        depth != ValidationDepth::FormalVerification ==> r.tool_output is None,
{
    let is_valid = verdict_in_lowered(lowered, depth);
    let issues = parse_issues(answer);
    let tool_output = match depth {
        ValidationDepth::FormalVerification => Some(String::from_str(answer)),
        _ => None,
    };
    ValidationReport { is_valid, issues, tool_validated: false, tool_output }
}

/// The report that a review answer gives: the verdict is read from the
/// answer in lower case, the issues from the answer itself.
pub fn parse_review_answer(answer: &str, depth: ValidationDepth) -> (r: ValidationReport)
    ensures
        r.is_valid == verdict_holds(lower_of(answer@), depth),
        issue_models(r.issues@) == issues_of(answer@),
        !r.tool_validated,
        depth == ValidationDepth::FormalVerification ==> opt_view(r.tool_output) == Some(answer@),
        depth != ValidationDepth::FormalVerification ==> r.tool_output is None,
{
    let lowered = lowercase(answer);
    report_from_answer(answer, lowered.as_str(), depth)
}

/// The fixed text of a review prompt: what precedes the notation's label,
/// what stands between the label and the code, and what follows the code.
pub open spec fn review_parts(d: ValidationDepth) -> (Seq<char>, Seq<char>, Seq<char>) {
    match d {
        ValidationDepth::Basic => (
            "You are a formal verification expert. Validate the syntax of this "@,
            " specification:\n\n```\n"@,
            "\n```\n\nCheck for syntax errors, undefined references, and basic consistency issues. For each issue found, provide:\n1. The line number or location\n2. A description of the issue\n3. The severity (Error, Warning, or Info)\n4. A suggested fix\nFormat each issue as: \"Line [number]: [description] - [severity]\\nSuggestion: [fix]\"\n\nAfter listing all issues, provide a final judgment: Is the specification syntax valid (true/false)?"@,
        ),
        ValidationDepth::TypeCheck => (
            "You are a formal verification expert with deep knowledge of "@,
            " type systems. Perform type checking on this specification:\n\n```\n"@,
            "\n```\n\nCheck for type errors, type inconsistencies, and type-related issues. For each issue found, provide:\n1. The line number or location\n2. A description of the type error\n3. The severity (Error, Warning, or Info)\n4. A suggested fix\nFormat each issue as: \"Line [number]: [description] - [severity]\\nSuggestion: [fix]\"\n\nAfter listing all issues, provide a final judgment: Does the specification pass type checking (true/false)?"@,
        ),
        ValidationDepth::FormalVerification => (
            "You are a formal verification expert with deep knowledge of "@,
            ". Validate whether this specification can be formally verified:\n\n```\n"@,
            "\n```\n\nCheck for issues that would prevent successful verification, such as:\n1. Incompleteness in definitions\n2. Unprovable assertions or theorems\n3. Missing lemmas or auxiliary functions\n4. Inconsistent assumptions\nFor each issue found, provide:\n1. The line number or location\n2. A description of the verification issue\n3. The severity (Error, Warning, or Info)\n4. A suggested fix\nFormat each issue as: \"Line [number]: [description] - [severity]\\nSuggestion: [fix]\"\n\nAfter listing all issues, provide a final judgment: Can the specification be formally verified as written (true/false)?"@,
        ),
    }
}

/// The review prompt for a specification in notation `label` with code
/// `code`.
pub open spec fn review_prompt_text(d: ValidationDepth, label: Seq<char>, code: Seq<char>) -> Seq<
    char,
> {
    review_parts(d).0 + label + review_parts(d).1 + code + review_parts(d).2
}

/// The prompt that asks the model to review `spec` at depth `depth`.
pub fn review_prompt(spec: &Specification, depth: ValidationDepth) -> (r: String)
    ensures
        r@ == review_prompt_text(
            depth,
            language_label(spec.formal_spec.verification_language),
            spec.formal_spec.spec_code@,
        ),
{
    let (head, mid, tail) = match depth {
        ValidationDepth::Basic => (
            "You are a formal verification expert. Validate the syntax of this ",
            " specification:\n\n```\n",
            "\n```\n\nCheck for syntax errors, undefined references, and basic consistency issues. For each issue found, provide:\n1. The line number or location\n2. A description of the issue\n3. The severity (Error, Warning, or Info)\n4. A suggested fix\nFormat each issue as: \"Line [number]: [description] - [severity]\\nSuggestion: [fix]\"\n\nAfter listing all issues, provide a final judgment: Is the specification syntax valid (true/false)?",
        ),
        ValidationDepth::TypeCheck => (
            "You are a formal verification expert with deep knowledge of ",
            " type systems. Perform type checking on this specification:\n\n```\n",
            "\n```\n\nCheck for type errors, type inconsistencies, and type-related issues. For each issue found, provide:\n1. The line number or location\n2. A description of the type error\n3. The severity (Error, Warning, or Info)\n4. A suggested fix\nFormat each issue as: \"Line [number]: [description] - [severity]\\nSuggestion: [fix]\"\n\nAfter listing all issues, provide a final judgment: Does the specification pass type checking (true/false)?",
        ),
        ValidationDepth::FormalVerification => (
            "You are a formal verification expert with deep knowledge of ",
            ". Validate whether this specification can be formally verified:\n\n```\n",
            "\n```\n\nCheck for issues that would prevent successful verification, such as:\n1. Incompleteness in definitions\n2. Unprovable assertions or theorems\n3. Missing lemmas or auxiliary functions\n4. Inconsistent assumptions\nFor each issue found, provide:\n1. The line number or location\n2. A description of the verification issue\n3. The severity (Error, Warning, or Info)\n4. A suggested fix\nFormat each issue as: \"Line [number]: [description] - [severity]\\nSuggestion: [fix]\"\n\nAfter listing all issues, provide a final judgment: Can the specification be formally verified as written (true/false)?",
        ),
    };
    let mut r = String::from_str(head);
    let label = spec.formal_spec.verification_language.to_string();
    r.append(label.as_str());
    r.append(mid);
    r.append(spec.formal_spec.spec_code.as_str());
    r.append(tail);
    r
}

/// An issue line's severity depends on that line alone: a line that holds
/// `Error` opens an `Error` issue whatever the answer said before it.
pub proof fn severity_follows_own_line(st: IssueScan, l: Seq<char>)
    requires
        is_issue_start(l),
        contains(l, "Error"@),
    ensures
        issue_step(st, l).severity == IssueSeverity::Error,
        pending_issue(issue_step(st, l)).message == l,
{
}

/// In the recorded issues, an issue line that holds `Error` stays an
/// `Error` issue, whatever lines (with `Warning` or not) come before it.
pub proof fn error_line_is_recorded_as_error(ls: Seq<Seq<char>>)
    requires
        ls.len() > 0,
        is_issue_start(ls.last()),
        contains(ls.last(), "Error"@),
    ensures
        flush(issue_scan(ls)).last().severity == IssueSeverity::Error,
        flush(issue_scan(ls)).last().message == ls.last(),
{
    reveal_strlit("Line ");
    reveal_strlit("Location ");
    assert(ls.last().len() > 0);
}

/// The report that the model's answer to the syntax review gives.
pub fn validate_syntax(answer: &str) -> (r: ValidationReport)
    ensures
        r.is_valid == verdict_holds(lower_of(answer@), ValidationDepth::Basic),
        issue_models(r.issues@) == issues_of(answer@),
        !r.tool_validated,
        r.tool_output is None,
{
    parse_review_answer(answer, ValidationDepth::Basic)
}

/// The report that the model's answer to the type-checking review gives.
pub fn validate_type_checking(answer: &str) -> (r: ValidationReport)
    ensures
        r.is_valid == verdict_holds(lower_of(answer@), ValidationDepth::TypeCheck),
        issue_models(r.issues@) == issues_of(answer@),
        !r.tool_validated,
        r.tool_output is None,
{
    parse_review_answer(answer, ValidationDepth::TypeCheck)
}

/// The report that the model's answer to the provability review gives.
pub fn validate_formal_verification(answer: &str) -> (r: ValidationReport)
    ensures
        r.is_valid == verdict_holds(lower_of(answer@), ValidationDepth::FormalVerification),
        issue_models(r.issues@) == issues_of(answer@),
        !r.tool_validated,
        opt_view(r.tool_output) == Some(answer@),
{
    parse_review_answer(answer, ValidationDepth::FormalVerification)
}

} // verus!
