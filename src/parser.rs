//! Extraction of a formal artifact from a model's free-form answer.
use vstd::prelude::*;
use vstd::string::*;
use crate::models::{FormalSpecification, VerificationLanguage, string_views};
use crate::text::{
    chars_of, extend_chars, first_word, first_word_chars, lines_of, second_word,
    second_word_chars, slice_chars, split_lines, starts_with, starts_with_chars, string_of, trim,
    trim_chars, trim_end_char, trim_end_char_chars, trim_end_separators,
    trim_end_separators_chars, views,
};

verus! {

pub open spec fn digit_char(d: nat) -> char {
    if d == 0 { '0' }
    else if d == 1 { '1' }
    else if d == 2 { '2' }
    else if d == 3 { '3' }
    else if d == 4 { '4' }
    else if d == 5 { '5' }
    else if d == 6 { '6' }
    else if d == 7 { '7' }
    else if d == 8 { '8' }
    else { '9' }
}

/// The decimal digits of `n`.
pub open spec fn decimal(n: nat) -> Seq<char>
    decreases n,
{
    if n < 10 {
        seq![digit_char(n)]
    } else {
        decimal(n / 10).push(digit_char(n % 10))
    }
}

fn digit_of(d: u128) -> (c: char)
    requires
        d < 10,
    ensures
        c == digit_char(d as nat),
{
    if d == 0 { '0' }
    else if d == 1 { '1' }
    else if d == 2 { '2' }
    else if d == 3 { '3' }
    else if d == 4 { '4' }
    else if d == 5 { '5' }
    else if d == 6 { '6' }
    else if d == 7 { '7' }
    else if d == 8 { '8' }
    else { '9' }
}

/// The decimal digits of `n`.
pub fn decimal_chars(n: u128) -> (r: Vec<char>)
    ensures
        r@ == decimal(n as nat),
    decreases n,
{
    if n < 10 {
        let mut v: Vec<char> = Vec::new();
        v.push(digit_of(n));
        v
    } else {
        let mut v = decimal_chars(n / 10);
        v.push(digit_of(n % 10));
        v
    }
}

/// Whether two texts are equal.
pub fn chars_eq(a: &Vec<char>, b: &Vec<char>) -> (r: bool)
    ensures
        r == (a@ == b@),
{
    if a.len() != b.len() {
        return false;
    }
    let mut i: usize = 0;
    while i < a.len()
        invariant
            a.len() == b.len(),
            i <= a.len(),
            forall|j: int| 0 <= j < i ==> a@[j] == b@[j],
        decreases a.len() - i,
    {
        if a[i] != b[i] {
            return false;
        }
        i = i + 1;
    }
    assert(a@ =~= b@);
    true
}

/// A name-to-text table with unique names.
pub type Table = Seq<(Seq<char>, Seq<char>)>;

/// The position of `k` in table `m`.
pub open spec fn table_index(m: Table, k: Seq<char>) -> Option<int>
    decreases m.len(),
{
    if m.len() == 0 {
        None
    } else if m.last().0 == k {
        Some(m.len() - 1)
    } else {
        table_index(m.drop_last(), k)
    }
}

/// `m` with `k` bound to `v`: an existing entry is replaced, else one is
/// appended.
pub open spec fn table_insert(m: Table, k: Seq<char>, v: Seq<char>) -> Table {
    match table_index(m, k) {
        Some(i) => m.update(i, (k, v)),
        None => m.push((k, v)),
    }
}

pub open spec fn table_view(v: Seq<(Vec<char>, Vec<char>)>) -> Table {
    Seq::new(v.len(), |i: int| (v[i].0@, v[i].1@))
}

pub open spec fn pair_views(v: Seq<(String, String)>) -> Table {
    Seq::new(v.len(), |i: int| (v[i].0@, v[i].1@))
}

fn table_put(m: &mut Vec<(Vec<char>, Vec<char>)>, k: Vec<char>, v: Vec<char>)
    ensures
        table_view(final(m)@) == table_insert(table_view(old(m)@), k@, v@),
{
    let ghost t = table_view(m@);
    let mut i = m.len();
    assert(t.take(i as int) == t);
    while i > 0
        invariant
            i <= m.len(),
            t == table_view(m@),
            t == table_view(old(m)@),
            table_index(t, k@) == table_index(t.take(i as int), k@),
        decreases i,
    {
        assert(t.take(i as int).drop_last() == t.take(i - 1));
        if chars_eq(&m[i - 1].0, &k) {
            proof {
                assert(t.take(i as int).last().0 == k@);
                assert(table_index(t.take(i as int), k@) == Some(i - 1));
                assert(table_insert(t, k@, v@) == t.update(i - 1, (k@, v@)));
            }
            m.set(i - 1, (k, v));
            assert(table_view(m@) =~= t.update(i - 1, (k@, v@)));
            return;
        }
        i = i - 1;
    }
    m.push((k, v));
    assert(table_view(m@) =~= t.push((k@, v@)));
}

/// The state of the fence scan over an answer's lines.
pub struct Scan {
    pub in_block: bool,
    /// Whether some block has been closed.
    pub closed: bool,
    pub code: Seq<char>,
    pub current: Seq<char>,
    pub name: Seq<char>,
    pub comps: Table,
}

pub open spec fn fence() -> Seq<char> {
    "```"@
}

pub open spec fn scan_start(content: Seq<char>) -> Scan {
    Scan {
        in_block: false,
        closed: false,
        code: Seq::empty(),
        current: Seq::empty(),
        name: Seq::empty(),
        comps: seq![("description"@, content)],
    }
}

/// One line of the scan: a fence line toggles the block state, storing the
/// finished fragment, if not empty, on close and giving every opened block a
/// fresh `component_<k>` name; a line inside a block is added to the code
/// and to the current fragment.
pub open spec fn scan_line(st: Scan, l: Seq<char>) -> Scan {
    if starts_with(l, fence()) {
        let inside = !st.in_block;
        let closing = !inside && st.current.len() > 0;
        let comps = if closing { table_insert(st.comps, st.name, st.current) } else { st.comps };
        Scan {
            in_block: inside,
            closed: st.closed || !inside,
            code: st.code,
            current: if closing { Seq::empty() } else { st.current },
            name: if inside {
                "component_"@ + decimal((comps.len() + 1) as nat)
            } else {
                st.name
            },
            comps,
        }
    } else if st.in_block {
        Scan {
            current: st.current + l.push('\n'),
            code: st.code + l.push('\n'),
            ..st
        }
    } else {
        st
    }
}

pub open spec fn scan_lines(content: Seq<char>, ls: Seq<Seq<char>>) -> Scan
    decreases ls.len(),
{
    if ls.len() == 0 {
        scan_start(content)
    } else {
        scan_line(scan_lines(content, ls.drop_last()), ls.last())
    }
}

pub open spec fn scan_of(content: Seq<char>) -> Scan {
    scan_lines(content, lines_of(content))
}

/// The code of an answer: the lines inside fenced blocks, each ended by a
/// newline; the whole answer where no block was ever closed or no such line
/// exists.
pub open spec fn extracted_code(content: Seq<char>) -> Seq<char> {
    let code = scan_of(content).code;
    if !scan_of(content).closed || code.len() == 0 {
        content
    } else {
        code
    }
}

/// The named fragments of an answer; `description` holds the whole answer.
pub open spec fn components_of(content: Seq<char>) -> Table {
    let st = scan_of(content);
    if st.current.len() > 0 && st.name.len() > 0 {
        table_insert(st.comps, st.name, st.current)
    } else {
        st.comps
    }
}

/// The import prefixes of each notation; notations without any yield no
/// dependencies.
pub open spec fn dependency_prefixes(l: VerificationLanguage) -> Seq<Seq<char>> {
    match l {
        VerificationLanguage::FStarLang => seq!["open "@, "include "@, "module "@],
        VerificationLanguage::DafnyLang => seq!["import "@],
        VerificationLanguage::CoqLang => seq!["Require Import "@, "Require Export "@],
        VerificationLanguage::IsabelleLang => seq!["imports "@],
        VerificationLanguage::LeanLang => seq!["import "@],
        VerificationLanguage::TLAPlus => seq!["EXTENDS "@],
        VerificationLanguage::Why3Lang => seq!["use "@],
        VerificationLanguage::Z3SMT => seq!["(include "@],
        _ => Seq::empty(),
    }
}

/// The dependencies that one trimmed line declares: for each prefix, in
/// order, that the line starts with, the first word after it without
/// trailing `,` or `;`, where that is not empty.
pub open spec fn line_dependencies(t: Seq<char>, pats: Seq<Seq<char>>) -> Seq<Seq<char>>
    decreases pats.len(),
{
    if pats.len() == 0 {
        Seq::empty()
    } else {
        let prev = line_dependencies(t, pats.drop_last());
        let p = pats.last();
        if starts_with(t, p) {
            let d = trim_end_separators(first_word(t.subrange(p.len() as int, t.len() as int)));
            if d.len() > 0 {
                prev.push(d)
            } else {
                prev
            }
        } else {
            prev
        }
    }
}

pub open spec fn lines_dependencies(ls: Seq<Seq<char>>, pats: Seq<Seq<char>>) -> Seq<Seq<char>>
    decreases ls.len(),
{
    if ls.len() == 0 {
        Seq::empty()
    } else {
        lines_dependencies(ls.drop_last(), pats) + line_dependencies(trim(ls.last()), pats)
    }
}

/// The dependencies that `code` declares in notation `l`, in source order.
pub open spec fn dependencies_of(code: Seq<char>, l: VerificationLanguage) -> Seq<Seq<char>> {
    lines_dependencies(lines_of(code), dependency_prefixes(l))
}

/// The keywords that introduce a function, lemma or definition.
pub open spec fn function_keywords(l: VerificationLanguage) -> Seq<Seq<char>> {
    match l {
        VerificationLanguage::FStarLang => seq!["val"@, "let"@],
        VerificationLanguage::DafnyLang => seq!["method"@, "function"@, "predicate"@],
        VerificationLanguage::CoqLang => seq!["Theorem"@, "Lemma"@, "Definition"@],
        VerificationLanguage::IsabelleLang => seq!["theorem"@, "lemma"@, "definition"@],
        _ => Seq::empty(),
    }
}

/// The keywords that introduce a type.
pub open spec fn type_keywords(l: VerificationLanguage) -> Seq<Seq<char>> {
    match l {
        VerificationLanguage::FStarLang => seq!["type"@],
        VerificationLanguage::DafnyLang => seq!["class"@, "datatype"@, "type"@],
        VerificationLanguage::CoqLang => seq!["Inductive"@, "Record"@, "Structure"@],
        VerificationLanguage::IsabelleLang => seq!["datatype"@, "record"@, "type_synonym"@],
        _ => Seq::empty(),
    }
}

/// The names that one trimmed line declares: for each keyword, in order,
/// that the line starts with, its second word without trailing `end`
/// characters and then without trailing `{`, where the line has a second
/// word.
pub open spec fn line_names(t: Seq<char>, pats: Seq<Seq<char>>, end: char) -> Seq<Seq<char>>
    decreases pats.len(),
{
    if pats.len() == 0 {
        Seq::empty()
    } else {
        let prev = line_names(t, pats.drop_last(), end);
        if starts_with(t, pats.last()) && second_word(t).len() > 0 {
            prev.push(trim_end_char(trim_end_char(second_word(t), end), '{'))
        } else {
            prev
        }
    }
}

pub open spec fn lines_names(ls: Seq<Seq<char>>, pats: Seq<Seq<char>>, end: char) -> Seq<Seq<char>>
    decreases ls.len(),
{
    if ls.len() == 0 {
        Seq::empty()
    } else {
        lines_names(ls.drop_last(), pats, end) + line_names(trim(ls.last()), pats, end)
    }
}

/// The function, lemma and definition names that `code` declares.
pub open spec fn functions_of(code: Seq<char>, l: VerificationLanguage) -> Seq<Seq<char>> {
    lines_names(lines_of(code), function_keywords(l), ':')
}

/// The type names that `code` declares.
pub open spec fn types_of(code: Seq<char>, l: VerificationLanguage) -> Seq<Seq<char>> {
    lines_names(lines_of(code), type_keywords(l), '=')
}

fn char_list(a: &str, b: &str, c: &str, n: usize) -> (r: Vec<Vec<char>>)
    requires
        n <= 3,
    ensures
        views(r@) == seq![a@, b@, c@].take(n as int),
{
    let mut r: Vec<Vec<char>> = Vec::new();
    if n >= 1 {
        r.push(chars_of(a));
    }
    if n >= 2 {
        r.push(chars_of(b));
    }
    if n >= 3 {
        r.push(chars_of(c));
    }
    assert(views(r@) =~= seq![a@, b@, c@].take(n as int));
    r
}

fn dependency_prefix_list(l: &VerificationLanguage) -> (r: Vec<Vec<char>>)
    ensures
        views(r@) == dependency_prefixes(*l),
{
    let r = match l {
        VerificationLanguage::FStarLang => char_list("open ", "include ", "module ", 3),
        VerificationLanguage::DafnyLang => char_list("import ", "", "", 1),
        VerificationLanguage::CoqLang => char_list("Require Import ", "Require Export ", "", 2),
        VerificationLanguage::IsabelleLang => char_list("imports ", "", "", 1),
        VerificationLanguage::LeanLang => char_list("import ", "", "", 1),
        VerificationLanguage::TLAPlus => char_list("EXTENDS ", "", "", 1),
        VerificationLanguage::Why3Lang => char_list("use ", "", "", 1),
        VerificationLanguage::Z3SMT => char_list("(include ", "", "", 1),
        _ => char_list("", "", "", 0),
    };
    assert(views(r@) =~= dependency_prefixes(*l));
    r
}

fn function_keyword_list(l: &VerificationLanguage) -> (r: Vec<Vec<char>>)
    ensures
        views(r@) == function_keywords(*l),
{
    let r = match l {
        VerificationLanguage::FStarLang => char_list("val", "let", "", 2),
        VerificationLanguage::DafnyLang => char_list("method", "function", "predicate", 3),
        VerificationLanguage::CoqLang => char_list("Theorem", "Lemma", "Definition", 3),
        VerificationLanguage::IsabelleLang => char_list("theorem", "lemma", "definition", 3),
        _ => char_list("", "", "", 0),
    };
    assert(views(r@) =~= function_keywords(*l));
    r
}

fn type_keyword_list(l: &VerificationLanguage) -> (r: Vec<Vec<char>>)
    ensures
        views(r@) == type_keywords(*l),
{
    let r = match l {
        VerificationLanguage::FStarLang => char_list("type", "", "", 1),
        VerificationLanguage::DafnyLang => char_list("class", "datatype", "type", 3),
        VerificationLanguage::CoqLang => char_list("Inductive", "Record", "Structure", 3),
        VerificationLanguage::IsabelleLang => char_list("datatype", "record", "type_synonym", 3),
        _ => char_list("", "", "", 0),
    };
    assert(views(r@) =~= type_keywords(*l));
    r
}

fn push_line_dependencies(t: &Vec<char>, pats: &Vec<Vec<char>>, out: &mut Vec<String>)
    ensures
        string_views(final(out)@) == string_views(old(out)@) + line_dependencies(t@, views(pats@)),
{
    let mut j: usize = 0;
    while j < pats.len()
        invariant
            j <= pats.len(),
            string_views(out@) == string_views(old(out)@) + line_dependencies(t@, views(pats@).take(j as int)),
        decreases pats.len() - j,
    {
        let ghost before = string_views(out@);
        assert(views(pats@).take(j + 1).drop_last() == views(pats@).take(j as int));
        assert(views(pats@).take(j + 1).last() == pats@[j as int]@);
        let p = &pats[j];
        if starts_with_chars(t, p) {
            let rest = slice_chars(t, p.len(), t.len());
            let w = first_word_chars(&rest);
            let d = trim_end_separators_chars(&w);
            if d.len() > 0 {
                let ds = string_of(&d);
                out.push(ds);
                assert(string_views(out@) =~= before.push(d@));
            }
        }
        j = j + 1;
    }
    assert(views(pats@).take(pats.len() as int) == views(pats@));
}

fn push_line_names(t: &Vec<char>, pats: &Vec<Vec<char>>, end: char, out: &mut Vec<String>)
    ensures
        string_views(final(out)@) == string_views(old(out)@) + line_names(t@, views(pats@), end),
{
    let mut j: usize = 0;
    while j < pats.len()
        invariant
            j <= pats.len(),
            string_views(out@) == string_views(old(out)@) + line_names(t@, views(pats@).take(j as int), end),
        decreases pats.len() - j,
    {
        let ghost before = string_views(out@);
        assert(views(pats@).take(j + 1).drop_last() == views(pats@).take(j as int));
        assert(views(pats@).take(j + 1).last() == pats@[j as int]@);
        if starts_with_chars(t, &pats[j]) {
            let w = second_word_chars(t);
            if w.len() > 0 {
                let a = trim_end_char_chars(&w, end);
                let b = trim_end_char_chars(&a, '{');
                let bs = string_of(&b);
                out.push(bs);
                assert(string_views(out@) =~= before.push(b@));
            }
        }
        j = j + 1;
    }
    assert(views(pats@).take(pats.len() as int) == views(pats@));
}

fn dependencies_in(code: &Vec<char>, l: &VerificationLanguage) -> (r: Vec<String>)
    ensures
        string_views(r@) == dependencies_of(code@, *l),
{
    let pats = dependency_prefix_list(l);
    let lines = split_lines(code);
    let mut out: Vec<String> = Vec::new();
    let mut i: usize = 0;
    while i < lines.len()
        invariant
            i <= lines.len(),
            views(lines@) == lines_of(code@),
            views(pats@) == dependency_prefixes(*l),
            string_views(out@) == lines_dependencies(views(lines@).take(i as int), views(pats@)),
        decreases lines.len() - i,
    {
        assert(views(lines@).take(i + 1).drop_last() == views(lines@).take(i as int));
        assert(views(lines@).take(i + 1).last() == lines@[i as int]@);
        let t = trim_chars(&lines[i]);
        push_line_dependencies(&t, &pats, &mut out);
        i = i + 1;
    }
    assert(views(lines@).take(lines.len() as int) == views(lines@));
    out
}

fn names_in(code: &Vec<char>, pats: &Vec<Vec<char>>, end: char) -> (r: Vec<String>)
    ensures
        string_views(r@) == lines_names(lines_of(code@), views(pats@), end),
{
    let lines = split_lines(code);
    let mut out: Vec<String> = Vec::new();
    let mut i: usize = 0;
    while i < lines.len()
        invariant
            i <= lines.len(),
            views(lines@) == lines_of(code@),
            string_views(out@) == lines_names(views(lines@).take(i as int), views(pats@), end),
        decreases lines.len() - i,
    {
        assert(views(lines@).take(i + 1).drop_last() == views(lines@).take(i as int));
        assert(views(lines@).take(i + 1).last() == lines@[i as int]@);
        let t = trim_chars(&lines[i]);
        push_line_names(&t, pats, end, &mut out);
        i = i + 1;
    }
    assert(views(lines@).take(lines.len() as int) == views(lines@));
    out
}

/// The dependencies that `content` declares in notation `language`, in
/// source order, duplicates kept.
pub fn extract_dependencies(content: &str, language: &VerificationLanguage) -> (r: Vec<String>)
    ensures
        string_views(r@) == dependencies_of(content@, *language),
{
    dependencies_in(&chars_of(content), language)
}

/// The function, lemma and definition names that `code` declares.
pub fn extract_functions(code: &str, language: &VerificationLanguage) -> (r: Vec<String>)
    ensures
        string_views(r@) == functions_of(code@, *language),
{
    names_in(&chars_of(code), &function_keyword_list(language), ':')
}

/// The type names that `code` declares.
pub fn extract_types(code: &str, language: &VerificationLanguage) -> (r: Vec<String>)
    ensures
        string_views(r@) == types_of(code@, *language),
{
    names_in(&chars_of(code), &type_keyword_list(language), '=')
}

/// The scan state held by executable values.
pub open spec fn scan_view(
    in_block: bool,
    closed: bool,
    code: Seq<char>,
    current: Seq<char>,
    name: Seq<char>,
    comps: Seq<(Vec<char>, Vec<char>)>,
) -> Scan {
    Scan { in_block, closed, code, current, name, comps: table_view(comps) }
}

fn to_pairs(m: Vec<(Vec<char>, Vec<char>)>) -> (r: Vec<(String, String)>)
    ensures
        pair_views(r@) == table_view(m@),
{
    let mut r: Vec<(String, String)> = Vec::new();
    let mut i: usize = 0;
    while i < m.len()
        invariant
            i <= m.len(),
            pair_views(r@) == table_view(m@).take(i as int),
        decreases m.len() - i,
    {
        let ghost before = pair_views(r@);
        let k = string_of(&m[i].0);
        let v = string_of(&m[i].1);
        r.push((k, v));
        assert(pair_views(r@) =~= before.push((m@[i as int].0@, m@[i as int].1@)));
        assert(table_view(m@).take(i + 1) =~= table_view(m@).take(i as int).push(
            (m@[i as int].0@, m@[i as int].1@),
        ));
        i = i + 1;
    }
    assert(table_view(m@).take(m.len() as int) =~= table_view(m@));
    r
}

/// The code text of an answer: its fenced lines, or the whole answer where
/// no block was closed or the blocks hold no line.
pub fn extract_code_blocks(content: &str) -> (r: String)
    ensures
        r@ == extracted_code(content@),
{
    let f = parse_formal_specification(content, VerificationLanguage::Custom(String::new()));
    f.spec_code
}

/// Parses a model answer into a formal artifact: the code of its fenced
/// blocks (or the whole answer where no block was closed or the blocks are
/// empty), its named fragments, and the dependencies that code declares.
pub fn parse_formal_specification(content: &str, verification_language: VerificationLanguage) -> (r:
    FormalSpecification)
    ensures
        r.verification_language == verification_language,
        r.spec_code@ == extracted_code(content@),
        pair_views(r.components@) == components_of(content@),
        string_views(r.dependencies@) == dependencies_of(r.spec_code@, verification_language),
{
    let text = chars_of(content);
    let lines = split_lines(&text);
    let fence_chars = chars_of("```");
    let prefix = chars_of("component_");
    let mut in_block = false;
    let mut closed = false;
    let mut code: Vec<char> = Vec::new();
    let mut current: Vec<char> = Vec::new();
    let mut name: Vec<char> = Vec::new();
    let mut comps: Vec<(Vec<char>, Vec<char>)> = Vec::new();
    comps.push((chars_of("description"), slice_chars(&text, 0, text.len())));
    assert(text@.subrange(0, text.len() as int) == text@);
    assert(table_view(comps@) =~= scan_start(content@).comps);
    let mut i: usize = 0;
    while i < lines.len()
        invariant
            i <= lines.len(),
            text@ == content@,
            fence_chars@ == fence(),
            prefix@ == "component_"@,
            views(lines@) == lines_of(content@),
            scan_view(in_block, closed, code@, current@, name@, comps@) == scan_lines(
                content@,
                views(lines@).take(i as int),
            ),
        decreases lines.len() - i,
    {
        let ghost st = scan_lines(content@, views(lines@).take(i as int));
        assert(views(lines@).take(i + 1).drop_last() == views(lines@).take(i as int));
        assert(views(lines@).take(i + 1).last() == lines@[i as int]@);
        let l = &lines[i];
        if starts_with_chars(l, &fence_chars) {
            let inside = !in_block;
            if !inside && current.len() > 0 {
                let key = slice_chars(&name, 0, name.len());
                assert(name@.subrange(0, name.len() as int) == name@);
                table_put(&mut comps, key, current);
                current = Vec::new();
            }
            if inside {
                let mut n = slice_chars(&prefix, 0, prefix.len());
                assert(prefix@.subrange(0, prefix.len() as int) == prefix@);
                let digits = decimal_chars(comps.len() as u128 + 1);
                extend_chars(&mut n, &digits);
                name = n;
            }
            closed = closed || !inside;
            in_block = inside;
        } else if in_block {
            extend_chars(&mut current, l);
            current.push('\n');
            extend_chars(&mut code, l);
            code.push('\n');
        }
        assert(scan_view(in_block, closed, code@, current@, name@, comps@) =~= scan_line(st, lines@[i as int]@));
        i = i + 1;
    }
    assert(views(lines@).take(lines.len() as int) == views(lines@));
    if current.len() > 0 && name.len() > 0 {
        table_put(&mut comps, name, current);
    }
    let code_text = if !closed || code.len() == 0 {
        text
    } else {
        code
    };
    let dependencies = dependencies_in(&code_text, &verification_language);
    FormalSpecification {
        verification_language,
        spec_code: string_of(&code_text),
        components: to_pairs(comps),
        dependencies,
    }
}

/// The number of fence lines among `ls`.
pub open spec fn fence_count(ls: Seq<Seq<char>>) -> nat
    decreases ls.len(),
{
    if ls.len() == 0 {
        0
    } else {
        fence_count(ls.drop_last()) + if starts_with(ls.last(), fence()) { 1nat } else { 0nat }
    }
}

proof fn lemma_scan_parity(content: Seq<char>, ls: Seq<Seq<char>>)
    ensures
        scan_lines(content, ls).in_block <==> fence_count(ls) % 2 == 1,
        fence_count(ls) == 0 ==> scan_lines(content, ls).code.len() == 0,
        fence_count(ls) <= 1 ==> !scan_lines(content, ls).closed,
    decreases ls.len(),
{
    if ls.len() > 0 {
        lemma_scan_parity(content, ls.drop_last());
    }
}

/// A non-empty answer always yields non-empty code.
pub proof fn code_is_never_empty(content: Seq<char>)
    requires
        content.len() > 0,
    ensures
        extracted_code(content).len() > 0,
{
}

/// An answer with an odd number of fence lines ends inside an open block;
/// its code is whatever the fenced lines accumulated once some block was
/// closed, and the whole answer where no block was ever closed (as with a
/// single fence) or nothing accumulated.
pub proof fn unbalanced_fences_keep_accumulated_code(content: Seq<char>)
    requires
        fence_count(lines_of(content)) % 2 == 1,
    ensures
        scan_of(content).in_block,
        scan_of(content).closed && scan_of(content).code.len() > 0 ==> extracted_code(content)
            == scan_of(content).code,
        !scan_of(content).closed || scan_of(content).code.len() == 0 ==> extracted_code(content)
            == content,
        fence_count(lines_of(content)) == 1 ==> extracted_code(content) == content,
{
    lemma_scan_parity(content, lines_of(content));
}

/// An answer without any fence line is taken whole as code.
pub proof fn unfenced_answer_is_taken_whole(content: Seq<char>)
    requires
        fence_count(lines_of(content)) == 0,
    ensures
        extracted_code(content) == content,
{
    lemma_scan_parity(content, lines_of(content));
}

/// Dependencies keep source order: those of two runs of lines are those
/// of the first run followed by those of the second.
pub proof fn dependencies_keep_source_order(a: Seq<Seq<char>>, b: Seq<Seq<char>>, pats: Seq<Seq<char>>)
    ensures
        lines_dependencies(a + b, pats) == lines_dependencies(a, pats) + lines_dependencies(b, pats),
    decreases b.len(),
{
    if b.len() == 0 {
        assert(a + b =~= a);
        assert(lines_dependencies(a, pats) + Seq::<Seq<char>>::empty() =~= lines_dependencies(a, pats));
    } else {
        dependencies_keep_source_order(a, b.drop_last(), pats);
        assert((a + b).drop_last() =~= a + b.drop_last());
        assert((a + b).last() == b.last());
        assert(lines_dependencies(a, pats) + lines_dependencies(b.drop_last(), pats)
            + line_dependencies(trim(b.last()), pats) =~= lines_dependencies(a, pats) + (
        lines_dependencies(b.drop_last(), pats) + line_dependencies(trim(b.last()), pats)));
    }
}

/// A module name: non-empty, without white space, not ending in `,` or
/// `;`.
pub open spec fn is_module_name(w: Seq<char>) -> bool {
    &&& w.len() > 0
    &&& forall|i: int| 0 <= i < w.len() ==> !crate::text::is_ws(#[trigger] w[i])
    &&& w.last() != ','
    &&& w.last() != ';'
}

proof fn lemma_word_without_space(w: Seq<char>)
    requires
        forall|i: int| 0 <= i < w.len() ==> !crate::text::is_ws(#[trigger] w[i]),
    ensures
        crate::text::take_word(w) == w,
    decreases w.len(),
{
    if w.len() > 0 {
        assert forall|i: int| 0 <= i < w.drop_first().len() implies !crate::text::is_ws(
            #[trigger] w.drop_first()[i],
        ) by {
            assert(w.drop_first()[i] == w[i + 1]);
        }
        lemma_word_without_space(w.drop_first());
        assert(seq![w[0]] + w.drop_first() =~= w);
    }
}

/// An F* line `open <name>` declares exactly that name.
pub proof fn open_line_declares_its_module(w: Seq<char>)
    requires
        is_module_name(w),
    ensures
        trim("open "@ + w) == "open "@ + w,
        line_dependencies("open "@ + w, dependency_prefixes(VerificationLanguage::FStarLang))
            == seq![w],
{
    reveal_strlit("open ");
    reveal_strlit("include ");
    reveal_strlit("module ");
    let l = "open "@ + w;
    assert(l[0] == 'o');
    assert(l.last() == w.last());
    assert(!crate::text::is_ws(w.last())) by {
        assert(w.last() == w[w.len() - 1]);
    }
    assert(crate::text::trim_start(l) == l);
    assert(crate::text::trim_end(l) == l);
    let pats = dependency_prefixes(VerificationLanguage::FStarLang);
    assert(pats.drop_last().drop_last().drop_last() =~= Seq::<Seq<char>>::empty());
    assert(!starts_with(l, "module "@)) by {
        if 7 <= l.len() {
            assert(l.subrange(0, 7)[0] == l[0]);
            assert("module "@[0] == 'm');
        }
    }
    assert(!starts_with(l, "include "@)) by {
        if 8 <= l.len() {
            assert(l.subrange(0, 8)[0] == l[0]);
            assert("include "@[0] == 'i');
        }
    }
    assert(starts_with(l, "open "@)) by {
        assert(l.subrange(0, 5) =~= "open "@);
    }
    let rest = l.subrange(5, l.len() as int);
    assert(rest =~= w);
    assert(crate::text::trim_start(w) == w) by {
        assert(!crate::text::is_ws(w[0]));
    }
    lemma_word_without_space(w);
    assert(crate::text::trim_end_separators(w) == w);
    assert(crate::text::first_word(rest) == w);
    let p1 = seq!["open "@];
    let p2 = p1.push("include "@);
    let p3 = p2.push("module "@);
    assert(pats =~= p3);
    assert(p3.drop_last() =~= p2);
    assert(p2.drop_last() =~= p1);
    assert(p1.drop_last() =~= Seq::<Seq<char>>::empty());
    assert(p1.last() == "open "@);
    assert(line_dependencies(l, Seq::<Seq<char>>::empty()) =~= Seq::<Seq<char>>::empty());
    assert(line_dependencies(l, p1) =~= seq![w]);
    assert(line_dependencies(l, p2) =~= seq![w]);
    assert(line_dependencies(l, p3) =~= seq![w]);
}

/// The lines `open <name>` for each name.
pub open spec fn open_lines(ws: Seq<Seq<char>>) -> Seq<Seq<char>> {
    Seq::new(ws.len(), |i: int| "open "@ + ws[i])
}

/// Dependency extraction is complete and ordered: F* lines `open <name>`
/// give back exactly their names, in source order.
pub proof fn open_lines_give_their_modules(ws: Seq<Seq<char>>)
    requires
        forall|i: int| 0 <= i < ws.len() ==> is_module_name(#[trigger] ws[i]),
    ensures
        lines_dependencies(open_lines(ws), dependency_prefixes(VerificationLanguage::FStarLang)) == ws,
    decreases ws.len(),
{
    if ws.len() > 0 {
        let pats = dependency_prefixes(VerificationLanguage::FStarLang);
        open_lines_give_their_modules(ws.drop_last());
        assert(open_lines(ws).drop_last() =~= open_lines(ws.drop_last()));
        assert(open_lines(ws).last() == "open "@ + ws.last());
        open_line_declares_its_module(ws.last());
        assert(ws.drop_last() + seq![ws.last()] =~= ws);
    }
}

/// F* source whose lines are `open <name>` lines declares exactly those
/// names, in source order, and nothing else.
pub proof fn open_source_declares_its_modules(code: Seq<char>, ws: Seq<Seq<char>>)
    requires
        lines_of(code) == open_lines(ws),
        forall|i: int| 0 <= i < ws.len() ==> is_module_name(#[trigger] ws[i]),
    ensures
        dependencies_of(code, VerificationLanguage::FStarLang) == ws,
{
    open_lines_give_their_modules(ws);
}

/// The scan invariant that keeps the answer under `description`.
pub open spec fn keeps_description(st: Scan, content: Seq<char>) -> bool {
    &&& st.comps.len() >= 1
    &&& st.comps[0] == ("description"@, content)
    &&& forall|i: int| 1 <= i < st.comps.len() ==> (#[trigger] st.comps[i]).0 != "description"@
    &&& st.name != "description"@
}

proof fn lemma_table_index_found(m: Table, k: Seq<char>)
    ensures
        table_index(m, k) matches Some(i) ==> 0 <= i < m.len() && m[i].0 == k,
        table_index(m, k) is None ==> forall|j: int| 0 <= j < m.len() ==> m[j].0 != k,
    decreases m.len(),
{
    if m.len() > 0 {
        lemma_table_index_found(m.drop_last(), k);
        if m.last().0 != k {
            if table_index(m, k) is None {
                assert forall|j: int| 0 <= j < m.len() implies m[j].0 != k by {
                    if j < m.len() - 1 {
                        assert(m[j] == m.drop_last()[j]);
                    }
                }
            }
        }
    }
}

proof fn lemma_first_entry_found(m: Table, k: Seq<char>)
    requires
        m.len() >= 1,
        m[0].0 == k,
        forall|i: int| 1 <= i < m.len() ==> (#[trigger] m[i]).0 != k,
    ensures
        table_index(m, k) == Some(0int),
    decreases m.len(),
{
    if m.len() > 1 {
        assert forall|i: int| 1 <= i < m.drop_last().len() implies (#[trigger] m.drop_last()[i]).0
            != k by {
            assert(m.drop_last()[i] == m[i]);
        }
        assert(m.last() == m[m.len() - 1]);
        lemma_first_entry_found(m.drop_last(), k);
    }
}

proof fn lemma_insert_keeps_description(m: Table, k: Seq<char>, v: Seq<char>, content: Seq<char>)
    requires
        m.len() >= 1,
        m[0] == ("description"@, content),
        forall|i: int| 1 <= i < m.len() ==> (#[trigger] m[i]).0 != "description"@,
        k != "description"@,
    ensures
        table_insert(m, k, v).len() >= 1,
        table_insert(m, k, v)[0] == ("description"@, content),
        forall|i: int|
            1 <= i < table_insert(m, k, v).len() ==> (#[trigger] table_insert(m, k, v)[i]).0
                != "description"@,
{
    lemma_table_index_found(m, k);
}

proof fn lemma_component_name(n: nat)
    ensures
        "component_"@ + decimal(n) != "description"@,
{
    reveal_strlit("component_");
    reveal_strlit("description");
    assert(("component_"@ + decimal(n))[0] == 'c');
}

proof fn lemma_scan_keeps_description(content: Seq<char>, ls: Seq<Seq<char>>)
    ensures
        keeps_description(scan_lines(content, ls), content),
    decreases ls.len(),
{
    reveal_strlit("description");
    if ls.len() == 0 {
        assert(Seq::<char>::empty() != "description"@) by {
            assert("description"@.len() == 11);
        }
    } else {
        lemma_scan_keeps_description(content, ls.drop_last());
        let st = scan_lines(content, ls.drop_last());
        let l = ls.last();
        if starts_with(l, fence()) {
            let inside = !st.in_block;
            if !inside && st.current.len() > 0 {
                lemma_insert_keeps_description(st.comps, st.name, st.current, content);
            }
            let comps = if !inside && st.current.len() > 0 {
                table_insert(st.comps, st.name, st.current)
            } else {
                st.comps
            };
            lemma_component_name((comps.len() + 1) as nat);
        }
    }
}

/// Whatever the fences, the `description` component holds the whole
/// answer, and it is the only entry under that name.
pub proof fn description_is_the_whole_answer(content: Seq<char>)
    ensures
        components_of(content)[0] == ("description"@, content),
        table_index(components_of(content), "description"@) == Some(0int),
{
    lemma_scan_keeps_description(content, lines_of(content));
    let st = scan_of(content);
    if st.current.len() > 0 && st.name.len() > 0 {
        lemma_insert_keeps_description(st.comps, st.name, st.current, content);
    }
    lemma_first_entry_found(components_of(content), "description"@);
}

} // verus!
