use vstd::prelude::*;
use vstd::string::*;
use crate::cursor::doc;
use crate::lint::{LintIssue, LintSeverity, issue_counts, count_of};
use crate::text::{
    contains_seq, ends_with, ends_with_char, has_char, leading_whitespace_len, rfind_char, starts_with, str_contains,
    str_contains_char, str_ends_with, str_ends_with_char, str_rfind_char, str_starts_with, substring, trim, trim_end,
    trim_end_len, trim_start, trimmed,
};

verus! {

/// The byte span of the first match of a regular expression in a text.
pub uninterp spec fn regex_first_match(pattern: Seq<char>, text: Seq<char>) -> Option<(int, int)>;

/// The byte offsets where the successive non-overlapping matches of a
/// regular expression in a text start.
pub uninterp spec fn regex_match_starts(pattern: Seq<char>, text: Seq<char>) -> Seq<int>;

/// Capture group `group` of the first match of a regular expression in a
/// text: where it starts (a byte offset) and what it holds.
pub uninterp spec fn regex_group(pattern: Seq<char>, text: Seq<char>, group: int) -> Option<(int, Seq<char>)>;

/// The line and the text of the error that parsing a text as JSON reports.
pub uninterp spec fn json_error(text: Seq<char>) -> Option<(int, Seq<char>)>;

/// The lines of a text, split at line endings, without them.
pub uninterp spec fn text_lines(text: Seq<char>) -> Seq<Seq<char>>;

/// Relies on `regex::Regex::new` and `Regex::find`: the byte span of the
/// first match of `pattern` in `text`; `None` without a match or when the
/// pattern does not compile.
#[verifier::external_body]
fn first_match(pattern: &str, text: &str) -> (r: Option<(usize, usize)>)
    ensures
        regex_first_match(pattern@, text@) == match r {
            Some(m) => Some((m.0 as int, m.1 as int)),
            None => None::<(int, int)>,
        },
{
    regex::Regex::new(pattern).ok().and_then(|re| re.find(text)).map(|m| (m.start(), m.end()))
}

/// Relies on `regex::Regex::new` and `Regex::find_iter`: where the
/// successive non-overlapping matches start; none when the pattern does
/// not compile.
#[verifier::external_body]
fn match_starts(pattern: &str, text: &str) -> (r: Vec<usize>)
    ensures
        r@.map_values(|i: usize| i as int) == regex_match_starts(pattern@, text@),
{
    match regex::Regex::new(pattern) {
        Ok(re) => re.find_iter(text).map(|m| m.start()).collect(),
        Err(_) => Vec::new(),
    }
}

/// Relies on `regex::Regex::new`, `Regex::captures` and `Captures::get`:
/// group `group` of the first match, its start and its text.
#[verifier::external_body]
fn capture_group(pattern: &str, text: &str, group: usize) -> (r: Option<(usize, String)>)
    ensures
        regex_group(pattern@, text@, group as int) == match r {
            Some(c) => Some((c.0 as int, c.1@)),
            None => None::<(int, Seq<char>)>,
        },
{
    regex::Regex::new(pattern).ok().and_then(|re| re.captures(text)).and_then(|c| c.get(group)).map(
        |m| (m.start(), m.as_str().to_string()),
    )
}

/// Relies on `serde_json::from_str` into a `serde_json::Value`, and on the
/// error's `line` and text: `None` when the text parses.
#[verifier::external_body]
fn json_syntax_error(text: &str) -> (r: Option<(usize, String)>)
    ensures
        json_error(text@) == match r {
            Some(e) => Some((e.0 as int, e.1@)),
            None => None::<(int, Seq<char>)>,
        },
{
    match serde_json::from_str::<serde_json::Value>(text) {
        Ok(_) => None,
        Err(e) => Some((e.line(), e.to_string())),
    }
}

/// Relies on `str::lines`: the text split at `\n` and `\r\n`.
#[verifier::external_body]
fn split_lines(text: &str) -> (r: Vec<String>)
    ensures
        doc(r@) == text_lines(text@),
{
    text.lines().map(|l| l.to_string()).collect()
}

pub const UNWRAP_CALL: &'static str = "\\.unwrap\\(\\)";
pub const RUST_STATEMENT: &'static str = "^\\s*(println!|print!|return\\s+[^;]+|let\\s+.*=\\s*[^;]+)\\s*$";
pub const RUST_BINDING: &'static str = "let\\s+_*([a-zA-Z_][a-zA-Z0-9_]*)\\s*=";
pub const PANIC_CALL: &'static str = "panic!\\s*\\(";
pub const CONSOLE_LOG: &'static str = "console\\.log\\s*\\(";
pub const LOOSE_EQUALITY: &'static str = "\\s==\\s";
pub const VAR_DECLARATION: &'static str = "\\bvar\\s+";
pub const DEBUGGER: &'static str = "\\bdebugger\\s*;?";
pub const JS_BINDING: &'static str = "(let|const|var)\\s+([a-zA-Z_$][a-zA-Z0-9_$]*)\\s*=";
pub const DOUBLE_NEGATION: &'static str = "!!\\s*\\w";
pub const EMPTY_BLOCK: &'static str = "\\{\\s*\\}";
pub const FUNCTION_SPACING: &'static str = "function\\s*\\(\\s*\\)\\s*\\{";
pub const JS_STATEMENT: &'static str = "^\\s*[a-zA-Z_$].*[^;{}\\s]\\s*$";
pub const COMMA_SPACING: &'static str = ",[^\\s]";
pub const PRINT_CALL: &'static str = "\\bprint\\s*\\(";

/// A diagnostic as a mathematical value.
pub struct IssueView {
    pub line: int,
    pub column: int,
    pub message: Seq<char>,
    pub severity: LintSeverity,
    pub rule: Seq<char>,
}

pub open spec fn view_of(i: LintIssue) -> IssueView {
    IssueView { line: i.line as int, column: i.column as int, message: i.message@, severity: i.severity, rule: i.rule_name@ }
}

pub open spec fn views(v: Seq<LintIssue>) -> Seq<IssueView> {
    v.map_values(|i: LintIssue| view_of(i))
}

pub open spec fn issue(line: int, column: int, message: Seq<char>, severity: LintSeverity, rule: Seq<char>) -> IssueView {
    IssueView { line, column, message, severity, rule }
}

/// `[i]` when `cond` holds, else nothing.
pub open spec fn opt(cond: bool, i: IssueView) -> Seq<IssueView> {
    if cond { seq![i] } else { Seq::empty() }
}

/// `x + 1`, saturating at the largest `usize`.
pub open spec fn succ(x: int) -> int {
    if x < usize::MAX { x + 1 } else { usize::MAX as int }
}

/// Rules for every file, on line `l` numbered `n`.
pub open spec fn universal_issues(l: Seq<char>, n: int) -> Seq<IssueView> {
    opt(
        ends_with_char(l, ' ') || ends_with_char(l, '\t'),
        issue(n, succ(trim_end(l).len() as int), "Trailing whitespace"@, LintSeverity::Info, "trailing-whitespace"@),
    ) + opt(
        l.len() > 100,
        issue(n, 101, "Line too long (>100 characters)"@, LintSeverity::Warning, "long-line"@),
    ) + opt(
        starts_with(l, " "@) && has_char(l, '\t'),
        issue(n, 1, "Mixed indentation (tabs and spaces)"@, LintSeverity::Warning, "mixed-indentation"@),
    )
}

pub open spec fn unwrap_issue(n: int, start: int) -> IssueView {
    issue(
        n,
        succ(start),
        "Avoid using .unwrap(), consider using .expect() with a descriptive message or proper error handling"@,
        LintSeverity::Warning,
        "avoid-unwrap"@,
    )
}

/// Rules for Rust, on line `l` numbered `n` of `content`.
pub open spec fn rust_issues(content: Seq<char>, l: Seq<char>, n: int) -> Seq<IssueView> {
    let unwraps = regex_match_starts(UNWRAP_CALL@, l).map_values(|s: int| unwrap_issue(n, s));
    let semicolon = opt(
        regex_first_match(RUST_STATEMENT@, l) is Some && !ends_with_char(trim(l), '{') && !ends_with_char(trim(l), ','),
        issue(n, succ(l.len() as int), "Missing semicolon"@, LintSeverity::Error, "missing-semicolon"@),
    );
    let unused = match regex_group(RUST_BINDING@, l, 1) {
        Some(g) => opt(
            !starts_with(g.1, "_"@) && !contains_seq(content, g.1),
            issue(
                n,
                succ(g.0),
                "Variable '"@ + g.1 + "' may be unused. Consider prefixing with '_' if intentional"@,
                LintSeverity::Info,
                "unused-variable"@,
            ),
        ),
        None => Seq::empty(),
    };
    let panics = match regex_first_match(PANIC_CALL@, l) {
        Some(m) => seq![
            issue(
                n,
                succ(m.0),
                "Consider using Result<T, E> or expect() instead of panic!()"@,
                LintSeverity::Warning,
                "avoid-panic"@,
            ),
        ],
        None => Seq::empty(),
    };
    unwraps + semicolon + unused + panics
}

/// An issue at the first match of `pattern` in `l`, if there is one.
pub open spec fn at_first_match(
    pattern: Seq<char>,
    l: Seq<char>,
    n: int,
    message: Seq<char>,
    severity: LintSeverity,
    rule: Seq<char>,
) -> Seq<IssueView> {
    match regex_first_match(pattern, l) {
        Some(m) => seq![issue(n, succ(m.0), message, severity, rule)],
        None => Seq::empty(),
    }
}

/// The text of `content` from character `from` on.
pub open spec fn rest_from(content: Seq<char>, from: int) -> Seq<char> {
    content.subrange(if from < content.len() { from } else { content.len() as int }, content.len() as int)
}

/// JavaScript rules on single constructs of line `l` numbered `n`.
#[verifier::opaque]
pub open spec fn javascript_construct_issues(l: Seq<char>, n: int) -> Seq<IssueView> {
    at_first_match(
        CONSOLE_LOG@,
        l,
        n,
        "Avoid console.log in production code (biome-style: no-console-log)"@,
        LintSeverity::Warning,
        "biome/no-console-log"@,
    ) + (if contains_seq(l, "==="@) {
        Seq::empty()
    } else {
        at_first_match(
            LOOSE_EQUALITY@,
            l,
            n,
            "Use '===' instead of '==' for strict equality (biome-style: use-strict-equality)"@,
            LintSeverity::Error,
            "biome/use-strict-equality"@,
        )
    }) + at_first_match(
        VAR_DECLARATION@,
        l,
        n,
        "Use 'let' or 'const' instead of 'var' (biome-style: no-var)"@,
        LintSeverity::Error,
        "biome/no-var"@,
    ) + at_first_match(
        DEBUGGER@,
        l,
        n,
        "Remove debugger statements (biome-style: no-debugger)"@,
        LintSeverity::Error,
        "biome/no-debugger"@,
    )
}

/// The JavaScript rule on bindings that the rest of `content` never names.
#[verifier::opaque]
pub open spec fn javascript_binding_issues(content: Seq<char>, l: Seq<char>, idx: int) -> Seq<IssueView> {
    match regex_group(JS_BINDING@, l, 2) {
        Some(g) => opt(
            !starts_with(g.1, "_"@) && !contains_seq(rest_from(content, idx), g.1),
            issue(
                idx + 1,
                succ(g.0),
                "Variable '"@ + g.1 + "' is declared but never used (biome-style: no-unused-variables)"@,
                LintSeverity::Warning,
                "biome/no-unused-variables"@,
            ),
        ),
        None => Seq::empty(),
    }
}

/// JavaScript rules on the style of line `l` numbered `n`.
#[verifier::opaque]
pub open spec fn javascript_style_issues(l: Seq<char>, n: int) -> Seq<IssueView> {
    let t = trim(l);
    at_first_match(
        DOUBLE_NEGATION@,
        l,
        n,
        "Use Boolean() instead of double negation (!!) (biome-style: no-double-negation)"@,
        LintSeverity::Info,
        "biome/no-double-negation"@,
    ) + at_first_match(
        EMPTY_BLOCK@,
        l,
        n,
        "Empty block statement (biome-style: no-empty-block)"@,
        LintSeverity::Warning,
        "biome/no-empty-block"@,
    ) + opt(
        regex_first_match(FUNCTION_SPACING@, l) is Some && !contains_seq(l, "function ()"@),
        issue(
            n,
            1,
            "Consider proper spacing around function declarations (biome-style: formatting)"@,
            LintSeverity::Info,
            "biome/function-spacing"@,
        ),
    ) + opt(
        regex_first_match(JS_STATEMENT@, l) is Some && !ends_with_char(t, ',') && !starts_with(t, "//"@)
            && !starts_with(t, "/*"@),
        issue(
            n,
            succ(l.len() as int),
            "Missing semicolon (biome-style: use-semicolons)"@,
            LintSeverity::Warning,
            "biome/use-semicolons"@,
        ),
    )
}

/// Rules for JavaScript and TypeScript, on line `l` with index `idx` of `content`.
pub open spec fn javascript_issues(content: Seq<char>, l: Seq<char>, idx: int) -> Seq<IssueView> {
    javascript_construct_issues(l, idx + 1) + javascript_binding_issues(content, l, idx) + javascript_style_issues(l, idx + 1)
}

/// Rules for Python, on line `l` numbered `n`.
pub open spec fn python_issues(l: Seq<char>, n: int) -> Seq<IssueView> {
    let leading = l.len() - trim_start(l).len();
    opt(
        l.len() > 79,
        issue(n, 80, "Line too long (PEP 8 recommends ≤79 characters)"@, LintSeverity::Info, "pep8-line-length"@),
    ) + opt(
        starts_with(l, " "@) && !starts_with(l, "    "@) && leading % 4 != 0 && leading > 0,
        issue(n, 1, "PEP 8: Use 4 spaces per indentation level"@, LintSeverity::Warning, "pep8-indentation"@),
    ) + match regex_first_match(COMMA_SPACING@, l) {
        Some(m) => seq![
            issue(n, succ(succ(m.0)), "PEP 8: Missing whitespace after ','"@, LintSeverity::Info, "pep8-comma-spacing"@),
        ],
        None => Seq::empty(),
    } + at_first_match(
        PRINT_CALL@,
        l,
        n,
        "Consider using logging instead of print for production code"@,
        LintSeverity::Hint,
        "prefer-logging"@,
    )
}

/// The style rule for JSON that parses, on line `l` numbered `n`.
pub open spec fn json_style_issues(l: Seq<char>, n: int) -> Seq<IssueView> {
    opt(
        ends_with_char(trim(l), ',') && (has_char(l, '}') || has_char(l, ']')),
        issue(
            n,
            succ(
                match rfind_char(l, ',') {
                    Some(i) => i,
                    None => 0,
                },
            ),
            "Trailing comma not allowed in JSON"@,
            LintSeverity::Error,
            "no-trailing-comma"@,
        ),
    )
}

/// The sets of rules applied line by line.
#[derive(Debug, Clone, Copy, PartialEq, Eq, Structural)]
pub enum RuleSet {
    Universal,
    Rust,
    JavaScript,
    Python,
    JsonStyle,
}

pub open spec fn line_issues(rules: RuleSet, content: Seq<char>, l: Seq<char>, idx: int) -> Seq<IssueView> {
    match rules {
        RuleSet::Universal => universal_issues(l, idx + 1),
        RuleSet::Rust => rust_issues(content, l, idx + 1),
        RuleSet::JavaScript => javascript_issues(content, l, idx),
        RuleSet::Python => python_issues(l, idx + 1),
        RuleSet::JsonStyle => json_style_issues(l, idx + 1),
    }
}

/// The issues of rule set `rules` on the first `k` lines, line by line.
pub open spec fn per_line(rules: RuleSet, content: Seq<char>, lines: Seq<Seq<char>>, k: int) -> Seq<IssueView>
    decreases k,
{
    if k <= 0 {
        Seq::empty()
    } else {
        per_line(rules, content, lines, k - 1) + line_issues(rules, content, lines[k - 1], k - 1)
    }
}

/// The issues for JSON: the syntax error if the text does not parse, else
/// the style rule on each line.
pub open spec fn json_issues(content: Seq<char>) -> Seq<IssueView> {
    match json_error(content) {
        Some(e) => seq![
            issue(if e.0 > 0 { e.0 } else { 1 }, 1, "JSON syntax error: "@ + e.1, LintSeverity::Error, "json-syntax"@),
        ],
        None => per_line(RuleSet::JsonStyle, content, text_lines(content), text_lines(content).len() as int),
    }
}

/// All issues of `content` for a file named `filename`: the rules for every
/// file first, then those of the file's language; nothing when disabled.
pub open spec fn lint_spec(enabled: bool, content: Seq<char>, filename: Option<Seq<char>>) -> Seq<IssueView> {
    let ls = text_lines(content);
    let k = ls.len() as int;
    if !enabled {
        Seq::empty()
    } else {
        per_line(RuleSet::Universal, content, ls, k) + match filename {
            Some(f) => if ends_with(f, ".rs"@) {
                per_line(RuleSet::Rust, content, ls, k)
            } else if ends_with(f, ".js"@) || ends_with(f, ".ts"@) {
                per_line(RuleSet::JavaScript, content, ls, k)
            } else if ends_with(f, ".py"@) {
                per_line(RuleSet::Python, content, ls, k)
            } else if ends_with(f, ".json"@) {
                json_issues(content)
            } else {
                Seq::empty()
            },
            None => Seq::empty(),
        }
    }
}

fn sat_succ(x: usize) -> (r: usize)
    ensures
        r == succ(x as int),
{
    if x < usize::MAX { x + 1 } else { usize::MAX }
}

fn push_issue(out: &mut Vec<LintIssue>, line: usize, column: usize, message: String, severity: LintSeverity, rule: &str)
    ensures
        views(final(out)@) == views(old(out)@).push(issue(line as int, column as int, message@, severity, rule@)),
{
    out.push(LintIssue { line, column, message, severity, rule_name: String::from_str(rule) });
    assert(views(out@) =~= views(old(out)@).push(issue(line as int, column as int, message@, severity, rule@)));
}

/// Appends an issue at the first match of `pattern` in `line`, if any.
fn push_at_first_match(
    out: &mut Vec<LintIssue>,
    pattern: &str,
    line: &str,
    n: usize,
    message: &str,
    severity: LintSeverity,
    rule: &str,
)
    ensures
        views(final(out)@) == views(old(out)@) + at_first_match(pattern@, line@, n as int, message@, severity, rule@),
{
    match first_match(pattern, line) {
        Some(m) => {
            push_issue(out, n, sat_succ(m.0), String::from_str(message), severity, rule);
        },
        None => {
            assert(views(out@) =~= views(old(out)@) + Seq::<IssueView>::empty());
        },
    }
}

fn universal_line(line: &str, n: usize, out: &mut Vec<LintIssue>)
    ensures
        views(final(out)@) == views(old(out)@) + universal_issues(line@, n as int),
{
    let ghost start = views(out@);
    let ghost l = line@;
    if str_ends_with_char(line, ' ') || str_ends_with_char(line, '\t') {
        let col = sat_succ(trim_end_len(line));
        push_issue(out, n, col, String::from_str("Trailing whitespace"), LintSeverity::Info, "trailing-whitespace");
    }
    let ghost a = views(out@);
    if line.unicode_len() > 100 {
        push_issue(out, n, 101, String::from_str("Line too long (>100 characters)"), LintSeverity::Warning, "long-line");
    }
    let ghost b = views(out@);
    if str_starts_with(line, " ") && str_contains_char(line, '\t') {
        push_issue(out, n, 1, String::from_str("Mixed indentation (tabs and spaces)"), LintSeverity::Warning, "mixed-indentation");
    }
    let ghost u1 = opt(
        ends_with_char(l, ' ') || ends_with_char(l, '\t'),
        issue(n as int, succ(trim_end(l).len() as int), "Trailing whitespace"@, LintSeverity::Info, "trailing-whitespace"@),
    );
    let ghost u2 = opt(l.len() > 100, issue(n as int, 101, "Line too long (>100 characters)"@, LintSeverity::Warning, "long-line"@));
    let ghost u3 = opt(
        starts_with(l, " "@) && has_char(l, '\t'),
        issue(n as int, 1, "Mixed indentation (tabs and spaces)"@, LintSeverity::Warning, "mixed-indentation"@),
    );
    assert(a =~= start + u1);
    assert(b =~= a + u2);
    assert(views(out@) =~= b + u3);
    assert(views(out@) =~= start + (u1 + u2 + u3));
}

fn rust_line(content: &str, line: &str, n: usize, out: &mut Vec<LintIssue>)
    ensures
        views(final(out)@) == views(old(out)@) + rust_issues(content@, line@, n as int),
{
    let ghost start = views(out@);
    let ghost l = line@;
    let starts = match_starts(UNWRAP_CALL, line);
    let ghost all = regex_match_starts(UNWRAP_CALL@, l);
    let mut k: usize = 0;
    while k < starts.len()
        invariant
            k <= starts@.len(),
            starts@.map_values(|i: usize| i as int) == all,
            views(out@) =~= start + all.subrange(0, k as int).map_values(|s: int| unwrap_issue(n as int, s)),
        decreases starts@.len() - k,
    {
        let ghost before = views(out@);
        push_issue(
            out,
            n,
            sat_succ(starts[k]),
            String::from_str(
                "Avoid using .unwrap(), consider using .expect() with a descriptive message or proper error handling",
            ),
            LintSeverity::Warning,
            "avoid-unwrap",
        );
        assert(all[k as int] == starts@[k as int] as int);
        assert(all.subrange(0, k + 1).map_values(|s: int| unwrap_issue(n as int, s)) =~= all.subrange(0, k as int).map_values(
            |s: int| unwrap_issue(n as int, s),
        ).push(unwrap_issue(n as int, all[k as int])));
        k = k + 1;
    }
    assert(all.subrange(0, k as int) =~= all);
    let ghost a = views(out@);

    if first_match(RUST_STATEMENT, line).is_some() {
        let t = trimmed(line);
        if !str_ends_with_char(t.as_str(), '{') && !str_ends_with_char(t.as_str(), ',') {
            let col = sat_succ(line.unicode_len());
            push_issue(out, n, col, String::from_str("Missing semicolon"), LintSeverity::Error, "missing-semicolon");
        }
    }
    let ghost b = views(out@);

    match capture_group(RUST_BINDING, line, 1) {
        Some(g) => {
            if !str_starts_with(g.1.as_str(), "_") && !str_contains(content, g.1.as_str()) {
                let mut message = String::from_str("Variable '");
                message.append(g.1.as_str());
                message.append("' may be unused. Consider prefixing with '_' if intentional");
                push_issue(out, n, sat_succ(g.0), message, LintSeverity::Info, "unused-variable");
            }
        },
        None => {},
    }
    let ghost c = views(out@);

    push_at_first_match(
        out,
        PANIC_CALL,
        line,
        n,
        "Consider using Result<T, E> or expect() instead of panic!()",
        LintSeverity::Warning,
        "avoid-panic",
    );
    let ghost r = rust_issues(content@, l, n as int);
    assert(a =~= start + all.map_values(|s: int| unwrap_issue(n as int, s)));
    assert(views(out@) =~= start + r);
}

fn javascript_construct_line(line: &str, n: usize, out: &mut Vec<LintIssue>)
    ensures
        views(final(out)@) == views(old(out)@) + javascript_construct_issues(line@, n as int),
{
    reveal(javascript_construct_issues);
    let ghost start = views(out@);
    push_at_first_match(
        out,
        CONSOLE_LOG,
        line,
        n,
        "Avoid console.log in production code (biome-style: no-console-log)",
        LintSeverity::Warning,
        "biome/no-console-log",
    );
    let ghost a = views(out@);
    if !str_contains(line, "===") {
        push_at_first_match(
            out,
            LOOSE_EQUALITY,
            line,
            n,
            "Use '===' instead of '==' for strict equality (biome-style: use-strict-equality)",
            LintSeverity::Error,
            "biome/use-strict-equality",
        );
    } else {
        assert(views(out@) =~= a + Seq::<IssueView>::empty());
    }
    push_at_first_match(
        out,
        VAR_DECLARATION,
        line,
        n,
        "Use 'let' or 'const' instead of 'var' (biome-style: no-var)",
        LintSeverity::Error,
        "biome/no-var",
    );
    push_at_first_match(
        out,
        DEBUGGER,
        line,
        n,
        "Remove debugger statements (biome-style: no-debugger)",
        LintSeverity::Error,
        "biome/no-debugger",
    );
    assert(views(out@) =~= start + javascript_construct_issues(line@, n as int));
}

fn javascript_binding_line(content: &str, line: &str, idx: usize, out: &mut Vec<LintIssue>)
    requires
        idx < usize::MAX,
    ensures
        views(final(out)@) == views(old(out)@) + javascript_binding_issues(content@, line@, idx as int),
{
    reveal(javascript_binding_issues);
    let ghost start = views(out@);
    match capture_group(JS_BINDING, line, 2) {
        Some(g) => {
            let clen = content.unicode_len();
            let from = if idx < clen { idx } else { clen };
            let rest = substring(content, from, clen);
            if !str_starts_with(g.1.as_str(), "_") && !str_contains(rest.as_str(), g.1.as_str()) {
                let mut message = String::from_str("Variable '");
                message.append(g.1.as_str());
                message.append("' is declared but never used (biome-style: no-unused-variables)");
                push_issue(out, idx + 1, sat_succ(g.0), message, LintSeverity::Warning, "biome/no-unused-variables");
            }
        },
        None => {},
    }
    assert(views(out@) =~= start + javascript_binding_issues(content@, line@, idx as int));
}

fn javascript_style_line(line: &str, n: usize, out: &mut Vec<LintIssue>)
    ensures
        views(final(out)@) == views(old(out)@) + javascript_style_issues(line@, n as int),
{
    reveal(javascript_style_issues);
    let ghost start = views(out@);
    let t = trimmed(line);
    push_at_first_match(
        out,
        DOUBLE_NEGATION,
        line,
        n,
        "Use Boolean() instead of double negation (!!) (biome-style: no-double-negation)",
        LintSeverity::Info,
        "biome/no-double-negation",
    );
    push_at_first_match(
        out,
        EMPTY_BLOCK,
        line,
        n,
        "Empty block statement (biome-style: no-empty-block)",
        LintSeverity::Warning,
        "biome/no-empty-block",
    );
    let ghost e = views(out@);
    if first_match(FUNCTION_SPACING, line).is_some() && !str_contains(line, "function ()") {
        push_issue(
            out,
            n,
            1,
            String::from_str("Consider proper spacing around function declarations (biome-style: formatting)"),
            LintSeverity::Info,
            "biome/function-spacing",
        );
    }
    let ghost f = views(out@);
    if first_match(JS_STATEMENT, line).is_some() && !str_ends_with_char(t.as_str(), ',') && !str_starts_with(t.as_str(), "//")
        && !str_starts_with(t.as_str(), "/*") {
        let col = sat_succ(line.unicode_len());
        push_issue(
            out,
            n,
            col,
            String::from_str("Missing semicolon (biome-style: use-semicolons)"),
            LintSeverity::Warning,
            "biome/use-semicolons",
        );
    }
    assert(views(out@) =~= start + javascript_style_issues(line@, n as int));
}

fn javascript_line(content: &str, line: &str, idx: usize, out: &mut Vec<LintIssue>)
    requires
        idx < usize::MAX,
    ensures
        views(final(out)@) == views(old(out)@) + javascript_issues(content@, line@, idx as int),
{
    let ghost start = views(out@);
    javascript_construct_line(line, idx + 1, out);
    javascript_binding_line(content, line, idx, out);
    javascript_style_line(line, idx + 1, out);
    assert(views(out@) =~= start + javascript_issues(content@, line@, idx as int));
}

fn python_line(line: &str, n: usize, out: &mut Vec<LintIssue>)
    ensures
        views(final(out)@) == views(old(out)@) + python_issues(line@, n as int),
{
    let ghost start = views(out@);
    let ghost l = line@;
    let len = line.unicode_len();
    if len > 79 {
        push_issue(
            out,
            n,
            80,
            String::from_str("Line too long (PEP 8 recommends ≤79 characters)"),
            LintSeverity::Info,
            "pep8-line-length",
        );
    }
    let ghost a = views(out@);
    if str_starts_with(line, " ") && !str_starts_with(line, "    ") {
        let leading = leading_whitespace_len(line);
        if leading % 4 != 0 && leading > 0 {
            push_issue(
                out,
                n,
                1,
                String::from_str("PEP 8: Use 4 spaces per indentation level"),
                LintSeverity::Warning,
                "pep8-indentation",
            );
        }
    }
    let ghost b = views(out@);
    match first_match(COMMA_SPACING, line) {
        Some(m) => {
            push_issue(
                out,
                n,
                sat_succ(sat_succ(m.0)),
                String::from_str("PEP 8: Missing whitespace after ','"),
                LintSeverity::Info,
                "pep8-comma-spacing",
            );
        },
        None => {},
    }
    let ghost c = views(out@);
    push_at_first_match(
        out,
        PRINT_CALL,
        line,
        n,
        "Consider using logging instead of print for production code",
        LintSeverity::Hint,
        "prefer-logging",
    );
    assert(views(out@) =~= start + python_issues(l, n as int));
}

fn json_style_line(line: &str, n: usize, out: &mut Vec<LintIssue>)
    ensures
        views(final(out)@) == views(old(out)@) + json_style_issues(line@, n as int),
{
    let ghost start = views(out@);
    let t = trimmed(line);
    if str_ends_with_char(t.as_str(), ',') && (str_contains_char(line, '}') || str_contains_char(line, ']')) {
        let at = match str_rfind_char(line, ',') {
            Some(i) => i,
            None => 0,
        };
        push_issue(
            out,
            n,
            sat_succ(at),
            String::from_str("Trailing comma not allowed in JSON"),
            LintSeverity::Error,
            "no-trailing-comma",
        );
    }
    assert(views(out@) =~= start + json_style_issues(line@, n as int));
}

/// Applies rule set `rules` to each line, in order.
fn lint_lines(rules: RuleSet, content: &str, lines: &Vec<String>, out: &mut Vec<LintIssue>)
    ensures
        views(final(out)@) == views(old(out)@) + per_line(rules, content@, doc(lines@), lines@.len() as int),
{
    let ghost start = views(out@);
    let mut i: usize = 0;
    while i < lines.len()
        invariant
            i <= lines@.len(),
            views(out@) == start + per_line(rules, content@, doc(lines@), i as int),
        decreases lines@.len() - i,
    {
        let line = lines[i].as_str();
        let ghost before = views(out@);
        match rules {
            RuleSet::Universal => universal_line(line, i + 1, out),
            RuleSet::Rust => rust_line(content, line, i + 1, out),
            RuleSet::JavaScript => javascript_line(content, line, i, out),
            RuleSet::Python => python_line(line, i + 1, out),
            RuleSet::JsonStyle => json_style_line(line, i + 1, out),
        }
        assert(doc(lines@)[i as int] == lines@[i as int]@);
        assert(views(out@) =~= start + per_line(rules, content@, doc(lines@), i + 1));
        i = i + 1;
    }
}

/// Produces diagnostics for a buffer; may be switched off.
pub struct Linter {
    pub enabled: bool,
}

impl Linter {
    /// A linter that is on.
    pub fn new() -> (r: Self)
        ensures
            r.enabled,
    {
        Linter { enabled: true }
    }

    pub fn is_enabled(&self) -> (r: bool)
        ensures
            r == self.enabled,
    {
        self.enabled
    }

    /// Switches the linter on or off.
    pub fn toggle(&mut self)
        ensures
            final(self).enabled == !old(self).enabled,
    {
        self.enabled = !self.enabled;
    }

    /// The issues of `content` for a file named `filename`: the rules for
    /// every file, then those of the language that the name's ending gives.
    pub fn lint(&mut self, content: &str, filename: Option<&str>) -> (r: Vec<LintIssue>)
        ensures
            final(self).enabled == old(self).enabled,
            views(r@) == lint_spec(
                old(self).enabled,
                content@,
                match filename {
                    Some(f) => Some(f@),
                    None => None,
                },
            ),
    {
        let mut issues: Vec<LintIssue> = Vec::new();
        if !self.enabled {
            assert(views(issues@) =~= Seq::<IssueView>::empty());
            return issues;
        }
        let lines = split_lines(content);
        assert(views(issues@) =~= Seq::<IssueView>::empty());
        lint_lines(RuleSet::Universal, content, &lines, &mut issues);
        let ghost universal = views(issues@);
        match filename {
            Some(f) => {
                if str_ends_with(f, ".rs") {
                    lint_lines(RuleSet::Rust, content, &lines, &mut issues);
                } else if str_ends_with(f, ".js") || str_ends_with(f, ".ts") {
                    lint_lines(RuleSet::JavaScript, content, &lines, &mut issues);
                } else if str_ends_with(f, ".py") {
                    lint_lines(RuleSet::Python, content, &lines, &mut issues);
                } else if str_ends_with(f, ".json") {
                    self.lint_json(content, &lines, &mut issues);
                } else {
                    assert(views(issues@) =~= universal + Seq::<IssueView>::empty());
                }
            },
            None => {
                assert(views(issues@) =~= universal + Seq::<IssueView>::empty());
            },
        }
        issues
    }

    fn lint_json(&self, content: &str, lines: &Vec<String>, out: &mut Vec<LintIssue>)
        requires
            doc(lines@) == text_lines(content@),
        ensures
            views(final(out)@) == views(old(out)@) + json_issues(content@),
    {
        match json_syntax_error(content) {
            Some(e) => {
                let line = if e.0 > 0 { e.0 } else { 1 };
                let mut message = String::from_str("JSON syntax error: ");
                message.append(e.1.as_str());
                push_issue(out, line, 1, message, LintSeverity::Error, "json-syntax");
                assert(views(out@) =~= views(old(out)@) + json_issues(content@));
            },
            None => {
                lint_lines(RuleSet::JsonStyle, content, lines, out);
            },
        }
    }

    /// The number of errors, warnings, infos and hints among `issues`.
    pub fn get_issue_counts(&self, issues: &[LintIssue]) -> (r: (usize, usize, usize, usize))
        ensures
            r.0 == count_of(issues@, LintSeverity::Error),
            r.1 == count_of(issues@, LintSeverity::Warning),
            r.2 == count_of(issues@, LintSeverity::Info),
            r.3 == count_of(issues@, LintSeverity::Hint),
    {
        issue_counts(issues)
    }
}

} // verus!
