use vstd::prelude::*;

verus! {

/// How serious a diagnostic is.
#[derive(Debug, Clone, Copy, PartialEq, Eq, Structural)]
pub enum LintSeverity {
    Error,
    Warning,
    Info,
    Hint,
}

/// A diagnostic on a line (counted from 1) and column of a buffer.
#[derive(Debug, Clone)]
pub struct LintIssue {
    pub line: usize,
    pub column: usize,
    pub message: String,
    pub severity: LintSeverity,
    pub rule_name: String,
}

/// Severities ordered from the mildest (0) to the most serious (3).
pub open spec fn rank(s: LintSeverity) -> int {
    match s {
        LintSeverity::Error => 3,
        LintSeverity::Warning => 2,
        LintSeverity::Info => 1,
        LintSeverity::Hint => 0,
    }
}

/// The most serious severity among the issues on `line`, if there is any.
pub open spec fn worst_on_line(issues: Seq<LintIssue>, line: int) -> Option<LintSeverity>
    decreases issues.len(),
{
    if issues.len() == 0 {
        None
    } else {
        let before = worst_on_line(issues.drop_last(), line);
        let last = issues.last();
        if last.line == line && (before is None || rank(last.severity) > rank(before->0)) {
            Some(last.severity)
        } else {
            before
        }
    }
}

/// Number of issues of severity `s`.
pub open spec fn count_of(issues: Seq<LintIssue>, s: LintSeverity) -> nat
    decreases issues.len(),
{
    if issues.len() == 0 {
        0
    } else {
        count_of(issues.drop_last(), s) + if issues.last().severity == s { 1nat } else { 0nat }
    }
}

fn rank_of(s: LintSeverity) -> (r: u8)
    ensures
        r == rank(s),
{
    match s {
        LintSeverity::Error => 3,
        LintSeverity::Warning => 2,
        LintSeverity::Info => 1,
        LintSeverity::Hint => 0,
    }
}

/// The most serious severity among the issues on `line` (counted from 1).
pub fn worst_severity_on_line(issues: &[LintIssue], line: usize) -> (r: Option<LintSeverity>)
    ensures
        r == worst_on_line(issues@, line as int),
{
    let mut worst: Option<LintSeverity> = None;
    let mut i: usize = 0;
    while i < issues.len()
        invariant
            i <= issues@.len(),
            worst == worst_on_line(issues@.subrange(0, i as int), line as int),
        decreases issues@.len() - i,
    {
        assert(issues@.subrange(0, i + 1).drop_last() =~= issues@.subrange(0, i as int));
        let issue = &issues[i];
        if issue.line == line {
            let worse = match worst {
                None => true,
                Some(w) => rank_of(issue.severity) > rank_of(w),
            };
            if worse {
                worst = Some(issue.severity);
            }
        }
        i = i + 1;
    }
    assert(issues@.subrange(0, i as int) =~= issues@);
    worst
}

/// The number of errors, warnings, infos and hints among `issues`.
pub fn issue_counts(issues: &[LintIssue]) -> (r: (usize, usize, usize, usize))
    ensures
        r.0 == count_of(issues@, LintSeverity::Error),
        r.1 == count_of(issues@, LintSeverity::Warning),
        r.2 == count_of(issues@, LintSeverity::Info),
        r.3 == count_of(issues@, LintSeverity::Hint),
{
    let mut errors: usize = 0;
    let mut warnings: usize = 0;
    let mut infos: usize = 0;
    let mut hints: usize = 0;
    let mut i: usize = 0;
    while i < issues.len()
        invariant
            i <= issues@.len(),
            errors == count_of(issues@.subrange(0, i as int), LintSeverity::Error),
            warnings == count_of(issues@.subrange(0, i as int), LintSeverity::Warning),
            infos == count_of(issues@.subrange(0, i as int), LintSeverity::Info),
            hints == count_of(issues@.subrange(0, i as int), LintSeverity::Hint),
            errors + warnings + infos + hints == i,
        decreases issues@.len() - i,
    {
        assert(issues@.subrange(0, i + 1).drop_last() =~= issues@.subrange(0, i as int));
        match issues[i].severity {
            LintSeverity::Error => errors = errors + 1,
            LintSeverity::Warning => warnings = warnings + 1,
            LintSeverity::Info => infos = infos + 1,
            LintSeverity::Hint => hints = hints + 1,
        }
        i = i + 1;
    }
    assert(issues@.subrange(0, i as int) =~= issues@);
    (errors, warnings, infos, hints)
}

} // verus!
