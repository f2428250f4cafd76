//! Decisions of the recognition pipeline: which prompts go to the model,
//! what stands in for a failed stage, and how a structured verification
//! becomes a confidence score and a report.

use vstd::prelude::*;
use vstd::string::StringExecFns;
use crate::data_models::{Analysis, Config, Verification, VerificationIssue, VerificationResult};
use crate::prompts::{
    PromptManager, PromptType, constraint_text, format_rule_for_latex, format_rule_text,
    full_prompt_text, get_analysis_prompt, language_of,
};
use crate::text::{
    concat2, concat3, decimal, is_blank, is_blank_exec, join, join_exec, owned, push_decimal, str_eq,
};

verus! {

broadcast use vstd::string::group_string_axioms;

/// Title used when the analysis stage failed.
pub open spec fn default_title_text(language: Seq<char>) -> Seq<char> {
    if language == "zh-CN"@ {
        "未命名公式"@
    } else {
        "Untitled formula"@
    }
}

/// Summary used when the analysis stage failed.
pub open spec fn default_summary_text(language: Seq<char>) -> Seq<char> {
    if language == "zh-CN"@ {
        "分析暂不可用，请稍后重试。"@
    } else {
        "Analysis is temporarily unavailable. Please try again."@
    }
}

/// The title used when the analysis stage failed.
pub fn default_title_for_lang(language: &str) -> (r: String)
    ensures
        r@ == default_title_text(language@),
{
    if str_eq(language, "zh-CN") {
        owned("未命名公式")
    } else {
        owned("Untitled formula")
    }
}

/// The summary used when the analysis stage failed.
pub fn default_summary_for_lang(language: &str) -> (r: String)
    ensures
        r@ == default_summary_text(language@),
{
    if str_eq(language, "zh-CN") {
        owned("分析暂不可用，请稍后重试。")
    } else {
        owned("Analysis is temporarily unavailable. Please try again.")
    }
}

/// The title and analysis a recognition keeps: the analysis stage's result,
/// or the default title with the default summary and nothing else when that
/// stage failed.
pub fn analysis_or_default(outcome: Option<(String, Analysis)>, language: &str) -> (r: (
    String,
    Analysis,
))
    ensures
        match outcome {
            Some(v) => r == v,
            None => r.0@ == default_title_text(language@) && r.1.summary@ == default_summary_text(
                language@,
            ) && r.1.variables@.len() == 0 && r.1.terms@.len() == 0 && r.1.suggestions@.len()
                == 0,
        },
{
    match outcome {
        Some(v) => v,
        None => (
            default_title_for_lang(language),
            Analysis {
                summary: default_summary_for_lang(language),
                variables: Vec::new(),
                terms: Vec::new(),
                suggestions: Vec::new(),
            },
        ),
    }
}

/// The verification result a recognition keeps: the stage's result, or
/// score 0 with the report "验证失败" when that stage failed.
pub fn verification_or_failed(outcome: Option<VerificationResult>) -> (r: VerificationResult)
    ensures
        match outcome {
            Some(v) => r == v,
            None => r.confidence_score == 0 && r.verification_report@ == "验证失败"@,
        },
{
    match outcome {
        Some(v) => v,
        None => VerificationResult { confidence_score: 0, verification_report: owned("验证失败") },
    }
}

/// Which prompts a recognition uses: `full` when a LaTeX prompt is set,
/// else `custom` when a custom prompt is set, else `default`.
pub open spec fn prompt_version_text(c: Config) -> Seq<char> {
    if c.latex_prompt@.len() != 0 {
        "full"@
    } else if c.custom_prompt@.len() != 0 {
        "custom"@
    } else {
        "default"@
    }
}

/// Names the kind of prompts a recognition uses.
pub fn determine_prompt_version(config: &Config) -> (r: String)
    ensures
        r@ == prompt_version_text(*config),
{
    if !config.latex_prompt.as_str().is_empty() {
        return owned("full");
    }
    if !config.custom_prompt.as_str().is_empty() {
        return owned("custom");
    }
    owned("default")
}

// ---------------------------------------------------------------------------
// Score and report of a structured verification
// ---------------------------------------------------------------------------

/// Confidence estimated from the status and the number of issues when the
/// verification gave no coverage: 100 for `ok`; for `warning`, 80 less two
/// per issue (at most 20); otherwise 60 less five per issue (at most 50).
/// The count is the issue count taken as a `u32`.
pub open spec fn heuristic_confidence(status: Seq<char>, n: u32) -> int {
    if status == "ok"@ {
        100
    } else if status == "warning"@ {
        80 - if n * 2 <= 20 { n * 2 } else { 20 }
    } else {
        60 - if n * 5 <= 50 { n * 5 } else { 50 }
    }
}

/// The status-based confidence of a verification without coverage.
pub fn confidence_without_coverage(status: &str, issues_len: u32) -> (r: u8)
    requires
        status@ == "warning"@ ==> issues_len * 2 <= u32::MAX,
        status@ != "ok"@ && status@ != "warning"@ ==> issues_len * 5 <= u32::MAX,
    ensures
        r == heuristic_confidence(status@, issues_len),
{
    if str_eq(status, "ok") {
        100
    } else if str_eq(status, "warning") {
        let penalty: u32 = if issues_len * 2 <= 20 { issues_len * 2 } else { 20 };
        80 - (penalty as u8)
    } else {
        let penalty: u32 = if issues_len * 5 <= 50 { issues_len * 5 } else { 50 };
        60 - (penalty as u8)
    }
}

/// One report line for an issue: `- [category] message`.
pub open spec fn issue_line(i: VerificationIssue) -> Seq<char> {
    "- ["@ + i.category@ + "] "@ + i.message@
}

/// The note ending a report that lists only the first ten of `n` issues.
pub open spec fn omitted_note(n: nat) -> Seq<char> {
    "(其余 "@ + decimal((n - 10) as nat) + " 条问题已省略)"@
}

/// The listed lines of a report: the first ten issues, then the omission
/// note when there are more.
pub open spec fn report_lines(issues: Seq<VerificationIssue>) -> Seq<Seq<char>> {
    let shown = if issues.len() <= 10 { issues } else { issues.take(10) };
    let lines = shown.map_values(|i: VerificationIssue| issue_line(i));
    if issues.len() > 10 {
        lines.push(omitted_note(issues.len()))
    } else {
        lines
    }
}

/// Report of a match.
pub const REPORT_MATCH: &'static str = "LaTeX 完全匹配原始公式。";

/// Report of a layout-only difference with no listed issue.
pub const REPORT_LAYOUT_ONLY: &'static str = "存在版式/排版差异，但不影响数学含义。";

/// Report of a content difference with no listed issue.
pub const REPORT_MISMATCH: &'static str = "存在与原图不一致的内容，请检查符号、上下标与项是否匹配。";

/// Heading of a report listing issues.
pub const REPORT_HEADING: &'static str = "发现以下差异：\n";

/// The report of a structured verification.
pub open spec fn report_text(v: Verification) -> Seq<char> {
    if v.status@ == "ok"@ && v.issues@.len() == 0 {
        REPORT_MATCH@
    } else if v.issues@.len() == 0 {
        if v.status@ == "warning"@ {
            REPORT_LAYOUT_ONLY@
        } else {
            REPORT_MISMATCH@
        }
    } else {
        REPORT_HEADING@ + join(report_lines(v.issues@), "\n"@)
    }
}

/// The line of one issue.
fn issue_line_exec(issue: &VerificationIssue) -> (r: String)
    ensures
        r@ == issue_line(*issue),
{
    let mut r = concat3("- [", issue.category.as_str(), "] ");
    r.append(issue.message.as_str());
    r
}

/// Writes the report of a structured verification.
pub fn verification_report(verification: &Verification) -> (r: String)
    ensures
        r@ == report_text(*verification),
{
    let n = verification.issues.len();
    if str_eq(verification.status.as_str(), "ok") && n == 0 {
        return owned(REPORT_MATCH);
    }
    let shown = if n <= 10 { n } else { 10 };
    let mut lines: Vec<String> = Vec::new();
    let ghost issues = verification.issues@;
    let ghost shown_issues = if issues.len() <= 10 { issues } else { issues.take(10) };
    for i in 0..shown
        invariant
            n == issues.len(),
            issues == verification.issues@,
            shown == shown_issues.len(),
            shown_issues == if issues.len() <= 10 { issues } else { issues.take(10) },
            lines@.map_values(|l: String| l@) == shown_issues.take(i as int).map_values(
                |x: VerificationIssue| issue_line(x),
            ),
    {
        let ghost prev = lines@;
        let line = issue_line_exec(&verification.issues[i]);
        assert(shown_issues[i as int] == issues[i as int]);
        lines.push(line);
        assert(lines@.map_values(|l: String| l@) =~= prev.map_values(|l: String| l@).push(
            issue_line(shown_issues[i as int]),
        ));
        assert(shown_issues.take(i + 1) =~= shown_issues.take(i as int).push(shown_issues[i as int]));
        assert(lines@.map_values(|l: String| l@) =~= shown_issues.take(i + 1).map_values(
            |x: VerificationIssue| issue_line(x),
        ));
    }
    assert(shown_issues.take(shown as int) =~= shown_issues);
    if n > 10 {
        let mut note = owned("(其余 ");
        push_decimal(&mut note, n - 10);
        note.append(" 条问题已省略)");
        let ghost before = lines@;
        lines.push(note);
        assert(lines@.map_values(|l: String| l@) =~= before.map_values(|l: String| l@).push(
            omitted_note(n as nat),
        ));
    }
    if lines.len() == 0 {
        if str_eq(verification.status.as_str(), "warning") {
            owned(REPORT_LAYOUT_ONLY)
        } else {
            owned(REPORT_MISMATCH)
        }
    } else {
        let body = join_exec(&lines, "\n");
        concat2(REPORT_HEADING, body.as_str())
    }
}

/// The inputs on which the status-based confidence stays within `u32`
/// arithmetic.
pub open spec fn issue_count_fits(v: Verification) -> bool {
    &&& v.status@ == "warning"@ ==> (v.issues@.len() as u32) * 2 <= u32::MAX
    &&& v.status@ != "ok"@ && v.status@ != "warning"@ ==> (v.issues@.len() as u32) * 5 <= u32::MAX
}

/// Confidence score and report of a structured verification. With coverage
/// the score is `coverage_confidence`, the weighted match rate of symbols and
/// terms computed by the caller; without it the score comes from the status
/// and the issue count.
pub fn compute_verification_result_from_struct(
    verification: &Verification,
    coverage_confidence: u8,
) -> (r: VerificationResult)
    requires
        verification.coverage is None ==> issue_count_fits(*verification),
    ensures
        r.confidence_score == match verification.coverage {
            Some(_) => coverage_confidence as int,
            None => heuristic_confidence(verification.status@, verification.issues@.len() as u32),
        },
        r.verification_report@ == report_text(*verification),
{
    let score: u8 = match &verification.coverage {
        Some(_) => coverage_confidence,
        None => confidence_without_coverage(
            verification.status.as_str(),
            verification.issues.len() as u32,
        ),
    };
    let report = verification_report(verification);
    VerificationResult { confidence_score: score, verification_report: report }
}

/// Result of a retried verification stage: the structured verification's
/// score and report together with the verification itself when it
/// succeeded, else the fallback confidence-and-report reply, else score 0
/// with "验证失败".
pub fn retry_verification_outcome(
    structured: Option<Verification>,
    coverage_confidence: u8,
    fallback: Option<VerificationResult>,
) -> (r: (VerificationResult, Option<Verification>))
    requires
        structured matches Some(v) ==> (v.coverage is None ==> issue_count_fits(v)),
    ensures
        match structured {
            Some(v) => r.1 == Some(v) && r.0.verification_report@ == report_text(v)
                && r.0.confidence_score == match v.coverage {
                Some(_) => coverage_confidence as int,
                None => heuristic_confidence(v.status@, v.issues@.len() as u32),
            },
            None => r.1 is None && match fallback {
                Some(f) => r.0 == f,
                None => r.0.confidence_score == 0 && r.0.verification_report@ == "验证失败"@,
            },
        },
{
    match structured {
        Some(v) => {
            let vr = compute_verification_result_from_struct(&v, coverage_confidence);
            (vr, Some(v))
        },
        None => (verification_or_failed(fallback), None),
    }
}

// ---------------------------------------------------------------------------
// Prompts of a recognition
// ---------------------------------------------------------------------------

/// The three prompts of a recognition.
#[derive(Debug, Clone)]
pub struct RecognitionPrompts {
    pub latex: String,
    pub analysis: String,
    pub verification: String,
}

/// Error given when the LaTeX prompt is blank.
pub const MISSING_LATEX_PROMPT: &'static str = "LaTeX 提示词未设置。请在设置中填写或点击‘恢复默认提示词’后重试。";

/// Error given when the analysis prompt is blank.
pub const MISSING_ANALYSIS_PROMPT: &'static str = "分析提示词未设置。请在设置中填写或点击‘恢复默认提示词’后重试。";

/// Error given when the verification prompt is blank.
pub const MISSING_VERIFICATION_PROMPT: &'static str = "核查提示词未设置。请在设置中填写或点击‘恢复默认提示词’后重试。";

/// The saved LaTeX prompt followed by the formatting rule of the configured
/// wrapper.
pub open spec fn latex_prompt_text(c: Config) -> Seq<char> {
    c.latex_prompt@ + format_rule_text(c.default_latex_format@)
}

/// The saved analysis prompt, a blank line, and the analysis language
/// constraint.
pub open spec fn analysis_prompt_text(c: Config) -> Seq<char> {
    c.analysis_prompt@ + "\n\n"@ + constraint_text(PromptType::Analysis, language_of(c.language@))
}

/// The saved verification prompt, a blank line, and the verification
/// language constraint.
pub open spec fn localized_verification_prompt_text(c: Config) -> Seq<char> {
    c.verification_prompt@ + "\n\n"@ + constraint_text(
        PromptType::Verification,
        language_of(c.language@),
    )
}

/// The prompts of a recognition from a screenshot, a file or the clipboard:
/// only the saved prompts are used, and a blank one is an error (checked in
/// the order LaTeX, analysis, verification). The verification prompt gets
/// its language constraint when `localize_verification` holds (the clipboard
/// path sends it as saved).
pub fn prepare_recognition_prompts(config: &Config, localize_verification: bool) -> (r: Result<
    RecognitionPrompts,
    String,
>)
    ensures
        is_blank(config.latex_prompt@) ==> (r matches Err(e) && e@ == MISSING_LATEX_PROMPT@),
        !is_blank(config.latex_prompt@) && is_blank(config.analysis_prompt@) ==> (r matches Err(e)
            && e@ == MISSING_ANALYSIS_PROMPT@),
        !is_blank(config.latex_prompt@) && !is_blank(config.analysis_prompt@) && is_blank(
            config.verification_prompt@,
        ) ==> (r matches Err(e) && e@ == MISSING_VERIFICATION_PROMPT@),
        !is_blank(config.latex_prompt@) && !is_blank(config.analysis_prompt@) && !is_blank(
            config.verification_prompt@,
        ) ==> (r matches Ok(p) && p.latex@ == latex_prompt_text(*config) && p.analysis@
            == analysis_prompt_text(*config) && p.verification@ == if localize_verification {
            localized_verification_prompt_text(*config)
        } else {
            config.verification_prompt@
        }),
{
    if is_blank_exec(config.latex_prompt.as_str()) {
        return Err(owned(MISSING_LATEX_PROMPT));
    }
    if is_blank_exec(config.analysis_prompt.as_str()) {
        return Err(owned(MISSING_ANALYSIS_PROMPT));
    }
    if is_blank_exec(config.verification_prompt.as_str()) {
        return Err(owned(MISSING_VERIFICATION_PROMPT));
    }
    let rule = format_rule_for_latex(config.default_latex_format.as_str());
    let latex = concat2(config.latex_prompt.as_str(), rule.as_str());
    let lang = PromptManager::get_language_constraint_for(
        PromptType::Analysis,
        config.language.as_str(),
    );
    let analysis = concat3(config.analysis_prompt.as_str(), "\n\n", lang.as_str());
    let verification = if localize_verification {
        let vlang = PromptManager::get_language_constraint_for(
            PromptType::Verification,
            config.language.as_str(),
        );
        concat3(config.verification_prompt.as_str(), "\n\n", vlang.as_str())
    } else {
        config.verification_prompt.clone()
    };
    Ok(RecognitionPrompts { latex, analysis, verification })
}

/// The prompts of a recognition from base64 image data: an empty LaTeX or
/// analysis prompt is replaced by the custom prompt instead of being an
/// error, and the verification prompt always gets its language constraint.
pub fn prepare_prompts_with_fallback(config: &Config) -> (r: RecognitionPrompts)
    ensures
        r.latex@ == if config.latex_prompt@.len() != 0 {
            latex_prompt_text(*config)
        } else {
            config.custom_prompt@
        },
        r.analysis@ == if config.analysis_prompt@.len() != 0 {
            analysis_prompt_text(*config)
        } else {
            config.custom_prompt@
        },
        r.verification@ == localized_verification_prompt_text(*config),
{
    let latex = if !config.latex_prompt.as_str().is_empty() {
        let rule = format_rule_for_latex(config.default_latex_format.as_str());
        concat2(config.latex_prompt.as_str(), rule.as_str())
    } else {
        config.custom_prompt.clone()
    };
    let analysis = if !config.analysis_prompt.as_str().is_empty() {
        let lang = PromptManager::get_language_constraint_for(
            PromptType::Analysis,
            config.language.as_str(),
        );
        concat3(config.analysis_prompt.as_str(), "\n\n", lang.as_str())
    } else {
        config.custom_prompt.clone()
    };
    let vlang = PromptManager::get_language_constraint_for(
        PromptType::Verification,
        config.language.as_str(),
    );
    let verification = concat3(config.verification_prompt.as_str(), "\n\n", vlang.as_str());
    RecognitionPrompts { latex, analysis, verification }
}

/// The analysis prompt of a retried analysis stage: the built-in analysis
/// prompt for the configured language when an analysis prompt is saved, the
/// custom prompt otherwise.
pub fn retry_analysis_prompt(config: &Config) -> (r: String)
    ensures
        r@ == if config.analysis_prompt@.len() != 0 {
            full_prompt_text(PromptType::Analysis, language_of(config.language@))
        } else {
            config.custom_prompt@
        },
{
    if !config.analysis_prompt.as_str().is_empty() {
        get_analysis_prompt(config.language.as_str())
    } else {
        config.custom_prompt.clone()
    }
}

} // verus!
