//! Data carried between the model, the configuration file and the history.

use vstd::prelude::*;
use crate::prompts::{
    PromptManager, PromptType, BASE_LATEX_PROMPT, BASE_ANALYSIS_PROMPT, BASE_VERIFICATION_PROMPT,
};
use crate::text::{is_blank, is_blank_exec, owned};
use crate::llm::LlmConfig;

verus! {

broadcast use vstd::string::group_string_axioms;

/// Version of the built-in prompts; configurations saved with an older
/// version get the current defaults.
pub const PROMPTS_VERSION_CURRENT: u32 = 3;

/// Default language tag.
pub fn default_language() -> (r: String)
    ensures
        r@ == "zh-CN"@,
{
    owned("zh-CN")
}

/// Default limit of output tokens.
pub fn default_max_output_tokens() -> (r: u32)
    ensures
        r == 240000,
{
    240000
}

/// Default window width.
pub fn default_window_width() -> (r: u32)
    ensures
        r == 1280,
{
    1280
}

/// Default window height.
pub fn default_window_height() -> (r: u32)
    ensures
        r == 800,
{
    800
}

/// Window state is remembered by default.
pub fn default_remember_window_state() -> (r: bool)
    ensures
        r,
{
    true
}

/// Default screenshot shortcut.
pub fn default_screenshot_shortcut() -> (r: String)
    ensures
        r@ == "CommandOrControl+Shift+A"@,
{
    owned("CommandOrControl+Shift+A")
}

/// The version of the built-in prompts.
pub fn current_prompts_version() -> (r: u32)
    ensures
        r == PROMPTS_VERSION_CURRENT,
{
    PROMPTS_VERSION_CURRENT
}

/// Prompts version assumed for a configuration that records none.
pub fn default_prompts_version() -> (r: u32)
    ensures
        r == 0,
{
    0
}

/// Default LaTeX prompt.
pub fn default_latex_prompt() -> (r: String)
    ensures
        r@ == BASE_LATEX_PROMPT@,
{
    PromptManager::get_base_prompt(PromptType::LaTeX)
}

/// Default analysis prompt.
pub fn default_analysis_prompt() -> (r: String)
    ensures
        r@ == BASE_ANALYSIS_PROMPT@,
{
    PromptManager::get_base_prompt(PromptType::Analysis)
}

/// Default verification prompt.
pub fn default_verification_prompt() -> (r: String)
    ensures
        r@ == BASE_VERIFICATION_PROMPT@,
{
    PromptManager::get_base_prompt(PromptType::Verification)
}

/// Application settings.
#[derive(Debug, Clone)]
pub struct Config {
    pub api_key: String,
    pub api_base_url: String,
    pub provider: String,
    pub default_engine: String,
    pub custom_prompt: String,
    /// Prompt for LaTeX-only extraction.
    pub latex_prompt: String,
    /// Prompt for the analysis (title, summary, variables, terms, suggestions).
    pub analysis_prompt: String,
    /// Prompt for the verification (image and LaTeX compared).
    pub verification_prompt: String,
    pub render_engine: String,
    pub auto_calculate_confidence: bool,
    pub enable_clipboard_watcher: bool,
    pub default_latex_format: String,
    pub request_timeout_seconds: u64,
    pub max_retries: u32,
    /// Upper limit of the model's output length.
    pub max_output_tokens: u32,
    pub language: String,
    /// Remembered window size and position.
    pub window_width: u32,
    pub window_height: u32,
    pub window_x: Option<i32>,
    pub window_y: Option<i32>,
    pub remember_window_state: bool,
    /// Version of the built-in prompts the configuration was saved with.
    pub prompts_version: u32,
    /// Shortcut that starts a region capture.
    pub screenshot_shortcut: String,
}

/// `c` holds the default settings.
pub open spec fn is_default_config(c: Config) -> bool {
    &&& c.api_key@ == ""@
    &&& c.api_base_url@ == "https://generativelanguage.googleapis.com/v1beta/models"@
    &&& c.provider@ == "gemini"@
    &&& c.default_engine@ == "gemini-2.5-flash"@
    &&& c.custom_prompt@ == Seq::<char>::empty()
    &&& c.latex_prompt@ == BASE_LATEX_PROMPT@
    &&& c.analysis_prompt@ == BASE_ANALYSIS_PROMPT@
    &&& c.verification_prompt@ == BASE_VERIFICATION_PROMPT@
    &&& c.render_engine@ == "MathJax"@
    &&& !c.auto_calculate_confidence
    &&& !c.enable_clipboard_watcher
    &&& c.default_latex_format@ == "double_dollar"@
    &&& c.request_timeout_seconds == 120
    &&& c.max_retries == 2
    &&& c.max_output_tokens == 240000
    &&& c.language@ == "zh-CN"@
    &&& c.window_width == 1280
    &&& c.window_height == 800
    &&& c.window_x is None
    &&& c.window_y is None
    &&& c.remember_window_state
    &&& c.prompts_version == PROMPTS_VERSION_CURRENT
    &&& c.screenshot_shortcut@ == "CommandOrControl+Shift+A"@
}

/// `a` and `b` agree on every field but the three prompts and the prompts
/// version.
pub open spec fn same_except_prompts(a: Config, b: Config) -> bool {
    &&& a.api_key == b.api_key
    &&& a.api_base_url == b.api_base_url
    &&& a.provider == b.provider
    &&& a.default_engine == b.default_engine
    &&& a.custom_prompt == b.custom_prompt
    &&& a.render_engine == b.render_engine
    &&& a.auto_calculate_confidence == b.auto_calculate_confidence
    &&& a.enable_clipboard_watcher == b.enable_clipboard_watcher
    &&& a.default_latex_format == b.default_latex_format
    &&& a.request_timeout_seconds == b.request_timeout_seconds
    &&& a.max_retries == b.max_retries
    &&& a.max_output_tokens == b.max_output_tokens
    &&& a.language == b.language
    &&& a.window_width == b.window_width
    &&& a.window_height == b.window_height
    &&& a.window_x == b.window_x
    &&& a.window_y == b.window_y
    &&& a.remember_window_state == b.remember_window_state
    &&& a.screenshot_shortcut == b.screenshot_shortcut
}

/// The prompt text that migration leaves in a field: the default where the
/// field is blank, the field itself otherwise.
///
/// A prompt saved under an older prompts version is kept when it is not
/// blank: the library cannot tell an earlier built-in text from the user's
/// own, and migration must not touch custom content.
pub open spec fn migrated_prompt(field: Seq<char>, default: Seq<char>) -> Seq<char> {
    if is_blank(field) {
        default
    } else {
        field
    }
}

/// A prompt after migration: a blank one has the default's text, any other
/// is the very same string.
pub open spec fn migrated_field(new: String, old: String, default: Seq<char>) -> bool {
    &&& new@ == migrated_prompt(old@, default)
    &&& !is_blank(old@) ==> new == old
}

/// `new` is what migration makes of `old`: the same settings, each prompt
/// as `migrated_field` gives it, and the prompts version raised to the
/// current one when it was older.
pub open spec fn migrated_from(new: Config, old: Config) -> bool {
    &&& same_except_prompts(new, old)
    &&& migrated_field(new.latex_prompt, old.latex_prompt, BASE_LATEX_PROMPT@)
    &&& migrated_field(new.analysis_prompt, old.analysis_prompt, BASE_ANALYSIS_PROMPT@)
    &&& migrated_field(new.verification_prompt, old.verification_prompt, BASE_VERIFICATION_PROMPT@)
    &&& new.prompts_version == if old.prompts_version < PROMPTS_VERSION_CURRENT {
        PROMPTS_VERSION_CURRENT
    } else {
        old.prompts_version
    }
}

/// Migration changes a configuration: it is older than the built-in prompts
/// (its version is raised) or one of its prompts is blank (it gets the
/// default).
pub open spec fn needs_migration(c: Config) -> bool {
    ||| c.prompts_version < PROMPTS_VERSION_CURRENT
    ||| is_blank(c.latex_prompt@)
    ||| is_blank(c.analysis_prompt@)
    ||| is_blank(c.verification_prompt@)
}

impl Default for Config {
    fn default() -> (c: Config)
        ensures
            is_default_config(c),
    {
        Config {
            api_key: owned(""),
            api_base_url: owned("https://generativelanguage.googleapis.com/v1beta/models"),
            provider: owned("gemini"),
            default_engine: owned("gemini-2.5-flash"),
            custom_prompt: String::new(),
            latex_prompt: default_latex_prompt(),
            analysis_prompt: default_analysis_prompt(),
            verification_prompt: default_verification_prompt(),
            render_engine: owned("MathJax"),
            auto_calculate_confidence: false,
            enable_clipboard_watcher: false,
            default_latex_format: owned("double_dollar"),
            request_timeout_seconds: 120,
            max_retries: 2,
            max_output_tokens: default_max_output_tokens(),
            language: default_language(),
            window_width: default_window_width(),
            window_height: default_window_height(),
            window_x: None,
            window_y: None,
            remember_window_state: default_remember_window_state(),
            prompts_version: current_prompts_version(),
            screenshot_shortcut: default_screenshot_shortcut(),
        }
    }
}

impl Config {
    /// The settings the model client needs.
    pub fn to_llm_config(&self) -> (r: LlmConfig)
        ensures
            r.api_key == self.api_key,
            r.api_base_url == self.api_base_url,
            r.model_name == self.default_engine,
            r.request_timeout_seconds == self.request_timeout_seconds,
            r.max_retries == self.max_retries,
            r.max_output_tokens == self.max_output_tokens,
    {
        LlmConfig {
            api_key: self.api_key.clone(),
            api_base_url: self.api_base_url.clone(),
            model_name: self.default_engine.clone(),
            request_timeout_seconds: self.request_timeout_seconds,
            max_retries: self.max_retries,
            max_output_tokens: self.max_output_tokens,
        }
    }

    /// The current default prompts: LaTeX, analysis, verification.
    pub fn default_prompts_tuple() -> (r: (String, String, String))
        ensures
            r.0@ == BASE_LATEX_PROMPT@,
            r.1@ == BASE_ANALYSIS_PROMPT@,
            r.2@ == BASE_VERIFICATION_PROMPT@,
    {
        (default_latex_prompt(), default_analysis_prompt(), default_verification_prompt())
    }

    /// Brings old or empty prompts to the new defaults without touching
    /// custom content; returns whether anything changed.
    ///
    /// Each blank prompt gets its default and every other prompt keeps its
    /// text; a configuration older than the built-in prompts gets the
    /// current prompts version. A non-blank prompt saved under an older
    /// version is kept too: it may be the user's own text, and no earlier
    /// built-in text is known to tell it apart, so keeping custom content
    /// takes precedence over replacing an outdated default.
    pub fn migrate_prompts(&mut self) -> (changed: bool)
        ensures
            changed == needs_migration(*old(self)),
            migrated_from(*final(self), *old(self)),
    {
        let mut changed = false;
        let (def_latex, def_analysis, def_ver) = Self::default_prompts_tuple();
        if self.prompts_version < current_prompts_version() {
            self.prompts_version = current_prompts_version();
            changed = true;
        }
        if is_blank_exec(self.latex_prompt.as_str()) {
            self.latex_prompt = def_latex;
            changed = true;
        }
        if is_blank_exec(self.analysis_prompt.as_str()) {
            self.analysis_prompt = def_analysis;
            changed = true;
        }
        if is_blank_exec(self.verification_prompt.as_str()) {
            self.verification_prompt = def_ver;
            changed = true;
        }
        changed
    }
}

/// A name and a one-sentence meaning of a term of the formula.
#[derive(Debug, Clone)]
pub struct TermInfo {
    pub name: String,
    pub description: String,
}

/// A symbol of the formula with its meaning and unit.
#[derive(Debug, Clone)]
pub struct VariableInfo {
    pub symbol: String,
    pub description: String,
    pub unit: Option<String>,
}

/// A suggestion of the analysis; its type is `error`, `warning` or `info`.
#[derive(Debug, Clone)]
pub struct Suggestion {
    pub suggestion_type: String,
    pub message: String,
}

/// Structured analysis of a formula.
#[derive(Debug, Clone)]
pub struct Analysis {
    pub summary: String,
    pub variables: Vec<VariableInfo>,
    pub terms: Vec<TermInfo>,
    pub suggestions: Vec<Suggestion>,
}

/// `a` and `b` hold the same analysis: the same summary and the same
/// variables, terms and suggestions in the same order.
pub open spec fn same_analysis(a: Analysis, b: Analysis) -> bool {
    &&& a.summary == b.summary
    &&& a.variables@ == b.variables@
    &&& a.terms@ == b.terms@
    &&& a.suggestions@ == b.suggestions@
}

/// A copy of an optional string.
pub fn copy_opt_string(s: &Option<String>) -> (r: Option<String>)
    ensures
        r == *s,
{
    match s {
        Some(v) => Some(v.clone()),
        None => None,
    }
}

/// A copy of an analysis.
pub fn copy_analysis(a: &Analysis) -> (r: Analysis)
    ensures
        same_analysis(r, *a),
{
    let mut variables: Vec<VariableInfo> = Vec::new();
    for i in 0..a.variables.len()
        invariant
            variables@ == a.variables@.take(i as int),
    {
        let v = &a.variables[i];
        variables.push(
            VariableInfo {
                symbol: v.symbol.clone(),
                description: v.description.clone(),
                unit: copy_opt_string(&v.unit),
            },
        );
        assert(a.variables@.take(i + 1) =~= a.variables@.take(i as int).push(*v));
    }
    let mut terms: Vec<TermInfo> = Vec::new();
    for i in 0..a.terms.len()
        invariant
            terms@ == a.terms@.take(i as int),
    {
        let t = &a.terms[i];
        terms.push(TermInfo { name: t.name.clone(), description: t.description.clone() });
        assert(a.terms@.take(i + 1) =~= a.terms@.take(i as int).push(*t));
    }
    let mut suggestions: Vec<Suggestion> = Vec::new();
    for i in 0..a.suggestions.len()
        invariant
            suggestions@ == a.suggestions@.take(i as int),
    {
        let g = &a.suggestions[i];
        suggestions.push(
            Suggestion { suggestion_type: g.suggestion_type.clone(), message: g.message.clone() },
        );
        assert(a.suggestions@.take(i + 1) =~= a.suggestions@.take(i as int).push(*g));
    }
    assert(variables@ =~= a.variables@);
    assert(terms@ =~= a.terms@);
    assert(suggestions@ =~= a.suggestions@);
    Analysis { summary: a.summary.clone(), variables, terms, suggestions }
}

/// A copy of a verification result.
pub fn copy_result(r: &VerificationResult) -> (c: VerificationResult)
    ensures
        c == *r,
{
    VerificationResult {
        confidence_score: r.confidence_score,
        verification_report: r.verification_report.clone(),
    }
}

/// One mismatch found by verification; its category is one of
/// `missing_term`, `extra_term`, `symbol_mismatch`, `notation_mismatch`,
/// `layout_mismatch`, `other`.
#[derive(Debug, Clone)]
pub struct VerificationIssue {
    pub category: String,
    pub message: String,
}

/// How many symbols and terms of the image the LaTeX matched.
#[derive(Debug, Clone)]
pub struct VerificationCoverage {
    pub symbols_matched: u32,
    pub symbols_total: u32,
    pub terms_matched: u32,
    pub terms_total: u32,
}

/// Structured verification; its status is `error`, `warning` or `ok`.
#[derive(Debug, Clone)]
pub struct Verification {
    pub status: String,
    pub issues: Vec<VerificationIssue>,
    pub coverage: Option<VerificationCoverage>,
}

/// Confidence score with a verification report.
#[derive(Debug, Clone)]
pub struct VerificationResult {
    pub confidence_score: u8,
    pub verification_report: String,
}

/// One recognised formula kept in the history.
#[derive(Debug, Clone)]
pub struct HistoryItem {
    pub id: String,
    pub latex: String,
    pub title: String,
    pub analysis: Analysis,
    pub is_favorite: bool,
    pub created_at: String,
    pub confidence_score: u8,
    pub original_image: String,
    pub model_name: Option<String>,
    pub verification: Option<Verification>,
    /// Report comparing the LaTeX with the original image.
    pub verification_report: Option<String>,
}

} // verus!
