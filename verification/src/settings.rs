//! Settings-page answers: the prompt texts shown to the user, and the
//! configuration kept after reading the configuration file.

use vstd::prelude::*;
use crate::data_models::{Config, is_default_config, migrated_from, needs_migration};
use crate::prompts::{
    PromptManager, PromptType, BASE_ANALYSIS_PROMPT, BASE_LATEX_PROMPT, BASE_VERIFICATION_PROMPT,
    constraint_text, format_rule_for_latex, format_rule_text, full_prompt_text,
    get_base_prompts_tuple, language_of,
};
use crate::text::{concat2, concat3};

verus! {

broadcast use vstd::string::group_string_axioms;

/// The built-in prompts, without language constraints.
#[derive(Debug, Clone)]
pub struct DefaultPromptsResponse {
    pub latex_prompt: String,
    pub analysis_prompt: String,
    pub verification_prompt: String,
    pub latex_language: Option<String>,
    pub analysis_language: Option<String>,
    pub verification_language: Option<String>,
}

/// The built-in prompts as the model receives them for a language.
#[derive(Debug, Clone)]
pub struct FullPromptsResponse {
    pub latex_prompt: String,
    pub analysis_prompt: String,
    pub verification_prompt: String,
    pub latex_language: Option<String>,
    pub analysis_language: Option<String>,
    pub verification_language: Option<String>,
}

/// A prompt split into its base text, formatting rule, language constraint
/// and the full text sent.
#[derive(Debug, Clone)]
pub struct PromptParts {
    pub base: String,
    pub format_rule: Option<String>,
    pub language: String,
    pub full: String,
}

/// The parts of the three prompts.
#[derive(Debug, Clone)]
pub struct PromptPartsResponse {
    pub latex: PromptParts,
    pub analysis: PromptParts,
    pub verification: PromptParts,
}

/// The built-in prompts with no language constraints.
pub fn get_default_prompts() -> (r: DefaultPromptsResponse)
    ensures
        r.latex_prompt@ == BASE_LATEX_PROMPT@,
        r.analysis_prompt@ == BASE_ANALYSIS_PROMPT@,
        r.verification_prompt@ == BASE_VERIFICATION_PROMPT@,
        r.latex_language is None,
        r.analysis_language is None,
        r.verification_language is None,
{
    let (latex_prompt, analysis_prompt, verification_prompt) = get_base_prompts_tuple();
    DefaultPromptsResponse {
        latex_prompt,
        analysis_prompt,
        verification_prompt,
        latex_language: None,
        analysis_language: None,
        verification_language: None,
    }
}

/// The built-in prompts for a language tag: the LaTeX prompt bare, the
/// analysis and verification prompts with their constraints (also given
/// separately).
pub fn get_full_prompts_with_language(language: &str) -> (r: FullPromptsResponse)
    ensures
        r.latex_prompt@ == BASE_LATEX_PROMPT@,
        r.analysis_prompt@ == full_prompt_text(PromptType::Analysis, language_of(language@)),
        r.verification_prompt@ == full_prompt_text(PromptType::Verification, language_of(language@)),
        r.latex_language is None,
        r.analysis_language matches Some(a) && a@ == constraint_text(
            PromptType::Analysis,
            language_of(language@),
        ),
        r.verification_language matches Some(v) && v@ == constraint_text(
            PromptType::Verification,
            language_of(language@),
        ),
{
    let (latex_base, analysis_base, verification_base) = get_base_prompts_tuple();
    let analysis_language = PromptManager::get_language_constraint_for(
        PromptType::Analysis,
        language,
    );
    let verification_language = PromptManager::get_language_constraint_for(
        PromptType::Verification,
        language,
    );
    let analysis_prompt = concat3(analysis_base.as_str(), "\n\n", analysis_language.as_str());
    let verification_prompt = concat3(
        verification_base.as_str(),
        "\n\n",
        verification_language.as_str(),
    );
    FullPromptsResponse {
        latex_prompt: latex_base,
        analysis_prompt,
        verification_prompt,
        latex_language: None,
        analysis_language: Some(analysis_language),
        verification_language: Some(verification_language),
    }
}

/// The parts of each prompt for a language tag and a LaTeX wrapper: the
/// LaTeX prompt is its base with the formatting rule and no language part;
/// the others are base, blank line and language constraint.
pub fn get_prompt_parts(language: &str, default_format: &str) -> (r: PromptPartsResponse)
    ensures
        r.latex.base@ == BASE_LATEX_PROMPT@,
        r.latex.format_rule matches Some(f) && f@ == format_rule_text(default_format@),
        r.latex.language@ == Seq::<char>::empty(),
        r.latex.full@ == BASE_LATEX_PROMPT@ + format_rule_text(default_format@),
        r.analysis.base@ == BASE_ANALYSIS_PROMPT@,
        r.analysis.format_rule is None,
        r.analysis.language@ == constraint_text(PromptType::Analysis, language_of(language@)),
        r.analysis.full@ == full_prompt_text(PromptType::Analysis, language_of(language@)),
        r.verification.base@ == BASE_VERIFICATION_PROMPT@,
        r.verification.format_rule is None,
        r.verification.language@ == constraint_text(
            PromptType::Verification,
            language_of(language@),
        ),
        r.verification.full@ == full_prompt_text(PromptType::Verification, language_of(language@)),
{
    let latex_base = PromptManager::get_base_prompt(PromptType::LaTeX);
    let latex_format = format_rule_for_latex(default_format);
    let latex_full = concat2(latex_base.as_str(), latex_format.as_str());
    let analysis_base = PromptManager::get_base_prompt(PromptType::Analysis);
    let analysis_lang = PromptManager::get_language_constraint_for(PromptType::Analysis, language);
    let analysis_full = concat3(analysis_base.as_str(), "\n\n", analysis_lang.as_str());
    let verification_base = PromptManager::get_base_prompt(PromptType::Verification);
    let verification_lang = PromptManager::get_language_constraint_for(
        PromptType::Verification,
        language,
    );
    let verification_full = concat3(verification_base.as_str(), "\n\n", verification_lang.as_str());
    PromptPartsResponse {
        latex: PromptParts {
            base: latex_base,
            format_rule: Some(latex_format),
            language: String::new(),
            full: latex_full,
        },
        analysis: PromptParts {
            base: analysis_base,
            format_rule: None,
            language: analysis_lang,
            full: analysis_full,
        },
        verification: PromptParts {
            base: verification_base,
            format_rule: None,
            language: verification_lang,
            full: verification_full,
        },
    }
}

/// The configuration kept after reading the configuration file, and whether
/// the file must be rewritten. A configuration that read (`Some`) is
/// migrated and rewritten when migration changed it; a missing or unreadable
/// one (`None`) is replaced by the defaults, which are written out.
pub fn settle_loaded_config(parsed: Option<Config>) -> (r: (Config, bool))
    ensures
        match parsed {
            Some(c) => migrated_from(r.0, c) && r.1 == needs_migration(c),
            None => is_default_config(r.0) && r.1,
        },
{
    match parsed {
        Some(mut config) => {
            let changed = config.migrate_prompts();
            (config, changed)
        },
        None => (Config::default(), true),
    }
}

/// When a window closes: if the settings remember the window state, the
/// window's inner size and outer position (each when it could be read) go
/// into the settings, which must then be written; otherwise nothing changes.
pub fn record_window_state(
    config: &mut Config,
    size: Option<(u32, u32)>,
    position: Option<(i32, i32)>,
) -> (write: bool)
    ensures
        write == old(config).remember_window_state,
        !old(config).remember_window_state ==> *final(config) == *old(config),
        old(config).remember_window_state ==> *final(config) == (Config {
            window_width: match size {
                Some((w, _)) => w,
                None => old(config).window_width,
            },
            window_height: match size {
                Some((_, h)) => h,
                None => old(config).window_height,
            },
            window_x: match position {
                Some((x, _)) => Some(x),
                None => old(config).window_x,
            },
            window_y: match position {
                Some((_, y)) => Some(y),
                None => old(config).window_y,
            },
            ..*old(config)
        }),
{
    if !config.remember_window_state {
        return false;
    }
    if let Some((w, h)) = size {
        config.window_width = w;
        config.window_height = h;
    }
    if let Some((x, y)) = position {
        config.window_x = Some(x);
        config.window_y = Some(y);
    }
    true
}

} // verus!
