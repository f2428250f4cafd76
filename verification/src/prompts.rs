//! Prompt texts sent to the model and the rules that assemble them.
//!
//! Each prompt has a language-neutral base text; the analysis and
//! verification prompts get a language constraint appended, and the LaTeX
//! prompt gets a formatting rule chosen by the configured LaTeX wrapper.

use vstd::prelude::*;
use crate::text::{concat2, concat3, is_blank, lemma_not_blank_when_ends_visible, owned, str_eq};

verus! {

broadcast use vstd::string::group_string_axioms;

/// Base text of the LaTeX extraction prompt.
pub const BASE_LATEX_PROMPT: &'static str = "You are an expert in LaTeX OCR. Task: Given an image of a mathematical formula, EXTRACT THE LaTeX EXACTLY as shown in the image.

Never correct math, never infer intent, never simplify/normalize. Strictly preserve spacing/notation, symbol forms, order of terms, matrix layout, and the distinction between scalars vs vectors/tensors (e.g., boldface, overarrow, blackboard vs italic, uppercase/lowercase, indices). Do not convert a scalar to a vector/tensor or vice versa.

Brackets: Pay extreme attention to bracket KINDS and COUNTS. Use the exact types that appear and do not add/remove/misuse them: parentheses (), square brackets [], curly braces {}, and angle brackets ⟨⟩ when present. Ensure LaTeX grouping braces {} are balanced and minimal (no extra {}).

Command integrity: NEVER drop the leading backslash of LaTeX commands/environments. Always output commands with their backslashes, e.g., \\begin{bmatrix} ... \\end{bmatrix}, \\frac{...}{...}, \\partial, \\alpha. Do not output truncated tokens like \"egin\", \"frac\", etc.

Noise handling: Ignore any non-formula artifacts captured in the screenshot (e.g., Word paragraph marks ↵, tab arrows ↹, UI chrome, page/section labels, figure captions, or reference tags like [1]). Transcribe ONLY the actual formula content. Do NOT add references, citations, or links.

Output only a strict JSON object: {\"latex\": \"...\"}. No Markdown, no comments, no extra text. Ensure JSON validity: escape every backslash in LaTeX for JSON (e.g., \\\\frac).";

/// Base text of the analysis prompt.
pub const BASE_ANALYSIS_PROMPT: &'static str = "You are an expert in mathematics, physics, and technical writing. Based on the provided formula image (DO NOT change the formula), produce a structured analysis JSON with the following fields only: {\"title\": \"...\", \"analysis\": {\"summary\": \"...\", \"variables\": [{\"symbol\": \"...\", \"description\": \"...\", \"unit\": \"?\"}], \"terms\": [{\"name\": \"...\", \"description\": \"...\"}], \"suggestions\": [{\"type\": \"error|warning|info\", \"message\": \"...\"}]}}.

Instructions:
1) Variables: enumerate every symbol that appears (parameters, fields, operators like ∇ optional). For each, give a concise meaning and typical SI unit if applicable. If unit is unknown, use \"?\".
2) Terms: identify each distinct term/expression/sub-expression in the equation(s) (e.g., derivatives, integrals, summations, products, norms, matrix/vector operations, source terms). Provide a one-sentence physical/mathematical meaning for each.
3) Suggestions (three levels):
   - error: Hard mistakes such as dimensional inconsistency, impossible identities, wrong operators, missing brackets causing invalid grammar, or evident OCR mistakes leading to invalid math.
   - warning: Unusual or risky presentation that can hinder readability or typesetting (e.g., extremely long expressions likely to overflow, unconventional notation like uu instead of u^2 though intentionally preserved, ambiguous symbols).
   - info: General improvement advice (naming clarity, add definitions, add context equations or equivalent forms).
4) Scalar vs tensor: Pay special attention to the distinction between scalars and vectors/tensors (e.g., bold/arrow notation, indices). Preserve this distinction in variable descriptions and term explanations; do not convert between them.
5) References: Do NOT add references/citations/links anywhere (e.g., [1], (Smith, 2020)).
6) Output must be a strict JSON object with the exact schema above. No Markdown, no code fences, no extra commentary.";

/// Base text of the verification prompt.
pub const BASE_VERIFICATION_PROMPT: &'static str = "You are a meticulous verification expert. Your task is to carefully compare the provided LaTeX code against the original mathematical formula image and provide both a confidence score and a detailed verification report.

Task: Analyze how accurately the LaTeX code represents the original image by examining:
1) Symbol accuracy: Are all symbols correctly identified and transcribed?
2) Structure fidelity: Do exponents, subscripts, fractions, and groupings match exactly?
3) Operator precision: Are mathematical operators (+, -, ×, ÷, =, etc.) correctly placed?
4) Layout consistency: Does the overall mathematical structure and spacing match?
5) Completeness: Are there any missing or extra elements?
6) Scalar vs tensor distinction: Treat mismatches between scalars and vectors/tensors (e.g., bold/arrow notation, indexing/ordering conveying tensor rank) as meaning-changing errors.

Output a strict JSON object with this exact schema:
{
  \"confidence_score\": 0-100,
  \"verification_report\": \"A concise but thorough report detailing any discrepancies found between the LaTeX and the original image. If perfect match, state 'LaTeX accurately represents the original formula.' If issues found, describe specific problems like 'Missing subscript in variable x', 'Incorrect operator placement', or 'Vector/tensor vs scalar mismatch', etc.\"
}

Be precise and objective in your assessment. No Markdown formatting, no code fences, no extra commentary.";

/// Language constraint of the LaTeX prompt, Chinese.
pub const LATEX_CONSTRAINT_ZH: &'static str = "Important: Use Simplified Chinese for any error messages or explanations if needed. Keep JSON keys in English.";

/// Language constraint of the LaTeX prompt, English.
pub const LATEX_CONSTRAINT_EN: &'static str = "Important: Use English for any error messages or explanations if needed. Keep JSON keys in English.";

/// Language constraint of the analysis prompt, Chinese.
pub const ANALYSIS_CONSTRAINT_ZH: &'static str = "Important: Use Simplified Chinese for the values of 'title', 'analysis.summary', 'analysis.variables[*].description', 'analysis.terms[*].description', and 'analysis.suggestions[*].message'. Keep JSON keys in English.";

/// Language constraint of the analysis prompt, English.
pub const ANALYSIS_CONSTRAINT_EN: &'static str = "Important: Use English for the values of 'title', 'analysis.summary', 'analysis.variables[*].description', 'analysis.terms[*].description', and 'analysis.suggestions[*].message'. Keep JSON keys in English.";

/// Language constraint of the verification prompt, Chinese.
pub const VERIFICATION_CONSTRAINT_ZH: &'static str = "Important: Use Simplified Chinese for the 'verification_report' content. Keep JSON keys in English.";

/// Language constraint of the verification prompt, English.
pub const VERIFICATION_CONSTRAINT_EN: &'static str = "Important: Use English for the 'verification_report' content. Keep JSON keys in English.";

/// Formatting rule for the LaTeX wrapper `raw`.
pub const FORMAT_RULE_RAW: &'static str = "\n\nFormatting rule: Return the bare LaTeX body ONLY inside the JSON value without any math delimiters (no $...$, no $$...$$, no \\[...\\], no \\begin{equation}...\\end{equation}). Place the exact LaTeX string in the 'latex' field.";

/// Formatting rule for the LaTeX wrapper `single_dollar`.
pub const FORMAT_RULE_SINGLE_DOLLAR: &'static str = "\n\nFormatting rule: Wrap the entire LaTeX with $...$ (inline math). The JSON must be {\"latex\": \"$<content>$\"}.";

/// Formatting rule for the LaTeX wrapper `double_dollar`.
pub const FORMAT_RULE_DOUBLE_DOLLAR: &'static str = "\n\nFormatting rule: Wrap the entire LaTeX with $$...$$ (display math). The JSON must be {\"latex\": \"$$<content>$$\"}.";

/// Formatting rule for the LaTeX wrapper `equation`.
pub const FORMAT_RULE_EQUATION: &'static str = "\n\nFormatting rule: Wrap the entire LaTeX with \\begin{equation} ... \\end{equation}. The JSON must be {\"latex\": \"\\begin{equation}<content>\\end{equation}\"}.";

/// Formatting rule for the LaTeX wrapper `bracket`.
pub const FORMAT_RULE_BRACKET: &'static str = "\n\nFormatting rule: Wrap the entire LaTeX with \\[ ... \\] (display math). The JSON must be {\"latex\": \"\\[<content>\\]\"}.";

/// Formatting rule for any other LaTeX wrapper.
pub const FORMAT_RULE_FALLBACK: &'static str = "\n\nFormatting rule: Return the bare LaTeX body ONLY without any math delimiters and put it into the 'latex' field.";

/// Closing demand appended to every formatting rule.
pub const FORMAT_RULE_SUFFIX: &'static str = " IMPORTANT: The response MUST be a valid JSON object. Escape every backslash in LaTeX for JSON (e.g., \\\\frac). No Markdown fences.";

/// Kind of model call a prompt is written for.
#[derive(Debug, Clone, Copy)]
pub enum PromptType {
    LaTeX,
    Analysis,
    /// Confidence score together with a verification report.
    Verification,
}

/// Output language requested from the model.
#[derive(Debug, Clone, Copy)]
pub enum Language {
    Chinese,
    English,
}

/// The language a configured language tag selects: `"zh-CN"` is Chinese,
/// every other tag English.
pub open spec fn language_of(tag: Seq<char>) -> Language {
    if tag == "zh-CN"@ {
        Language::Chinese
    } else {
        Language::English
    }
}

impl<'a> From<&'a str> for Language {
    fn from(lang: &'a str) -> (r: Language) {
        if str_eq(lang, "zh-CN") {
            Language::Chinese
        } else {
            Language::English
        }
    }
}

impl<'a> vstd::std_specs::convert::FromSpecImpl<&'a str> for Language {
    open spec fn obeys_from_spec() -> bool {
        true
    }

    open spec fn from_spec(lang: &'a str) -> Language {
        language_of(lang@)
    }
}

/// Base text of the prompt of kind `t`.
pub open spec fn base_prompt_text(t: PromptType) -> Seq<char> {
    match t {
        PromptType::LaTeX => BASE_LATEX_PROMPT@,
        PromptType::Analysis => BASE_ANALYSIS_PROMPT@,
        PromptType::Verification => BASE_VERIFICATION_PROMPT@,
    }
}

/// Language constraint for a prompt of kind `t` in language `l`.
pub open spec fn constraint_text(t: PromptType, l: Language) -> Seq<char> {
    match (t, l) {
        (PromptType::LaTeX, Language::Chinese) => LATEX_CONSTRAINT_ZH@,
        (PromptType::LaTeX, Language::English) => LATEX_CONSTRAINT_EN@,
        (PromptType::Analysis, Language::Chinese) => ANALYSIS_CONSTRAINT_ZH@,
        (PromptType::Analysis, Language::English) => ANALYSIS_CONSTRAINT_EN@,
        (PromptType::Verification, Language::Chinese) => VERIFICATION_CONSTRAINT_ZH@,
        (PromptType::Verification, Language::English) => VERIFICATION_CONSTRAINT_EN@,
    }
}

/// Base text, a blank line, then the language constraint.
pub open spec fn full_prompt_text(t: PromptType, l: Language) -> Seq<char> {
    base_prompt_text(t) + "\n\n"@ + constraint_text(t, l)
}

/// The formatting rule that ends a LaTeX prompt for the wrapper `fmt`.
pub open spec fn format_rule_text(fmt: Seq<char>) -> Seq<char> {
    let rule = if fmt == "raw"@ {
        FORMAT_RULE_RAW@
    } else if fmt == "single_dollar"@ {
        FORMAT_RULE_SINGLE_DOLLAR@
    } else if fmt == "double_dollar"@ {
        FORMAT_RULE_DOUBLE_DOLLAR@
    } else if fmt == "equation"@ {
        FORMAT_RULE_EQUATION@
    } else if fmt == "bracket"@ {
        FORMAT_RULE_BRACKET@
    } else {
        FORMAT_RULE_FALLBACK@
    };
    rule + FORMAT_RULE_SUFFIX@
}

/// Gives out the prompt texts.
pub struct PromptManager;

impl PromptManager {
    /// Base prompt (no language constraint).
    pub fn get_base_prompt(prompt_type: PromptType) -> (r: String)
        ensures
            r@ == base_prompt_text(prompt_type),
    {
        match prompt_type {
            PromptType::LaTeX => Self::base_latex_prompt(),
            PromptType::Analysis => Self::base_analysis_prompt(),
            PromptType::Verification => Self::base_verification_prompt(),
        }
    }

    /// Full prompt: base, a blank line, then the language constraint.
    pub fn get_full_prompt(prompt_type: PromptType, language: Language) -> (r: String)
        ensures
            r@ == full_prompt_text(prompt_type, language),
    {
        let base = Self::get_base_prompt(prompt_type);
        let constraint = Self::get_language_constraint(prompt_type, language);
        concat3(base.as_str(), "\n\n", constraint.as_str())
    }

    fn get_language_constraint(prompt_type: PromptType, language: Language) -> (r: String)
        ensures
            r@ == constraint_text(prompt_type, language),
    {
        match prompt_type {
            PromptType::LaTeX => Self::latex_language_constraint(language),
            PromptType::Analysis => Self::analysis_language_constraint(language),
            PromptType::Verification => Self::verification_language_constraint(language),
        }
    }

    fn base_latex_prompt() -> (r: String)
        ensures
            r@ == BASE_LATEX_PROMPT@,
    {
        owned(BASE_LATEX_PROMPT)
    }

    fn base_analysis_prompt() -> (r: String)
        ensures
            r@ == BASE_ANALYSIS_PROMPT@,
    {
        owned(BASE_ANALYSIS_PROMPT)
    }

    fn base_verification_prompt() -> (r: String)
        ensures
            r@ == BASE_VERIFICATION_PROMPT@,
    {
        owned(BASE_VERIFICATION_PROMPT)
    }

    fn latex_language_constraint(language: Language) -> (r: String)
        ensures
            r@ == constraint_text(PromptType::LaTeX, language),
    {
        match language {
            Language::Chinese => owned(LATEX_CONSTRAINT_ZH),
            Language::English => owned(LATEX_CONSTRAINT_EN),
        }
    }

    fn analysis_language_constraint(language: Language) -> (r: String)
        ensures
            r@ == constraint_text(PromptType::Analysis, language),
    {
        match language {
            Language::Chinese => owned(ANALYSIS_CONSTRAINT_ZH),
            Language::English => owned(ANALYSIS_CONSTRAINT_EN),
        }
    }

    fn verification_language_constraint(language: Language) -> (r: String)
        ensures
            r@ == constraint_text(PromptType::Verification, language),
    {
        match language {
            Language::Chinese => owned(VERIFICATION_CONSTRAINT_ZH),
            Language::English => owned(VERIFICATION_CONSTRAINT_EN),
        }
    }

    /// Language constraint for a prompt kind and a language tag such as
    /// `"zh-CN"` or `"en-US"`.
    pub fn get_language_constraint_for(prompt_type: PromptType, language: &str) -> (r: String)
        ensures
            r@ == constraint_text(prompt_type, language_of(language@)),
    {
        let lang = Language::from(language);
        Self::get_language_constraint(prompt_type, lang)
    }
}

/// Analysis prompt with the constraint for the language tag.
pub fn get_analysis_prompt(language: &str) -> (r: String)
    ensures
        r@ == full_prompt_text(PromptType::Analysis, language_of(language@)),
{
    PromptManager::get_full_prompt(PromptType::Analysis, Language::from(language))
}

/// Verification prompt with the constraint for the language tag.
pub fn get_verification_prompt(language: &str) -> (r: String)
    ensures
        r@ == full_prompt_text(PromptType::Verification, language_of(language@)),
{
    PromptManager::get_full_prompt(PromptType::Verification, Language::from(language))
}

/// The three base prompts: LaTeX, analysis, verification.
pub fn get_base_prompts_tuple() -> (r: (String, String, String))
    ensures
        r.0@ == BASE_LATEX_PROMPT@,
        r.1@ == BASE_ANALYSIS_PROMPT@,
        r.2@ == BASE_VERIFICATION_PROMPT@,
{
    (
        PromptManager::get_base_prompt(PromptType::LaTeX),
        PromptManager::get_base_prompt(PromptType::Analysis),
        PromptManager::get_base_prompt(PromptType::Verification),
    )
}

/// The formatting rule appended to the LaTeX prompt for the configured
/// wrapper (`raw`, `single_dollar`, `double_dollar`, `equation`, `bracket`;
/// anything else is treated like `raw`, with its own wording).
pub fn format_rule_for_latex(default_format: &str) -> (r: String)
    ensures
        r@ == format_rule_text(default_format@),
{
    let rule = if str_eq(default_format, "raw") {
        FORMAT_RULE_RAW
    } else if str_eq(default_format, "single_dollar") {
        FORMAT_RULE_SINGLE_DOLLAR
    } else if str_eq(default_format, "double_dollar") {
        FORMAT_RULE_DOUBLE_DOLLAR
    } else if str_eq(default_format, "equation") {
        FORMAT_RULE_EQUATION
    } else if str_eq(default_format, "bracket") {
        FORMAT_RULE_BRACKET
    } else {
        FORMAT_RULE_FALLBACK
    };
    concat2(rule, FORMAT_RULE_SUFFIX)
}

/// None of the built-in prompts is blank.
pub proof fn lemma_base_prompts_not_blank()
    ensures
        !is_blank(BASE_LATEX_PROMPT@),
        !is_blank(BASE_ANALYSIS_PROMPT@),
        !is_blank(BASE_VERIFICATION_PROMPT@),
{
    reveal_strlit("You are an expert in LaTeX OCR. Task: Given an image of a mathematical formula, EXTRACT THE LaTeX EXACTLY as shown in the image.

Never correct math, never infer intent, never simplify/normalize. Strictly preserve spacing/notation, symbol forms, order of terms, matrix layout, and the distinction between scalars vs vectors/tensors (e.g., boldface, overarrow, blackboard vs italic, uppercase/lowercase, indices). Do not convert a scalar to a vector/tensor or vice versa.

Brackets: Pay extreme attention to bracket KINDS and COUNTS. Use the exact types that appear and do not add/remove/misuse them: parentheses (), square brackets [], curly braces {}, and angle brackets ⟨⟩ when present. Ensure LaTeX grouping braces {} are balanced and minimal (no extra {}).

Command integrity: NEVER drop the leading backslash of LaTeX commands/environments. Always output commands with their backslashes, e.g., \\begin{bmatrix} ... \\end{bmatrix}, \\frac{...}{...}, \\partial, \\alpha. Do not output truncated tokens like \"egin\", \"frac\", etc.

Noise handling: Ignore any non-formula artifacts captured in the screenshot (e.g., Word paragraph marks ↵, tab arrows ↹, UI chrome, page/section labels, figure captions, or reference tags like [1]). Transcribe ONLY the actual formula content. Do NOT add references, citations, or links.

Output only a strict JSON object: {\"latex\": \"...\"}. No Markdown, no comments, no extra text. Ensure JSON validity: escape every backslash in LaTeX for JSON (e.g., \\\\frac).");
    reveal_strlit("You are an expert in mathematics, physics, and technical writing. Based on the provided formula image (DO NOT change the formula), produce a structured analysis JSON with the following fields only: {\"title\": \"...\", \"analysis\": {\"summary\": \"...\", \"variables\": [{\"symbol\": \"...\", \"description\": \"...\", \"unit\": \"?\"}], \"terms\": [{\"name\": \"...\", \"description\": \"...\"}], \"suggestions\": [{\"type\": \"error|warning|info\", \"message\": \"...\"}]}}.

Instructions:
1) Variables: enumerate every symbol that appears (parameters, fields, operators like ∇ optional). For each, give a concise meaning and typical SI unit if applicable. If unit is unknown, use \"?\".
2) Terms: identify each distinct term/expression/sub-expression in the equation(s) (e.g., derivatives, integrals, summations, products, norms, matrix/vector operations, source terms). Provide a one-sentence physical/mathematical meaning for each.
3) Suggestions (three levels):
   - error: Hard mistakes such as dimensional inconsistency, impossible identities, wrong operators, missing brackets causing invalid grammar, or evident OCR mistakes leading to invalid math.
   - warning: Unusual or risky presentation that can hinder readability or typesetting (e.g., extremely long expressions likely to overflow, unconventional notation like uu instead of u^2 though intentionally preserved, ambiguous symbols).
   - info: General improvement advice (naming clarity, add definitions, add context equations or equivalent forms).
4) Scalar vs tensor: Pay special attention to the distinction between scalars and vectors/tensors (e.g., bold/arrow notation, indices). Preserve this distinction in variable descriptions and term explanations; do not convert between them.
5) References: Do NOT add references/citations/links anywhere (e.g., [1], (Smith, 2020)).
6) Output must be a strict JSON object with the exact schema above. No Markdown, no code fences, no extra commentary.");
    reveal_strlit("You are a meticulous verification expert. Your task is to carefully compare the provided LaTeX code against the original mathematical formula image and provide both a confidence score and a detailed verification report.

Task: Analyze how accurately the LaTeX code represents the original image by examining:
1) Symbol accuracy: Are all symbols correctly identified and transcribed?
2) Structure fidelity: Do exponents, subscripts, fractions, and groupings match exactly?
3) Operator precision: Are mathematical operators (+, -, ×, ÷, =, etc.) correctly placed?
4) Layout consistency: Does the overall mathematical structure and spacing match?
5) Completeness: Are there any missing or extra elements?
6) Scalar vs tensor distinction: Treat mismatches between scalars and vectors/tensors (e.g., bold/arrow notation, indexing/ordering conveying tensor rank) as meaning-changing errors.

Output a strict JSON object with this exact schema:
{
  \"confidence_score\": 0-100,
  \"verification_report\": \"A concise but thorough report detailing any discrepancies found between the LaTeX and the original image. If perfect match, state 'LaTeX accurately represents the original formula.' If issues found, describe specific problems like 'Missing subscript in variable x', 'Incorrect operator placement', or 'Vector/tensor vs scalar mismatch', etc.\"
}

Be precise and objective in your assessment. No Markdown formatting, no code fences, no extra commentary.");
    lemma_not_blank_when_ends_visible(BASE_LATEX_PROMPT@);
    lemma_not_blank_when_ends_visible(BASE_ANALYSIS_PROMPT@);
    lemma_not_blank_when_ends_visible(BASE_VERIFICATION_PROMPT@);
}

} // verus!
