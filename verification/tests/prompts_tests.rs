use formula_scanner::prompts::{
    format_rule_for_latex, get_analysis_prompt, get_base_prompts_tuple, get_verification_prompt,
    Language, PromptManager, PromptType, ANALYSIS_CONSTRAINT_EN, ANALYSIS_CONSTRAINT_ZH,
    BASE_ANALYSIS_PROMPT, BASE_LATEX_PROMPT, BASE_VERIFICATION_PROMPT, VERIFICATION_CONSTRAINT_EN,
    VERIFICATION_CONSTRAINT_ZH,
};

#[test]
fn language_from_tag() {
    assert!(matches!(Language::from("zh-CN"), Language::Chinese));
    assert!(matches!(Language::from("en-US"), Language::English));
    assert!(matches!(Language::from("zh"), Language::English));
    assert!(matches!(Language::from(""), Language::English));
}

#[test]
fn base_prompts_are_the_built_in_texts() {
    let (l, a, v) = get_base_prompts_tuple();
    assert_eq!(l, BASE_LATEX_PROMPT);
    assert_eq!(a, BASE_ANALYSIS_PROMPT);
    assert_eq!(v, BASE_VERIFICATION_PROMPT);
    assert!(l.starts_with("You are an expert in LaTeX OCR."));
    assert!(l.ends_with("(e.g., \\\\frac)."));
    assert_eq!(PromptManager::get_base_prompt(PromptType::Analysis), BASE_ANALYSIS_PROMPT);
}

#[test]
fn full_prompt_is_base_blank_line_constraint() {
    let full = PromptManager::get_full_prompt(PromptType::Analysis, Language::Chinese);
    assert_eq!(full, format!("{}\n\n{}", BASE_ANALYSIS_PROMPT, ANALYSIS_CONSTRAINT_ZH));
    let full = PromptManager::get_full_prompt(PromptType::Verification, Language::English);
    assert_eq!(full, format!("{}\n\n{}", BASE_VERIFICATION_PROMPT, VERIFICATION_CONSTRAINT_EN));
}

#[test]
fn constraint_for_tag() {
    assert_eq!(
        PromptManager::get_language_constraint_for(PromptType::Analysis, "zh-CN"),
        ANALYSIS_CONSTRAINT_ZH
    );
    assert_eq!(
        PromptManager::get_language_constraint_for(PromptType::Analysis, "en-US"),
        ANALYSIS_CONSTRAINT_EN
    );
    assert_eq!(
        PromptManager::get_language_constraint_for(PromptType::LaTeX, "en-US"),
        "Important: Use English for any error messages or explanations if needed. Keep JSON keys in English."
    );
}

#[test]
fn convenience_prompts() {
    assert_eq!(
        get_analysis_prompt("en-US"),
        format!("{}\n\n{}", BASE_ANALYSIS_PROMPT, ANALYSIS_CONSTRAINT_EN)
    );
    assert_eq!(
        get_verification_prompt("zh-CN"),
        format!("{}\n\n{}", BASE_VERIFICATION_PROMPT, VERIFICATION_CONSTRAINT_ZH)
    );
}

#[test]
fn format_rules() {
    let suffix = " IMPORTANT: The response MUST be a valid JSON object. Escape every backslash in LaTeX for JSON (e.g., \\\\frac). No Markdown fences.";
    assert_eq!(
        format_rule_for_latex("single_dollar"),
        format!("\n\nFormatting rule: Wrap the entire LaTeX with $...$ (inline math). The JSON must be {{\"latex\": \"$<content>$\"}}.{}", suffix)
    );
    assert_eq!(
        format_rule_for_latex("double_dollar"),
        format!("\n\nFormatting rule: Wrap the entire LaTeX with $$...$$ (display math). The JSON must be {{\"latex\": \"$$<content>$$\"}}.{}", suffix)
    );
    assert!(format_rule_for_latex("raw").starts_with("\n\nFormatting rule: Return the bare LaTeX body ONLY inside the JSON value"));
    assert!(format_rule_for_latex("equation").contains("\\begin{equation} ... \\end{equation}"));
    assert!(format_rule_for_latex("bracket").contains("\\[ ... \\]"));
    assert_eq!(
        format_rule_for_latex("unknown"),
        format!("\n\nFormatting rule: Return the bare LaTeX body ONLY without any math delimiters and put it into the 'latex' field.{}", suffix)
    );
}

#[test]
fn format_rule_shape() {
    for f in ["raw", "single_dollar", "double_dollar", "equation", "bracket", "", "mathml"] {
        let r = formula_scanner::prompts::format_rule_for_latex(f);
        assert!(r.starts_with("\n\nFormatting rule: "));
        assert!(r.ends_with(" IMPORTANT: The response MUST be a valid JSON object. Escape every backslash in LaTeX for JSON (e.g., \\\\frac). No Markdown fences."));
    }
    let fallback = formula_scanner::prompts::format_rule_for_latex("");
    assert_eq!(formula_scanner::prompts::format_rule_for_latex("mathml"), fallback);
    assert_ne!(formula_scanner::prompts::format_rule_for_latex("raw"), fallback);
}
