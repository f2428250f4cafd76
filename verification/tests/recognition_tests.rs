use formula_scanner::data_models::{Config, Verification, VerificationCoverage, VerificationIssue, VerificationResult};
use formula_scanner::prompts::{format_rule_for_latex, ANALYSIS_CONSTRAINT_EN, ANALYSIS_CONSTRAINT_ZH, VERIFICATION_CONSTRAINT_ZH, BASE_ANALYSIS_PROMPT};
use formula_scanner::recognition::{
    analysis_or_default, compute_verification_result_from_struct, default_summary_for_lang,
    default_title_for_lang, determine_prompt_version, prepare_prompts_with_fallback,
    prepare_recognition_prompts, retry_analysis_prompt, retry_verification_outcome,
    verification_or_failed, verification_report, MISSING_ANALYSIS_PROMPT, MISSING_LATEX_PROMPT,
    MISSING_VERIFICATION_PROMPT,
};

fn issue(c: &str, m: &str) -> VerificationIssue {
    VerificationIssue { category: c.to_string(), message: m.to_string() }
}

fn ver(status: &str, issues: Vec<VerificationIssue>) -> Verification {
    Verification { status: status.to_string(), issues, coverage: None }
}

#[test]
fn defaults_by_language() {
    assert_eq!(default_title_for_lang("zh-CN"), "未命名公式");
    assert_eq!(default_title_for_lang("en"), "Untitled formula");
    assert_eq!(default_summary_for_lang("zh-CN"), "分析暂不可用，请稍后重试。");
    assert_eq!(default_summary_for_lang("en-US"), "Analysis is temporarily unavailable. Please try again.");
    let (t, a) = analysis_or_default(None, "en-US");
    assert_eq!(t, "Untitled formula");
    assert_eq!(a.summary, "Analysis is temporarily unavailable. Please try again.");
    let r = verification_or_failed(None);
    assert_eq!((r.confidence_score, r.verification_report.as_str()), (0, "验证失败"));
}

#[test]
fn prompt_version_names() {
    let mut c = Config::default();
    assert_eq!(determine_prompt_version(&c), "full");
    c.latex_prompt = String::new();
    assert_eq!(determine_prompt_version(&c), "default");
    c.custom_prompt = "mine".to_string();
    assert_eq!(determine_prompt_version(&c), "custom");
}

#[test]
fn heuristic_scores() {
    let r = compute_verification_result_from_struct(&ver("ok", vec![]), 0);
    assert_eq!(r.confidence_score, 100);
    assert_eq!(r.verification_report, "LaTeX 完全匹配原始公式。");
    let r = compute_verification_result_from_struct(&ver("warning", vec![issue("layout_mismatch", "spacing")]), 0);
    assert_eq!(r.confidence_score, 78);
    assert_eq!(r.verification_report, "发现以下差异：\n- [layout_mismatch] spacing");
    let many: Vec<_> = (0..12).map(|i| issue("other", &format!("m{}", i))).collect();
    let r = compute_verification_result_from_struct(&ver("warning", many.clone()), 0);
    assert_eq!(r.confidence_score, 60);
    let r = compute_verification_result_from_struct(&ver("error", many), 0);
    assert_eq!(r.confidence_score, 10);
    assert!(r.verification_report.ends_with("- [other] m9\n(其余 2 条问题已省略)"));
    assert!(!r.verification_report.contains("m10"));
    let r = compute_verification_result_from_struct(&ver("error", vec![issue("a", "b"), issue("c", "d")]), 0);
    assert_eq!(r.confidence_score, 50);
    assert_eq!(r.verification_report, "发现以下差异：\n- [a] b\n- [c] d");
}

#[test]
fn reports_without_issues() {
    assert_eq!(verification_report(&ver("warning", vec![])), "存在版式/排版差异，但不影响数学含义。");
    assert_eq!(verification_report(&ver("error", vec![])), "存在与原图不一致的内容，请检查符号、上下标与项是否匹配。");
    assert_eq!(verification_report(&ver("ok", vec![issue("x", "y")])), "发现以下差异：\n- [x] y");
}

#[test]
fn coverage_score_is_taken_from_caller() {
    let mut v = ver("error", vec![issue("a", "b")]);
    v.coverage = Some(VerificationCoverage { symbols_matched: 3, symbols_total: 4, terms_matched: 1, terms_total: 1 });
    let r = compute_verification_result_from_struct(&v, 81);
    assert_eq!(r.confidence_score, 81);
}

#[test]
fn recognition_prompts_strict() {
    let c = Config::default();
    let p = prepare_recognition_prompts(&c, true).unwrap();
    assert_eq!(p.latex, format!("{}{}", c.latex_prompt, format_rule_for_latex("double_dollar")));
    assert_eq!(p.analysis, format!("{}\n\n{}", c.analysis_prompt, ANALYSIS_CONSTRAINT_ZH));
    assert_eq!(p.verification, format!("{}\n\n{}", c.verification_prompt, VERIFICATION_CONSTRAINT_ZH));
    let p = prepare_recognition_prompts(&c, false).unwrap();
    assert_eq!(p.verification, c.verification_prompt);
    let mut b = Config::default();
    b.analysis_prompt = " ".to_string();
    b.verification_prompt = String::new();
    assert_eq!(prepare_recognition_prompts(&b, true).unwrap_err(), MISSING_ANALYSIS_PROMPT);
    b.latex_prompt = "\n".to_string();
    assert_eq!(prepare_recognition_prompts(&b, true).unwrap_err(), MISSING_LATEX_PROMPT);
    let mut d = Config::default();
    d.verification_prompt = "\t".to_string();
    assert_eq!(prepare_recognition_prompts(&d, false).unwrap_err(), MISSING_VERIFICATION_PROMPT);
}

#[test]
fn recognition_prompts_with_fallback() {
    let mut c = Config::default();
    c.language = "en-US".to_string();
    c.latex_prompt = String::new();
    c.custom_prompt = "custom".to_string();
    let p = prepare_prompts_with_fallback(&c);
    assert_eq!(p.latex, "custom");
    assert_eq!(p.analysis, format!("{}\n\n{}", c.analysis_prompt, ANALYSIS_CONSTRAINT_EN));
    assert!(p.verification.starts_with(&c.verification_prompt));
}

#[test]
fn retry_prompts_and_outcomes() {
    let mut c = Config::default();
    c.language = "en-US".to_string();
    assert_eq!(retry_analysis_prompt(&c), format!("{}\n\n{}", BASE_ANALYSIS_PROMPT, ANALYSIS_CONSTRAINT_EN));
    c.analysis_prompt = String::new();
    c.custom_prompt = "cp".to_string();
    assert_eq!(retry_analysis_prompt(&c), "cp");
    let (r, v) = retry_verification_outcome(Some(ver("ok", vec![])), 0, None);
    assert_eq!(r.confidence_score, 100);
    assert!(v.is_some());
    let fb = VerificationResult { confidence_score: 42, verification_report: "fb".to_string() };
    let (r, v) = retry_verification_outcome(None, 0, Some(fb));
    assert_eq!((r.confidence_score, r.verification_report.as_str()), (42, "fb"));
    assert!(v.is_none());
    let (r, _) = retry_verification_outcome(None, 0, None);
    assert_eq!(r.verification_report, "验证失败");
}
