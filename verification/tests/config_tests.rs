use formula_scanner::data_models::{
    current_prompts_version, default_language, default_max_output_tokens, Config,
    PROMPTS_VERSION_CURRENT,
};
use formula_scanner::prompts::{BASE_ANALYSIS_PROMPT, BASE_LATEX_PROMPT, BASE_VERIFICATION_PROMPT};
use formula_scanner::settings::{record_window_state, settle_loaded_config};

#[test]
fn default_config_values() {
    let c = Config::default();
    assert_eq!(c.api_key, "");
    assert_eq!(c.api_base_url, "https://generativelanguage.googleapis.com/v1beta/models");
    assert_eq!(c.provider, "gemini");
    assert_eq!(c.default_engine, "gemini-2.5-flash");
    assert_eq!(c.latex_prompt, BASE_LATEX_PROMPT);
    assert_eq!(c.render_engine, "MathJax");
    assert_eq!(c.default_latex_format, "double_dollar");
    assert_eq!(c.request_timeout_seconds, 120);
    assert_eq!(c.max_retries, 2);
    assert_eq!(c.max_output_tokens, 240000);
    assert_eq!(c.language, "zh-CN");
    assert_eq!((c.window_width, c.window_height), (1280, 800));
    assert_eq!(c.window_x, None);
    assert!(c.remember_window_state);
    assert_eq!(c.prompts_version, 3);
    assert_eq!(c.screenshot_shortcut, "CommandOrControl+Shift+A");
    assert_eq!(default_language(), "zh-CN");
    assert_eq!(default_max_output_tokens(), 240000);
    assert_eq!(current_prompts_version(), PROMPTS_VERSION_CURRENT);
}

#[test]
fn to_llm_config_copies_fields() {
    let mut c = Config::default();
    c.api_key = "k".to_string();
    c.default_engine = "gemini-2.5-flash-lite".to_string();
    let l = c.to_llm_config();
    assert_eq!(l.api_key, "k");
    assert_eq!(l.api_base_url, c.api_base_url);
    assert_eq!(l.model_name, "gemini-2.5-flash-lite");
    assert_eq!(l.request_timeout_seconds, 120);
    assert_eq!(l.max_retries, 2);
    assert_eq!(l.max_output_tokens, 240000);
}

#[test]
fn migrate_old_version_keeps_custom_prompts() {
    let mut c = Config::default();
    c.prompts_version = 1;
    c.latex_prompt = "my latex prompt".to_string();
    c.analysis_prompt = " ".to_string();
    c.custom_prompt = "keep".to_string();
    assert!(c.migrate_prompts());
    assert_eq!(c.latex_prompt, "my latex prompt");
    assert_eq!(c.analysis_prompt, BASE_ANALYSIS_PROMPT);
    assert_eq!(c.verification_prompt, BASE_VERIFICATION_PROMPT);
    assert_eq!(c.prompts_version, 3);
    assert_eq!(c.custom_prompt, "keep");
    // Only the version was old: raising it is the whole change.
    let mut d = Config::default();
    d.prompts_version = 2;
    assert!(d.migrate_prompts());
    assert_eq!(d.latex_prompt, BASE_LATEX_PROMPT);
    assert_eq!(d.prompts_version, 3);
    assert!(!d.migrate_prompts());
}

#[test]
fn migrate_fills_blank_prompts_only() {
    let mut c = Config::default();
    c.latex_prompt = "custom latex".to_string();
    c.analysis_prompt = "  \n\t ".to_string();
    c.verification_prompt = String::new();
    assert!(c.migrate_prompts());
    assert_eq!(c.latex_prompt, "custom latex");
    assert_eq!(c.analysis_prompt, BASE_ANALYSIS_PROMPT);
    assert_eq!(c.verification_prompt, BASE_VERIFICATION_PROMPT);
    // A second migration changes nothing.
    assert!(!c.migrate_prompts());
    assert_eq!(c.latex_prompt, "custom latex");
}

#[test]
fn migrate_current_config_is_noop() {
    let mut c = Config::default();
    assert!(!c.migrate_prompts());
    let mut d = Config::default();
    d.prompts_version = 7;
    d.latex_prompt = "x".to_string();
    assert!(!d.migrate_prompts());
    assert_eq!(d.prompts_version, 7);
    assert_eq!(d.latex_prompt, "x");
}

#[test]
fn migrate_treats_unicode_space_as_blank() {
    let mut c = Config::default();
    c.latex_prompt = "\u{3000}\u{a0}".to_string();
    assert!(c.migrate_prompts());
    assert_eq!(c.latex_prompt, BASE_LATEX_PROMPT);
}

#[test]
fn settle_loaded_config_cases() {
    let (c, write) = settle_loaded_config(None);
    assert!(write);
    assert_eq!(c.prompts_version, 3);
    assert_eq!(c.language, "zh-CN");
    let mut old = Config::default();
    old.prompts_version = 0;
    old.api_key = "secret-ish".to_string();
    let (c, write) = settle_loaded_config(Some(old));
    assert!(write);
    assert_eq!(c.api_key, "secret-ish");
    assert_eq!(c.prompts_version, 3);
    let (_, write) = settle_loaded_config(Some(Config::default()));
    assert!(!write);
}

#[test]
fn window_state_on_close() {
    let mut c = Config::default();
    assert!(record_window_state(&mut c, Some((1000, 700)), Some((-5, 20))));
    assert_eq!((c.window_width, c.window_height), (1000, 700));
    assert_eq!((c.window_x, c.window_y), (Some(-5), Some(20)));
    // A size or position that could not be read keeps the saved one.
    assert!(record_window_state(&mut c, None, Some((1, 2))));
    assert_eq!((c.window_width, c.window_height), (1000, 700));
    assert_eq!((c.window_x, c.window_y), (Some(1), Some(2)));
    // Nothing is recorded when the window state is not remembered.
    let mut d = Config::default();
    d.remember_window_state = false;
    assert!(!record_window_state(&mut d, Some((1, 1)), Some((3, 3))));
    assert_eq!((d.window_width, d.window_x), (1280, None));
}
