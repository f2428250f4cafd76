use formula_scanner::data_models::Config;
use formula_scanner::llm::{
    backoff_delay, build_verification_prompt, canonical_models_base, classify_retry,
    clean_response, generate_content_url, misdirected_analysis, next_retry, relaxed_latex_span,
    relaxed_or_error, settle_extracted_latex, should_retry, try_relaxed_extract_latex,
    evaluation_text, no_text_error, no_text_error_from, reply_or_refusal, stage_reply_text,
    SEND_FAILURE,
};

#[test]
fn clean_response_removes_fences() {
    assert_eq!(clean_response("```json\n{\"latex\": \"x\"}\n```"), "{\"latex\": \"x\"}");
    assert_eq!(clean_response("  plain  "), "plain");
    assert_eq!(clean_response("a```b````c"), "ab`c");
    assert_eq!(clean_response("``json"), "``json");
}

#[test]
fn models_base_completion() {
    assert_eq!(canonical_models_base("https://h/v1beta/models/"), "https://h/v1beta/models");
    assert_eq!(canonical_models_base("https://proxy.example///"), "https://proxy.example/v1beta/models");
    assert_eq!(canonical_models_base("https://proxy.example/v1"), "https://proxy.example/v1/models");
    assert_eq!(canonical_models_base("https://p/v1beta/"), "https://p/v1beta/models");
    // Completing twice changes nothing.
    let once = canonical_models_base("https://proxy.example");
    assert_eq!(canonical_models_base(&once), once);
}

#[test]
fn request_url() {
    let mut c = Config::default();
    c.api_key = "KEY".to_string();
    let l = c.to_llm_config();
    assert_eq!(
        generate_content_url(&l),
        "https://generativelanguage.googleapis.com/v1beta/models/gemini-2.5-flash:generateContent?key=KEY"
    );
    let l = Config::default().to_llm_config();
    assert_eq!(
        generate_content_url(&l),
        "https://generativelanguage.googleapis.com/v1beta/models/gemini-2.5-flash:generateContent"
    );
}

#[test]
fn verification_prompt_by_language() {
    let p = build_verification_prompt("x^2", "zh-CN");
    assert!(p.starts_with("You are a strict verifier."));
    assert!(p.contains("{\n  \"status\": \"error|warning|ok\","));
    assert!(p.ends_with("- Be concise but precise.\nOutput language: Simplified Chinese for 'issues[*].message'. Keys remain English.\nLaTeX to verify:\nx^2"));
    let p = build_verification_prompt("y", "en-US");
    assert!(p.ends_with("Output language: English for 'issues[*].message'. Keys remain English.\nLaTeX to verify:\ny"));
}

#[test]
fn relaxed_latex_extraction() {
    assert_eq!(
        try_relaxed_extract_latex("{\"latex\": \"\\\\frac{a}{b}\"]}"),
        Some("\\frac{a}{b}".to_string())
    );
    assert_eq!(
        try_relaxed_extract_latex("{\"latex\" : \"a \\\"q\\\" b\"}"),
        Some("a \"q\" b".to_string())
    );
    assert_eq!(try_relaxed_extract_latex("{\"title\": \"x\"}"), None);
    assert_eq!(try_relaxed_extract_latex("{\"latex\": \"unterminated"), None);
    assert_eq!(try_relaxed_extract_latex("{\"latex\" \"x\"}"), None);
}

#[test]
fn extracted_latex_settlement() {
    assert_eq!(settle_extracted_latex(Some("s".to_string()), "whatever"), Ok("s".to_string()));
    assert_eq!(settle_extracted_latex(None, "{\"latex\": \"y\"]"), Ok("y".to_string()));
    assert_eq!(
        settle_extracted_latex(None, "nonsense"),
        Err("Failed to parse latex-only content: nonsense".to_string())
    );
}

#[test]
fn misdirected_analysis_reply() {
    let r = misdirected_analysis("{\"latex\": \"x\"}").unwrap();
    assert_eq!(r.0, "Untitled formula");
    assert!(r.1.summary.is_empty() && r.1.variables.is_empty());
    assert!(misdirected_analysis("{\"latex\": \"x\", \"analysis\": {}}").is_none());
    assert!(misdirected_analysis("{\"title\": \"x\"}").is_none());
}

#[test]
fn retry_classification() {
    assert!(should_retry("API request failed with status 429 Too Many Requests: {}"));
    assert!(should_retry("API request failed with status 503 Service Unavailable: x"));
    assert!(should_retry("Failed to send request to Gemini API"));
    assert!(should_retry("operation TIMED OUT"));
    assert!(should_retry("Request Timeout"));
    assert!(!should_retry("API request failed with status 400 Bad Request"));
    assert!(!should_retry("status 503 but Context Canceled"));
    assert!(!should_retry("status 499 timeout"));
}

#[test]
fn retry_schedule() {
    let d = next_retry("status 500", 0, 2).unwrap();
    assert_eq!((d.attempt, d.secs, d.millis), (1, 2, 137));
    let d = next_retry("status 500", 1, 2).unwrap();
    assert_eq!((d.attempt, d.secs, d.millis), (2, 4, 274));
    assert!(next_retry("status 500", 2, 2).is_none());
    assert!(next_retry("status 404", 0, 2).is_none());
    let d = backoff_delay(8);
    assert_eq!((d.secs, d.millis), (256, 96));
    assert_eq!(backoff_delay(63).secs, 1u64 << 63);
    assert_eq!(backoff_delay(64).secs, 0);
}

#[test]
fn relaxed_span_positions() {
    // {"latex": "ab"]  -> quotes at 10 and 13
    assert_eq!(relaxed_latex_span("{\"latex\": \"ab\"]"), Some((10, 13)));
    // An escaped quote does not close the string.
    assert_eq!(relaxed_latex_span("\"latex\":\"a\\\"b\""), Some((8, 13)));
    assert_eq!(relaxed_latex_span("\"latex\": \"open"), None);
    assert_eq!(relaxed_latex_span("no key here"), None);
    // Text after the closing quote does not change the span.
    assert_eq!(relaxed_latex_span("{\"latex\": \"ab\"] trailing \" junk"), Some((10, 13)));
}

#[test]
fn relaxed_outcome() {
    assert_eq!(relaxed_or_error(Some("v".to_string()), "c"), Ok("v".to_string()));
    assert_eq!(
        relaxed_or_error(None, "raw reply"),
        Err("Failed to parse latex-only content: raw reply".to_string())
    );
}

#[test]
fn retry_rule_on_lowered_text() {
    assert!(classify_retry("status 502", "status 502"));
    assert!(classify_retry("X", "timeout"));
    assert!(!classify_retry("X", "x"));
    assert!(!classify_retry("status 500", "context canceled"));
    assert!(!classify_retry("status 499", "timed out"));
    // The transport checks read the lower-cased form only.
    assert!(!classify_retry("timeout", "none"));
}

#[test]
fn stage_reply_texts() {
    let c = vec![vec!["{\"latex\": \"x\"}".to_string()]];
    assert_eq!(stage_reply_text(Some(c), "analysis"), Ok("{\"latex\": \"x\"}".to_string()));
    assert_eq!(
        stage_reply_text(Some(vec![]), "analysis"),
        Err("Gemini returned no text for analysis".to_string())
    );
    assert_eq!(
        stage_reply_text(Some(vec![vec![]]), "latex extraction"),
        Err("Gemini returned no text for latex extraction".to_string())
    );
    assert_eq!(
        stage_reply_text(None, "verification"),
        Err("Failed to parse Gemini response for verification".to_string())
    );
}

#[test]
fn evaluation_prompt_text() {
    assert_eq!(evaluation_text("Score it.", "a+b"), "Score it.\n\nLaTeX to evaluate: a+b");
}

#[test]
fn replies_and_refusals() {
    assert_eq!(reply_or_refusal(200, "200 OK", "body".into()), Ok("body".to_string()));
    assert_eq!(reply_or_refusal(204, "204 No Content", "".into()), Ok(String::new()));
    let e = reply_or_refusal(429, "429 Too Many Requests", "{}".into()).unwrap_err();
    assert_eq!(e, "API request failed with status 429 Too Many Requests: {}");
    // A refusal with a gateway status is retried; a client error is not.
    assert!(should_retry(&e));
    let e = reply_or_refusal(404, "404 Not Found", "nope".into()).unwrap_err();
    assert!(!should_retry(&e));
    assert!(reply_or_refusal(300, "300 Multiple Choices", "".into()).is_err());
    assert!(reply_or_refusal(199, "199", "".into()).is_err());
    // A request that could not be sent is retried.
    assert!(should_retry(SEND_FAILURE));
}

#[test]
fn cleaning_settles() {
    for reply in ["```json\n{\"a\": 1}\n```", "``````x`", "  ```` y ``", "\u{3000}plain\t", "````json```"] {
        let once = clean_response(reply);
        assert!(!once.contains("```"));
        assert_eq!(once.trim(), once);
        assert_eq!(clean_response(&once), once);
    }
}

#[test]
fn no_text_errors() {
    assert_eq!(
        no_text_error("{\"candidates\": [{\"finishReason\": \"SAFETY\"}]}"),
        "Gemini returned no text (finishReason: SAFETY). Raw: {\"candidates\": [{\"finishReason\": \"SAFETY\"}]}"
    );
    assert_eq!(no_text_error("{}"), "Gemini returned no text (finishReason: unknown). Raw: {}");
    assert_eq!(no_text_error("not json"), "Failed to parse Gemini API response JSON: not json");
    assert_eq!(no_text_error_from(None, "x"), "Failed to parse Gemini API response JSON: x");
    assert_eq!(
        no_text_error_from(Some(Some("MAX_TOKENS".into())), "r"),
        "Gemini returned no text (finishReason: MAX_TOKENS). Raw: r"
    );
    assert_eq!(no_text_error_from(Some(None), "r"), "Gemini returned no text (finishReason: unknown). Raw: r");
}
