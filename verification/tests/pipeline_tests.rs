use formula_scanner::data_models::{Analysis, Config, VerificationResult};
use formula_scanner::encoding::{
    clipboard_image_to_png, encode_image_base64, image_file_to_png, image_file_to_rgba, png_file_name,
};
use formula_scanner::llm::{first_candidate_text, no_text_message, ApiClient};
use formula_scanner::data_models::{copy_analysis, TermInfo, VariableInfo};
use formula_scanner::pipeline::{
    analysis_stage_payload, confidence_stage_payload, latex_stage_payload, recognition_record,
    start_recognition, RecognitionAction, RecognitionEvent, RecognitionStage,
};

fn empty_analysis() -> Analysis {
    Analysis { summary: "s".to_string(), variables: vec![], terms: vec![], suggestions: vec![] }
}

#[test]
fn stage_payloads() {
    let p = latex_stage_payload("id".into(), "x^2".into(), "t".into(), "QUJD", Some("m".into()), "full".into());
    assert_eq!(p.stage, "latex");
    assert_eq!(p.latex.as_deref(), Some("x^2"));
    assert_eq!(p.original_image.as_deref(), Some("data:image/png;base64,QUJD"));
    assert!(p.title.is_none() && p.verification_report.is_none());
    let p = analysis_stage_payload("id".into(), "T".into(), empty_analysis(), None, "full".into());
    assert_eq!(p.stage, "analysis");
    assert_eq!(p.title.as_deref(), Some("T"));
    assert!(p.latex.is_none() && p.created_at.is_none());
    let r = VerificationResult { confidence_score: 77, verification_report: "rep".into() };
    let p = confidence_stage_payload("id".into(), r, None, None, "custom".into());
    assert_eq!(p.stage, "confidence");
    assert_eq!(p.confidence_score, Some(77));
    assert_eq!(p.verification_report.as_deref(), Some("rep"));
    assert_eq!(p.prompt_version.as_deref(), Some("custom"));
}

#[test]
fn record_of_recognition() {
    let r = VerificationResult { confidence_score: 12, verification_report: "rep".into() };
    let item = recognition_record(
        "id".into(), "x".into(), "T".into(), empty_analysis(), "2024".into(), r,
        "/p/a.png".into(), Some("m".into()), None,
    );
    assert!(!item.is_favorite);
    assert_eq!(item.confidence_score, 12);
    assert_eq!(item.original_image, "/p/a.png");
    assert_eq!(item.verification_report.as_deref(), Some("rep"));
}

#[test]
fn image_conversions() {
    let png = clipboard_image_to_png(1, 1, vec![255, 0, 0, 255]).unwrap();
    assert_eq!(&png[1..4], b"PNG");
    let (w, h, px) = image_file_to_rgba(&png).unwrap();
    assert_eq!((w, h, px), (1, 1, vec![255, 0, 0, 255]));
    let again = image_file_to_png(&png).unwrap();
    assert_eq!(image_file_to_rgba(&again).unwrap().2, vec![255, 0, 0, 255]);
    assert_eq!(
        clipboard_image_to_png(2, 2, vec![0; 4]).unwrap_err(),
        "Failed to create image buffer from clipboard data"
    );
    assert!(image_file_to_png(b"junk").is_err());
    assert!(image_file_to_rgba(b"junk").is_err());
    assert_eq!(encode_image_base64(b"ABC"), "QUJD");
    assert_eq!(png_file_name("20240101_000000_id"), "20240101_000000_id.png");
}

#[test]
fn api_client_settings() {
    let mut c = Config::default();
    c.api_key = "K".into();
    c.api_base_url = "https://proxy/".into();
    let client = ApiClient::new(c.to_llm_config());
    assert_eq!(client.config().model_name, "gemini-2.5-flash");
    assert_eq!(client.request_url(), "https://proxy/v1beta/models/gemini-2.5-flash:generateContent?key=K");
}

#[test]
fn reply_texts() {
    let c = vec![vec!["first".to_string(), "second".to_string()], vec!["other".to_string()]];
    assert_eq!(first_candidate_text(&c), Some("first".to_string()));
    assert_eq!(first_candidate_text(&vec![vec![]]), None);
    assert_eq!(first_candidate_text(&vec![]), None);
    assert_eq!(no_text_message(Some("SAFETY"), "{}"), "Gemini returned no text (finishReason: SAFETY). Raw: {}");
    assert_eq!(no_text_message(None, "r"), "Gemini returned no text (finishReason: unknown). Raw: r");
}

fn base_config() -> Config {
    let mut c = Config::default();
    c.language = "en-US".to_string();
    c
}

#[test]
fn recognition_runs_its_stages_in_order() {
    let config = base_config();
    let mut run = start_recognition("id7".into(), "2024-03-05T07:08:09+00:00".into(), "QUJD".into(), &config);
    assert!(matches!(run.stage, RecognitionStage::Latex));
    assert_eq!(run.prompt_version, "full");
    assert_eq!(run.model_name.as_deref(), Some("gemini-2.5-flash"));

    let step = run.advance(RecognitionEvent::LatexExtracted(Ok("E=mc^2".into())));
    let report = step.report.unwrap();
    assert_eq!(report.stage, "latex");
    assert_eq!(report.latex.as_deref(), Some("E=mc^2"));
    assert_eq!(report.original_image.as_deref(), Some("data:image/png;base64,QUJD"));
    assert_eq!(report.created_at.as_deref(), Some("2024-03-05T07:08:09+00:00"));
    assert!(matches!(step.action, RecognitionAction::VerifyThenAwaitAnalysis(ref l) if l == "E=mc^2"));

    let step = run.advance(RecognitionEvent::AnalysisGenerated(None));
    let report = step.report.unwrap();
    assert_eq!(report.stage, "analysis");
    assert_eq!(report.title.as_deref(), Some("Untitled formula"));
    assert_eq!(
        report.analysis.unwrap().summary,
        "Analysis is temporarily unavailable. Please try again."
    );
    assert!(matches!(step.action, RecognitionAction::AwaitVerification));

    let scored = VerificationResult { confidence_score: 88, verification_report: "fine".into() };
    let step = run.advance(RecognitionEvent::VerificationScored {
        outcome: Some(scored),
        now_stamp: "19700101_000000".into(),
    });
    let report = step.report.unwrap();
    assert_eq!(report.stage, "confidence");
    assert_eq!(report.confidence_score, Some(88));
    assert_eq!(report.verification_report.as_deref(), Some("fine"));
    assert!(matches!(step.action, RecognitionAction::SaveImage(ref s) if s == "20240305_070809_id7"));

    let step = run.advance(RecognitionEvent::ImageSaved(Ok("/pics/20240305_070809_id7.png".into())));
    assert!(step.report.is_none());
    let record = match step.action {
        RecognitionAction::StoreRecord(r) => r,
        _ => panic!("expected a record to store"),
    };
    assert_eq!(record.id, "id7");
    assert_eq!(record.latex, "E=mc^2");
    assert_eq!(record.title, "Untitled formula");
    assert_eq!(record.confidence_score, 88);
    assert_eq!(record.original_image, "/pics/20240305_070809_id7.png");
    assert_eq!(record.verification_report.as_deref(), Some("fine"));
    assert!(!record.is_favorite && record.verification.is_none());

    let step = run.advance(RecognitionEvent::RecordStored(Ok(())));
    assert!(matches!(step.action, RecognitionAction::Finish));
    assert!(matches!(run.stage, RecognitionStage::Finished));
    // A finished run ignores further events.
    let step = run.advance(RecognitionEvent::LatexExtracted(Ok("again".into())));
    assert!(matches!(step.action, RecognitionAction::Ignore));
    assert_eq!(run.latex, "E=mc^2");
}

#[test]
fn recognition_failures() {
    let config = base_config();
    let mut run = start_recognition("a".into(), "t".into(), "".into(), &config);
    let step = run.advance(RecognitionEvent::LatexExtracted(Err("boom".into())));
    assert!(step.report.is_none());
    assert!(matches!(step.action, RecognitionAction::Fail(ref e) if e == "boom"));
    assert!(matches!(run.stage, RecognitionStage::Failed));

    let mut run = start_recognition("b".into(), "not a time".into(), "".into(), &config);
    // An event of another stage is ignored.
    let step = run.advance(RecognitionEvent::AnalysisGenerated(None));
    assert!(matches!(step.action, RecognitionAction::Ignore));
    run.advance(RecognitionEvent::LatexExtracted(Ok("x".into())));
    run.advance(RecognitionEvent::AnalysisGenerated(Some(("T".into(), empty_analysis()))));
    let step = run.advance(RecognitionEvent::VerificationScored { outcome: None, now_stamp: "N".into() });
    let report = step.report.unwrap();
    assert_eq!(report.confidence_score, Some(0));
    assert_eq!(report.verification_report.as_deref(), Some("验证失败"));
    // The creation time does not parse, so the stem uses the current stamp.
    assert!(matches!(step.action, RecognitionAction::SaveImage(ref s) if s == "N_b"));
    let step = run.advance(RecognitionEvent::ImageSaved(Err("disk full".into())));
    assert!(matches!(step.action, RecognitionAction::Fail(ref e) if e == "disk full"));
}

#[test]
fn analysis_copies_are_equal() {
    let a = Analysis {
        summary: "s".into(),
        variables: vec![VariableInfo { symbol: "x".into(), description: "d".into(), unit: Some("m".into()) }],
        terms: vec![TermInfo { name: "n".into(), description: "e".into() }],
        suggestions: vec![],
    };
    let b = copy_analysis(&a);
    assert_eq!(b.summary, "s");
    assert_eq!(b.variables[0].unit.as_deref(), Some("m"));
    assert_eq!(b.terms[0].name, "n");
    assert!(b.suggestions.is_empty());
}
