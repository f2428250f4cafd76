//! Progress reports and the history record of a recognition: the LaTeX
//! stage, then the analysis stage, then the verification stage, each
//! reported once, and the record that is kept at the end.

use vstd::prelude::*;
use crate::data_models::{
    Analysis, Config, HistoryItem, Verification, VerificationResult, copy_analysis, copy_opt_string,
    copy_result, same_analysis,
};
use crate::encoding::{png_data_url, rfc3339_compact_stamp, image_file_stem};
use crate::recognition::{
    analysis_or_default, default_summary_text, default_title_text, determine_prompt_version,
    prompt_version_text, verification_or_failed,
};
use crate::text::owned;

verus! {

broadcast use vstd::string::group_string_axioms;

/// A progress report of one stage of a recognition; `stage` is `latex`,
/// `analysis` or `confidence`.
#[derive(Debug, Clone)]
pub struct ProgressPayload {
    pub id: String,
    pub stage: String,
    pub latex: Option<String>,
    pub title: Option<String>,
    pub analysis: Option<Analysis>,
    pub confidence_score: Option<u8>,
    pub created_at: Option<String>,
    pub original_image: Option<String>,
    pub model_name: Option<String>,
    pub verification: Option<Verification>,
    /// `default`, `custom` or `full`.
    pub prompt_version: Option<String>,
    pub verification_report: Option<String>,
}

/// Report of the LaTeX stage: the LaTeX, the creation time and the image as
/// a PNG data URL.
pub fn latex_stage_payload(
    id: String,
    latex: String,
    created_at: String,
    image_base64: &str,
    model_name: Option<String>,
    prompt_version: String,
) -> (r: ProgressPayload)
    ensures
        r.id == id,
        r.stage@ == "latex"@,
        r.latex == Some(latex),
        r.title is None,
        r.analysis is None,
        r.confidence_score is None,
        r.created_at == Some(created_at),
        r.original_image matches Some(u) && u@ == "data:image/png;base64,"@ + image_base64@,
        r.model_name == model_name,
        r.verification is None,
        r.prompt_version == Some(prompt_version),
        r.verification_report is None,
{
    ProgressPayload {
        id,
        stage: owned("latex"),
        latex: Some(latex),
        title: None,
        analysis: None,
        confidence_score: None,
        created_at: Some(created_at),
        original_image: Some(png_data_url(image_base64)),
        model_name,
        verification: None,
        prompt_version: Some(prompt_version),
        verification_report: None,
    }
}

/// Report of the analysis stage: the title and the analysis.
pub fn analysis_stage_payload(
    id: String,
    title: String,
    analysis: Analysis,
    model_name: Option<String>,
    prompt_version: String,
) -> (r: ProgressPayload)
    ensures
        r.id == id,
        r.stage@ == "analysis"@,
        r.latex is None,
        r.title == Some(title),
        r.analysis == Some(analysis),
        r.confidence_score is None,
        r.created_at is None,
        r.original_image is None,
        r.model_name == model_name,
        r.verification is None,
        r.prompt_version == Some(prompt_version),
        r.verification_report is None,
{
    ProgressPayload {
        id,
        stage: owned("analysis"),
        latex: None,
        title: Some(title),
        analysis: Some(analysis),
        confidence_score: None,
        created_at: None,
        original_image: None,
        model_name,
        verification: None,
        prompt_version: Some(prompt_version),
        verification_report: None,
    }
}

/// Report of the verification stage: the score, the report and the
/// structured verification when there is one.
pub fn confidence_stage_payload(
    id: String,
    result: VerificationResult,
    verification: Option<Verification>,
    model_name: Option<String>,
    prompt_version: String,
) -> (r: ProgressPayload)
    ensures
        r.id == id,
        r.stage@ == "confidence"@,
        r.latex is None,
        r.title is None,
        r.analysis is None,
        r.confidence_score == Some(result.confidence_score),
        r.created_at is None,
        r.original_image is None,
        r.model_name == model_name,
        r.verification == verification,
        r.prompt_version == Some(prompt_version),
        r.verification_report == Some(result.verification_report),
{
    ProgressPayload {
        id,
        stage: owned("confidence"),
        latex: None,
        title: None,
        analysis: None,
        confidence_score: Some(result.confidence_score),
        created_at: None,
        original_image: None,
        model_name,
        verification,
        prompt_version: Some(prompt_version),
        verification_report: Some(result.verification_report),
    }
}

/// The history record of a finished recognition: not a favourite, scored
/// and reported by the verification stage, with the saved image's path as
/// its original image.
pub fn recognition_record(
    id: String,
    latex: String,
    title: String,
    analysis: Analysis,
    created_at: String,
    result: VerificationResult,
    image_path: String,
    model_name: Option<String>,
    verification: Option<Verification>,
) -> (r: HistoryItem)
    ensures
        r.id == id,
        r.latex == latex,
        r.title == title,
        r.analysis == analysis,
        !r.is_favorite,
        r.created_at == created_at,
        r.confidence_score == result.confidence_score,
        r.original_image == image_path,
        r.model_name == model_name,
        r.verification == verification,
        r.verification_report == Some(result.verification_report),
{
    HistoryItem {
        id,
        latex,
        title,
        analysis,
        is_favorite: false,
        created_at,
        confidence_score: result.confidence_score,
        original_image: image_path,
        model_name,
        verification,
        verification_report: Some(result.verification_report),
    }
}

// ---------------------------------------------------------------------------
// The recognition run
// ---------------------------------------------------------------------------

/// Where a recognition stands: waiting for the LaTeX, the analysis or the
/// verification, saving the image, storing the record, or over.
#[derive(Debug, Clone, Copy)]
pub enum RecognitionStage {
    Latex,
    Analysis,
    Verification,
    Saving,
    Storing,
    Finished,
    Failed,
}

/// State of one recognition. The LaTeX, title, analysis, result and image
/// path are filled in as the stages end.
#[derive(Debug)]
pub struct RecognitionRun {
    pub id: String,
    pub created_at: String,
    pub image_base64: String,
    pub model_name: Option<String>,
    /// `default`, `custom` or `full`.
    pub prompt_version: String,
    pub language: String,
    pub stage: RecognitionStage,
    pub latex: String,
    pub title: String,
    pub analysis: Analysis,
    pub result: VerificationResult,
    pub image_path: String,
}

/// What the outside world reports back to a recognition.
pub enum RecognitionEvent {
    /// The LaTeX call ended: the LaTeX, or the error text.
    LatexExtracted(Result<String, String>),
    /// The analysis call ended: title and analysis, or nothing on failure.
    AnalysisGenerated(Option<(String, Analysis)>),
    /// The verification call ended (nothing on failure); `now_stamp` is the
    /// compact stamp (`YYYYmmdd_HHMMSS`) of the current time.
    VerificationScored { outcome: Option<VerificationResult>, now_stamp: String },
    /// The image was saved at this path, or could not be.
    ImageSaved(Result<String, String>),
    /// The record was put first in the stored history, or could not be.
    RecordStored(Result<(), String>),
}

/// What a recognition asks of the outside world next.
pub enum RecognitionAction {
    /// Start the verification call on this LaTeX, then wait for the analysis.
    VerifyThenAwaitAnalysis(String),
    /// Wait for the verification call.
    AwaitVerification,
    /// Save the PNG image under this file stem.
    SaveImage(String),
    /// Put this record first in the stored history.
    StoreRecord(HistoryItem),
    /// The recognition is over; its result is the record that was stored.
    Finish,
    /// The recognition failed with this error.
    Fail(String),
    /// The event does not belong to the current stage; nothing changed.
    Ignore,
}

/// One step of a recognition: an optional progress report to send, then
/// the action to perform.
pub struct RecognitionStep {
    pub report: Option<ProgressPayload>,
    pub action: RecognitionAction,
}

/// `p` reports the end of the LaTeX stage of `run`.
pub open spec fn is_latex_report(p: ProgressPayload, run: RecognitionRun) -> bool {
    &&& p.id == run.id
    &&& p.stage@ == "latex"@
    &&& p.latex == Some(run.latex)
    &&& p.title is None
    &&& p.analysis is None
    &&& p.confidence_score is None
    &&& p.created_at == Some(run.created_at)
    &&& p.original_image matches Some(u) && u@ == "data:image/png;base64,"@ + run.image_base64@
    &&& p.model_name == run.model_name
    &&& p.verification is None
    &&& p.prompt_version == Some(run.prompt_version)
    &&& p.verification_report is None
}

/// `p` reports the end of the analysis stage of `run`.
pub open spec fn is_analysis_report(p: ProgressPayload, run: RecognitionRun) -> bool {
    &&& p.id == run.id
    &&& p.stage@ == "analysis"@
    &&& p.latex is None
    &&& p.title == Some(run.title)
    &&& p.analysis matches Some(a) && same_analysis(a, run.analysis)
    &&& p.confidence_score is None
    &&& p.created_at is None
    &&& p.original_image is None
    &&& p.model_name == run.model_name
    &&& p.verification is None
    &&& p.prompt_version == Some(run.prompt_version)
    &&& p.verification_report is None
}

/// `p` reports the end of the verification stage of `run`.
pub open spec fn is_confidence_report(p: ProgressPayload, run: RecognitionRun) -> bool {
    &&& p.id == run.id
    &&& p.stage@ == "confidence"@
    &&& p.latex is None
    &&& p.title is None
    &&& p.analysis is None
    &&& p.confidence_score == Some(run.result.confidence_score)
    &&& p.created_at is None
    &&& p.original_image is None
    &&& p.model_name == run.model_name
    &&& p.verification is None
    &&& p.prompt_version == Some(run.prompt_version)
    &&& p.verification_report == Some(run.result.verification_report)
}

/// `rec` is the history record of `run`: its id, LaTeX, title, analysis,
/// creation time, model, score and report, not a favourite, with the saved
/// image's path and no structured verification.
pub open spec fn is_record_of(rec: HistoryItem, run: RecognitionRun) -> bool {
    &&& rec.id == run.id
    &&& rec.latex == run.latex
    &&& rec.title == run.title
    &&& same_analysis(rec.analysis, run.analysis)
    &&& !rec.is_favorite
    &&& rec.created_at == run.created_at
    &&& rec.confidence_score == run.result.confidence_score
    &&& rec.original_image == run.image_path
    &&& rec.model_name == run.model_name
    &&& rec.verification is None
    &&& rec.verification_report == Some(run.result.verification_report)
}

/// The file stem of the saved image of `run`: the compact stamp of its
/// creation time (or `now_stamp` when that does not parse), `_`, the id.
pub open spec fn image_stem_text(run: RecognitionRun, now_stamp: Seq<char>) -> Seq<char> {
    let stamp = match rfc3339_compact_stamp(run.created_at@) {
        Some(stamp) => stamp,
        None => now_stamp,
    };
    stamp + "_"@ + run.id@
}

/// The title and analysis a run keeps from the analysis stage's outcome:
/// that outcome, or the default title and summary for its language.
pub open spec fn kept_analysis(run: RecognitionRun, outcome: Option<(String, Analysis)>) -> bool {
    match outcome {
        Some((t, a)) => run.title == t && run.analysis == a,
        None => run.title@ == default_title_text(run.language@) && run.analysis.summary@
            == default_summary_text(run.language@) && run.analysis.variables@.len() == 0
            && run.analysis.terms@.len() == 0 && run.analysis.suggestions@.len() == 0,
    }
}

/// The result a run keeps from the verification stage's outcome: that
/// outcome, or score 0 with the report "验证失败".
pub open spec fn kept_result(run: RecognitionRun, outcome: Option<VerificationResult>) -> bool {
    match outcome {
        Some(v) => run.result == v,
        None => run.result.confidence_score == 0 && run.result.verification_report@ == "验证失败"@,
    }
}

/// One step of a recognition: from `old`, the event `event` leads to `new`
/// with the report and action of `step`.
///
/// - LaTeX stage: the LaTeX is kept, reported, and the verification starts
///   while the analysis is awaited; an error fails the recognition.
/// - Analysis stage: the analysis (or the defaults) is kept and reported.
/// - Verification stage: the result (or score 0) is kept and reported, and
///   the image is saved.
/// - Saving: the path is kept and the record is stored; an error fails.
/// - Storing: success finishes the recognition; an error fails it.
/// - Any other event leaves the run as it is and is ignored.
pub open spec fn advanced(
    old: RecognitionRun,
    event: RecognitionEvent,
    new: RecognitionRun,
    step: RecognitionStep,
) -> bool {
    match (old.stage, event) {
        (RecognitionStage::Latex, RecognitionEvent::LatexExtracted(Ok(l))) => {
            &&& new == RecognitionRun { stage: RecognitionStage::Analysis, latex: l, ..old }
            &&& step.report matches Some(p) && is_latex_report(p, new)
            &&& step.action == RecognitionAction::VerifyThenAwaitAnalysis(l)
        },
        (RecognitionStage::Latex, RecognitionEvent::LatexExtracted(Err(e))) => {
            &&& new == RecognitionRun { stage: RecognitionStage::Failed, ..old }
            &&& step.report is None
            &&& step.action == RecognitionAction::Fail(e)
        },
        (RecognitionStage::Analysis, RecognitionEvent::AnalysisGenerated(o)) => {
            &&& new == RecognitionRun {
                stage: RecognitionStage::Verification,
                title: new.title,
                analysis: new.analysis,
                ..old
            }
            &&& kept_analysis(new, o)
            &&& step.report matches Some(p) && is_analysis_report(p, new)
            &&& step.action == RecognitionAction::AwaitVerification
        },
        (
            RecognitionStage::Verification,
            RecognitionEvent::VerificationScored { outcome, now_stamp },
        ) => {
            &&& new == RecognitionRun { stage: RecognitionStage::Saving, result: new.result, ..old }
            &&& kept_result(new, outcome)
            &&& step.report matches Some(p) && is_confidence_report(p, new)
            &&& step.action matches RecognitionAction::SaveImage(stem) && stem@ == image_stem_text(
                new,
                now_stamp@,
            )
        },
        (RecognitionStage::Saving, RecognitionEvent::ImageSaved(Ok(path))) => {
            &&& new == RecognitionRun { stage: RecognitionStage::Storing, image_path: path, ..old }
            &&& step.report is None
            &&& step.action matches RecognitionAction::StoreRecord(rec) && is_record_of(rec, new)
        },
        (RecognitionStage::Saving, RecognitionEvent::ImageSaved(Err(e))) => {
            &&& new == RecognitionRun { stage: RecognitionStage::Failed, ..old }
            &&& step.report is None
            &&& step.action == RecognitionAction::Fail(e)
        },
        (RecognitionStage::Storing, RecognitionEvent::RecordStored(Ok(_))) => {
            &&& new == RecognitionRun { stage: RecognitionStage::Finished, ..old }
            &&& step.report is None
            &&& step.action is Finish
        },
        (RecognitionStage::Storing, RecognitionEvent::RecordStored(Err(e))) => {
            &&& new == RecognitionRun { stage: RecognitionStage::Failed, ..old }
            &&& step.report is None
            &&& step.action == RecognitionAction::Fail(e)
        },
        _ => {
            &&& new == old
            &&& step.report is None
            &&& step.action is Ignore
        },
    }
}

/// A new recognition of a PNG image (given in base64) with the settings
/// `config`: it waits for the LaTeX; the caller starts the LaTeX and the
/// analysis calls together.
pub fn start_recognition(
    id: String,
    created_at: String,
    image_base64: String,
    config: &Config,
) -> (r: RecognitionRun)
    ensures
        r.id == id,
        r.created_at == created_at,
        r.image_base64 == image_base64,
        r.model_name == Some(config.default_engine),
        r.prompt_version@ == prompt_version_text(*config),
        r.language == config.language,
        r.stage is Latex,
{
    RecognitionRun {
        id,
        created_at,
        image_base64,
        model_name: Some(config.default_engine.clone()),
        prompt_version: determine_prompt_version(config),
        language: config.language.clone(),
        stage: RecognitionStage::Latex,
        latex: String::new(),
        title: String::new(),
        analysis: Analysis {
            summary: String::new(),
            variables: Vec::new(),
            terms: Vec::new(),
            suggestions: Vec::new(),
        },
        result: VerificationResult { confidence_score: 0, verification_report: String::new() },
        image_path: String::new(),
    }
}

impl RecognitionRun {
    /// Takes one event of the outside world and says what to report and do
    /// next (see `advanced`).
    pub fn advance(&mut self, event: RecognitionEvent) -> (s: RecognitionStep)
        ensures
            advanced(*old(self), event, *final(self), s),
    {
        match (self.stage, event) {
            (RecognitionStage::Latex, RecognitionEvent::LatexExtracted(Ok(l))) => {
                self.stage = RecognitionStage::Analysis;
                self.latex = l.clone();
                let report = latex_stage_payload(
                    self.id.clone(),
                    l.clone(),
                    self.created_at.clone(),
                    self.image_base64.as_str(),
                    copy_opt_string(&self.model_name),
                    self.prompt_version.clone(),
                );
                RecognitionStep {
                    report: Some(report),
                    action: RecognitionAction::VerifyThenAwaitAnalysis(l),
                }
            },
            (RecognitionStage::Latex, RecognitionEvent::LatexExtracted(Err(e))) => {
                self.stage = RecognitionStage::Failed;
                RecognitionStep { report: None, action: RecognitionAction::Fail(e) }
            },
            (RecognitionStage::Analysis, RecognitionEvent::AnalysisGenerated(o)) => {
                let (title, analysis) = analysis_or_default(o, self.language.as_str());
                self.stage = RecognitionStage::Verification;
                let report = analysis_stage_payload(
                    self.id.clone(),
                    title.clone(),
                    copy_analysis(&analysis),
                    copy_opt_string(&self.model_name),
                    self.prompt_version.clone(),
                );
                self.title = title;
                self.analysis = analysis;
                RecognitionStep { report: Some(report), action: RecognitionAction::AwaitVerification }
            },
            (
                RecognitionStage::Verification,
                RecognitionEvent::VerificationScored { outcome, now_stamp },
            ) => {
                let result = verification_or_failed(outcome);
                self.stage = RecognitionStage::Saving;
                let report = confidence_stage_payload(
                    self.id.clone(),
                    copy_result(&result),
                    None,
                    copy_opt_string(&self.model_name),
                    self.prompt_version.clone(),
                );
                self.result = result;
                let stem = image_file_stem(
                    self.created_at.as_str(),
                    self.id.as_str(),
                    now_stamp.as_str(),
                );
                RecognitionStep { report: Some(report), action: RecognitionAction::SaveImage(stem) }
            },
            (RecognitionStage::Saving, RecognitionEvent::ImageSaved(Ok(path))) => {
                self.stage = RecognitionStage::Storing;
                self.image_path = path;
                let record = recognition_record(
                    self.id.clone(),
                    self.latex.clone(),
                    self.title.clone(),
                    copy_analysis(&self.analysis),
                    self.created_at.clone(),
                    copy_result(&self.result),
                    self.image_path.clone(),
                    copy_opt_string(&self.model_name),
                    None,
                );
                RecognitionStep { report: None, action: RecognitionAction::StoreRecord(record) }
            },
            (RecognitionStage::Saving, RecognitionEvent::ImageSaved(Err(e))) => {
                self.stage = RecognitionStage::Failed;
                RecognitionStep { report: None, action: RecognitionAction::Fail(e) }
            },
            (RecognitionStage::Storing, RecognitionEvent::RecordStored(Ok(_))) => {
                self.stage = RecognitionStage::Finished;
                RecognitionStep { report: None, action: RecognitionAction::Finish }
            },
            (RecognitionStage::Storing, RecognitionEvent::RecordStored(Err(e))) => {
                self.stage = RecognitionStage::Failed;
                RecognitionStep { report: None, action: RecognitionAction::Fail(e) }
            },
            _ => RecognitionStep { report: None, action: RecognitionAction::Ignore },
        }
    }
}

} // verus!
