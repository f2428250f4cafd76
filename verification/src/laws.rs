//! Properties that relate several operations of the library.

use vstd::prelude::*;
use crate::data_models::{
    Config, PROMPTS_VERSION_CURRENT, is_default_config, migrated_from, needs_migration,
    same_except_prompts,
};
use crate::history::{HistoryCache, cache_answer, has_id, remove_id, with_favorite, with_title};
use crate::data_models::{Analysis, HistoryItem, VerificationResult, same_analysis};
use crate::llm::{
    cleaned_reply, SEND_FAILURE, refusal_text, retry_rule, is_retryable_message, wrapping_pow2, lemma_closing_quote_extend, lowercase_of, models_base, relaxed_latex,
    relaxed_span, backslashes_before, closes_string, latex_opening_quote,
    lemma_closing_quote_first_unescaped,
};
use crate::prompts::{
    ANALYSIS_CONSTRAINT_EN, ANALYSIS_CONSTRAINT_ZH, BASE_VERIFICATION_PROMPT,
    VERIFICATION_CONSTRAINT_EN, VERIFICATION_CONSTRAINT_ZH,    FORMAT_RULE_BRACKET, FORMAT_RULE_DOUBLE_DOLLAR, FORMAT_RULE_EQUATION, FORMAT_RULE_FALLBACK,
    FORMAT_RULE_RAW, FORMAT_RULE_SINGLE_DOLLAR, FORMAT_RULE_SUFFIX, format_rule_text, PromptType, base_prompt_text, constraint_text, full_prompt_text, language_of,
    lemma_base_prompts_not_blank,
};
use crate::pipeline::{
    RecognitionAction, RecognitionEvent, RecognitionRun, RecognitionStep, advanced,
    image_stem_text,
};
use crate::encoding::{image_mime, base64_encoded, is_base64_text, lemma_base64_injective};
use crate::recognition::{
    analysis_prompt_text, localized_verification_prompt_text,default_summary_text, default_title_text, heuristic_confidence};
use crate::text::{
    ascii_lower_seq,    lemma_find_from_found,
    ends_with, is_ws, lemma_no_fence_left, lemma_replace_absent, lemma_trim_end_absent,
    lemma_trim_settles, lemma_trim_start_absent, replace_all, trim, trim_start, contains, find_from, is_blank, lemma_find_from_extend, occurs_at, trim_end_char};

verus! {

/// A full prompt is its base prompt, a blank line, and the constraint of the
/// language the tag selects.
pub proof fn law_full_prompt_composition(t: PromptType, tag: Seq<char>)
    ensures
        full_prompt_text(t, language_of(tag)) == base_prompt_text(t) + "\n\n"@ + constraint_text(
            t,
            language_of(tag),
        ),
{
}

/// Migration reports a change exactly when it changes the configuration.
pub proof fn law_migration_reports_change(old: Config, new: Config)
    requires
        migrated_from(new, old),
    ensures
        needs_migration(old) <==> (new.latex_prompt@ != old.latex_prompt@
            || new.analysis_prompt@ != old.analysis_prompt@ || new.verification_prompt@
            != old.verification_prompt@ || new.prompts_version != old.prompts_version),
{
    lemma_base_prompts_not_blank();
}

/// After migration no prompt is blank and the prompts are current, so a
/// second migration changes nothing.
pub proof fn law_migration_settles(old: Config, new: Config)
    requires
        migrated_from(new, old),
    ensures
        !is_blank(new.latex_prompt@),
        !is_blank(new.analysis_prompt@),
        !is_blank(new.verification_prompt@),
        new.prompts_version >= PROMPTS_VERSION_CURRENT,
        !needs_migration(new),
{
    lemma_base_prompts_not_blank();
}

/// Migrating twice gives the same prompts as migrating once.
pub proof fn law_migration_idempotent(c: Config, once: Config, twice: Config)
    requires
        migrated_from(once, c),
        migrated_from(twice, once),
    ensures
        twice.latex_prompt@ == once.latex_prompt@,
        twice.analysis_prompt@ == once.analysis_prompt@,
        twice.verification_prompt@ == once.verification_prompt@,
        twice.prompts_version == once.prompts_version,
{
    lemma_base_prompts_not_blank();
}

/// Migration does not touch custom content: whatever version a
/// configuration was saved with, every prompt that is not blank keeps its
/// text, and the settings other than the prompts are kept; only the
/// prompts version is raised when it was older.
pub proof fn law_migration_keeps_custom_prompts(old: Config, new: Config)
    requires
        migrated_from(new, old),
    ensures
        same_except_prompts(new, old),
        !is_blank(old.latex_prompt@) ==> new.latex_prompt@ == old.latex_prompt@,
        !is_blank(old.analysis_prompt@) ==> new.analysis_prompt@ == old.analysis_prompt@,
        !is_blank(old.verification_prompt@) ==> new.verification_prompt@
            == old.verification_prompt@,
        new.prompts_version == if old.prompts_version < PROMPTS_VERSION_CURRENT {
            PROMPTS_VERSION_CURRENT
        } else {
            old.prompts_version
        },
{
}

/// Read after write of the configuration: when a configuration saved with
/// the current prompts and no blank prompt is read back, the settling of
/// what was read (`settle_loaded_config` on it, whose ensures are the
/// requirements here) gives it back unchanged and does not rewrite the file.
pub proof fn law_current_config_read_back(saved: Config, read: Config, rewrite: bool)
    requires
        saved.prompts_version >= PROMPTS_VERSION_CURRENT,
        !is_blank(saved.latex_prompt@),
        !is_blank(saved.analysis_prompt@),
        !is_blank(saved.verification_prompt@),
        migrated_from(read, saved),
        rewrite == needs_migration(saved),
    ensures
        read == saved,
        !rewrite,
{
}

/// The default configuration needs no migration.
pub proof fn law_default_config_current(c: Config)
    requires
        is_default_config(c),
    ensures
        !needs_migration(c),
{
    lemma_base_prompts_not_blank();
}

/// After deleting an id no item has it, and deleting it again changes
/// nothing (and so fails).
pub proof fn law_delete_removes_every_match(h: Seq<HistoryItem>, id: Seq<char>)
    ensures
        !has_id(remove_id(h, id), id),
        remove_id(remove_id(h, id), id) == remove_id(h, id),
    decreases h.len(),
{
    if h.len() > 0 {
        law_delete_removes_every_match(h.drop_first(), id);
        let rest = remove_id(h.drop_first(), id);
        if h[0].id@ != id {
            let r = seq![h[0]] + rest;
            assert forall|i: int| 0 <= i < r.len() implies r[i].id@ != id by {
                if i > 0 {
                    assert(r[i] == rest[i - 1]);
                }
            }
            assert(r.drop_first() =~= rest);
        }
    }
}

/// Saving an item and then deleting its id leaves the history as deleting
/// that id from the old history would.
pub proof fn law_save_then_delete(h: Seq<HistoryItem>, item: HistoryItem)
    ensures
        remove_id(seq![item] + h, item.id@) == remove_id(h, item.id@),
{
    assert((seq![item] + h).drop_first() =~= h);
}

/// Deleting keeps every item whose id differs, in order: deleting an id that
/// no item has keeps the whole history.
pub proof fn law_delete_absent_id_keeps_history(h: Seq<HistoryItem>, id: Seq<char>)
    requires
        !has_id(h, id),
    ensures
        remove_id(h, id) == h,
{
    crate::history::lemma_remove_id_len(h, id);
}

/// Renaming an item changes its title only: every other item, and every id,
/// stays as it was.
pub proof fn law_rename_changes_title_only(h: Seq<HistoryItem>, k: int, title: String)
    requires
        0 <= k < h.len(),
    ensures
        with_title(h, k, title).len() == h.len(),
        with_title(h, k, title)[k].title == title,
        with_title(h, k, title)[k].id == h[k].id,
        (HistoryItem { title: h[k].title, ..with_title(h, k, title)[k] }) == h[k],
        forall|j: int| 0 <= j < h.len() && j != k ==> with_title(h, k, title)[j] == h[j],
{
}

/// Marking an item as a favourite (or not) changes its flag only: every
/// other item, and every other field of that item, stays as it was.
pub proof fn law_favorite_changes_flag_only(h: Seq<HistoryItem>, k: int, flag: bool)
    requires
        0 <= k < h.len(),
    ensures
        with_favorite(h, k, flag).len() == h.len(),
        with_favorite(h, k, flag)[k].is_favorite == flag,
        (HistoryItem { is_favorite: h[k].is_favorite, ..with_favorite(h, k, flag)[k] }) == h[k],
        forall|j: int| 0 <= j < h.len() && j != k ==> with_favorite(h, k, flag)[j] == h[j],
{
}

/// A cancelled request (`context canceled`, in any letter case, or status
/// 499) is never retried.
pub proof fn law_cancelled_never_retried(msg: Seq<char>)
    requires
        contains(lowercase_of(msg), "context canceled"@) || contains(msg, "status 499"@),
    ensures
        !is_retryable_message(msg),
{
}

/// Read after write of the history cache: once `remember(mtime, data)` has
/// made `cache` (its ensures), a lookup at time `probe` gives `data` back
/// exactly when `mtime` is `Some(probe)`; a history remembered without a
/// time is never given back.
pub proof fn law_cache_read_after_write(
    cache: HistoryCache,
    mtime: Option<u128>,
    data: Seq<HistoryItem>,
    probe: u128,
)
    requires
        cache.spec_mtime() == mtime,
        cache.spec_data() == data,
    ensures
        mtime == Some(probe) ==> cache_answer(cache.spec_mtime(), cache.spec_data(), probe) == Some(data),
        mtime != Some(probe) ==> cache_answer(cache.spec_mtime(), cache.spec_data(), probe) is None,
        mtime is None ==> cache_answer(cache.spec_mtime(), cache.spec_data(), probe) is None,
{
}

/// The history handed out is the file's. Suppose the cache is coherent with
/// the history file (a cache filled at time `t` holds `h`, what the file
/// holds when last modified at `t`), as every write of the file through the
/// history commands keeps it. Reading the history at file time `t` either
/// hits (`lookup` at `t` gives the cached history and the cache stays as it
/// is, no file read) or misses (the file is read again, giving `h`, and
/// `remember(Some(t), h)` fills the cache). Either way the history served is
/// `h` and the cache then holds `h` at `t`.
pub proof fn law_history_served_from_file(
    before: HistoryCache,
    after: HistoryCache,
    t: u128,
    h: Seq<HistoryItem>,
    served: Seq<HistoryItem>,
)
    requires
        before.spec_mtime() == Some(t) ==> before.spec_data() == h,
        match cache_answer(before.spec_mtime(), before.spec_data(), t) {
            Some(d) => served == d && after == before,
            None => served == h && after.spec_mtime() == Some(t) && after.spec_data() == h,
        },
    ensures
        served == h,
        after.spec_mtime() == Some(t),
        after.spec_data() == h,
{
}

/// A request the service refused with status 429, 500, 502, 503 or 504 is
/// retried, unless its error text tells of a cancelled request (`context
/// canceled` in its lower-cased form, or status 499 in the body).
pub proof fn law_refused_gateway_status_retried(
    code: Seq<char>,
    reason: Seq<char>,
    body: Seq<char>,
    lower: Seq<char>,
)
    requires
        code == "429"@ || code == "500"@ || code == "502"@ || code == "503"@ || code == "504"@,
        !contains(lower, "context canceled"@),
        !contains(refusal_text(code + reason, body), "status 499"@),
    ensures
        retry_rule(refusal_text(code + reason, body), lower),
{
    let msg = refusal_text(code + reason, body);
    let p = "API request failed with status "@;
    reveal_strlit("API request failed with status ");
    reveal_strlit("status ");
    reveal_strlit("429");
    reveal_strlit("500");
    reveal_strlit("502");
    reveal_strlit("503");
    reveal_strlit("504");
    assert(p.len() == 31);
    assert(code.len() == 3);
    assert(p.subrange(24, 31) =~= "status "@);
    let found = msg.subrange(24, 34);
    assert(found =~= "status "@ + code);
    assert(occurs_at(msg, found, 24));
    if code == "429"@ {
        reveal_strlit("status 429");
        assert(found =~= "status 429"@);
    } else if code == "500"@ {
        reveal_strlit("status 500");
        assert(found =~= "status 500"@);
    } else if code == "502"@ {
        reveal_strlit("status 502");
        assert(found =~= "status 502"@);
    } else if code == "503"@ {
        reveal_strlit("status 503");
        assert(found =~= "status 503"@);
    } else {
        reveal_strlit("status 504");
        assert(found =~= "status 504"@);
    }
}

/// A request that could not be sent is retried, unless the lower-cased
/// error text tells of a cancelled request.
pub proof fn law_send_failure_retried(lower: Seq<char>)
    requires
        !contains(lower, "context canceled"@),
    ensures
        retry_rule(SEND_FAILURE@, lower),
{
    reveal_strlit("Failed to send request to Gemini API");
    reveal_strlit("Failed to send request");
    reveal_strlit("status 499");
    let s = SEND_FAILURE@;
    assert(s.subrange(0, 22) =~= "Failed to send request"@);
    assert(occurs_at(s, "Failed to send request"@, 0));
    assert forall|j: int| 0 <= j < s.len() implies s[j] != '4' by {}
    assert forall|i: int| !occurs_at(s, "status 499"@, i) by {
        if occurs_at(s, "status 499"@, i) {
            assert(s.subrange(i, i + 10)[7] == "status 499"@[7]);
            assert(s[i + 7] == '4');
        }
    }
}

/// Back-off is exponential: each retry waits twice as many whole seconds as
/// the one before (while `2^attempt` fits in a `u64`), and the first waits
/// two seconds.
pub proof fn law_backoff_doubles(attempt: nat)
    requires
        1 <= attempt < 64,
    ensures
        wrapping_pow2(attempt) == 2 * wrapping_pow2((attempt - 1) as nat),
        wrapping_pow2(1) == 2,
{
    vstd::arithmetic::power2::lemma_pow2_unfold(attempt);
    vstd::arithmetic::power2::lemma2_to64();
}

/// A trimmed base URL no longer ends with `/`.
proof fn lemma_trim_end_char_last(s: Seq<char>, c: char)
    ensures
        trim_end_char(s, c).len() > 0 ==> trim_end_char(s, c).last() != c,
        trim_end_char(s, c).len() <= s.len(),
    decreases s.len(),
{
    if s.len() > 0 && s.last() == c {
        lemma_trim_end_char_last(s.drop_last(), c);
    }
}

/// `b + p` contains `p`.
proof fn lemma_contains_suffix(b: Seq<char>, p: Seq<char>)
    ensures
        contains(b + p, p),
{
    assert((b + p).subrange(b.len() as int, (b.len() + p.len()) as int) =~= p);
    assert(occurs_at(b + p, p, b.len() as int));
}

/// An endpoint that holds `/models` and does not end with `/` is kept as
/// it is.
proof fn lemma_models_base_fixed(r: Seq<char>)
    requires
        r.len() > 0,
        r.last() != '/',
        contains(r, "/models"@),
    ensures
        models_base(r) == r,
{
    assert(trim_end_char(r, '/') == r);
}

/// `b` followed by `/v1beta/models` holds `/models`.
proof fn lemma_versioned_suffix(b: Seq<char>)
    ensures
        contains(b + "/v1beta/models"@, "/models"@),
        (b + "/v1beta/models"@).last() == 's',
{
    reveal_strlit("/models");
    reveal_strlit("/v1beta/models");
    let r = b + "/v1beta/models"@;
    let k: int = b.len() as int + 7;
    assert(r.subrange(k, k + 7) =~= "/models"@);
    assert(occurs_at(r, "/models"@, k));
}

/// The models endpoint always holds a `/models` segment, and completing an
/// endpoint a second time changes nothing.
pub proof fn law_models_base_complete(url: Seq<char>)
    ensures
        contains(models_base(url), "/models"@),
        models_base(models_base(url)) == models_base(url),
{
    let b = trim_end_char(url, '/');
    lemma_trim_end_char_last(url, '/');
    if contains(b, "/models"@) {
        assert(b.len() > 0) by {
            let i = choose|i: int| occurs_at(b, "/models"@, i);
            reveal_strlit("/models");
        }
        lemma_models_base_fixed(b);
    } else if contains(b, "/v1beta"@) || contains(b, "/v1"@) {
        reveal_strlit("/models");
        lemma_contains_suffix(b, "/models"@);
        lemma_models_base_fixed(b + "/models"@);
    } else {
        lemma_versioned_suffix(b);
        lemma_models_base_fixed(b + "/v1beta/models"@);
    }
}

/// The lenient reading closes the `latex` string at the first quote after
/// the opening one that is preceded by an even number of backslashes (an
/// escaped backslash escapes nothing); when the value opens but no such
/// quote follows, it finds nothing.
pub proof fn law_relaxed_span_closes_at_unescaped_quote(s: Seq<char>)
    ensures
        relaxed_span(s) matches Some((q, e)) ==> latex_opening_quote(s) == Some(q) && s[q] == '"'
            && closes_string(s, q + 1, e) && forall|j: int|
            q + 1 <= j < e ==> !#[trigger] closes_string(s, q + 1, j),
        latex_opening_quote(s) matches Some(q) ==> (relaxed_span(s) is None <==> forall|j: int|
            q + 1 <= j ==> !#[trigger] closes_string(s, q + 1, j)),
{
    let key = "\"latex\""@;
    if let Some(q) = latex_opening_quote(s) {
        lemma_find_from_found(s, key, 0);
        let k = find_from(s, key, 0)->0;
        lemma_find_from_found(s, seq![':'], k + key.len());
        let colon = find_from(s, seq![':'], k + key.len())->0;
        lemma_find_from_found(s, seq!['"'], colon + 1);
        assert(occurs_at(s, seq!['"'], q));
        assert(s.subrange(q, q + 1)[0] == s[q]);
        assert(backslashes_before(s, q + 1, q + 1) == 0);
        lemma_closing_quote_first_unescaped(s, q + 1, q + 1, false);
    }
}

/// Text after the closing quote of the `latex` value does not change what
/// the lenient reading finds.
pub proof fn law_relaxed_latex_ignores_trailing_text(s: Seq<char>, t: Seq<char>)
    requires
        relaxed_span(s) is Some,
    ensures
        relaxed_span(s + t) == relaxed_span(s),
        relaxed_latex(s + t) == relaxed_latex(s),
{
    let key = "\"latex\""@;
    let k = find_from(s, key, 0)->0;
    lemma_find_from_extend(s, t, key, 0);
    let colon = find_from(s, seq![':'], k + key.len())->0;
    lemma_find_from_extend(s, t, seq![':'], k + key.len());
    let q = find_from(s, seq!['"'], colon + 1)->0;
    lemma_find_from_extend(s, t, seq!['"'], colon + 1);
    lemma_closing_quote_extend(s, t, q + 1, false);
    let (_, e) = relaxed_span(s)->0;
    crate::text::lemma_find_from_found(s, seq!['"'], colon + 1);
    crate::llm::lemma_closing_quote_bound(s, q + 1, false);
    assert((s + t).subrange(q, e + 1) =~= s.subrange(q, e + 1));
}

/// A recognition whose LaTeX stage succeeds goes through its stages in
/// order and is not failed by the analysis or the verification: it reports
/// the LaTeX and starts the verification, reports the analysis, reports the
/// score and saves the image, stores a record of the LaTeX, the analysis
/// kept (the model's, or the defaults) and the result kept (the model's, or
/// score 0), and finishes.
pub proof fn law_recognition_stages_in_order(
    r0: RecognitionRun,
    latex: String,
    analysis: Option<(String, Analysis)>,
    outcome: Option<VerificationResult>,
    now_stamp: String,
    path: String,
    r1: RecognitionRun,
    s1: RecognitionStep,
    r2: RecognitionRun,
    s2: RecognitionStep,
    r3: RecognitionRun,
    s3: RecognitionStep,
    r4: RecognitionRun,
    s4: RecognitionStep,
    r5: RecognitionRun,
    s5: RecognitionStep,
)
    requires
        r0.stage is Latex,
        advanced(r0, RecognitionEvent::LatexExtracted(Ok(latex)), r1, s1),
        advanced(r1, RecognitionEvent::AnalysisGenerated(analysis), r2, s2),
        advanced(r2, RecognitionEvent::VerificationScored { outcome, now_stamp }, r3, s3),
        advanced(r3, RecognitionEvent::ImageSaved(Ok(path)), r4, s4),
        advanced(r4, RecognitionEvent::RecordStored(Ok(())), r5, s5),
    ensures
        s1.report matches Some(p) && p.stage@ == "latex"@ && p.latex == Some(latex),
        s1.action == RecognitionAction::VerifyThenAwaitAnalysis(latex),
        s2.report matches Some(p) && p.stage@ == "analysis"@,
        s2.action is AwaitVerification,
        s3.report matches Some(p) && p.stage@ == "confidence"@,
        s3.action matches RecognitionAction::SaveImage(stem) && stem@ == image_stem_text(
            r0,
            now_stamp@,
        ),
        s4.report is None,
        s4.action matches RecognitionAction::StoreRecord(rec) && {
            &&& rec.id == r0.id
            &&& rec.latex == latex
            &&& rec.created_at == r0.created_at
            &&& rec.model_name == r0.model_name
            &&& rec.original_image == path
            &&& !rec.is_favorite
            &&& match analysis {
                Some((t, a)) => rec.title == t && same_analysis(rec.analysis, a),
                None => rec.title@ == default_title_text(r0.language@) && rec.analysis.summary@
                    == default_summary_text(r0.language@) && rec.analysis.variables@.len() == 0,
            }
            &&& match outcome {
                Some(v) => rec.confidence_score == v.confidence_score && rec.verification_report
                    == Some(v.verification_report),
                None => rec.confidence_score == 0 && (rec.verification_report matches Some(t)
                    && t@ == "验证失败"@),
            }
        },
        s5.action is Finish,
        r5.stage is Finished,
{
}

/// A recognition whose LaTeX stage fails ends with that error and reports
/// nothing.
pub proof fn law_latex_failure_fails_recognition(
    r0: RecognitionRun,
    error: String,
    r1: RecognitionRun,
    s1: RecognitionStep,
)
    requires
        r0.stage is Latex,
        advanced(r0, RecognitionEvent::LatexExtracted(Err(error)), r1, s1),
    ensures
        s1.report is None,
        s1.action == RecognitionAction::Fail(error),
        r1.stage is Failed,
{
}

/// A recognition that is over (finished or failed) ignores every event and
/// stays as it is.
pub proof fn law_recognition_over_is_final(
    r: RecognitionRun,
    event: RecognitionEvent,
    next: RecognitionRun,
    s: RecognitionStep,
)
    requires
        r.stage is Finished || r.stage is Failed,
        advanced(r, event, next, s),
    ensures
        next == r,
        s.report is None,
        s.action is Ignore,
{
}

/// Every formatting rule starts with `\n\nFormatting rule: ` and ends with
/// the demand for valid JSON; a wrapper other than the five known ones gets
/// the fallback rule, the one an empty wrapper gets, which differs from the
/// rule of `raw`.
pub proof fn law_format_rule_shape(fmt: Seq<char>)
    ensures
        format_rule_text(fmt).len() >= 19,
        format_rule_text(fmt).subrange(0, 19) == "\n\nFormatting rule: "@,
        ends_with(format_rule_text(fmt), FORMAT_RULE_SUFFIX@),
        fmt != "raw"@ && fmt != "single_dollar"@ && fmt != "double_dollar"@ && fmt
            != "equation"@ && fmt != "bracket"@ ==> format_rule_text(fmt) == format_rule_text(
            ""@,
        ),
        format_rule_text(""@) != format_rule_text("raw"@),
{
    reveal_strlit("\n\nFormatting rule: Return the bare LaTeX body ONLY inside the JSON value without any math delimiters (no $...$, no $$...$$, no \\[...\\], no \\begin{equation}...\\end{equation}). Place the exact LaTeX string in the 'latex' field.");
    reveal_strlit("\n\nFormatting rule: Wrap the entire LaTeX with $...$ (inline math). The JSON must be {\"latex\": \"$<content>$\"}.");
    reveal_strlit("\n\nFormatting rule: Wrap the entire LaTeX with $$...$$ (display math). The JSON must be {\"latex\": \"$$<content>$$\"}.");
    reveal_strlit("\n\nFormatting rule: Wrap the entire LaTeX with \\begin{equation} ... \\end{equation}. The JSON must be {\"latex\": \"\\begin{equation}<content>\\end{equation}\"}.");
    reveal_strlit("\n\nFormatting rule: Wrap the entire LaTeX with \\[ ... \\] (display math). The JSON must be {\"latex\": \"\\[<content>\\]\"}.");
    reveal_strlit("\n\nFormatting rule: Return the bare LaTeX body ONLY without any math delimiters and put it into the 'latex' field.");
    reveal_strlit(" IMPORTANT: The response MUST be a valid JSON object. Escape every backslash in LaTeX for JSON (e.g., \\\\frac). No Markdown fences.");
    reveal_strlit("\n\nFormatting rule: ");
    reveal_strlit("raw");
    reveal_strlit("single_dollar");
    reveal_strlit("double_dollar");
    reveal_strlit("equation");
    reveal_strlit("bracket");
    reveal_strlit("");
    let p = "\n\nFormatting rule: "@;
    let rule = format_rule_text(fmt).subrange(0, format_rule_text(fmt).len() - FORMAT_RULE_SUFFIX@.len());
    assert(format_rule_text(fmt).subrange(
        format_rule_text(fmt).len() - FORMAT_RULE_SUFFIX@.len(),
        format_rule_text(fmt).len() as int,
    ) =~= FORMAT_RULE_SUFFIX@);
    assert(FORMAT_RULE_RAW@.subrange(0, 19) =~= p);
    assert(FORMAT_RULE_SINGLE_DOLLAR@.subrange(0, 19) =~= p);
    assert(FORMAT_RULE_DOUBLE_DOLLAR@.subrange(0, 19) =~= p);
    assert(FORMAT_RULE_EQUATION@.subrange(0, 19) =~= p);
    assert(FORMAT_RULE_BRACKET@.subrange(0, 19) =~= p);
    assert(FORMAT_RULE_FALLBACK@.subrange(0, 19) =~= p);
    assert(format_rule_text(fmt).subrange(0, 19) =~= p);
    assert(FORMAT_RULE_FALLBACK@.len() != FORMAT_RULE_RAW@.len());
    assert(""@.len() == 0);
    assert(""@ != "raw"@ && ""@ != "single_dollar"@ && ""@ != "double_dollar"@ && ""@
        != "equation"@ && ""@ != "bracket"@);
    assert(format_rule_text(""@) == FORMAT_RULE_FALLBACK@ + FORMAT_RULE_SUFFIX@);
    assert(format_rule_text("raw"@) == FORMAT_RULE_RAW@ + FORMAT_RULE_SUFFIX@);
    assert(format_rule_text(""@).len() != format_rule_text("raw"@).len());
}

/// A cleaned reply holds no Markdown fence, is trimmed (empty, or starting
/// and ending with a visible character), and cleaning it again changes
/// nothing.
pub proof fn law_clean_response_settles(response: Seq<char>)
    ensures
        !contains(cleaned_reply(response), "```"@),
        !contains(cleaned_reply(response), "```json"@),
        cleaned_reply(response).len() > 0 ==> !is_ws(cleaned_reply(response)[0]) && !is_ws(
            cleaned_reply(response).last(),
        ),
        cleaned_reply(cleaned_reply(response)) == cleaned_reply(response),
{
    reveal_strlit("```");
    reveal_strlit("```json");
    reveal_strlit("");
    let f = "```"@;
    let j = "```json"@;
    assert(f =~= seq!['`', '`', '`']);
    assert(""@ =~= Seq::<char>::empty());
    let a = replace_all(response, j, ""@);
    let b = replace_all(a, f, ""@);
    lemma_no_fence_left(a, f);
    lemma_trim_start_absent(b, f);
    lemma_trim_end_absent(trim_start(b), f);
    let c = cleaned_reply(response);
    assert(c == trim(b));
    assert forall|i: int| !occurs_at(c, j, i) by {
        if occurs_at(c, j, i) {
            assert(c.subrange(i, i + 3) =~= j.subrange(0, 3));
            assert(j.subrange(0, 3) =~= f);
            assert(occurs_at(c, f, i));
        }
    }
    lemma_trim_settles(b);
    lemma_replace_absent(c, j, ""@);
    lemma_replace_absent(c, f, ""@);
}

/// Base64 decoding gives back what encoding was given: the standard text of
/// any bytes is a base64 text (so `decode_image_base64` succeeds on it), and
/// the only bytes decoded from it are those bytes.
pub proof fn law_base64_round_trip(bytes: Seq<u8>, decoded: Seq<u8>)
    ensures
        is_base64_text(base64_encoded(bytes)),
        base64_encoded(decoded) == base64_encoded(bytes) ==> decoded == bytes,
{
    if base64_encoded(decoded) == base64_encoded(bytes) {
        lemma_base64_injective(decoded, bytes);
    }
}

/// The status-based confidence, without coverage: 100 for `ok`; for
/// `warning` 80 less 2 per issue, never below 60; for any other status 60
/// less 5 per issue, never below 10. Below ten issues, one more issue lowers
/// it by exactly 2 (warning) or 5 (other statuses).
pub proof fn law_heuristic_confidence_per_issue(status: Seq<char>, n: u32)
    ensures
        status == "ok"@ ==> heuristic_confidence(status, n) == 100,
        status == "warning"@ && n <= 10 ==> heuristic_confidence(status, n) == 80 - 2 * n,
        status == "warning"@ && n >= 10 ==> heuristic_confidence(status, n) == 60,
        status != "ok"@ && status != "warning"@ && n <= 10 ==> heuristic_confidence(status, n) == 60
            - 5 * n,
        status != "ok"@ && status != "warning"@ && n >= 10 ==> heuristic_confidence(status, n)
            == 10,
        status == "warning"@ && n < 10 ==> heuristic_confidence(status, (n + 1) as u32)
            == heuristic_confidence(status, n) - 2,
        status != "ok"@ && status != "warning"@ && n < 10 ==> heuristic_confidence(
            status,
            (n + 1) as u32,
        ) == heuristic_confidence(status, n) - 5,
{
    reveal_strlit("ok");
    reveal_strlit("warning");
    assert("ok"@.len() != "warning"@.len());
}

/// Transport failures are told by the lower-cased message: a message whose
/// lower-cased form holds `timeout`, `timed out`, `connection reset` or
/// `temporarily unavailable` (so in any letter case), or that holds
/// `Failed to send request` or a 429, 500, 502, 503 or 504 status, is
/// retried unless it was cancelled; a message with none of these is not.
pub proof fn law_retry_by_lowercased_transport(msg: Seq<char>)
    ensures
        !contains(lowercase_of(msg), "context canceled"@) && !contains(msg, "status 499"@) && (
        contains(lowercase_of(msg), "timeout"@) || contains(lowercase_of(msg), "timed out"@)
            || contains(lowercase_of(msg), "connection reset"@) || contains(
            lowercase_of(msg),
            "temporarily unavailable"@,
        ) || contains(msg, "Failed to send request"@) || contains(msg, "status 429"@) || contains(
            msg,
            "status 500"@,
        ) || contains(msg, "status 502"@) || contains(msg, "status 503"@) || contains(
            msg,
            "status 504"@,
        )) ==> is_retryable_message(msg),
        !(contains(lowercase_of(msg), "timeout"@) || contains(lowercase_of(msg), "timed out"@)
            || contains(lowercase_of(msg), "connection reset"@) || contains(
            lowercase_of(msg),
            "temporarily unavailable"@,
        ) || contains(msg, "Failed to send request"@) || contains(msg, "status 429"@) || contains(
            msg,
            "status 500"@,
        ) || contains(msg, "status 502"@) || contains(msg, "status 503"@) || contains(
            msg,
            "status 504"@,
        )) ==> !is_retryable_message(msg),
        contains(lowercase_of(msg), "context canceled"@) || contains(msg, "status 499"@)
            ==> !is_retryable_message(msg),
{
}

/// The verification and analysis prompts of a recognition end with the
/// constraint of the configured language: the English constraint for any
/// tag but `zh-CN`, the Chinese one for `zh-CN`.
pub proof fn law_prompts_follow_configured_language(c: Config)
    ensures
        c.language@ != "zh-CN"@ ==> localized_verification_prompt_text(c) == c.verification_prompt@
            + "\n\n"@ + VERIFICATION_CONSTRAINT_EN@,
        c.language@ == "zh-CN"@ ==> localized_verification_prompt_text(c) == c.verification_prompt@
            + "\n\n"@ + VERIFICATION_CONSTRAINT_ZH@,
        c.language@ != "zh-CN"@ ==> analysis_prompt_text(c) == c.analysis_prompt@ + "\n\n"@
            + ANALYSIS_CONSTRAINT_EN@,
        c.language@ == "zh-CN"@ ==> analysis_prompt_text(c) == c.analysis_prompt@ + "\n\n"@
            + ANALYSIS_CONSTRAINT_ZH@,
        full_prompt_text(PromptType::Verification, language_of(c.language@)) == if c.language@
            == "zh-CN"@ {
            BASE_VERIFICATION_PROMPT@ + "\n\n"@ + VERIFICATION_CONSTRAINT_ZH@
        } else {
            BASE_VERIFICATION_PROMPT@ + "\n\n"@ + VERIFICATION_CONSTRAINT_EN@
        },
{
}

/// The MIME type of an image path depends on the path only through its
/// ASCII lower-casing, so the extension's letter case does not matter.
pub proof fn law_image_mime_ignores_case(p1: Seq<char>, p2: Seq<char>)
    requires
        ascii_lower_seq(p1) == ascii_lower_seq(p2),
    ensures
        image_mime(p1) == image_mime(p2),
{
}

/// A path ending in `.jpg` or `.jpeg` in any of the usual letter cases is
/// JPEG, one ending in `.gif` or `.GIF` is GIF, and one ending in `.png` or
/// `.PNG` is PNG, whatever comes before the extension.
pub proof fn law_image_mime_by_extension(x: Seq<char>)
    ensures
        image_mime(x + ".jpeg"@) == "image/jpeg"@,
        image_mime(x + ".JPEG"@) == "image/jpeg"@,
        image_mime(x + ".jpg"@) == "image/jpeg"@,
        image_mime(x + ".JPG"@) == "image/jpeg"@,
        image_mime(x + ".gif"@) == "image/gif"@,
        image_mime(x + ".GIF"@) == "image/gif"@,
        image_mime(x + ".png"@) == "image/png"@,
        image_mime(x + ".PNG"@) == "image/png"@,
{
    reveal_strlit(".jpeg");
    reveal_strlit(".JPEG");
    reveal_strlit(".jpg");
    reveal_strlit(".JPG");
    reveal_strlit(".gif");
    reveal_strlit(".GIF");
    reveal_strlit(".png");
    reveal_strlit(".PNG");
    assert(ascii_lower_seq(".jpeg"@) =~= ".jpeg"@);
    lemma_lower_suffix(x, ".jpeg"@, ".jpeg"@);
    assert(ascii_lower_seq(".JPEG"@) =~= ".jpeg"@);
    lemma_lower_suffix(x, ".JPEG"@, ".jpeg"@);
    assert(ascii_lower_seq(".jpg"@) =~= ".jpg"@);
    lemma_lower_suffix(x, ".jpg"@, ".jpg"@);
    assert(ascii_lower_seq(".JPG"@) =~= ".jpg"@);
    lemma_lower_suffix(x, ".JPG"@, ".jpg"@);
    assert(ascii_lower_seq(".gif"@) =~= ".gif"@);
    lemma_lower_suffix(x, ".gif"@, ".gif"@);
    assert(ascii_lower_seq(".GIF"@) =~= ".gif"@);
    lemma_lower_suffix(x, ".GIF"@, ".gif"@);
    assert(ascii_lower_seq(".png"@) =~= ".png"@);
    lemma_lower_suffix(x, ".png"@, ".png"@);
    assert(ascii_lower_seq(".PNG"@) =~= ".png"@);
    lemma_lower_suffix(x, ".PNG"@, ".png"@);
    // `.png` and `.gif` endings are no JPEG or GIF endings.
    let lp = ascii_lower_seq(x + ".png"@);
    assert(lp[lp.len() - 2] == 'n');
    assert(!ends_with(lp, ".jpg"@)) by {
        if ends_with(lp, ".jpg"@) {
            assert(lp.subrange(lp.len() - 4, lp.len() as int)[2] == 'n');
        }
    }
    assert(!ends_with(lp, ".gif"@)) by {
        if ends_with(lp, ".gif"@) {
            assert(lp.subrange(lp.len() - 4, lp.len() as int)[2] == 'n');
        }
    }
    assert(!ends_with(lp, ".jpeg"@)) by {
        if ends_with(lp, ".jpeg"@) {
            assert(lp.subrange(lp.len() - 5, lp.len() as int)[3] == 'n');
        }
    }
    let lg = ascii_lower_seq(x + ".gif"@);
    assert(!ends_with(lg, ".jpg"@)) by {
        if ends_with(lg, ".jpg"@) {
            assert(lg.subrange(lg.len() - 4, lg.len() as int)[1] == 'g');
        }
    }
    assert(!ends_with(lg, ".jpeg"@)) by {
        if ends_with(lg, ".jpeg"@) {
            assert(lg.subrange(lg.len() - 5, lg.len() as int)[4] == 'f');
        }
    }
}

/// Lower-casing `x + y` ends with `ly` when `ly` is the lower-casing of `y`.
proof fn lemma_lower_suffix(x: Seq<char>, y: Seq<char>, ly: Seq<char>)
    requires
        ascii_lower_seq(y) == ly,
    ensures
        ends_with(ascii_lower_seq(x + y), ly),
        ascii_lower_seq(x + y) == ascii_lower_seq(x) + ly,
{
    assert(ascii_lower_seq(x + y) =~= ascii_lower_seq(x) + ascii_lower_seq(y));
    let l = ascii_lower_seq(x + y);
    assert(l.subrange(l.len() - ly.len(), l.len() as int) =~= ly);
}

/// The status-based confidence lies between 10 and 100.
pub proof fn law_heuristic_confidence_range(status: Seq<char>, n: u32)
    ensures
        10 <= heuristic_confidence(status, n) <= 100,
{
}

} // verus!
