//! Rules of the model client that do not touch the network: URLs, prompts,
//! reply cleaning, relaxed parsing and the retry policy.

use vstd::prelude::*;
use vstd::arithmetic::power2::pow2;
use vstd::string::StringExecFns;
use crate::data_models::Analysis;
use crate::text::{
    chars_of, concat2, concat3, contains, find_from, find_from_exec, lemma_find_from_found,
    occurs_at, owned, replace_all, replace_all_exec, str_contains, string_from_chars, trim,
    trim_end_char, trim_end_char_exec, trim_exec,
};

verus! {

broadcast use vstd::string::group_string_axioms;

/// Settings of the model service.
#[derive(Debug, Clone)]
pub struct LlmConfig {
    pub api_key: String,
    pub api_base_url: String,
    pub model_name: String,
    pub request_timeout_seconds: u64,
    pub max_retries: u32,
    pub max_output_tokens: u32,
}


/// HTTP client of the `reqwest` crate, carried through unchanged.
#[verifier::external_type_specification]
#[verifier::external_body]
pub struct ExHttpClient(reqwest::Client);

/// Builds a `reqwest` client whose requests time out after `timeout_secs`
/// seconds (`Client::builder().timeout(..).build()`). Nothing is claimed of
/// the client. The builder fails only when the TLS backend cannot be set up,
/// whatever the argument; the call then panics.
#[verifier::external_body]
fn build_http_client(timeout_secs: u64) -> (r: reqwest::Client) {
    reqwest::Client::builder()
        .timeout(std::time::Duration::from_secs(timeout_secs))
        .build()
        .expect("Failed to create HTTP client")
}

/// Client of the model service: an HTTP client and the service settings.
#[derive(Debug)]
pub struct ApiClient {
    client: reqwest::Client,
    config: LlmConfig,
}

impl ApiClient {
    /// The settings the client was made with.
    pub closed spec fn spec_config(&self) -> LlmConfig {
        self.config
    }

    /// Creates a client whose requests time out after the configured number
    /// of seconds.
    pub fn new(config: LlmConfig) -> (r: ApiClient)
        ensures
            r.spec_config() == config,
    {
        let client = build_http_client(config.request_timeout_seconds);
        ApiClient { client, config }
    }

    /// The service settings.
    pub fn config(&self) -> (r: &LlmConfig)
        ensures
            *r == self.spec_config(),
    {
        &self.config
    }

    /// The HTTP client the client holds.
    pub closed spec fn spec_http(&self) -> reqwest::Client {
        self.client
    }

    /// The HTTP client, the one this client was made with and sends its
    /// requests through.
    pub fn http(&self) -> (r: &reqwest::Client)
        ensures
            *r == self.spec_http(),
    {
        &self.client
    }

    /// The URL of a content-generation request of this client.
    pub fn request_url(&self) -> (r: String)
        ensures
            r@ == request_url_text(
                self.spec_config().api_base_url@,
                self.spec_config().model_name@,
                self.spec_config().api_key@,
            ),
    {
        generate_content_url(&self.config)
    }
}

// ---------------------------------------------------------------------------
// Outside computations
// ---------------------------------------------------------------------------

/// What std's `str::to_lowercase` gives for a character sequence (full
/// Unicode lower-casing).
pub uninterp spec fn lowercase_of(s: Seq<char>) -> Seq<char>;

/// What `serde_json::from_str::<String>` decodes from a text: the value of
/// the JSON string literal that is the whole text, or nothing.
pub uninterp spec fn json_string_value(s: Seq<char>) -> Option<Seq<char>>;

/// Unicode lower-casing (std `str::to_lowercase`). Claimed: the result is
/// `lowercase_of` of the argument; nothing more is said of it.
#[verifier::external_body]
pub(crate) fn to_lowercase(s: &str) -> (r: String)
    ensures
        r@ == lowercase_of(s@),
{
    s.to_lowercase()
}

/// Decodes a JSON string literal (`serde_json::from_str::<String>`).
/// Claimed: the result is `json_string_value` of the argument; which texts
/// decode, and to what, is left to that name.
#[verifier::external_body]
pub(crate) fn decode_json_string(s: &str) -> (r: Option<String>)
    ensures
        match r {
            Some(v) => json_string_value(s@) == Some(v@),
            None => json_string_value(s@) is None,
        },
{
    serde_json::from_str::<String>(s).ok()
}

// ---------------------------------------------------------------------------
// Reply cleaning
// ---------------------------------------------------------------------------

/// A model reply with the Markdown fence markers removed and trimmed.
pub open spec fn cleaned_reply(response: Seq<char>) -> Seq<char> {
    trim(replace_all(replace_all(response, "```json"@, ""@), "```"@, ""@))
}

/// Removes the Markdown fence markers (```` ```json ```` and ```` ``` ````)
/// from a model reply and trims it.
pub fn clean_response(response: &str) -> (r: String)
    ensures
        r@ == cleaned_reply(response@),
{
    let s = chars_of(response);
    let fence_json = chars_of("```json");
    let fence = chars_of("```");
    let empty: Vec<char> = Vec::new();
    proof {
        reveal_strlit("```json");
        reveal_strlit("```");
        reveal_strlit("");
        assert(empty@ =~= ""@);
    }
    let a = replace_all_exec(s.as_slice(), fence_json.as_slice(), empty.as_slice());
    let b = replace_all_exec(a.as_slice(), fence.as_slice(), empty.as_slice());
    let t = trim_exec(b.as_slice());
    string_from_chars(t.as_slice())
}

// ---------------------------------------------------------------------------
// Requests
// ---------------------------------------------------------------------------

/// Text of the verification prompt before the language note.
pub const VERIFY_PROMPT_HEAD: &'static str = "You are a strict verifier. Compare the provided LaTeX with the image. Do NOT fix the LaTeX; only point out mismatches. Return a strict JSON: {\n  \"status\": \"error|warning|ok\",\n  \"issues\": [{\"category\": \"missing_term|extra_term|symbol_mismatch|notation_mismatch|layout_mismatch|other\", \"message\": \"...\"}],\n  \"coverage\": {\"symbols_matched\": n, \"symbols_total\": n, \"terms_matched\": n, \"terms_total\": n}\n}.\nRules:\n- status=error if ANY mismatch that changes math meaning (missing/extra term, wrong symbol, wrong power/subscript, different operator).\n- status=warning for layout/formatting-only differences (line breaks, spacing) that do not change math.\n- status=ok only if visually and semantically equivalent.\n- Be concise but precise.\n";

/// Language note of the verification prompt, Chinese.
pub const VERIFY_NOTE_ZH: &'static str = "Output language: Simplified Chinese for 'issues[*].message'. Keys remain English.";

/// Language note of the verification prompt, English.
pub const VERIFY_NOTE_EN: &'static str = "Output language: English for 'issues[*].message'. Keys remain English.";

/// The structured verification prompt for a LaTeX text and a language tag.
pub open spec fn verification_prompt_text(latex: Seq<char>, language: Seq<char>) -> Seq<char> {
    let note = if language == "zh-CN"@ {
        VERIFY_NOTE_ZH@
    } else {
        VERIFY_NOTE_EN@
    };
    VERIFY_PROMPT_HEAD@ + note + "\nLaTeX to verify:\n"@ + latex
}

/// Builds the prompt of the structured verification (status, issues,
/// coverage) of `latex`.
pub fn build_verification_prompt(latex: &str, language: &str) -> (r: String)
    ensures
        r@ == verification_prompt_text(latex@, language@),
{
    let note = if crate::text::str_eq(language, "zh-CN") {
        VERIFY_NOTE_ZH
    } else {
        VERIFY_NOTE_EN
    };
    let mut r = concat3(VERIFY_PROMPT_HEAD, note, "\nLaTeX to verify:\n");
    r.append(latex);
    r
}

/// The models endpoint derived from a configured base URL: trailing `/`
/// removed, then `/models` appended when absent, preceded by `/v1beta` when
/// no version segment is present either.
pub open spec fn models_base(url: Seq<char>) -> Seq<char> {
    let b = trim_end_char(url, '/');
    if contains(b, "/models"@) {
        b
    } else if contains(b, "/v1beta"@) || contains(b, "/v1"@) {
        b + "/models"@
    } else {
        b + "/v1beta/models"@
    }
}

/// Completes a base URL that lacks the version or `models` segment.
pub fn canonical_models_base(api_base_url: &str) -> (r: String)
    ensures
        r@ == models_base(api_base_url@),
{
    let url = chars_of(api_base_url);
    let bv = trim_end_char_exec(url.as_slice(), '/');
    let b = string_from_chars(bv.as_slice());
    if str_contains(b.as_str(), "/models") {
        b
    } else if str_contains(b.as_str(), "/v1beta") || str_contains(b.as_str(), "/v1") {
        concat2(b.as_str(), "/models")
    } else {
        concat2(b.as_str(), "/v1beta/models")
    }
}

/// The URL of a content-generation request: the models endpoint, the model
/// name and `:generateContent`, with `?key=` and the key when one is set.
pub open spec fn request_url_text(base_url: Seq<char>, model: Seq<char>, key: Seq<char>) -> Seq<char> {
    let url = models_base(base_url) + "/"@ + model + ":generateContent"@;
    if key.len() == 0 {
        url
    } else {
        url + "?key="@ + key
    }
}

/// The URL a content-generation request is sent to.
pub fn generate_content_url(config: &LlmConfig) -> (r: String)
    ensures
        r@ == request_url_text(config.api_base_url@, config.model_name@, config.api_key@),
{
    let base = canonical_models_base(config.api_base_url.as_str());
    let mut url = concat3(base.as_str(), "/", config.model_name.as_str());
    url.append(":generateContent");
    if !config.api_key.as_str().is_empty() {
        url.append("?key=");
        url.append(config.api_key.as_str());
    }
    url
}

// ---------------------------------------------------------------------------
// Replies
// ---------------------------------------------------------------------------

/// The contents of an optional string.
pub open spec fn opt_view(o: Option<String>) -> Option<Seq<char>> {
    match o {
        Some(v) => Some(v@),
        None => None,
    }
}

/// Index of the quote that closes a JSON string whose contents start at
/// `i`, given whether the character before `i` is an unconsumed backslash.
pub open spec fn closing_quote(s: Seq<char>, i: int, escaped: bool) -> Option<int>
    decreases s.len() - i,
{
    if i < 0 || i >= s.len() {
        None
    } else if s[i] == '"' && !escaped {
        Some(i)
    } else {
        closing_quote(s, i + 1, s[i] == '\\' && !escaped)
    }
}

/// The number of backslashes that stand right before index `j`, counting
/// back no further than index `lo`.
pub open spec fn backslashes_before(s: Seq<char>, lo: int, j: int) -> nat
    decreases j - lo,
{
    if j > lo && s[j - 1] == '\\' {
        1 + backslashes_before(s, lo, j - 1)
    } else {
        0
    }
}

/// Index `j` (at or after `lo`, where a JSON string's contents start) holds
/// a quote that ends the string: a `"` preceded by an even number of
/// backslashes (each pair is one escaped backslash, which escapes nothing).
pub open spec fn closes_string(s: Seq<char>, lo: int, j: int) -> bool {
    &&& lo <= j < s.len()
    &&& s[j] == '"'
    &&& backslashes_before(s, lo, j) % 2 == 0
}

/// The closing quote found from `i` is the first quote at or after `i`
/// that closes a string whose contents start at `lo`, given that `escaped`
/// tells whether the backslashes right before `i` are odd in number and
/// that no closing quote lies between `lo` and `i`.
pub proof fn lemma_closing_quote_first_unescaped(s: Seq<char>, lo: int, i: int, escaped: bool)
    requires
        0 <= lo <= i,
        escaped == (backslashes_before(s, lo, i) % 2 == 1),
        forall|j: int| lo <= j < i ==> !closes_string(s, lo, j),
    ensures
        match closing_quote(s, i, escaped) {
            Some(e) => closes_string(s, lo, e) && forall|j: int| lo <= j < e ==> !closes_string(s, lo, j),
            None => forall|j: int| lo <= j ==> !closes_string(s, lo, j),
        },
    decreases s.len() - i,
{
    if i >= s.len() {
    } else if s[i] == '"' && !escaped {
    } else {
        assert(backslashes_before(s, lo, i + 1) == if s[i] == '\\' {
            1 + backslashes_before(s, lo, i)
        } else {
            0nat
        });
        assert(!closes_string(s, lo, i));
        lemma_closing_quote_first_unescaped(s, lo, i + 1, s[i] == '\\' && !escaped);
    }
}

/// Where the value of the `latex` key of a reply opens: the first `"` after
/// the first `:` that follows the first `"latex"`.
pub open spec fn latex_opening_quote(clean: Seq<char>) -> Option<int> {
    match find_from(clean, "\"latex\""@, 0) {
        None => None,
        Some(k) => match find_from(clean, seq![':'], k + "\"latex\""@.len()) {
            None => None,
            Some(colon) => find_from(clean, seq!['"'], colon + 1),
        },
    }
}

/// Where a lenient reading finds the `latex` value of a reply shaped like
/// `{"latex": "..."}`: after the first `"latex"`, the next `:`, then the
/// next `"` opens the value, and the first unescaped `"` after it closes it.
/// Gives the indices of the opening and the closing quote.
pub open spec fn relaxed_span(clean: Seq<char>) -> Option<(int, int)> {
    let key = "\"latex\""@;
    match find_from(clean, key, 0) {
        None => None,
        Some(k) => match find_from(clean, seq![':'], k + key.len()) {
            None => None,
            Some(colon) => match find_from(clean, seq!['"'], colon + 1) {
                None => None,
                Some(q) => match closing_quote(clean, q + 1, false) {
                    None => None,
                    Some(e) => Some((q, e)),
                },
            },
        },
    }
}

/// The LaTeX a lenient reading finds: the JSON string at `relaxed_span`,
/// decoded; whatever follows it (such as a stray `]`) is ignored.
pub open spec fn relaxed_latex(clean: Seq<char>) -> Option<Seq<char>> {
    match relaxed_span(clean) {
        Some((q, e)) => json_string_value(clean.subrange(q, e + 1)),
        None => None,
    }
}

/// Extending a text does not move a closing quote found in it.
pub proof fn lemma_closing_quote_extend(s: Seq<char>, t: Seq<char>, i: int, escaped: bool)
    ensures
        closing_quote(s, i, escaped) matches Some(e) ==> closing_quote(s + t, i, escaped) == Some(e),
    decreases s.len() - i,
{
    if 0 <= i < s.len() {
        assert((s + t)[i] == s[i]);
        if !(s[i] == '"' && !escaped) {
            lemma_closing_quote_extend(s, t, i + 1, s[i] == '\\' && !escaped);
        }
    }
}

/// Finds the opening and closing quotes of the `latex` value of a reply, as
/// a lenient reading does (see `relaxed_span`).
pub fn relaxed_latex_span(clean: &str) -> (r: Option<(usize, usize)>)
    ensures
        match r {
            Some((q, e)) => relaxed_span(clean@) == Some((q as int, e as int)),
            None => relaxed_span(clean@) is None,
        },
{
    let s = chars_of(clean);
    let key = chars_of("\"latex\"");
    let colon_pat = vec![':'];
    let quote_pat = vec!['"'];
    proof {
        lemma_find_from_found(s@, key@, 0);
    }
    let k = match find_from_exec(s.as_slice(), key.as_slice(), 0) {
        Some(k) => k,
        None => return None,
    };
    let start = k + key.len();
    proof {
        assert(colon_pat@ =~= seq![':']);
        assert(quote_pat@ =~= seq!['"']);
        lemma_find_from_found(s@, colon_pat@, start as int);
    }
    let colon = match find_from_exec(s.as_slice(), colon_pat.as_slice(), start) {
        Some(c) => c,
        None => return None,
    };
    assert(occurs_at(s@, colon_pat@, colon as int));
    assert(colon < s.len());
    proof {
        lemma_find_from_found(s@, quote_pat@, colon + 1);
    }
    let q = match find_from_exec(s.as_slice(), quote_pat.as_slice(), colon + 1) {
        Some(q) => q,
        None => return None,
    };
    assert(occurs_at(s@, quote_pat@, q as int));
    assert(q < s.len());
    let mut i = q + 1;
    let mut escaped = false;
    while i < s.len()
        invariant
            q < i <= s@.len(),
            closing_quote(s@, q + 1, false) == closing_quote(s@, i as int, escaped),
            relaxed_span(clean@) == match closing_quote(s@, q + 1, false) {
                None => None,
                Some(e) => Some((q as int, e)),
            },
        decreases s@.len() - i,
    {
        let c = s[i];
        if c == '"' && !escaped {
            return Some((q, i));
        }
        escaped = c == '\\' && !escaped;
        i = i + 1;
    }
    None
}

/// Reads the `latex` value out of a reply that is not valid JSON as a whole,
/// tolerating common defects such as a stray `]` after the string: the JSON
/// string at `relaxed_latex_span`, decoded by `serde_json`.
pub fn try_relaxed_extract_latex(clean: &str) -> (r: Option<String>)
    ensures
        opt_view(r) == relaxed_latex(clean@),
{
    match relaxed_latex_span(clean) {
        None => None,
        Some((q, e)) => {
            let s = chars_of(clean);
            proof {
                lemma_relaxed_span_bounds(clean@);
                assert(relaxed_span(clean@) == Some((q as int, e as int)));
            }
            assert(q < e < s.len());
            let lit = crate::text::slice_copy(s.as_slice(), q, e + 1);
            let lit_str = string_from_chars(lit.as_slice());
            decode_json_string(lit_str.as_str())
        },
    }
}

/// The quotes a lenient reading finds lie inside the text, in order.
pub proof fn lemma_relaxed_span_bounds(clean: Seq<char>)
    ensures
        relaxed_span(clean) matches Some((q, e)) ==> 0 <= q < e < clean.len(),
{
    let key = "\"latex\""@;
    if let Some((q, e)) = relaxed_span(clean) {
        lemma_find_from_found(clean, key, 0);
        let k = find_from(clean, key, 0)->0;
        lemma_find_from_found(clean, seq![':'], k + key.len());
        let colon = find_from(clean, seq![':'], k + key.len())->0;
        lemma_find_from_found(clean, seq!['"'], colon + 1);
        lemma_closing_quote_bound(clean, q + 1, false);
    }
}

/// A closing quote lies inside the text, at or after the start.
pub proof fn lemma_closing_quote_bound(s: Seq<char>, i: int, escaped: bool)
    ensures
        closing_quote(s, i, escaped) matches Some(e) ==> i <= e < s.len(),
    decreases s.len() - i,
{
    if 0 <= i < s.len() && !(s[i] == '"' && !escaped) {
        lemma_closing_quote_bound(s, i + 1, s[i] == '\\' && !escaped);
    }
}

/// Prefix of the error of a reply from which no LaTeX could be read.
pub const LATEX_PARSE_ERROR: &'static str = "Failed to parse latex-only content: ";

/// The outcome of the lenient reading: the LaTeX it found, or an error
/// quoting the cleaned reply.
pub fn relaxed_or_error(relaxed: Option<String>, clean: &str) -> (r: Result<String, String>)
    ensures
        match relaxed {
            Some(v) => r == Ok::<String, String>(v),
            None => r matches Err(e) && e@ == LATEX_PARSE_ERROR@ + clean@,
        },
{
    match relaxed {
        Some(decoded) => Ok(decoded),
        None => Err(concat2(LATEX_PARSE_ERROR, clean)),
    }
}

/// The result of a LaTeX extraction: the strict JSON reading when it
/// succeeded, else the lenient reading, else an error quoting the reply.
pub fn settle_extracted_latex(strict: Option<String>, clean: &str) -> (r: Result<String, String>)
    ensures
        match strict {
            Some(v) => r == Ok::<String, String>(v),
            None => match relaxed_latex(clean@) {
                Some(x) => r matches Ok(v) && v@ == x,
                None => r matches Err(e) && e@ == LATEX_PARSE_ERROR@ + clean@,
            },
        },
{
    match strict {
        Some(v) => Ok(v),
        None => relaxed_or_error(try_relaxed_extract_latex(clean), clean),
    }
}

/// An analysis with no content.
pub open spec fn is_empty_analysis(a: Analysis) -> bool {
    &&& a.summary@ == Seq::<char>::empty()
    &&& a.variables@.len() == 0
    &&& a.terms@.len() == 0
    &&& a.suggestions@.len() == 0
}

/// The reply to an analysis prompt holds a LaTeX answer instead of an
/// analysis.
pub open spec fn is_latex_only_reply(clean: Seq<char>) -> bool {
    contains(clean, "\"latex\""@) && !contains(clean, "\"analysis\""@)
}

/// When a model answered the analysis prompt with `{"latex": ...}`, the
/// placeholder result: the title "Untitled formula" and an empty analysis.
pub fn misdirected_analysis(clean: &str) -> (r: Option<(String, Analysis)>)
    ensures
        r is Some <==> is_latex_only_reply(clean@),
        r matches Some(p) ==> p.0@ == "Untitled formula"@ && is_empty_analysis(p.1),
{
    if str_contains(clean, "\"latex\"") && !str_contains(clean, "\"analysis\"") {
        Some(
            (
                owned("Untitled formula"),
                Analysis {
                    summary: String::new(),
                    variables: Vec::new(),
                    terms: Vec::new(),
                    suggestions: Vec::new(),
                },
            ),
        )
    } else {
        None
    }
}

/// The text of the first part of the first candidate of a reply, given as
/// the part texts of each candidate.
pub fn first_candidate_text(candidates: &Vec<Vec<String>>) -> (r: Option<String>)
    ensures
        opt_view(r) == if candidates@.len() > 0 && candidates@[0]@.len() > 0 {
            Some(candidates@[0]@[0]@)
        } else {
            None::<Seq<char>>
        },
{
    if candidates.len() > 0 && candidates[0].len() > 0 {
        Some(candidates[0][0].clone())
    } else {
        None
    }
}

/// The text of the first part of the first candidate of a reply to the
/// stage named `stage`, given as the part texts of each candidate when the
/// reply parsed (`None` when it did not).
pub fn stage_reply_text(candidates: Option<Vec<Vec<String>>>, stage: &str) -> (r: Result<String, String>)
    ensures
        match candidates {
            None => r matches Err(e) && e@ == "Failed to parse Gemini response for "@ + stage@,
            Some(c) => if c@.len() > 0 && c@[0]@.len() > 0 {
                r matches Ok(t) && t@ == c@[0]@[0]@
            } else {
                r matches Err(e) && e@ == "Gemini returned no text for "@ + stage@
            },
        },
{
    match candidates {
        None => Err(concat2("Failed to parse Gemini response for ", stage)),
        Some(c) => match first_candidate_text(&c) {
            Some(t) => Ok(t),
            None => Err(concat2("Gemini returned no text for ", stage)),
        },
    }
}

/// The text sent to score a LaTeX string: the prompt, a blank line, and
/// `LaTeX to evaluate: ` followed by the LaTeX.
pub fn evaluation_text(prompt: &str, latex: &str) -> (r: String)
    ensures
        r@ == prompt@ + "\n\nLaTeX to evaluate: "@ + latex@,
{
    let mut r = concat2(prompt, "\n\nLaTeX to evaluate: ");
    r.append(latex);
    r
}

/// What `serde_json` finds as the finish reason of a raw reply: nothing when
/// the reply is not JSON (`from_str::<serde_json::Value>` fails); otherwise
/// the string at `candidates[0].finishReason`, when there is one.
pub uninterp spec fn json_finish_reason(raw: Seq<char>) -> Option<Option<Seq<char>>>;

/// Parses a raw reply as JSON (`serde_json::from_str::<serde_json::Value>`)
/// and picks the string at `candidates[0].finishReason`. Claimed: the result
/// is `json_finish_reason` of the reply.
#[verifier::external_body]
fn read_finish_reason(raw: &str) -> (r: Option<Option<String>>)
    ensures
        match r {
            None => json_finish_reason(raw@) is None,
            Some(f) => json_finish_reason(raw@) == Some(opt_view(f)),
        },
{
    let v: serde_json::Value = serde_json::from_str(raw).ok()?;
    Some(
        v.get("candidates").and_then(|c| c.get(0)).and_then(|c0| c0.get("finishReason")).and_then(
            |fr| fr.as_str(),
        ).map(|fr| fr.to_string()),
    )
}

/// The error text of a reply with no text, given what was read of its finish
/// reason: a reply that is not JSON is a parse error quoting it; otherwise
/// the no-text error with the finish reason.
pub fn no_text_error_from(reason: Option<Option<String>>, raw: &str) -> (r: String)
    ensures
        match reason {
            None => r@ == "Failed to parse Gemini API response JSON: "@ + raw@,
            Some(f) => r@ == "Gemini returned no text (finishReason: "@ + match f {
                Some(t) => t@,
                None => "unknown"@,
            } + "). Raw: "@ + raw@,
        },
{
    match reason {
        None => concat2("Failed to parse Gemini API response JSON: ", raw),
        Some(Some(t)) => no_text_message(Some(t.as_str()), raw),
        Some(None) => no_text_message(None, raw),
    }
}

/// The error text of a free-text reply that holds no text.
pub fn no_text_error(raw: &str) -> (r: String)
    ensures
        match json_finish_reason(raw@) {
            None => r@ == "Failed to parse Gemini API response JSON: "@ + raw@,
            Some(f) => r@ == "Gemini returned no text (finishReason: "@ + match f {
                Some(t) => t,
                None => "unknown"@,
            } + "). Raw: "@ + raw@,
        },
{
    no_text_error_from(read_finish_reason(raw), raw)
}

/// Error text of a request that could not be sent.
pub const SEND_FAILURE: &'static str = "Failed to send request to Gemini API";

/// Error text of a request the service refused: its status (code and
/// reason, such as `429 Too Many Requests`) and the reply body.
pub open spec fn refusal_text(status: Seq<char>, body: Seq<char>) -> Seq<char> {
    "API request failed with status "@ + status + ": "@ + body
}

/// The body of a reply when its status code is a success (2xx), else the
/// refusal error naming the status (`status` is its display text).
pub fn reply_or_refusal(code: u16, status: &str, body: String) -> (r: Result<String, String>)
    ensures
        200 <= code < 300 ==> r == Ok::<String, String>(body),
        !(200 <= code < 300) ==> (r matches Err(e) && e@ == refusal_text(status@, body@)),
{
    if 200 <= code && code < 300 {
        Ok(body)
    } else {
        let mut e = concat3("API request failed with status ", status, ": ");
        e.append(body.as_str());
        Err(e)
    }
}

/// The error for a reply with no text: its finish reason (`unknown` when
/// absent) and the raw reply.
pub fn no_text_message(finish_reason: Option<&str>, raw: &str) -> (r: String)
    ensures
        r@ == "Gemini returned no text (finishReason: "@ + match finish_reason {
            Some(f) => f@,
            None => "unknown"@,
        } + "). Raw: "@ + raw@,
{
    let reason = match finish_reason {
        Some(f) => f,
        None => "unknown",
    };
    let mut r = concat3("Gemini returned no text (finishReason: ", reason, "). Raw: ");
    r.append(raw);
    r
}

// ---------------------------------------------------------------------------
// Retry policy
// ---------------------------------------------------------------------------

/// The retry rule over an error message and its lower-cased form: an HTTP
/// status 429 or 5xx gateway status, or a transport failure, calls for
/// another attempt unless the request was cancelled.
pub open spec fn retry_rule(msg: Seq<char>, lower: Seq<char>) -> bool {
    let http = contains(msg, "status 429"@) || contains(msg, "status 500"@) || contains(
        msg,
        "status 502"@,
    ) || contains(msg, "status 503"@) || contains(msg, "status 504"@);
    let transport = contains(msg, "Failed to send request"@) || contains(lower, "timeout"@)
        || contains(lower, "timed out"@) || contains(lower, "connection reset"@) || contains(
        lower,
        "temporarily unavailable"@,
    );
    let cancelled = contains(lower, "context canceled"@) || contains(msg, "status 499"@);
    (http || transport) && !cancelled
}

/// An error message calls for another attempt: the retry rule applied to
/// the message and its Unicode lower-casing.
pub open spec fn is_retryable_message(msg: Seq<char>) -> bool {
    retry_rule(msg, lowercase_of(msg))
}

/// Applies the retry rule to an error message and its lower-cased form.
pub fn classify_retry(message: &str, lower: &str) -> (r: bool)
    ensures
        r == retry_rule(message@, lower@),
{
    let http = str_contains(message, "status 429") || str_contains(message, "status 500")
        || str_contains(message, "status 502") || str_contains(message, "status 503")
        || str_contains(message, "status 504");
    let transport = str_contains(message, "Failed to send request") || str_contains(
        lower,
        "timeout",
    ) || str_contains(lower, "timed out") || str_contains(lower, "connection reset")
        || str_contains(lower, "temporarily unavailable");
    let cancelled = str_contains(lower, "context canceled") || str_contains(message, "status 499");
    (http || transport) && !cancelled
}

/// Whether an error message calls for another attempt.
pub fn should_retry(message: &str) -> (r: bool)
    ensures
        r == is_retryable_message(message@),
{
    let lower = to_lowercase(message);
    classify_retry(message, lower.as_str())
}

/// The wait before a new attempt.
#[derive(Debug, Clone, Copy)]
pub struct RetryDelay {
    /// Number of this attempt (1 for the first retry).
    pub attempt: u32,
    /// Whole seconds of the wait.
    pub secs: u64,
    /// Extra milliseconds of the wait.
    pub millis: u64,
}

/// `2^n` as a `u64` computed with wrapping (0 from 64 on).
pub open spec fn wrapping_pow2(n: nat) -> nat {
    if n < 64 {
        pow2(n)
    } else {
        0
    }
}

/// Exponential back-off: `2^attempt` seconds plus `attempt * 137 mod 1000`
/// milliseconds of pseudo-jitter.
pub fn backoff_delay(attempt: u32) -> (r: RetryDelay)
    ensures
        r.attempt == attempt,
        r.secs == wrapping_pow2(attempt as nat),
        r.millis == (attempt * 137) % 1000,
{
    let secs: u64 = if attempt < 64 {
        proof {
            vstd::bits::lemma_u64_pow2_no_overflow(attempt as nat);
            vstd::bits::lemma_u64_shl_is_mul(1, attempt as u64);
        }
        1u64 << (attempt as u64)
    } else {
        0
    };
    let millis: u64 = (attempt as u64 * 137) % 1000;
    RetryDelay { attempt, secs, millis }
}

/// The retry decision after a failed attempt: with `attempts` retries made
/// so far, another one follows (after the returned delay) when the error is
/// retryable and fewer than `max_retries` retries were made.
pub fn next_retry(message: &str, attempts: u32, max_retries: u32) -> (r: Option<RetryDelay>)
    ensures
        r is Some <==> is_retryable_message(message@) && attempts < max_retries,
        r matches Some(d) ==> d.attempt == attempts + 1 && d.secs == wrapping_pow2(
            (attempts + 1) as nat,
        ) && d.millis == ((attempts + 1) * 137) % 1000,
        r matches Some(d) ==> d.attempt <= max_retries,
{
    if should_retry(message) && attempts < max_retries {
        Some(backoff_delay(attempts + 1))
    } else {
        None
    }
}

} // verus!
