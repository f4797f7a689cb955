//! The translator collaborator's verified half: request preparation
//! (validation, prompt building, endpoint URL), interpretation of the batch
//! response, extraction of the token count, the server-sent-events line
//! framing of the streaming response, and the throughput figure.
//!
//! The network call itself and the JSON wire shape are outside this core;
//! the driver performs them and hands plain values back.

use vstd::prelude::*;
use crate::error::AppError;
use crate::error::ErrKind;
use crate::error::ErrModel;
use crate::error::err_model;
use crate::textops::spec_is_ws;
use crate::textops::char_is_ws;
use crate::textops::spec_replace;
use crate::textops::replace_all;
use crate::textops::spec_find;
use crate::textops::find_str;
use crate::textops::str_match_at;
use crate::textops::spec_trim;
use crate::textops::trim_str;
use crate::textops::spec_trim_end_char;
use crate::textops::trim_end_char;
use crate::textops::str_eq;

verus! {

/// Outcome of one batch translation, with its performance figures.
#[derive(Debug)]
pub struct TranslationResult {
    /// The translated text, trimmed.
    pub translated_text: String,
    /// Tokens the model generated, when the backend reported usage.
    pub completion_tokens: Option<u32>,
    /// Wall-clock duration of the request, in milliseconds.
    pub duration_ms: u64,
    /// Output rate in thousandths of tokens per second, when the token
    /// count is known.
    pub tokens_per_second_milli: Option<u64>,
}

/// One event of a streaming translation.
#[derive(Debug)]
pub enum StreamEvent {
    /// An incremental text fragment.
    Delta(String),
    /// The stream finished; carries the final statistics.
    Done {
        /// Tokens the model generated, when the backend reported usage.
        completion_tokens: Option<u32>,
        /// Wall-clock duration of the stream, in milliseconds.
        duration_ms: u64,
    },
    /// The stream failed; carries the error text.
    Error(String),
}

/// The output rate in thousandths of tokens per second: `tokens * 1000000 /
/// duration_ms`, zero when the duration is zero.
pub open spec fn spec_tps_milli(tokens: u32, duration_ms: u64) -> u64 {
    if duration_ms > 0 {
        ((tokens * 1000000) / (duration_ms as int)) as u64
    } else {
        0
    }
}

/// Output rate in thousandths of tokens per second.
pub fn tokens_per_second_milli(tokens: u32, duration_ms: u64) -> (r: u64)
    ensures
        r == spec_tps_milli(tokens, duration_ms),
{
    if duration_ms > 0 {
        ((tokens as u64) * 1000000) / duration_ms
    } else {
        0
    }
}

/// The user prompt: the template with `{target_language}` and then `{text}`
/// substituted.
pub open spec fn spec_user_prompt(
    template: Seq<char>,
    target_language: Seq<char>,
    text: Seq<char>,
) -> Seq<char> {
    spec_replace(
        spec_replace(template, "{target_language}"@, target_language),
        "{text}"@,
        text,
    )
}

/// Builds the user prompt from the configured template.
pub fn build_user_prompt(template: &str, target_language: &str, text: &str) -> (r: String)
    ensures
        r@ == spec_user_prompt(template@, target_language@, text@),
{
    let step = replace_all(template, "{target_language}", target_language);
    replace_all(step.as_str(), "{text}", text)
}

/// Whether `c` is a decimal digit.
pub open spec fn spec_is_digit(c: char) -> bool {
    '0' <= c && c <= '9'
}

/// The value of a digit character.
pub open spec fn spec_digit_val(c: char) -> int {
    c as int - '0' as int
}

/// The number the digit characters spell, most significant first.
pub open spec fn spec_digits_val(ds: Seq<char>) -> int
    decreases ds.len(),
{
    if ds.len() == 0 {
        0
    } else {
        spec_digits_val(ds.drop_last()) * 10 + spec_digit_val(ds.last())
    }
}

/// The digit characters the token scanner collects: after the first colon
/// it gathers digits, skips whitespace, and stops at anything else.
pub open spec fn spec_scan_tokens(s: Seq<char>, found_colon: bool) -> Seq<char>
    decreases s.len(),
{
    if s.len() == 0 {
        Seq::empty()
    } else {
        let c = s[0];
        if c == ':' {
            spec_scan_tokens(s.skip(1), true)
        } else if found_colon && spec_is_digit(c) {
            seq![c] + spec_scan_tokens(s.skip(1), true)
        } else if found_colon && !spec_is_ws(c) {
            Seq::empty()
        } else {
            spec_scan_tokens(s.skip(1), found_colon)
        }
    }
}

/// The token count the fallback scanner reads out of a raw response body:
/// the digits after the colon that follows the first occurrence of the
/// quoted `completion_tokens` key; absent when the key is missing, no
/// digits follow, or the number overflows.
pub open spec fn spec_extract_completion_tokens(s: Seq<char>) -> Option<u32> {
    match spec_find(s, "\"completion_tokens\""@) {
        None => None,
        Some(p) => {
            let ds = spec_scan_tokens(s.skip(p), false);
            if ds.len() == 0 {
                None
            } else if spec_digits_val(ds) > u32::MAX {
                None
            } else {
                Some(spec_digits_val(ds) as u32)
            }
        },
    }
}

/// Reads the `completion_tokens` count out of a raw response body, for
/// backends whose parsed usage lacks it.
pub fn extract_completion_tokens(response_text: &str) -> (r: Option<u32>)
    ensures
        r == spec_extract_completion_tokens(response_text@),
{
    let pat = "\"completion_tokens\"";
    let found_at = find_str(response_text, pat);
    match found_at {
        None => None,
        Some(p) => {
            let len = response_text.unicode_len();
            proof {
                crate::textops::lemma_find_in_bounds(response_text@, pat@);
            }
            let mut j: usize = p;
            let mut found: bool = false;
            let mut stop: bool = false;
            let mut val: u64 = 0;
            let mut ndigits: usize = 0;
            let ghost mut ds: Seq<char> = Seq::empty();
            proof {
                assert(ds + spec_scan_tokens(response_text@.skip(p as int), false)
                    =~= spec_scan_tokens(response_text@.skip(p as int), false));
            }
            while j < len && !stop
                invariant
                    p <= j <= len,
                    len == response_text@.len(),
                    ndigits <= j,
                    ndigits == ds.len(),
                    spec_scan_tokens(response_text@.skip(p as int), false) == ds
                        + spec_scan_tokens(response_text@.skip(j as int), found),
                    stop ==> spec_scan_tokens(response_text@.skip(j as int), found)
                        =~= Seq::<char>::empty(),
                    val <= u32::MAX as u64 + 1,
                    spec_digits_val(ds) <= u32::MAX ==> val == spec_digits_val(ds),
                    spec_digits_val(ds) > u32::MAX ==> val == u32::MAX as u64 + 1,
                decreases len - j + (if stop { 0int } else { 1int }),
            {
                let c = response_text.get_char(j);
                proof {
                    assert(response_text@.skip(j as int)[0] == response_text@[j as int]);
                    assert(response_text@.skip(j as int).skip(1) =~= response_text@.skip(
                        (j + 1) as int,
                    ));
                }
                if c == ':' {
                    found = true;
                    j += 1;
                } else if found && '0' <= c && c <= '9' {
                    let d = (c as u32 - '0' as u32) as u64;
                    if val * 10 + d > u32::MAX as u64 {
                        val = u32::MAX as u64 + 1;
                    } else {
                        val = val * 10 + d;
                    }
                    ndigits += 1;
                    proof {
                        let ds2 = ds.push(c);
                        assert(ds2.drop_last() =~= ds);
                        assert(ds2.last() == c);
                        assert(seq![c] + spec_scan_tokens(
                            response_text@.skip((j + 1) as int),
                            true,
                        ) == spec_scan_tokens(response_text@.skip(j as int), found));
                        assert(ds + (seq![c] + spec_scan_tokens(
                            response_text@.skip((j + 1) as int),
                            true,
                        )) =~= ds2 + spec_scan_tokens(response_text@.skip((j + 1) as int), true));
                        ds = ds2;
                    }
                    found = true;
                    j += 1;
                } else if found && !char_is_ws(c) {
                    stop = true;
                } else {
                    j += 1;
                }
            }
            proof {
                if !stop {
                    assert(response_text@.skip(j as int) =~= Seq::<char>::empty());
                }
                assert(ds + spec_scan_tokens(response_text@.skip(j as int), found) =~= ds);
            }
            if ndigits == 0 {
                None
            } else if val > u32::MAX as u64 {
                None
            } else {
                Some(val as u32)
            }
        },
    }
}

/// The chat-completions endpoint under `base_url`, trailing slashes
/// removed.
pub open spec fn spec_chat_completions_url(base_url: Seq<char>) -> Seq<char> {
    spec_trim_end_char(base_url, '/') + "/chat/completions"@
}

/// The chat-completions endpoint under `base_url`.
pub fn chat_completions_url(base_url: &str) -> (r: String)
    ensures
        r@ == spec_chat_completions_url(base_url@),
{
    let mut s = trim_end_char(base_url, '/');
    s.append("/chat/completions");
    s
}

/// The translator settings the pipeline's decisions read.  Sampling
/// parameters ride along in the driver's configuration; the logic here
/// never reads them.
#[derive(Debug, Clone)]
pub struct LlmSettings {
    /// Base URL of the OpenAI-compatible API.
    pub base_url: String,
    /// The bearer token; empty means unconfigured.
    pub api_key: String,
    /// The model name.
    pub model: String,
    /// The system prompt.
    pub system_prompt: String,
    /// The user prompt template with `{target_language}` and `{text}`
    /// placeholders.
    pub user_prompt_template: String,
}

/// Everything a batch or streaming request needs that verified code
/// decides: the endpoint, the model, and the two prompts.
#[derive(Debug)]
pub struct PreparedRequest {
    /// The chat-completions endpoint.
    pub url: String,
    /// The model name.
    pub model: String,
    /// The system prompt.
    pub system_prompt: String,
    /// The substituted user prompt.
    pub user_prompt: String,
}

/// Checks the settings a connection test needs: a key and a base URL.
pub fn validate_connection_settings(cfg: &LlmSettings) -> (r: Result<(), AppError>)
    ensures
        cfg.api_key@.len() == 0 ==> (r matches Err(e) && err_model(e) == (ErrModel {
            kind: ErrKind::Config,
            msg: "API Key 不能为空"@,
        })),
        cfg.api_key@.len() > 0 && cfg.base_url@.len() == 0 ==> (r matches Err(e)
            && err_model(e) == (ErrModel { kind: ErrKind::Config, msg: "Base URL 不能为空"@ })),
        cfg.api_key@.len() > 0 && cfg.base_url@.len() > 0 ==> r is Ok,
{
    if cfg.api_key.as_str().is_empty() {
        Err(AppError::Config(String::from_str("API Key 不能为空")))
    } else if cfg.base_url.as_str().is_empty() {
        Err(AppError::Config(String::from_str("Base URL 不能为空")))
    } else {
        Ok(())
    }
}

/// Prepares a translation request: refuses an unconfigured key, else
/// yields the endpoint and prompts.
pub fn prepare_translation(cfg: &LlmSettings, text: &str, target_language: &str) -> (r:
    Result<PreparedRequest, AppError>)
    ensures
        cfg.api_key@.len() == 0 ==> (r matches Err(e) && err_model(e) == (ErrModel {
            kind: ErrKind::Config,
            msg: "API Key 未配置"@,
        })),
        cfg.api_key@.len() > 0 ==> (r matches Ok(p) && p.url@ == spec_chat_completions_url(
            cfg.base_url@,
        ) && p.model@ == cfg.model@ && p.system_prompt@ == cfg.system_prompt@
            && p.user_prompt@ == spec_user_prompt(
            cfg.user_prompt_template@,
            target_language@,
            text@,
        )),
{
    if cfg.api_key.as_str().is_empty() {
        return Err(AppError::Config(String::from_str("API Key 未配置")));
    }
    let url = chat_completions_url(cfg.base_url.as_str());
    let user_prompt = build_user_prompt(
        cfg.user_prompt_template.as_str(),
        target_language,
        text,
    );
    Ok(PreparedRequest {
        url,
        model: cfg.model.clone(),
        system_prompt: cfg.system_prompt.clone(),
        user_prompt,
    })
}

/// Interprets what came back from a batch translation call.  The driver
/// reports the HTTP status, the error message it parsed out of a failure
/// body (if any), its parse of the success body (first choice content and
/// usage), and the raw body for the token-count fallback.
pub fn interpret_batch_response(
    status_ok: bool,
    status_display: &str,
    api_error_message: Option<String>,
    parse_error: Option<String>,
    first_choice_content: Option<String>,
    usage_completion_tokens: Option<u32>,
    raw_body: &str,
    duration_ms: u64,
) -> (r: Result<TranslationResult, AppError>)
    ensures
        api_error_message matches Some(m) ==> (!status_ok ==> (r matches Err(e)
            && err_model(e) == (ErrModel { kind: ErrKind::LlmApi, msg: m@ }))),
        !status_ok && api_error_message is None ==> (r matches Err(e) && err_model(e) == (
        ErrModel { kind: ErrKind::LlmApi, msg: "翻译请求失败 ("@ + status_display@ + ")"@ })),
        parse_error matches Some(pe) ==> (status_ok ==> (r matches Err(e) && err_model(e)
            == (ErrModel { kind: ErrKind::LlmApi, msg: "解析翻译响应失败: "@ + pe@ }))),
        status_ok && parse_error is None && first_choice_content is None ==> (r matches Err(e)
            && err_model(e) == (ErrModel { kind: ErrKind::LlmApi, msg: "翻译 API 返回空响应"@ })),
        first_choice_content matches Some(c) ==> (status_ok && parse_error is None ==> (r
            matches Ok(t) && t.translated_text@ == spec_trim(c@) && t.completion_tokens == (
        if usage_completion_tokens is Some {
            usage_completion_tokens
        } else {
            spec_extract_completion_tokens(raw_body@)
        }) && t.duration_ms == duration_ms && t.tokens_per_second_milli == (
        match (if usage_completion_tokens is Some {
            usage_completion_tokens
        } else {
            spec_extract_completion_tokens(raw_body@)
        }) {
            Some(tk) => Some(spec_tps_milli(tk, duration_ms)),
            None => None::<u64>,
        }))),
{
    if !status_ok {
        return match api_error_message {
            Some(m) => Err(AppError::LlmApi(m)),
            None => {
                let mut t = String::from_str("翻译请求失败 (");
                t.append(status_display);
                t.append(")");
                Err(AppError::LlmApi(t))
            },
        };
    }
    if let Some(pe) = parse_error {
        let mut t = String::from_str("解析翻译响应失败: ");
        t.append(pe.as_str());
        return Err(AppError::LlmApi(t));
    }
    match first_choice_content {
        None => Err(AppError::LlmApi(String::from_str("翻译 API 返回空响应"))),
        Some(c) => {
            let translated = trim_str(c.as_str());
            let completion_tokens = match usage_completion_tokens {
                Some(tk) => Some(tk),
                None => extract_completion_tokens(raw_body),
            };
            let tokens_per_second_milli = match completion_tokens {
                Some(tk) => Some(tokens_per_second_milli(tk, duration_ms)),
                None => None,
            };
            Ok(TranslationResult {
                translated_text: translated,
                completion_tokens,
                duration_ms,
                tokens_per_second_milli,
            })
        },
    }
}

/// One line of a server-sent-events stream, classified.
#[derive(Debug)]
pub enum SseLine {
    /// An empty line, the end marker, or a line without the data prefix:
    /// nothing to process.
    Skip,
    /// The JSON payload after the `data: ` prefix.
    Payload(String),
}

/// Splits the byte stream of a streaming response into lines, holding the
/// tail that is not yet terminated.
#[derive(Debug)]
pub struct SseLineBuffer {
    /// Text received but not yet consumed as complete lines.
    pub buf: String,
}

impl SseLineBuffer {
    /// An empty buffer.
    pub fn new() -> (r: Self)
        ensures
            r.buf@ == Seq::<char>::empty(),
    {
        SseLineBuffer { buf: String::new() }
    }

    /// Appends a received chunk.
    pub fn push_chunk(&mut self, chunk: &str)
        ensures
            final(self).buf@ == old(self).buf@ + chunk@,
    {
        self.buf.append(chunk);
    }

    /// Takes the next complete line, trimmed, off the buffer.
    pub fn next_line(&mut self) -> (r: Option<String>)
        ensures
            match spec_find(old(self).buf@, "\n"@) {
                Some(i) => (r matches Some(line) && line@ == spec_trim(
                    old(self).buf@.take(i),
                ) && final(self).buf@ == old(self).buf@.skip(i + 1)),
                None => r is None && final(self).buf@ == old(self).buf@,
            },
{
        proof {
            reveal_strlit("\n");
        }
        let found = find_str(self.buf.as_str(), "\n");
        match found {
            None => None,
            Some(i) => {
                proof {
                    crate::textops::lemma_find_in_bounds(self.buf@, "\n"@);
                }
                let len = self.buf.unicode_len();
                let line = trim_str(self.buf.as_str().substring_char(0, i));
                let rest = String::from_str(self.buf.as_str().substring_char(i + 1, len));
                proof {
                    assert(self.buf@.subrange(0, i as int) =~= self.buf@.take(i as int));
                    assert(self.buf@.subrange((i + 1) as int, len as int) =~= self.buf@.skip(
                        (i + 1) as int,
                    ));
                }
                self.buf = rest;
                Some(line)
            },
        }
    }
}

/// Classifies one stream line: empty lines, the end marker, and lines
/// without the data prefix are skipped; the payload follows `data: `.
pub fn classify_sse_line(line: &str) -> (r: SseLine)
    ensures
        (line@.len() == 0 || line@ == "data: [DONE]"@) ==> r is Skip,
        line@.len() != 0 && line@ != "data: [DONE]"@ && line@.len() >= 6 && line@.take(6)
            == "data: "@ ==> (r matches SseLine::Payload(p) && p@ == line@.skip(6)),
        line@.len() != 0 && line@ != "data: [DONE]"@ && !(line@.len() >= 6 && line@.take(6)
            == "data: "@) ==> r is Skip,
{
    proof {
        reveal_strlit("data: ");
    }
    if line.is_empty() || str_eq(line, "data: [DONE]") {
        return SseLine::Skip;
    }
    let len = line.unicode_len();
    if len >= 6 && str_match_at(line, 0, "data: ", 6) {
        proof {
            assert(line@.subrange(0, 6) =~= line@.take(6));
        }
        SseLine::Payload(String::from_str(line.substring_char(6, len)))
    } else {
        proof {
            if len >= 6 {
                assert(line@.subrange(0, 6) =~= line@.take(6));
            }
        }
        SseLine::Skip
    }
}

} // verus!
