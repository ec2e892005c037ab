use vstd::prelude::*;
use vstd::string::StringExecFns;

use crate::dispatch::{is_success_status, spec_is_success};
use crate::record::{spec_duration_ms, RequestRecord};

verus! {

/// Token counts reported by the upstream server, each optional.
#[derive(Clone, Copy, Debug)]
pub struct Usage {
    pub prompt_tokens: Option<i64>,
    pub completion_tokens: Option<i64>,
    pub total_tokens: Option<i64>,
}

/// One choice of an upstream reply: the assistant text may arrive as a
/// message content, a bare text field, or a delta content; the extraction is
/// an ordered fallback over these optional fields.
#[derive(Clone, Debug)]
pub struct Choice {
    pub message_content: Option<String>,
    pub text: Option<String>,
    pub delta_content: Option<String>,
    pub finish_reason: Option<String>,
}

/// The scalar part of a parsed upstream reply: its id, model and usage.
#[derive(Clone, Debug)]
pub struct UpstreamHead {
    pub id: Option<String>,
    pub model: Option<String>,
    pub usage: Option<Usage>,
}

/// A parsed non-streaming upstream reply. Read-only: the client always gets
/// the original raw bytes, never a re-encoding of this value.
#[derive(Clone, Debug)]
pub struct UpstreamResponse {
    pub id: Option<String>,
    pub model: Option<String>,
    pub choices: Vec<Choice>,
    pub usage: Option<Usage>,
}

/// The id, model and usage read from an upstream reply body, or nothing when
/// the body is not JSON. Left uninterpreted: the JSON grammar lives in an
/// outside crate.
pub uninterp spec fn upstream_head_of(s: Seq<char>) -> Option<UpstreamHead>;

/// The choices read from an upstream reply body, or nothing when the body is
/// not JSON or carries no choices list. Left uninterpreted as above.
pub uninterp spec fn upstream_choices_of(s: Seq<char>) -> Option<Vec<Choice>>;

#[verifier::external_type_specification]
#[verifier::external_body]
pub struct ExValue(serde_json::Value);

/// Relies on serde_json field lookup: reads the three counts of a usage
/// object. Carries no contract of its own; the parsers built on it name
/// their whole outcome instead.
#[verifier::external_body]
pub(crate) fn usage_from(v: &serde_json::Value) -> Usage {
    Usage {
        prompt_tokens: v.get("prompt_tokens").and_then(|x| x.as_i64()),
        completion_tokens: v.get("completion_tokens").and_then(|x| x.as_i64()),
        total_tokens: v.get("total_tokens").and_then(|x| x.as_i64()),
    }
}

/// Relies on serde_json field lookup: reads the optional text fields of one
/// choice object. Carries no contract of its own; the parsers built on it
/// name their whole outcome instead.
#[verifier::external_body]
fn choice_from(c: &serde_json::Value) -> Choice {
    Choice {
        message_content: c.get("message").and_then(|m| m.get("content")).and_then(|x| x.as_str()).map(|x| x.to_string()),
        text: c.get("text").and_then(|x| x.as_str()).map(|x| x.to_string()),
        delta_content: c.get("delta").and_then(|d| d.get("content")).and_then(|x| x.as_str()).map(|x| x.to_string()),
        finish_reason: c.get("finish_reason").and_then(|x| x.as_str()).map(|x| x.to_string()),
    }
}

/// Relies on serde_json: `from_str` to read the body as a JSON value and
/// field lookup for `id`, `model` and the `usage` counts. Deterministic, so
/// the result is a function of the body text alone.
#[verifier::external_body]
fn parse_response_head(s: &str) -> (r: Option<UpstreamHead>)
    ensures
        r == upstream_head_of(s@),
{
    let v: serde_json::Value = match serde_json::from_str(s) {
        Ok(v) => v,
        Err(_) => return None,
    };
    Some(UpstreamHead {
        id: v.get("id").and_then(|x| x.as_str()).map(|x| x.to_string()),
        model: v.get("model").and_then(|x| x.as_str()).map(|x| x.to_string()),
        usage: v.get("usage").map(|u| usage_from(u)),
    })
}

/// Relies on serde_json: `from_str` to read the body as a JSON value and
/// field lookup inside each element of its `choices` list. Deterministic, so
/// the result is a function of the body text alone.
#[verifier::external_body]
fn parse_response_choices(s: &str) -> (r: Option<Vec<Choice>>)
    ensures
        r == upstream_choices_of(s@),
{
    let v: serde_json::Value = match serde_json::from_str(s) {
        Ok(v) => v,
        Err(_) => return None,
    };
    let arr = match v.get("choices").and_then(|c| c.as_array()) {
        Some(a) => a,
        None => return None,
    };
    Some(arr.iter().map(|c| choice_from(c)).collect())
}

/// The reply parsed from an upstream body: present exactly when both the body
/// is JSON and it carries a choices list.
pub open spec fn upstream_response_of(s: Seq<char>) -> Option<UpstreamResponse> {
    match (upstream_head_of(s), upstream_choices_of(s)) {
        (Some(h), Some(cs)) => Some(
            UpstreamResponse { id: h.id, model: h.model, choices: cs, usage: h.usage },
        ),
        _ => None,
    }
}

/// Parses a buffered upstream body into its reply shape.
pub fn parse_upstream_response(s: &str) -> (r: Option<UpstreamResponse>)
    ensures
        r == upstream_response_of(s@),
{
    let head = parse_response_head(s);
    let choices = parse_response_choices(s);
    match (head, choices) {
        (Some(h), Some(cs)) => Some(
            UpstreamResponse { id: h.id, model: h.model, choices: cs, usage: h.usage },
        ),
        _ => None,
    }
}

/// The assistant text of a reply: the first choice's message content, else
/// its bare text field, else empty.
pub open spec fn spec_extract_output(choices: Seq<Choice>) -> Seq<char> {
    if choices.len() > 0 {
        let c = choices[0];
        if c.message_content is Some {
            c.message_content->Some_0@
        } else if c.text is Some {
            c.text->Some_0@
        } else {
            Seq::empty()
        }
    } else {
        Seq::empty()
    }
}

/// Extracts the assistant output text from a parsed reply.
pub fn extract_output(response: &UpstreamResponse) -> (r: String)
    ensures
        r@ == spec_extract_output(response.choices@),
{
    if response.choices.len() > 0 {
        let c = &response.choices[0];
        match &c.message_content {
            Some(content) => content.clone(),
            None => match &c.text {
                Some(t) => t.clone(),
                None => String::new(),
            },
        }
    } else {
        String::new()
    }
}

/// The input token count taken from a usage report: its prompt count, zero
/// when absent.
pub open spec fn spec_input_tokens(usage: Option<Usage>) -> i64 {
    match usage {
        Some(u) => match u.prompt_tokens {
            Some(t) => t,
            None => 0,
        },
        None => 0,
    }
}

/// The output token count taken from a usage report: its completion count,
/// zero when absent.
pub open spec fn spec_output_tokens(usage: Option<Usage>) -> i64 {
    match usage {
        Some(u) => match u.completion_tokens {
            Some(t) => t,
            None => 0,
        },
        None => 0,
    }
}

/// Reads the recorded input token count out of a usage report.
pub(crate) fn usage_input_tokens(usage: &Option<Usage>) -> (r: i64)
    ensures
        r == spec_input_tokens(*usage),
{
    match usage {
        Some(u) => match u.prompt_tokens {
            Some(t) => t,
            None => 0,
        },
        None => 0,
    }
}

/// Reads the recorded output token count out of a usage report.
pub(crate) fn usage_output_tokens(usage: &Option<Usage>) -> (r: i64)
    ensures
        r == spec_output_tokens(*usage),
{
    match usage {
        Some(u) => match u.completion_tokens {
            Some(t) => t,
            None => 0,
        },
        None => 0,
    }
}

/// Whether the two counts of a usage report can be summed without leaving the
/// machine range.
pub open spec fn token_sum_fits(usage: Option<Usage>) -> bool {
    i64::MIN <= spec_input_tokens(usage) + spec_output_tokens(usage) <= i64::MAX
}

/// The usage report of an optional parsed reply.
pub open spec fn spec_parsed_usage(parsed: Option<UpstreamResponse>) -> Option<Usage> {
    match parsed {
        Some(r) => r.usage,
        None => None,
    }
}

/// How the buffered path finalizes a record, given the upstream status, the
/// decoded body text and the parse outcome:
/// a success status with a parsed reply completes the record with the
/// extracted output and counts and adopts the upstream id; a success status
/// without one marks a parse failure; a non-success status stores the raw
/// body as the failure message. The duration and end timestamp are written in
/// every case, and nothing else changes.
pub open spec fn spec_buffered(
    prev: RequestRecord,
    cur: RequestRecord,
    status: u16,
    body: Seq<char>,
    parsed: Option<UpstreamResponse>,
    end: Seq<char>,
) -> bool {
    &&& cur.endpoint == prev.endpoint
    &&& cur.model == prev.model
    &&& cur.start_time == prev.start_time
    &&& cur.prompt == prev.prompt
    &&& cur.end_time@ == end
    &&& cur.duration_ms == spec_duration_ms(prev.start_time@, end, prev.duration_ms)
    &&& cur.http_status == status as i32
    &&& if spec_is_success(status) {
        match parsed {
            Some(resp) => {
                &&& cur.output@ == spec_extract_output(resp.choices@)
                &&& cur.input_tokens == spec_input_tokens(resp.usage)
                &&& cur.output_tokens == spec_output_tokens(resp.usage)
                &&& cur.total_tokens == spec_input_tokens(resp.usage) + spec_output_tokens(
                    resp.usage,
                )
                &&& !cur.was_streamed
                &&& cur.is_error == prev.is_error
                &&& cur.error_message == prev.error_message
                &&& cur.request_id == (if resp.id is Some {
                    resp.id
                } else {
                    prev.request_id
                })
            },
            None => {
                &&& cur.is_error
                &&& (cur.error_message matches Some(m) && m@ == "Failed to parse response"@)
                &&& cur.output == prev.output
                &&& cur.input_tokens == prev.input_tokens
                &&& cur.output_tokens == prev.output_tokens
                &&& cur.total_tokens == prev.total_tokens
                &&& cur.request_id == prev.request_id
                &&& cur.was_streamed == prev.was_streamed
            },
        }
    } else {
        &&& cur.is_error
        &&& (cur.error_message matches Some(m) && m@ == body)
        &&& cur.output == prev.output
        &&& cur.input_tokens == prev.input_tokens
        &&& cur.output_tokens == prev.output_tokens
        &&& cur.total_tokens == prev.total_tokens
        &&& cur.request_id == prev.request_id
        &&& cur.was_streamed == prev.was_streamed
    }
}

/// Finalizes a record from an already-parsed buffered reply. Pure over its
/// arguments; `process_buffered` below joins it with the parser.
pub fn finalize_buffered(
    record: &mut RequestRecord,
    status: u16,
    body_text: &String,
    parsed: Option<UpstreamResponse>,
    end_time: String,
)
    requires
        old(record).wf(),
        !old(record).finalized(),
        end_time@.len() > 0,
        spec_is_success(status) ==> token_sum_fits(spec_parsed_usage(parsed)),
    ensures
        spec_buffered(*old(record), *final(record), status, body_text@, parsed, end_time@),
        final(record).wf(),
        final(record).finalized(),
{
    if is_success_status(status) {
        match parsed {
            Some(resp) => {
                let output = extract_output(&resp);
                let input_tokens = usage_input_tokens(&resp.usage);
                let output_tokens = usage_output_tokens(&resp.usage);
                record.complete(end_time, output, input_tokens, output_tokens, status as i32, false);
                if let Some(id) = resp.id {
                    record.request_id = Some(id);
                }
            },
            None => {
                record.set_error(
                    end_time,
                    String::from_str("Failed to parse response"),
                    status as i32,
                );
            },
        }
    } else {
        record.set_error(end_time, body_text.clone(), status as i32);
    }
}

/// Handles a fully buffered upstream reply: parses the body, finalizes the
/// record as `spec_buffered` says, and reports whether it did. The one input
/// it refuses — false is returned and the record left open — is a reply whose
/// token counts cannot be summed in the machine range.
pub fn process_buffered(
    record: &mut RequestRecord,
    status: u16,
    body_text: &String,
    end_time: String,
) -> (ok: bool)
    requires
        old(record).wf(),
        !old(record).finalized(),
        end_time@.len() > 0,
    ensures
        ok == (spec_is_success(status) ==> token_sum_fits(
            spec_parsed_usage(upstream_response_of(body_text@)),
        )),
        ok ==> spec_buffered(
            *old(record),
            *final(record),
            status,
            body_text@,
            upstream_response_of(body_text@),
            end_time@,
        ),
        ok ==> final(record).wf() && final(record).finalized(),
        !ok ==> *final(record) == *old(record),
{
    let parsed = parse_upstream_response(body_text.as_str());
    let fits: bool = match &parsed {
        Some(resp) => {
            let i = usage_input_tokens(&resp.usage);
            let o = usage_output_tokens(&resp.usage);
            i.checked_add(o).is_some()
        },
        None => true,
    };
    if is_success_status(status) && !fits {
        false
    } else {
        finalize_buffered(record, status, body_text, parsed, end_time);
        true
    }
}

} // verus!
