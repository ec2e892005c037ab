use vstd::prelude::*;
use vstd::string::StringExecFns;

verus! {

/// The optional fields read from a completion-style request body: the model
/// name, the `messages` list re-encoded as compact JSON text, the bare
/// `prompt` string, and the `stream` flag.
#[derive(Clone, Debug)]
pub struct ChatRequestData {
    pub model: Option<String>,
    pub messages_json: Option<String>,
    pub prompt: Option<String>,
    pub stream: Option<bool>,
}

/// What parsing a request body yields: nothing when the body is not JSON,
/// otherwise the fields above. Left uninterpreted: the JSON grammar lives in
/// an outside crate.
pub uninterp spec fn chat_request_of(s: Seq<char>) -> Option<ChatRequestData>;

/// Relies on serde_json: `from_str` to read the body as a JSON value, field
/// lookup on that value, and `to_string` to re-encode the `messages` list
/// compactly. All of them are deterministic, so the result is a function of
/// the body text alone.
#[verifier::external_body]
fn parse_chat_request(s: &str) -> (r: Option<ChatRequestData>)
    ensures
        r == chat_request_of(s@),
{
    let v: serde_json::Value = match serde_json::from_str(s) {
        Ok(v) => v,
        Err(_) => return None,
    };
    Some(ChatRequestData {
        model: v.get("model").and_then(|x| x.as_str()).map(|x| x.to_string()),
        messages_json: v.get("messages").filter(|m| m.is_array()).and_then(|m| serde_json::to_string(m).ok()),
        prompt: v.get("prompt").and_then(|x| x.as_str()).map(|x| x.to_string()),
        stream: v.get("stream").and_then(|x| x.as_bool()),
    })
}

/// How one inbound request is handled: passed through untouched, or tracked
/// with the fields that open its metrics record.
#[derive(Clone, Debug)]
pub enum RequestClass {
    PassThrough,
    Recorded { model: String, prompt: String, is_streaming: bool },
}

/// The model name recorded for a tracked request: the parsed `model` field,
/// or `unknown` when the body did not parse or named none.
pub open spec fn spec_model(parsed: Option<ChatRequestData>) -> Seq<char> {
    match parsed {
        Some(d) => match d.model {
            Some(m) => m@,
            None => "unknown"@,
        },
        None => "unknown"@,
    }
}

/// Whether a tracked request asked for a streamed reply: the parsed `stream`
/// flag, false when the body did not parse or named none.
pub open spec fn spec_streaming(parsed: Option<ChatRequestData>) -> bool {
    match parsed {
        Some(d) => match d.stream {
            Some(b) => b,
            None => false,
        },
        None => false,
    }
}

/// The prompt recorded for a tracked request, in order of precedence: the
/// re-encoded `messages` list, else the `prompt` field, else the raw body.
pub open spec fn spec_prompt(parsed: Option<ChatRequestData>, body: Seq<char>) -> Seq<char> {
    match parsed {
        Some(d) => match d.messages_json {
            Some(m) => m@,
            None => match d.prompt {
                Some(p) => p@,
                None => body,
            },
        },
        None => body,
    }
}

/// Whether a request is tracked at all: only a POST with a non-empty body is.
pub open spec fn spec_trackable(method: Seq<char>, body: Seq<char>) -> bool {
    method == "POST"@ && body.len() > 0
}

/// Derives the tracked fields from an already-parsed body. Pure over its
/// arguments; `classify` below joins it with the parser.
pub fn classify_parsed(is_post: bool, body: &String, parsed: Option<ChatRequestData>) -> (r:
    RequestClass)
    ensures
        (!is_post || body@.len() == 0) ==> (r is PassThrough),
        (is_post && body@.len() > 0) ==> (r matches RequestClass::Recorded {
            model,
            prompt,
            is_streaming,
        } && model@ == spec_model(parsed) && prompt@ == spec_prompt(parsed, body@)
            && is_streaming == spec_streaming(parsed)),
{
    if !is_post || body.as_str().is_empty() {
        RequestClass::PassThrough
    } else {
        match parsed {
            Some(d) => {
                let model = match d.model {
                    Some(m) => m,
                    None => String::from_str("unknown"),
                };
                let is_streaming = match d.stream {
                    Some(b) => b,
                    None => false,
                };
                let prompt = match d.messages_json {
                    Some(m) => m,
                    None => match d.prompt {
                        Some(p) => p,
                        None => body.clone(),
                    },
                };
                RequestClass::Recorded { model, prompt, is_streaming }
            },
            None => RequestClass::Recorded {
                model: String::from_str("unknown"),
                prompt: body.clone(),
                is_streaming: false,
            },
        }
    }
}

/// Classifies one inbound request: a non-POST or an empty body passes through
/// untracked; anything else opens a record with the model, prompt and
/// streaming flag read from the body, tolerating bodies that do not parse.
pub fn classify(method: &String, body: &String) -> (r: RequestClass)
    ensures
        !spec_trackable(method@, body@) ==> (r is PassThrough),
        spec_trackable(method@, body@) ==> (r matches RequestClass::Recorded {
            model,
            prompt,
            is_streaming,
        } && model@ == spec_model(chat_request_of(body@)) && prompt@ == spec_prompt(
            chat_request_of(body@),
            body@,
        ) && is_streaming == spec_streaming(chat_request_of(body@))),
{
    let post = String::from_str("POST");
    let is_post = method.eq(&post);
    if !is_post || body.as_str().is_empty() {
        RequestClass::PassThrough
    } else {
        let parsed = parse_chat_request(body.as_str());
        classify_parsed(is_post, body, parsed)
    }
}

} // verus!
