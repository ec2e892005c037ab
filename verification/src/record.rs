use vstd::prelude::*;

verus! {

/// The milliseconds since the Unix epoch named by an RFC 3339 timestamp, or
/// nothing when the text is not one. Left uninterpreted: the calendar
/// arithmetic lives in an outside crate.
pub uninterp spec fn rfc3339_millis_of(s: Seq<char>) -> Option<i64>;

/// Relies on chrono's `DateTime::parse_from_rfc3339` and `timestamp_millis`:
/// both are deterministic, so the result is a function of the text alone.
#[verifier::external_body]
fn rfc3339_to_millis(s: &str) -> (r: Option<i64>)
    ensures
        r == rfc3339_millis_of(s@),
{
    chrono::DateTime::parse_from_rfc3339(s).ok().map(|t| t.timestamp_millis())
}

/// The elapsed milliseconds between two epoch timestamps, floored at zero to
/// absorb clock skew and capped at the largest representable value.
pub open spec fn spec_elapsed_ms(start_ms: i64, end_ms: i64) -> i64 {
    if end_ms - start_ms <= 0 {
        0
    } else if end_ms - start_ms > i64::MAX {
        i64::MAX
    } else {
        (end_ms - start_ms) as i64
    }
}

/// The duration recorded between two timestamp texts: the clamped difference
/// when both parse as RFC 3339, the previous duration otherwise.
pub open spec fn spec_duration_ms(start: Seq<char>, end: Seq<char>, prev: i64) -> i64 {
    match (rfc3339_millis_of(start), rfc3339_millis_of(end)) {
        (Some(s), Some(e)) => spec_elapsed_ms(s, e),
        _ => prev,
    }
}

/// Computes the duration between the two timestamp texts of a record.
fn compute_duration_ms(start: &str, end: &str, prev: i64) -> (d: i64)
    requires
        prev >= 0,
    ensures
        d == spec_duration_ms(start@, end@, prev),
        d >= 0,
{
    let s = rfc3339_to_millis(start);
    let e = rfc3339_to_millis(end);
    match (s, e) {
        (Some(sm), Some(em)) => {
            let diff: i128 = em as i128 - sm as i128;
            if diff <= 0 {
                0
            } else if diff > i64::MAX as i128 {
                i64::MAX
            } else {
                diff as i64
            }
        },
        _ => prev,
    }
}

/// The record of one tracked exchange: what was asked, what came back, how
/// long it took, and how it ended. Created when a request is classified as
/// trackable, finalized exactly once, then handed to the store.
#[derive(Clone, Debug)]
pub struct RequestRecord {
    pub endpoint: String,
    pub model: String,
    pub start_time: String,
    pub end_time: String,
    pub duration_ms: i64,
    pub input_tokens: i64,
    pub output_tokens: i64,
    pub total_tokens: i64,
    pub prompt: String,
    pub output: String,
    pub request_id: Option<String>,
    pub is_error: bool,
    pub error_message: Option<String>,
    pub http_status: i32,
    pub was_streamed: bool,
}

impl RequestRecord {
    /// A record is finalized once its end timestamp has been written; until
    /// then the field holds the empty text.
    pub open spec fn finalized(self) -> bool {
        self.end_time@.len() > 0
    }

    /// The record invariant: the token total is the sum of its parts, and the
    /// duration is never negative.
    pub open spec fn wf(self) -> bool {
        &&& self.total_tokens == self.input_tokens + self.output_tokens
        &&& self.duration_ms >= 0
    }

    /// Opens the record for one tracked exchange. The start timestamp is the
    /// RFC 3339 text of the moment the request arrived.
    pub fn new(endpoint: String, model: String, start_time: String, prompt: String) -> (r: Self)
        ensures
            r.endpoint == endpoint,
            r.model == model,
            r.start_time == start_time,
            r.end_time@ == Seq::<char>::empty(),
            r.duration_ms == 0,
            r.input_tokens == 0,
            r.output_tokens == 0,
            r.total_tokens == 0,
            r.prompt == prompt,
            r.output@ == Seq::<char>::empty(),
            r.request_id is None,
            !r.is_error,
            r.error_message is None,
            r.http_status == 200,
            !r.was_streamed,
            r.wf(),
            !r.finalized(),
    {
        RequestRecord {
            endpoint,
            model,
            start_time,
            end_time: String::new(),
            duration_ms: 0,
            input_tokens: 0,
            output_tokens: 0,
            total_tokens: 0,
            prompt,
            output: String::new(),
            request_id: None,
            is_error: false,
            error_message: None,
            http_status: 200,
            was_streamed: false,
        }
    }

    /// Closes the record as a successful exchange: stores the output text and
    /// token counts, derives the total and the duration, and marks whether the
    /// reply was streamed. The single point where token totals are written.
    pub fn complete(
        &mut self,
        end_time: String,
        output: String,
        input_tokens: i64,
        output_tokens: i64,
        http_status: i32,
        was_streamed: bool,
    )
        requires
            old(self).wf(),
            !old(self).finalized(),
            end_time@.len() > 0,
            i64::MIN <= input_tokens + output_tokens <= i64::MAX,
        ensures
            final(self).end_time == end_time,
            final(self).output == output,
            final(self).input_tokens == input_tokens,
            final(self).output_tokens == output_tokens,
            final(self).total_tokens == input_tokens + output_tokens,
            final(self).http_status == http_status,
            final(self).was_streamed == was_streamed,
            final(self).duration_ms == spec_duration_ms(
                old(self).start_time@,
                end_time@,
                old(self).duration_ms,
            ),
            final(self).endpoint == old(self).endpoint,
            final(self).model == old(self).model,
            final(self).start_time == old(self).start_time,
            final(self).prompt == old(self).prompt,
            final(self).request_id == old(self).request_id,
            final(self).is_error == old(self).is_error,
            final(self).error_message == old(self).error_message,
            final(self).wf(),
            final(self).finalized(),
    {
        self.end_time = end_time;
        self.output = output;
        self.input_tokens = input_tokens;
        self.output_tokens = output_tokens;
        self.total_tokens = input_tokens + output_tokens;
        self.http_status = http_status;
        self.was_streamed = was_streamed;
        self.duration_ms = compute_duration_ms(
            self.start_time.as_str(),
            self.end_time.as_str(),
            self.duration_ms,
        );
    }

    /// Closes the record as a failed exchange: stores the failure message and
    /// status and derives the duration. Token fields are left as they are.
    pub fn set_error(&mut self, end_time: String, error_message: String, http_status: i32)
        requires
            old(self).wf(),
            !old(self).finalized(),
            end_time@.len() > 0,
        ensures
            final(self).end_time == end_time,
            final(self).is_error,
            final(self).error_message == Some(error_message),
            final(self).http_status == http_status,
            final(self).duration_ms == spec_duration_ms(
                old(self).start_time@,
                end_time@,
                old(self).duration_ms,
            ),
            final(self).endpoint == old(self).endpoint,
            final(self).model == old(self).model,
            final(self).start_time == old(self).start_time,
            final(self).prompt == old(self).prompt,
            final(self).output == old(self).output,
            final(self).input_tokens == old(self).input_tokens,
            final(self).output_tokens == old(self).output_tokens,
            final(self).total_tokens == old(self).total_tokens,
            final(self).request_id == old(self).request_id,
            final(self).was_streamed == old(self).was_streamed,
            final(self).wf(),
            final(self).finalized(),
    {
        self.end_time = end_time;
        self.is_error = true;
        self.error_message = Some(error_message);
        self.http_status = http_status;
        self.duration_ms = compute_duration_ms(
            self.start_time.as_str(),
            self.end_time.as_str(),
            self.duration_ms,
        );
    }
}

/// Law: every well-formed record carries a token total that is the sum of its
/// input and output counts, and a non-negative duration. Both finalizing
/// methods establish `wf`, so this holds of every finalized record.
pub proof fn lemma_record_invariant(r: RequestRecord)
    requires
        r.wf(),
    ensures
        r.total_tokens == r.input_tokens + r.output_tokens,
        r.duration_ms >= 0,
{
}

} // verus!
