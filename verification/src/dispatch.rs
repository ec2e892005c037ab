use vstd::prelude::*;
use vstd::string::StringExecFns;

use crate::error::ProxyError;
use crate::record::{spec_duration_ms, RequestRecord};

verus! {

/// Whether an upstream status is in the success range.
pub open spec fn spec_is_success(status: u16) -> bool {
    200 <= status < 300
}

/// Tests an upstream status for the success range.
pub fn is_success_status(status: u16) -> (r: bool)
    ensures
        r == spec_is_success(status),
{
    200 <= status && status < 300
}

/// The two ways a successful upstream reply reaches the client: relayed frame
/// by frame, or buffered whole and returned at once.
#[derive(Clone, Copy, Debug, PartialEq, Eq, Structural)]
pub enum ResponsePath {
    Relay,
    Buffered,
}

/// Chooses the response path for a successful upstream reply: only a tracked
/// request that asked for streaming, answered with a success status, is
/// relayed; everything else is buffered.
pub fn response_path(is_streaming: bool, status: u16) -> (r: ResponsePath)
    ensures
        (r == ResponsePath::Relay) <==> (is_streaming && spec_is_success(status)),
{
    if is_streaming && is_success_status(status) {
        ResponsePath::Relay
    } else {
        ResponsePath::Buffered
    }
}

/// What the client receives on the buffered path: a status and the body
/// bytes. The surrounding server copies the upstream headers alongside.
#[derive(Clone, Debug)]
pub struct BufferedReply {
    pub status: u16,
    pub body: Vec<u8>,
}

/// Builds the client reply for the buffered path: the original upstream
/// status and the original body bytes, untouched. Metrics extraction is
/// observational and never alters what the client receives.
pub fn buffered_reply(status: u16, body: Vec<u8>) -> (r: BufferedReply)
    ensures
        r.status == status,
        r.body@ == body@,
{
    BufferedReply { status, body }
}

/// The reply returned once the persistence attempt has ended: the one already
/// chosen, whatever the store said.
pub open spec fn spec_reply_after_persist(reply: BufferedReply, persist_failed: bool) -> BufferedReply {
    reply
}

/// Applies the persistence outcome to the chosen reply: a failed write is
/// logged by the caller and swallowed here, so the reply passes unchanged.
pub fn reply_after_persist(reply: BufferedReply, persist_failed: bool) -> (r: BufferedReply)
    ensures
        r == spec_reply_after_persist(reply, persist_failed),
        r.status == reply.status,
        r.body@ == reply.body@,
{
    reply
}

/// Law: the persistence outcome never alters the status or the body returned
/// to the client; the reply after a failed write equals the reply after a
/// successful one.
pub proof fn lemma_persistence_invisible(reply: BufferedReply, a: bool, b: bool)
    ensures
        spec_reply_after_persist(reply, a) == spec_reply_after_persist(reply, b),
        spec_reply_after_persist(reply, a).status == reply.status,
        spec_reply_after_persist(reply, a).body == reply.body,
{
}

/// Whether the streamed reply writes this header itself: the relay fixes the
/// event-stream content type, cache policy and connection mode, and every
/// other upstream header is copied through unchanged.
pub fn relay_overrides_header(name: &String) -> (r: bool)
    ensures
        r == (name@ == "content-type"@ || name@ == "cache-control"@ || name@ == "connection"@),
{
    let ct = String::from_str("content-type");
    let cc = String::from_str("cache-control");
    let co = String::from_str("connection");
    name.eq(&ct) || name.eq(&cc) || name.eq(&co)
}

/// Finalizes a record for a request whose forwarding failed: the failure's
/// description becomes the stored message and the stored status is the bad
/// gateway the client sees. The record is never silently dropped on this
/// path; the caller persists it and then returns the original failure.
pub fn record_forward_failure(record: &mut RequestRecord, err: &ProxyError, end_time: String)
    requires
        old(record).wf(),
        !old(record).finalized(),
        end_time@.len() > 0,
    ensures
        final(record).is_error,
        (final(record).error_message matches Some(m) && m@ == err.spec_describe()),
        final(record).http_status == 502,
        final(record).end_time == end_time,
        final(record).duration_ms == spec_duration_ms(
            old(record).start_time@,
            end_time@,
            old(record).duration_ms,
        ),
        final(record).endpoint == old(record).endpoint,
        final(record).model == old(record).model,
        final(record).start_time == old(record).start_time,
        final(record).prompt == old(record).prompt,
        final(record).output == old(record).output,
        final(record).input_tokens == old(record).input_tokens,
        final(record).output_tokens == old(record).output_tokens,
        final(record).total_tokens == old(record).total_tokens,
        final(record).request_id == old(record).request_id,
        final(record).was_streamed == old(record).was_streamed,
        final(record).wf(),
        final(record).finalized(),
{
    record.set_error(end_time, err.describe(), 502);
}

} // verus!
