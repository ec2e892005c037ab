use vstd::prelude::*;
use vstd::slice::slice_subrange;
use vstd::string::StringExecFns;

use crate::record::{spec_duration_ms, RequestRecord};
use crate::response::{
    spec_input_tokens, spec_output_tokens, token_sum_fits, usage_input_tokens, usage_output_tokens,
    Usage,
};

verus! {

/// How many chunks the relay channel may hold before the producer suspends:
/// the sole backpressure between upstream reads and client consumption.
pub const RELAY_CHANNEL_CAPACITY: usize = 100;

/// The newline byte, the line separator of the event stream.
pub const NL: u8 = 10;

/// The carriage-return byte, stripped when a line ends in `\r\n`.
pub const CR: u8 = 13;

/// One parsed server-sent event: the upstream-assigned id, the first choice's
/// delta content, and the usage report, each optional.
#[derive(Clone, Debug)]
pub struct SseEvent {
    pub id: Option<String>,
    pub delta_content: Option<String>,
    pub usage: Option<Usage>,
}

/// What parsing one event payload yields: nothing when the bytes are not
/// JSON, otherwise the fields above. Left uninterpreted: the JSON grammar
/// lives in an outside crate.
pub uninterp spec fn sse_event_of(s: Seq<u8>) -> Option<SseEvent>;

/// Relies on serde_json: `from_slice` to read one event payload as a JSON
/// value and field lookup for `id`, the first choice's `delta.content`, and
/// the `usage` counts. Deterministic, so the result is a function of the
/// payload bytes alone.
#[verifier::external_body]
fn parse_sse_event(s: &[u8]) -> (r: Option<SseEvent>)
    ensures
        r == sse_event_of(s@),
{
    let v: serde_json::Value = match serde_json::from_slice(s) {
        Ok(v) => v,
        Err(_) => return None,
    };
    let delta_content = v.get("choices").and_then(|c| c.as_array()).and_then(|c| c.first())
        .and_then(|c| c.get("delta")).and_then(|d| d.get("content"))
        .and_then(|x| x.as_str()).map(|x| x.to_string());
    Some(SseEvent {
        id: v.get("id").and_then(|x| x.as_str()).map(|x| x.to_string()),
        delta_content,
        usage: v.get("usage").map(|u| crate::response::usage_from(u)),
    })
}

/// The accumulator of one streamed exchange: the assistant text seen so far,
/// the last id and usage observed, and whether the relay was aborted because
/// the client stopped reading.
#[derive(Clone, Debug)]
pub struct RelayState {
    pub output: String,
    pub request_id: Option<String>,
    pub usage: Option<Usage>,
    pub aborted: bool,
}

/// The mathematical image of a relay accumulator.
pub struct RelayModel {
    pub output: Seq<char>,
    pub request_id: Option<Seq<char>>,
    pub usage: Option<Usage>,
    pub aborted: bool,
}

impl View for RelayState {
    type V = RelayModel;

    open spec fn view(&self) -> RelayModel {
        RelayModel {
            output: self.output@,
            request_id: match self.request_id {
                Some(s) => Some(s@),
                None => None,
            },
            usage: self.usage,
            aborted: self.aborted,
        }
    }
}

/// The accumulator a relay starts from: nothing seen, not aborted.
pub open spec fn spec_relay_init() -> RelayModel {
    RelayModel { output: Seq::empty(), request_id: None, usage: None, aborted: false }
}

impl RelayState {
    /// Opens the accumulator for one streamed exchange.
    pub fn new() -> (r: RelayState)
        ensures
            r@ == spec_relay_init(),
    {
        RelayState { output: String::new(), request_id: None, usage: None, aborted: false }
    }
}

/// How one parsed event changes the accumulator: delta content is appended in
/// arrival order; an id overwrites the one seen before; a usage report
/// overwrites the one seen before — the last occurrence wins.
pub open spec fn spec_apply_event(m: RelayModel, ev: SseEvent) -> RelayModel {
    RelayModel {
        output: m.output + (match ev.delta_content {
            Some(c) => c@,
            None => Seq::empty(),
        }),
        request_id: match ev.id {
            Some(i) => Some(i@),
            None => m.request_id,
        },
        usage: match ev.usage {
            Some(u) => Some(u),
            None => m.usage,
        },
        aborted: m.aborted,
    }
}

/// Whether a line carries an event: it must open with the `data: ` prefix
/// (the byte values spell `data: `).
pub open spec fn is_data_line(line: Seq<u8>) -> bool {
    &&& line.len() >= 6
    &&& line[0] == 100u8
    &&& line[1] == 97u8
    &&& line[2] == 116u8
    &&& line[3] == 97u8
    &&& line[4] == 58u8
    &&& line[5] == 32u8
}

/// Whether an event payload is the closing sentinel (the byte values spell
/// `[DONE]`).
pub open spec fn is_done_payload(p: Seq<u8>) -> bool {
    &&& p.len() == 6
    &&& p[0] == 91u8
    &&& p[1] == 68u8
    &&& p[2] == 79u8
    &&& p[3] == 78u8
    &&& p[4] == 69u8
    &&& p[5] == 93u8
}

/// How one line changes the accumulator: a line without the `data: ` prefix,
/// the `[DONE]` sentinel, and a payload that does not parse all contribute
/// nothing; any other payload is applied as an event.
pub open spec fn spec_apply_line(m: RelayModel, line: Seq<u8>) -> RelayModel {
    if is_data_line(line) {
        let payload = line.skip(6);
        if is_done_payload(payload) {
            m
        } else {
            match sse_event_of(payload) {
                Some(ev) => spec_apply_event(m, ev),
                None => m,
            }
        }
    } else {
        m
    }
}

/// A line with one carriage return stripped off its end, as line splitting
/// treats `\r\n` endings.
pub open spec fn strip_cr(line: Seq<u8>) -> Seq<u8> {
    if line.len() > 0 && line[line.len() - 1] == CR {
        line.take(line.len() - 1)
    } else {
        line
    }
}

/// The lines of a byte chunk, split at `\n` or `\r\n`, the last terminator
/// optional; `cur` carries the line under construction.
pub open spec fn lines_from(s: Seq<u8>, cur: Seq<u8>) -> Seq<Seq<u8>>
    decreases s.len(),
{
    if s.len() == 0 {
        if cur.len() == 0 {
            Seq::empty()
        } else {
            seq![cur]
        }
    } else if s[0] == NL {
        seq![strip_cr(cur)] + lines_from(s.skip(1), Seq::empty())
    } else {
        lines_from(s.skip(1), cur.push(s[0]))
    }
}

/// The lines of one upstream chunk.
pub open spec fn lines_of(s: Seq<u8>) -> Seq<Seq<u8>> {
    lines_from(s, Seq::empty())
}

/// The accumulator after a sequence of lines is applied in order.
pub open spec fn spec_apply_lines(m: RelayModel, lines: Seq<Seq<u8>>) -> RelayModel
    decreases lines.len(),
{
    if lines.len() == 0 {
        m
    } else {
        spec_apply_lines(spec_apply_line(m, lines[0]), lines.skip(1))
    }
}

/// The accumulator after one upstream chunk: its lines applied in order.
pub open spec fn spec_apply_chunk(m: RelayModel, bytes: Seq<u8>) -> RelayModel {
    spec_apply_lines(m, lines_of(bytes))
}

/// Splitting off the longest newline-free prefix of `s` decomposes
/// `lines_from`: a found newline closes one line, the end of the chunk closes
/// the last line exactly when it is non-empty.
proof fn lemma_lines_from_split(s: Seq<u8>, cur: Seq<u8>, j: int)
    requires
        0 <= j <= s.len(),
        forall|k: int| 0 <= k < j ==> s[k] != NL,
    ensures
        j < s.len() && s[j] == NL ==> lines_from(s, cur) == seq![strip_cr(cur + s.take(j))]
            + lines_from(s.skip(j + 1), Seq::empty()),
        j == s.len() && cur.len() + s.len() > 0 ==> lines_from(s, cur) == seq![cur + s],
        j == s.len() && cur.len() + s.len() == 0 ==> lines_from(s, cur) == Seq::<Seq<u8>>::empty(),
    decreases j,
{
    if j == 0 {
        if s.len() > 0 && s[0] == NL {
            assert(cur + s.take(0) =~= cur);
        } else if s.len() == 0 {
            assert(cur + s =~= cur);
        }
    } else {
        assert(s[0] != NL);
        let s1 = s.skip(1);
        let cur1 = cur.push(s[0]);
        assert(forall|k: int| 0 <= k < j - 1 ==> s1[k] == s[k + 1] && s1[k] != NL);
        lemma_lines_from_split(s1, cur1, j - 1);
        if j < s.len() && s[j] == NL {
            assert(s1[j - 1] == NL);
            assert(cur1 + s1.take(j - 1) =~= cur + s.take(j));
            assert(s1.skip(j) =~= s.skip(j + 1));
        } else if j == s.len() {
            assert(cur1.len() + s1.len() > 0);
            assert(cur1 + s1 =~= cur + s);
        }
    }
}

/// Applies one line to the accumulator.
fn relay_apply_line(st: &mut RelayState, line: &[u8])
    ensures
        final(st)@ == spec_apply_line(old(st)@, line@),
{
    if line.len() >= 6 && line[0] == 100u8 && line[1] == 97u8 && line[2] == 116u8 && line[3] == 97u8
        && line[4] == 58u8 && line[5] == 32u8 {
        let payload = slice_subrange(line, 6, line.len());
        proof {
            assert(payload@ =~= line@.skip(6));
        }
        if payload.len() == 6 && payload[0] == 91u8 && payload[1] == 68u8 && payload[2] == 79u8
            && payload[3] == 78u8 && payload[4] == 69u8 && payload[5] == 93u8 {
            // the closing sentinel contributes nothing
        } else {
            match parse_sse_event(payload) {
                Some(ev) => {
                    if let Some(c) = &ev.delta_content {
                        st.output.append(c.as_str());
                    } else {
                        proof {
                            assert(st.output@ + Seq::<char>::empty() =~= st.output@);
                        }
                    }
                    if let Some(id) = ev.id {
                        st.request_id = Some(id);
                    }
                    if let Some(u) = ev.usage {
                        st.usage = Some(u);
                    }
                },
                None => {},
            }
        }
    }
}

/// Applies one upstream chunk to the accumulator: the chunk is split into
/// lines and each is applied in order.
pub fn relay_apply_chunk(st: &mut RelayState, chunk: &[u8])
    ensures
        final(st)@ == spec_apply_chunk(old(st)@, chunk@),
{
    let ghost target = spec_apply_chunk(old(st)@, chunk@);
    proof {
        assert(chunk@.skip(0) =~= chunk@);
    }
    let mut line_start: usize = 0;
    while line_start < chunk.len()
        invariant
            line_start <= chunk@.len(),
            spec_apply_lines(st@, lines_from(chunk@.skip(line_start as int), Seq::empty()))
                == target,
        decreases chunk@.len() - line_start,
    {
        let mut j: usize = line_start;
        while j < chunk.len() && chunk[j] != NL
            invariant
                line_start <= j <= chunk@.len(),
                forall|k: int| line_start <= k < j ==> chunk@[k] != NL,
            decreases chunk@.len() - j,
        {
            j += 1;
        }
        let ghost rest = chunk@.skip(line_start as int);
        proof {
            assert(forall|k: int| 0 <= k < j - line_start ==> rest[k] == chunk@[line_start + k]
                && rest[k] != NL);
            lemma_lines_from_split(rest, Seq::empty(), j - line_start);
        }
        if j < chunk.len() {
            let mut end: usize = j;
            if end > line_start && chunk[end - 1] == CR {
                end = end - 1;
            }
            let line = slice_subrange(chunk, line_start, end);
            proof {
                assert(rest[j - line_start] == chunk@[j as int]);
                assert(Seq::<u8>::empty() + rest.take(j - line_start) =~= rest.take(
                    j - line_start,
                ));
                assert(line@ =~= strip_cr(rest.take(j - line_start)));
                let lines = lines_from(rest, Seq::<u8>::empty());
                assert(lines == seq![line@] + lines_from(
                    rest.skip(j - line_start + 1),
                    Seq::<u8>::empty(),
                ));
                assert(lines[0] == line@);
                assert(lines.skip(1) =~= lines_from(
                    rest.skip(j - line_start + 1),
                    Seq::<u8>::empty(),
                ));
                assert(rest.skip(j - line_start + 1) =~= chunk@.skip(j + 1));
            }
            relay_apply_line(st, line);
            line_start = j + 1;
        } else {
            let line = slice_subrange(chunk, line_start, chunk.len());
            proof {
                assert(line@ =~= rest);
                assert(Seq::<u8>::empty() + rest =~= rest);
                assert(rest.len() > 0);
                let lines = lines_from(rest, Seq::<u8>::empty());
                assert(lines == seq![rest]);
                assert(lines[0] == rest);
                assert(lines.skip(1) =~= Seq::<Seq<u8>>::empty());
            }
            relay_apply_line(st, line);
            line_start = chunk.len();
            proof {
                assert(chunk@.skip(line_start as int) =~= Seq::<u8>::empty());
            }
        }
    }
    proof {
        assert(chunk@.skip(line_start as int) =~= Seq::<u8>::empty());
    }
}

/// The accumulator after one producer step: a chunk that reached the client
/// is accumulated; a failed delivery aborts the relay and accumulates
/// nothing further.
pub open spec fn spec_relay_step(m: RelayModel, chunk: Seq<u8>, delivered: bool) -> RelayModel {
    if delivered {
        spec_apply_chunk(m, chunk)
    } else {
        RelayModel { output: m.output, request_id: m.request_id, usage: m.usage, aborted: true }
    }
}

/// One step of the producer loop, after the chunk was offered to the client:
/// `delivered` says whether the client took it. Returns whether the loop may
/// read further upstream frames — false as soon as a delivery failed.
pub fn relay_step(st: &mut RelayState, chunk: &[u8], delivered: bool) -> (cont: bool)
    ensures
        final(st)@ == spec_relay_step(old(st)@, chunk@, delivered),
        cont == delivered,
{
    if delivered {
        relay_apply_chunk(st, chunk);
        true
    } else {
        st.aborted = true;
        false
    }
}

/// The accumulator after the whole producer loop: frames are read and
/// accumulated one by one while the client keeps taking them; the first
/// failed delivery aborts the relay and no later frame is read.
pub open spec fn spec_relay_run(m: RelayModel, frames: Seq<Seq<u8>>, open_count: int) -> RelayModel
    decreases frames.len(),
{
    if frames.len() == 0 {
        m
    } else if open_count <= 0 {
        RelayModel { output: m.output, request_id: m.request_id, usage: m.usage, aborted: true }
    } else {
        spec_relay_run(spec_apply_chunk(m, frames[0]), frames.skip(1), open_count - 1)
    }
}

/// The frames the client receives from the producer loop, in order: one per
/// successful delivery, none after the first failure.
pub open spec fn spec_run_delivered(frames: Seq<Seq<u8>>, open_count: int) -> Seq<Seq<u8>>
    decreases frames.len(),
{
    if frames.len() == 0 || open_count <= 0 {
        Seq::empty()
    } else {
        seq![frames[0]] + spec_run_delivered(frames.skip(1), open_count - 1)
    }
}

/// How many frames the producer loop reads from upstream: every delivered one
/// and at most the single frame whose delivery failed.
pub open spec fn spec_run_reads(frames: Seq<Seq<u8>>, open_count: int) -> int
    decreases frames.len(),
{
    if frames.len() == 0 {
        0
    } else if open_count <= 0 {
        1
    } else {
        1 + spec_run_reads(frames.skip(1), open_count - 1)
    }
}

/// Law: when the client takes `open_count` frames and then disconnects, the
/// frames it received are exactly the first `open_count` upstream frames, in
/// receipt order, with no duplication and no gap.
pub proof fn lemma_delivered_is_prefix(frames: Seq<Seq<u8>>, open_count: int)
    requires
        open_count >= 0,
    ensures
        spec_run_delivered(frames, open_count) == frames.take(
            if open_count <= frames.len() {
                open_count
            } else {
                frames.len() as int
            },
        ),
    decreases frames.len(),
{
    if frames.len() == 0 || open_count == 0 {
        assert(spec_run_delivered(frames, open_count) =~= frames.take(
            if open_count <= frames.len() {
                open_count
            } else {
                frames.len() as int
            },
        ));
    } else {
        lemma_delivered_is_prefix(frames.skip(1), open_count - 1);
        assert(spec_run_delivered(frames, open_count) =~= frames.take(
            if open_count <= frames.len() {
                open_count
            } else {
                frames.len() as int
            },
        ));
    }
}

/// Law: a disconnect halts further upstream reads. The producer loop reads
/// exactly the delivered frames plus, when the client disconnected before the
/// stream ended, the one frame whose delivery failed.
pub proof fn lemma_reads_stop_on_disconnect(frames: Seq<Seq<u8>>, open_count: int)
    requires
        open_count >= 0,
    ensures
        spec_run_reads(frames, open_count) == if open_count + 1 <= frames.len() {
            open_count + 1
        } else {
            frames.len() as int
        },
    decreases frames.len(),
{
    if frames.len() == 0 || open_count == 0 {
    } else {
        lemma_reads_stop_on_disconnect(frames.skip(1), open_count - 1);
    }
}

/// Applying lines never changes the aborted flag: only a failed delivery
/// sets it.
proof fn lemma_apply_lines_keeps_aborted(m: RelayModel, lines: Seq<Seq<u8>>)
    ensures
        spec_apply_lines(m, lines).aborted == m.aborted,
    decreases lines.len(),
{
    if lines.len() > 0 {
        lemma_apply_lines_keeps_aborted(spec_apply_line(m, lines[0]), lines.skip(1));
    }
}

/// The accumulator after a sequence of chunks is applied in order.
pub open spec fn spec_apply_chunks(m: RelayModel, chunks: Seq<Seq<u8>>) -> RelayModel
    decreases chunks.len(),
{
    if chunks.len() == 0 {
        m
    } else {
        spec_apply_chunks(spec_apply_chunk(m, chunks[0]), chunks.skip(1))
    }
}

/// Law: metrics accumulation stops at the disconnect. The producer loop ends
/// in the state reached by accumulating exactly the delivered frames, and the
/// relay ends aborted exactly when the client disconnected early.
pub proof fn lemma_run_accumulates_delivered(m: RelayModel, frames: Seq<Seq<u8>>, open_count: int)
    requires
        open_count >= 0,
    ensures
        spec_relay_run(m, frames, open_count).output == spec_apply_chunks(
            m,
            spec_run_delivered(frames, open_count),
        ).output,
        spec_relay_run(m, frames, open_count).request_id == spec_apply_chunks(
            m,
            spec_run_delivered(frames, open_count),
        ).request_id,
        spec_relay_run(m, frames, open_count).usage == spec_apply_chunks(
            m,
            spec_run_delivered(frames, open_count),
        ).usage,
        spec_relay_run(m, frames, open_count).aborted == (m.aborted || open_count < frames.len()),
    decreases frames.len(),
{
    if frames.len() == 0 || open_count == 0 {
    } else {
        let m1 = spec_apply_chunk(m, frames[0]);
        lemma_apply_lines_keeps_aborted(m, lines_of(frames[0]));
        lemma_run_accumulates_delivered(m1, frames.skip(1), open_count - 1);
        let d = spec_run_delivered(frames, open_count);
        let d1 = spec_run_delivered(frames.skip(1), open_count - 1);
        assert(d[0] == frames[0]);
        assert(d.skip(1) =~= d1);
    }
}

/// The producer loop model unfolds one step at a time: reading the next frame
/// and applying `spec_relay_step` with the delivery outcome computes
/// `spec_relay_run`, so a loop built on `relay_step` implements the model.
pub proof fn lemma_run_steps(m: RelayModel, frames: Seq<Seq<u8>>, open_count: int)
    requires
        frames.len() > 0,
    ensures
        spec_relay_run(m, frames, open_count) == spec_relay_run(
            spec_relay_step(m, frames[0], open_count > 0),
            frames.skip(1),
            open_count - 1,
        ),
{
}

/// How the streaming path finalizes a record from the relay accumulator: the
/// accumulated output, the counts of the last usage seen, the original
/// upstream status, and the streamed mark; an id seen in the stream replaces
/// the recorded one.
pub open spec fn spec_finish_relay(
    prev: RequestRecord,
    cur: RequestRecord,
    m: RelayModel,
    status: u16,
    end: Seq<char>,
) -> bool {
    &&& cur.endpoint == prev.endpoint
    &&& cur.model == prev.model
    &&& cur.start_time == prev.start_time
    &&& cur.prompt == prev.prompt
    &&& cur.end_time@ == end
    &&& cur.duration_ms == spec_duration_ms(prev.start_time@, end, prev.duration_ms)
    &&& cur.output@ == m.output
    &&& cur.input_tokens == spec_input_tokens(m.usage)
    &&& cur.output_tokens == spec_output_tokens(m.usage)
    &&& cur.total_tokens == spec_input_tokens(m.usage) + spec_output_tokens(m.usage)
    &&& cur.http_status == status as i32
    &&& cur.was_streamed
    &&& cur.is_error == prev.is_error
    &&& cur.error_message == prev.error_message
    &&& (match m.request_id {
        Some(i) => cur.request_id matches Some(s) && s@ == i,
        None => cur.request_id == prev.request_id,
    })
}

/// Finalizes the record of a streamed exchange once the relay has ended,
/// whether it completed or was aborted. The one input it refuses — false is
/// returned and the record left open — is an accumulated usage whose counts
/// cannot be summed in the machine range.
pub fn finish_relay(record: &mut RequestRecord, st: RelayState, status: u16, end_time: String) -> (ok:
    bool)
    requires
        old(record).wf(),
        !old(record).finalized(),
        end_time@.len() > 0,
    ensures
        ok == token_sum_fits(st.usage),
        ok ==> spec_finish_relay(*old(record), *final(record), st@, status, end_time@),
        ok ==> final(record).wf() && final(record).finalized(),
        !ok ==> *final(record) == *old(record),
{
    let input_tokens = usage_input_tokens(&st.usage);
    let output_tokens = usage_output_tokens(&st.usage);
    if input_tokens.checked_add(output_tokens).is_none() {
        return false;
    }
    let RelayState { output, request_id, usage: _, aborted: _ } = st;
    record.complete(end_time, output, input_tokens, output_tokens, status as i32, true);
    if let Some(id) = request_id {
        record.request_id = Some(id);
    }
    true
}

} // verus!
