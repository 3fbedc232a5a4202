//! Watches of entities: how the server-sent event stream of a watch is cut
//! into lines and read, how updates are written to the watch log, and the
//! replies of the watch tools.

use vstd::prelude::*;
use crate::debug_mode::ResponseStatus;
use crate::error::{BrpMcpError, kind_prefix};
use crate::json::{JsonData, JsonValue, count_data, field_of};
use crate::json_text::{json_text, push_json_text, utf8_len, utf8_size};
use crate::logs::{trim_end_all, trim_end_exec};
use crate::response::{JsonResponse, ResponseBuilder, response_data, with_field};
use crate::text::{chars_of, decimal, decimal_string, find_char_from, index_of_from, lemma_index_of_from, push_chars, push_decimal, string_of, sub_chars};

verus! {

/// Largest chunk of the event stream taken in, in bytes.
pub const MAX_CHUNK_SIZE: usize = 1048576;
/// Largest text held while waiting for the end of a line, in bytes.
pub const MAX_BUFFER_SIZE: usize = 10485760;
/// The member that names a watch.
pub const JSON_FIELD_WATCH_ID: &'static str = "watch_id";
/// The member that gives a watch's log file.
pub const JSON_FIELD_LOG_PATH: &'static str = "log_path";
/// The kind of the updates a watch writes.
pub const COMPONENT_UPDATE: &'static str = "COMPONENT_UPDATE";

/// The text that some bytes hold as UTF-8; `None` where they are not valid
/// UTF-8.
pub uninterp spec fn utf8_decode(b: Seq<u8>) -> Option<Seq<char>>;

/// Trusted: wraps `std::str::from_utf8`, which std documents as the text
/// the bytes encode where they are valid UTF-8. The contract only names
/// that result.
#[verifier::external_body]
fn decode_utf8(bytes: &[u8]) -> (r: Option<String>)
    ensures
        match r {
            Some(s) => utf8_decode(bytes@) == Some(s@),
            None => utf8_decode(bytes@) is None,
        },
{
    match std::str::from_utf8(bytes) {
        Ok(s) => Some(s.to_string()),
        Err(_) => None,
    }
}

/// Whether a character is white space in Unicode's sense: it has the
/// `White_Space` property, as `char::is_whitespace` tests. These are the
/// control characters tab to carriage return, the space, next line, no-break
/// space, the Ogham space mark, the spaces from en quad to hair space, the
/// line and paragraph separators, the narrow no-break space, the medium
/// mathematical space and the ideographic space.
pub open spec fn is_white(c: char) -> bool {
    ||| '\u{9}' <= c <= '\u{d}'
    ||| c == ' '
    ||| c == '\u{85}'
    ||| c == '\u{a0}'
    ||| c == '\u{1680}'
    ||| '\u{2000}' <= c <= '\u{200a}'
    ||| c == '\u{2028}'
    ||| c == '\u{2029}'
    ||| c == '\u{202f}'
    ||| c == '\u{205f}'
    ||| c == '\u{3000}'
}

/// Whether a character is white space in Unicode's sense.
fn whitespace(c: char) -> (r: bool)
    ensures
        r == is_white(c),
{
    ('\u{9}' <= c && c <= '\u{d}') || c == ' ' || c == '\u{85}' || c == '\u{a0}' || c == '\u{1680}'
        || ('\u{2000}' <= c && c <= '\u{200a}') || c == '\u{2028}' || c == '\u{2029}' || c == '\u{202f}'
        || c == '\u{205f}' || c == '\u{3000}'
}

/// Whether a line holds nothing but white space.
pub open spec fn blank(s: Seq<char>) -> bool {
    forall|i: int| 0 <= i < s.len() ==> is_white(#[trigger] s[i])
}

/// A raw line of the stream, its newline and carriage returns removed.
pub open spec fn sse_line(raw: Seq<char>) -> Seq<char> {
    trim_end_all(trim_end_all(raw, seq!['\n']), seq!['\r'])
}

/// The lines completed in `s` after position `from`, blank ones left out.
pub open spec fn complete_lines_from(s: Seq<char>, from: int) -> Seq<Seq<char>>
    decreases s.len() - from,
{
    if from < 0 || from >= s.len() {
        Seq::empty()
    } else {
        match index_of_from(s, '\n', from) {
            None => Seq::empty(),
            Some(p) => {
                let line = sse_line(s.subrange(from, p + 1));
                let rest = if from < p + 1 <= s.len() { complete_lines_from(s, p + 1) } else { Seq::empty() };
                if blank(line) { rest } else { seq![line] + rest }
            },
        }
    }
}

/// The text after the last newline of `s` at or after `from`: what waits
/// for the end of its line.
pub open spec fn pending_from(s: Seq<char>, from: int) -> Seq<char>
    decreases s.len() - from,
{
    if from < 0 || from >= s.len() {
        if 0 <= from && from <= s.len() { s.subrange(from, s.len() as int) } else { s }
    } else {
        match index_of_from(s, '\n', from) {
            None => s.subrange(from, s.len() as int),
            Some(p) => if from < p + 1 <= s.len() { pending_from(s, p + 1) } else { s.subrange(from, s.len() as int) },
        }
    }
}

/// What waits for the end of its line holds no line end: every line that
/// the stream completes is handed out, and only the unfinished one is kept.
pub proof fn lemma_pending_has_no_newline(s: Seq<char>, from: int)
    requires
        0 <= from <= s.len(),
    ensures
        !pending_from(s, from).contains('\n'),
    decreases s.len() - from,
{
    if from == s.len() {
        assert(pending_from(s, from).len() == 0);
    } else {
        crate::text::lemma_index_of_from(s, '\n', from);
        match index_of_from(s, '\n', from) {
            None => {
                let t = s.subrange(from, s.len() as int);
                assert forall|j: int| 0 <= j < t.len() implies t[j] != '\n' by {
                    assert(t[j] == s[from + j]);
                }
            },
            Some(p) => {
                lemma_pending_has_no_newline(s, p + 1);
            },
        }
    }
}

/// The text of the event stream that waits for the end of its line.
pub struct SseLineBuffer {
    pub line_buffer: String,
    /// The size of that text in bytes.
    pub total_buffer_size: usize,
}

fn is_blank(s: &Vec<char>) -> (r: bool)
    ensures
        r == blank(s@),
{
    let mut i: usize = 0;
    while i < s.len()
        invariant
            i <= s.len(),
            forall|j: int| 0 <= j < i ==> is_white(#[trigger] s@[j]),
        decreases s.len() - i,
    {
        if !whitespace(s[i]) {
            return false;
        }
        i += 1;
    }
    true
}

impl SseLineBuffer {
    /// An empty buffer.
    pub fn new() -> (r: SseLineBuffer)
        ensures
            r.wf(),
            r.line_buffer@.len() == 0,
    {
        SseLineBuffer { line_buffer: String::new(), total_buffer_size: 0 }
    }

    /// The size kept is that of the text, within the limit.
    pub open spec fn wf(&self) -> bool {
        &&& self.total_buffer_size as nat == utf8_len(self.line_buffer@)
        &&& self.total_buffer_size <= MAX_BUFFER_SIZE
    }

    /// Takes in a chunk of the stream; returns the lines it completes, blank
    /// ones left out. A chunk above the chunk limit, or a held text above the
    /// buffer limit, is refused; a chunk that is no UTF-8 is skipped.
    pub fn process_chunk(&mut self, bytes: &[u8]) -> (r: Result<Vec<String>, String>)
        requires
            old(self).wf(),
        ensures
            bytes@.len() > MAX_CHUNK_SIZE ==> r is Err && *final(self) == *old(self),
            bytes@.len() <= MAX_CHUNK_SIZE && utf8_decode(bytes@) is None ==> (r matches Ok(v) && v@.len() == 0),
            bytes@.len() <= MAX_CHUNK_SIZE && utf8_decode(bytes@) is None ==> *final(self) == *old(self),
            bytes@.len() <= MAX_CHUNK_SIZE && utf8_decode(bytes@) is Some ==> ({
                let all = old(self).line_buffer@ + utf8_decode(bytes@)->Some_0;
                if utf8_len(all) > MAX_BUFFER_SIZE {
                    r is Err
                } else {
                    &&& r matches Ok(v) && crate::text::texts_of(v@) == complete_lines_from(all, 0)
                    &&& final(self).line_buffer@ == pending_from(all, 0)
                    &&& final(self).wf()
                }
            }),
    {
        if bytes.len() > MAX_CHUNK_SIZE {
            let mut m = String::from_str("Stream chunk size ");
            push_decimal(&mut m, bytes.len() as u64);
            m.append(" exceeds maximum 1048576");
            return Err(m);
        }
        let text = match decode_utf8(bytes) {
            Some(t) => t,
            None => return Ok(Vec::new()),
        };
        let mut all = String::from_str(self.line_buffer.as_str());
        all.append(text.as_str());
        let size = utf8_size(all.as_str());
        if size > MAX_BUFFER_SIZE as u128 {
            let mut m = String::from_str("Stream buffer size ");
            crate::text::push_decimal_wide(&mut m, size);
            m.append(" exceeds maximum 10485760");
            return Err(m);
        }
        let cs = chars_of(all.as_str());
        let mut lines: Vec<String> = Vec::new();
        let mut from: usize = 0;
        loop
            invariant
                cs@ == all@,
                from <= cs@.len(),
                crate::text::texts_of(lines@) + complete_lines_from(cs@, from as int) == complete_lines_from(cs@, 0),
                pending_from(cs@, from as int) == pending_from(cs@, 0),
            ensures
                from <= cs@.len(),
                crate::text::texts_of(lines@) == complete_lines_from(cs@, 0),
                cs@.subrange(from as int, cs@.len() as int) == pending_from(cs@, 0),
            decreases cs@.len() - from,
        {
            if from >= cs.len() {
                assert(complete_lines_from(cs@, from as int) =~= Seq::<Seq<char>>::empty());
                assert(crate::text::texts_of(lines@) + Seq::<Seq<char>>::empty() =~= crate::text::texts_of(lines@));
                break;
            }
            proof { lemma_index_of_from(cs@, '\n', from as int); }
            match find_char_from(cs.as_slice(), '\n', from) {
                None => {
                    assert(complete_lines_from(cs@, from as int) =~= Seq::<Seq<char>>::empty());
                    assert(crate::text::texts_of(lines@) + Seq::<Seq<char>>::empty() =~= crate::text::texts_of(lines@));
                    break;
                },
                Some(p) => {
                    let raw = sub_chars(cs.as_slice(), from, p + 1);
                    let nl = vec!['\n'];
                    let cr = vec!['\r'];
                    proof {
                        assert(nl@ =~= seq!['\n']);
                        assert(cr@ =~= seq!['\r']);
                    }
                    let t1 = trim_end_exec(raw, &nl);
                    let trimmed = trim_end_exec(t1, &cr);
                    assert(trimmed@ == sse_line(cs@.subrange(from as int, p + 1)));
                    let ghost before = crate::text::texts_of(lines@);
                    let ghost rest = complete_lines_from(cs@, p + 1);
                    if !is_blank(&trimmed) {
                        let line = string_of(trimmed.as_slice());
                        lines.push(line);
                        assert(crate::text::texts_of(lines@) =~= before.push(trimmed@));
                        assert(before.push(trimmed@) + rest =~= before + (seq![trimmed@] + rest));
                    }
                    from = p + 1;
                },
            }
        }
        proof {
            let s0 = cs@.subrange(0, from as int);
            let s1 = cs@.subrange(from as int, cs@.len() as int);
            assert(s0 + s1 =~= cs@);
            crate::json_text::lemma_utf8_len_concat(s0, s1);
        }
        let pending = string_of(sub_chars(cs.as_slice(), from, cs.len()).as_slice());
        let pending_size = utf8_size(pending.as_str());
        self.line_buffer = pending;
        self.total_buffer_size = pending_size as usize;
        Ok(lines)
    }
}

/// The prefix of the data lines of the event stream.
pub const SSE_DATA_PREFIX: &'static str = "data: ";

/// The JSON text a data line of the stream carries: what follows `data: `.
pub open spec fn sse_payload_of(line: Seq<char>) -> Option<Seq<char>> {
    if SSE_DATA_PREFIX@.len() <= line.len() && line.subrange(0, SSE_DATA_PREFIX@.len() as int) == SSE_DATA_PREFIX@ {
        Some(line.subrange(SSE_DATA_PREFIX@.len() as int, line.len() as int))
    } else {
        None
    }
}

/// The JSON text a data line of the stream carries, where it is one.
pub fn sse_payload(line: &str) -> (r: Option<String>)
    ensures
        match r {
            Some(p) => sse_payload_of(line@) == Some(p@),
            None => sse_payload_of(line@) is None,
        },
{
    let lc = chars_of(line);
    let pc = chars_of(SSE_DATA_PREFIX);
    if crate::text::starts_with_chars(lc.as_slice(), pc.as_slice()) {
        Some(string_of(sub_chars(lc.as_slice(), pc.len(), lc.len()).as_slice()))
    } else {
        None
    }
}

/// The update a watch message carries: the `result` of the JSON-RPC
/// message, where it has one.
pub fn update_result(message: &JsonValue) -> (r: Option<JsonValue>)
    ensures
        match r {
            Some(v) => field_of(message.data(), "result"@) == Some(v.data()),
            None => field_of(message.data(), "result"@) is None,
        },
{
    match message.get("result") {
        Some(v) => Some(v.deep_copy()),
        None => None,
    }
}

/// The JSON texts that the data lines among `lines` carry, in order.
pub open spec fn payloads_of(lines: Seq<Seq<char>>) -> Seq<Seq<char>>
    decreases lines.len(),
{
    if lines.len() == 0 {
        Seq::empty()
    } else {
        let rest = payloads_of(lines.drop_last());
        match sse_payload_of(lines.last()) {
            Some(p) => rest.push(p),
            None => rest,
        }
    }
}

/// The JSON texts that the data lines among some completed lines carry, in
/// order, each once.
pub fn data_payloads(lines: &Vec<String>) -> (r: Vec<String>)
    ensures
        crate::text::texts_of(r@) == payloads_of(crate::text::texts_of(lines@)),
{
    let mut out: Vec<String> = Vec::new();
    let mut i: usize = 0;
    while i < lines.len()
        invariant
            i <= lines.len(),
            crate::text::texts_of(out@) == payloads_of(crate::text::texts_of(lines@).subrange(0, i as int)),
        decreases lines.len() - i,
    {
        let ghost before = out@;
        let ghost seen = crate::text::texts_of(lines@).subrange(0, i + 1);
        assert(seen.drop_last() =~= crate::text::texts_of(lines@).subrange(0, i as int));
        assert(seen.last() == lines@[i as int]@);
        match sse_payload(lines[i].as_str()) {
            Some(p) => {
                out.push(p);
                assert(crate::text::texts_of(out@) =~= crate::text::texts_of(before).push(out@.last()@));
            },
            None => {},
        }
        i += 1;
    }
    assert(crate::text::texts_of(lines@).subrange(0, lines@.len() as int) =~= crate::text::texts_of(lines@));
    out
}

/// The updates that some messages carry, in order: the `result` of each
/// message that is JSON and has one.
pub open spec fn updates_of(messages: Seq<Option<JsonData>>) -> Seq<JsonData>
    decreases messages.len(),
{
    if messages.len() == 0 {
        Seq::empty()
    } else {
        let rest = updates_of(messages.drop_last());
        match messages.last() {
            Some(m) => match field_of(m, "result"@) {
                Some(u) => rest.push(u),
                None => rest,
            },
            None => rest,
        }
    }
}

/// The updates that the messages of a stream carry, in order, each once;
/// `None` stands for a data line whose text is no JSON.
pub fn message_updates(messages: &Vec<Option<JsonValue>>) -> (r: Vec<JsonValue>)
    ensures
        crate::json::values_data(r@) == updates_of(messages@.map_values(|m: Option<JsonValue>| crate::response::opt_data(m))),
{
    let ghost md = messages@.map_values(|m: Option<JsonValue>| crate::response::opt_data(m));
    let mut out: Vec<JsonValue> = Vec::new();
    let mut i: usize = 0;
    while i < messages.len()
        invariant
            i <= messages.len(),
            md == messages@.map_values(|m: Option<JsonValue>| crate::response::opt_data(m)),
            crate::json::values_data(out@) == updates_of(md.subrange(0, i as int)),
        decreases messages.len() - i,
    {
        let ghost before = out@;
        assert(md.subrange(0, i + 1).drop_last() =~= md.subrange(0, i as int));
        assert(md.subrange(0, i + 1).last() == crate::response::opt_data(messages@[i as int]));
        match &messages[i] {
            Some(m) => match update_result(m) {
                Some(u) => {
                    out.push(u);
                    assert(out@.drop_last() =~= before);
                },
                None => {},
            },
            None => {},
        }
        i += 1;
    }
    assert(md.subrange(0, md.len() as int) =~= md);
    out
}

/// The line a watch update takes in its log: the time it came, its kind,
/// and its data as compact JSON.
pub open spec fn watch_log_line_text(timestamp: Seq<char>, update_type: Seq<char>, data: JsonData) -> Seq<char> {
    "["@ + timestamp + "] "@ + update_type + ": "@ + json_text(data) + "\n"@
}

/// The line a watch update takes in its log.
pub fn watch_log_line(timestamp: &str, update_type: &str, data: &JsonValue) -> (r: String)
    ensures
        r@ == watch_log_line_text(timestamp@, update_type@, data.data()),
{
    let mut line = String::from_str("[");
    line.append(timestamp);
    line.append("] ");
    line.append(update_type);
    line.append(": ");
    push_json_text(&mut line, data);
    line.append("\n");
    line
}

/// Bytes of log text held before they are written.
pub const FLUSH_THRESHOLD: usize = 4096;

/// Whether the held log text is written now: it is over the threshold, or
/// the last write is older than the interval.
pub fn should_flush(buffer_len: usize, elapsed_ms: u128, interval_ms: u128) -> (r: bool)
    ensures
        r == (buffer_len > FLUSH_THRESHOLD || elapsed_ms > interval_ms),
{
    buffer_len > FLUSH_THRESHOLD || elapsed_ms > interval_ms
}

/// The name of a watch's log file.
pub open spec fn watch_log_name(watch_id: u32, watch_type: Seq<char>, entity_id: u64, timestamp: u64) -> Seq<char> {
    "bevy_brp_mcp_watch_"@ + decimal(watch_id as nat) + "_"@ + watch_type + "_"@ + decimal(entity_id as nat) + "_"@
        + decimal(timestamp as nat) + ".log"@
}

/// The name of a watch's log file.
pub fn watch_log_filename(watch_id: u32, watch_type: &str, entity_id: u64, timestamp: u64) -> (r: String)
    ensures
        r@ == watch_log_name(watch_id, watch_type@, entity_id, timestamp),
{
    let mut name = String::from_str("bevy_brp_mcp_watch_");
    push_decimal(&mut name, watch_id as u64);
    name.append("_");
    name.append(watch_type);
    name.append("_");
    push_decimal(&mut name, entity_id);
    name.append("_");
    push_decimal(&mut name, timestamp);
    name.append(".log");
    name
}

/// The reply to a watch start: the watch and its log file, or the error.
pub fn format_watch_start_response(result: Result<(u32, String), BrpMcpError>, operation_name: &str, entity_id: u64) -> (r: JsonResponse)
    ensures
        match result {
            Ok((id, path)) => response_data(r) == (ResponseStatus::Success,
                "Started "@ + operation_name@ + " "@ + decimal(id as nat) + " for entity "@ + decimal(entity_id as nat),
                with_field(with_field(None, JSON_FIELD_WATCH_ID@, count_data(id as nat)), JSON_FIELD_LOG_PATH@, JsonData::Str(path@)),
                None::<JsonData>, None::<JsonData>),
            Err(e) => response_data(r) == (ResponseStatus::Error, kind_prefix(e.kind()) + e.detail(),
                None::<JsonData>, None::<JsonData>, None::<JsonData>),
        },
{
    match result {
        Ok((watch_id, log_path)) => {
            let mut m = String::from_str("Started ");
            m.append(operation_name);
            m.append(" ");
            push_decimal(&mut m, watch_id as u64);
            m.append(" for entity ");
            push_decimal(&mut m, entity_id);
            ResponseBuilder::success()
                .message(m)
                .add_field(JSON_FIELD_WATCH_ID, JsonValue::from_count(watch_id as u128))
                .add_field(JSON_FIELD_LOG_PATH, JsonValue::String(log_path))
                .build()
        },
        Err(e) => ResponseBuilder::error().message(e.to_message()).build(),
    }
}

/// The reply to a watch stop.
pub fn format_watch_stop_response(result: Result<(), BrpMcpError>, watch_id: u32) -> (r: JsonResponse)
    ensures
        match result {
            Ok(()) => response_data(r) == (ResponseStatus::Success, "Stopped watch "@ + decimal(watch_id as nat),
                None::<JsonData>, None::<JsonData>, None::<JsonData>),
            Err(e) => response_data(r) == (ResponseStatus::Error, kind_prefix(e.kind()) + e.detail(),
                None::<JsonData>, None::<JsonData>, None::<JsonData>),
        },
{
    match result {
        Ok(()) => {
            let mut m = String::from_str("Stopped watch ");
            push_decimal(&mut m, watch_id as u64);
            ResponseBuilder::success().message(m).build()
        },
        Err(e) => ResponseBuilder::error().message(e.to_message()).build(),
    }
}

/// The member that lists the active watches.
pub const JSON_FIELD_WATCHES: &'static str = "watches";
/// The member that counts the active watches.
pub const JSON_FIELD_COUNT: &'static str = "count";

/// An active watch as the list of watches shows it.
pub open spec fn active_watch_data(watch_id: u32, entity_id: u64, watch_type: Seq<char>, log_path: Seq<char>, port: u16) -> Option<JsonData> {
    with_field(with_field(with_field(with_field(with_field(None, JSON_FIELD_WATCH_ID@, count_data(watch_id as nat)),
        "entity_id"@, count_data(entity_id as nat)), "watch_type"@, JsonData::Str(watch_type)),
        JSON_FIELD_LOG_PATH@, JsonData::Str(log_path)), "port"@, count_data(port as nat))
}

/// An active watch as the list of watches shows it: its id, the entity it
/// watches, its kind, its log file and the port of the app.
pub fn active_watch_json(watch_id: u32, entity_id: u64, watch_type: &str, log_path: &str, port: u16) -> (r: JsonValue)
    ensures
        Some(r.data()) == active_watch_data(watch_id, entity_id, watch_type@, log_path@, port),
{
    let b = ResponseBuilder::success()
        .add_field(JSON_FIELD_WATCH_ID, JsonValue::from_count(watch_id as u128))
        .add_field("entity_id", JsonValue::from_count(entity_id as u128))
        .add_field("watch_type", JsonValue::String(String::from_str(watch_type)))
        .add_field(JSON_FIELD_LOG_PATH, JsonValue::String(String::from_str(log_path)))
        .add_field("port", JsonValue::from_count(port as u128));
    match b.data {
        Some(d) => d,
        None => JsonValue::Null,
    }
}

/// The reply that lists the active watches: how many there are, and each.
pub fn list_active_watches_response(watches: Vec<JsonValue>) -> (r: JsonResponse)
    ensures
        response_data(r) == (ResponseStatus::Success,
            "Found "@ + decimal(watches@.len()) + " active watches"@,
            with_field(with_field(None, JSON_FIELD_WATCHES@, JsonData::Array(crate::json::values_data(watches@))),
                JSON_FIELD_COUNT@, count_data(watches@.len())),
            None::<JsonData>, None::<JsonData>),
{
    proof {
        reveal_strlit("count");
        reveal_strlit(" ");
        reveal_strlit("active watches");
        reveal_strlit(" active watches");
        assert(" "@ + "active watches"@ =~= " active watches"@);
    }
    crate::response::listing_response(JSON_FIELD_WATCHES, "active watches", watches)
}

} // verus!
