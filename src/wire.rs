//! Text form of the messages: one JSON object per message, identified by its
//! `type` field. Outbound messages are assembled here; inbound ones are read
//! field by field through serde_json and turned into events.

use vstd::prelude::*;
use base64::Engine;
use crate::pcm::{decode_pcm16_le, samples_of};
use crate::protocol::{opt_text, CommandModel, EventModel, InboundEvent, OutboundCommand, Role};
use crate::text::chars_of;

verus! {

/// Standard base64 (with padding) of a byte string.
pub uninterp spec fn base64_of(b: Seq<u8>) -> Seq<char>;

/// Bytes of a standard base64 text, or `None` where the text is no valid base64.
pub uninterp spec fn base64_bytes_of(s: Seq<char>) -> Option<Seq<u8>>;

/// A text written as a JSON string literal, quotes and escapes included.
pub uninterp spec fn json_quoted(s: Seq<char>) -> Seq<char>;

/// The string found at JSON pointer `pointer` in JSON document `doc`; `None`
/// where `doc` is no JSON, or holds nothing or no string there.
pub uninterp spec fn json_text_at(doc: Seq<char>, pointer: Seq<char>) -> Option<Seq<char>>;

/// Relies on base64's `STANDARD.encode`: the encoding depends on the bytes alone.
#[verifier::external_body]
fn base64_encode(b: &[u8]) -> (r: String)
    ensures
        r@ == base64_of(b@),
{
    base64::engine::general_purpose::STANDARD.encode(b)
}

/// Relies on base64's `STANDARD.decode`: the bytes, or an error for text that
/// is not valid base64, depend on the text alone.
#[verifier::external_body]
fn base64_decode(s: &str) -> (r: Option<Vec<u8>>)
    ensures
        match r {
            Some(v) => base64_bytes_of(s@) == Some(v@),
            None => base64_bytes_of(s@) is None,
        },
{
    base64::engine::general_purpose::STANDARD.decode(s).ok()
}

/// Relies on `serde_json::to_string` on a `str`: the quoted, escaped literal
/// depends on the text alone (serialising a `str` does not fail).
#[verifier::external_body]
fn json_quote(s: &str) -> (r: String)
    ensures
        r@ == json_quoted(s@),
{
    match serde_json::to_string(s) {
        Ok(t) => t,
        Err(_) => String::new(),
    }
}

/// Relies on `serde_json::from_str` into a `Value`, then `Value::pointer` and
/// `Value::as_str` for each pointer: what is found depends on the document
/// and the pointer alone.
#[verifier::external_body]
fn json_strings_at(doc: &str, pointers: &Vec<&str>) -> (r: Vec<Option<String>>)
    ensures
        r@.len() == pointers@.len(),
        forall|i: int| 0 <= i < r@.len() ==> opt_text(#[trigger] r@[i]) == json_text_at(doc@, pointers@[i]@),
{
    let parsed: Option<serde_json::Value> = serde_json::from_str(doc).ok();
    pointers
        .iter()
        .map(|p| parsed.as_ref().and_then(|v| v.pointer(p)).and_then(|v| v.as_str()).map(|s| s.to_string()))
        .collect()
}

/// Relies on std's `FromIterator<char>` for `String`: the string holds the
/// characters in order.
#[verifier::external_body]
fn string_from_chars(v: &Vec<char>) -> (r: String)
    ensures
        r@ == v@,
{
    v.iter().collect()
}

fn push_text(out: &mut Vec<char>, s: &str)
    ensures
        final(out)@ == old(out)@ + s@,
{
    let mut cs = chars_of(s);
    out.append(&mut cs);
}

pub open spec fn digit(d: nat) -> char {
    seq!['0', '1', '2', '3', '4', '5', '6', '7', '8', '9'][d as int]
}

/// Decimal digits of `n`, without leading zeros.
pub open spec fn decimal(n: nat) -> Seq<char>
    decreases n,
{
    if n < 10 {
        seq![digit(n)]
    } else {
        decimal(n / 10).push(digit(n % 10))
    }
}

fn push_decimal(out: &mut Vec<char>, n: u32)
    ensures
        final(out)@ == old(out)@ + decimal(n as nat),
    decreases n,
{
    let digits: Vec<char> = vec!['0', '1', '2', '3', '4', '5', '6', '7', '8', '9'];
    if n >= 10 {
        push_decimal(out, n / 10);
    }
    out.push(digits[(n % 10) as usize]);
    assert(digits@ =~= seq!['0', '1', '2', '3', '4', '5', '6', '7', '8', '9']);
    if n >= 10 {
        assert(old(out)@ + decimal(n as nat) =~= old(out)@ + decimal((n / 10) as nat) + seq![digit((n % 10) as nat)]);
    } else {
        assert(old(out)@ + decimal(n as nat) =~= old(out)@ + seq![digit(n as nat)]);
    }
}

/// The message text of a command.
pub open spec fn command_text(c: CommandModel) -> Seq<char> {
    match c {
        CommandModel::AppendAudio { audio } => "{\"type\":\"input_audio_buffer.append\",\"audio\":\""@ + base64_of(audio)
            + "\"}"@,
        CommandModel::Commit => "{\"type\":\"input_audio_buffer.commit\"}"@,
        CommandModel::CreateResponse => "{\"type\":\"response.create\"}"@,
        CommandModel::CancelResponse => "{\"type\":\"response.cancel\"}"@,
        CommandModel::TruncateItem { item_id, content_index, audio_end_ms } => "{\"type\":\"conversation.item.truncate\",\"item_id\":"@
            + json_quoted(item_id) + ",\"content_index\":"@ + decimal(content_index as nat) + ",\"audio_end_ms\":"@
            + decimal(audio_end_ms as nat) + "}"@,
    }
}

/// Writes a command as message text.
pub fn encode_command(c: &OutboundCommand) -> (r: String)
    ensures
        r@ == command_text(c@),
{
    let mut out: Vec<char> = Vec::new();
    match c {
        OutboundCommand::AppendAudio { audio } => {
            push_text(&mut out, "{\"type\":\"input_audio_buffer.append\",\"audio\":\"");
            let b = base64_encode(audio.as_slice());
            push_text(&mut out, b.as_str());
            push_text(&mut out, "\"}");
        },
        OutboundCommand::Commit => {
            push_text(&mut out, "{\"type\":\"input_audio_buffer.commit\"}");
        },
        OutboundCommand::CreateResponse => {
            push_text(&mut out, "{\"type\":\"response.create\"}");
        },
        OutboundCommand::CancelResponse => {
            push_text(&mut out, "{\"type\":\"response.cancel\"}");
        },
        OutboundCommand::TruncateItem { item_id, content_index, audio_end_ms } => {
            push_text(&mut out, "{\"type\":\"conversation.item.truncate\",\"item_id\":");
            let q = json_quote(item_id.as_str());
            push_text(&mut out, q.as_str());
            push_text(&mut out, ",\"content_index\":");
            push_decimal(&mut out, *content_index);
            push_text(&mut out, ",\"audio_end_ms\":");
            push_decimal(&mut out, *audio_end_ms);
            push_text(&mut out, "}");
        },
    }
    string_from_chars(&out)
}

/// The command that forwards a captured chunk: its samples as little-endian bytes.
pub fn append_audio(samples: &[i16]) -> (r: OutboundCommand)
    requires
        samples@.len() * 2 <= usize::MAX,
    ensures
        r@ == (CommandModel::AppendAudio { audio: crate::pcm::bytes_of(samples@) }),
{
    OutboundCommand::AppendAudio { audio: crate::pcm::encode_pcm16_le(samples) }
}

/// The string fields of an inbound message that the events read.
#[derive(Clone, Debug, PartialEq, Eq)]
pub struct EventFields {
    pub kind: Option<String>,
    pub delta: Option<String>,
    pub item_id: Option<String>,
    pub item_role: Option<String>,
    pub item_transcript: Option<String>,
    pub item_text: Option<String>,
    pub error_code: Option<String>,
    pub error_message: Option<String>,
    pub transcript: Option<String>,
}

pub struct FieldsModel {
    pub kind: Option<Seq<char>>,
    pub delta: Option<Seq<char>>,
    pub item_id: Option<Seq<char>>,
    pub item_role: Option<Seq<char>>,
    pub item_transcript: Option<Seq<char>>,
    pub item_text: Option<Seq<char>>,
    pub error_code: Option<Seq<char>>,
    pub error_message: Option<Seq<char>>,
    pub transcript: Option<Seq<char>>,
}

impl View for EventFields {
    type V = FieldsModel;

    open spec fn view(&self) -> FieldsModel {
        FieldsModel {
            kind: opt_text(self.kind),
            delta: opt_text(self.delta),
            item_id: opt_text(self.item_id),
            item_role: opt_text(self.item_role),
            item_transcript: opt_text(self.item_transcript),
            item_text: opt_text(self.item_text),
            error_code: opt_text(self.error_code),
            error_message: opt_text(self.error_message),
            transcript: opt_text(self.transcript),
        }
    }
}

/// The fields of message text `doc`.
pub open spec fn fields_of(doc: Seq<char>) -> FieldsModel {
    FieldsModel {
        kind: json_text_at(doc, "/type"@),
        delta: json_text_at(doc, "/delta"@),
        item_id: json_text_at(doc, "/item/id"@),
        item_role: json_text_at(doc, "/item/role"@),
        item_transcript: json_text_at(doc, "/item/content/0/transcript"@),
        item_text: json_text_at(doc, "/item/content/0/text"@),
        error_code: json_text_at(doc, "/error/code"@),
        error_message: json_text_at(doc, "/error/message"@),
        transcript: json_text_at(doc, "/transcript"@),
    }
}

/// Reads the fields of a message text.
pub fn read_fields(doc: &str) -> (r: EventFields)
    ensures
        r@ == fields_of(doc@),
{
    let pointers: Vec<&str> = vec![
        "/type",
        "/delta",
        "/item/id",
        "/item/role",
        "/item/content/0/transcript",
        "/item/content/0/text",
        "/error/code",
        "/error/message",
        "/transcript",
    ];
    let mut found = json_strings_at(doc, &pointers);
    let ghost all = found@;
    let transcript = match found.pop() { Some(x) => x, None => None };
    let error_message = match found.pop() { Some(x) => x, None => None };
    let error_code = match found.pop() { Some(x) => x, None => None };
    let item_text = match found.pop() { Some(x) => x, None => None };
    let item_transcript = match found.pop() { Some(x) => x, None => None };
    let item_role = match found.pop() { Some(x) => x, None => None };
    let item_id = match found.pop() { Some(x) => x, None => None };
    let delta = match found.pop() { Some(x) => x, None => None };
    let kind = match found.pop() { Some(x) => x, None => None };
    proof {
        assert(opt_text(all[0]) == json_text_at(doc@, pointers@[0]@));
        assert(opt_text(all[1]) == json_text_at(doc@, pointers@[1]@));
        assert(opt_text(all[2]) == json_text_at(doc@, pointers@[2]@));
        assert(opt_text(all[3]) == json_text_at(doc@, pointers@[3]@));
        assert(opt_text(all[4]) == json_text_at(doc@, pointers@[4]@));
        assert(opt_text(all[5]) == json_text_at(doc@, pointers@[5]@));
        assert(opt_text(all[6]) == json_text_at(doc@, pointers@[6]@));
        assert(opt_text(all[7]) == json_text_at(doc@, pointers@[7]@));
        assert(opt_text(all[8]) == json_text_at(doc@, pointers@[8]@));
    }
    EventFields { kind, delta, item_id, item_role, item_transcript, item_text, error_code, error_message, transcript }
}

fn is_text(s: &Option<String>, lit: &str) -> (r: bool)
    ensures
        r == (opt_text(*s) == Some(lit@)),
{
    match s {
        Some(t) => {
            let l = lit.to_owned();
            *t == l
        },
        None => false,
    }
}

fn text_or_empty(s: Option<String>) -> (r: String)
    ensures
        r@ == text_or_empty_spec(opt_text(s)),
{
    match s {
        Some(t) => t,
        None => String::new(),
    }
}

pub open spec fn text_or_empty_spec(s: Option<Seq<char>>) -> Seq<char> {
    match s {
        Some(t) => t,
        None => Seq::empty(),
    }
}

pub open spec fn role_of(s: Option<Seq<char>>) -> Role {
    if s == Some("assistant"@) {
        Role::Assistant
    } else if s == Some("user"@) {
        Role::User
    } else {
        Role::Other
    }
}

pub open spec fn audio_delta_kind() -> Seq<char> {
    "response.audio.delta"@
}

/// The event that fields `f` describe; `audio` is the decoded payload of an
/// audio delta. A message of unknown type, or lacking a field its type
/// needs, is `Ignored`.
pub open spec fn event_model(f: FieldsModel, audio: Option<Seq<u8>>) -> EventModel {
    let k = f.kind;
    if k == Some("session.created"@) {
        EventModel::SessionCreated
    } else if k == Some("error"@) {
        EventModel::Error { code: text_or_empty_spec(f.error_code), message: text_or_empty_spec(f.error_message) }
    } else if k == Some("input_audio_buffer.committed"@) {
        EventModel::BufferCommitted
    } else if k == Some("response.output_item.added"@) {
        match f.item_id {
            Some(id) => EventModel::OutputItemAdded { item_id: id },
            None => EventModel::Ignored,
        }
    } else if k == Some("conversation.item.created"@) {
        EventModel::ItemCreated {
            role: role_of(f.item_role),
            item_id: f.item_id,
            text: if f.item_transcript is Some { f.item_transcript } else { f.item_text },
        }
    } else if k == Some(audio_delta_kind()) {
        match audio {
            Some(b) => EventModel::AudioDelta { samples: samples_of(b) },
            None => EventModel::Ignored,
        }
    } else if k == Some("response.audio.done"@) {
        EventModel::AudioDone
    } else if k == Some("response.text.delta"@) {
        match f.delta {
            Some(t) => EventModel::TextDelta { text: t },
            None => EventModel::Ignored,
        }
    } else if k == Some("response.text.done"@) {
        EventModel::TextDone
    } else if k == Some("response.done"@) {
        EventModel::ResponseDone
    } else if k == Some("input_audio_buffer.speech_started"@) {
        EventModel::SpeechStarted
    } else if k == Some("conversation.item.input_audio_transcription.completed"@) {
        match f.transcript {
            Some(t) => EventModel::TranscriptionCompleted { text: t },
            None => EventModel::Ignored,
        }
    } else if k == Some("conversation.item.input_audio_transcription.delta"@) {
        match f.delta {
            Some(t) => EventModel::TranscriptionDelta { text: t },
            None => EventModel::Ignored,
        }
    } else {
        EventModel::Ignored
    }
}

pub open spec fn opt_bytes(o: Option<Vec<u8>>) -> Option<Seq<u8>> {
    match o {
        Some(v) => Some(v@),
        None => None,
    }
}

/// Builds the event from message fields and, for an audio delta, the
/// decoded payload bytes.
pub fn event_from_fields(f: EventFields, audio: Option<Vec<u8>>) -> (r: InboundEvent)
    ensures
        r@ == event_model(f@, opt_bytes(audio)),
{
    let ghost fm = f@;
    if is_text(&f.kind, "session.created") {
        InboundEvent::SessionCreated
    } else if is_text(&f.kind, "error") {
        InboundEvent::Error { code: text_or_empty(f.error_code), message: text_or_empty(f.error_message) }
    } else if is_text(&f.kind, "input_audio_buffer.committed") {
        InboundEvent::BufferCommitted
    } else if is_text(&f.kind, "response.output_item.added") {
        match f.item_id {
            Some(id) => InboundEvent::OutputItemAdded { item_id: id },
            None => InboundEvent::Ignored,
        }
    } else if is_text(&f.kind, "conversation.item.created") {
        let role = if is_text(&f.item_role, "assistant") {
            Role::Assistant
        } else if is_text(&f.item_role, "user") {
            Role::User
        } else {
            Role::Other
        };
        let text = if f.item_transcript.is_some() { f.item_transcript } else { f.item_text };
        InboundEvent::ItemCreated { role, item_id: f.item_id, text }
    } else if is_text(&f.kind, "response.audio.delta") {
        match audio {
            Some(b) => InboundEvent::AudioDelta { samples: decode_pcm16_le(b.as_slice()) },
            None => InboundEvent::Ignored,
        }
    } else if is_text(&f.kind, "response.audio.done") {
        InboundEvent::AudioDone
    } else if is_text(&f.kind, "response.text.delta") {
        match f.delta {
            Some(t) => InboundEvent::TextDelta { text: t },
            None => InboundEvent::Ignored,
        }
    } else if is_text(&f.kind, "response.text.done") {
        InboundEvent::TextDone
    } else if is_text(&f.kind, "response.done") {
        InboundEvent::ResponseDone
    } else if is_text(&f.kind, "input_audio_buffer.speech_started") {
        InboundEvent::SpeechStarted
    } else if is_text(&f.kind, "conversation.item.input_audio_transcription.completed") {
        match f.transcript {
            Some(t) => InboundEvent::TranscriptionCompleted { text: t },
            None => InboundEvent::Ignored,
        }
    } else if is_text(&f.kind, "conversation.item.input_audio_transcription.delta") {
        match f.delta {
            Some(t) => InboundEvent::TranscriptionDelta { text: t },
            None => InboundEvent::Ignored,
        }
    } else {
        InboundEvent::Ignored
    }
}

/// Payload of an audio delta described by fields `f`, if it decodes.
pub open spec fn audio_payload(f: FieldsModel) -> Option<Seq<u8>> {
    if f.kind == Some(audio_delta_kind()) && f.delta is Some {
        base64_bytes_of(f.delta->0)
    } else {
        None
    }
}

/// Decodes one inbound message text into an event. Text that is no JSON,
/// has an unknown type, or lacks what its type needs becomes `Ignored`.
pub fn decode_event(doc: &str) -> (r: InboundEvent)
    ensures
        r@ == event_model(fields_of(doc@), audio_payload(fields_of(doc@))),
{
    let f = read_fields(doc);
    let audio = if is_text(&f.kind, "response.audio.delta") {
        match &f.delta {
            Some(d) => base64_decode(d.as_str()),
            None => None,
        }
    } else {
        None
    };
    event_from_fields(f, audio)
}

} // verus!
