//! Messages exchanged with the conversational service, as closed variants.

use vstd::prelude::*;

verus! {

/// Author of a conversation item.
#[derive(Clone, Copy, Debug, PartialEq, Eq, Structural)]
pub enum Role {
    Assistant,
    User,
    Other,
}

/// A decoded inbound message. Unknown or malformed messages are `Ignored`.
#[derive(Clone, Debug, PartialEq, Eq)]
pub enum InboundEvent {
    SessionCreated,
    Error { code: String, message: String },
    BufferCommitted,
    OutputItemAdded { item_id: String },
    ItemCreated { role: Role, item_id: Option<String>, text: Option<String> },
    AudioDelta { samples: Vec<i16> },
    AudioDone,
    TextDelta { text: String },
    TextDone,
    ResponseDone,
    SpeechStarted,
    TranscriptionCompleted { text: String },
    TranscriptionDelta { text: String },
    Ignored,
}

pub enum EventModel {
    SessionCreated,
    Error { code: Seq<char>, message: Seq<char> },
    BufferCommitted,
    OutputItemAdded { item_id: Seq<char> },
    ItemCreated { role: Role, item_id: Option<Seq<char>>, text: Option<Seq<char>> },
    AudioDelta { samples: Seq<i16> },
    AudioDone,
    TextDelta { text: Seq<char> },
    TextDone,
    ResponseDone,
    SpeechStarted,
    TranscriptionCompleted { text: Seq<char> },
    TranscriptionDelta { text: Seq<char> },
    Ignored,
}

pub open spec fn opt_text(o: Option<String>) -> Option<Seq<char>> {
    match o {
        Some(s) => Some(s@),
        None => None,
    }
}

impl View for InboundEvent {
    type V = EventModel;

    open spec fn view(&self) -> EventModel {
        match self {
            InboundEvent::SessionCreated => EventModel::SessionCreated,
            InboundEvent::Error { code, message } => EventModel::Error { code: code@, message: message@ },
            InboundEvent::BufferCommitted => EventModel::BufferCommitted,
            InboundEvent::OutputItemAdded { item_id } => EventModel::OutputItemAdded { item_id: item_id@ },
            InboundEvent::ItemCreated { role, item_id, text } => EventModel::ItemCreated {
                role: *role,
                item_id: opt_text(*item_id),
                text: opt_text(*text),
            },
            InboundEvent::AudioDelta { samples } => EventModel::AudioDelta { samples: samples@ },
            InboundEvent::AudioDone => EventModel::AudioDone,
            InboundEvent::TextDelta { text } => EventModel::TextDelta { text: text@ },
            InboundEvent::TextDone => EventModel::TextDone,
            InboundEvent::ResponseDone => EventModel::ResponseDone,
            InboundEvent::SpeechStarted => EventModel::SpeechStarted,
            InboundEvent::TranscriptionCompleted { text } => EventModel::TranscriptionCompleted { text: text@ },
            InboundEvent::TranscriptionDelta { text } => EventModel::TranscriptionDelta { text: text@ },
            InboundEvent::Ignored => EventModel::Ignored,
        }
    }
}

/// A message to send to the service.
#[derive(Clone, Debug, PartialEq, Eq)]
pub enum OutboundCommand {
    AppendAudio { audio: Vec<u8> },
    Commit,
    CreateResponse,
    CancelResponse,
    TruncateItem { item_id: String, content_index: u32, audio_end_ms: u32 },
}

pub enum CommandModel {
    AppendAudio { audio: Seq<u8> },
    Commit,
    CreateResponse,
    CancelResponse,
    TruncateItem { item_id: Seq<char>, content_index: u32, audio_end_ms: u32 },
}

impl View for OutboundCommand {
    type V = CommandModel;

    open spec fn view(&self) -> CommandModel {
        match self {
            OutboundCommand::AppendAudio { audio } => CommandModel::AppendAudio { audio: audio@ },
            OutboundCommand::Commit => CommandModel::Commit,
            OutboundCommand::CreateResponse => CommandModel::CreateResponse,
            OutboundCommand::CancelResponse => CommandModel::CancelResponse,
            OutboundCommand::TruncateItem { item_id, content_index, audio_end_ms } => CommandModel::TruncateItem {
                item_id: item_id@,
                content_index: *content_index,
                audio_end_ms: *audio_end_ms,
            },
        }
    }
}

} // verus!
