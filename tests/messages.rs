use parlar::protocol::{InboundEvent, OutboundCommand, Role};
use parlar::wire::{append_audio, decode_event, encode_command, event_from_fields, read_fields};

#[test]
fn encodes_simple_commands() {
    assert_eq!(encode_command(&OutboundCommand::CreateResponse), r#"{"type":"response.create"}"#);
    assert_eq!(encode_command(&OutboundCommand::CancelResponse), r#"{"type":"response.cancel"}"#);
    assert_eq!(encode_command(&OutboundCommand::Commit), r#"{"type":"input_audio_buffer.commit"}"#);
}

#[test]
fn encodes_truncate_with_escaped_id() {
    let c = OutboundCommand::TruncateItem { item_id: "it\"1".to_string(), content_index: 0, audio_end_ms: 1250 };
    assert_eq!(
        encode_command(&c),
        r#"{"type":"conversation.item.truncate","item_id":"it\"1","content_index":0,"audio_end_ms":1250}"#
    );
}

#[test]
fn encodes_audio_as_base64() {
    let c = append_audio(&[1, -1]);
    assert_eq!(c, OutboundCommand::AppendAudio { audio: vec![1, 0, 0xff, 0xff] });
    assert_eq!(encode_command(&c), r#"{"type":"input_audio_buffer.append","audio":"AQD//w=="}"#);
}

#[test]
fn decodes_audio_delta() {
    let e = decode_event(r#"{"type":"response.audio.delta","delta":"AQD//w=="}"#);
    assert_eq!(e, InboundEvent::AudioDelta { samples: vec![1, -1] });
    let bad = decode_event(r#"{"type":"response.audio.delta","delta":"!!"}"#);
    assert_eq!(bad, InboundEvent::Ignored);
}

#[test]
fn decodes_items() {
    assert_eq!(
        decode_event(r#"{"type":"response.output_item.added","item":{"id":"item_5"}}"#),
        InboundEvent::OutputItemAdded { item_id: "item_5".to_string() }
    );
    assert_eq!(
        decode_event(r#"{"type":"conversation.item.created","item":{"id":"u1","role":"user","content":[{"transcript":"hey there"}]}}"#),
        InboundEvent::ItemCreated { role: Role::User, item_id: Some("u1".to_string()), text: Some("hey there".to_string()) }
    );
    assert_eq!(
        decode_event(r#"{"type":"conversation.item.created","item":{"role":"system","content":[{"text":"t"}]}}"#),
        InboundEvent::ItemCreated { role: Role::Other, item_id: None, text: Some("t".to_string()) }
    );
}

#[test]
fn decodes_transcripts_and_errors() {
    assert_eq!(
        decode_event(r#"{"type":"conversation.item.input_audio_transcription.delta","delta":" stop"}"#),
        InboundEvent::TranscriptionDelta { text: " stop".to_string() }
    );
    assert_eq!(
        decode_event(r#"{"type":"conversation.item.input_audio_transcription.completed","transcript":"ok."}"#),
        InboundEvent::TranscriptionCompleted { text: "ok.".to_string() }
    );
    assert_eq!(
        decode_event(r#"{"type":"error","error":{"code":"bad","message":"no"}}"#),
        InboundEvent::Error { code: "bad".to_string(), message: "no".to_string() }
    );
    assert_eq!(
        decode_event(r#"{"type":"error"}"#),
        InboundEvent::Error { code: String::new(), message: String::new() }
    );
}

#[test]
fn decodes_bare_events() {
    assert_eq!(decode_event(r#"{"type":"session.created"}"#), InboundEvent::SessionCreated);
    assert_eq!(decode_event(r#"{"type":"input_audio_buffer.committed"}"#), InboundEvent::BufferCommitted);
    assert_eq!(decode_event(r#"{"type":"input_audio_buffer.speech_started"}"#), InboundEvent::SpeechStarted);
    assert_eq!(decode_event(r#"{"type":"response.done"}"#), InboundEvent::ResponseDone);
    assert_eq!(decode_event(r#"{"type":"response.audio.done"}"#), InboundEvent::AudioDone);
    assert_eq!(decode_event(r#"{"type":"response.text.done"}"#), InboundEvent::TextDone);
    assert_eq!(
        decode_event(r#"{"type":"response.text.delta","delta":"Hi"}"#),
        InboundEvent::TextDelta { text: "Hi".to_string() }
    );
}

#[test]
fn ignores_unknown_and_malformed() {
    assert_eq!(decode_event("not json"), InboundEvent::Ignored);
    assert_eq!(decode_event(r#"{"type":"rate_limits.updated"}"#), InboundEvent::Ignored);
    assert_eq!(decode_event(r#"{"type":"response.text.delta"}"#), InboundEvent::Ignored);
    assert_eq!(decode_event(r#"{"type":7}"#), InboundEvent::Ignored);
}

#[test]
fn fields_then_event() {
    let f = read_fields(r#"{"type":"response.audio.delta","delta":"AAA="}"#);
    assert_eq!(f.kind.as_deref(), Some("response.audio.delta"));
    assert_eq!(f.delta.as_deref(), Some("AAA="));
    assert_eq!(event_from_fields(f.clone(), Some(vec![2, 0, 3])), InboundEvent::AudioDelta { samples: vec![2] });
    assert_eq!(event_from_fields(f, None), InboundEvent::Ignored);
}
