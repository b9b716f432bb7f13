use parlar::conversation::{Conversation, Effect, TurnConfig};
use parlar::protocol::{InboundEvent, OutboundCommand, Role};
use parlar::text::asks_to_stop;

fn user_said(c: &mut Conversation, text: &str) {
    c.handle(InboundEvent::TranscriptionCompleted { text: text.to_string() }, 0);
}

fn interruption(id: &str) -> Vec<Effect> {
    vec![
        Effect::Send(OutboundCommand::CancelResponse),
        Effect::Send(OutboundCommand::TruncateItem { item_id: id.to_string(), content_index: 0, audio_end_ms: 0 }),
        Effect::ClearPlayback,
    ]
}

fn responding(id: &str) -> Conversation {
    let mut c = Conversation::new(TurnConfig::default());
    c.handle(InboundEvent::OutputItemAdded { item_id: id.to_string() }, 0);
    assert_eq!(c.on_response_timer(), Some(OutboundCommand::CreateResponse));
    c
}

#[test]
fn default_config_values() {
    let cfg = TurnConfig::default();
    assert_eq!(cfg.short_delay_ms, 200);
    assert_eq!(cfg.long_delay_ms, 700);
    assert_eq!(cfg.cancel_cooldown_ms, 400);
}

#[test]
fn question_gets_short_delay() {
    let mut c = Conversation::new(TurnConfig::default());
    user_said(&mut c, "what time is it?");
    assert_eq!(c.handle(InboundEvent::BufferCommitted, 10), vec![Effect::ScheduleResponse { delay_ms: 200 }]);
}

#[test]
fn unfinished_thought_gets_long_delay() {
    let mut c = Conversation::new(TurnConfig::default());
    user_said(&mut c, "ok so");
    assert_eq!(c.handle(InboundEvent::BufferCommitted, 10), vec![Effect::ScheduleResponse { delay_ms: 700 }]);
    let mut d = Conversation::new(TurnConfig::default());
    assert_eq!(d.handle(InboundEvent::BufferCommitted, 10), vec![Effect::ScheduleResponse { delay_ms: 700 }]);
}

#[test]
fn two_commits_create_one_response() {
    let mut c = Conversation::new(TurnConfig::default());
    user_said(&mut c, "hello.");
    assert_eq!(c.handle(InboundEvent::BufferCommitted, 0).len(), 1);
    assert_eq!(c.handle(InboundEvent::BufferCommitted, 50).len(), 1);
    assert_eq!(c.on_response_timer(), Some(OutboundCommand::CreateResponse));
    assert_eq!(c.on_response_timer(), None);
    assert!(c.response_inflight());
}

#[test]
fn speech_started_twice_interrupts_once() {
    let mut c = responding("item_1");
    assert_eq!(c.handle(InboundEvent::SpeechStarted, 100), interruption("item_1"));
    assert_eq!(c.handle(InboundEvent::SpeechStarted, 120), vec![]);
    assert!(!c.assistant_speaking());
    assert_eq!(c.last_cancel_at(), Some(100));
}

#[test]
fn interruption_without_item_skips_truncate() {
    let mut c = Conversation::new(TurnConfig::default());
    c.on_response_timer();
    assert_eq!(
        c.handle(InboundEvent::SpeechStarted, 5),
        vec![Effect::Send(OutboundCommand::CancelResponse), Effect::ClearPlayback]
    );
}

#[test]
fn keyword_barge_in_respects_cooldown() {
    let mut c = responding("item_2");
    assert_eq!(c.handle(InboundEvent::TranscriptionDelta { text: "Stop".to_string() }, 1000), interruption("item_2"));
    assert_eq!(c.last_user_partial(), "");
    // the assistant resumes playing
    c.handle(InboundEvent::AudioDelta { samples: vec![1, 2] }, 1100);
    assert!(c.response_active());
    assert_eq!(c.handle(InboundEvent::TranscriptionDelta { text: "stop".to_string() }, 1300), vec![]);
    assert_eq!(c.last_user_partial(), "stop");
    assert_eq!(c.handle(InboundEvent::TranscriptionDelta { text: " wait".to_string() }, 1400), interruption("item_2"));
    assert_eq!(c.last_cancel_at(), Some(1400));
}

#[test]
fn keyword_needs_assistant_speaking() {
    let mut c = Conversation::new(TurnConfig::default());
    assert_eq!(c.handle(InboundEvent::TranscriptionDelta { text: "stop".to_string() }, 0), vec![]);
    assert_eq!(c.last_user_partial(), "stop");
}

#[test]
fn keyword_phrases() {
    assert!(asks_to_stop("STOP please"));
    assert!(asks_to_stop("ok Hold On"));
    assert!(asks_to_stop("well hey"));
    assert!(asks_to_stop("please wait"));
    assert!(!asks_to_stop("nonstop talking"));
    assert!(!asks_to_stop("heya"));
    assert!(!asks_to_stop(""));
}

#[test]
fn turn_then_speech_interrupts_before_more_audio() {
    let mut c = Conversation::new(TurnConfig::default());
    user_said(&mut c, "tell me a story.");
    assert_eq!(c.handle(InboundEvent::BufferCommitted, 0), vec![Effect::ScheduleResponse { delay_ms: 200 }]);
    assert_eq!(c.on_response_timer(), Some(OutboundCommand::CreateResponse));
    c.handle(InboundEvent::OutputItemAdded { item_id: "item_9".to_string() }, 210);
    assert_eq!(
        c.handle(InboundEvent::AudioDelta { samples: vec![3, 4, 5] }, 220),
        vec![Effect::PlayAudio(vec![3, 4, 5])]
    );
    assert!(c.response_active());
    assert_eq!(c.handle(InboundEvent::SpeechStarted, 300), interruption("item_9"));
    assert!(!c.response_active());
    assert!(!c.response_inflight());
}

#[test]
fn benign_cancel_error_is_suppressed() {
    let mut c = Conversation::new(TurnConfig::default());
    let quiet = InboundEvent::Error { code: "response_cancel_not_active".to_string(), message: "x".to_string() };
    assert_eq!(c.handle(quiet, 0), vec![]);
    let loud = InboundEvent::Error { code: "rate_limited".to_string(), message: "slow".to_string() };
    assert_eq!(
        c.handle(loud, 0),
        vec![Effect::ReportError { code: "rate_limited".to_string(), message: "slow".to_string() }]
    );
}

#[test]
fn items_and_text_update_state() {
    let mut c = Conversation::new(TurnConfig::default());
    c.handle(
        InboundEvent::ItemCreated { role: Role::Assistant, item_id: Some("a1".to_string()), text: None },
        0,
    );
    assert_eq!(c.last_assistant_item_id(), Some("a1".to_string()));
    assert_eq!(
        c.handle(InboundEvent::ItemCreated { role: Role::User, item_id: None, text: Some("hi!".to_string()) }, 0),
        vec![Effect::ShowUser("hi!".to_string())]
    );
    assert_eq!(c.last_user_utterance(), "hi!");
    c.on_response_timer();
    c.handle(InboundEvent::TextDelta { text: "Hel".to_string() }, 0);
    c.handle(InboundEvent::TextDelta { text: "lo".to_string() }, 0);
    assert_eq!(c.last_assistant_text(), "Hello");
    assert_eq!(c.handle(InboundEvent::TextDone, 0), vec![Effect::EndAssistantText]);
    assert!(!c.response_inflight());
}

#[test]
fn done_events_end_response() {
    let mut c = responding("x");
    c.handle(InboundEvent::AudioDelta { samples: vec![] }, 0);
    c.handle(InboundEvent::ResponseDone, 0);
    assert!(!c.assistant_speaking());
    let mut d = responding("y");
    d.handle(InboundEvent::AudioDone, 0);
    assert!(!d.assistant_speaking());
}

#[test]
fn manual_interrupt_keeps_state() {
    let c = responding("m1");
    assert_eq!(c.manual_interrupt(), interruption("m1"));
    assert!(c.response_inflight());
}
