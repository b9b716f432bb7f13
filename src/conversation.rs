//! Turn state machine: the conversation's response lifecycle, driven by
//! inbound events, response timers and the barge-in keyword test.
//!
//! Each transition is one call that updates the state and returns, in order,
//! the effects the caller must carry out: commands to send, a response timer
//! to start, audio to queue for playback, the playback queue to clear, and
//! text to show.

use vstd::prelude::*;
use vstd::string::*;
use crate::protocol::{CommandModel, EventModel, InboundEvent, OutboundCommand, Role};
use crate::text::{asks_to_stop, ends_terminal, ends_with_terminal, is_barge_in, lower_of};

verus! {

/// Tunables of turn-taking, in milliseconds.
#[derive(Clone, Copy, Debug, PartialEq, Eq, Structural)]
pub struct TurnConfig {
    /// Pause before responding to an utterance that ends in `.`, `!` or `?`.
    pub short_delay_ms: u64,
    /// Pause before responding to any other utterance.
    pub long_delay_ms: u64,
    /// Least time between two keyword interruptions.
    pub cancel_cooldown_ms: u64,
}

impl Default for TurnConfig {
    fn default() -> (r: TurnConfig)
        ensures
            r == (TurnConfig { short_delay_ms: 200, long_delay_ms: 700, cancel_cooldown_ms: 400 }),
    {
        TurnConfig { short_delay_ms: 200, long_delay_ms: 700, cancel_cooldown_ms: 400 }
    }
}

/// Something the caller must do after a transition.
#[derive(Clone, Debug, PartialEq, Eq)]
pub enum Effect {
    Send(OutboundCommand),
    /// Start a one-shot timer; on expiry call `Conversation::on_response_timer`.
    ScheduleResponse { delay_ms: u64 },
    /// Queue assistant audio for playback.
    PlayAudio(Vec<i16>),
    /// Drop all queued playback audio.
    ClearPlayback,
    ShowUser(String),
    ShowAssistantText(String),
    EndAssistantText,
    ReportError { code: String, message: String },
}

pub enum EffectModel {
    Send(CommandModel),
    ScheduleResponse { delay_ms: u64 },
    PlayAudio(Seq<i16>),
    ClearPlayback,
    ShowUser(Seq<char>),
    ShowAssistantText(Seq<char>),
    EndAssistantText,
    ReportError { code: Seq<char>, message: Seq<char> },
}

impl View for Effect {
    type V = EffectModel;

    open spec fn view(&self) -> EffectModel {
        match self {
            Effect::Send(c) => EffectModel::Send(c@),
            Effect::ScheduleResponse { delay_ms } => EffectModel::ScheduleResponse { delay_ms: *delay_ms },
            Effect::PlayAudio(s) => EffectModel::PlayAudio(s@),
            Effect::ClearPlayback => EffectModel::ClearPlayback,
            Effect::ShowUser(t) => EffectModel::ShowUser(t@),
            Effect::ShowAssistantText(t) => EffectModel::ShowAssistantText(t@),
            Effect::EndAssistantText => EffectModel::EndAssistantText,
            Effect::ReportError { code, message } => EffectModel::ReportError { code: code@, message: message@ },
        }
    }
}

pub open spec fn effects_view(v: Seq<Effect>) -> Seq<EffectModel> {
    v.map_values(|e: Effect| e@)
}

/// The conversation state as values.
pub struct ConversationModel {
    pub active: bool,
    pub inflight: bool,
    pub item_id: Option<Seq<char>>,
    pub utterance: Seq<char>,
    pub partial: Seq<char>,
    pub assistant_text: Seq<char>,
    pub cancel_at: Option<u64>,
}

pub open spec fn speaking(m: ConversationModel) -> bool {
    m.active || m.inflight
}

/// Pause before responding to the finished utterance `u`.
pub open spec fn response_delay(cfg: TurnConfig, u: Seq<char>) -> u64 {
    if ends_terminal(u) { cfg.short_delay_ms } else { cfg.long_delay_ms }
}

/// Whether the cooldown since the last interruption has run out at `now`.
/// A clock that went backwards counts as no time elapsed.
pub open spec fn cooldown_elapsed(cancel_at: Option<u64>, now: u64, cooldown: u64) -> bool {
    match cancel_at {
        None => true,
        Some(t) => (if now >= t { now - t } else { 0 }) >= cooldown,
    }
}

/// Effects of an interruption: cancel the response, truncate the assistant
/// item when one is known, then drop queued playback.
pub open spec fn interruption(item_id: Option<Seq<char>>) -> Seq<EffectModel> {
    let truncate = match item_id {
        Some(id) => seq![
            EffectModel::Send(CommandModel::TruncateItem { item_id: id, content_index: 0, audio_end_ms: 0 }),
        ],
        None => Seq::empty(),
    };
    seq![EffectModel::Send(CommandModel::CancelResponse)] + truncate + seq![EffectModel::ClearPlayback]
}

/// State right after a local interruption at `now`.
pub open spec fn interrupted(m: ConversationModel, now: u64) -> ConversationModel {
    ConversationModel { active: false, inflight: false, cancel_at: Some(now), ..m }
}

pub open spec fn on_speech_started(m: ConversationModel, now: u64) -> (ConversationModel, Seq<EffectModel>) {
    if speaking(m) {
        (interrupted(m, now), interruption(m.item_id))
    } else {
        (m, Seq::empty())
    }
}

pub open spec fn on_transcription_delta(cooldown: u64, m: ConversationModel, delta: Seq<char>, now: u64) -> (
    ConversationModel,
    Seq<EffectModel>,
) {
    let partial = m.partial + delta;
    if speaking(m) && cooldown_elapsed(m.cancel_at, now, cooldown) && is_barge_in(lower_of(partial)) {
        (ConversationModel { partial: Seq::empty(), ..interrupted(m, now) }, interruption(m.item_id))
    } else {
        (ConversationModel { partial: partial, ..m }, Seq::empty())
    }
}

/// Expiry of a response timer: request a response unless one is already in
/// flight or playing.
pub open spec fn on_response_timer(m: ConversationModel) -> (ConversationModel, Option<CommandModel>) {
    if speaking(m) {
        (m, None)
    } else {
        (ConversationModel { inflight: true, ..m }, Some(CommandModel::CreateResponse))
    }
}

pub open spec fn benign_error_code() -> Seq<char> {
    "response_cancel_not_active"@
}

/// One inbound event at time `now`: the next state and the effects, in order.
pub open spec fn step(cfg: TurnConfig, m: ConversationModel, e: EventModel, now: u64) -> (
    ConversationModel,
    Seq<EffectModel>,
) {
    match e {
        EventModel::Error { code, message } => (
            m,
            if code == benign_error_code() {
                Seq::empty()
            } else {
                seq![EffectModel::ReportError { code, message }]
            },
        ),
        EventModel::BufferCommitted => (
            m,
            seq![EffectModel::ScheduleResponse { delay_ms: response_delay(cfg, m.utterance) }],
        ),
        EventModel::OutputItemAdded { item_id } => (ConversationModel { item_id: Some(item_id), ..m }, Seq::empty()),
        EventModel::ItemCreated { role, item_id, text } => {
            if role == Role::Assistant && item_id is Some {
                (ConversationModel { item_id: item_id, ..m }, Seq::empty())
            } else if role == Role::User && text is Some {
                (ConversationModel { utterance: text->0, ..m }, seq![EffectModel::ShowUser(text->0)])
            } else {
                (m, Seq::empty())
            }
        },
        EventModel::AudioDelta { samples } => (
            ConversationModel { active: true, ..m },
            seq![EffectModel::PlayAudio(samples)],
        ),
        EventModel::AudioDone => (ConversationModel { active: false, inflight: false, ..m }, Seq::empty()),
        EventModel::ResponseDone => (ConversationModel { active: false, inflight: false, ..m }, Seq::empty()),
        EventModel::TextDelta { text } => (
            ConversationModel { assistant_text: m.assistant_text + text, ..m },
            seq![EffectModel::ShowAssistantText(text)],
        ),
        EventModel::TextDone => (ConversationModel { inflight: false, ..m }, seq![EffectModel::EndAssistantText]),
        EventModel::SpeechStarted => on_speech_started(m, now),
        EventModel::TranscriptionCompleted { text } => (
            ConversationModel { utterance: text, partial: Seq::empty(), ..m },
            seq![EffectModel::ShowUser(text)],
        ),
        EventModel::TranscriptionDelta { text } => on_transcription_delta(cfg.cancel_cooldown_ms, m, text, now),
        EventModel::SessionCreated => (m, Seq::empty()),
        EventModel::Ignored => (m, Seq::empty()),
    }
}

/// The single conversation state. Every change goes through one transition.
pub struct Conversation {
    config: TurnConfig,
    response_active: bool,
    response_inflight: bool,
    last_assistant_item_id: Option<String>,
    last_user_utterance: String,
    last_user_partial: String,
    last_assistant_text: String,
    last_cancel_at: Option<u64>,
}

impl View for Conversation {
    type V = ConversationModel;

    closed spec fn view(&self) -> ConversationModel {
        ConversationModel {
            active: self.response_active,
            inflight: self.response_inflight,
            item_id: crate::protocol::opt_text(self.last_assistant_item_id),
            utterance: self.last_user_utterance@,
            partial: self.last_user_partial@,
            assistant_text: self.last_assistant_text@,
            cancel_at: self.last_cancel_at,
        }
    }
}

impl Conversation {
    pub closed spec fn config_of(&self) -> TurnConfig {
        self.config
    }

    /// An idle conversation: nothing requested, nothing said yet.
    pub fn new(config: TurnConfig) -> (r: Conversation)
        ensures
            r.config_of() == config,
            r@ == (ConversationModel {
                active: false,
                inflight: false,
                item_id: None,
                utterance: Seq::empty(),
                partial: Seq::empty(),
                assistant_text: Seq::empty(),
                cancel_at: None,
            }),
    {
        Conversation {
            config,
            response_active: false,
            response_inflight: false,
            last_assistant_item_id: None,
            last_user_utterance: String::new(),
            last_user_partial: String::new(),
            last_assistant_text: String::new(),
            last_cancel_at: None,
        }
    }

    pub fn config(&self) -> (r: TurnConfig)
        ensures
            r == self.config_of(),
    {
        self.config
    }

    pub fn response_active(&self) -> (r: bool)
        ensures
            r == self@.active,
    {
        self.response_active
    }

    pub fn response_inflight(&self) -> (r: bool)
        ensures
            r == self@.inflight,
    {
        self.response_inflight
    }

    /// Whether the assistant is responding: a response is active or in flight.
    pub fn assistant_speaking(&self) -> (r: bool)
        ensures
            r == speaking(self@),
    {
        self.response_active || self.response_inflight
    }

    pub fn last_assistant_item_id(&self) -> (r: Option<String>)
        ensures
            crate::protocol::opt_text(r) == self@.item_id,
    {
        match &self.last_assistant_item_id {
            Some(id) => Some(id.clone()),
            None => None,
        }
    }

    pub fn last_user_utterance(&self) -> (r: String)
        ensures
            r@ == self@.utterance,
    {
        self.last_user_utterance.clone()
    }

    pub fn last_user_partial(&self) -> (r: String)
        ensures
            r@ == self@.partial,
    {
        self.last_user_partial.clone()
    }

    pub fn last_assistant_text(&self) -> (r: String)
        ensures
            r@ == self@.assistant_text,
    {
        self.last_assistant_text.clone()
    }

    pub fn last_cancel_at(&self) -> (r: Option<u64>)
        ensures
            r == self@.cancel_at,
    {
        self.last_cancel_at
    }

    /// Effects of an interruption of the current response.
    fn interruption_effects(&self) -> (r: Vec<Effect>)
        ensures
            effects_view(r@) == interruption(self@.item_id),
    {
        let mut v: Vec<Effect> = Vec::new();
        v.push(Effect::Send(OutboundCommand::CancelResponse));
        match &self.last_assistant_item_id {
            Some(id) => {
                v.push(
                    Effect::Send(OutboundCommand::TruncateItem { item_id: id.clone(), content_index: 0, audio_end_ms: 0 }),
                );
            },
            None => {},
        }
        v.push(Effect::ClearPlayback);
        assert(effects_view(v@) =~= interruption(self@.item_id));
        v
    }

    /// A user-requested interruption: cancel, truncate and clear playback,
    /// whatever the response lifecycle says. The state is left as it is.
    pub fn manual_interrupt(&self) -> (r: Vec<Effect>)
        ensures
            effects_view(r@) == interruption(self@.item_id),
    {
        self.interruption_effects()
    }

    /// Applies one inbound event received at `now_ms` (a monotonic clock in
    /// milliseconds) and returns the effects to carry out, in order.
    pub fn handle(&mut self, event: InboundEvent, now_ms: u64) -> (r: Vec<Effect>)
        ensures
            final(self).config_of() == old(self).config_of(),
            (final(self)@, effects_view(r@)) == step(old(self).config_of(), old(self)@, event@, now_ms),
    {
        let ghost m = self@;
        match event {
            InboundEvent::SessionCreated => Vec::new(),
            InboundEvent::Ignored => Vec::new(),
            InboundEvent::Error { code, message } => {
                let benign = "response_cancel_not_active".to_owned();
                if code == benign {
                    Vec::new()
                } else {
                    let v = vec![Effect::ReportError { code, message }];
                    assert(effects_view(v@) =~= step(self.config, m, event@, now_ms).1);
                    v
                }
            },
            InboundEvent::BufferCommitted => {
                let delay_ms = if ends_with_terminal(self.last_user_utterance.as_str()) {
                    self.config.short_delay_ms
                } else {
                    self.config.long_delay_ms
                };
                let v = vec![Effect::ScheduleResponse { delay_ms }];
                assert(effects_view(v@) =~= step(self.config, m, event@, now_ms).1);
                v
            },
            InboundEvent::OutputItemAdded { item_id } => {
                self.last_assistant_item_id = Some(item_id);
                Vec::new()
            },
            InboundEvent::ItemCreated { role, item_id, text } => {
                if role == Role::Assistant && item_id.is_some() {
                    self.last_assistant_item_id = item_id;
                    Vec::new()
                } else if role == Role::User && text.is_some() {
                    let t = text.unwrap();
                    self.last_user_utterance = t.clone();
                    let v = vec![Effect::ShowUser(t)];
                    assert(effects_view(v@) =~= step(self.config, m, event@, now_ms).1);
                    v
                } else {
                    Vec::new()
                }
            },
            InboundEvent::AudioDelta { samples } => {
                self.response_active = true;
                let v = vec![Effect::PlayAudio(samples)];
                assert(effects_view(v@) =~= step(self.config, m, event@, now_ms).1);
                v
            },
            InboundEvent::AudioDone => {
                self.response_active = false;
                self.response_inflight = false;
                Vec::new()
            },
            InboundEvent::ResponseDone => {
                self.response_active = false;
                self.response_inflight = false;
                Vec::new()
            },
            InboundEvent::TextDelta { text } => {
                self.last_assistant_text.append(text.as_str());
                let v = vec![Effect::ShowAssistantText(text)];
                assert(effects_view(v@) =~= step(self.config, m, event@, now_ms).1);
                v
            },
            InboundEvent::TextDone => {
                self.response_inflight = false;
                let v = vec![Effect::EndAssistantText];
                assert(effects_view(v@) =~= step(self.config, m, event@, now_ms).1);
                v
            },
            InboundEvent::SpeechStarted => {
                if self.response_active || self.response_inflight {
                    self.response_active = false;
                    self.response_inflight = false;
                    self.last_cancel_at = Some(now_ms);
                    self.interruption_effects()
                } else {
                    Vec::new()
                }
            },
            InboundEvent::TranscriptionCompleted { text } => {
                self.last_user_utterance = text.clone();
                self.last_user_partial = String::new();
                let v = vec![Effect::ShowUser(text)];
                assert(effects_view(v@) =~= step(self.config, m, event@, now_ms).1);
                v
            },
            InboundEvent::TranscriptionDelta { text } => {
                self.last_user_partial.append(text.as_str());
                let speaking = self.response_active || self.response_inflight;
                let cooldown_ok = match self.last_cancel_at {
                    None => true,
                    Some(t) => {
                        let elapsed: u64 = if now_ms >= t { now_ms - t } else { 0 };
                        elapsed >= self.config.cancel_cooldown_ms
                    },
                };
                if speaking && cooldown_ok && asks_to_stop(self.last_user_partial.as_str()) {
                    self.last_cancel_at = Some(now_ms);
                    self.last_user_partial = String::new();
                    self.response_active = false;
                    self.response_inflight = false;
                    self.interruption_effects()
                } else {
                    Vec::new()
                }
            },
        }
    }

    /// Expiry of a response timer started on a buffer commit.
    pub fn on_response_timer(&mut self) -> (r: Option<OutboundCommand>)
        ensures
            final(self).config_of() == old(self).config_of(),
            final(self)@ == on_response_timer(old(self)@).0,
            match r {
                Some(c) => on_response_timer(old(self)@).1 == Some(c@),
                None => on_response_timer(old(self)@).1 is None,
            },
    {
        if self.response_active || self.response_inflight {
            None
        } else {
            self.response_inflight = true;
            Some(OutboundCommand::CreateResponse)
        }
    }
}

/// A commit schedules a response after the short pause when the last user
/// utterance ends in a question mark, and after the long pause when it ends
/// in no terminal punctuation; the commit itself changes no state.
pub proof fn lemma_commit_picks_delay(cfg: TurnConfig, m: ConversationModel, now: u64)
    ensures
        step(cfg, m, EventModel::BufferCommitted, now).0 == m,
        m.utterance.len() > 0 && m.utterance.last() == '?' ==> step(cfg, m, EventModel::BufferCommitted, now).1
            == seq![EffectModel::ScheduleResponse { delay_ms: cfg.short_delay_ms }],
        !ends_terminal(m.utterance) ==> step(cfg, m, EventModel::BufferCommitted, now).1
            == seq![EffectModel::ScheduleResponse { delay_ms: cfg.long_delay_ms }],
{
}

/// Two commits whose timers both expire afterwards request exactly one
/// response from an idle conversation, and none while one is under way.
pub proof fn lemma_two_commits_one_response(cfg: TurnConfig, m: ConversationModel, t1: u64, t2: u64)
    ensures
        ({
            let m1 = step(cfg, m, EventModel::BufferCommitted, t1).0;
            let m2 = step(cfg, m1, EventModel::BufferCommitted, t2).0;
            let (m3, c1) = on_response_timer(m2);
            let (m4, c2) = on_response_timer(m3);
            &&& !speaking(m) ==> c1 == Some(CommandModel::CreateResponse) && c2 is None
            &&& speaking(m) ==> c1 is None && c2 is None
            &&& speaking(m4)
        }),
{
}

/// Speech starting twice in a row interrupts once: the second finds the
/// conversation idle and does nothing.
pub proof fn lemma_speech_started_idempotent(m: ConversationModel, t1: u64, t2: u64)
    ensures
        ({
            let (m1, e1) = on_speech_started(m, t1);
            let (m2, e2) = on_speech_started(m1, t2);
            &&& speaking(m) ==> e1 == interruption(m.item_id)
            &&& e2 == Seq::<EffectModel>::empty()
            &&& !speaking(m2)
        }),
{
}

/// A keyword delta interrupts a response; a second keyword delta within the
/// cooldown does nothing even if the assistant has started playing again,
/// while one after the cooldown interrupts again.
pub proof fn lemma_barge_in_cooldown(
    cfg: TurnConfig,
    m: ConversationModel,
    d1: Seq<char>,
    t1: u64,
    audio: Seq<i16>,
    ta: u64,
    d2: Seq<char>,
    t2: u64,
)
    requires
        speaking(m),
        cooldown_elapsed(m.cancel_at, t1, cfg.cancel_cooldown_ms),
        is_barge_in(lower_of(m.partial + d1)),
        t1 <= t2,
    ensures
        ({
            let (m1, e1) = step(cfg, m, EventModel::TranscriptionDelta { text: d1 }, t1);
            let m2 = step(cfg, m1, EventModel::AudioDelta { samples: audio }, ta).0;
            let (m3, e2) = step(cfg, m2, EventModel::TranscriptionDelta { text: d2 }, t2);
            &&& e1 == interruption(m.item_id)
            &&& t2 - t1 < cfg.cancel_cooldown_ms ==> e2 == Seq::<EffectModel>::empty()
            &&& t2 - t1 >= cfg.cancel_cooldown_ms && is_barge_in(lower_of(d2)) ==> e2 == interruption(m.item_id)
        }),
{
    let m1 = step(cfg, m, EventModel::TranscriptionDelta { text: d1 }, t1).0;
    assert(m1.partial + d2 =~= d2);
}

/// A full turn from an idle conversation: a commit schedules a response, its
/// timer requests it, audio then plays and marks the response active, and
/// speech starting mid-playback cancels, truncates the assistant item at its
/// start, drops queued playback and leaves the conversation idle.
pub proof fn lemma_turn_then_interruption(
    cfg: TurnConfig,
    m: ConversationModel,
    id: Seq<char>,
    audio: Seq<i16>,
    t1: u64,
    t2: u64,
    t3: u64,
)
    requires
        !speaking(m),
        m.item_id == Some(id),
    ensures
        ({
            let (m1, e1) = step(cfg, m, EventModel::BufferCommitted, t1);
            let (m2, c) = on_response_timer(m1);
            let (m3, e3) = step(cfg, m2, EventModel::AudioDelta { samples: audio }, t2);
            let (m4, e4) = step(cfg, m3, EventModel::SpeechStarted, t3);
            &&& e1 == seq![EffectModel::ScheduleResponse { delay_ms: response_delay(cfg, m.utterance) }]
            &&& c == Some(CommandModel::CreateResponse)
            &&& e3 == seq![EffectModel::PlayAudio(audio)]
            &&& m3.active
            &&& e4 == seq![
                EffectModel::Send(CommandModel::CancelResponse),
                EffectModel::Send(CommandModel::TruncateItem { item_id: id, content_index: 0, audio_end_ms: 0 }),
                EffectModel::ClearPlayback,
            ]
            &&& !m4.active && !m4.inflight
        }),
{
    let m3 = step(cfg, on_response_timer(step(cfg, m, EventModel::BufferCommitted, t1).0).0, EventModel::AudioDelta { samples: audio }, t2).0;
    assert(interruption(m3.item_id) =~= seq![
        EffectModel::Send(CommandModel::CancelResponse),
        EffectModel::Send(CommandModel::TruncateItem { item_id: id, content_index: 0, audio_end_ms: 0 }),
        EffectModel::ClearPlayback,
    ]);
}

} // verus!
