//! The translation session: which session runs, how it reconnects after a
//! failure, how each event of a running session is handled, and the notices
//! and transcript updates it reports to the frontend.
use vstd::prelude::*;

use crate::audio::{pcm16_decode, pcm16_le_bytes_to_i16};
use crate::text::{decimal_text, push_decimal, push_str};
use crate::websocket::{
    audio_chunk_message, audio_chunk_text, audio_delta_bytes, base64_padded_len,
    decode_audio_delta, extract_transcript_delta, has_type, is_event_type, server_events,
    ServerEvent,
};

verus! {

/// How many times a failed session is retried before giving up.
pub const MAX_RECONNECT_ATTEMPTS: u32 = 5;

// ---------------------------------------------------------------------------
// Notices
// ---------------------------------------------------------------------------

/// The connection state shown to the frontend.
#[derive(Clone, Copy, PartialEq, Eq, Debug)]
pub enum ConnectionStatus {
    Connecting,
    Connected,
    Reconnecting,
    Disconnected,
    Error,
}

/// The name of a status on the wire.
pub open spec fn status_text(s: ConnectionStatus) -> Seq<char> {
    match s {
        ConnectionStatus::Connecting => "connecting"@,
        ConnectionStatus::Connected => "connected"@,
        ConnectionStatus::Reconnecting => "reconnecting"@,
        ConnectionStatus::Disconnected => "disconnected"@,
        ConnectionStatus::Error => "error"@,
    }
}

impl ConnectionStatus {
    /// The name of the status on the wire.
    pub fn as_str(&self) -> (s: &'static str)
        ensures
            s@ == status_text(*self),
    {
        match self {
            ConnectionStatus::Connecting => "connecting",
            ConnectionStatus::Connected => "connected",
            ConnectionStatus::Reconnecting => "reconnecting",
            ConnectionStatus::Disconnected => "disconnected",
            ConnectionStatus::Error => "error",
        }
    }
}

/// A notice for the frontend: a change of connection status, or an error.
#[allow(inconsistent_fields)]
pub enum SessionNotice {
    Status { status: ConnectionStatus, message: Option<String> },
    Error { message: String, recoverable: bool },
}

/// The notice is the status `status` with message `message`.
pub open spec fn is_status(n: SessionNotice, status: ConnectionStatus, message: Option<Seq<char>>) -> bool {
    match n {
        SessionNotice::Status { status: s, message: m } => s == status && match m {
            Some(t) => message == Some(t@),
            None => message is None,
        },
        _ => false,
    }
}

/// The notice is the error `message`, recoverable or not.
pub open spec fn is_error(n: SessionNotice, message: Seq<char>, recoverable: bool) -> bool {
    match n {
        SessionNotice::Error { message: m, recoverable: r } => m@ == message && r == recoverable,
        _ => false,
    }
}

fn status_notice(status: ConnectionStatus, message: Option<String>) -> (n: SessionNotice)
    ensures
        is_status(
            n,
            status,
            match message {
                Some(t) => Some(t@),
                None => None,
            },
        ),
{
    SessionNotice::Status { status, message }
}

// ---------------------------------------------------------------------------
// Transcripts
// ---------------------------------------------------------------------------

/// Whose speech a transcript is of.
#[derive(Clone, Copy, PartialEq, Eq, Debug)]
pub enum TranscriptRole {
    /// The translated speech.
    Translated,
    /// The speaker's own speech.
    Source,
}

/// The name of a role on the wire.
pub open spec fn role_text(r: TranscriptRole) -> Seq<char> {
    match r {
        TranscriptRole::Translated => "translated"@,
        TranscriptRole::Source => "source"@,
    }
}

impl TranscriptRole {
    /// The name of the role on the wire.
    pub fn as_str(&self) -> (s: &'static str)
        ensures
            s@ == role_text(*self),
    {
        match self {
            TranscriptRole::Translated => "translated",
            TranscriptRole::Source => "source",
        }
    }
}

/// One transcript update for the frontend.
pub struct TranscriptUpdate {
    pub id: String,
    pub role: TranscriptRole,
    pub text: String,
    pub is_final: bool,
    pub timestamp: u64,
}

/// The id of the transcript numbered `n`.
pub open spec fn transcript_id_text(n: u64) -> Seq<char> {
    "t"@ + decimal_text(n as nat)
}

/// Hands out transcript ids `t0`, `t1`, ... in turn.
pub struct TranscriptIds {
    next: u64,
}

impl TranscriptIds {
    /// The number of the next id.
    pub closed spec fn counter(self) -> u64 {
        self.next
    }

    /// Starts at `t0`.
    pub fn new() -> (ids: Self)
        ensures
            ids.counter() == 0,
    {
        TranscriptIds { next: 0 }
    }

    /// The next id; the counter moves on by one, wrapping around after
    /// `u64::MAX`.
    pub fn next_transcript_id(&mut self) -> (id: String)
        ensures
            id@ == transcript_id_text(old(self).counter()),
            final(self).counter() == (if old(self).counter() == u64::MAX {
                0
            } else {
                old(self).counter() + 1
            }),
    {
        let n = self.next;
        self.next = if n == u64::MAX {
            0
        } else {
            n + 1
        };
        let mut id = "t".to_owned();
        push_decimal(&mut id, n);
        id
    }

    /// A transcript update with the next id.
    pub fn transcript_update(
        &mut self,
        role: TranscriptRole,
        text: String,
        is_final: bool,
        timestamp: u64,
    ) -> (u: TranscriptUpdate)
        ensures
            u.id@ == transcript_id_text(old(self).counter()),
            final(self).counter() == (if old(self).counter() == u64::MAX {
                0
            } else {
                old(self).counter() + 1
            }),
            u.role == role,
            u.text == text,
            u.is_final == is_final,
            u.timestamp == timestamp,
    {
        let id = self.next_transcript_id();
        TranscriptUpdate { id, role, text, is_final, timestamp }
    }
}

/// Transcripts with different numbers get different ids.
pub proof fn law_transcript_ids_distinct(m: u64, n: u64)
    requires
        m != n,
    ensures
        transcript_id_text(m) != transcript_id_text(n),
{
    if transcript_id_text(m) == transcript_id_text(n) {
        reveal_strlit("t");
        assert(transcript_id_text(m).drop_first() =~= decimal_text(m as nat));
        assert(transcript_id_text(n).drop_first() =~= decimal_text(n as nat));
        crate::text::lemma_decimal_text_injective(m as nat, n as nat);
    }
}

/// Milliseconds since the Unix epoch as a `u64` timestamp: the clock's
/// reading truncated to 64 bits, or 0 when the clock reads before the epoch.
pub fn now_millis(elapsed_millis: Option<u128>) -> (ms: u64)
    ensures
        ms as int == match elapsed_millis {
            Some(e) => e as int % 0x1_0000_0000_0000_0000,
            None => 0,
        },
{
    match elapsed_millis {
        Some(e) => (e % 0x1_0000_0000_0000_0000u128) as u64,
        None => 0,
    }
}

// ---------------------------------------------------------------------------
// Server events
// ---------------------------------------------------------------------------

/// What to do with one server event.
pub enum ServerAction {
    /// Queue this translated audio (mono PCM16 at the service rate).
    Play(Vec<i16>),
    /// Report a transcript delta.
    Transcript(TranscriptRole, String),
    /// Report this notice.
    Notify(SessionNotice),
    /// Nothing to do.
    Ignore,
}

/// The message reported for an error event.
pub open spec fn server_error_text(event: ServerEvent) -> Seq<char> {
    match event.error_message {
        Some(m) => m@,
        None => "unknown error from OpenAI Realtime API"@,
    }
}

/// The event is a transcript delta of `role`'s speech carrying `d`.
pub open spec fn transcript_for(a: ServerAction, role: TranscriptRole, event: ServerEvent) -> bool {
    match event.delta {
        Some(d) => a matches ServerAction::Transcript(r, t) && r == role && t@ == d@,
        None => a is Ignore,
    }
}

/// What handling a server event does, by its type.
pub open spec fn handles_server_event(event: ServerEvent, a: ServerAction) -> bool {
    if has_type(event, server_events::OUTPUT_AUDIO_DELTA@) {
        match audio_delta_bytes(event) {
            Some(b) => a matches ServerAction::Play(s) && s@ == pcm16_decode(b),
            None => a is Ignore,
        }
    } else if has_type(event, server_events::OUTPUT_TRANSCRIPT_DELTA@) {
        transcript_for(a, TranscriptRole::Translated, event)
    } else if has_type(event, server_events::INPUT_TRANSCRIPT_DELTA@) {
        transcript_for(a, TranscriptRole::Source, event)
    } else if has_type(event, server_events::ERROR@) {
        a matches ServerAction::Notify(n) && is_error(n, server_error_text(event), true)
    } else {
        a is Ignore
    }
}

/// Handles one server event: translated audio is decoded for playback,
/// transcript deltas are reported with their role, error events become
/// recoverable errors, and any other event is ignored.
pub fn handle_server_event(value: &ServerEvent) -> (a: ServerAction)
    ensures
        handles_server_event(*value, a),
{
    if is_event_type(value, server_events::OUTPUT_AUDIO_DELTA) {
        match decode_audio_delta(value) {
            Some(bytes) => ServerAction::Play(pcm16_le_bytes_to_i16(bytes.as_slice())),
            None => ServerAction::Ignore,
        }
    } else if is_event_type(value, server_events::OUTPUT_TRANSCRIPT_DELTA) {
        match extract_transcript_delta(value) {
            Some(text) => ServerAction::Transcript(TranscriptRole::Translated, text),
            None => ServerAction::Ignore,
        }
    } else if is_event_type(value, server_events::INPUT_TRANSCRIPT_DELTA) {
        match extract_transcript_delta(value) {
            Some(text) => ServerAction::Transcript(TranscriptRole::Source, text),
            None => ServerAction::Ignore,
        }
    } else if is_event_type(value, server_events::ERROR) {
        let message = match &value.error_message {
            Some(m) => m.clone(),
            None => "unknown error from OpenAI Realtime API".to_owned(),
        };
        ServerAction::Notify(SessionNotice::Error { message, recoverable: true })
    } else {
        ServerAction::Ignore
    }
}

/// What to do with one read while waiting for the close acknowledgement.
pub enum CloseWaitStep {
    /// Handle the event (translated audio and transcripts still buffered at
    /// the server are delivered this way) and read again.
    Handle(ServerAction),
    /// Stop waiting.
    Stop,
}

/// While waiting for `session.closed` after asking the server to close:
/// the acknowledgement, an error or the end of the connection stop the
/// wait; every other event is handled as during the session, so buffered
/// translated audio still reaches playback.
pub fn close_wait_step(event: Option<Result<ServerEvent, String>>) -> (r: CloseWaitStep)
    ensures
        match event {
            Some(Ok(ev)) => if has_type(ev, server_events::SESSION_CLOSED@) {
                r is Stop
            } else {
                r matches CloseWaitStep::Handle(a) && handles_server_event(ev, a)
            },
            _ => r is Stop,
        },
{
    match event {
        Some(Ok(ev)) => {
            if is_event_type(&ev, server_events::SESSION_CLOSED) {
                CloseWaitStep::Stop
            } else {
                CloseWaitStep::Handle(handle_server_event(&ev))
            }
        },
        _ => CloseWaitStep::Stop,
    }
}

proof fn lemma_event_names_distinct()
    ensures
        server_events::OUTPUT_AUDIO_DELTA@ != server_events::OUTPUT_TRANSCRIPT_DELTA@,
        server_events::OUTPUT_AUDIO_DELTA@ != server_events::INPUT_TRANSCRIPT_DELTA@,
        server_events::OUTPUT_AUDIO_DELTA@ != server_events::ERROR@,
        server_events::OUTPUT_TRANSCRIPT_DELTA@ != server_events::INPUT_TRANSCRIPT_DELTA@,
        server_events::OUTPUT_TRANSCRIPT_DELTA@ != server_events::ERROR@,
        server_events::INPUT_TRANSCRIPT_DELTA@ != server_events::ERROR@,
{
    reveal_strlit("session.output_audio.delta");
    reveal_strlit("session.output_transcript.delta");
    reveal_strlit("session.input_transcript.delta");
    reveal_strlit("error");
    assert(server_events::OUTPUT_AUDIO_DELTA@[15] != server_events::OUTPUT_TRANSCRIPT_DELTA@[15]);
    assert(server_events::OUTPUT_AUDIO_DELTA@[8] != server_events::INPUT_TRANSCRIPT_DELTA@[8]);
    assert(server_events::OUTPUT_AUDIO_DELTA@.len() != server_events::ERROR@.len());
    assert(server_events::OUTPUT_TRANSCRIPT_DELTA@[8]
        != server_events::INPUT_TRANSCRIPT_DELTA@[8]);
    assert(server_events::OUTPUT_TRANSCRIPT_DELTA@.len() != server_events::ERROR@.len());
    assert(server_events::INPUT_TRANSCRIPT_DELTA@.len() != server_events::ERROR@.len());
}

/// What each kind of server event does, by its fields: a transcript delta
/// is reported with its role and exactly the text sent; translated audio is
/// played as the PCM16 samples its base64 delta decodes to; an error event
/// is reported as a recoverable error with its message (or a fixed one when
/// it has none); a delta-less transcript or undecodable audio, and every
/// other event, does nothing.
pub proof fn law_server_events_handled_by_kind(ev: ServerEvent, a: ServerAction)
    requires
        handles_server_event(ev, a),
    ensures
        has_type(ev, server_events::OUTPUT_TRANSCRIPT_DELTA@) ==> match ev.delta {
            Some(d) => a matches ServerAction::Transcript(r, t) && r == TranscriptRole::Translated
                && t@ == d@,
            None => a is Ignore,
        },
        has_type(ev, server_events::INPUT_TRANSCRIPT_DELTA@) ==> match ev.delta {
            Some(d) => a matches ServerAction::Transcript(r, t) && r == TranscriptRole::Source
                && t@ == d@,
            None => a is Ignore,
        },
        has_type(ev, server_events::OUTPUT_AUDIO_DELTA@) ==> match ev.delta {
            Some(d) => match crate::websocket::base64_decoding(d@) {
                Some(bytes) => a matches ServerAction::Play(samples) && samples@.len() == bytes.len()
                    / 2 && forall|i: int|
                    0 <= i < samples@.len() ==> #[trigger] samples@[i]
                        == crate::audio::le_i16(bytes[2 * i], bytes[2 * i + 1]),
                None => a is Ignore,
            },
            None => a is Ignore,
        },
        has_type(ev, server_events::ERROR@) ==> (a matches ServerAction::Notify(
            SessionNotice::Error { message, recoverable },
        ) && recoverable && message@ == match ev.error_message {
            Some(m) => m@,
            None => "unknown error from OpenAI Realtime API"@,
        }),
        !has_type(ev, server_events::OUTPUT_TRANSCRIPT_DELTA@) && !has_type(
            ev,
            server_events::INPUT_TRANSCRIPT_DELTA@,
        ) && !has_type(ev, server_events::OUTPUT_AUDIO_DELTA@) && !has_type(
            ev,
            server_events::ERROR@,
        ) ==> a is Ignore,
{
    lemma_event_names_distinct();
}

// ---------------------------------------------------------------------------
// One running session
// ---------------------------------------------------------------------------

/// What happened while a connected session runs.
pub enum LoopEvent {
    /// The session was asked to stop.
    Cancelled,
    /// The microphone produced a chunk of PCM16-LE bytes.
    MicChunk(Vec<u8>),
    /// The microphone's channel closed.
    MicClosed,
    /// Sending to the server failed, with this message.
    SendFailed(String),
    /// The next server event, a read error, or `None` when the connection
    /// closed.
    Server(Option<Result<ServerEvent, String>>),
}

/// What to do next in a connected session.
pub enum LoopAction {
    /// Send this text to the server.
    Send(String),
    /// Carry out the handling of a server event.
    Handle(ServerAction),
    /// End the session with this result.
    Stop(Result<(), String>),
}

/// The loop can take the event: a microphone chunk must be small enough to
/// base64-encode.
pub open spec fn loop_accepts(event: LoopEvent) -> bool {
    event matches LoopEvent::MicChunk(b) ==> base64_padded_len(b@.len()) <= usize::MAX
}

/// Decides the next step of a connected session: a cancel ends it cleanly;
/// each microphone chunk is sent as an audio event; server events are
/// handled; a closed microphone, a failed send, a read error or a closed
/// connection end it with an error.
pub fn session_loop_step(event: LoopEvent) -> (a: LoopAction)
    requires
        loop_accepts(event),
    ensures
        match event {
            LoopEvent::Cancelled => a matches LoopAction::Stop(Ok(())),
            LoopEvent::MicChunk(b) => a matches LoopAction::Send(t) && t@ == audio_chunk_text(b@),
            LoopEvent::MicClosed => a matches LoopAction::Stop(Err(m)) && m@
                == "microphone channel closed unexpectedly"@,
            LoopEvent::SendFailed(e) => a matches LoopAction::Stop(Err(m)) && m == e,
            LoopEvent::Server(Some(Ok(ev))) => a matches LoopAction::Handle(h)
                && handles_server_event(ev, h),
            LoopEvent::Server(Some(Err(e))) => a matches LoopAction::Stop(Err(m)) && m == e,
            LoopEvent::Server(None) => a matches LoopAction::Stop(Err(m)) && m@
                == "OpenAI Realtime connection closed unexpectedly"@,
        },
{
    match event {
        LoopEvent::Cancelled => LoopAction::Stop(Ok(())),
        LoopEvent::MicChunk(bytes) => LoopAction::Send(audio_chunk_message(bytes.as_slice())),
        LoopEvent::MicClosed => LoopAction::Stop(
            Err("microphone channel closed unexpectedly".to_owned()),
        ),
        LoopEvent::SendFailed(e) => LoopAction::Stop(Err(e)),
        LoopEvent::Server(Some(Ok(ev))) => LoopAction::Handle(handle_server_event(&ev)),
        LoopEvent::Server(Some(Err(e))) => LoopAction::Stop(Err(e)),
        LoopEvent::Server(None) => LoopAction::Stop(
            Err("OpenAI Realtime connection closed unexpectedly".to_owned()),
        ),
    }
}

// ---------------------------------------------------------------------------
// Reconnecting
// ---------------------------------------------------------------------------

/// `2^n`.
pub open spec fn two_pow(n: nat) -> nat
    decreases n,
{
    if n == 0 {
        1
    } else {
        2 * two_pow((n - 1) as nat)
    }
}

/// Seconds to wait before retry number `attempt`: `2^attempt`, at most 30.
pub open spec fn backoff_secs(attempt: nat) -> nat {
    if two_pow(attempt) < 30 {
        two_pow(attempt)
    } else {
        30
    }
}

proof fn lemma_two_pow_monotone(a: nat, b: nat)
    requires
        a <= b,
    ensures
        two_pow(a) <= two_pow(b),
    decreases b,
{
    if a < b {
        lemma_two_pow_monotone(a, (b - 1) as nat);
    }
}

/// The wait before a retry never shrinks as attempts go on, and never
/// exceeds 30 seconds.
pub proof fn law_backoff_grows_to_cap(a: nat, b: nat)
    requires
        a <= b,
    ensures
        backoff_secs(a) <= backoff_secs(b) <= 30,
{
    lemma_two_pow_monotone(a, b);
}

/// Seconds to wait before retry number `attempt`.
pub fn backoff_for_attempt(attempt: u32) -> (secs: u64)
    requires
        attempt <= MAX_RECONNECT_ATTEMPTS,
    ensures
        secs == backoff_secs(attempt as nat),
{
    let mut p: u64 = 1;
    let mut i: u32 = 0;
    while i < attempt
        invariant
            i <= attempt <= MAX_RECONNECT_ATTEMPTS,
            p == two_pow(i as nat),
            p <= 32,
        decreases attempt - i,
    {
        proof {
            lemma_two_pow_monotone((i + 1) as nat, 5);
            reveal_with_fuel(two_pow, 6);
            assert(two_pow(5) == 32);
        }
        p = p * 2;
        i = i + 1;
    }
    if p < 30 {
        p
    } else {
        30
    }
}

/// Where the reconnect loop stands.
#[derive(Clone, Copy, PartialEq, Eq, Debug)]
pub enum SupervisorPhase {
    /// About to check for a cancel and read the API key.
    AwaitingKey,
    /// A session is connected and running.
    Connected,
    /// Waiting before the next attempt.
    BackingOff,
    /// Done; nothing more happens.
    Finished,
}

/// What the caller reports to the reconnect loop.
pub enum SupervisorInput {
    /// Whether the session was cancelled, and the key read from the
    /// settings (`None` when no usable key is stored).
    Ready { cancelled: bool, api_key: Option<String> },
    /// How the connected session ended, and whether it was cancelled by then.
    Ended { result: Result<(), String>, cancelled: bool },
    /// The wait before a retry is over, or was cut short by a cancel.
    Waited { cancelled: bool },
}

/// What the reconnect loop asks the caller to do next.
pub enum SupervisorCommand {
    /// Check for a cancel, read the API key, and report `Ready`.
    LoadKey,
    /// Connect with this key, run the session, and report `Ended`.
    Connect(String),
    /// Wait this many seconds unless cancelled, and report `Waited`.
    Sleep(u64),
    /// Stop.
    Finish,
}

/// The notices to emit, in order, and the next command.
pub struct SupervisorStep {
    pub notices: Vec<SessionNotice>,
    pub command: SupervisorCommand,
}

/// The report the caller gives after carrying out `command`: `Ready` after
/// reading the key, `Ended` after running a session, `Waited` after a wait,
/// nothing after `Finish`.
pub open spec fn command_awaits(command: SupervisorCommand, input: SupervisorInput) -> bool {
    match command {
        SupervisorCommand::LoadKey => input is Ready,
        SupervisorCommand::Connect(_) => input is Ended,
        SupervisorCommand::Sleep(_) => input is Waited,
        SupervisorCommand::Finish => false,
    }
}

/// The reconnect loop of a translation session: connects, and after a
/// failure waits and retries, giving up after `MAX_RECONNECT_ATTEMPTS`
/// retries; a cancel always ends it with a `disconnected` status.
pub struct SessionSupervisor {
    attempt: u32,
    phase: SupervisorPhase,
}

/// The message when no API key is configured.
pub open spec fn missing_key_text() -> Seq<char> {
    "No OpenAI API key configured. Add one in Settings."@
}

/// The message when the session gives up.
pub open spec fn giving_up_text(attempt: nat, error: Seq<char>) -> Seq<char> {
    "Giving up after "@ + decimal_text(attempt) + " failed attempts: "@ + error
}

/// The message of the `reconnecting` status.
pub open spec fn retry_text(attempt: nat, error: Seq<char>) -> Seq<char> {
    "Attempt "@ + decimal_text(attempt) + ": "@ + error
}

/// The step holds exactly the one notice `disconnected` and finishes.
pub open spec fn disconnects(step: SupervisorStep) -> bool {
    &&& step.notices@.len() == 1
    &&& is_status(step.notices@[0], ConnectionStatus::Disconnected, None)
    &&& step.command is Finish
}

/// The state of the reconnect loop: failed attempts so far, and where it
/// stands.
pub struct SupervisorModel {
    pub attempts: nat,
    pub phase: SupervisorPhase,
}

impl SupervisorModel {
    /// The state of a new loop.
    pub open spec fn initial() -> Self {
        SupervisorModel { attempts: 0, phase: SupervisorPhase::AwaitingKey }
    }

    /// The counter stays within its bounds.
    pub open spec fn wf(self) -> bool {
        &&& self.phase != SupervisorPhase::Finished ==> self.attempts <= MAX_RECONNECT_ATTEMPTS
        &&& self.phase == SupervisorPhase::BackingOff ==> self.attempts >= 1
    }

    /// The input is the one the loop waits for.
    pub open spec fn accepts(self, input: SupervisorInput) -> bool {
        match input {
            SupervisorInput::Ready { .. } => self.phase == SupervisorPhase::AwaitingKey,
            SupervisorInput::Ended { .. } => self.phase == SupervisorPhase::Connected,
            SupervisorInput::Waited { .. } => self.phase == SupervisorPhase::BackingOff,
        }
    }

    /// The state after an accepted input.
    pub open spec fn after(self, input: SupervisorInput) -> Self {
        match input {
            SupervisorInput::Ready { cancelled, api_key } => if !cancelled && api_key is Some {
                SupervisorModel { phase: SupervisorPhase::Connected, ..self }
            } else {
                SupervisorModel { phase: SupervisorPhase::Finished, ..self }
            },
            SupervisorInput::Ended { result, cancelled } => if result is Err && !cancelled
                && self.attempts < MAX_RECONNECT_ATTEMPTS {
                SupervisorModel { attempts: self.attempts + 1, phase: SupervisorPhase::BackingOff }
            } else {
                SupervisorModel { phase: SupervisorPhase::Finished, ..self }
            },
            SupervisorInput::Waited { cancelled } => if !cancelled {
                SupervisorModel { phase: SupervisorPhase::AwaitingKey, ..self }
            } else {
                SupervisorModel { phase: SupervisorPhase::Finished, ..self }
            },
        }
    }

    /// Connections the loop may still make from this state.
    pub open spec fn connect_budget(self) -> nat {
        match self.phase {
            SupervisorPhase::AwaitingKey => (MAX_RECONNECT_ATTEMPTS + 1 - self.attempts) as nat,
            SupervisorPhase::Connected => (MAX_RECONNECT_ATTEMPTS - self.attempts) as nat,
            SupervisorPhase::BackingOff => (MAX_RECONNECT_ATTEMPTS + 1 - self.attempts) as nat,
            SupervisorPhase::Finished => 0,
        }
    }
}

impl SessionSupervisor {
    /// The loop's state.
    pub closed spec fn model(self) -> SupervisorModel {
        SupervisorModel { attempts: self.attempt as nat, phase: self.phase }
    }

    /// Starts the loop: reports `connecting` and asks for the key.
    pub fn start() -> (r: (Self, SupervisorStep))
        ensures
            r.0.model() == SupervisorModel::initial(),
            r.1.notices@.len() == 1,
            is_status(r.1.notices@[0], ConnectionStatus::Connecting, None),
            r.1.command is LoadKey,
            forall|i: SupervisorInput| #[trigger]
                r.0.model().accepts(i) <==> command_awaits(r.1.command, i),
    {
        let mut notices: Vec<SessionNotice> = Vec::new();
        notices.push(status_notice(ConnectionStatus::Connecting, None));
        (
            SessionSupervisor { attempt: 0, phase: SupervisorPhase::AwaitingKey },
            SupervisorStep { notices, command: SupervisorCommand::LoadKey },
        )
    }

    /// Whether the loop waits for this input.
    pub fn accepts_input(&self, input: &SupervisorInput) -> (b: bool)
        ensures
            b == self.model().accepts(*input),
    {
        match input {
            SupervisorInput::Ready { .. } => match self.phase {
                SupervisorPhase::AwaitingKey => true,
                _ => false,
            },
            SupervisorInput::Ended { .. } => match self.phase {
                SupervisorPhase::Connected => true,
                _ => false,
            },
            SupervisorInput::Waited { .. } => match self.phase {
                SupervisorPhase::BackingOff => true,
                _ => false,
            },
        }
    }

    fn disconnect(&mut self) -> (step: SupervisorStep)
        ensures
            disconnects(step),
            final(self).model() == (SupervisorModel {
                phase: SupervisorPhase::Finished,
                ..old(self).model()
            }),
    {
        self.phase = SupervisorPhase::Finished;
        let mut notices: Vec<SessionNotice> = Vec::new();
        notices.push(status_notice(ConnectionStatus::Disconnected, None));
        SupervisorStep { notices, command: SupervisorCommand::Finish }
    }

    /// Takes the caller's report and says what to emit and do next.
    ///
    /// - `Ready`: cancelled → `disconnected`; no key → a non-recoverable
    ///   error and the `error` status with "Missing API key"; else connect.
    /// - `Ended`: success, or failure after a cancel → `disconnected`;
    ///   otherwise the failure is counted; past `MAX_RECONNECT_ATTEMPTS` it
    ///   gives up with a non-recoverable error and the `error` status with
    ///   the failure, else reports `reconnecting` and waits `backoff_secs`.
    /// - `Waited`: cancelled → `disconnected`; else read the key again.
    pub fn step(&mut self, input: SupervisorInput) -> (step: SupervisorStep)
        requires
            old(self).model().wf(),
            old(self).model().accepts(input),
        ensures
            final(self).model() == old(self).model().after(input),
            final(self).model().wf(),
            forall|i: SupervisorInput| #[trigger]
                final(self).model().accepts(i) <==> command_awaits(step.command, i),
            step.command is Connect <==> (input matches SupervisorInput::Ready { cancelled, api_key }
                && !cancelled && api_key is Some),
            match input {
                SupervisorInput::Ready { cancelled, api_key } => if cancelled {
                    disconnects(step)
                } else {
                    match api_key {
                        None => {
                            &&& step.notices@.len() == 2
                            &&& is_error(step.notices@[0], missing_key_text(), false)
                            &&& is_status(
                                step.notices@[1],
                                ConnectionStatus::Error,
                                Some("Missing API key"@),
                            )
                            &&& step.command is Finish
                        },
                        Some(k) => {
                            &&& step.notices@.len() == 0
                            &&& step.command matches SupervisorCommand::Connect(c) && c@ == k@
                        },
                    }
                },
                SupervisorInput::Ended { result, cancelled } => match result {
                    Ok(()) => disconnects(step),
                    Err(e) => if cancelled {
                        disconnects(step)
                    } else if old(self).model().attempts + 1 > MAX_RECONNECT_ATTEMPTS {
                        &&& step.notices@.len() == 2
                        &&& is_error(
                            step.notices@[0],
                            giving_up_text(old(self).model().attempts + 1, e@),
                            false,
                        )
                        &&& is_status(step.notices@[1], ConnectionStatus::Error, Some(e@))
                        &&& step.command is Finish
                    } else {
                        &&& step.notices@.len() == 1
                        &&& is_status(
                            step.notices@[0],
                            ConnectionStatus::Reconnecting,
                            Some(retry_text(old(self).model().attempts + 1, e@)),
                        )
                        &&& step.command matches SupervisorCommand::Sleep(secs) && secs
                            == backoff_secs(old(self).model().attempts + 1)
                    },
                },
                SupervisorInput::Waited { cancelled } => if cancelled {
                    disconnects(step)
                } else {
                    step.notices@.len() == 0 && step.command is LoadKey
                },
            },
    {
        match input {
            SupervisorInput::Ready { cancelled, api_key } => {
                if cancelled {
                    return self.disconnect();
                }
                match api_key {
                    None => {
                        self.phase = SupervisorPhase::Finished;
                        let mut notices: Vec<SessionNotice> = Vec::new();
                        notices.push(
                            SessionNotice::Error {
                                message: "No OpenAI API key configured. Add one in Settings.".to_owned(),
                                recoverable: false,
                            },
                        );
                        notices.push(
                            status_notice(ConnectionStatus::Error, Some("Missing API key".to_owned())),
                        );
                        SupervisorStep { notices, command: SupervisorCommand::Finish }
                    },
                    Some(k) => {
                        self.phase = SupervisorPhase::Connected;
                        SupervisorStep { notices: Vec::new(), command: SupervisorCommand::Connect(k) }
                    },
                }
            },
            SupervisorInput::Ended { result, cancelled } => {
                match result {
                    Ok(()) => self.disconnect(),
                    Err(e) => {
                        if cancelled {
                            return self.disconnect();
                        }
                        let attempt = self.attempt + 1;
                        if attempt > MAX_RECONNECT_ATTEMPTS {
                            self.phase = SupervisorPhase::Finished;
                            let mut message = "Giving up after ".to_owned();
                            push_decimal(&mut message, attempt as u64);
                            push_str(&mut message, " failed attempts: ");
                            push_str(&mut message, e.as_str());
                            let mut notices: Vec<SessionNotice> = Vec::new();
                            notices.push(SessionNotice::Error { message, recoverable: false });
                            notices.push(status_notice(ConnectionStatus::Error, Some(e)));
                            SupervisorStep { notices, command: SupervisorCommand::Finish }
                        } else {
                            self.attempt = attempt;
                            self.phase = SupervisorPhase::BackingOff;
                            let secs = backoff_for_attempt(attempt);
                            let mut message = "Attempt ".to_owned();
                            push_decimal(&mut message, attempt as u64);
                            push_str(&mut message, ": ");
                            push_str(&mut message, e.as_str());
                            let mut notices: Vec<SessionNotice> = Vec::new();
                            notices.push(
                                status_notice(ConnectionStatus::Reconnecting, Some(message)),
                            );
                            SupervisorStep { notices, command: SupervisorCommand::Sleep(secs) }
                        }
                    },
                }
            },
            SupervisorInput::Waited { cancelled } => {
                if cancelled {
                    return self.disconnect();
                }
                self.phase = SupervisorPhase::AwaitingKey;
                SupervisorStep { notices: Vec::new(), command: SupervisorCommand::LoadKey }
            },
        }
    }
}

/// The input makes the loop connect.
pub open spec fn makes_connect(s: SupervisorModel, input: SupervisorInput) -> bool {
    &&& s.accepts(input)
    &&& input matches SupervisorInput::Ready { cancelled, api_key } && !cancelled && api_key is Some
}

/// How many times the loop connects while it takes `inputs` in turn (it
/// stops at the first input it does not wait for).
pub open spec fn connects_issued(s: SupervisorModel, inputs: Seq<SupervisorInput>) -> nat
    decreases inputs.len(),
{
    if inputs.len() == 0 || !s.accepts(inputs[0]) {
        0
    } else {
        (if makes_connect(s, inputs[0]) {
            1nat
        } else {
            0nat
        }) + connects_issued(s.after(inputs[0]), inputs.drop_first())
    }
}

proof fn lemma_connects_within_budget(s: SupervisorModel, inputs: Seq<SupervisorInput>)
    requires
        s.wf(),
    ensures
        connects_issued(s, inputs) <= s.connect_budget(),
    decreases inputs.len(),
{
    if inputs.len() > 0 && s.accepts(inputs[0]) {
        lemma_connects_within_budget(s.after(inputs[0]), inputs.drop_first());
    }
}

/// Whatever happens, one session connects at most
/// `MAX_RECONNECT_ATTEMPTS + 1` times: the first try and the retries.
pub proof fn law_at_most_max_attempts_plus_one_connections(inputs: Seq<SupervisorInput>)
    ensures
        connects_issued(SupervisorModel::initial(), inputs) <= MAX_RECONNECT_ATTEMPTS + 1,
{
    lemma_connects_within_budget(SupervisorModel::initial(), inputs);
}

/// The loop always waits next for the report of what it just asked for:
/// after the wait before a retry it takes the key again (and so goes on to
/// reconnect); after a key it waits for the session to end; after a
/// counted failure it waits for the backoff; after anything that finishes
/// it takes nothing more.
pub proof fn law_loop_waits_for_what_it_asked(s: SupervisorModel, input: SupervisorInput, next: SupervisorInput)
    requires
        s.wf(),
        s.accepts(input),
    ensures
        (input matches SupervisorInput::Waited { cancelled } && !cancelled) ==> (s.after(
            input,
        ).accepts(next) <==> next is Ready),
        (input matches SupervisorInput::Ready { cancelled, api_key } && !cancelled
            && api_key is Some) ==> (s.after(input).accepts(next) <==> next is Ended),
        (input matches SupervisorInput::Ended { result, cancelled } && result is Err
            && !cancelled && s.attempts < MAX_RECONNECT_ATTEMPTS) ==> (s.after(input).accepts(
            next,
        ) <==> next is Waited),
        (input matches SupervisorInput::Ready { cancelled, api_key } && (cancelled
            || api_key is None)) ==> !s.after(input).accepts(next),
        (input matches SupervisorInput::Ended { result, cancelled } && (result is Ok || cancelled
            || s.attempts >= MAX_RECONNECT_ATTEMPTS)) ==> !s.after(input).accepts(next),
        (input matches SupervisorInput::Waited { cancelled } && cancelled) ==> !s.after(
            input,
        ).accepts(next),
{
}

/// The loop keeps its counter within bounds across every accepted input.
pub proof fn law_supervisor_stays_well_formed(s: SupervisorModel, input: SupervisorInput)
    requires
        s.wf(),
        s.accepts(input),
    ensures
        s.after(input).wf(),
{
}

// ---------------------------------------------------------------------------
// The running session
// ---------------------------------------------------------------------------

/// Holds the handle of the last session started, if it was not stopped. A
/// stored session counts as running until its task has finished; the
/// caller, which owns the task, says whether it has.
pub struct SessionManager<H> {
    current: Option<H>,
}

impl<H> SessionManager<H> {
    /// The stored session's handle.
    pub closed spec fn session(self) -> Option<H> {
        self.current
    }

    /// A session is running: one is stored and its task has not finished.
    pub open spec fn running(self, stored_finished: bool) -> bool {
        self.session() is Some && !stored_finished
    }

    /// The manager after a start that spawned `h`: unchanged while a session
    /// runs, else holding `h`.
    pub closed spec fn started(self, stored_finished: bool, h: H) -> Self {
        if self.running(stored_finished) {
            self
        } else {
            SessionManager { current: Some(h) }
        }
    }

    /// A manager with no session.
    pub fn new() -> (m: Self)
        ensures
            m.session() is None,
    {
        SessionManager { current: None }
    }

    /// The stored session's handle, so the caller can tell whether its task
    /// has finished.
    pub fn current(&self) -> (h: Option<&H>)
        ensures
            match h {
                Some(r) => self.session() == Some(*r),
                None => self.session() is None,
            },
    {
        match &self.current {
            Some(r) => Some(r),
            None => None,
        }
    }

    /// Starts a session unless one is running: `spawn` is called only then,
    /// and its handle replaces the stored one (whose task, if any, has
    /// finished). `stored_finished` says whether the stored session's task
    /// has finished.
    pub fn start_session<F: FnOnce() -> H>(&mut self, stored_finished: bool, spawn: F) -> (r: Result<(), String>)
        requires
            !old(self).running(stored_finished) ==> call_requires(spawn, ()),
        ensures
            old(self).running(stored_finished) ==> {
                &&& r matches Err(m) && m@ == "a session is already running"@
                &&& *final(self) == *old(self)
            },
            !old(self).running(stored_finished) ==> {
                &&& r is Ok
                &&& final(self).session() matches Some(h) && call_ensures(spawn, (), h)
                    && *final(self) == old(self).started(stored_finished, h)
            },
    {
        if self.current.is_some() && !stored_finished {
            return Err("a session is already running".to_owned());
        }
        let handle = spawn();
        self.current = Some(handle);
        Ok(())
    }

    /// Takes the stored session's handle, if any, so the caller can cancel
    /// it and wait for it.
    pub fn stop_session(&mut self) -> (h: Option<H>)
        ensures
            h == old(self).session(),
            final(self).session() is None,
    {
        self.current.take()
    }

    /// Whether a session is running: one is stored and its task, as the
    /// caller reports, has not finished.
    pub fn get_session_status(&self, stored_finished: bool) -> (running: bool)
        ensures
            running == self.running(stored_finished),
    {
        self.current.is_some() && !stored_finished
    }
}

/// A start while a session runs changes nothing; a start when none is
/// stored, or when the stored session has finished on its own, runs its
/// session, which then counts as running.
pub proof fn law_one_session_at_a_time<H>(m: SessionManager<H>, finished: bool, h: H)
    ensures
        m.running(finished) ==> m.started(finished, h) == m,
        !m.running(finished) ==> m.started(finished, h).session() == Some(h),
        !m.running(finished) ==> m.started(finished, h).running(false),
{
}

/// A session that has finished on its own no longer counts as running, so
/// it does not block the next start.
pub proof fn law_finished_session_is_not_running<H>(m: SessionManager<H>)
    ensures
        !m.running(true),
{
}

} // verus!
