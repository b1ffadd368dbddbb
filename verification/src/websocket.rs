//! The realtime translation protocol: the text of the events the client
//! sends, what is read out of the events the server sends, the handshake
//! headers, and how incoming frames are turned into events.
use base64::Engine;
use std::hash::BuildHasher;
use vstd::prelude::*;

use crate::text::{digit_char, push_char, push_decimal, push_radix, push_str, decimal_text, radix_text};

pub mod client_events;
pub mod server_events;

verus! {

pub const REALTIME_URL_BASE: &'static str = "wss://api.openai.com/v1/realtime/translations";

/// The translation model requested in the connection URL.
pub const REALTIME_MODEL: &'static str = "gpt-realtime-translate";

// ---------------------------------------------------------------------------
// Outside calls
// ---------------------------------------------------------------------------

/// The character of a 6-bit value in the standard base64 alphabet:
/// `A`..`Z`, `a`..`z`, `0`..`9`, `+`, `/`.
pub open spec fn base64_char(v: int) -> char {
    if v < 26 {
        (v + 65) as char
    } else if v < 52 {
        (v + 71) as char
    } else if v < 62 {
        (v - 4) as char
    } else if v == 62 {
        '+'
    } else {
        '/'
    }
}

/// Standard padded base64: each group of three bytes becomes four
/// characters; a last group of one or two bytes is padded with `=`.
pub open spec fn base64_encoding(b: Seq<u8>) -> Seq<char>
    decreases b.len(),
{
    if b.len() == 0 {
        Seq::empty()
    } else if b.len() == 1 {
        seq![base64_char((b[0] as int) / 4), base64_char(((b[0] as int) % 4) * 16), '=', '=']
    } else if b.len() == 2 {
        seq![
            base64_char((b[0] as int) / 4),
            base64_char(((b[0] as int) % 4) * 16 + (b[1] as int) / 16),
            base64_char(((b[1] as int) % 16) * 4),
            '=',
        ]
    } else {
        seq![
            base64_char((b[0] as int) / 4),
            base64_char(((b[0] as int) % 4) * 16 + (b[1] as int) / 16),
            base64_char(((b[1] as int) % 16) * 4 + (b[2] as int) / 64),
            base64_char((b[2] as int) % 64),
        ] + base64_encoding(b.subrange(3, b.len() as int))
    }
}

/// What base64's `STANDARD` engine decodes text to: it accepts exactly the
/// canonical padded encodings (`RequireCanonical` padding, no trailing
/// bits) and gives back the bytes encoded; anything else is an error.
pub open spec fn base64_decoding(text: Seq<char>) -> Option<Seq<u8>> {
    if exists|b: Seq<u8>| base64_encoding(b) == text {
        Some(choose|b: Seq<u8>| base64_encoding(b) == text)
    } else {
        None
    }
}

/// Length of padded base64 text for `n` bytes: four characters for each
/// started group of three bytes.
pub open spec fn base64_padded_len(n: nat) -> nat {
    4 * ((n + 2) / 3)
}

/// Calls `Engine::encode` of base64's `general_purpose::STANDARD`. Claims
/// the result is the standard padded encoding; the crate panics when the
/// padded length overflows `usize`, which `requires` rules out.
#[verifier::external_body]
fn base64_encode(bytes: &[u8]) -> (text: String)
    requires
        base64_padded_len(bytes@.len()) <= usize::MAX,
    ensures
        text@ == base64_encoding(bytes@),
{
    base64::engine::general_purpose::STANDARD.encode(bytes)
}

/// Calls `Engine::decode` of base64's `general_purpose::STANDARD` on the
/// bytes of `text`, keeping the decoded bytes and dropping the error.
/// Claims it decodes exactly the canonical encodings, to the bytes encoded
/// (`decode_helper`, `complete_quads_len` and `decode_suffix` reject any
/// other alphabet byte, misplaced or missing `=`, and set trailing bits).
#[verifier::external_body]
fn base64_decode(text: &str) -> (bytes: Option<Vec<u8>>)
    ensures
        match bytes {
            Some(b) => base64_decoding(text@) == Some(b@),
            None => base64_decoding(text@) is None,
        },
{
    base64::engine::general_purpose::STANDARD.decode(text).ok()
}

proof fn lemma_base64_char_injective(x: int, y: int)
    requires
        0 <= x < 64,
        0 <= y < 64,
        base64_char(x) == base64_char(y),
    ensures
        x == y,
{
    let cx = base64_char(x) as int;
    let cy = base64_char(y) as int;
    assert(x < 26 ==> cx == x + 65);
    assert(26 <= x < 52 ==> cx == x + 71);
    assert(52 <= x < 62 ==> cx == x - 4);
    assert(x == 62 ==> cx == 43);
    assert(x == 63 ==> cx == 47);
    assert(y < 26 ==> cy == y + 65);
    assert(26 <= y < 52 ==> cy == y + 71);
    assert(52 <= y < 62 ==> cy == y - 4);
    assert(y == 62 ==> cy == 43);
    assert(y == 63 ==> cy == 47);
}

proof fn lemma_base64_char_not_pad(x: int)
    requires
        0 <= x < 64,
    ensures
        base64_char(x) != '=',
{
    let cx = base64_char(x) as int;
    assert(x < 26 ==> cx == x + 65);
    assert(26 <= x < 52 ==> cx == x + 71);
    assert(52 <= x < 62 ==> cx == x - 4);
}

proof fn lemma_base64_first_group(a: Seq<u8>)
    requires
        a.len() > 0,
    ensures
        base64_encoding(a).len() >= 4,
        base64_encoding(a)[0] == base64_char((a[0] as int) / 4),
        a.len() == 1 ==> base64_encoding(a)[1] == base64_char(((a[0] as int) % 4) * 16),
        a.len() >= 2 ==> base64_encoding(a)[1] == base64_char(
            ((a[0] as int) % 4) * 16 + (a[1] as int) / 16,
        ),
        a.len() == 1 ==> base64_encoding(a)[2] == '=',
        a.len() == 2 ==> base64_encoding(a)[2] == base64_char(((a[1] as int) % 16) * 4),
        a.len() >= 3 ==> base64_encoding(a)[2] == base64_char(
            ((a[1] as int) % 16) * 4 + (a[2] as int) / 64,
        ),
        a.len() <= 2 ==> base64_encoding(a)[3] == '=',
        a.len() <= 2 ==> base64_encoding(a).len() == 4,
        a.len() >= 3 ==> base64_encoding(a)[3] == base64_char((a[2] as int) % 64),
        a.len() >= 3 ==> base64_encoding(a).subrange(4, base64_encoding(a).len() as int)
            == base64_encoding(a.subrange(3, a.len() as int)),
{
    if a.len() >= 3 {
        let e = base64_encoding(a);
        assert(e.subrange(4, e.len() as int) =~= base64_encoding(a.subrange(3, a.len() as int)));
    }
}

/// Different byte strings have different base64 encodings.
pub proof fn lemma_base64_encoding_injective(a: Seq<u8>, b: Seq<u8>)
    requires
        base64_encoding(a) == base64_encoding(b),
    ensures
        a == b,
    decreases a.len(),
{
    if a.len() == 0 || b.len() == 0 {
        if a.len() != 0 {
            lemma_base64_first_group(a);
        }
        if b.len() != 0 {
            lemma_base64_first_group(b);
        }
        assert(a =~= b);
        return;
    }
    lemma_base64_first_group(a);
    lemma_base64_first_group(b);
    lemma_base64_char_injective((a[0] as int) / 4, (b[0] as int) / 4);
    if a.len() >= 3 {
        lemma_base64_char_not_pad((a[2] as int) % 64);
        lemma_base64_char_not_pad(((a[1] as int) % 16) * 4 + (a[2] as int) / 64);
    }
    if b.len() >= 3 {
        lemma_base64_char_not_pad((b[2] as int) % 64);
        lemma_base64_char_not_pad(((b[1] as int) % 16) * 4 + (b[2] as int) / 64);
    }
    if a.len() == 2 {
        lemma_base64_char_not_pad(((a[1] as int) % 16) * 4);
    }
    if b.len() == 2 {
        lemma_base64_char_not_pad(((b[1] as int) % 16) * 4);
    }
    if a.len() == 1 {
        assert(b.len() == 1);
        lemma_base64_char_injective(((a[0] as int) % 4) * 16, ((b[0] as int) % 4) * 16);
        assert(a =~= b);
    } else if a.len() == 2 {
        assert(b.len() == 2);
        lemma_base64_char_injective(
            ((a[0] as int) % 4) * 16 + (a[1] as int) / 16,
            ((b[0] as int) % 4) * 16 + (b[1] as int) / 16,
        );
        lemma_base64_char_injective(((a[1] as int) % 16) * 4, ((b[1] as int) % 16) * 4);
        assert(a =~= b);
    } else {
        assert(b.len() >= 3);
        lemma_base64_char_injective(
            ((a[0] as int) % 4) * 16 + (a[1] as int) / 16,
            ((b[0] as int) % 4) * 16 + (b[1] as int) / 16,
        );
        lemma_base64_char_injective(
            ((a[1] as int) % 16) * 4 + (a[2] as int) / 64,
            ((b[1] as int) % 16) * 4 + (b[2] as int) / 64,
        );
        lemma_base64_char_injective((a[2] as int) % 64, (b[2] as int) % 64);
        let ra = a.subrange(3, a.len() as int);
        let rb = b.subrange(3, b.len() as int);
        lemma_base64_encoding_injective(ra, rb);
        assert(a =~= a.subrange(0, 3) + ra);
        assert(b =~= b.subrange(0, 3) + rb);
        assert(a.subrange(0, 3) =~= b.subrange(0, 3));
    }
}

/// The audio an audio-chunk event carries, read back as a server event's
/// `delta`, decodes to exactly the bytes that were sent.
pub proof fn law_sent_audio_decodes_back(bytes: Seq<u8>, event: ServerEvent)
    requires
        event.delta matches Some(d) && d@ == base64_encoding(bytes),
    ensures
        audio_delta_bytes(event) == Some(bytes),
{
    law_base64_round_trip(bytes);
}

/// Decoding the standard encoding of any bytes gives those bytes back.
pub proof fn law_base64_round_trip(bytes: Seq<u8>)
    ensures
        base64_decoding(base64_encoding(bytes)) == Some(bytes),
{
    let text = base64_encoding(bytes);
    assert(exists|b: Seq<u8>| base64_encoding(b) == text);
    let c = choose|b: Seq<u8>| base64_encoding(b) == text;
    lemma_base64_encoding_injective(c, bytes);
}

/// How serde_json writes one character inside a string literal: `"` and
/// `\` escaped with a backslash, the control characters with short escapes
/// where JSON has them and `\u00XX` (lower-case hex) otherwise, every other
/// character as it is.
pub open spec fn json_escape_char(c: char) -> Seq<char> {
    if c == '"' {
        seq!['\\', '"']
    } else if c == '\\' {
        seq!['\\', '\\']
    } else if c == '\x08' {
        seq!['\\', 'b']
    } else if c == '\x0c' {
        seq!['\\', 'f']
    } else if c == '\n' {
        seq!['\\', 'n']
    } else if c == '\r' {
        seq!['\\', 'r']
    } else if c == '\t' {
        seq!['\\', 't']
    } else if (c as int) < 0x20 {
        seq!['\\', 'u', '0', '0', digit_char((c as nat) / 16), digit_char((c as nat) % 16)]
    } else {
        seq![c]
    }
}

/// The characters of `s`, each escaped.
pub open spec fn json_escaped(s: Seq<char>) -> Seq<char>
    decreases s.len(),
{
    if s.len() == 0 {
        Seq::empty()
    } else {
        json_escaped(s.drop_last()) + json_escape_char(s.last())
    }
}

/// The JSON string literal for `s`.
pub open spec fn json_string_literal(s: Seq<char>) -> Seq<char> {
    seq!['"'] + json_escaped(s) + seq!['"']
}

#[verifier::external_type_specification]
#[verifier::external_body]
pub struct ExJsonError(serde_json::Error);

/// Calls `serde_json::to_string` on a string slice. Claims the result is
/// `Ok` with the escaped literal: serde_json writes a string into a `Vec`,
/// which cannot fail, escaping as `json_escape_char` says (its `ESCAPE`
/// table and `write_char_escape`).
#[verifier::external_body]
fn json_quote(s: &str) -> (r: Result<String, serde_json::Error>)
    ensures
        r is Ok,
        r is Ok ==> r->Ok_0@ == json_string_literal(s@),
{
    serde_json::to_string(s)
}

fn quoted(s: &str) -> (t: String)
    ensures
        t@ == json_string_literal(s@),
{
    match json_quote(s) {
        Ok(t) => t,
        Err(_) => {
            proof {
                assert(false);
            }
            String::new()
        },
    }
}

/// A byte that http accepts in a header value: visible ASCII, space, tab,
/// or any byte of a non-ASCII character.
pub open spec fn header_byte_valid(b: u8) -> bool {
    (b >= 32 && b != 127) || b == 9
}

/// Every byte of the UTF-8 encoding of `s` is accepted in a header value.
pub open spec fn header_text_valid(s: Seq<char>) -> bool {
    let bytes = vstd::utf8::encode_utf8(s);
    forall|i: int| 0 <= i < bytes.len() ==> header_byte_valid(#[trigger] bytes[i])
}

#[verifier::external_type_specification]
#[verifier::external_body]
pub struct ExInvalidHeaderValue(tokio_tungstenite::tungstenite::http::header::InvalidHeaderValue);

/// Calls http's `HeaderValue::from_str` (re-exported by tungstenite) to
/// check a header value, keeping only whether it was accepted. Claims it
/// succeeds exactly when every byte passes its `is_valid` check.
#[verifier::external_body]
fn check_header_value(src: &str) -> (r: Result<
    (),
    tokio_tungstenite::tungstenite::http::header::InvalidHeaderValue,
>)
    ensures
        r is Ok <==> header_text_valid(src@),
{
    tokio_tungstenite::tungstenite::http::HeaderValue::from_str(src).map(|_| ())
}

/// The `Display` text of http's `InvalidHeaderValue`, which its source
/// writes as a fixed message.
#[verifier::external_body]
fn invalid_header_value_text(
    e: &tokio_tungstenite::tungstenite::http::header::InvalidHeaderValue,
) -> (t: String)
    ensures
        t@ == "failed to parse header value"@,
{
    format!("{e}")
}

/// What std's `DefaultHasher` (as built by `BuildHasherDefault`, fixed keys)
/// gives for a string with the std release this is built with.
pub uninterp spec fn std_default_hash_str(s: Seq<char>) -> u64;

/// Calls `BuildHasher::hash_one` of `BuildHasherDefault<DefaultHasher>` on
/// the string. Claims the result is the named hash of the text.
#[verifier::external_body]
fn default_hash_str(s: &str) -> (h: u64)
    ensures
        h == std_default_hash_str(s@),
{
    std::hash::BuildHasherDefault::<std::collections::hash_map::DefaultHasher>::default().hash_one(
        s,
    )
}

// ---------------------------------------------------------------------------
// Client events
// ---------------------------------------------------------------------------

/// The `session.update` event setting the translation's output language.
pub open spec fn session_update_text(target_lang_code: Seq<char>) -> Seq<char> {
    "{\"session\":{\"audio\":{\"output\":{\"language\":"@ + json_string_literal(target_lang_code)
        + "}}},\"type\":"@ + json_string_literal(client_events::SESSION_UPDATE@) + "}"@
}

/// The event appending one chunk of base64-encoded microphone audio.
pub open spec fn audio_chunk_text(pcm16_le_bytes: Seq<u8>) -> Seq<char> {
    "{\"audio\":"@ + json_string_literal(base64_encoding(pcm16_le_bytes)) + ",\"type\":"@
        + json_string_literal(client_events::INPUT_AUDIO_BUFFER_APPEND@) + "}"@
}

/// The event asking the server to end the session.
pub open spec fn session_close_text() -> Seq<char> {
    "{\"type\":"@ + json_string_literal(client_events::SESSION_CLOSE@) + "}"@
}

/// The JSON text of the `session.update` event that sets the target
/// language; the source language is left to the service to detect.
pub fn session_update_message(target_lang_code: &str) -> (text: String)
    ensures
        text@ == session_update_text(target_lang_code@),
{
    let mut text = "{\"session\":{\"audio\":{\"output\":{\"language\":".to_owned();
    let lang = quoted(target_lang_code);
    push_str(&mut text, lang.as_str());
    push_str(&mut text, "}}},\"type\":");
    let kind = quoted(client_events::SESSION_UPDATE);
    push_str(&mut text, kind.as_str());
    push_str(&mut text, "}");
    text
}

/// The JSON text of the event that appends one chunk of PCM16-LE microphone
/// audio, base64-encoded.
pub fn audio_chunk_message(pcm16_le_bytes: &[u8]) -> (text: String)
    requires
        base64_padded_len(pcm16_le_bytes@.len()) <= usize::MAX,
    ensures
        text@ == audio_chunk_text(pcm16_le_bytes@),
{
    let encoded = base64_encode(pcm16_le_bytes);
    let mut text = "{\"audio\":".to_owned();
    let audio = quoted(encoded.as_str());
    push_str(&mut text, audio.as_str());
    push_str(&mut text, ",\"type\":");
    let kind = quoted(client_events::INPUT_AUDIO_BUFFER_APPEND);
    push_str(&mut text, kind.as_str());
    push_str(&mut text, "}");
    text
}

/// The JSON text of the `session.close` event.
pub fn session_close_message() -> (text: String)
    ensures
        text@ == session_close_text(),
{
    let mut text = "{\"type\":".to_owned();
    let kind = quoted(client_events::SESSION_CLOSE);
    push_str(&mut text, kind.as_str());
    push_str(&mut text, "}");
    text
}

// ---------------------------------------------------------------------------
// Server events
// ---------------------------------------------------------------------------

/// What the session reads out of one server event: its `type`, its `delta`
/// and its `error.message`, each where present as a string.
pub struct ServerEvent {
    pub event_type: Option<String>,
    pub delta: Option<String>,
    pub error_message: Option<String>,
}

/// The three fields of an event, by their texts.
pub open spec fn event_fields(ev: ServerEvent) -> (Option<Seq<char>>, Option<Seq<char>>, Option<Seq<char>>) {
    (
        match ev.event_type {
            Some(t) => Some(t@),
            None => None,
        },
        match ev.delta {
            Some(d) => Some(d@),
            None => None,
        },
        match ev.error_message {
            Some(m) => Some(m@),
            None => None,
        },
    )
}

/// What serde_json reads out of a frame's text: `None` when the text is not
/// JSON; else the `type`, `delta` and `error.message` members, each where
/// present as a JSON string.
pub uninterp spec fn json_event_fields(text: Seq<char>) -> Option<
    (Option<Seq<char>>, Option<Seq<char>>, Option<Seq<char>>),
>;

/// Calls `serde_json::from_str::<serde_json::Value>` on a frame's text and
/// keeps the string members `type`, `delta` and `error.message`. Claims the
/// result is the named reading of the text. On a parse error it returns the
/// error's display text, which is not stated.
#[verifier::external_body]
fn parse_event_fields(text: &str) -> (r: Result<ServerEvent, String>)
    ensures
        r matches Ok(ev) ==> json_event_fields(text@) == Some(event_fields(ev)),
        r is Err ==> json_event_fields(text@) is None,
{
    let string = |v: Option<&serde_json::Value>| match v {
        Some(serde_json::Value::String(s)) => Some(s.clone()),
        _ => None,
    };
    match serde_json::from_str::<serde_json::Value>(text) {
        Ok(v) => Ok(ServerEvent {
            event_type: string(v.get("type")),
            delta: string(v.get("delta")),
            error_message: string(v.get("error").and_then(|e| e.get("message"))),
        }),
        Err(e) => Err(e.to_string()),
    }
}

/// The audio bytes carried by an event's base64 `delta`, if it has one that
/// decodes.
pub open spec fn audio_delta_bytes(event: ServerEvent) -> Option<Seq<u8>> {
    match event.delta {
        Some(d) => base64_decoding(d@),
        None => None,
    }
}

/// Decodes the base64 `delta` of an output-audio event.
pub fn decode_audio_delta(value: &ServerEvent) -> (bytes: Option<Vec<u8>>)
    ensures
        match bytes {
            Some(b) => audio_delta_bytes(*value) == Some(b@),
            None => audio_delta_bytes(*value) is None,
        },
{
    match &value.delta {
        Some(d) => base64_decode(d.as_str()),
        None => None,
    }
}

/// The text `delta` of a transcript event.
pub fn extract_transcript_delta(value: &ServerEvent) -> (text: Option<String>)
    ensures
        match value.delta {
            Some(d) => text matches Some(t) && t@ == d@,
            None => text is None,
        },
{
    match &value.delta {
        Some(d) => Some(d.clone()),
        None => None,
    }
}

/// The event's type equals `name`.
pub open spec fn has_type(event: ServerEvent, name: Seq<char>) -> bool {
    event.event_type matches Some(t) && t@ == name
}

/// Whether the event's type is `name`.
pub fn is_event_type(event: &ServerEvent, name: &str) -> (b: bool)
    ensures
        b == has_type(*event, name@),
{
    match &event.event_type {
        Some(t) => {
            let wanted = name.to_owned();
            *t == wanted
        },
        None => false,
    }
}

// ---------------------------------------------------------------------------
// Incoming frames
// ---------------------------------------------------------------------------

/// The code and reason of a close frame.
pub struct CloseDetails {
    pub code: u16,
    pub reason: String,
}

/// One read from the socket.
pub enum IncomingFrame {
    /// A text frame, with its text.
    Text(String),
    /// A close frame, with its details where the server sent them.
    Close(Option<CloseDetails>),
    /// A ping, pong or binary frame.
    Other,
    /// A read error, with its message.
    ReadError(String),
    /// The stream has ended.
    Ended,
}

/// What a read turns into.
pub enum NextEvent {
    /// Nothing to report; read again.
    Skip,
    /// Report this: an event, an error, or `None` when the connection closed.
    Deliver(Option<Result<ServerEvent, String>>),
}

/// The message for a close frame.
pub open spec fn close_message_text(details: Option<CloseDetails>) -> Seq<char> {
    "server closed the connection: "@ + match details {
        Some(d) => "code="@ + decimal_text(d.code as nat) + " reason="@ + d.reason@,
        None => "no close details provided by server"@,
    }
}

/// Turns one read from the socket into what `next_event` reports: text
/// frames are parsed as JSON into events, parse and read errors and close
/// frames become errors, the end of the stream becomes `None`, other frames are skipped.
pub fn next_event_from_frame(frame: IncomingFrame) -> (r: NextEvent)
    ensures
        match frame {
            IncomingFrame::Text(t) => match json_event_fields(t@) {
                Some(fields) => r matches NextEvent::Deliver(Some(Ok(e))) && event_fields(e)
                    == fields,
                None => r matches NextEvent::Deliver(Some(Err(m))) && m@.len() >= 30
                    && m@.subrange(0, 30) == "failed to parse server event: "@,
            },
            IncomingFrame::Close(details) => r matches NextEvent::Deliver(Some(Err(m))) && m@
                == close_message_text(details),
            IncomingFrame::Other => r is Skip,
            IncomingFrame::ReadError(msg) => r matches NextEvent::Deliver(Some(Err(m))) && m@
                == "websocket read error: "@ + msg@,
            IncomingFrame::Ended => r matches NextEvent::Deliver(None),
        },
{
    match frame {
        IncomingFrame::Text(t) => match parse_event_fields(t.as_str()) {
            Ok(ev) => NextEvent::Deliver(Some(Ok(ev))),
            Err(msg) => {
                let mut m = "failed to parse server event: ".to_owned();
                proof {
                    reveal_strlit("failed to parse server event: ");
                }
                push_str(&mut m, msg.as_str());
                assert(m@.subrange(0, 30) =~= "failed to parse server event: "@);
                NextEvent::Deliver(Some(Err(m)))
            },
        },
        IncomingFrame::Close(details) => {
            let mut m = "server closed the connection: ".to_owned();
            match details {
                Some(d) => {
                    push_str(&mut m, "code=");
                    push_decimal(&mut m, d.code as u64);
                    push_str(&mut m, " reason=");
                    push_str(&mut m, d.reason.as_str());
                    proof {
                        assert(m@ =~= close_message_text(Some(d)));
                    }
                },
                None => {
                    push_str(&mut m, "no close details provided by server");
                },
            }
            NextEvent::Deliver(Some(Err(m)))
        },
        IncomingFrame::Other => NextEvent::Skip,
        IncomingFrame::ReadError(msg) => {
            let mut m = "websocket read error: ".to_owned();
            push_str(&mut m, msg.as_str());
            NextEvent::Deliver(Some(Err(m)))
        },
        IncomingFrame::Ended => NextEvent::Deliver(None),
    }
}

// ---------------------------------------------------------------------------
// Handshake
// ---------------------------------------------------------------------------

/// The connection URL: the translations endpoint with the model as query.
pub open spec fn realtime_url_text() -> Seq<char> {
    REALTIME_URL_BASE@ + "?model="@ + REALTIME_MODEL@
}

/// The URL to connect to.
pub fn realtime_url() -> (url: String)
    ensures
        url@ == realtime_url_text(),
{
    let mut url = REALTIME_URL_BASE.to_owned();
    push_str(&mut url, "?model=");
    push_str(&mut url, REALTIME_MODEL);
    url
}

/// The raw text the per-user identifier is derived from: `USER`, else
/// `USERNAME`, else a fixed name.
pub open spec fn identity_source(user: Option<String>, username: Option<String>) -> Seq<char> {
    match user {
        Some(u) => u@,
        None => match username {
            Some(u) => u@,
            None => "voxbridge-user"@,
        },
    }
}

/// The safety identifier for a source text: `vb-` and the lower-case hex of
/// its std default hash.
pub open spec fn safety_identifier_text(source: Seq<char>) -> Seq<char> {
    "vb-"@ + radix_text(std_default_hash_str(source) as nat, 16)
}

/// A stable, opaque, non-empty per-user identifier for the
/// `OpenAI-Safety-Identifier` header, derived from the `USER` (else
/// `USERNAME`) environment variable as read by the caller.
pub fn safety_identifier(user: Option<String>, username: Option<String>) -> (id: String)
    ensures
        id@ == safety_identifier_text(identity_source(user, username)),
{
    let raw: String = match user {
        Some(u) => u,
        None => match username {
            Some(u) => u,
            None => "voxbridge-user".to_owned(),
        },
    };
    let h = default_hash_str(raw.as_str());
    let mut id = "vb-".to_owned();
    push_radix(&mut id, h, 16);
    id
}

/// The handshake request: the URL and the values of the `Authorization` and
/// `OpenAI-Safety-Identifier` headers, each checked to be a valid header
/// value.
pub struct ConnectRequest {
    pub url: String,
    /// `Bearer <api key>`.
    pub authorization: String,
    pub safety_identifier: String,
}

/// The authorization header text.
pub open spec fn bearer_text(api_key: Seq<char>) -> Seq<char> {
    "Bearer "@ + api_key
}

/// Builds the URL and the two header values of the handshake. Fails, naming
/// the header, when the authorization text or the identifier has a byte that
/// a header value may not hold; the authorization header is checked first.
pub fn connect_request(api_key: &str, safety_id: &str) -> (r: Result<ConnectRequest, String>)
    ensures
        r is Ok <==> header_text_valid(bearer_text(api_key@)) && header_text_valid(safety_id@),
        r matches Ok(req) ==> {
            &&& req.url@ == realtime_url_text()
            &&& req.authorization@ == bearer_text(api_key@)
            &&& req.safety_identifier@ == safety_id@
        },
        r matches Err(msg) ==> msg@ == (if !header_text_valid(bearer_text(api_key@)) {
            "invalid API key header: "@
        } else {
            "invalid safety identifier header: "@
        }) + "failed to parse header value"@,
{
    let url = realtime_url();
    let mut authorization = "Bearer ".to_owned();
    push_str(&mut authorization, api_key);
    if let Err(e) = check_header_value(authorization.as_str()) {
        let mut msg = "invalid API key header: ".to_owned();
        let detail = invalid_header_value_text(&e);
        push_str(&mut msg, detail.as_str());
        return Err(msg);
    }
    if let Err(e) = check_header_value(safety_id) {
        let mut msg = "invalid safety identifier header: ".to_owned();
        let detail = invalid_header_value_text(&e);
        push_str(&mut msg, detail.as_str());
        return Err(msg);
    }
    Ok(ConnectRequest { url, authorization, safety_identifier: safety_id.to_owned() })
}

} // verus!
