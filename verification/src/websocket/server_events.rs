//! Event names the server sends.
use vstd::prelude::*;

verus! {

pub const OUTPUT_AUDIO_DELTA: &'static str = "session.output_audio.delta";

pub const OUTPUT_TRANSCRIPT_DELTA: &'static str = "session.output_transcript.delta";

pub const INPUT_TRANSCRIPT_DELTA: &'static str = "session.input_transcript.delta";

pub const SESSION_CLOSED: &'static str = "session.closed";

pub const ERROR: &'static str = "error";

} // verus!
