//! Event names the client sends.
use vstd::prelude::*;

verus! {

pub const SESSION_UPDATE: &'static str = "session.update";

pub const INPUT_AUDIO_BUFFER_APPEND: &'static str = "session.input_audio_buffer.append";

pub const SESSION_CLOSE: &'static str = "session.close";

} // verus!
