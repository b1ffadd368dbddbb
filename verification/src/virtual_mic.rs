//! Extension point for routing translated audio into a virtual microphone,
//! so that a meeting app can take it as microphone input. Only a no-op sink
//! exists so far; a real one becomes another consumer of the same PCM16
//! stream that playback gets.
use vstd::prelude::*;

verus! {

/// Why a virtual microphone could not take audio.
#[derive(Debug, Clone, Copy, PartialEq, Eq)]
pub enum VirtualMicError {
    Unimplemented,
}

/// The message describing the error.
pub open spec fn virtual_mic_error_text(e: VirtualMicError) -> Seq<char> {
    match e {
        VirtualMicError::Unimplemented => "virtual microphone output is not implemented yet"@,
    }
}

impl VirtualMicError {
    /// The message describing the error.
    pub fn message(&self) -> (m: String)
        ensures
            m@ == virtual_mic_error_text(*self),
    {
        match self {
            VirtualMicError::Unimplemented => "virtual microphone output is not implemented yet".to_owned(),
        }
    }
}

/// A sink for translated mono PCM16 frames.
pub trait VirtualMicOutput: Send {
    fn write_frames(&mut self, pcm16_mono: &[i16]) -> Result<(), VirtualMicError>;
}

/// The sink used until a real virtual microphone exists: takes every frame
/// and does nothing with it.
pub struct NoopVirtualMic;

impl VirtualMicOutput for NoopVirtualMic {
    fn write_frames(&mut self, pcm16_mono: &[i16]) -> (r: Result<(), VirtualMicError>)
        ensures
            r is Ok,
    {
        Ok(())
    }
}

} // verus!
