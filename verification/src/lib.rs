//! Core logic of the VoxBridge real-time voice translation backend: PCM16
//! sample handling and resampling, settings merging, the translation
//! session's reconnect policy and event handling, and the wire messages of
//! the realtime translation protocol.
use vstd::prelude::*;

pub mod audio;
pub mod session;
pub mod settings;
pub mod text;
pub mod virtual_mic;
pub mod websocket;

verus! {

} // verus!
