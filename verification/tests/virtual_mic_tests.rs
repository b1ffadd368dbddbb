use voxbridge::virtual_mic::{NoopVirtualMic, VirtualMicError, VirtualMicOutput};

#[test]
fn noop_sink_takes_every_frame() {
    let mut mic = NoopVirtualMic;
    assert_eq!(mic.write_frames(&[1, 2, 3]), Ok(()));
    assert_eq!(mic.write_frames(&[]), Ok(()));
}

#[test]
fn unimplemented_error_message() {
    assert_eq!(VirtualMicError::Unimplemented.message(), "virtual microphone output is not implemented yet");
}
