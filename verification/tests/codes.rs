use alsa::driver::{LATENCY_US, PERIODS};
use alsa::{Access, Format, Mode, OpenCall, Open, Stream, PCM};

#[test]
fn stream_codes() {
    assert_eq!(Stream::Playback.to_ffi(), 0);
    assert_eq!(Stream::Capture.to_ffi(), 1);
}

#[test]
fn mode_flags() {
    assert_eq!(Mode::Blocking.to_ffi(), 0);
    assert_eq!(Mode::Nonblocking.to_ffi(), 1);
    assert_eq!(Mode::Asynchronous.to_ffi(), 2);
}

#[test]
fn access_codes() {
    assert_eq!(Access::Interleaved.to_ffi(), 3);
    assert_eq!(Access::Noninterleaved.to_ffi(), 4);
}

#[test]
fn format_codes() {
    assert_eq!(Format::Unsigned8.to_ffi(), 1);
    assert_eq!(Format::Signed16.to_ffi(), 2);
    assert_eq!(Format::FloatLE.to_ffi(), 14);
}

#[test]
fn format_codes_are_distinct() {
    assert_ne!(Format::Unsigned8.to_ffi(), Format::Signed16.to_ffi());
    assert_ne!(Format::Signed16.to_ffi(), Format::FloatLE.to_ffi());
    assert_ne!(Format::Unsigned8.to_ffi(), Format::FloatLE.to_ffi());
}

#[test]
fn format_sizes() {
    assert_eq!(Format::Unsigned8.size(), 1);
    assert_eq!(Format::Signed16.size(), 2);
    assert_eq!(Format::FloatLE.size(), 4);
}

#[test]
fn format_sizes_match_sample_types() {
    assert_eq!(Format::Unsigned8.size(), std::mem::size_of::<u8>());
    assert_eq!(Format::Signed16.size(), std::mem::size_of::<i16>());
    assert_eq!(Format::FloatLE.size(), std::mem::size_of::<f32>());
}

#[test]
fn open_call_carries_both_codes() {
    assert_eq!(
        PCM::<Open>::open_call(Stream::Playback, Mode::Blocking),
        OpenCall { stream: 0, mode: 0 }
    );
    assert_eq!(
        PCM::<Open>::open_call(Stream::Capture, Mode::Nonblocking),
        OpenCall { stream: 1, mode: 1 }
    );
    assert_eq!(
        PCM::<Open>::open_call(Stream::Capture, Mode::Asynchronous),
        OpenCall { stream: 1, mode: 2 }
    );
}

#[test]
fn latency_policy_is_fixed() {
    assert_eq!(PERIODS, 1);
    assert_eq!(LATENCY_US, 500_000);
}
