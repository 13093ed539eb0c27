//! The driver's side of the boundary, as plain values: the codes it knows
//! a choice by, and the calls to be made on it.
//!
//! Nothing here touches a device. A call value says which call the owner
//! of the device is to make next, and with which arguments.

use vstd::prelude::*;

verus! {

/// Stream code: data flows to the device.
pub const SND_PCM_STREAM_PLAYBACK: u32 = 0;

/// Stream code: data flows from the device.
pub const SND_PCM_STREAM_CAPTURE: u32 = 1;

/// Open flag: calls return at once where they would have to wait.
pub const SND_PCM_NONBLOCK: i32 = 1;

/// Open flag: the driver notifies asynchronously.
pub const SND_PCM_ASYNC: i32 = 2;

/// Access code: read/write access, the channels of a frame side by side.
pub const SND_PCM_ACCESS_RW_INTERLEAVED: u32 = 3;

/// Access code: read/write access, one area for each channel.
pub const SND_PCM_ACCESS_RW_NONINTERLEAVED: u32 = 4;

/// Format code: unsigned, 8 bits.
pub const SND_PCM_FORMAT_U8: i32 = 1;

/// Format code: signed, 16 bits, little endian; on a little-endian host
/// the driver's code for 16 bits in native order.
pub const SND_PCM_FORMAT_S16: i32 = 2;

/// Format code: 32-bit float, little endian.
pub const SND_PCM_FORMAT_FLOAT_LE: i32 = 14;

/// Hardware periods asked for with every parameter set. A fixed policy of
/// this library, not a choice of the caller.
pub const PERIODS: i32 = 1;

/// Buffer latency asked for with every parameter set, in microseconds: half
/// a second. A fixed policy of this library, not a choice of the caller.
pub const LATENCY_US: u32 = 500000;

/// Open a device: the stream code and the mode flags that go with its name.
#[derive(Clone, Copy, Debug, PartialEq, Eq, Structural)]
pub struct OpenCall {
    pub stream: u32,
    pub mode: i32,
}

/// Program `device` with a parameter set.
#[derive(Clone, Copy, Debug, PartialEq, Eq, Structural)]
pub struct ConfigureCall {
    pub device: usize,
    pub format: i32,
    pub access: u32,
    pub channels: u32,
    pub rate: u32,
    pub periods: i32,
    pub latency_us: u32,
}

/// Offer `frames` interleaved frames from the start of a buffer to `device`.
#[derive(Clone, Copy, Debug, PartialEq, Eq, Structural)]
pub struct WriteCall {
    pub device: usize,
    pub frames: u64,
}

} // verus!
