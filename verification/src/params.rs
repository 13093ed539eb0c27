//! The choices a caller makes, and the codes by which the driver knows them.

use vstd::prelude::*;
use crate::driver::{
    SND_PCM_ACCESS_RW_INTERLEAVED, SND_PCM_ACCESS_RW_NONINTERLEAVED, SND_PCM_ASYNC,
    SND_PCM_FORMAT_FLOAT_LE, SND_PCM_FORMAT_S16, SND_PCM_FORMAT_U8, SND_PCM_NONBLOCK,
    SND_PCM_STREAM_CAPTURE, SND_PCM_STREAM_PLAYBACK,
};

verus! {

/// Direction of the data flow, fixed when the device is acquired.
#[derive(Clone, Copy, Debug, PartialEq, Eq, Structural)]
pub enum Stream {
    Playback,
    Capture,
}

impl Stream {
    /// The number that the driver knows this direction by.
    pub open spec fn code(self) -> int {
        match self {
            Stream::Playback => 0,
            Stream::Capture => 1,
        }
    }

    /// The driver's stream code.
    pub fn to_ffi(self) -> (code: u32)
        ensures
            code == self.code(),
    {
        match self {
            Stream::Playback => SND_PCM_STREAM_PLAYBACK,
            Stream::Capture => SND_PCM_STREAM_CAPTURE,
        }
    }
}

/// How the driver behaves when the device cannot proceed at once, fixed when
/// the device is acquired.
#[derive(Clone, Copy, Debug, PartialEq, Eq, Structural)]
pub enum Mode {
    Blocking,
    Nonblocking,
    Asynchronous,
}

impl Mode {
    /// The flags that ask the driver for this mode when a device is opened.
    pub open spec fn code(self) -> int {
        match self {
            Mode::Blocking => 0,
            Mode::Nonblocking => 1,
            Mode::Asynchronous => 2,
        }
    }

    /// The driver's open flags.
    pub fn to_ffi(self) -> (flags: i32)
        ensures
            flags == self.code(),
    {
        match self {
            Mode::Blocking => 0,
            Mode::Nonblocking => SND_PCM_NONBLOCK,
            Mode::Asynchronous => SND_PCM_ASYNC,
        }
    }
}

/// Layout of a sample buffer, chosen when the device is configured.
#[derive(Clone, Copy, Debug, PartialEq, Eq, Structural)]
pub enum Access {
    Interleaved,
    Noninterleaved,
}

impl Access {
    /// The number that the driver knows this layout by, for read/write
    /// access.
    pub open spec fn code(self) -> int {
        match self {
            Access::Interleaved => 3,
            Access::Noninterleaved => 4,
        }
    }

    /// The driver's access code.
    pub fn to_ffi(self) -> (code: u32)
        ensures
            code == self.code(),
    {
        match self {
            Access::Interleaved => SND_PCM_ACCESS_RW_INTERLEAVED,
            Access::Noninterleaved => SND_PCM_ACCESS_RW_NONINTERLEAVED,
        }
    }
}

/// Encoding of one sample, chosen when the device is configured.
#[derive(Clone, Copy, Debug, PartialEq, Eq, Structural)]
pub enum Format {
    Unsigned8,
    Signed16,
    FloatLE,
}

impl Format {
    /// The number that the driver knows this encoding by. For `Signed16`
    /// it is that of the little-endian encoding.
    pub open spec fn code(self) -> int {
        match self {
            Format::Unsigned8 => 1,
            Format::Signed16 => 2,
            Format::FloatLE => 14,
        }
    }

    /// Bytes in one sample: one, two, and the four of a 32-bit float.
    pub open spec fn width(self) -> nat {
        match self {
            Format::Unsigned8 => 1,
            Format::Signed16 => 2,
            Format::FloatLE => 4,
        }
    }

    /// The driver's format code.
    pub fn to_ffi(self) -> (code: i32)
        ensures
            code == self.code(),
    {
        match self {
            Format::Unsigned8 => SND_PCM_FORMAT_U8,
            Format::Signed16 => SND_PCM_FORMAT_S16,
            Format::FloatLE => SND_PCM_FORMAT_FLOAT_LE,
        }
    }

    /// Bytes in one sample.
    pub fn size(self) -> (bytes: usize)
        ensures
            bytes == self.width(),
    {
        match self {
            Format::Unsigned8 => 1,
            Format::Signed16 => 2,
            Format::FloatLE => 4,
        }
    }
}

} // verus!
