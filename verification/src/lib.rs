//! A typed session over a streaming audio (PCM) device.
//!
//! A device handle carries its protocol state in its type: a handle is
//! acquired `Open`, becomes `Prepared` once the driver has committed a
//! parameter set, and only a `Prepared` handle can transfer samples.
//!
//! The library decides; it performs no input or output. Each operation comes
//! in two halves: one names the driver call to be made, the other takes the
//! driver's answer and gives the next handle. Whoever owns the device makes
//! the call in between.

pub mod driver;
pub mod params;
pub mod pcm;
pub mod protocol;

pub use driver::{ConfigureCall, OpenCall, WriteCall};
pub use params::{Access, Format, Mode, Stream};
pub use pcm::{Open, Prepared, State, PCM};
