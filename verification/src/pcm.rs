//! Device handles, typed by their state.

use vstd::prelude::*;
use vstd::layout::size_of;
use crate::driver::{ConfigureCall, OpenCall, WriteCall, LATENCY_US, PERIODS};
use crate::params::{Access, Format, Mode, Stream};
use crate::protocol::{
    configured_at, lemma_open_history, lemma_prepared_history, lemma_replay_push, unconfigured,
    valid_parameters, Exchange, ParameterSet, Phase, Session,
};

verus! {

/// A state that a handle can be in. Each stands for one phase of the
/// protocol.
pub trait State {
    /// The phase that a handle in this state is in.
    spec fn phase(&self) -> Phase;
}

/// The device is acquired; no parameter set is committed.
pub struct Open {
    no_constr: (),
}

/// The driver has committed a parameter set with this channel count and
/// sample format.
pub struct Prepared {
    channels: usize,
    sample_fmt: Format,
}

impl State for Open {
    open spec fn phase(&self) -> Phase {
        Phase::Open
    }
}

impl State for Prepared {
    closed spec fn phase(&self) -> Phase {
        Phase::Prepared { channels: self.channels, format: self.sample_fmt }
    }
}

/// The one handle on an acquired device. It cannot be copied; a transition
/// takes it and gives the next one.
pub struct PCM<S: State> {
    i: usize,
    data: S,
    history: Ghost<Seq<Exchange>>,
}

impl<S: State> View for PCM<S> {
    type V = Session;

    closed spec fn view(&self) -> Session {
        Session { device: self.i, phase: self.data.phase(), history: self.history@ }
    }
}

impl<S: State> PCM<S> {
    /// Holds of every handle there is: its history is one that the protocol
    /// allows, and it leads to the state in the handle's type.
    #[verifier::type_invariant]
    pub open spec fn inv(self) -> bool {
        self@.wf()
    }

    /// The driver's reference to the device.
    pub fn native(&self) -> (device: usize)
        ensures
            device == self@.device,
    {
        self.i
    }

    /// Gives the handle up. What comes back is the reference to hand to
    /// the driver's release, once.
    pub fn release(self) -> (device: usize)
        ensures
            device == self@.device,
    {
        self.i
    }
}

impl PCM<Open> {
    /// Nothing was ever transferred through an open handle, and no
    /// parameter set committed: its history is the acquisition and then
    /// refusals only.
    pub proof fn lemma_open_handle(self)
        requires
            self.inv(),
        ensures
            self@.phase == Phase::Open,
            unconfigured(self@.history),
    {
        lemma_open_history(self@.history);
    }

    /// The call that opens a device for `stream` in `mode`.
    pub fn open_call(stream: Stream, mode: Mode) -> (call: OpenCall)
        ensures
            call.stream == stream.code(),
            call.mode == mode.code(),
    {
        OpenCall { stream: stream.to_ffi(), mode: mode.to_ffi() }
    }

    /// Takes the driver's answer to an open call: its `status`, and the
    /// reference it stored. A negative status comes back unchanged as the
    /// error, and no handle is made. Otherwise the handle owns `device`.
    pub fn open(name: &str, stream: Stream, mode: Mode, status: i32, device: usize) -> (r: Result<
        PCM<Open>,
        isize,
    >)
        ensures
            Session::acquire(name@, stream, mode, status, device) == (match r {
                Ok(pcm) => Ok::<Session, isize>(pcm@),
                Err(code) => Err(code),
            }),
            r is Ok <==> status >= 0,
            r matches Ok(pcm) ==> pcm@.wf(),
    {
        if status < 0 {
            return Err(status as isize);
        }
        let ghost acquired = Exchange::Acquired { name: name@, stream, mode };
        let ghost history = seq![acquired];
        proof {
            lemma_replay_push(Seq::empty(), acquired);
            assert(history =~= Seq::<Exchange>::empty().push(acquired));
        }
        Ok(PCM { i: device, data: Open { no_constr: () }, history: Ghost(history) })
    }

    /// The call that puts a parameter set to the driver, with the fixed
    /// periods and latency; `None` where the set is not one that can be put
    /// to it.
    pub fn configure_call(&self, format: Format, access: Access, channels: usize, rate: usize) -> (call:
        Option<ConfigureCall>)
        ensures
            valid_parameters(channels, rate) ==> call == Some(
                ConfigureCall {
                    device: self@.device,
                    format: format.code() as i32,
                    access: access.code() as u32,
                    channels: channels as u32,
                    rate: rate as u32,
                    periods: PERIODS,
                    latency_us: LATENCY_US,
                },
            ),
            !valid_parameters(channels, rate) ==> call is None,
    {
        if channels == 0 || channels > u32::MAX as usize || rate > u32::MAX as usize {
            return None;
        }
        Some(
            ConfigureCall {
                device: self.i,
                format: format.to_ffi(),
                access: access.to_ffi(),
                channels: channels as u32,
                rate: rate as u32,
                periods: PERIODS,
                latency_us: LATENCY_US,
            },
        )
    }

    /// Takes the driver's answer to a configure call for this parameter
    /// set, which must be one that `configure_call` gives a call for. A
    /// negative `status` gives the handle back, still open on the same
    /// device, with the status unchanged. Otherwise the handle is prepared
    /// and records the channel count and the format.
    pub fn set_parameters(
        self,
        format: Format,
        access: Access,
        channels: usize,
        rate: usize,
        status: i32,
    ) -> (r: Result<PCM<Prepared>, (PCM<Open>, isize)>)
        requires
            valid_parameters(channels, rate),
        ensures
            self@.configure(ParameterSet { format, access, channels, rate }, status) == (match r {
                Ok(pcm) => Ok::<Session, (Session, isize)>(pcm@),
                Err((pcm, code)) => Err((pcm@, code)),
            }),
            r is Ok <==> status >= 0,
            r matches Ok(pcm) ==> pcm@.wf() && pcm@.device == self@.device,
            r matches Err((pcm, code)) ==> pcm@.wf() && pcm@.device == self@.device && code
                == status,
    {
        proof {
            use_type_invariant(&self);
        }
        let ghost set = ParameterSet { format, access, channels, rate };
        if status < 0 {
            let code = status as isize;
            let ghost refused = Exchange::Refused { set, code };
            proof {
                lemma_replay_push(self.history@, refused);
            }
            return Err(
                (PCM { i: self.i, data: self.data, history: Ghost(self.history@.push(refused)) }, code),
            );
        }
        let ghost committed = Exchange::Committed { set };
        proof {
            lemma_replay_push(self.history@, committed);
        }
        Ok(
            PCM {
                i: self.i,
                data: Prepared { channels, sample_fmt: format },
                history: Ghost(self.history@.push(committed)),
            },
        )
    }
}

impl PCM<Prepared> {
    /// A prepared handle came by way of a committed parameter set, the one
    /// it records, and whatever was transferred through it was transferred
    /// after that.
    pub proof fn lemma_prepared_handle(self)
        requires
            self.inv(),
        ensures
            self@.phase is Prepared,
            0 < self@.phase->channels <= u32::MAX,
            exists|at: int|
                configured_at(self@.history, at, self@.phase->channels, self@.phase->format),
    {
        lemma_prepared_history(self@.history, self.data.channels, self.data.sample_fmt);
    }

    /// The committed channel count.
    pub fn channels(&self) -> (channels: usize)
        ensures
            self@.phase is Prepared,
            channels == self@.phase->channels,
            0 < channels <= u32::MAX,
    {
        proof {
            use_type_invariant(self);
            self.lemma_prepared_handle();
        }
        self.data.channels
    }

    /// The committed sample format.
    pub fn sample_format(&self) -> (format: Format)
        ensures
            self@.phase is Prepared,
            format == self@.phase->format,
    {
        self.data.sample_fmt
    }

    /// The call that offers the whole of `buffer` to the driver; `None`
    /// where the buffer does not hold whole frames, or where its samples
    /// are not as wide as the committed format says.
    pub fn write_call<T: Copy>(&self, buffer: &[T]) -> (call: Option<WriteCall>)
        ensures
            self@.accepts(buffer@.len(), size_of::<T>()) ==> call == Some(
                WriteCall { device: self@.device, frames: self@.frames(buffer@.len()) as u64 },
            ),
            !self@.accepts(buffer@.len(), size_of::<T>()) ==> call is None,
            buffer@.len() % (self@.phase->channels as nat) != 0 ==> call is None,
            size_of::<T>() != self@.phase->format.width() ==> call is None,
    {
        let channels = self.channels();
        if buffer.len() % channels != 0 || core::mem::size_of::<T>() != self.data.sample_fmt.size() {
            return None;
        }
        Some(WriteCall { device: self.i, frames: (buffer.len() / channels) as u64 })
    }

    /// Takes the driver's answer to a write call for `buffer`, which must
    /// be one that `write_call` gives a call for. A negative `reply` comes
    /// back unchanged as the error; anything else is the number of frames
    /// that the driver took. The handle stays prepared either way.
    pub fn write_interleaved<T: Copy>(&mut self, buffer: &[T], reply: isize) -> (r: Result<
        usize,
        isize,
    >)
        requires
            old(self)@.accepts(buffer@.len(), size_of::<T>()),
        ensures
            (final(self)@, r) == old(self)@.transfer(old(self)@.frames(buffer@.len()), reply),
            final(self)@.wf(),
            final(self)@.device == old(self)@.device,
            final(self)@.phase == old(self)@.phase,
    {
        proof {
            use_type_invariant(&*self);
        }
        let ghost transfer = Exchange::Transfer { frames: self@.frames(buffer@.len()), reply };
        proof {
            lemma_replay_push(self.history@, transfer);
        }
        self.history = Ghost(self.history@.push(transfer));
        if reply < 0 {
            Err(reply)
        } else {
            Ok(reply as usize)
        }
    }
}

} // verus!
