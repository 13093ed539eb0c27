//! The protocol of a device session, as mathematics.
//!
//! A session is the list of exchanges that were completed with the driver
//! about one device. Replaying the list from the start gives the phase the
//! device is in, or nothing if the list breaks the protocol. Every handle of
//! this library carries such a list that replays to the state in its type.

use vstd::prelude::*;
use crate::params::{Access, Format, Mode, Stream};

verus! {

/// The channel counts and sample rates that can be put to the driver: at
/// least one channel, and both numbers within the 32 bits in which the
/// driver takes them.
pub open spec fn valid_parameters(channels: usize, rate: usize) -> bool {
    0 < channels <= u32::MAX && rate <= u32::MAX
}

/// What a caller asks the driver to program a device with.
pub ghost struct ParameterSet {
    pub format: Format,
    pub access: Access,
    pub channels: usize,
    pub rate: usize,
}

impl ParameterSet {
    /// The sets that can be put to the driver: see [`valid_parameters`].
    pub open spec fn valid(self) -> bool {
        valid_parameters(self.channels, self.rate)
    }
}

/// One completed exchange with the driver.
pub ghost enum Exchange {
    /// The driver opened the device called `name`.
    Acquired { name: Seq<char>, stream: Stream, mode: Mode },
    /// The driver turned `set` down with the negative `code`.
    Refused { set: ParameterSet, code: isize },
    /// The driver committed `set`.
    Committed { set: ParameterSet },
    /// The driver was offered `frames` frames and answered `reply`: the
    /// frames it took, or a negative code.
    Transfer { frames: nat, reply: isize },
}

/// Where a device stands.
pub ghost enum Phase {
    /// Not acquired.
    Closed,
    /// Acquired, no parameter set committed.
    Open,
    /// A parameter set is committed; samples can be transferred.
    Prepared { channels: usize, format: Format },
}

/// The phase after `exchange` in `phase`, or `None` where the protocol does
/// not allow that exchange there.
pub open spec fn step(phase: Phase, exchange: Exchange) -> Option<Phase> {
    match (phase, exchange) {
        (Phase::Closed, Exchange::Acquired { .. }) => Some(Phase::Open),
        (Phase::Open, Exchange::Refused { set, code }) => {
            if set.valid() && code < 0 {
                Some(Phase::Open)
            } else {
                None
            }
        },
        (Phase::Open, Exchange::Committed { set }) => {
            if set.valid() {
                Some(Phase::Prepared { channels: set.channels, format: set.format })
            } else {
                None
            }
        },
        (Phase::Prepared { .. }, Exchange::Transfer { .. }) => Some(phase),
        _ => None,
    }
}

/// The phase that `history` leads to from `Closed`, or `None` where some
/// exchange in it was not allowed.
pub open spec fn replay(history: Seq<Exchange>) -> Option<Phase>
    decreases history.len(),
{
    if history.len() == 0 {
        Some(Phase::Closed)
    } else {
        match replay(history.drop_last()) {
            Some(phase) => step(phase, history.last()),
            None => None,
        }
    }
}

/// What is known of one device: the driver's reference to it, the phase it
/// is in, and the exchanges that led there.
pub ghost struct Session {
    pub device: usize,
    pub phase: Phase,
    pub history: Seq<Exchange>,
}

impl Session {
    /// The history is one that the protocol allows, and it leads to the
    /// phase.
    pub open spec fn wf(self) -> bool {
        replay(self.history) == Some(self.phase)
    }

    /// The outcome of asking the driver to open a device, given its answer:
    /// a negative `status` is the error, anything else a fresh session on
    /// `device`.
    pub open spec fn acquire(
        name: Seq<char>,
        stream: Stream,
        mode: Mode,
        status: i32,
        device: usize,
    ) -> Result<Session, isize> {
        if status < 0 {
            Err(status as isize)
        } else {
            Ok(
                Session {
                    device,
                    phase: Phase::Open,
                    history: seq![Exchange::Acquired { name, stream, mode }],
                },
            )
        }
    }

    /// The session after the driver turned `set` down with `code`: as
    /// before, with the refusal on record.
    pub open spec fn refused(self, set: ParameterSet, code: isize) -> Session {
        Session { history: self.history.push(Exchange::Refused { set, code }), ..self }
    }

    /// The session after the driver committed `set`: prepared with the
    /// channel count and format of the set, on the same device.
    pub open spec fn committed(self, set: ParameterSet) -> Session {
        Session {
            device: self.device,
            phase: Phase::Prepared { channels: set.channels, format: set.format },
            history: self.history.push(Exchange::Committed { set }),
        }
    }

    /// The outcome of putting a parameter set to the driver, given its
    /// answer. A negative `status` is handed back with the session after
    /// the refusal; anything else gives the session after the commit.
    pub open spec fn configure(self, set: ParameterSet, status: i32) -> Result<
        Session,
        (Session, isize),
    > {
        if status < 0 {
            Err((self.refused(set, status as isize), status as isize))
        } else {
            Ok(self.committed(set))
        }
    }

    /// A buffer of `len` samples, each `width` bytes wide, holds whole
    /// frames of the committed format.
    pub open spec fn accepts(self, len: nat, width: nat) -> bool {
        match self.phase {
            Phase::Prepared { channels, format } => {
                channels > 0 && len % (channels as nat) == 0 && width == format.width()
            },
            _ => false,
        }
    }

    /// The frames in a buffer of `len` samples.
    pub open spec fn frames(self, len: nat) -> nat {
        match self.phase {
            Phase::Prepared { channels, .. } => len / (channels as nat),
            _ => 0,
        }
    }

    /// The outcome of offering `frames` frames to the driver, given its
    /// answer: the session after it, and the frames taken or the driver's
    /// code. The phase stays as it is either way.
    pub open spec fn transfer(self, frames: nat, reply: isize) -> (Session, Result<usize, isize>) {
        (
            Session { history: self.history.push(Exchange::Transfer { frames, reply }), ..self },
            if reply < 0 {
                Err(reply)
            } else {
                Ok(reply as usize)
            },
        )
    }
}

/// Replaying a history with one more exchange is one step from where the
/// history led.
pub proof fn lemma_replay_push(history: Seq<Exchange>, exchange: Exchange)
    ensures
        replay(history.push(exchange)) == (match replay(history) {
            Some(phase) => step(phase, exchange),
            None => None,
        }),
{
    let longer = history.push(exchange);
    assert(longer.drop_last() =~= history);
    assert(longer.last() == exchange);
}

/// `history` is one acquisition and then refusals only.
pub open spec fn unconfigured(history: Seq<Exchange>) -> bool {
    &&& history.len() >= 1
    &&& history[0] is Acquired
    &&& forall|i: int| 1 <= i < history.len() ==> (#[trigger] history[i]) is Refused
}

/// `history` is one acquisition, then refusals only, then at index `at` the
/// committed parameter set with `channels` and `format`, and from there on
/// transfers only.
pub open spec fn configured_at(
    history: Seq<Exchange>,
    at: int,
    channels: usize,
    format: Format,
) -> bool {
    &&& 1 <= at < history.len()
    &&& history[0] is Acquired
    &&& forall|i: int| 1 <= i < at ==> (#[trigger] history[i]) is Refused
    &&& history[at] is Committed
    &&& history[at]->Committed_set.channels == channels
    &&& history[at]->Committed_set.format == format
    &&& forall|i: int| at < i < history.len() ==> (#[trigger] history[i]) is Transfer
}

/// Only the empty history leaves the device closed.
pub proof fn lemma_closed_history(history: Seq<Exchange>)
    requires
        replay(history) == Some(Phase::Closed),
    ensures
        history.len() == 0,
{
}

/// A history that leaves the device open is one acquisition and then
/// refusals only: no parameter set was committed and nothing transferred.
pub proof fn lemma_open_history(history: Seq<Exchange>)
    requires
        replay(history) == Some(Phase::Open),
    ensures
        unconfigured(history),
    decreases history.len(),
{
    let before = history.drop_last();
    match replay(before) {
        Some(Phase::Closed) => {
            lemma_closed_history(before);
        },
        Some(Phase::Open) => {
            lemma_open_history(before);
            assert forall|i: int| 1 <= i < history.len() implies (#[trigger] history[i]) is Refused by {
                if i < before.len() {
                    assert(history[i] == before[i]);
                }
            }
        },
        _ => {},
    }
}

/// A history that leaves the device prepared committed exactly one
/// parameter set, the one the phase records; before it stand the
/// acquisition and refusals only, after it transfers only.
pub proof fn lemma_prepared_history(history: Seq<Exchange>, channels: usize, format: Format)
    requires
        replay(history) == Some(Phase::Prepared { channels, format }),
    ensures
        0 < channels <= u32::MAX,
        exists|at: int| configured_at(history, at, channels, format),
    decreases history.len(),
{
    let before = history.drop_last();
    match replay(before) {
        Some(Phase::Open) => {
            lemma_open_history(before);
            let at = history.len() - 1;
            assert forall|i: int| 1 <= i < at implies (#[trigger] history[i]) is Refused by {
                assert(history[i] == before[i]);
            }
            assert(history[0] == before[0]);
            assert(configured_at(history, at, channels, format));
        },
        Some(Phase::Prepared { .. }) => {
            lemma_prepared_history(before, channels, format);
            let at = choose|at: int| configured_at(before, at, channels, format);
            assert forall|i: int| 1 <= i < at implies (#[trigger] history[i]) is Refused by {
                assert(history[i] == before[i]);
            }
            assert forall|i: int| at < i < history.len() implies (#[trigger] history[i]) is Transfer by {
                if i < before.len() {
                    assert(history[i] == before[i]);
                }
            }
            assert(history[0] == before[0]);
            assert(history[at] == before[at]);
            assert(configured_at(history, at, channels, format));
        },
        _ => {},
    }
}

/// Samples are transferred only after a parameter set was committed: in
/// every history that the protocol allows, each transfer has a committed
/// parameter set somewhere before it.
pub proof fn lemma_transfer_follows_commit(history: Seq<Exchange>, i: int)
    requires
        replay(history) is Some,
        0 <= i < history.len(),
        history[i] is Transfer,
    ensures
        exists|at: int| 0 <= at < i && (#[trigger] history[at]) is Committed,
{
    match replay(history) {
        Some(Phase::Closed) => {
            lemma_closed_history(history);
        },
        Some(Phase::Open) => {
            lemma_open_history(history);
        },
        Some(Phase::Prepared { channels, format }) => {
            lemma_prepared_history(history, channels, format);
            let at = choose|at: int| configured_at(history, at, channels, format);
            assert(history[at] is Committed);
        },
        None => {},
    }
}

/// A refusal costs nothing but the attempt. When the driver turns a
/// parameter set down, the session that comes back is open, on the same
/// device, and allowed by the protocol; and the next parameter set that the
/// driver commits prepares it, on the same device still.
pub proof fn lemma_retry_after_refusal(
    session: Session,
    first: ParameterSet,
    refusal: i32,
    second: ParameterSet,
    approval: i32,
)
    requires
        session.wf(),
        session.phase is Open,
        first.valid(),
        second.valid(),
        refusal < 0,
        approval >= 0,
    ensures
        ({
            let back = session.refused(first, refusal as isize);
            let ready = back.committed(second);
            &&& session.configure(first, refusal) == Err::<Session, (Session, isize)>(
                (back, refusal as isize),
            )
            &&& back.wf()
            &&& back.phase is Open
            &&& back.device == session.device
            &&& back.configure(second, approval) == Ok::<Session, (Session, isize)>(ready)
            &&& ready.wf()
            &&& ready.phase == (Phase::Prepared { channels: second.channels, format: second.format })
            &&& ready.device == session.device
        }),
{
    let back = session.refused(first, refusal as isize);
    lemma_replay_push(session.history, Exchange::Refused { set: first, code: refusal as isize });
    lemma_replay_push(back.history, Exchange::Committed { set: second });
}

/// Where the driver takes no more frames than it was offered, a write that
/// succeeds reports a count between nothing and the frames in the buffer.
pub proof fn lemma_frames_taken_bound(session: Session, len: nat, width: nat, reply: isize)
    requires
        session.accepts(len, width),
        0 <= reply <= session.frames(len),
    ensures
        session.transfer(session.frames(len), reply).1 matches Ok(taken) && 0 <= taken
            <= session.frames(len),
        session.frames(len) == len / (session.phase->channels as nat),
{
}

} // verus!
