//! The control channel: owns the transport and runs one request/response
//! cycle at a time over it.
use vstd::prelude::*;
use crate::frame::{
    Command, Response, ResponseView, DecodeError, encode, decode, decode_spec, frame_complete,
    request_frame,
};

verus! {

/// What one attempt to read from the transport produced.
#[derive(Clone, Copy, Debug, PartialEq, Eq, Structural)]
pub enum ReadEvent {
    Byte(u8),
    /// The deadline armed by `start_timer` has passed.
    TimedOut,
    /// The transport is gone for good.
    Closed,
}

/// A byte-oriented duplex link to the board, opened by the surrounding
/// program. Nothing is assumed of how it behaves: every outcome is handled.
pub trait Transport {
    /// Writes all of `bytes`; false when the transport is gone.
    fn write_frame(&mut self, bytes: &[u8]) -> bool;

    /// Arms the deadline of the current cycle, `timeout_ms` from now.
    fn start_timer(&mut self, timeout_ms: u64);

    /// Waits for the next byte, or until the armed deadline passes.
    fn read_byte(&mut self) -> ReadEvent;

    /// Reads and discards whatever is pending, up to a quiet period.
    fn drain(&mut self);
}

#[derive(Clone, Copy, Debug, PartialEq, Eq, Structural)]
pub enum ChannelError {
    /// No complete frame arrived before the deadline.
    Timeout,
    /// A complete frame arrived and could not be decoded.
    Protocol(DecodeError),
    /// The transport is gone; the caller decides whether to restart.
    Disconnected,
}

/// One request/response cycle as it went on the transport.
pub struct Cycle {
    /// The cycle began by draining stray bytes of an earlier cycle.
    pub drained: bool,
    /// The bytes written.
    pub request: Seq<u8>,
    /// The transport took the request.
    pub written: bool,
    /// What each read gave, in order.
    pub events: Seq<ReadEvent>,
    /// What the cycle returned.
    pub outcome: Result<Response, ChannelError>,
}

/// Exclusive owner of the transport. `execute` takes `&mut self`, so at most
/// one cycle is in flight; callers on several tasks share it through a lock.
pub struct ControlChannel<T: Transport> {
    transport: T,
    needs_resync: bool,
    log: Ghost<Seq<Cycle>>,
}

/// A cycle left the link in an unknown state: stray bytes may follow.
pub open spec fn leaves_stray_bytes(r: Result<Response, ChannelError>) -> bool {
    r matches Err(e) && (e is Timeout || e is Protocol)
}

/// What a whole buffered frame gives: its decoding, a failure of which is a
/// protocol error.
pub open spec fn frame_outcome(b: Seq<u8>) -> Result<ResponseView, ChannelError> {
    match decode_spec(b) {
        Ok(resp) => Ok(resp),
        Err(e) => Err(ChannelError::Protocol(e)),
    }
}

pub open spec fn outcome_view(r: Result<Response, ChannelError>) -> Result<ResponseView, ChannelError> {
    match r {
        Ok(resp) => Ok(resp@),
        Err(e) => Err(e),
    }
}

/// The bytes that the byte events of `evs` carry, in order.
pub open spec fn event_bytes(evs: Seq<ReadEvent>) -> Seq<u8>
    decreases evs.len(),
{
    if evs.len() == 0 {
        Seq::empty()
    } else {
        let rest = event_bytes(evs.drop_last());
        match evs.last() {
            ReadEvent::Byte(x) => rest.push(x),
            _ => rest,
        }
    }
}

/// The reads of one cycle: bytes, none of whose proper prefixes is a whole
/// frame, ended by the byte that completes the frame, by a timeout or by a
/// close.
pub open spec fn read_trace(evs: Seq<ReadEvent>) -> bool {
    &&& evs.len() > 0
    &&& forall|i: int| 0 <= i < evs.len() - 1 ==> (#[trigger] evs[i]) is Byte
    &&& forall|k: int| 0 <= k < evs.len() ==> !frame_complete(event_bytes(#[trigger] evs.take(k)))
    &&& (evs.last() is Byte ==> frame_complete(event_bytes(evs)))
}

/// What a cycle returns, from whether the request was taken and what the
/// reads gave.
pub open spec fn cycle_outcome(written: bool, evs: Seq<ReadEvent>) -> Result<ResponseView, ChannelError> {
    if !written {
        Err(ChannelError::Disconnected)
    } else {
        match evs.last() {
            ReadEvent::TimedOut => Err(ChannelError::Timeout),
            ReadEvent::Closed => Err(ChannelError::Disconnected),
            ReadEvent::Byte(_) => frame_outcome(event_bytes(evs)),
        }
    }
}

/// `c` is a cycle as `execute` runs it for the request `req`: it began with
/// a drain exactly when `drained`, reads only after the request was taken,
/// and its outcome is what those reads give.
pub open spec fn executed(c: Cycle, drained: bool, req: Seq<u8>) -> bool {
    &&& c.drained == drained
    &&& c.request == req
    &&& c.written ==> read_trace(c.events)
    &&& !c.written ==> c.events.len() == 0
    &&& outcome_view(c.outcome) == cycle_outcome(c.written, c.events)
}

/// Takes one read event into the frame being buffered. Returns the outcome
/// of the cycle once there is one: a timeout, a close, or a whole frame.
pub fn absorb(buf: &mut Vec<u8>, ev: ReadEvent) -> (r: Option<Result<Response, ChannelError>>)
    ensures
        ev == ReadEvent::TimedOut ==> r == Some(Err::<Response, ChannelError>(ChannelError::Timeout)),
        ev == ReadEvent::Closed ==> r == Some(Err::<Response, ChannelError>(ChannelError::Disconnected)),
        !(ev is Byte) ==> final(buf)@ == old(buf)@,
        ev matches ReadEvent::Byte(x) ==> {
            &&& final(buf)@ == old(buf)@.push(x)
            &&& (r is Some <==> frame_complete(final(buf)@))
            &&& (r matches Some(o) ==> outcome_view(o) == frame_outcome(final(buf)@))
        },
{
    match ev {
        ReadEvent::Byte(x) => {
            buf.push(x);
            if buf.len() >= 2 && buf.len() >= buf[1] as usize + 3 {
                match decode(buf) {
                    Ok(resp) => Some(Ok(resp)),
                    Err(e) => Some(Err(ChannelError::Protocol(e))),
                }
            } else {
                None
            }
        },
        ReadEvent::TimedOut => Some(Err(ChannelError::Timeout)),
        ReadEvent::Closed => Some(Err(ChannelError::Disconnected)),
    }
}

/// `h` is `h0` followed by between one and `retries + 1` cycles of `req`,
/// the first drained exactly when `drained` and the others always,
/// every one but the last timed out, the last gave `r`, and a last timeout
/// comes only once the retries are spent.
pub open spec fn retried_cycles(
    h0: Seq<Cycle>,
    h: Seq<Cycle>,
    drained: bool,
    req: Seq<u8>,
    retries: nat,
    r: Result<Response, ChannelError>,
) -> bool {
    &&& h0.len() < h.len() <= h0.len() + retries + 1
    &&& h.take(h0.len() as int) == h0
    &&& forall|i: int| h0.len() <= i < h.len() ==> executed(#[trigger] h[i], drained || i > h0.len(), req)
    &&& forall|i: int| h0.len() <= i < h.len() - 1 ==> (#[trigger] h[i]).outcome == Err::<Response, ChannelError>(ChannelError::Timeout)
    &&& h.last().outcome == r
    &&& r == Err::<Response, ChannelError>(ChannelError::Timeout) ==> h.len() == h0.len() + retries + 1
}

impl<T: Transport> ControlChannel<T> {
    /// Every cycle run on this channel, oldest first.
    pub closed spec fn history(&self) -> Seq<Cycle> {
        self.log@
    }

    /// The next cycle starts by draining the transport.
    pub closed spec fn resync_pending(&self) -> bool {
        self.needs_resync
    }

    pub fn new(transport: T) -> (r: Self)
        ensures
            r.history() == Seq::<Cycle>::empty(),
            !r.resync_pending(),
    {
        ControlChannel { transport, needs_resync: false, log: Ghost(Seq::empty()) }
    }

    pub fn transport(&self) -> &T {
        &self.transport
    }

    pub fn into_transport(self) -> T {
        self.transport
    }

    /// Reads until the cycle has an outcome; also gives the reads made.
    fn read_frame(&mut self) -> (r: (Result<Response, ChannelError>, Ghost<Seq<ReadEvent>>))
        ensures
            final(self).history() == old(self).history(),
            final(self).resync_pending() == old(self).resync_pending(),
            read_trace(r.1@),
            outcome_view(r.0) == cycle_outcome(true, r.1@),
    {
        let mut buf: Vec<u8> = Vec::new();
        let ghost mut evs: Seq<ReadEvent> = Seq::empty();
        assert(evs.take(0) =~= evs);
        loop
            invariant
                !frame_complete(buf@),
                buf@ == event_bytes(evs),
                buf.len() <= 257,
                forall|i: int| 0 <= i < evs.len() ==> (#[trigger] evs[i]) is Byte,
                forall|k: int| 0 <= k <= evs.len() ==> !frame_complete(event_bytes(#[trigger] evs.take(k))),
                self.log@ == old(self).log@,
                self.needs_resync == old(self).needs_resync,
            decreases 258 - buf.len(),
        {
            let ev = self.transport.read_byte();
            let ghost prev = evs;
            proof {
                evs = evs.push(ev);
                assert(evs.drop_last() =~= prev);
                assert forall|k: int| 0 <= k <= prev.len() implies #[trigger] evs.take(k) =~= prev.take(k) by {}
                assert(evs.take(prev.len() as int) =~= prev);
                assert(prev.take(prev.len() as int) =~= prev);
            }
            let o = absorb(&mut buf, ev);
            match o {
                Some(out) => {
                    return (out, Ghost(evs));
                },
                None => {
                    assert(evs.take(evs.len() as int) =~= evs);
                },
            }
        }
    }

    /// Runs one request/response cycle: drains stray bytes if the previous
    /// cycle may have left some, writes the frame of `cmd`, then waits up to
    /// `timeout_ms` for a whole response frame. Whether the response is an
    /// `Ack` or a `Nack` is for the caller to judge; nothing is retried.
    pub fn execute(&mut self, cmd: &Command, timeout_ms: u64) -> (r: Result<Response, ChannelError>)
        requires
            cmd.wf(),
        ensures
            ({
                let c = final(self).history().last();
                &&& final(self).history() == old(self).history().push(c)
                &&& executed(c, old(self).resync_pending(), request_frame(*cmd))
                &&& c.outcome == r
            }),
            final(self).resync_pending() == leaves_stray_bytes(r),
    {
        let request = encode(cmd);
        let ghost drained = self.needs_resync;
        if self.needs_resync {
            self.transport.drain();
            self.needs_resync = false;
        }
        let written = self.transport.write_frame(request.as_slice());
        let ghost mut events: Seq<ReadEvent> = Seq::empty();
        let r = if !written {
            Err(ChannelError::Disconnected)
        } else {
            self.transport.start_timer(timeout_ms);
            let (out, evs) = self.read_frame();
            proof {
                events = evs@;
            }
            out
        };
        self.needs_resync = match r {
            Err(ChannelError::Timeout) => true,
            Err(ChannelError::Protocol(_)) => true,
            _ => false,
        };
        proof {
            self.log@ = self.log@.push(
                Cycle { drained, request: request@, written, events, outcome: r },
            );
        }
        r
    }

    /// Runs `cmd` as `execute` does, and again after each timeout, at most
    /// `retries` more times. For commands that are safe to repeat.
    pub fn execute_retrying(&mut self, cmd: &Command, timeout_ms: u64, retries: u32) -> (r: Result<
        Response,
        ChannelError,
    >)
        requires
            cmd.wf(),
        ensures
            retried_cycles(
                old(self).history(),
                final(self).history(),
                old(self).resync_pending(),
                request_frame(*cmd),
                retries as nat,
                r,
            ),
            final(self).resync_pending() == leaves_stray_bytes(r),
    {
        let ghost h0 = self.history();
        let ghost drained = self.resync_pending();
        let mut r = self.execute(cmd, timeout_ms);
        let mut attempt: u32 = 0;
        let mut timed_out: bool = match r {
            Err(ChannelError::Timeout) => true,
            _ => false,
        };
        assert(self.history().take(h0.len() as int) =~= h0);
        while timed_out && attempt < retries
            invariant
                cmd.wf(),
                attempt <= retries,
                timed_out == (r == Err::<Response, ChannelError>(ChannelError::Timeout)),
                self.history().len() == h0.len() + attempt + 1,
                self.history().take(h0.len() as int) == h0,
                forall|i: int| h0.len() <= i < self.history().len() ==> executed(#[trigger] self.history()[i], drained || i > h0.len(), request_frame(*cmd)),
                forall|i: int| h0.len() <= i < self.history().len() - 1 ==> (#[trigger] self.history()[i]).outcome == Err::<Response, ChannelError>(ChannelError::Timeout),
                self.history().last().outcome == r,
                self.resync_pending() == leaves_stray_bytes(r),
            decreases retries - attempt,
        {
            let ghost hp = self.history();
            r = self.execute(cmd, timeout_ms);
            attempt = attempt + 1;
            timed_out = match r {
                Err(ChannelError::Timeout) => true,
                _ => false,
            };
            assert(self.history().take(h0.len() as int) =~= hp.take(h0.len() as int));
            assert forall|i: int| h0.len() <= i < self.history().len() - 1 implies (#[trigger] self.history()[i]).outcome == Err::<Response, ChannelError>(ChannelError::Timeout) by {
                assert(self.history()[i] == hp[i] || i == hp.len() - 1);
            }
        }
        r
    }
}

} // verus!
