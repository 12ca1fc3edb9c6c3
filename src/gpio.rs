//! GPIO control: named pins, levels, and the set/get operations over the
//! control channel.
use vstd::prelude::*;
use crate::frame::{Command, Response, DecodeError, request_frame};
use crate::channel::{ControlChannel, ChannelError, Transport, retried_cycles};

verus! {

/// A named GPIO line of the board. Raw line numbers never appear in the
/// public API: `from_raw` is the one place where they are mapped.
#[derive(Clone, Copy, Debug, PartialEq, Eq, Structural)]
pub enum GpioPin {
    AsicReset,
    PowerEnable,
    FanEnable,
    StatusLed,
}

/// The raw line number the board firmware uses for each named pin.
pub open spec fn pin_code(pin: GpioPin) -> u8 {
    match pin {
        GpioPin::AsicReset => 0,
        GpioPin::PowerEnable => 1,
        GpioPin::FanEnable => 2,
        GpioPin::StatusLed => 3,
    }
}

impl GpioPin {
    pub fn code(&self) -> (r: u8)
        ensures
            r == pin_code(*self),
    {
        match self {
            GpioPin::AsicReset => 0,
            GpioPin::PowerEnable => 1,
            GpioPin::FanEnable => 2,
            GpioPin::StatusLed => 3,
        }
    }

    /// Maps a raw line number to its pin; unknown numbers are rejected.
    pub fn from_raw(raw: u8) -> (r: Option<GpioPin>)
        ensures
            r matches Some(p) ==> pin_code(p) == raw,
            r is None <==> (forall|p: GpioPin| pin_code(p) != raw),
    {
        let r = match raw {
            0 => Some(GpioPin::AsicReset),
            1 => Some(GpioPin::PowerEnable),
            2 => Some(GpioPin::FanEnable),
            3 => Some(GpioPin::StatusLed),
            _ => None,
        };
        proof {
            if r is None {
                assert forall|p: GpioPin| pin_code(p) != raw by {
                    match p {
                        GpioPin::AsicReset => {},
                        GpioPin::PowerEnable => {},
                        GpioPin::FanEnable => {},
                        GpioPin::StatusLed => {},
                    }
                }
            } else {
                assert(pin_code(r->0) == raw);
            }
        }
        r
    }
}

/// A two-valued signal level.
#[derive(Clone, Copy, Debug, PartialEq, Eq, Structural)]
pub enum Level {
    Low,
    High,
}

/// The wire byte of a level.
pub open spec fn level_byte(level: Level) -> u8 {
    match level {
        Level::Low => 0,
        Level::High => 1,
    }
}

impl Level {
    pub fn to_byte(&self) -> (r: u8)
        ensures
            r == level_byte(*self),
    {
        match self {
            Level::Low => 0,
            Level::High => 1,
        }
    }
}

/// Retries after a timeout that `GpioController::new` allows.
pub const DEFAULT_GPIO_RETRIES: u32 = 2;

#[derive(Clone, Copy, Debug, PartialEq, Eq, Structural)]
pub enum GpioError {
    /// The board declined, with its reason code.
    Rejected(u8),
    /// Every attempt timed out.
    Unreachable,
    /// An `Ack` whose payload is not a level.
    MalformedResponse,
    /// The reply frame could not be decoded.
    Protocol(DecodeError),
    /// The transport is gone.
    Disconnected,
}

pub open spec fn gpio_channel_error(e: ChannelError) -> GpioError {
    match e {
        ChannelError::Timeout => GpioError::Unreachable,
        ChannelError::Protocol(d) => GpioError::Protocol(d),
        ChannelError::Disconnected => GpioError::Disconnected,
    }
}

/// What `set` reports for the channel outcome of its last attempt.
pub open spec fn set_result(r: Result<Response, ChannelError>) -> Result<(), GpioError> {
    match r {
        Ok(Response::Ack { .. }) => Ok(()),
        Ok(Response::Nack { reason }) => Err(GpioError::Rejected(reason)),
        Err(e) => Err(gpio_channel_error(e)),
    }
}

/// What `get` reports for the channel outcome of its last attempt.
pub open spec fn get_result(r: Result<Response, ChannelError>) -> Result<Level, GpioError> {
    match r {
        Ok(Response::Ack { payload }) => if payload@ == seq![0u8] {
            Ok(Level::Low)
        } else if payload@ == seq![1u8] {
            Ok(Level::High)
        } else {
            Err(GpioError::MalformedResponse)
        },
        Ok(Response::Nack { reason }) => Err(GpioError::Rejected(reason)),
        Err(e) => Err(gpio_channel_error(e)),
    }
}

fn map_channel_error(e: ChannelError) -> (r: GpioError)
    ensures
        r == gpio_channel_error(e),
{
    match e {
        ChannelError::Timeout => GpioError::Unreachable,
        ChannelError::Protocol(d) => GpioError::Protocol(d),
        ChannelError::Disconnected => GpioError::Disconnected,
    }
}

/// Maps the channel outcome of a set to its result.
pub fn set_outcome(r: &Result<Response, ChannelError>) -> (o: Result<(), GpioError>)
    ensures
        o == set_result(*r),
{
    match r {
        Ok(Response::Ack { .. }) => Ok(()),
        Ok(Response::Nack { reason }) => Err(GpioError::Rejected(*reason)),
        Err(e) => Err(map_channel_error(*e)),
    }
}

/// Maps the channel outcome of a get to its result: the payload must be
/// exactly one byte, 0 or 1.
pub fn get_outcome(r: &Result<Response, ChannelError>) -> (o: Result<Level, GpioError>)
    ensures
        o == get_result(*r),
{
    match r {
        Ok(Response::Ack { payload }) => {
            if payload.len() == 1 && payload[0] == 0 {
                assert(payload@ =~= seq![0u8]);
                Ok(Level::Low)
            } else if payload.len() == 1 && payload[0] == 1 {
                assert(payload@ =~= seq![1u8]);
                Ok(Level::High)
            } else {
                proof {
                    if payload@ == seq![0u8] || payload@ == seq![1u8] {
                        assert(payload@[0] == payload[0]);
                    }
                }
                Err(GpioError::MalformedResponse)
            }
        },
        Ok(Response::Nack { reason }) => Err(GpioError::Rejected(*reason)),
        Err(e) => Err(map_channel_error(*e)),
    }
}

/// Drives the board's GPIO lines. Both operations are idempotent, so a
/// timeout is retried up to `retries` times before it is reported.
pub struct GpioController {
    pub retries: u32,
    pub timeout_ms: u64,
}

impl GpioController {
    pub fn new(timeout_ms: u64) -> (r: Self)
        ensures
            r.retries == DEFAULT_GPIO_RETRIES,
            r.timeout_ms == timeout_ms,
    {
        GpioController { retries: DEFAULT_GPIO_RETRIES, timeout_ms }
    }

    pub fn with_retries(timeout_ms: u64, retries: u32) -> (r: Self)
        ensures
            r.retries == retries,
            r.timeout_ms == timeout_ms,
    {
        GpioController { retries, timeout_ms }
    }

    /// Drives `pin` to `level`.
    pub fn set<T: Transport>(&self, channel: &mut ControlChannel<T>, pin: GpioPin, level: Level) -> (r: Result<(), GpioError>)
        ensures
            retried_cycles(
                old(channel).history(),
                final(channel).history(),
                old(channel).resync_pending(),
                request_frame(Command::GpioSet { pin, level }),
                self.retries as nat,
                final(channel).history().last().outcome,
            ),
            r == set_result(final(channel).history().last().outcome),
    {
        let cmd = Command::GpioSet { pin, level };
        let c = channel.execute_retrying(&cmd, self.timeout_ms, self.retries);
        set_outcome(&c)
    }

    /// Reads the level of `pin`.
    pub fn get<T: Transport>(&self, channel: &mut ControlChannel<T>, pin: GpioPin) -> (r: Result<Level, GpioError>)
        ensures
            retried_cycles(
                old(channel).history(),
                final(channel).history(),
                old(channel).resync_pending(),
                request_frame(Command::GpioGet { pin }),
                self.retries as nat,
                final(channel).history().last().outcome,
            ),
            r == get_result(final(channel).history().last().outcome),
    {
        let cmd = Command::GpioGet { pin };
        let c = channel.execute_retrying(&cmd, self.timeout_ms, self.retries);
        get_outcome(&c)
    }
}

} // verus!
