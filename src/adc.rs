//! ADC sampling: raw samples from the board, scaled by a linear calibration.
use vstd::prelude::*;
use crate::frame::{Command, Response, DecodeError, request_frame, ADC_CHANNELS};
use crate::channel::{ControlChannel, ChannelError, Transport, executed};

verus! {

#[derive(Clone, Copy, Debug, PartialEq, Eq, Structural)]
pub enum AdcError {
    /// The channel is not one the board samples.
    InvalidArgument,
    /// The board declined, with its reason code.
    Rejected(u8),
    /// The cycle timed out.
    Unreachable,
    /// An `Ack` whose payload is not a two-byte sample.
    MalformedResponse,
    /// The reply frame could not be decoded.
    Protocol(DecodeError),
    /// The transport is gone.
    Disconnected,
}

/// The linear transform `value = raw * gain + offset`.
#[derive(Clone, Copy, Debug, PartialEq, Eq, Structural)]
pub struct Calibration {
    pub gain: i32,
    pub offset: i32,
}

/// One reading of a channel: the raw count and its calibrated value.
#[derive(Clone, Copy, Debug, PartialEq, Eq, Structural)]
pub struct Sample {
    pub channel: u8,
    pub raw: u16,
    pub value: i64,
}

pub open spec fn adc_channel_error(e: ChannelError) -> AdcError {
    match e {
        ChannelError::Timeout => AdcError::Unreachable,
        ChannelError::Protocol(d) => AdcError::Protocol(d),
        ChannelError::Disconnected => AdcError::Disconnected,
    }
}

pub open spec fn scaled(raw: u16, cal: Calibration) -> int {
    raw as int * cal.gain as int + cal.offset as int
}

/// What `read` reports for the outcome of its cycle on `channel`: the
/// payload is the raw count, little-endian, in exactly two bytes.
pub open spec fn sample_result(r: Result<Response, ChannelError>, channel: u8, cal: Calibration) -> Result<Sample, AdcError> {
    match r {
        Ok(Response::Ack { payload }) => if payload@.len() == 2 {
            let raw = (payload@[0] as int + 256 * payload@[1] as int) as u16;
            Ok(Sample { channel, raw, value: scaled(raw, cal) as i64 })
        } else {
            Err(AdcError::MalformedResponse)
        },
        Ok(Response::Nack { reason }) => Err(AdcError::Rejected(reason)),
        Err(e) => Err(adc_channel_error(e)),
    }
}

fn map_channel_error(e: ChannelError) -> (r: AdcError)
    ensures
        r == adc_channel_error(e),
{
    match e {
        ChannelError::Timeout => AdcError::Unreachable,
        ChannelError::Protocol(d) => AdcError::Protocol(d),
        ChannelError::Disconnected => AdcError::Disconnected,
    }
}

/// Applies the calibration to a raw count.
pub fn scale(raw: u16, cal: Calibration) -> (v: i64)
    ensures
        v == scaled(raw, cal),
{
    assert(-0x8000_0000_0000 <= raw as int * cal.gain as int <= 0x8000_0000_0000) by (nonlinear_arith)
        requires
            0 <= raw as int <= 0xffff,
            -0x8000_0000 <= cal.gain as int <= 0x7fff_ffff,
    ;
    let p: i64 = raw as i64 * cal.gain as i64;
    p + cal.offset as i64
}

/// Maps the outcome of a sampling cycle on `channel` to its result.
pub fn sample_outcome(r: &Result<Response, ChannelError>, channel: u8, cal: Calibration) -> (o: Result<Sample, AdcError>)
    ensures
        o == sample_result(*r, channel, cal),
{
    match r {
        Ok(Response::Ack { payload }) => if payload.len() == 2 {
            let raw: u16 = payload[0] as u16 + 256 * payload[1] as u16;
            Ok(Sample { channel, raw, value: scale(raw, cal) })
        } else {
            Err(AdcError::MalformedResponse)
        },
        Ok(Response::Nack { reason }) => Err(AdcError::Rejected(*reason)),
        Err(e) => Err(map_channel_error(*e)),
    }
}

/// Samples the board's ADC channels. Nothing is retried: a caller that
/// wants another try simply reads again.
pub struct AdcReader {
    pub calibration: Calibration,
    pub timeout_ms: u64,
}

impl AdcReader {
    pub fn new(calibration: Calibration, timeout_ms: u64) -> (r: Self)
        ensures
            r.calibration == calibration,
            r.timeout_ms == timeout_ms,
    {
        AdcReader { calibration, timeout_ms }
    }

    /// Samples `channel` once.
    pub fn read<T: Transport>(&self, channel: &mut ControlChannel<T>, adc_channel: u8) -> (r: Result<Sample, AdcError>)
        ensures
            adc_channel >= ADC_CHANNELS ==> r == Err::<Sample, AdcError>(AdcError::InvalidArgument)
                && *final(channel) == *old(channel),
            adc_channel < ADC_CHANNELS ==> {
                let c = final(channel).history().last();
                &&& final(channel).history() == old(channel).history().push(c)
                &&& executed(c, old(channel).resync_pending(), request_frame(Command::AdcRead { channel: adc_channel }))
                &&& r == sample_result(c.outcome, adc_channel, self.calibration)
            },
    {
        if adc_channel >= ADC_CHANNELS {
            return Err(AdcError::InvalidArgument);
        }
        let cmd = Command::AdcRead { channel: adc_channel };
        let c = channel.execute(&cmd, self.timeout_ms);
        sample_outcome(&c, adc_channel, self.calibration)
    }
}

} // verus!
