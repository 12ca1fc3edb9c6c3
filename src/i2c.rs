//! I2C passthrough: register reads and writes relayed through the board.
use vstd::prelude::*;
use crate::frame::{Command, Response, DecodeError, request_frame, MAX_PAYLOAD, MAX_I2C_WRITE};
use crate::channel::{ControlChannel, ChannelError, Transport, executed};

verus! {

#[derive(Clone, Copy, Debug, PartialEq, Eq, Structural)]
pub enum I2cError {
    /// Address beyond 7 bits, or a size beyond the payload capacity.
    InvalidArgument,
    /// The device declined, with its reason code.
    DeviceNack(u8),
    /// The cycle timed out.
    Unreachable,
    /// An `Ack` whose payload is not the requested number of bytes.
    MalformedResponse,
    /// The reply frame could not be decoded.
    Protocol(DecodeError),
    /// The transport is gone.
    Disconnected,
}

pub open spec fn i2c_channel_error(e: ChannelError) -> I2cError {
    match e {
        ChannelError::Timeout => I2cError::Unreachable,
        ChannelError::Protocol(d) => I2cError::Protocol(d),
        ChannelError::Disconnected => I2cError::Disconnected,
    }
}

/// The arguments of a read that are rejected before any I/O.
pub open spec fn read_rejected(address: u8, length: usize) -> bool {
    address > 127 || length > MAX_PAYLOAD
}

/// The arguments of a write that are rejected before any I/O.
pub open spec fn write_rejected(address: u8, data: Seq<u8>) -> bool {
    address > 127 || data.len() > MAX_I2C_WRITE
}

/// What `read` reports for the outcome of its cycle.
pub open spec fn read_result(r: Result<Response, ChannelError>, length: usize) -> Result<Seq<u8>, I2cError> {
    match r {
        Ok(Response::Ack { payload }) => if payload@.len() == length {
            Ok(payload@)
        } else {
            Err(I2cError::MalformedResponse)
        },
        Ok(Response::Nack { reason }) => Err(I2cError::DeviceNack(reason)),
        Err(e) => Err(i2c_channel_error(e)),
    }
}

/// What `write` reports for the outcome of its cycle.
pub open spec fn write_result(r: Result<Response, ChannelError>) -> Result<(), I2cError> {
    match r {
        Ok(Response::Ack { .. }) => Ok(()),
        Ok(Response::Nack { reason }) => Err(I2cError::DeviceNack(reason)),
        Err(e) => Err(i2c_channel_error(e)),
    }
}

pub open spec fn bytes_result(r: Result<Vec<u8>, I2cError>) -> Result<Seq<u8>, I2cError> {
    match r {
        Ok(v) => Ok(v@),
        Err(e) => Err(e),
    }
}

fn map_channel_error(e: ChannelError) -> (r: I2cError)
    ensures
        r == i2c_channel_error(e),
{
    match e {
        ChannelError::Timeout => I2cError::Unreachable,
        ChannelError::Protocol(d) => I2cError::Protocol(d),
        ChannelError::Disconnected => I2cError::Disconnected,
    }
}

/// Maps the outcome of a read cycle to its result.
pub fn read_outcome(r: Result<Response, ChannelError>, length: usize) -> (o: Result<Vec<u8>, I2cError>)
    ensures
        bytes_result(o) == read_result(r, length),
{
    match r {
        Ok(Response::Ack { payload }) => if payload.len() == length {
            Ok(payload)
        } else {
            Err(I2cError::MalformedResponse)
        },
        Ok(Response::Nack { reason }) => Err(I2cError::DeviceNack(reason)),
        Err(e) => Err(map_channel_error(e)),
    }
}

/// Maps the outcome of a write cycle to its result.
pub fn write_outcome(r: &Result<Response, ChannelError>) -> (o: Result<(), I2cError>)
    ensures
        o == write_result(*r),
{
    match r {
        Ok(Response::Ack { .. }) => Ok(()),
        Ok(Response::Nack { reason }) => Err(I2cError::DeviceNack(*reason)),
        Err(e) => Err(map_channel_error(*e)),
    }
}

/// Relays I2C transactions. Nothing is retried: a write may have side
/// effects on the device, and a read is left for the caller to repeat.
pub struct I2cPassthrough {
    pub timeout_ms: u64,
}

impl I2cPassthrough {
    pub fn new(timeout_ms: u64) -> (r: Self)
        ensures
            r.timeout_ms == timeout_ms,
    {
        I2cPassthrough { timeout_ms }
    }

    /// Reads `length` bytes starting at `register` of the device at `address`.
    pub fn read<T: Transport>(
        &self,
        channel: &mut ControlChannel<T>,
        address: u8,
        register: u8,
        length: usize,
    ) -> (r: Result<Vec<u8>, I2cError>)
        ensures
            read_rejected(address, length) ==> r == Err::<Vec<u8>, I2cError>(I2cError::InvalidArgument)
                && *final(channel) == *old(channel),
            !read_rejected(address, length) ==> {
                let c = final(channel).history().last();
                &&& final(channel).history() == old(channel).history().push(c)
                &&& executed(c, old(channel).resync_pending(), request_frame(Command::I2cRead { address, register, length: length as u8 }))
                &&& bytes_result(r) == read_result(c.outcome, length)
            },
    {
        if address > 127 || length > MAX_PAYLOAD {
            return Err(I2cError::InvalidArgument);
        }
        let cmd = Command::I2cRead { address, register, length: length as u8 };
        let c = channel.execute(&cmd, self.timeout_ms);
        read_outcome(c, length)
    }

    /// Writes `data` starting at `register` of the device at `address`.
    pub fn write<T: Transport>(
        &self,
        channel: &mut ControlChannel<T>,
        address: u8,
        register: u8,
        data: &Vec<u8>,
    ) -> (r: Result<(), I2cError>)
        ensures
            write_rejected(address, data@) ==> r == Err::<(), I2cError>(I2cError::InvalidArgument)
                && *final(channel) == *old(channel),
            !write_rejected(address, data@) ==> {
                let c = final(channel).history().last();
                &&& final(channel).history() == old(channel).history().push(c)
                &&& executed(c, old(channel).resync_pending(), request_frame(Command::I2cWrite { address, register, data: *data }))
                &&& r == write_result(c.outcome)
            },
    {
        if address > 127 || data.len() > MAX_I2C_WRITE {
            return Err(I2cError::InvalidArgument);
        }
        let cmd = Command::I2cWrite { address, register, data: data.clone() };
        let c = channel.execute(&cmd, self.timeout_ms);
        write_outcome(&c)
    }
}

} // verus!
