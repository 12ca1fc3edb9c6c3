//! Frame codec: `[opcode:1][length:1][payload:length][checksum:1]`, where the
//! checksum is the sum, modulo 256, of every byte before it.
use vstd::prelude::*;
use vstd::arithmetic::div_mod::lemma_add_mod_noop;
use crate::gpio::{GpioPin, Level, pin_code, level_byte};

verus! {

/// Largest payload a request frame may carry.
pub const MAX_PAYLOAD: usize = 32;
/// Largest data block of one I2C write: the payload also holds address and register.
pub const MAX_I2C_WRITE: usize = 30;
/// Number of ADC channels the board samples (channels `0..ADC_CHANNELS`).
pub const ADC_CHANNELS: u8 = 4;

pub const OP_GPIO_SET: u8 = 0x01;
pub const OP_GPIO_GET: u8 = 0x02;
pub const OP_I2C_READ: u8 = 0x03;
pub const OP_I2C_WRITE: u8 = 0x04;
pub const OP_ADC_READ: u8 = 0x05;
pub const OP_ACK: u8 = 0x80;
pub const OP_NACK: u8 = 0x81;

/// A request to the board.
#[derive(Clone, Debug, PartialEq, Eq)]
pub enum Command {
    GpioSet { pin: GpioPin, level: Level },
    GpioGet { pin: GpioPin },
    I2cRead { address: u8, register: u8, length: u8 },
    I2cWrite { address: u8, register: u8, data: Vec<u8> },
    AdcRead { channel: u8 },
}

/// A reply of the board.
#[derive(Clone, Debug, PartialEq, Eq)]
pub enum Response {
    Ack { payload: Vec<u8> },
    Nack { reason: u8 },
}

/// The mathematical value of a `Response`.
pub enum ResponseView {
    Ack(Seq<u8>),
    Nack(u8),
}

impl View for Response {
    type V = ResponseView;

    open spec fn view(&self) -> ResponseView {
        match self {
            Response::Ack { payload } => ResponseView::Ack(payload@),
            Response::Nack { reason } => ResponseView::Nack(*reason),
        }
    }
}

#[derive(Clone, Copy, Debug, PartialEq, Eq, Structural)]
pub enum DecodeError {
    /// Fewer bytes than the header and the declared length call for.
    Truncated,
    /// The checksum byte does not match the bytes it covers.
    ChecksumMismatch,
    /// The opcode is not a response tag.
    UnknownOpcode,
    /// A `Nack` whose payload is not exactly one reason byte.
    MalformedPayload,
}

/// Sum of the bytes of `s`.
pub open spec fn byte_sum(s: Seq<u8>) -> nat
    decreases s.len(),
{
    if s.len() == 0 {
        0
    } else {
        byte_sum(s.drop_last()) + s.last() as nat
    }
}

pub open spec fn checksum(s: Seq<u8>) -> u8 {
    (byte_sum(s) % 256) as u8
}

/// The frame carrying `payload` under `opcode`.
pub open spec fn frame(opcode: u8, payload: Seq<u8>) -> Seq<u8> {
    let body = seq![opcode, payload.len() as u8] + payload;
    body.push(checksum(body))
}

impl Command {
    /// The command can be put on the wire: addresses are 7-bit, sizes fit the
    /// payload, and the ADC channel exists.
    pub open spec fn wf(&self) -> bool {
        match self {
            Command::I2cRead { address, length, .. } => *address <= 127 && *length as usize <= MAX_PAYLOAD,
            Command::I2cWrite { address, data, .. } => *address <= 127 && data@.len() <= MAX_I2C_WRITE,
            Command::AdcRead { channel } => *channel < ADC_CHANNELS,
            _ => true,
        }
    }
}

pub open spec fn opcode_of(cmd: Command) -> u8 {
    match cmd {
        Command::GpioSet { .. } => OP_GPIO_SET,
        Command::GpioGet { .. } => OP_GPIO_GET,
        Command::I2cRead { .. } => OP_I2C_READ,
        Command::I2cWrite { .. } => OP_I2C_WRITE,
        Command::AdcRead { .. } => OP_ADC_READ,
    }
}

pub open spec fn payload_of(cmd: Command) -> Seq<u8> {
    match cmd {
        Command::GpioSet { pin, level } => seq![pin_code(pin), level_byte(level)],
        Command::GpioGet { pin } => seq![pin_code(pin)],
        Command::I2cRead { address, register, length } => seq![address, register, length],
        Command::I2cWrite { address, register, data } => seq![address, register] + data@,
        Command::AdcRead { channel } => seq![channel],
    }
}

/// The bytes that carry `cmd` to the board.
pub open spec fn request_frame(cmd: Command) -> Seq<u8> {
    frame(opcode_of(cmd), payload_of(cmd))
}

impl ResponseView {
    pub open spec fn wf(&self) -> bool {
        match self {
            ResponseView::Ack(p) => p.len() <= 255,
            ResponseView::Nack(_) => true,
        }
    }
}

pub open spec fn response_frame(r: ResponseView) -> Seq<u8> {
    match r {
        ResponseView::Ack(p) => frame(OP_ACK, p),
        ResponseView::Nack(reason) => frame(OP_NACK, seq![reason]),
    }
}

/// Holds exactly when `b` starts with a whole frame, header and checksum included.
pub open spec fn frame_complete(b: Seq<u8>) -> bool {
    b.len() >= 2 && b.len() >= b[1] + 3
}

/// What the frame at the start of `b` means; bytes after it are not read.
pub open spec fn decode_spec(b: Seq<u8>) -> Result<ResponseView, DecodeError> {
    if !frame_complete(b) {
        Err(DecodeError::Truncated)
    } else {
        let n = b[1] as int;
        if b[n + 2] != checksum(b.take(n + 2)) {
            Err(DecodeError::ChecksumMismatch)
        } else if b[0] == OP_ACK {
            Ok(ResponseView::Ack(b.subrange(2, n + 2)))
        } else if b[0] == OP_NACK {
            if n == 1 {
                Ok(ResponseView::Nack(b[2]))
            } else {
                Err(DecodeError::MalformedPayload)
            }
        } else {
            Err(DecodeError::UnknownOpcode)
        }
    }
}

/// The checksum of the first `n` bytes of `b`.
pub fn checksum_prefix(b: &Vec<u8>, n: usize) -> (r: u8)
    requires
        n <= b.len(),
    ensures
        r == checksum(b@.take(n as int)),
{
    let mut acc: u32 = 0;
    let mut i: usize = 0;
    while i < n
        invariant
            i <= n,
            n <= b.len(),
            acc < 256,
            acc == byte_sum(b@.take(i as int)) % 256,
        decreases n - i,
    {
        assert(b@.take(i + 1).drop_last() =~= b@.take(i as int));
        proof {
            lemma_add_mod_noop(byte_sum(b@.take(i as int)) as int, b@[i as int] as int, 256);
        }
        acc = (acc + b[i] as u32) % 256;
        i = i + 1;
    }
    acc as u8
}

/// Builds the frame carrying `payload` under `opcode`.
pub fn frame_bytes(opcode: u8, payload: &Vec<u8>) -> (r: Vec<u8>)
    requires
        payload.len() <= 255,
    ensures
        r@ == frame(opcode, payload@),
{
    let mut out: Vec<u8> = Vec::new();
    out.push(opcode);
    out.push(payload.len() as u8);
    let mut i: usize = 0;
    while i < payload.len()
        invariant
            i <= payload.len(),
            payload.len() <= 255,
            out@ =~= seq![opcode, payload.len() as u8] + payload@.take(i as int),
        decreases payload.len() - i,
    {
        out.push(payload[i]);
        i = i + 1;
        assert(out@ =~= seq![opcode, payload.len() as u8] + payload@.take(i as int));
    }
    let c = checksum_prefix(&out, out.len());
    assert(out@.take(out.len() as int) =~= out@);
    assert(payload@.take(payload.len() as int) =~= payload@);
    out.push(c);
    out
}

/// The bytes that carry `cmd` to the board.
pub fn encode(cmd: &Command) -> (r: Vec<u8>)
    requires
        cmd.wf(),
    ensures
        r@ == request_frame(*cmd),
        r@.len() <= MAX_PAYLOAD + 3,
{
    let (opcode, payload) = match cmd {
        Command::GpioSet { pin, level } => (OP_GPIO_SET, vec![pin.code(), level.to_byte()]),
        Command::GpioGet { pin } => (OP_GPIO_GET, vec![pin.code()]),
        Command::I2cRead { address, register, length } => (OP_I2C_READ, vec![*address, *register, *length]),
        Command::I2cWrite { address, register, data } => {
            let mut p: Vec<u8> = vec![*address, *register];
            let mut i: usize = 0;
            while i < data.len()
                invariant
                    i <= data.len(),
                    p@ =~= seq![*address, *register] + data@.take(i as int),
                decreases data.len() - i,
            {
                p.push(data[i]);
                i = i + 1;
                assert(p@ =~= seq![*address, *register] + data@.take(i as int));
            }
            assert(data@.take(data.len() as int) =~= data@);
            (OP_I2C_WRITE, p)
        },
        Command::AdcRead { channel } => (OP_ADC_READ, vec![*channel]),
    };
    assert(payload@ =~= payload_of(*cmd));
    frame_bytes(opcode, &payload)
}

/// The bytes the board sends for `resp`.
pub fn encode_response(resp: &Response) -> (r: Vec<u8>)
    requires
        resp@.wf(),
    ensures
        r@ == response_frame(resp@),
{
    match resp {
        Response::Ack { payload } => frame_bytes(OP_ACK, payload),
        Response::Nack { reason } => {
            let p: Vec<u8> = vec![*reason];
            assert(p@ =~= seq![*reason]);
            frame_bytes(OP_NACK, &p)
        },
    }
}

/// Decodes the response frame at the start of `b`.
pub fn decode(b: &Vec<u8>) -> (r: Result<Response, DecodeError>)
    ensures
        match r {
            Ok(resp) => decode_spec(b@) == Ok::<ResponseView, DecodeError>(resp@),
            Err(e) => decode_spec(b@) == Err::<ResponseView, DecodeError>(e),
        },
{
    if b.len() < 2 || b.len() < b[1] as usize + 3 {
        return Err(DecodeError::Truncated);
    }
    let n: usize = b[1] as usize;
    if b[n + 2] != checksum_prefix(b, n + 2) {
        return Err(DecodeError::ChecksumMismatch);
    }
    if b[0] == OP_ACK {
        let mut payload: Vec<u8> = Vec::new();
        let mut i: usize = 2;
        while i < n + 2
            invariant
                2 <= i <= n + 2,
                n + 2 < b.len(),
                payload@ =~= b@.subrange(2, i as int),
            decreases n + 2 - i,
        {
            payload.push(b[i]);
            i = i + 1;
            assert(payload@ =~= b@.subrange(2, i as int));
        }
        Ok(Response::Ack { payload })
    } else if b[0] == OP_NACK {
        if n == 1 {
            Ok(Response::Nack { reason: b[2] })
        } else {
            Err(DecodeError::MalformedPayload)
        }
    } else {
        Err(DecodeError::UnknownOpcode)
    }
}

/// Decoding the frame of a well-formed response gives back that same response.
pub proof fn lemma_response_round_trip(r: ResponseView)
    requires
        r.wf(),
    ensures
        decode_spec(response_frame(r)) == Ok::<ResponseView, DecodeError>(r),
{
    let f = response_frame(r);
    match r {
        ResponseView::Ack(p) => {
            let body = seq![OP_ACK, p.len() as u8] + p;
            assert(f.take(p.len() + 2int) =~= body);
            assert(f.subrange(2, p.len() + 2int) =~= p);
        },
        ResponseView::Nack(reason) => {
            let body = seq![OP_NACK, 1u8] + seq![reason];
            assert(f.take(3) =~= body);
        },
    }
}

/// Every proper prefix of a response frame, shorter than its declared
/// length, is reported as truncated.
pub proof fn lemma_truncated_frame(r: ResponseView, k: int)
    requires
        r.wf(),
        0 <= k < response_frame(r).len(),
    ensures
        decode_spec(response_frame(r).take(k)) == Err::<ResponseView, DecodeError>(DecodeError::Truncated),
{
}

/// A response frame whose checksum byte is replaced by any other value is
/// reported as a checksum mismatch.
pub proof fn lemma_flipped_checksum(r: ResponseView, x: u8)
    requires
        r.wf(),
        x != response_frame(r).last(),
    ensures
        decode_spec(response_frame(r).update(response_frame(r).len() - 1, x))
            == Err::<ResponseView, DecodeError>(DecodeError::ChecksumMismatch),
{
    let f = response_frame(r);
    let g = f.update(f.len() - 1, x);
    let n = f.len() - 3;
    match r {
        ResponseView::Ack(p) => {
            assert(f.take(n + 2) =~= seq![OP_ACK, p.len() as u8] + p);
        },
        ResponseView::Nack(reason) => {
            assert(f.take(n + 2) =~= seq![OP_NACK, 1u8] + seq![reason]);
        },
    }
    assert(g[1] == f[1]);
    assert(g.take(n + 2) =~= f.take(n + 2));
}

} // verus!
