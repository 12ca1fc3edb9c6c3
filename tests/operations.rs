use std::collections::VecDeque;
use std::sync::Arc;

use mujina_miner::adc::{AdcError, AdcReader, Calibration, Sample};
use mujina_miner::channel::{ChannelError, ControlChannel, ReadEvent, Transport};
use mujina_miner::frame::{decode, encode, encode_response, Command, DecodeError, Response};
use mujina_miner::gpio::{GpioController, GpioError, GpioPin, Level};
use mujina_miner::i2c::{I2cError, I2cPassthrough};

#[derive(Debug, Clone, PartialEq)]
enum Event {
    Write(Vec<u8>),
    Byte(u8),
    Timer(u64),
    TimedOut,
    Drain,
}

/// A board on the other end of the link: answers each request frame with
/// whatever `reply` gives, or stays silent.
struct SimBoard {
    reply: fn(&[u8]) -> Option<Vec<u8>>,
    pending: VecDeque<u8>,
    events: Vec<Event>,
    closed: bool,
}

impl SimBoard {
    fn new(reply: fn(&[u8]) -> Option<Vec<u8>>) -> Self {
        SimBoard { reply, pending: VecDeque::new(), events: Vec::new(), closed: false }
    }

    fn count(&self, f: fn(&Event) -> bool) -> usize {
        self.events.iter().filter(|e| f(e)).count()
    }
}

impl Transport for SimBoard {
    fn write_frame(&mut self, bytes: &[u8]) -> bool {
        if self.closed {
            return false;
        }
        self.events.push(Event::Write(bytes.to_vec()));
        if let Some(r) = (self.reply)(bytes) {
            self.pending.extend(r);
        }
        true
    }

    fn start_timer(&mut self, timeout_ms: u64) {
        self.events.push(Event::Timer(timeout_ms));
    }

    fn read_byte(&mut self) -> ReadEvent {
        if self.closed {
            return ReadEvent::Closed;
        }
        match self.pending.pop_front() {
            Some(b) => {
                self.events.push(Event::Byte(b));
                ReadEvent::Byte(b)
            }
            None => {
                self.events.push(Event::TimedOut);
                ReadEvent::TimedOut
            }
        }
    }

    fn drain(&mut self) {
        self.pending.clear();
        self.events.push(Event::Drain);
    }
}

fn silent(_: &[u8]) -> Option<Vec<u8>> {
    None
}

fn ack_empty(_: &[u8]) -> Option<Vec<u8>> {
    Some(encode_response(&Response::Ack { payload: vec![] }))
}

fn nack_gpio_set(req: &[u8]) -> Option<Vec<u8>> {
    if req[0] == 0x01 {
        Some(encode_response(&Response::Nack { reason: 0x01 }))
    } else {
        ack_empty(req)
    }
}

fn is_write(e: &Event) -> bool {
    matches!(e, Event::Write(_))
}

fn is_timeout(e: &Event) -> bool {
    matches!(e, Event::TimedOut)
}

fn is_timer(e: &Event) -> bool {
    matches!(e, Event::Timer(_))
}

#[test]
fn gpio_set_retries_then_unreachable() {
    let mut ch = ControlChannel::new(SimBoard::new(silent));
    let gpio = GpioController::new(50);
    let r = gpio.set(&mut ch, GpioPin::AsicReset, Level::High);
    assert_eq!(r, Err(GpioError::Unreachable));
    let board = ch.transport();
    assert_eq!(board.count(is_write), 3);
    assert_eq!(board.count(is_timeout), 3);
    let req = encode(&Command::GpioSet { pin: GpioPin::AsicReset, level: Level::High });
    for e in board.events.iter().filter(|e| is_write(e)) {
        assert_eq!(e, &Event::Write(req.clone()));
    }
}

#[test]
fn gpio_set_retry_bound_is_configurable() {
    let mut ch = ControlChannel::new(SimBoard::new(silent));
    let gpio = GpioController::with_retries(50, 0);
    assert_eq!(gpio.set(&mut ch, GpioPin::PowerEnable, Level::Low), Err(GpioError::Unreachable));
    assert_eq!(ch.transport().count(is_write), 1);
}

#[test]
fn i2c_write_does_not_retry_timeout() {
    let mut ch = ControlChannel::new(SimBoard::new(silent));
    let i2c = I2cPassthrough::new(50);
    let r = i2c.write(&mut ch, 0x4c, 0x01, &vec![0x80]);
    assert_eq!(r, Err(I2cError::Unreachable));
    assert_eq!(ch.transport().count(is_write), 1);
    assert_eq!(ch.transport().count(is_timeout), 1);
}

#[test]
fn i2c_read_rejects_address_128_without_io() {
    let mut ch = ControlChannel::new(SimBoard::new(ack_empty));
    let i2c = I2cPassthrough::new(50);
    assert_eq!(i2c.read(&mut ch, 128, 0, 1), Err(I2cError::InvalidArgument));
    assert!(ch.transport().events.is_empty());
}

#[test]
fn i2c_rejects_oversized_transfers_without_io() {
    let mut ch = ControlChannel::new(SimBoard::new(ack_empty));
    let i2c = I2cPassthrough::new(50);
    assert_eq!(i2c.read(&mut ch, 0x10, 0, 33), Err(I2cError::InvalidArgument));
    assert_eq!(i2c.write(&mut ch, 0x10, 0, &vec![0u8; 31]), Err(I2cError::InvalidArgument));
    assert!(ch.transport().events.is_empty());
    assert_eq!(i2c.write(&mut ch, 0x10, 0, &vec![0u8; 30]), Ok(()));
    assert_eq!(ch.transport().count(is_write), 1);
}

#[test]
fn i2c_read_returns_requested_bytes() {
    fn two_bytes(_: &[u8]) -> Option<Vec<u8>> {
        Some(encode_response(&Response::Ack { payload: vec![0xde, 0xad] }))
    }
    let mut ch = ControlChannel::new(SimBoard::new(two_bytes));
    let i2c = I2cPassthrough::new(50);
    assert_eq!(i2c.read(&mut ch, 0x4c, 0x00, 2), Ok(vec![0xde, 0xad]));
    assert_eq!(i2c.read(&mut ch, 0x4c, 0x00, 3), Err(I2cError::MalformedResponse));
    assert_eq!(
        ch.transport().events[0],
        Event::Write(encode(&Command::I2cRead { address: 0x4c, register: 0, length: 2 }))
    );
}

#[test]
fn i2c_nack_is_device_nack() {
    fn nack(_: &[u8]) -> Option<Vec<u8>> {
        Some(encode_response(&Response::Nack { reason: 0x07 }))
    }
    let mut ch = ControlChannel::new(SimBoard::new(nack));
    let i2c = I2cPassthrough::new(50);
    assert_eq!(i2c.write(&mut ch, 0x4c, 0x01, &vec![1]), Err(I2cError::DeviceNack(0x07)));
    assert_eq!(ch.transport().count(is_write), 1);
}

#[test]
fn gpio_set_nack_is_rejected() {
    let mut ch = ControlChannel::new(SimBoard::new(nack_gpio_set));
    let gpio = GpioController::new(50);
    assert_eq!(gpio.set(&mut ch, GpioPin::FanEnable, Level::High), Err(GpioError::Rejected(0x01)));
    assert_eq!(ch.transport().count(is_write), 1);
}

#[test]
fn gpio_get_decodes_level() {
    fn high(_: &[u8]) -> Option<Vec<u8>> {
        Some(encode_response(&Response::Ack { payload: vec![1] }))
    }
    fn bad(_: &[u8]) -> Option<Vec<u8>> {
        Some(encode_response(&Response::Ack { payload: vec![2] }))
    }
    let gpio = GpioController::new(50);
    let mut ch = ControlChannel::new(SimBoard::new(high));
    assert_eq!(gpio.get(&mut ch, GpioPin::StatusLed), Ok(Level::High));
    let mut ch = ControlChannel::new(SimBoard::new(bad));
    assert_eq!(gpio.get(&mut ch, GpioPin::StatusLed), Err(GpioError::MalformedResponse));
}

#[test]
fn adc_read_times_out_once() {
    let mut ch = ControlChannel::new(SimBoard::new(silent));
    let adc = AdcReader::new(Calibration { gain: 1, offset: 0 }, 20);
    assert_eq!(adc.read(&mut ch, 0), Err(AdcError::Unreachable));
    let board = ch.transport();
    assert_eq!(board.count(is_timer), 1);
    assert_eq!(board.count(is_timeout), 1);
    assert_eq!(board.count(is_write), 1);
    assert!(board.events.contains(&Event::Timer(20)));
}

#[test]
fn adc_read_scales_sample() {
    fn sample(_: &[u8]) -> Option<Vec<u8>> {
        Some(encode_response(&Response::Ack { payload: vec![0x34, 0x12] }))
    }
    let mut ch = ControlChannel::new(SimBoard::new(sample));
    let adc = AdcReader::new(Calibration { gain: 2, offset: -10 }, 20);
    assert_eq!(
        adc.read(&mut ch, 1),
        Ok(Sample { channel: 1, raw: 0x1234, value: 0x1234 * 2 - 10 })
    );
}

#[test]
fn adc_rejects_unknown_channel() {
    let mut ch = ControlChannel::new(SimBoard::new(ack_empty));
    let adc = AdcReader::new(Calibration { gain: 1, offset: 0 }, 20);
    assert_eq!(adc.read(&mut ch, 4), Err(AdcError::InvalidArgument));
    assert!(ch.transport().events.is_empty());
    assert_eq!(adc.read(&mut ch, 3), Err(AdcError::MalformedResponse));
}

#[test]
fn timeout_drains_before_next_request() {
    fn late(req: &[u8]) -> Option<Vec<u8>> {
        // The reply to a read of channel 0 is cut short; channel 1 is answered.
        if req[2] == 0 {
            Some(encode_response(&Response::Ack { payload: vec![1, 0] })[..2].to_vec())
        } else {
            Some(encode_response(&Response::Ack { payload: vec![2, 0] }))
        }
    }
    let mut ch = ControlChannel::new(SimBoard::new(late));
    let adc = AdcReader::new(Calibration { gain: 1, offset: 0 }, 20);
    assert_eq!(adc.read(&mut ch, 0), Err(AdcError::Unreachable));
    assert_eq!(adc.read(&mut ch, 1).map(|s| s.raw), Ok(2));
    let events = &ch.transport().events;
    let drain_at = events.iter().position(|e| *e == Event::Drain).unwrap();
    let second_write = events.iter().enumerate().filter(|(_, e)| is_write(e)).nth(1).unwrap().0;
    assert!(drain_at < second_write);
    assert_eq!(events.iter().filter(|e| **e == Event::Drain).count(), 1);
}

#[test]
fn corrupt_reply_is_protocol_error() {
    fn corrupt(_: &[u8]) -> Option<Vec<u8>> {
        let mut b = encode_response(&Response::Ack { payload: vec![] });
        b[2] ^= 0xff;
        Some(b)
    }
    let mut ch = ControlChannel::new(SimBoard::new(corrupt));
    let gpio = GpioController::new(50);
    assert_eq!(
        gpio.set(&mut ch, GpioPin::AsicReset, Level::Low),
        Err(GpioError::Protocol(DecodeError::ChecksumMismatch))
    );
    assert_eq!(ch.transport().count(is_write), 1);
    let cmd = Command::GpioGet { pin: GpioPin::AsicReset };
    assert_eq!(ch.execute(&cmd, 5), Err(ChannelError::Protocol(DecodeError::ChecksumMismatch)));
}

#[test]
fn closed_transport_is_disconnected() {
    let mut board = SimBoard::new(ack_empty);
    board.closed = true;
    let mut ch = ControlChannel::new(board);
    let gpio = GpioController::new(50);
    assert_eq!(gpio.set(&mut ch, GpioPin::AsicReset, Level::Low), Err(GpioError::Disconnected));
    assert_eq!(ch.into_transport().events.len(), 0);
}

#[test]
fn concurrent_callers_get_whole_cycles() {
    fn echo_pin(req: &[u8]) -> Option<Vec<u8>> {
        Some(encode_response(&Response::Ack { payload: vec![req[2]] }))
    }
    let n: u8 = 16;
    let rt = tokio::runtime::Builder::new_multi_thread().worker_threads(4).build().unwrap();
    let shared = Arc::new(tokio::sync::Mutex::new(ControlChannel::new(SimBoard::new(echo_pin))));
    rt.block_on(async {
        let mut handles = Vec::new();
        for i in 0..n {
            let ch = shared.clone();
            handles.push(tokio::spawn(async move {
                let mut guard = ch.lock().await;
                guard.execute(&Command::AdcRead { channel: i % 4 }, 10)
            }));
        }
        for (i, h) in handles.into_iter().enumerate() {
            let r = h.await.unwrap();
            assert_eq!(r, Ok(Response::Ack { payload: vec![(i as u8) % 4] }));
        }
    });
    let guard = shared.try_lock().unwrap();
    let events = &guard.transport().events;
    assert_eq!(events.iter().filter(|e| is_write(e)).count(), n as usize);
    // Each cycle is write, timer, then the four bytes of the reply, with
    // nothing of another cycle in between.
    assert_eq!(events.len(), n as usize * 6);
    for cycle in events.chunks(6) {
        let req = match &cycle[0] {
            Event::Write(b) => b.clone(),
            other => panic!("cycle starts with {:?}", other),
        };
        assert_eq!(cycle[1], Event::Timer(10));
        let reply: Vec<u8> = cycle[2..]
            .iter()
            .map(|e| match e {
                Event::Byte(b) => *b,
                other => panic!("unexpected {:?}", other),
            })
            .collect();
        assert_eq!(decode(&reply), Ok(Response::Ack { payload: vec![req[2]] }));
    }
}
