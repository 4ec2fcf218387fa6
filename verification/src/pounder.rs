//! The link between the synthesizer and a quad serial peripheral that can only drive all four
//! of its data lines.
//!
//! After reset the synthesizer listens on one data line and takes the fourth line for a
//! synchronization input that has to stay low. A peripheral in four-line mode sends every byte
//! as two symbols of four bits, the high nibble first, one bit on each line. So until the
//! synthesizer has been switched to four lines, each bit of the address and of the data is sent
//! as a symbol of its own: the bit on the first line and zero on the other three.

use crate::registers::{Channel as Output, Mode};
use vstd::prelude::*;

pub mod attenuators;

verus! {

/// What can go wrong on the board.
#[derive(Clone, Copy, Debug, PartialEq, Eq, Structural)]
pub enum Error {
    Spi,
    I2c,
    /// The quad serial peripheral reported a failure.
    Qspi,
    /// More data than a transfer in the single-line mode can carry.
    Bounds,
    /// An address with the top bit set, which marks a read on the wire.
    InvalidAddress,
    InvalidChannel,
    Adc,
    /// A transfer that the link cannot make in its present mode.
    InvalidState,
}

/// The four signal paths of the board: two inputs and two outputs.
#[derive(Clone, Copy, Debug, PartialEq, Eq, Structural)]
pub enum Channel {
    In0,
    Out0,
    In1,
    Out1,
}

impl Channel {
    /// The place of the channel's attenuator in the shift register of the attenuators, which
    /// is also the number of its latch line.
    pub open spec fn spec_index(self) -> u8 {
        match self {
            Channel::In0 => 0u8,
            Channel::Out0 => 1u8,
            Channel::In1 => 2u8,
            Channel::Out1 => 3u8,
        }
    }

    #[verifier::when_used_as_spec(spec_index)]
    pub fn index(self) -> (i: u8)
        ensures
            i == self.spec_index(),
    {
        match self {
            Channel::In0 => 0u8,
            Channel::Out0 => 1u8,
            Channel::In1 => 2u8,
            Channel::Out1 => 3u8,
        }
    }

    /// The enable bit of the synthesizer channel that drives this signal path.
    pub open spec fn spec_output_bits(self) -> u8 {
        match self {
            Channel::In0 => 0x20u8,
            Channel::In1 => 0x80u8,
            Channel::Out0 => 0x10u8,
            Channel::Out1 => 0x40u8,
        }
    }

    /// The synthesizer channel that drives this signal path: the outputs are on the first and
    /// third, the mixers of the inputs on the second and fourth.
    pub fn output(self) -> (channel: Output)
        ensures
            channel.spec_bits() == self.spec_output_bits(),
    {
        match self {
            Channel::In0 => Output::two(),
            Channel::In1 => Output::four(),
            Channel::Out0 => Output::one(),
            Channel::Out1 => Output::three(),
        }
    }
}

/// The bit of `byte` at position `bit`, counted from the least significant, as 0 or 1.
pub open spec fn bit_at(byte: u8, bit: int) -> u8 {
    if bit == 0 {
        byte % 2
    } else if bit == 1 {
        byte / 2 % 2
    } else if bit == 2 {
        byte / 4 % 2
    } else if bit == 3 {
        byte / 8 % 2
    } else if bit == 4 {
        byte / 16 % 2
    } else if bit == 5 {
        byte / 32 % 2
    } else if bit == 6 {
        byte / 64 % 2
    } else {
        byte / 128 % 2
    }
}

/// The byte that carries two bits of `byte` as two symbols: the symbol in the high nibble
/// holds the bit at `7 - 2 * at` on the first line, the symbol in the low nibble the bit below
/// it. The other lines are zero.
pub open spec fn symbol_pair(byte: u8, at: int) -> u8 {
    (16 * bit_at(byte, 7 - 2 * at) + bit_at(byte, 6 - 2 * at)) as u8
}

/// The four bytes that carry `byte` one bit per symbol, most significant bit first.
pub open spec fn spec_expand(byte: u8) -> [u8; 4] {
    [symbol_pair(byte, 0), symbol_pair(byte, 1), symbol_pair(byte, 2), symbol_pair(byte, 3)]
}

/// The four bytes that carry `byte` one bit per symbol, most significant bit first.
pub fn expand(byte: u8) -> (symbols: [u8; 4])
    ensures
        symbols == spec_expand(byte),
{
    [
        byte / 128 % 2 * 16 + byte / 64 % 2,
        byte / 32 % 2 * 16 + byte / 16 % 2,
        byte / 8 % 2 * 16 + byte / 4 % 2,
        byte / 2 % 2 * 16 + byte % 2,
    ]
}

/// The byte that four bytes of symbols carry on the first line.
pub open spec fn spec_collapse(symbols: [u8; 4]) -> u8 {
    (128 * (symbols[0] / 16 % 2) + 64 * (symbols[0] % 2) + 32 * (symbols[1] / 16 % 2) + 16 * (
    symbols[1] % 2) + 8 * (symbols[2] / 16 % 2) + 4 * (symbols[2] % 2) + 2 * (symbols[3] / 16 % 2)
        + symbols[3] % 2) as u8
}

/// Expanding a byte keeps every line but the first low, and the first line carries the byte.
pub proof fn lemma_expand_keeps_lines_low(byte: u8)
    ensures
        forall|at: int|
            0 <= at < 4 ==> {
                let pair = #[trigger] spec_expand(byte)[at];
                pair == 0x00 || pair == 0x01 || pair == 0x10 || pair == 0x11
            },
        spec_collapse(spec_expand(byte)) == byte,
{
    let a = symbol_pair(byte, 0);
    let b = symbol_pair(byte, 1);
    let c = symbol_pair(byte, 2);
    let d = symbol_pair(byte, 3);
    assert((a == 0x00 || a == 0x01 || a == 0x10 || a == 0x11) && (b == 0x00 || b == 0x01 || b
        == 0x10 || b == 0x11) && (c == 0x00 || c == 0x01 || c == 0x10 || c == 0x11) && (d == 0x00
        || d == 0x01 || d == 0x10 || d == 0x11) && 128 * (a / 16 % 2) + 64 * (a % 2) + 32 * (b / 16
        % 2) + 16 * (b % 2) + 8 * (c / 16 % 2) + 4 * (c % 2) + 2 * (d / 16 % 2) + d % 2 == byte)
        by (bit_vector)
        requires
            a == (16 * (byte / 128 % 2) + byte / 64 % 2) as u8,
            b == (16 * (byte / 32 % 2) + byte / 16 % 2) as u8,
            c == (16 * (byte / 8 % 2) + byte / 4 % 2) as u8,
            d == (16 * (byte / 2 % 2) + byte % 2) as u8,
    ;
    let symbols = spec_expand(byte);
    assert(symbols[0] == a && symbols[1] == b && symbols[2] == c && symbols[3] == d);
}

/// What goes over the wire for a write in the single-line mode: the address and each byte of
/// the data, expanded in turn.
pub open spec fn narrow_stream(addr: u8, data: Seq<u8>) -> Seq<u8> {
    Seq::new(4 * (data.len() + 1), |i: int|
        if i < 4 {
            symbol_pair(addr, i)
        } else {
            symbol_pair(data[i / 4 - 1], i % 4)
        })
}

/// One transfer for the peripheral, which sends an address byte and then the payload.
#[derive(Debug)]
pub struct Frame {
    pub address: u8,
    pub payload: Vec<u8>,
}

impl Frame {
    /// The bytes of the frame in the order in which they are sent.
    pub open spec fn stream(&self) -> Seq<u8> {
        seq![self.address] + self.payload@
    }
}

/// The most data bytes that a write in the single-line mode carries.
pub const NARROW_LIMIT: usize = 2;

/// The state of the link: the communication mode that the synthesizer is in, and whether the
/// peripheral has been handed over to continuous streaming.
#[derive(Debug)]
pub struct QspiInterface {
    mode: Mode,
    streaming: bool,
}

impl QspiInterface {
    /// The communication mode of the link.
    pub closed spec fn mode(&self) -> Mode {
        self.mode
    }

    /// Whether the link is streaming.
    pub closed spec fn streaming(&self) -> bool {
        self.streaming
    }

    /// The link as it is after reset of the synthesizer: in the single-line mode and not
    /// streaming. The peripheral itself is to be put into four-line mode, once and for all.
    pub fn new() -> (link: Self)
        ensures
            link.mode() == Mode::SingleBitTwoWire,
            !link.streaming(),
    {
        QspiInterface { mode: Mode::SingleBitTwoWire, streaming: false }
    }

    /// Notes that the peripheral has been set up for one endless transfer of data alone. From
    /// here on the link refuses single writes.
    pub fn start_stream(&mut self)
        ensures
            final(self).streaming(),
            final(self).mode() == old(self).mode(),
    {
        self.streaming = true;
    }

    /// Takes up the communication mode `mode`. This changes how later transfers are framed and
    /// nothing on the wire.
    pub fn configure_mode(&mut self, mode: Mode) -> (r: Result<(), Error>)
        ensures
            r is Ok,
            final(self).mode() == mode,
            final(self).streaming() == old(self).streaming(),
    {
        self.mode = mode;
        Ok(())
    }

    /// What a write of `data` to `addr` is to put on the wire in the present state, or why
    /// there can be no such write.
    pub open spec fn spec_write(&self, addr: u8, data: Seq<u8>) -> Result<Seq<u8>, Error> {
        if addr >= 0x80 {
            Err(Error::InvalidAddress)
        } else {
            match self.mode() {
                Mode::SingleBitTwoWire => if data.len() > NARROW_LIMIT {
                    Err(Error::Bounds)
                } else {
                    Ok(narrow_stream(addr, data))
                },
                Mode::FourBitSerial => if self.streaming() {
                    Err(Error::InvalidState)
                } else {
                    Ok(seq![addr] + data)
                },
                _ => Err(Error::InvalidState),
            }
        }
    }

    /// Frames a write of `data` to the register at `addr`. In the four-line mode the frame is
    /// the address and the data as they are. In the single-line mode it is their expansion to
    /// one bit per symbol, of which the first byte takes the place of the address.
    pub fn write(&self, addr: u8, data: &[u8]) -> (r: Result<Frame, Error>)
        ensures
            match r {
                Ok(frame) => {
                    &&& self.spec_write(addr, data@) == Ok::<Seq<u8>, Error>(frame.stream())
                    &&& frame.address == frame.stream()[0]
                    &&& frame.payload@ == frame.stream().skip(1)
                },
                Err(e) => self.spec_write(addr, data@) == Err::<Seq<u8>, Error>(e),
            },
    {
        if addr >= 0x80 {
            return Err(Error::InvalidAddress);
        }
        match self.mode {
            Mode::SingleBitTwoWire => {
                if data.len() > NARROW_LIMIT {
                    return Err(Error::Bounds);
                }
                let head = expand(addr);
                let mut payload: Vec<u8> = Vec::new();
                payload.push(head[1]);
                payload.push(head[2]);
                payload.push(head[3]);
                let mut i: usize = 0;
                while i < data.len()
                    invariant
                        i <= data.len(),
                        head == spec_expand(addr),
                        payload@.len() == 4 * i + 3,
                        seq![head[0]] + payload@ == narrow_stream(addr, data@.take(i as int)),
                    decreases data.len() - i,
                {
                    let symbols = expand(data[i]);
                    let ghost prior = payload@;
                    payload.push(symbols[0]);
                    payload.push(symbols[1]);
                    payload.push(symbols[2]);
                    payload.push(symbols[3]);
                    assert(data@.take(i + 1) == data@.take(i as int).push(data@[i as int]));
                    let ghost sent = seq![head[0]] + payload@;
                    let ghost wanted = narrow_stream(addr, data@.take(i + 1));
                    assert forall|k: int| 0 <= k < sent.len() implies sent[k] == wanted[k] by {
                        if k < 4 * (i + 1) {
                            assert(sent[k] == (seq![head[0]] + prior)[k]);
                            assert(sent[k] == narrow_stream(addr, data@.take(i as int))[k]);
                        } else {
                            assert(sent[k] == symbols[k - 4 * (i + 1)]);
                            assert(k / 4 - 1 == i && k % 4 == k - 4 * (i + 1));
                        }
                    }
                    assert(sent =~= wanted);
                    i += 1;
                }
                assert(data@.take(i as int) == data@);
                let frame = Frame { address: head[0], payload };
                assert(frame.payload@ =~= frame.stream().skip(1));
                Ok(frame)
            },
            Mode::FourBitSerial => {
                if self.streaming {
                    Err(Error::InvalidState)
                } else {
                    let mut payload: Vec<u8> = Vec::new();
                    let mut i: usize = 0;
                    while i < data.len()
                        invariant
                            i <= data.len(),
                            payload@ == data@.take(i as int),
                        decreases data.len() - i,
                    {
                        payload.push(data[i]);
                        assert(data@.take(i + 1) == data@.take(i as int).push(data@[i as int]));
                        i += 1;
                    }
                    assert(data@.take(i as int) == data@);
                    let frame = Frame { address: addr, payload };
                    assert(frame.payload@ =~= frame.stream().skip(1));
                    Ok(frame)
                }
            },
            _ => Err(Error::InvalidState),
        }
    }

    /// What a read of the register at `addr` is to send as the address in the present state:
    /// the address with the top bit set, which marks the read. The link reads in the four-line
    /// mode only.
    pub open spec fn spec_read(&self, addr: u8) -> Result<u8, Error> {
        if addr >= 0x80 {
            Err(Error::InvalidAddress)
        } else if self.mode() != Mode::FourBitSerial {
            Err(Error::InvalidState)
        } else {
            Ok((0x80 + addr) as u8)
        }
    }

    /// Frames a read of the register at `addr`: the address byte to send before the
    /// peripheral takes in the data.
    pub fn read(&self, addr: u8) -> (r: Result<u8, Error>)
        ensures
            r == self.spec_read(addr),
    {
        if addr >= 0x80 {
            return Err(Error::InvalidAddress);
        }
        match self.mode {
            Mode::FourBitSerial => Ok(0x80 + addr),
            _ => Err(Error::InvalidState),
        }
    }
}

} // verus!
