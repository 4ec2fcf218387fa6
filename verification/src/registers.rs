//! The register map and the fields of the channel select register.

use vstd::prelude::*;

verus! {

/// The serial communication modes of the device, as selected by the mode field of the channel
/// select register.
#[derive(Clone, Copy, Debug, PartialEq, Eq, Structural)]
pub enum Mode {
    SingleBitTwoWire,
    SingleBitThreeWire,
    TwoBitSerial,
    FourBitSerial,
}

impl Mode {
    /// The mode as it stands in the low three bits of the channel select register.
    pub open spec fn spec_bits(self) -> u8 {
        match self {
            Mode::SingleBitTwoWire => 0b000u8,
            Mode::SingleBitThreeWire => 0b010u8,
            Mode::TwoBitSerial => 0b100u8,
            Mode::FourBitSerial => 0b110u8,
        }
    }

    #[verifier::when_used_as_spec(spec_bits)]
    pub fn bits(self) -> (b: u8)
        ensures
            b == self.spec_bits(),
    {
        match self {
            Mode::SingleBitTwoWire => 0b000u8,
            Mode::SingleBitThreeWire => 0b010u8,
            Mode::TwoBitSerial => 0b100u8,
            Mode::FourBitSerial => 0b110u8,
        }
    }

    /// The mode that the low three bits of a channel select register value select, if any.
    pub open spec fn spec_from_bits(csr: u8) -> Option<Mode> {
        let field = csr & 0x07;
        if field == 0b000 {
            Some(Mode::SingleBitTwoWire)
        } else if field == 0b010 {
            Some(Mode::SingleBitThreeWire)
        } else if field == 0b100 {
            Some(Mode::TwoBitSerial)
        } else if field == 0b110 {
            Some(Mode::FourBitSerial)
        } else {
            None
        }
    }

    #[verifier::when_used_as_spec(spec_from_bits)]
    pub fn from_bits(csr: u8) -> (mode: Option<Mode>)
        ensures
            mode == Mode::spec_from_bits(csr),
    {
        let field = csr & 0x07;
        if field == 0b000 {
            Some(Mode::SingleBitTwoWire)
        } else if field == 0b010 {
            Some(Mode::SingleBitThreeWire)
        } else if field == 0b100 {
            Some(Mode::TwoBitSerial)
        } else if field == 0b110 {
            Some(Mode::FourBitSerial)
        } else {
            None
        }
    }
}

/// A set of output channels, held as the channel enable bits of the channel select register:
/// bit 4 for the first channel up to bit 7 for the fourth.
#[derive(Clone, Copy, Debug, PartialEq, Eq, Structural)]
pub struct Channel {
    bits: u8,
}

impl Channel {
    #[verifier::type_invariant]
    spec fn low_nibble_clear(self) -> bool {
        self.bits & 0x0F == 0
    }

    /// The enable bits of the set.
    pub closed spec fn spec_bits(self) -> u8 {
        self.bits
    }

    /// The enable bits of the set. The low nibble of the result is always clear.
    #[verifier::when_used_as_spec(spec_bits)]
    pub fn bits(self) -> (b: u8)
        ensures
            b == self.spec_bits(),
            b & 0x0F == 0,
    {
        proof {
            use_type_invariant(&self);
        }
        self.bits
    }

    /// The set with no channel in it.
    pub fn none() -> (c: Channel)
        ensures
            c.spec_bits() == 0x00,
    {
        assert(0x00u8 & 0x0F == 0) by (bit_vector);
        Channel { bits: 0x00 }
    }

    /// The first channel alone.
    pub fn one() -> (c: Channel)
        ensures
            c.spec_bits() == 0x10,
    {
        assert(0x10u8 & 0x0F == 0) by (bit_vector);
        Channel { bits: 0x10 }
    }

    /// The second channel alone.
    pub fn two() -> (c: Channel)
        ensures
            c.spec_bits() == 0x20,
    {
        assert(0x20u8 & 0x0F == 0) by (bit_vector);
        Channel { bits: 0x20 }
    }

    /// The third channel alone.
    pub fn three() -> (c: Channel)
        ensures
            c.spec_bits() == 0x40,
    {
        assert(0x40u8 & 0x0F == 0) by (bit_vector);
        Channel { bits: 0x40 }
    }

    /// The fourth channel alone.
    pub fn four() -> (c: Channel)
        ensures
            c.spec_bits() == 0x80,
    {
        assert(0x80u8 & 0x0F == 0) by (bit_vector);
        Channel { bits: 0x80 }
    }

    /// All four channels.
    pub fn all() -> (c: Channel)
        ensures
            c.spec_bits() == 0xF0,
    {
        assert(0xF0u8 & 0x0F == 0) by (bit_vector);
        Channel { bits: 0xF0 }
    }

    /// The set whose enable bits are `bits`, where these are enable bits: `None` when any of the
    /// low four bits is set.
    pub fn from_bits(bits: u8) -> (c: Option<Channel>)
        ensures
            c is Some <==> bits & 0x0F == 0,
            c matches Some(set) ==> set.spec_bits() == bits,
    {
        if bits & 0x0F == 0 {
            Some(Channel { bits })
        } else {
            None
        }
    }

    /// The channels that are in either set.
    pub fn union(self, other: Channel) -> (c: Channel)
        ensures
            c.spec_bits() == self.spec_bits() | other.spec_bits(),
    {
        proof {
            use_type_invariant(&self);
            use_type_invariant(&other);
        }
        let a = self.bits;
        let b = other.bits;
        assert((a | b) & 0x0F == 0) by (bit_vector)
            requires
                a & 0x0F == 0,
                b & 0x0F == 0,
        ;
        Channel { bits: a | b }
    }

    /// Whether every channel of `other` is in this set.
    pub fn contains(self, other: Channel) -> (b: bool)
        ensures
            b <==> self.spec_bits() & other.spec_bits() == other.spec_bits(),
    {
        self.bits & other.bits == other.bits
    }
}

/// The value of the channel select register that selects `mode` and enables exactly `channels`.
pub open spec fn spec_channel_select(mode: Mode, channels: Channel) -> u8 {
    mode.spec_bits() | channels.spec_bits()
}

/// The value of the channel select register that selects `mode` and enables exactly `channels`.
/// Its low three bits are those of the mode, and its high nibble is the channel set.
#[verifier::when_used_as_spec(spec_channel_select)]
pub fn channel_select(mode: Mode, channels: Channel) -> (csr: u8)
    ensures
        csr == spec_channel_select(mode, channels),
        csr & 0x07 == mode.spec_bits(),
        csr & 0xF0 == channels.spec_bits(),
        Mode::spec_from_bits(csr) == Some(mode),
{
    let m = mode.bits();
    let c = channels.bits();
    assert((m | c) & 0x07 == m && (m | c) & 0xF0 == c) by (bit_vector)
        requires
            c & 0x0F == 0,
            m == 0 || m == 2 || m == 4 || m == 6,
    ;
    m | c
}

/// The registers of the device. Each is named by its address.
#[derive(Clone, Copy, Debug, PartialEq, Eq, Structural)]
pub enum Register {
    CSR,
    FR1,
    FR2,
    CFR,
    CFTW0,
    CPOW0,
    ACR,
    LSRR,
    RDW,
    FDW,
    CW1,
    CW2,
    CW3,
    CW4,
    CW5,
    CW6,
    CW7,
    CW8,
    CW9,
    CW10,
    CW11,
    CW12,
    CW13,
    CW14,
    CW15,
}

impl Register {
    /// The address of the register.
    pub open spec fn spec_addr(self) -> u8 {
        match self {
            Register::CSR => 0x00u8,
            Register::FR1 => 0x01u8,
            Register::FR2 => 0x02u8,
            Register::CFR => 0x03u8,
            Register::CFTW0 => 0x04u8,
            Register::CPOW0 => 0x05u8,
            Register::ACR => 0x06u8,
            Register::LSRR => 0x07u8,
            Register::RDW => 0x08u8,
            Register::FDW => 0x09u8,
            Register::CW1 => 0x0au8,
            Register::CW2 => 0x0bu8,
            Register::CW3 => 0x0cu8,
            Register::CW4 => 0x0du8,
            Register::CW5 => 0x0eu8,
            Register::CW6 => 0x0fu8,
            Register::CW7 => 0x10u8,
            Register::CW8 => 0x11u8,
            Register::CW9 => 0x12u8,
            Register::CW10 => 0x13u8,
            Register::CW11 => 0x14u8,
            Register::CW12 => 0x15u8,
            Register::CW13 => 0x16u8,
            Register::CW14 => 0x17u8,
            Register::CW15 => 0x18u8,
        }
    }

    /// The address of the register. Its top bit is clear, so that a transport can use that bit
    /// to tell a read from a write.
    #[verifier::when_used_as_spec(spec_addr)]
    pub fn addr(self) -> (a: u8)
        ensures
            a == self.spec_addr(),
            a <= 0x18,
            Register::spec_from_addr(a) == Some(self),
    {
        match self {
            Register::CSR => 0x00u8,
            Register::FR1 => 0x01u8,
            Register::FR2 => 0x02u8,
            Register::CFR => 0x03u8,
            Register::CFTW0 => 0x04u8,
            Register::CPOW0 => 0x05u8,
            Register::ACR => 0x06u8,
            Register::LSRR => 0x07u8,
            Register::RDW => 0x08u8,
            Register::FDW => 0x09u8,
            Register::CW1 => 0x0au8,
            Register::CW2 => 0x0bu8,
            Register::CW3 => 0x0cu8,
            Register::CW4 => 0x0du8,
            Register::CW5 => 0x0eu8,
            Register::CW6 => 0x0fu8,
            Register::CW7 => 0x10u8,
            Register::CW8 => 0x11u8,
            Register::CW9 => 0x12u8,
            Register::CW10 => 0x13u8,
            Register::CW11 => 0x14u8,
            Register::CW12 => 0x15u8,
            Register::CW13 => 0x16u8,
            Register::CW14 => 0x17u8,
            Register::CW15 => 0x18u8,
        }
    }

    /// The register at the address `addr`, if there is one.
    pub open spec fn spec_from_addr(addr: u8) -> Option<Register> {
        if addr == 0x00 {
            Some(Register::CSR)
        } else if addr == 0x01 {
            Some(Register::FR1)
        } else if addr == 0x02 {
            Some(Register::FR2)
        } else if addr == 0x03 {
            Some(Register::CFR)
        } else if addr == 0x04 {
            Some(Register::CFTW0)
        } else if addr == 0x05 {
            Some(Register::CPOW0)
        } else if addr == 0x06 {
            Some(Register::ACR)
        } else if addr == 0x07 {
            Some(Register::LSRR)
        } else if addr == 0x08 {
            Some(Register::RDW)
        } else if addr == 0x09 {
            Some(Register::FDW)
        } else if addr == 0x0a {
            Some(Register::CW1)
        } else if addr == 0x0b {
            Some(Register::CW2)
        } else if addr == 0x0c {
            Some(Register::CW3)
        } else if addr == 0x0d {
            Some(Register::CW4)
        } else if addr == 0x0e {
            Some(Register::CW5)
        } else if addr == 0x0f {
            Some(Register::CW6)
        } else if addr == 0x10 {
            Some(Register::CW7)
        } else if addr == 0x11 {
            Some(Register::CW8)
        } else if addr == 0x12 {
            Some(Register::CW9)
        } else if addr == 0x13 {
            Some(Register::CW10)
        } else if addr == 0x14 {
            Some(Register::CW11)
        } else if addr == 0x15 {
            Some(Register::CW12)
        } else if addr == 0x16 {
            Some(Register::CW13)
        } else if addr == 0x17 {
            Some(Register::CW14)
        } else if addr == 0x18 {
            Some(Register::CW15)
        } else {
            None
        }
    }

    /// The register at the address `addr`, if there is one.
    #[verifier::when_used_as_spec(spec_from_addr)]
    pub fn from_addr(addr: u8) -> (register: Option<Register>)
        ensures
            register == Register::spec_from_addr(addr),
            register matches Some(found) ==> found.spec_addr() == addr,
            register is None <==> addr > 0x18,
    {
        if addr == 0x00 {
            Some(Register::CSR)
        } else if addr == 0x01 {
            Some(Register::FR1)
        } else if addr == 0x02 {
            Some(Register::FR2)
        } else if addr == 0x03 {
            Some(Register::CFR)
        } else if addr == 0x04 {
            Some(Register::CFTW0)
        } else if addr == 0x05 {
            Some(Register::CPOW0)
        } else if addr == 0x06 {
            Some(Register::ACR)
        } else if addr == 0x07 {
            Some(Register::LSRR)
        } else if addr == 0x08 {
            Some(Register::RDW)
        } else if addr == 0x09 {
            Some(Register::FDW)
        } else if addr == 0x0a {
            Some(Register::CW1)
        } else if addr == 0x0b {
            Some(Register::CW2)
        } else if addr == 0x0c {
            Some(Register::CW3)
        } else if addr == 0x0d {
            Some(Register::CW4)
        } else if addr == 0x0e {
            Some(Register::CW5)
        } else if addr == 0x0f {
            Some(Register::CW6)
        } else if addr == 0x10 {
            Some(Register::CW7)
        } else if addr == 0x11 {
            Some(Register::CW8)
        } else if addr == 0x12 {
            Some(Register::CW9)
        } else if addr == 0x13 {
            Some(Register::CW10)
        } else if addr == 0x14 {
            Some(Register::CW11)
        } else if addr == 0x15 {
            Some(Register::CW12)
        } else if addr == 0x16 {
            Some(Register::CW13)
        } else if addr == 0x17 {
            Some(Register::CW14)
        } else if addr == 0x18 {
            Some(Register::CW15)
        } else {
            None
        }
    }

    /// The number of payload bytes of the register.
    pub open spec fn spec_width(self) -> usize {
        match self {
            Register::CSR => 1usize,
            Register::FR2 | Register::CPOW0 | Register::LSRR => 2usize,
            Register::FR1 | Register::CFR | Register::ACR => 3usize,
            _ => 4usize,
        }
    }

    /// The number of payload bytes of the register: what a write to it carries and a read of it
    /// returns.
    #[verifier::when_used_as_spec(spec_width)]
    pub fn width(self) -> (w: usize)
        ensures
            w == self.spec_width(),
            1 <= w <= 4,
    {
        match self {
            Register::CSR => 1usize,
            Register::FR2 | Register::CPOW0 | Register::LSRR => 2usize,
            Register::FR1 | Register::CFR | Register::ACR => 3usize,
            _ => 4usize,
        }
    }
}

/// What can go wrong in the driver.
#[derive(Clone, Copy, Debug, PartialEq, Eq, Structural)]
pub enum Error {
    /// The transport reported a failure.
    Interface,
    /// A value read back from the device was not the value written to it.
    Check,
    /// An argument was outside its range.
    Bounds,
    /// A digital line could not be driven.
    Pin,
    /// The clock configuration gives a system clock that the device does not support.
    Frequency,
}

} // verus!
