use ad9959::registers::channel_select;
use ad9959::{Channel, Mode, Register};

#[test]
fn mode_bits() {
    assert_eq!(Mode::SingleBitTwoWire.bits(), 0b000);
    assert_eq!(Mode::SingleBitThreeWire.bits(), 0b010);
    assert_eq!(Mode::TwoBitSerial.bits(), 0b100);
    assert_eq!(Mode::FourBitSerial.bits(), 0b110);
}

#[test]
fn mode_from_the_low_bits_of_the_channel_select_register() {
    assert_eq!(Mode::from_bits(0xF6), Some(Mode::FourBitSerial));
    assert_eq!(Mode::from_bits(0x00), Some(Mode::SingleBitTwoWire));
    assert_eq!(Mode::from_bits(0x12), Some(Mode::SingleBitThreeWire));
    assert_eq!(Mode::from_bits(0x84), Some(Mode::TwoBitSerial));
    assert_eq!(Mode::from_bits(0x01), None);
    assert_eq!(Mode::from_bits(0xF7), None);
}

#[test]
fn channel_flags() {
    assert_eq!(Channel::none().bits(), 0x00);
    assert_eq!(Channel::one().bits(), 0x10);
    assert_eq!(Channel::two().bits(), 0x20);
    assert_eq!(Channel::three().bits(), 0x40);
    assert_eq!(Channel::four().bits(), 0x80);
    assert_eq!(Channel::all().bits(), 0xF0);
}

#[test]
fn channel_sets() {
    let both = Channel::one().union(Channel::three());
    assert_eq!(both.bits(), 0x50);
    assert!(both.contains(Channel::one()));
    assert!(!both.contains(Channel::two()));
    assert!(Channel::all().contains(both));
    assert!(both.contains(Channel::none()));
    let all = Channel::one().union(Channel::two()).union(Channel::three()).union(Channel::four());
    assert_eq!(all, Channel::all());
}

#[test]
fn channel_from_bits_takes_enable_bits_only() {
    assert_eq!(Channel::from_bits(0x30).map(|c| c.bits()), Some(0x30));
    assert_eq!(Channel::from_bits(0x00), Some(Channel::none()));
    assert_eq!(Channel::from_bits(0x01), None);
    assert_eq!(Channel::from_bits(0xF6), None);
}

#[test]
fn channel_select_joins_mode_and_channels() {
    assert_eq!(channel_select(Mode::FourBitSerial, Channel::all()), 0xF6);
    assert_eq!(channel_select(Mode::FourBitSerial, Channel::one()), 0x16);
    assert_eq!(channel_select(Mode::SingleBitTwoWire, Channel::two()), 0x20);
    assert_eq!(channel_select(Mode::TwoBitSerial, Channel::none()), 0x04);
}

#[test]
fn register_addresses() {
    assert_eq!(Register::CSR.addr(), 0x00);
    assert_eq!(Register::FR1.addr(), 0x01);
    assert_eq!(Register::FR2.addr(), 0x02);
    assert_eq!(Register::CFR.addr(), 0x03);
    assert_eq!(Register::CFTW0.addr(), 0x04);
    assert_eq!(Register::CPOW0.addr(), 0x05);
    assert_eq!(Register::ACR.addr(), 0x06);
    assert_eq!(Register::LSRR.addr(), 0x07);
    assert_eq!(Register::RDW.addr(), 0x08);
    assert_eq!(Register::FDW.addr(), 0x09);
    assert_eq!(Register::CW1.addr(), 0x0a);
    assert_eq!(Register::CW15.addr(), 0x18);
}

#[test]
fn register_widths() {
    assert_eq!(Register::CSR.width(), 1);
    assert_eq!(Register::FR1.width(), 3);
    assert_eq!(Register::CFTW0.width(), 4);
    assert_eq!(Register::CPOW0.width(), 2);
    assert_eq!(Register::ACR.width(), 3);
    assert_eq!(Register::LSRR.width(), 2);
}

#[test]
fn register_from_address() {
    assert_eq!(Register::from_addr(0x00), Some(Register::CSR));
    assert_eq!(Register::from_addr(0x04), Some(Register::CFTW0));
    assert_eq!(Register::from_addr(0x07), Some(Register::LSRR));
    assert_eq!(Register::from_addr(0x18), Some(Register::CW15));
    assert_eq!(Register::from_addr(0x19), None);
    assert_eq!(Register::from_addr(0x80), None);
    for addr in 0..=0x18u8 {
        assert_eq!(Register::from_addr(addr).map(|r| r.addr()), Some(addr));
    }
}

#[test]
fn every_register_is_one_to_four_bytes_wide() {
    for addr in 0..=0x18u8 {
        let width = Register::from_addr(addr).unwrap().width();
        assert!((1..=4).contains(&width));
    }
    assert_eq!(Register::FR2.width(), 2);
    assert_eq!(Register::CFR.width(), 3);
    assert_eq!(Register::RDW.width(), 4);
    assert_eq!(Register::CW7.width(), 4);
}
