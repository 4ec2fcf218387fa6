use ad9959::pounder::{expand, Channel, Error, QspiInterface};
use ad9959::Mode;

#[test]
fn a_new_link_is_in_the_single_line_mode() {
    let link = QspiInterface::new();
    // a read is not possible in that mode
    assert_eq!(link.read(0x00), Err(Error::InvalidState));
}

#[test]
fn expansion_puts_one_bit_in_each_nibble() {
    assert_eq!(expand(0x00), [0x00, 0x00, 0x00, 0x00]);
    assert_eq!(expand(0xFF), [0x11, 0x11, 0x11, 0x11]);
    assert_eq!(expand(0xF6), [0x11, 0x11, 0x01, 0x10]);
    assert_eq!(expand(0x80), [0x10, 0x00, 0x00, 0x00]);
    assert_eq!(expand(0x01), [0x00, 0x00, 0x00, 0x01]);
    assert_eq!(expand(0x5A), [0x01, 0x01, 0x10, 0x10]);
}

#[test]
fn single_line_write_is_expanded() {
    let link = QspiInterface::new();
    let frame = link.write(0x00, &[0xF6]).unwrap();
    assert_eq!(frame.address, 0x00);
    assert_eq!(frame.payload, vec![0x00, 0x00, 0x00, 0x11, 0x11, 0x01, 0x10]);
}

#[test]
fn single_line_write_of_two_bytes() {
    let link = QspiInterface::new();
    let frame = link.write(0x05, &[0x12, 0x34]).unwrap();
    assert_eq!(frame.address, 0x00);
    assert_eq!(
        frame.payload,
        vec![0x00, 0x01, 0x01, 0x00, 0x01, 0x00, 0x10, 0x00, 0x11, 0x01, 0x00]
    );
}

#[test]
fn single_line_write_of_no_data() {
    let link = QspiInterface::new();
    let frame = link.write(0x7F, &[]).unwrap();
    assert_eq!(frame.address, 0x01);
    assert_eq!(frame.payload, vec![0x11, 0x11, 0x11]);
}

#[test]
fn single_line_write_carries_two_bytes_at_most() {
    let link = QspiInterface::new();
    assert_eq!(link.write(0x04, &[1, 2, 3]).map(|f| f.address), Err(Error::Bounds));
    assert_eq!(link.write(0x04, &[1, 2, 3, 4]).map(|f| f.address), Err(Error::Bounds));
}

#[test]
fn four_line_write_passes_through() {
    let mut link = QspiInterface::new();
    assert_eq!(link.configure_mode(Mode::FourBitSerial), Ok(()));
    let frame = link.write(0x04, &[0x12, 0x34, 0x56, 0x78]).unwrap();
    assert_eq!(frame.address, 0x04);
    assert_eq!(frame.payload, vec![0x12, 0x34, 0x56, 0x78]);
}

#[test]
fn four_line_write_is_refused_while_streaming() {
    let mut link = QspiInterface::new();
    link.configure_mode(Mode::FourBitSerial).unwrap();
    link.start_stream();
    assert_eq!(link.write(0x04, &[1]).map(|f| f.address), Err(Error::InvalidState));
}

#[test]
fn single_line_write_goes_on_while_streaming() {
    let mut link = QspiInterface::new();
    link.start_stream();
    assert_eq!(link.write(0x00, &[0x01]).map(|f| f.address), Ok(0x00));
}

#[test]
fn writes_in_the_other_modes_are_refused() {
    let mut link = QspiInterface::new();
    link.configure_mode(Mode::SingleBitThreeWire).unwrap();
    assert_eq!(link.write(0x00, &[0]).map(|f| f.address), Err(Error::InvalidState));
    link.configure_mode(Mode::TwoBitSerial).unwrap();
    assert_eq!(link.write(0x00, &[0]).map(|f| f.address), Err(Error::InvalidState));
}

#[test]
fn addresses_with_the_top_bit_are_refused() {
    let mut link = QspiInterface::new();
    assert_eq!(link.write(0x80, &[0]).map(|f| f.address), Err(Error::InvalidAddress));
    assert_eq!(link.read(0x80), Err(Error::InvalidAddress));
    link.configure_mode(Mode::FourBitSerial).unwrap();
    assert_eq!(link.write(0xFF, &[0]).map(|f| f.address), Err(Error::InvalidAddress));
    assert_eq!(link.read(0x81), Err(Error::InvalidAddress));
    link.configure_mode(Mode::TwoBitSerial).unwrap();
    assert_eq!(link.write(0x80, &[0]).map(|f| f.address), Err(Error::InvalidAddress));
}

#[test]
fn reads_set_the_top_bit_of_the_address() {
    let mut link = QspiInterface::new();
    link.configure_mode(Mode::FourBitSerial).unwrap();
    assert_eq!(link.read(0x00), Ok(0x80));
    assert_eq!(link.read(0x04), Ok(0x84));
    assert_eq!(link.read(0x7F), Ok(0xFF));
}

#[test]
fn reads_need_the_four_line_mode() {
    let mut link = QspiInterface::new();
    assert_eq!(link.read(0x04), Err(Error::InvalidState));
    link.configure_mode(Mode::SingleBitThreeWire).unwrap();
    assert_eq!(link.read(0x04), Err(Error::InvalidState));
    link.configure_mode(Mode::TwoBitSerial).unwrap();
    assert_eq!(link.read(0x04), Err(Error::InvalidState));
}

#[test]
fn reads_go_on_while_streaming() {
    let mut link = QspiInterface::new();
    link.configure_mode(Mode::FourBitSerial).unwrap();
    link.start_stream();
    assert_eq!(link.read(0x04), Ok(0x84));
}

#[test]
fn board_channels() {
    assert_eq!(Channel::In0.index(), 0);
    assert_eq!(Channel::Out0.index(), 1);
    assert_eq!(Channel::In1.index(), 2);
    assert_eq!(Channel::Out1.index(), 3);
    assert_eq!(Channel::In0.output(), ad9959::Channel::two());
    assert_eq!(Channel::In1.output(), ad9959::Channel::four());
    assert_eq!(Channel::Out0.output(), ad9959::Channel::one());
    assert_eq!(Channel::Out1.output(), ad9959::Channel::three());
}
