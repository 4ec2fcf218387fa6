use ad9959::profile::CAPACITY;
use ad9959::{Channel, Mode, ProfileSerializer};

fn bytes_of(words: &[u32]) -> Vec<u8> {
    words.iter().flat_map(|w| w.to_ne_bytes()).collect()
}

#[test]
fn empty_batch() {
    let mut batch = ProfileSerializer::new(Mode::FourBitSerial);
    assert_eq!(batch.len(), 0);
    assert!(batch.finalize().is_empty());
    assert_eq!(batch.len(), 0);
}

#[test]
fn single_channel_frequency_update() {
    let mut batch = ProfileSerializer::new(Mode::FourBitSerial);
    batch.update_channels(Channel::one(), Some(0x1234_5678), None, None);
    assert_eq!(batch.len(), 7);
    let words = batch.finalize().to_vec();
    assert_eq!(words.len(), 3);
    assert_eq!(
        bytes_of(&words),
        vec![0x00, 0x16, 0x04, 0x12, 0x34, 0x56, 0x78, 0x07, 0x00, 0x00, 0x00, 0x06]
    );
    assert_eq!(words[0], u32::from_ne_bytes([0x00, 0x16, 0x04, 0x12]));
    assert_eq!(words[1], u32::from_ne_bytes([0x34, 0x56, 0x78, 0x07]));
    assert_eq!(words[2], u32::from_ne_bytes([0x00, 0x00, 0x00, 0x06]));
    assert_eq!(batch.len(), 12);
}

#[test]
fn full_channel_update() {
    let mut batch = ProfileSerializer::new(Mode::TwoBitSerial);
    batch.update_channels(
        Channel::two().union(Channel::four()),
        Some(0x0102_0304),
        Some(0x2ABC),
        Some(0xFF00_13FF),
    );
    assert_eq!(batch.len(), 14);
    assert_eq!(
        bytes_of(batch.finalize()),
        vec![
            0x00, 0xA4, 0x04, 0x01, 0x02, 0x03, 0x04, 0x05, 0x2A, 0xBC, 0x06, 0x00, 0x13, 0xFF,
            0x00, 0x04
        ]
    );
}

#[test]
fn channel_select_alone_needs_two_bytes_of_padding() {
    let mut batch = ProfileSerializer::new(Mode::SingleBitTwoWire);
    batch.update_channels(Channel::three(), None, None, None);
    assert_eq!(batch.len(), 2);
    assert_eq!(bytes_of(batch.finalize()), vec![0x00, 0x40, 0x00, 0x00]);
}

#[test]
fn odd_length_one_short_of_a_word_takes_five_bytes_of_padding() {
    let mut batch = ProfileSerializer::new(Mode::FourBitSerial);
    // 2 + 5 + 4 = 11 bytes
    batch.update_channels(Channel::one(), Some(1), None, Some(0x1200));
    assert_eq!(batch.len(), 11);
    assert_eq!(
        bytes_of(batch.finalize()),
        vec![
            0x00, 0x16, 0x04, 0x00, 0x00, 0x00, 0x01, 0x06, 0x00, 0x12, 0x00, 0x07, 0x00, 0x00,
            0x00, 0x06
        ]
    );
}

#[test]
fn odd_length_three_short_of_a_word_takes_three_bytes_of_padding() {
    let mut batch = ProfileSerializer::new(Mode::FourBitSerial);
    // 2 + 3 = 5 bytes
    batch.update_channels(Channel::one(), None, Some(0x0800), None);
    assert_eq!(batch.len(), 5);
    assert_eq!(
        bytes_of(batch.finalize()),
        vec![0x00, 0x16, 0x05, 0x08, 0x00, 0x07, 0x00, 0x00]
    );
}

#[test]
fn aligned_batch_takes_no_padding() {
    let mut batch = ProfileSerializer::new(Mode::FourBitSerial);
    batch.update_channels(Channel::one(), None, None, None);
    batch.update_channels(Channel::two(), None, None, None);
    assert_eq!(batch.len(), 4);
    assert_eq!(bytes_of(batch.finalize()), vec![0x00, 0x16, 0x00, 0x26]);
}

#[test]
fn several_updates_in_one_batch() {
    let mut batch = ProfileSerializer::new(Mode::FourBitSerial);
    batch.update_channels(Channel::one(), Some(0x1000_0000), None, None);
    batch.update_channels(Channel::two(), Some(0x2000_0000), Some(0x1000), None);
    assert_eq!(batch.len(), 17);
    assert_eq!(
        bytes_of(batch.finalize()),
        vec![
            0x00, 0x16, 0x04, 0x10, 0x00, 0x00, 0x00, 0x00, 0x26, 0x04, 0x20, 0x00, 0x00, 0x00,
            0x05, 0x10, 0x00, 0x07, 0x00, 0x00
        ]
    );
}

#[test]
fn system_clock_record() {
    let mut batch = ProfileSerializer::new(Mode::FourBitSerial);
    assert_eq!(batch.set_system_clock(25_000_000, 20), Ok(500_000_000));
    assert_eq!(batch.len(), 4);
    assert_eq!(bytes_of(batch.finalize()), vec![0x01, 0xD0, 0x00, 0x00]);
}

#[test]
fn system_clock_record_in_the_low_range() {
    let mut batch = ProfileSerializer::new(Mode::FourBitSerial);
    assert_eq!(batch.set_system_clock(25_000_000, 4), Ok(100_000_000));
    assert_eq!(batch.set_system_clock(200_000_000, 1), Ok(200_000_000));
    assert_eq!(batch.set_system_clock(u32::MAX, 31), Ok(u32::MAX as u64 * 31));
    assert_eq!(
        bytes_of(batch.finalize()),
        vec![0x01, 0x10, 0x00, 0x00, 0x01, 0x04, 0x00, 0x00, 0x01, 0xFC, 0x00, 0x00]
    );
}

#[test]
fn batch_filled_to_capacity() {
    let mut batch = ProfileSerializer::new(Mode::FourBitSerial);
    batch.update_channels(Channel::one(), Some(1), Some(2), Some(3));
    batch.update_channels(Channel::two(), Some(4), Some(5), Some(6));
    assert_eq!(batch.len(), 28);
    assert_eq!(batch.set_system_clock(25_000_000, 4), Ok(100_000_000));
    assert_eq!(batch.len(), CAPACITY);
    let words = batch.finalize().to_vec();
    assert_eq!(words.len(), 8);
    let bytes = bytes_of(&words);
    assert_eq!(&bytes[..2], &[0x00, 0x16]);
    assert_eq!(&bytes[14..16], &[0x00, 0x26]);
    assert_eq!(&bytes[28..], &[0x01, 0x10, 0x00, 0x00]);
}
