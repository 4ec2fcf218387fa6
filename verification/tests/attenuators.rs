use ad9959::pounder::attenuators::{
    attenuation_code, attenuation_codes, code_attenuation, register_byte, register_bytes,
    AttenuatorInterface,
};
use ad9959::pounder::{Channel, Error};
use ad9959::Ratio;

/// Attenuators that note what was done with them.
struct Board {
    shifted: Vec<[u8; 4]>,
    latched: Vec<Channel>,
    held: [u8; 4],
    fail_transfer: bool,
    fail_latch: bool,
}

impl Board {
    fn new() -> Self {
        Board {
            shifted: Vec::new(),
            latched: Vec::new(),
            held: [0xFF; 4],
            fail_transfer: false,
            fail_latch: false,
        }
    }
}

impl AttenuatorInterface for Board {
    fn reset_attenuators(&mut self) -> Result<(), Error> {
        self.held = [0xFF; 4];
        Ok(())
    }

    fn latch_attenuators(&mut self, channel: Channel) -> Result<(), Error> {
        if self.fail_latch {
            return Err(Error::I2c);
        }
        self.latched.push(channel);
        Ok(())
    }

    fn transfer_attenuators(&mut self, channels: &mut [u8; 4]) -> Result<(), Error> {
        if self.fail_transfer {
            return Err(Error::Spi);
        }
        self.shifted.push(*channels);
        let out = self.held;
        self.held = *channels;
        *channels = out;
        Ok(())
    }
}

fn decibels(values: [(i128, u64); 4]) -> [Ratio; 4] {
    values.map(|(num, den)| Ratio::new(num, den))
}

#[test]
fn codes_count_half_decibels() {
    assert_eq!(attenuation_code(Ratio::new(0, 1)), Ok(0));
    assert_eq!(attenuation_code(Ratio::new(1, 2)), Ok(1));
    assert_eq!(attenuation_code(Ratio::new(10, 1)), Ok(20));
    assert_eq!(attenuation_code(Ratio::new(63, 2)), Ok(63));
}

#[test]
fn codes_round_down() {
    assert_eq!(attenuation_code(Ratio::new(1, 4)), Ok(0));
    assert_eq!(attenuation_code(Ratio::new(3, 4)), Ok(1));
    assert_eq!(attenuation_code(Ratio::new(3149, 100)), Ok(62));
}

#[test]
fn codes_have_a_range() {
    assert_eq!(attenuation_code(Ratio::new(-1, 2)), Err(Error::Bounds));
    assert_eq!(attenuation_code(Ratio::new(32, 1)), Err(Error::Bounds));
    assert_eq!(attenuation_code(Ratio::new(6301, 200)), Err(Error::Bounds));
    assert_eq!(attenuation_code(Ratio::new(1, 0)), Err(Error::Bounds));
    assert_eq!(attenuation_code(Ratio::new(i128::MAX, u64::MAX)), Err(Error::Bounds));
    assert_eq!(attenuation_code(Ratio::new(i128::MIN, 1)), Err(Error::Bounds));
}

#[test]
fn codes_of_four_channels() {
    let codes = attenuation_codes(decibels([(0, 1), (1, 2), (31, 1), (63, 2)]));
    assert_eq!(codes, Ok([0, 1, 62, 63]));
    let codes = attenuation_codes(decibels([(0, 1), (1, 2), (32, 1), (63, 2)]));
    assert_eq!(codes, Err(Error::Bounds));
}

#[test]
fn register_bytes_are_shifted_and_inverted() {
    assert_eq!(register_byte(0), 0xFF);
    assert_eq!(register_byte(1), 0xFB);
    assert_eq!(register_byte(63), 0x03);
    assert_eq!(register_byte(20), !(20u8 << 2));
    assert_eq!(register_byte(64), 0xFF);
    assert_eq!(register_byte(255), !(255u8 << 2));
    assert_eq!(register_bytes([0, 1, 62, 63]), [0xFF, 0xFB, 0x07, 0x03]);
}

#[test]
fn attenuation_of_a_code() {
    let half = code_attenuation(1);
    assert_eq!((half.num, half.den), (1, 2));
    let most = code_attenuation(63);
    assert_eq!((most.num, most.den), (63, 2));
}

#[test]
fn setting_shifts_all_codes_and_latches_one_channel() {
    let mut board = Board::new();
    let set = board
        .set_attenuations(Channel::Out0, decibels([(0, 1), (21, 4), (31, 1), (63, 2)]))
        .unwrap();
    assert_eq!(set.map(|r| (r.num, r.den)), [(0, 2), (10, 2), (62, 2), (63, 2)]);
    assert_eq!(board.shifted, vec![[0xFF, 0xD7, 0x07, 0x03]]);
    assert_eq!(board.latched, vec![Channel::Out0]);
}

#[test]
fn setting_out_of_range_does_nothing() {
    let mut board = Board::new();
    let r = board.set_attenuations(Channel::In0, decibels([(0, 1), (0, 1), (0, 1), (64, 2)]));
    assert_eq!(r.map(|set| set.map(|r| r.num)), Err(Error::Bounds));
    assert!(board.shifted.is_empty());
    assert!(board.latched.is_empty());
}

#[test]
fn setting_reports_what_the_board_reports() {
    let mut board = Board::new();
    board.fail_transfer = true;
    let r = board.set_attenuations(Channel::In0, decibels([(0, 1); 4]));
    assert_eq!(r.map(|set| set.map(|r| r.num)), Err(Error::Spi));
    assert!(board.latched.is_empty());
    let mut board = Board::new();
    board.fail_latch = true;
    let r = board.set_attenuations(Channel::In0, decibels([(0, 1); 4]));
    assert_eq!(r.map(|set| set.map(|r| r.num)), Err(Error::I2c));
    assert_eq!(board.shifted.len(), 1);
}
