//! The digital step attenuators of the board.
//!
//! Each attenuator takes a code of six bits in steps of half a decibel. The codes of all four
//! go through one shift register, and a latch line per channel takes the code over. The
//! attenuators cannot be read, so the register is kept filled with the codes that are set.

use crate::pounder::{Channel, Error};
use crate::ratio::Ratio;
use vstd::arithmetic::div_mod::{lemma_div_is_ordered, lemma_div_multiples_vanish};
use vstd::prelude::*;

verus! {

/// The largest code of an attenuator: 31.5 dB.
pub const MAX_CODE: u8 = 63;

/// The code for an attenuation of `attenuation` decibels: the number of half decibels in it,
/// rounded down. Attenuations below zero or above 31.5 dB are out of range.
pub open spec fn spec_attenuation_code(attenuation: Ratio) -> Result<u8, Error> {
    if !attenuation.is_number() || attenuation.num < 0 || 2 * attenuation.num > 63
        * attenuation.den {
        Err(Error::Bounds)
    } else {
        Ok(attenuation.floor_scaled(2) as u8)
    }
}

/// The code that sets an attenuator to `attenuation` decibels, rounded down to half a decibel.
pub fn attenuation_code(attenuation: Ratio) -> (r: Result<u8, Error>)
    ensures
        r == spec_attenuation_code(attenuation),
        r matches Ok(code) ==> code <= MAX_CODE,
{
    if attenuation.den == 0 || attenuation.num < 0 {
        return Err(Error::Bounds);
    }
    let den: u128 = attenuation.den as u128;
    if attenuation.num > 63 * den as i128 {
        return Err(Error::Bounds);
    }
    let twice: u128 = 2 * attenuation.num as u128;
    if twice > 63 * den {
        return Err(Error::Bounds);
    }
    let code = twice / den;
    proof {
        lemma_div_is_ordered(twice as int, (den * 63) as int, den as int);
        lemma_div_multiples_vanish(63, den as int);
    }
    Ok(code as u8)
}

/// The attenuation, in decibels, that the code `code` stands for.
pub open spec fn spec_code_attenuation(code: u8) -> Ratio {
    Ratio { num: code as i128, den: 2 }
}

/// The attenuation, in decibels, of an attenuator that is set to `code`.
pub fn code_attenuation(code: u8) -> (attenuation: Ratio)
    ensures
        attenuation == spec_code_attenuation(code),
{
    Ratio { num: code as i128, den: 2 }
}

/// The byte that carries `code` in the shift register: the code in the upper six bits, and
/// every bit inverted, since the attenuator takes a low level for a one.
pub open spec fn spec_register_byte(code: u8) -> u8 {
    (255 - (code % 64) * 4) as u8
}

/// The byte to shift into the register of an attenuator for `code`.
pub fn register_byte(code: u8) -> (byte: u8)
    ensures
        byte == spec_register_byte(code),
{
    255 - (code % 64) * 4
}

/// The codes for four attenuations, in the order of the channels, or `Bounds` where one of
/// them is out of range.
pub open spec fn spec_attenuation_codes(attenuations: [Ratio; 4]) -> Result<Seq<u8>, Error> {
    if exists|i: int| 0 <= i < 4 && spec_attenuation_code(#[trigger] attenuations[i]) is Err {
        Err(Error::Bounds)
    } else {
        Ok(Seq::new(4, |i: int| spec_attenuation_code(attenuations[i])->Ok_0))
    }
}

/// The codes that set the four attenuators to `attenuations`, in the order of the channels.
pub fn attenuation_codes(attenuations: [Ratio; 4]) -> (r: Result<[u8; 4], Error>)
    ensures
        match r {
            Ok(codes) => spec_attenuation_codes(attenuations) == Ok::<Seq<u8>, Error>(codes@),
            Err(e) => spec_attenuation_codes(attenuations) == Err::<Seq<u8>, Error>(e),
        },
{
    let mut codes: [u8; 4] = [0; 4];
    let mut i: usize = 0;
    while i < 4
        invariant
            i <= 4,
            forall|k: int| 0 <= k < i ==> spec_attenuation_code(#[trigger] attenuations[k]) == Ok::<u8, Error>(codes[k]),
        decreases 4 - i,
    {
        match attenuation_code(attenuations[i]) {
            Ok(code) => {
                codes[i] = code;
            },
            Err(e) => {
                return Err(e);
            },
        }
        i += 1;
    }
    assert(codes@ =~= Seq::new(4, |i: int| spec_attenuation_code(attenuations[i])->Ok_0));
    Ok(codes)
}

/// The bytes that carry `codes` in the shift register.
pub fn register_bytes(codes: [u8; 4]) -> (bytes: [u8; 4])
    ensures
        forall|i: int| 0 <= i < 4 ==> #[trigger] bytes[i] == spec_register_byte(codes[i]),
{
    [
        register_byte(codes[0]),
        register_byte(codes[1]),
        register_byte(codes[2]),
        register_byte(codes[3]),
    ]
}

/// The attenuations that `codes` stand for.
pub fn code_attenuations(codes: [u8; 4]) -> (attenuations: [Ratio; 4])
    ensures
        forall|i: int| 0 <= i < 4 ==> #[trigger] attenuations[i] == spec_code_attenuation(codes[i]),
{
    [
        code_attenuation(codes[0]),
        code_attenuation(codes[1]),
        code_attenuation(codes[2]),
        code_attenuation(codes[3]),
    ]
}

/// The attenuators of a board.
pub trait AttenuatorInterface {
    /// Puts all attenuators back into the state after power-on.
    fn reset_attenuators(&mut self) -> Result<(), Error>;

    /// Has the attenuator of `channel` take over the code that stands in the shift register.
    fn latch_attenuators(&mut self, channel: Channel) -> Result<(), Error>;

    /// Shifts `channels` into the register and leaves in it what came out at the far end.
    fn transfer_attenuators(&mut self, channels: &mut [u8; 4]) -> Result<(), Error>;

    /// Fills the shift register with the codes for `attenuations`, in decibels and in the
    /// order of the channels, and has the attenuator of `channel` take its code over. Returns
    /// the attenuations that the codes stand for, which are `attenuations` rounded down to
    /// half a decibel.
    ///
    /// Where an attenuation is out of range, nothing is done.
    fn set_attenuations(&mut self, channel: Channel, attenuations: [Ratio; 4]) -> (r: Result<
        [Ratio; 4],
        Error,
    >)
        default_ensures
            spec_attenuation_codes(attenuations) is Err ==> r == Err::<[Ratio; 4], Error>(
                Error::Bounds,
            ),
            r matches Ok(set) ==> spec_attenuation_codes(attenuations) matches Ok(codes)
                && forall|i: int| 0 <= i < 4 ==> #[trigger] set[i] == spec_code_attenuation(codes[i]),
    {
        let codes = match attenuation_codes(attenuations) {
            Ok(codes) => codes,
            Err(e) => {
                return Err(e);
            },
        };
        let mut bytes = register_bytes(codes);
        match self.transfer_attenuators(&mut bytes) {
            Ok(()) => {},
            Err(e) => {
                return Err(e);
            },
        }
        match self.latch_attenuators(channel) {
            Ok(()) => {},
            Err(e) => {
                return Err(e);
            },
        }
        Ok(code_attenuations(codes))
    }
}

} // verus!
