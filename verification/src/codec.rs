//! Conversions between physical quantities and the machine codes of the device: the frequency
//! tuning word, the phase offset word and the amplitude control register, and the rules that a
//! clock configuration has to meet.

use crate::bits::{bit_is_set, fits_field, get_bit, set_bit, set_bits, with_bit, with_field};
use crate::ratio::Ratio;
use crate::registers::Error;
use vstd::arithmetic::div_mod::{
    lemma_div_is_ordered, lemma_div_multiples_vanish, lemma_fundamental_div_mod,
    lemma_fundamental_div_mod_converse,
};
use vstd::prelude::*;

verus! {

/// Whether `multiplier` is a setting of the clock multiplier: 1, which bypasses it, or 4 to 20.
pub open spec fn multiplier_in_range(multiplier: u8) -> bool {
    multiplier == 1 || 4 <= multiplier <= 20
}

/// Whether a system clock of `system_hz`, made with `multiplier`, is one that the device runs
/// at: within one of the two bands of the oscillator, or below the lower band with the
/// multiplier bypassed.
pub open spec fn system_clock_supported(system_hz: int, multiplier: u8) -> bool {
    ||| 255_000_000 <= system_hz <= 500_000_000
    ||| 100_000_000 <= system_hz <= 160_000_000
    ||| (multiplier == 1 && 0 <= system_hz < 100_000_000)
}

/// The system clock that `reference_hz` and `multiplier` give, or the reason why the device
/// cannot be clocked so.
pub open spec fn spec_validate_clocking(reference_hz: u32, multiplier: u8) -> Result<u32, Error> {
    let system_hz = multiplier as int * reference_hz as int;
    if !multiplier_in_range(multiplier) || (multiplier != 1 && reference_hz < 10_000_000)
        || reference_hz < 1_000_000 {
        Err(Error::Bounds)
    } else if !system_clock_supported(system_hz, multiplier) {
        Err(Error::Frequency)
    } else {
        Ok(system_hz as u32)
    }
}

/// Checks a clock configuration and returns the system clock, in hertz, that it gives: the
/// product of the reference clock and the multiplier.
pub fn validate_clocking(reference_hz: u32, multiplier: u8) -> (r: Result<u32, Error>)
    ensures
        r == spec_validate_clocking(reference_hz, multiplier),
        r matches Ok(system_hz) ==> system_hz == multiplier * reference_hz,
{
    if (multiplier != 1 && !(4 <= multiplier && multiplier <= 20)) || (multiplier != 1
        && reference_hz < 10_000_000) || reference_hz < 1_000_000 {
        return Err(Error::Bounds);
    }
    assert(multiplier * reference_hz <= 20 * 0xFFFF_FFFF) by (nonlinear_arith)
        requires
            multiplier <= 20,
            reference_hz <= 0xFFFF_FFFF,
    ;
    let system_hz: u64 = multiplier as u64 * reference_hz as u64;
    let supported = (255_000_000 <= system_hz && system_hz <= 500_000_000) || (100_000_000
        <= system_hz && system_hz <= 160_000_000) || (multiplier == 1 && system_hz < 100_000_000);
    if !supported {
        return Err(Error::Frequency);
    }
    Ok(system_hz as u32)
}

/// Whether `target_hz` is a frequency that a system clock of `system_hz` can synthesize: a
/// number from zero to half the system clock.
pub open spec fn frequency_in_range(target_hz: Ratio, system_hz: u32) -> bool {
    &&& target_hz.is_number()
    &&& 0 <= target_hz.num
    &&& 2 * target_hz.num <= target_hz.den * system_hz
}

/// The tuning word for `target_hz` at a system clock of `system_hz`: the largest whole number
/// that is not above `target_hz / system_hz * 2^32`.
pub open spec fn spec_frequency_to_ftw(target_hz: Ratio, system_hz: u32) -> Result<u32, Error> {
    if !frequency_in_range(target_hz, system_hz) {
        Err(Error::Bounds)
    } else if system_hz == 0 {
        Ok(0u32)
    } else {
        Ok(((target_hz.num * 0x1_0000_0000) / (target_hz.den * system_hz)) as u32)
    }
}

/// The frequency tuning word that makes a channel run at `target_hz`, rounded down, on a device
/// whose system clock is `system_hz`.
pub fn frequency_to_ftw(target_hz: Ratio, system_hz: u32) -> (r: Result<u32, Error>)
    ensures
        r == spec_frequency_to_ftw(target_hz, system_hz),
{
    if target_hz.den == 0 || target_hz.num < 0 {
        return Err(Error::Bounds);
    }
    assert(target_hz.den * system_hz <= 0xFFFF_FFFF_FFFF_FFFF * 0xFFFF_FFFF) by (nonlinear_arith)
        requires
            target_hz.den <= 0xFFFF_FFFF_FFFF_FFFF,
            system_hz <= 0xFFFF_FFFF,
    ;
    let span: u128 = target_hz.den as u128 * system_hz as u128;
    let num: u128 = target_hz.num as u128;
    if num > span {
        return Err(Error::Bounds);
    }
    if 2 * num > span {
        return Err(Error::Bounds);
    }
    if system_hz == 0 {
        return Ok(0);
    }
    assert(span > 0) by (nonlinear_arith)
        requires
            span == target_hz.den * system_hz,
            target_hz.den > 0,
            system_hz > 0,
    ;
    assert(num * 0x1_0000_0000 <= span * 0x8000_0000) by (nonlinear_arith)
        requires
            2 * num <= span,
    ;
    let word: u128 = (num * 0x1_0000_0000) / span;
    proof {
        lemma_div_is_ordered((num * 0x1_0000_0000) as int, (span * 0x8000_0000) as int, span as int);
        lemma_div_multiples_vanish(0x8000_0000, span as int);
    }
    Ok(word as u32)
}

/// The frequency of a channel whose tuning word is `ftw`: `ftw * system_hz / 2^32`.
pub open spec fn spec_ftw_to_frequency(ftw: u32, system_hz: u32) -> Ratio {
    Ratio { num: (ftw * system_hz) as i128, den: 0x1_0000_0000 }
}

/// The frequency, in hertz, at which a channel with the tuning word `ftw` runs on a device whose
/// system clock is `system_hz`.
pub fn ftw_to_frequency(ftw: u32, system_hz: u32) -> (hz: Ratio)
    ensures
        hz == spec_ftw_to_frequency(ftw, system_hz),
        hz.num == ftw * system_hz,
{
    assert(ftw * system_hz <= 0xFFFF_FFFF * 0xFFFF_FFFF) by (nonlinear_arith)
        requires
            ftw <= 0xFFFF_FFFF,
            system_hz <= 0xFFFF_FFFF,
    ;
    Ratio { num: ftw as i128 * system_hz as i128, den: 0x1_0000_0000 }
}

/// A frequency that a system clock of `system_hz` can synthesize comes back from its tuning word
/// less than `system_hz / 2^32` away, and never above what was asked for. With no system clock
/// the only such frequency is zero, and it comes back as zero.
pub proof fn lemma_frequency_round_trip(target_hz: Ratio, system_hz: u32)
    requires
        frequency_in_range(target_hz, system_hz),
    ensures
        spec_frequency_to_ftw(target_hz, system_hz) matches Ok(ftw) && {
            let back = spec_ftw_to_frequency(ftw, system_hz);
            &&& back.num * target_hz.den <= target_hz.num * back.den
            &&& system_hz > 0 ==> target_hz.within(
                back,
                Ratio { num: system_hz as i128, den: 0x1_0000_0000 },
            )
            &&& system_hz == 0 ==> target_hz.same_number(back)
        },
{
    if system_hz > 0 {
        let num = target_hz.num as int;
        let span = target_hz.den * system_hz;
        assert(span > 0) by (nonlinear_arith)
            requires
                span == target_hz.den * system_hz,
                target_hz.den > 0,
                system_hz > 0,
        ;
        let word = (num * 0x1_0000_0000) / span;
        lemma_fundamental_div_mod(num * 0x1_0000_0000, span);
        assert(0 <= word <= 0x8000_0000) by {
            assert(num * 0x1_0000_0000 <= span * 0x8000_0000);
            lemma_div_is_ordered(num * 0x1_0000_0000, span * 0x8000_0000, span);
            lemma_div_is_ordered(0, num * 0x1_0000_0000, span);
            lemma_div_multiples_vanish(0x8000_0000, span);
        }
        let rest = (num * 0x1_0000_0000) % span;
        assert(0 <= rest < span);
        let back = spec_ftw_to_frequency(word as u32, system_hz);
        assert(word * system_hz <= 0x8000_0000 * 0xFFFF_FFFF) by (nonlinear_arith)
            requires
                0 <= word <= 0x8000_0000,
                system_hz <= 0xFFFF_FFFF,
        ;
        assert(back.num == word * system_hz);
        let diff = num * back.den - back.num * target_hz.den;
        assert(diff == rest) by (nonlinear_arith)
            requires
                diff == num * 0x1_0000_0000 - (word * system_hz) * target_hz.den,
                span == target_hz.den * system_hz,
                num * 0x1_0000_0000 == span * word + rest,
        ;
        assert(diff * 0x1_0000_0000 < system_hz * (target_hz.den * 0x1_0000_0000))
            by (nonlinear_arith)
            requires
                diff < span,
                span == target_hz.den * system_hz,
        ;
        assert(-diff * 0x1_0000_0000 < system_hz * (target_hz.den * 0x1_0000_0000))
            by (nonlinear_arith)
            requires
                0 <= diff,
                0 < span,
                span == target_hz.den * system_hz,
        ;
        assert(spec_frequency_to_ftw(target_hz, system_hz) == Ok::<u32, Error>(word as u32));
        assert(target_hz.within(back, Ratio { num: system_hz as i128, den: 0x1_0000_0000 }));
        assert(back.num * target_hz.den <= target_hz.num * back.den);
    } else {
        assert(target_hz.den * system_hz == 0) by (nonlinear_arith)
            requires
                system_hz == 0,
        ;
        assert(target_hz.num == 0);
        let back = spec_ftw_to_frequency(0u32, system_hz);
        assert(0u32 * system_hz == 0) by (nonlinear_arith);
        assert(back.num == 0);
        assert(target_hz.num * back.den == 0) by (nonlinear_arith)
            requires
                target_hz.num == 0,
        ;
        assert(back.num * target_hz.den == 0) by (nonlinear_arith)
            requires
                back.num == 0,
        ;
    }
}

/// Scaling a number by `scale` and rounding down, then keeping what is left after whole
/// multiples of `scale`, is the same as scaling the part of the number that lies above the
/// whole number below it: whole turns do not show in the result.
pub proof fn lemma_floor_scaled_wraps(num: int, den: int, scale: int)
    requires
        den > 0,
        scale > 0,
    ensures
        ((num * scale) / den) % scale == ((num % den) * scale) / den,
        0 <= ((num % den) * scale) / den < scale,
{
    let q = num / den;
    let r = num % den;
    lemma_fundamental_div_mod(num, den);
    let a = (r * scale) / den;
    let b = (r * scale) % den;
    lemma_fundamental_div_mod(r * scale, den);
    assert(0 <= a < scale) by (nonlinear_arith)
        requires
            r * scale == den * a + b,
            0 <= b < den,
            0 <= r < den,
            scale > 0,
    ;
    assert(num * scale == (q * scale + a) * den + b) by (nonlinear_arith)
        requires
            num == den * q + r,
            r * scale == den * a + b,
    ;
    lemma_fundamental_div_mod_converse(num * scale, den, q * scale + a, b);
    lemma_fundamental_div_mod_converse(q * scale + a, scale, q, a);
}

/// The numerator of what is left of `num / den` above the whole number below it.
fn remainder(num: i128, den: u64) -> (r: u64)
    requires
        den > 0,
    ensures
        r == (num as int) % (den as int),
{
    if num >= 0 {
        ((num as u128) % (den as u128)) as u64
    } else {
        let size: u128 = ((-(num + 1)) as u128) + 1;
        let below: u64 = (size % (den as u128)) as u64;
        proof {
            let q = size as int / den as int;
            lemma_fundamental_div_mod(size as int, den as int);
            if below == 0 {
                assert(num as int == (-q) * den + 0) by (nonlinear_arith)
                    requires
                        size == den * q + 0,
                        num == -size,
                ;
                lemma_fundamental_div_mod_converse(num as int, den as int, -q, 0);
            } else {
                assert(num as int == (-q - 1) * den + (den - below)) by (nonlinear_arith)
                    requires
                        size == den * q + below,
                        num == -size,
                ;
                lemma_fundamental_div_mod_converse(
                    num as int,
                    den as int,
                    -q - 1,
                    den - below,
                );
            }
        }
        if below == 0 {
            0
        } else {
            den - below
        }
    }
}

/// The phase offset word for a phase of `turns`: the largest whole number that is not above
/// `turns * 2^14`, less the whole turns. What is no number gives the word zero.
pub open spec fn spec_phase_to_pow(turns: Ratio) -> u16 {
    if turns.is_number() {
        (turns.floor_scaled(16384) % 16384) as u16
    } else {
        0u16
    }
}

/// The phase offset word that shifts a channel by `turns`, rounded down. Whole turns, forward or
/// backward, make no difference, and no phase is out of range.
pub fn phase_to_pow(turns: Ratio) -> (r: Result<u16, Error>)
    ensures
        r == Ok::<u16, Error>(spec_phase_to_pow(turns)),
        spec_phase_to_pow(turns) < 16384,
{
    if turns.den == 0 {
        return Ok(0);
    }
    let part: u128 = remainder(turns.num, turns.den) as u128;
    proof {
        lemma_floor_scaled_wraps(turns.num as int, turns.den as int, 16384);
    }
    let word: u128 = (part * 16384) / (turns.den as u128);
    Ok(word as u16)
}

/// The phase that the offset word `pow` stands for: its low fourteen bits, as a part of 2^14.
pub open spec fn spec_pow_to_phase(pow: u16) -> Ratio {
    Ratio { num: (pow % 16384) as i128, den: 16384 }
}

/// The phase, in turns, by which a channel with the offset word `pow` is shifted.
pub fn pow_to_phase(pow: u16) -> (turns: Ratio)
    ensures
        turns == spec_pow_to_phase(pow),
{
    let code = pow & 0x3FFF;
    assert(pow & 0x3FFF == pow % 16384) by (bit_vector);
    Ratio { num: code as i128, den: 16384 }
}

/// A phase from zero up to, but not including, a full turn comes back from its offset word
/// less than `1 / 2^14` of a turn away, and never above what was asked for.
pub proof fn lemma_phase_round_trip(turns: Ratio)
    requires
        turns.is_number(),
        0 <= turns.num < turns.den,
    ensures
        turns.within(spec_pow_to_phase(spec_phase_to_pow(turns)), Ratio { num: 1, den: 16384 }),
        spec_pow_to_phase(spec_phase_to_pow(turns)).num * turns.den <= turns.num * 16384,
{
    let num = turns.num as int;
    let den = turns.den as int;
    lemma_floor_scaled_wraps(num, den, 16384);
    lemma_fundamental_div_mod_converse(num, den, 0, num);
    let word = (num * 16384) / den;
    let rest = (num * 16384) % den;
    lemma_fundamental_div_mod(num * 16384, den);
    assert(spec_phase_to_pow(turns) == word);
    let back = spec_pow_to_phase(word as u16);
    assert(back.num == word);
    let diff = num * back.den - back.num * den;
    assert(diff == rest) by (nonlinear_arith)
        requires
            diff == num * 16384 - word * den,
            num * 16384 == den * word + rest,
    ;
    assert(diff * 16384 < 1 * (den * 16384)) by (nonlinear_arith)
        requires
            diff < den,
    ;
    assert(-diff * 16384 < 1 * (den * 16384)) by (nonlinear_arith)
        requires
            0 <= diff,
            0 < den,
    ;
}

/// The amplitude control register for an output of `amplitude` times full scale. Below full
/// scale the amplitude multiplier is on, bit 12, and the low ten bits hold the largest whole
/// number that is not above `amplitude * 2^10`. At full scale the multiplier is off and the
/// register is zero.
pub open spec fn spec_amplitude_to_acr(amplitude: Ratio) -> Result<u32, Error> {
    if !amplitude.between(0, 1) {
        Err(Error::Bounds)
    } else {
        let code = amplitude.floor_scaled(1024);
        if code < 1024 {
            Ok((0x1000 + code) as u32)
        } else {
            Ok(0u32)
        }
    }
}

/// The value of the amplitude control register that scales a channel to `amplitude`, a part of
/// full scale from zero to one, rounded down. Its top byte is zero.
pub fn amplitude_to_acr(amplitude: Ratio) -> (r: Result<u32, Error>)
    ensures
        r == spec_amplitude_to_acr(amplitude),
        r matches Ok(acr) ==> acr < 0x1400,
{
    if amplitude.den == 0 || amplitude.num < 0 || amplitude.num > amplitude.den as i128 {
        return Err(Error::Bounds);
    }
    let num: u128 = amplitude.num as u128;
    let den: u128 = amplitude.den as u128;
    assert(num * 1024 <= den * 1024) by (nonlinear_arith)
        requires
            num <= den,
    ;
    let code: u128 = (num * 1024) / den;
    proof {
        lemma_div_is_ordered((num * 1024) as int, (den * 1024) as int, den as int);
        lemma_div_multiples_vanish(1024, den as int);
    }
    if code < 1024 {
        Ok(code as u32 + 0x1000)
    } else {
        Ok(0)
    }
}

/// The three bytes of the amplitude control register, most significant first, that hold the
/// value `acr`. The top byte of `acr` is left out.
pub open spec fn spec_acr_bytes(acr: u32) -> Seq<u8> {
    seq![(acr / 0x1_0000 % 0x100) as u8, (acr / 0x100 % 0x100) as u8, (acr % 0x100) as u8]
}

/// The three bytes that are written to the amplitude control register for the value `acr`: its
/// low three bytes, most significant first.
pub fn acr_bytes(acr: u32) -> (bytes: [u8; 3])
    ensures
        bytes@ == spec_acr_bytes(acr),
{
    let bytes = [(acr / 0x1_0000 % 0x100) as u8, (acr / 0x100 % 0x100) as u8, (acr % 0x100) as u8];
    assert(bytes@ =~= spec_acr_bytes(acr));
    bytes
}

/// The amplitude that the bytes of the amplitude control register stand for. With the
/// multiplier on, bit 4 of the middle byte, it is the low ten bits of the register as a part of
/// 2^10. With the multiplier off it is full scale.
pub open spec fn spec_acr_to_amplitude(acr: Seq<u8>) -> Ratio {
    if (acr[1] / 16) % 2 == 1 {
        Ratio { num: ((acr[1] % 4) * 256 + acr[2]) as i128, den: 1024 }
    } else {
        Ratio { num: 1, den: 1 }
    }
}

/// The amplitude, as a part of full scale, of a channel whose amplitude control register holds
/// the bytes `acr`, most significant first.
pub fn acr_to_amplitude(acr: [u8; 3]) -> (amplitude: Ratio)
    ensures
        amplitude == spec_acr_to_amplitude(acr@),
{
    let middle = acr[1];
    assert(bit_is_set(middle, 4) == ((middle / 16) % 2 == 1)) by (bit_vector);
    if get_bit(middle, 4) {
        let code: u16 = (middle % 4) as u16 * 256 + acr[2] as u16;
        Ratio { num: code as i128, den: 1024 }
    } else {
        Ratio { num: 1, den: 1 }
    }
}

/// An amplitude from zero to full scale comes back from the amplitude control register less
/// than `1 / 2^10` of full scale away, and never above what was asked for. Full scale itself
/// makes the register zero and comes back as exactly one.
pub proof fn lemma_amplitude_round_trip(amplitude: Ratio)
    requires
        amplitude.between(0, 1),
    ensures
        spec_amplitude_to_acr(amplitude) matches Ok(acr) && {
            let back = spec_acr_to_amplitude(spec_acr_bytes(acr));
            &&& amplitude.within(back, Ratio { num: 1, den: 1024 })
            &&& back.num * amplitude.den <= amplitude.num * back.den
            &&& amplitude.num == amplitude.den ==> acr == 0 && back == (Ratio { num: 1, den: 1 })
        },
{
    let num = amplitude.num as int;
    let den = amplitude.den as int;
    let code = (num * 1024) / den;
    let rest = (num * 1024) % den;
    lemma_fundamental_div_mod(num * 1024, den);
    assert(0 <= code <= 1024) by {
        lemma_div_is_ordered(num * 1024, den * 1024, den);
        lemma_div_is_ordered(0, num * 1024, den);
        lemma_div_multiples_vanish(1024, den);
    }
    if num == den {
        lemma_div_multiples_vanish(1024, den);
        assert(num * 1024 == den * 1024);
        assert(code == 1024);
    }
    if code < 1024 {
        let acr = (0x1000 + code) as u32;
        let bytes = spec_acr_bytes(acr);
        assert(bytes[1] == 16 + code / 256);
        assert(bytes[2] == code % 256);
        let back = spec_acr_to_amplitude(bytes);
        assert(back.num == code);
        assert(back.den == 1024);
        let diff = num * 1024 - code * den;
        assert(diff == rest) by (nonlinear_arith)
            requires
                diff == num * 1024 - code * den,
                num * 1024 == den * code + rest,
        ;
        assert(diff * 1024 < 1 * (den * 1024)) by (nonlinear_arith)
            requires
                diff < den,
        ;
        assert(-diff * 1024 < 1 * (den * 1024)) by (nonlinear_arith)
            requires
                0 <= diff,
                0 < den,
        ;
    } else {
        assert(num == den) by (nonlinear_arith)
            requires
                num * 1024 == den * 1024 + rest,
                0 <= rest,
                num <= den,
        ;
        let bytes = spec_acr_bytes(0u32);
        assert(bytes[1] == 0);
        let back = spec_acr_to_amplitude(bytes);
        assert(back == (Ratio { num: 1, den: 1 }));
    }
}

/// The four bytes of `ftw`, most significant first.
pub open spec fn spec_ftw_bytes(ftw: u32) -> Seq<u8> {
    seq![
        (ftw / 0x100_0000) as u8,
        (ftw / 0x1_0000 % 0x100) as u8,
        (ftw / 0x100 % 0x100) as u8,
        (ftw % 0x100) as u8,
    ]
}

/// The four bytes that are written to the frequency tuning word register for `ftw`, most
/// significant first.
pub fn ftw_bytes(ftw: u32) -> (bytes: [u8; 4])
    ensures
        bytes@ == spec_ftw_bytes(ftw),
{
    let bytes = [
        (ftw / 0x100_0000) as u8,
        (ftw / 0x1_0000 % 0x100) as u8,
        (ftw / 0x100 % 0x100) as u8,
        (ftw % 0x100) as u8,
    ];
    assert(bytes@ =~= spec_ftw_bytes(ftw));
    bytes
}

/// The tuning word whose bytes, most significant first, are `bytes`.
pub open spec fn spec_ftw_from_bytes(bytes: Seq<u8>) -> u32 {
    (bytes[0] * 0x100_0000 + bytes[1] * 0x1_0000 + bytes[2] * 0x100 + bytes[3]) as u32
}

/// The tuning word that the frequency tuning word register holds when a read of it gives
/// `bytes`.
pub fn ftw_from_bytes(bytes: [u8; 4]) -> (ftw: u32)
    ensures
        ftw == spec_ftw_from_bytes(bytes@),
        spec_ftw_bytes(ftw) == bytes@,
{
    let (a, b, c, d) = (bytes[0] as u32, bytes[1] as u32, bytes[2] as u32, bytes[3] as u32);
    let ftw = a * 0x100_0000 + b * 0x1_0000 + c * 0x100 + d;
    assert(ftw / 0x100_0000 == a && ftw / 0x1_0000 % 0x100 == b && ftw / 0x100 % 0x100 == c && ftw
        % 0x100 == d) by (nonlinear_arith)
        requires
            ftw == a * 0x100_0000 + b * 0x1_0000 + c * 0x100 + d,
            a < 0x100,
            b < 0x100,
            c < 0x100,
            d < 0x100,
    ;
    assert(spec_ftw_bytes(ftw) =~= bytes@);
    ftw
}

/// The two bytes of `pow`, most significant first.
pub open spec fn spec_pow_bytes(pow: u16) -> Seq<u8> {
    seq![(pow / 0x100) as u8, (pow % 0x100) as u8]
}

/// The two bytes that are written to the phase offset word register for `pow`, most significant
/// first.
pub fn pow_bytes(pow: u16) -> (bytes: [u8; 2])
    ensures
        bytes@ == spec_pow_bytes(pow),
{
    let bytes = [(pow / 0x100) as u8, (pow % 0x100) as u8];
    assert(bytes@ =~= spec_pow_bytes(pow));
    bytes
}

/// The offset word whose bytes, most significant first, are `bytes`.
pub open spec fn spec_pow_from_bytes(bytes: Seq<u8>) -> u16 {
    (bytes[0] * 0x100 + bytes[1]) as u16
}

/// The offset word that the phase offset word register holds when a read of it gives `bytes`.
pub fn pow_from_bytes(bytes: [u8; 2]) -> (pow: u16)
    ensures
        pow == spec_pow_from_bytes(bytes@),
        spec_pow_bytes(pow) == bytes@,
{
    let (a, b) = (bytes[0] as u16, bytes[1] as u16);
    let pow = a * 0x100 + b;
    assert(pow / 0x100 == a && pow % 0x100 == b) by (nonlinear_arith)
        requires
            pow == a * 0x100 + b,
            a < 0x100,
            b < 0x100,
    ;
    assert(spec_pow_bytes(pow) =~= bytes@);
    pow
}

/// The first byte of the first function register, `fr1`, with the clock multiplier, bits 2 to
/// 6, set to `multiplier`, and the oscillator range, bit 7, set to the high range or the low.
pub open spec fn spec_clock_control(fr1: u8, multiplier: u8, high_range: bool) -> u8 {
    with_bit(with_field(fr1, 2, 7, multiplier), 7, high_range)
}

/// The first byte of the first function register that clocks the device at `system_hz` with
/// `multiplier`, given what the byte holds now: the multiplier goes to bits 2 to 6, bit 7 is
/// set for a system clock above 200 MHz and cleared for any other, and bits 0 and 1 stay.
pub fn clock_control(fr1: u8, multiplier: u8, system_hz: u64) -> (updated: u8)
    requires
        multiplier < 32,
    ensures
        updated == spec_clock_control(fr1, multiplier, system_hz > 200_000_000),
        updated / 4 % 32 == multiplier,
        updated / 128 == 1 <==> system_hz > 200_000_000,
        updated % 4 == fr1 % 4,
{
    let high_range = system_hz > 200_000_000;
    assert(fits_field(2, 7, multiplier) && {
        let u = with_bit(with_field(fr1, 2, 7, multiplier), 7, high_range);
        &&& u / 4 % 32 == multiplier
        &&& (u / 128 == 1 <==> high_range)
        &&& u % 4 == fr1 % 4
    }) by (bit_vector)
        requires
            multiplier < 32,
    ;
    let with_multiplier = set_bits(fr1, 2, 7, multiplier);
    set_bit(with_multiplier, 7, high_range)
}

} // verus!
