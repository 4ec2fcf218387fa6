//! Batches of register writes, laid out for streaming to the device.
//!
//! A batch is a run of records without separators. Each record is the address of a register
//! followed by the payload of that register, most significant byte first; the reader knows the
//! width of every register. The batch is handed over as 32-bit words, so it is padded with
//! whole records, which serve no other purpose, until its length is a multiple of four.

use crate::codec::{
    acr_bytes, clock_control, ftw_bytes, pow_bytes, spec_acr_bytes, spec_clock_control,
    spec_ftw_bytes, spec_pow_bytes,
};
use crate::registers::{channel_select, spec_channel_select, Channel, Error, Mode, Register};
use vstd::endian::{endianness, Endian};
use vstd::prelude::*;
use vstd::slice::slice_subrange;

verus! {

/// The number of bytes that a batch can hold.
pub const CAPACITY: usize = 32;

/// One channel's settings in machine units: tuning word, phase offset word and amplitude
/// control register.
#[derive(Clone, Copy, Debug)]
pub struct Profile {
    pub ftw: u32,
    pub pow: u16,
    pub acr: u32,
}

/// The byte at offset `at` of `word` when the least significant byte comes first.
pub open spec fn low_first_byte(word: u32, at: int) -> u8 {
    if at == 0 {
        (word % 0x100) as u8
    } else if at == 1 {
        (word / 0x100 % 0x100) as u8
    } else if at == 2 {
        (word / 0x1_0000 % 0x100) as u8
    } else {
        (word / 0x100_0000) as u8
    }
}

/// The byte of `word` that lies at offset `at` in memory, on the machine that runs the code.
pub open spec fn word_byte(word: u32, at: int) -> u8 {
    match endianness() {
        Endian::Little => low_first_byte(word, at),
        Endian::Big => low_first_byte(word, 3 - at),
    }
}

/// The bytes of `words` in the order in which they lie in memory.
pub open spec fn word_bytes(words: Seq<u32>) -> Seq<u8> {
    Seq::new(4 * words.len(), |i: int| word_byte(words[i / 4], i % 4))
}

/// `bytemuck::cast_slice_mut`, from words to bytes: the memory of `words`, seen as bytes. It
/// holds four bytes for each word, in memory order, and what is stored through it is stored in
/// the words. A cast to bytes cannot fail on alignment or length.
#[verifier::external_body]
fn bytes_mut(words: &mut [u32; 8]) -> (bytes: &mut [u8])
    ensures
        bytes@ == word_bytes(old(words)@),
        final(bytes)@ == word_bytes(final(words)@),
    no_unwind
{
    bytemuck::cast_slice_mut(words.as_mut_slice())
}

/// The record that writes `payload` to `register`.
pub open spec fn record(register: Register, payload: Seq<u8>) -> Seq<u8> {
    seq![register.spec_addr()] + payload
}

/// The records of one channel update: a write of the channel select register that selects
/// `channels` under `mode`, then, for each value that is given, a write of the tuning word, of
/// the phase offset word, and of the low three bytes of the amplitude control register.
pub open spec fn update_records(
    mode: Mode,
    channels: Channel,
    ftw: Option<u32>,
    pow: Option<u16>,
    acr: Option<u32>,
) -> Seq<u8> {
    record(Register::CSR, seq![spec_channel_select(mode, channels)]) + (match ftw {
        Some(word) => record(Register::CFTW0, spec_ftw_bytes(word)),
        None => Seq::empty(),
    }) + (match pow {
        Some(word) => record(Register::CPOW0, spec_pow_bytes(word)),
        None => Seq::empty(),
    }) + (match acr {
        Some(value) => record(Register::ACR, spec_acr_bytes(value)),
        None => Seq::empty(),
    })
}

/// The record that sets the clock multiplier and the oscillator range in a first function
/// register that is otherwise zero.
pub open spec fn clock_record(reference_hz: u32, multiplier: u8) -> Seq<u8> {
    record(
        Register::FR1,
        seq![spec_clock_control(0, multiplier, reference_hz * multiplier > 200_000_000), 0u8, 0u8],
    )
}

/// The records that pad a batch of `len` bytes to a multiple of four: for an odd length a
/// write of zero to the linear sweep ramp rate register, three bytes, and then, where two
/// bytes are still missing, a write of the bare mode to the channel select register.
pub open spec fn padding(len: nat, mode: Mode) -> Seq<u8> {
    let first = if len % 2 == 1 {
        record(Register::LSRR, seq![0u8, 0u8])
    } else {
        Seq::empty()
    };
    let second = if (len + first.len()) / 2 % 2 == 1 {
        record(Register::CSR, seq![mode.spec_bits()])
    } else {
        Seq::empty()
    };
    first + second
}

/// Whether `stream` is a run of whole records: it is empty, or it starts with the address of a
/// register, goes on with as many bytes as that register is wide, and what follows is a run of
/// whole records again. This is how the device takes a batch apart.
pub open spec fn is_records(stream: Seq<u8>) -> bool
    decreases stream.len(),
{
    stream.len() == 0 || (match Register::spec_from_addr(stream[0]) {
        Some(register) => {
            &&& 1 + register.spec_width() <= stream.len()
            &&& is_records(stream.skip(1 + register.spec_width()))
        },
        None => false,
    })
}

/// A write of a payload that is as long as the register is wide is one whole record.
pub proof fn lemma_record_is_records(register: Register, payload: Seq<u8>)
    requires
        payload.len() == register.spec_width(),
    ensures
        is_records(record(register, payload)),
{
    let stream = record(register, payload);
    assert(stream[0] == register.spec_addr());
    assert(Register::spec_from_addr(register.spec_addr()) == Some(register));
    assert(stream.skip(1 + register.spec_width()) =~= Seq::<u8>::empty());
    reveal_with_fuel(is_records, 2);
}

/// Two runs of whole records, one after the other, are a run of whole records.
pub proof fn lemma_records_join(first: Seq<u8>, second: Seq<u8>)
    requires
        is_records(first),
        is_records(second),
    ensures
        is_records(first + second),
    decreases first.len(),
{
    if first.len() == 0 {
        assert(first + second =~= second);
    } else {
        let register = Register::spec_from_addr(first[0])->Some_0;
        let step = 1 + register.spec_width();
        lemma_records_join(first.skip(step), second);
        assert((first + second).skip(step) =~= first.skip(step) + second);
        assert((first + second)[0] == first[0]);
    }
}

/// Builds one batch of register writes.
pub struct ProfileSerializer {
    data: [u32; 8],
    index: usize,
    mode: Mode,
}

impl ProfileSerializer {
    #[verifier::type_invariant]
    spec fn within_capacity(&self) -> bool {
        self.index <= CAPACITY
    }

    /// The bytes of the batch so far.
    pub closed spec fn stream(&self) -> Seq<u8> {
        word_bytes(self.data@).take(self.index as int)
    }

    /// The communication mode that the batch is written for.
    pub closed spec fn mode(&self) -> Mode {
        self.mode
    }

    /// An empty batch for a device in the communication mode `mode`.
    pub fn new(mode: Mode) -> (batch: Self)
        ensures
            batch.stream() == Seq::<u8>::empty(),
            batch.mode() == mode,
            is_records(batch.stream()),
    {
        let batch = ProfileSerializer { data: [0; 8], index: 0, mode };
        assert(batch.stream() =~= Seq::<u8>::empty());
        batch
    }

    /// The number of bytes in the batch so far. It never exceeds the capacity.
    pub fn len(&self) -> (n: usize)
        ensures
            n == self.stream().len(),
            n <= CAPACITY,
    {
        proof {
            use_type_invariant(self);
        }
        self.index
    }

    /// Adds a write of `value` to `register`.
    fn add_write(&mut self, register: Register, value: &[u8])
        requires
            value@.len() == register.spec_width(),
            old(self).stream().len() + 1 + value@.len() <= CAPACITY,
        ensures
            final(self).stream() == old(self).stream() + record(register, value@),
            final(self).mode() == old(self).mode(),
            is_records(old(self).stream()) ==> is_records(final(self).stream()),
    {
        proof {
            lemma_record_is_records(register, value@);
            if is_records(self.stream()) {
                lemma_records_join(self.stream(), record(register, value@));
            }
        }
        proof {
            use_type_invariant(&*self);
        }
        let start = self.index;
        let view = bytes_mut(&mut self.data);
        let ghost before = view@;
        view[start] = register.addr();
        let mut i: usize = 0;
        while i < value.len()
            invariant
                i <= value.len(),
                start + 1 + value.len() <= CAPACITY,
                before.len() == CAPACITY,
                view@.len() == CAPACITY,
                view@.take(start as int + 1 + i) == before.take(start as int) + record(
                    register,
                    value@.take(i as int),
                ),
            decreases value.len() - i,
        {
            let ghost prior = view@;
            view[start + 1 + i] = value[i];
            assert(view@.take(start as int + 1 + i + 1) =~= prior.take(start as int + 1 + i).push(
                value@[i as int],
            ));
            assert(value@.take(i + 1) =~= value@.take(i as int).push(value@[i as int]));
            assert(record(register, value@.take(i + 1)) =~= record(
                register,
                value@.take(i as int),
            ).push(value@[i as int]));
            i += 1;
        }
        assert(value@.take(i as int) == value@);
        self.index = start + 1 + value.len();
    }

    /// Adds the writes that give `channels` the settings that are given: the channels are
    /// selected first, under the mode of the batch, and then each value goes to its register.
    /// The amplitude control register takes the low three bytes of `acr`.
    ///
    /// The batch must have room for the records.
    pub fn update_channels(
        &mut self,
        channels: Channel,
        ftw: Option<u32>,
        pow: Option<u16>,
        acr: Option<u32>,
    )
        requires
            old(self).stream().len() + update_records(old(self).mode(), channels, ftw, pow, acr).len()
                <= CAPACITY,
        ensures
            final(self).stream() == old(self).stream() + update_records(
                old(self).mode(),
                channels,
                ftw,
                pow,
                acr,
            ),
            final(self).mode() == old(self).mode(),
            is_records(old(self).stream()) ==> is_records(final(self).stream()),
    {
        let csr = [channel_select(self.mode, channels)];
        self.add_write(Register::CSR, &csr);
        if let Some(word) = ftw {
            let bytes = ftw_bytes(word);
            self.add_write(Register::CFTW0, &bytes);
        }
        if let Some(word) = pow {
            let bytes = pow_bytes(word);
            self.add_write(Register::CPOW0, &bytes);
        }
        if let Some(value) = acr {
            let bytes = acr_bytes(value);
            self.add_write(Register::ACR, &bytes);
        }
    }

    /// Adds the write of the first function register that clocks the device from a reference
    /// of `reference_hz` with `multiplier`, and returns the system clock that this gives. The
    /// bits of the register beside the multiplier and the oscillator range are written as zero.
    ///
    /// The configuration is not checked here: see `validate_clocking`. The multiplier must fit
    /// its five bits, and the batch must have room for the record.
    pub fn set_system_clock(&mut self, reference_hz: u32, multiplier: u8) -> (r: Result<u64, Error>)
        requires
            multiplier < 32,
            old(self).stream().len() + 4 <= CAPACITY,
        ensures
            r == Ok::<u64, Error>((reference_hz * multiplier) as u64),
            final(self).stream() == old(self).stream() + clock_record(reference_hz, multiplier),
            final(self).mode() == old(self).mode(),
            is_records(old(self).stream()) ==> is_records(final(self).stream()),
    {
        assert(reference_hz * multiplier <= 0xFFFF_FFFF * 31) by (nonlinear_arith)
            requires
                reference_hz <= 0xFFFF_FFFF,
                multiplier <= 31,
        ;
        let system_hz: u64 = reference_hz as u64 * multiplier as u64;
        let fr1 = [clock_control(0, multiplier, system_hz), 0, 0];
        self.add_write(Register::FR1, &fr1);
        assert(fr1@ =~= seq![
            spec_clock_control(0, multiplier, reference_hz * multiplier > 200_000_000),
            0u8,
            0u8,
        ]);
        Ok(system_hz)
    }

    /// Pads the batch to a multiple of four bytes.
    fn pad(&mut self)
        requires
            old(self).stream().len() + padding(old(self).stream().len(), old(self).mode()).len()
                <= CAPACITY,
        ensures
            final(self).stream() == old(self).stream() + padding(
                old(self).stream().len(),
                old(self).mode(),
            ),
            final(self).stream().len() % 4 == 0,
            final(self).mode() == old(self).mode(),
            is_records(old(self).stream()) ==> is_records(final(self).stream()),
    {
        let ghost start = self.stream();
        if self.len() % 2 == 1 {
            self.add_write(Register::LSRR, &[0, 0]);
        }
        if self.len() / 2 % 2 == 1 {
            let csr = [self.mode.bits()];
            self.add_write(Register::CSR, &csr);
        }
        assert(self.stream() =~= start + padding(start.len(), self.mode()));
    }

    /// Closes the batch and returns it as 32-bit words, ready to be handed to the link: in
    /// memory the words hold the bytes of the batch in order. The batch is padded first, so
    /// that it fills the words.
    ///
    /// The batch must have room for the padding.
    pub fn finalize(&mut self) -> (words: &[u32])
        requires
            old(self).stream().len() + padding(old(self).stream().len(), old(self).mode()).len()
                <= CAPACITY,
        ensures
            final(self).stream() == old(self).stream() + padding(
                old(self).stream().len(),
                old(self).mode(),
            ),
            final(self).mode() == old(self).mode(),
            word_bytes(words@) == final(self).stream(),
            words@.len() * 4 == final(self).stream().len(),
            is_records(old(self).stream()) ==> is_records(final(self).stream()),
    {
        self.pad();
        proof {
            use_type_invariant(&*self);
        }
        let count = self.index / 4;
        let words = slice_subrange(self.data.as_slice(), 0, count);
        assert(word_bytes(words@) =~= self.stream());
        words
    }
}

/// Padding brings every batch to a multiple of four bytes, with at most five bytes.
pub proof fn lemma_padding_aligns(len: nat, mode: Mode)
    ensures
        (len + padding(len, mode).len()) % 4 == 0,
        padding(len, mode).len() <= 5,
        len % 4 == 0 ==> padding(len, mode) == Seq::<u8>::empty(),
{
    let first = if len % 2 == 1 {
        record(Register::LSRR, seq![0u8, 0u8])
    } else {
        Seq::empty()
    };
    assert(first.len() == if len % 2 == 1 { 3nat } else { 0nat });
    if len % 4 == 0 {
        assert(padding(len, mode) =~= Seq::<u8>::empty());
    }
}

} // verus!
