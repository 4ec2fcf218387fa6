//! The controller of the device: it owns the link and programs the channels through it.

use crate::bits::{field, fits_field, get_bits, set_bits, with_field};
use crate::codec::{
    acr_bytes, acr_to_amplitude, amplitude_to_acr, clock_control, frequency_to_ftw, ftw_bytes,
    ftw_from_bytes, ftw_to_frequency, phase_to_pow, pow_bytes, pow_from_bytes, pow_to_phase,
    spec_acr_bytes, spec_acr_to_amplitude, spec_amplitude_to_acr, spec_clock_control,
    spec_frequency_to_ftw, spec_ftw_bytes, spec_ftw_from_bytes, spec_ftw_to_frequency,
    spec_phase_to_pow, spec_pow_bytes, spec_pow_from_bytes, spec_pow_to_phase,
    spec_validate_clocking, validate_clocking,
};
use crate::interface::{carries_out, completes, Bus, Interface, Request, Transfer};
use crate::ratio::Ratio;
use crate::registers::{channel_select, spec_channel_select, Channel, Error, Mode, Register};
use vstd::prelude::*;

verus! {

/// Whether `after` continues the record `before` with events that carry out `script`.
pub open spec fn ran(before: Seq<Transfer>, after: Seq<Transfer>, script: Seq<Request>) -> bool {
    &&& before.is_prefix_of(after)
    &&& carries_out(after.skip(before.len() as int), script)
}

/// Whether the events by which `after` continues `before` reach the end of `script`.
pub open spec fn finished(before: Seq<Transfer>, after: Seq<Transfer>, script: Seq<Request>) -> bool {
    completes(after.skip(before.len() as int), script)
}

/// Whether `after` continues the record `before` with events that carry out `script`, to its
/// end where `ok` holds and up to a request that failed where it does not.
pub open spec fn performed(
    before: Seq<Transfer>,
    after: Seq<Transfer>,
    script: Seq<Request>,
    ok: bool,
) -> bool {
    &&& ran(before, after, script)
    &&& ok <==> finished(before, after, script)
}

/// The requests that write `data` to `register` of the channels `channels`: the channels are
/// selected, then the register is written. The selection stays as it is afterwards.
pub open spec fn modify_script(
    mode: Mode,
    channels: Channel,
    register: Register,
    data: Seq<u8>,
) -> Seq<Request> {
    seq![
        Request::Write {
            addr: Register::CSR.spec_addr(),
            data: seq![spec_channel_select(mode, channels)],
        },
        Request::Write { addr: register.spec_addr(), data },
    ]
}

/// The requests that read `len` bytes of `register` of the channels `channels`: the channel
/// select register is read, the channels are selected, the register is read, and what the
/// channel select register held, the answer to the first request, is written back.
pub open spec fn read_script(
    mode: Mode,
    channels: Channel,
    register: Register,
    len: nat,
    events: Seq<Transfer>,
) -> Seq<Request> {
    seq![
        Request::Read { addr: Register::CSR.spec_addr(), len: 1 },
        Request::Write {
            addr: Register::CSR.spec_addr(),
            data: seq![spec_channel_select(mode, channels)],
        },
        Request::Read { addr: register.spec_addr(), len },
        Request::Write { addr: Register::CSR.spec_addr(), data: events[0].data },
    ]
}

/// The requests of a self-test. The channel select register is read and kept. It is written
/// with all four channels enabled and read again; where not all four come back, the test ends
/// here. It is written with no channel enabled and read again; where a channel comes back, the
/// test ends here. Last, what was kept is written back.
pub open spec fn self_test_script(events: Seq<Transfer>) -> Seq<Request> {
    let read = Request::Read { addr: Register::CSR.spec_addr(), len: 1 };
    let kept = events[0].data[0];
    let enabled = events[2].data[0];
    let cleared = events[4].data[0];
    let first = seq![
        read,
        Request::Write { addr: Register::CSR.spec_addr(), data: seq![with_field(kept, 4, 8, 0xF)] },
        read,
    ];
    let second = seq![
        Request::Write {
            addr: Register::CSR.spec_addr(),
            data: seq![with_field(enabled, 4, 8, 0x0)],
        },
        read,
    ];
    let third = seq![Request::Write { addr: Register::CSR.spec_addr(), data: seq![kept] }];
    if field(enabled, 4, 8) != 0xF {
        first
    } else if field(cleared, 4, 8) != 0x0 {
        first + second
    } else {
        first + second + third
    }
}

/// What a self-test that was carried out to its end says of the link: whether the channel
/// enable bits came back as they were written, both times.
pub open spec fn self_test_verdict(events: Seq<Transfer>) -> bool {
    field(events[2].data[0], 4, 8) == 0xF && field(events[4].data[0], 4, 8) == 0x0
}

/// The requests that set the clock multiplier and the oscillator range for a system clock of
/// `system_hz`: the first function register is read, and written back with the first byte
/// changed.
pub open spec fn clock_script(multiplier: u8, system_hz: u32, events: Seq<Transfer>) -> Seq<
    Request,
> {
    let held = events[0].data;
    seq![
        Request::Read { addr: Register::FR1.spec_addr(), len: 3 },
        Request::Write {
            addr: Register::FR1.spec_addr(),
            data: seq![
                spec_clock_control(held[0], multiplier, system_hz > 200_000_000),
                held[1],
                held[2],
            ],
        },
    ]
}

/// Checks the clock configuration and, where the device supports it, programs the multiplier
/// and the oscillator range through `bus`.
pub(crate) fn program_clock<I: Interface>(
    bus: &mut Bus<I>,
    reference_hz: u32,
    multiplier: u8,
) -> (r: Result<u32, Error>)
    ensures
        match spec_validate_clocking(reference_hz, multiplier) {
            Err(e) => {
                &&& r == Err::<u32, Error>(e)
                &&& final(bus).trace() == old(bus).trace()
            },
            Ok(system_hz) => {
                &&& performed(
                    old(bus).trace(),
                    final(bus).trace(),
                    clock_script(
                        multiplier,
                        system_hz,
                        final(bus).trace().skip(old(bus).trace().len() as int),
                    ),
                    r is Ok,
                )
                &&& r is Ok ==> r == Ok::<u32, Error>(system_hz)
                &&& r is Err ==> r == Err::<u32, Error>(Error::Interface)
            },
        },
{
    let system_hz = match validate_clocking(reference_hz, multiplier) {
        Ok(system_hz) => system_hz,
        Err(e) => {
            return Err(e);
        },
    };
    let ghost start = bus.trace().len() as int;
    let mut fr1: [u8; 3] = [0, 0, 0];
    let read = bus.read(Register::FR1, &mut fr1);
    if read.is_err() {
        assert(bus.trace().skip(start) =~= seq![bus.trace()[start]]);
        return Err(Error::Interface);
    }
    let ghost held = fr1@;
    fr1[0] = clock_control(fr1[0], multiplier, system_hz as u64);
    assert(fr1@ =~= seq![
        spec_clock_control(held[0], multiplier, system_hz > 200_000_000),
        held[1],
        held[2],
    ]);
    let written = bus.write(Register::FR1, &fr1);
    assert(bus.trace().skip(start) =~= seq![bus.trace()[start], bus.trace()[start + 1]]);
    if written.is_err() {
        return Err(Error::Interface);
    }
    Ok(system_hz)
}

/// An initialized device on a link.
pub struct Ad9959<I: Interface> {
    bus: Bus<I>,
    reference_hz: u32,
    multiplier: u8,
    system_hz: u32,
    mode: Mode,
}

impl<I: Interface> Ad9959<I> {
    /// The device on `bus`, in the communication mode `mode` and clocked as given.
    pub(crate) fn assemble(
        bus: Bus<I>,
        mode: Mode,
        reference_hz: u32,
        multiplier: u8,
        system_hz: u32,
    ) -> (dds: Self)
        ensures
            dds.trace() == bus.trace(),
            dds.link() == bus.link(),
            dds.mode() == mode,
            dds.reference_hz() == reference_hz,
            dds.multiplier() == multiplier,
            dds.system_hz() == system_hz,
    {
        Ad9959 { bus, reference_hz, multiplier, system_hz, mode }
    }

    /// Every request that was made of the link, oldest first.
    pub closed spec fn trace(&self) -> Seq<Transfer> {
        self.bus.trace()
    }

    /// The communication mode of the device.
    pub closed spec fn mode(&self) -> Mode {
        self.mode
    }

    /// The frequency of the reference clock, in hertz.
    pub closed spec fn reference_hz(&self) -> u32 {
        self.reference_hz
    }

    /// The setting of the clock multiplier.
    pub closed spec fn multiplier(&self) -> u8 {
        self.multiplier
    }

    /// The frequency of the system clock, in hertz.
    pub closed spec fn system_hz(&self) -> u32 {
        self.system_hz
    }

    /// Whether the system clock is what the reference clock and the multiplier give, and one
    /// that the device supports. This holds of a device that was brought up, from then on.
    pub open spec fn clocked(&self) -> bool {
        spec_validate_clocking(self.reference_hz(), self.multiplier()) == Ok::<u32, Error>(
            self.system_hz(),
        )
    }

    /// Whether the device is in the same mode and clocked in the same way as `other`.
    pub open spec fn same_settings(&self, other: &Self) -> bool {
        &&& self.mode() == other.mode()
        &&& self.reference_hz() == other.reference_hz()
        &&& self.multiplier() == other.multiplier()
        &&& self.system_hz() == other.system_hz()
    }

    /// The frequency of the reference clock, in hertz.
    pub fn get_reference_clock_frequency(&self) -> (hz: u32)
        ensures
            hz == self.reference_hz(),
    {
        self.reference_hz
    }

    /// The frequency of the system clock, in hertz.
    pub fn system_clock_frequency(&self) -> (hz: u32)
        ensures
            hz == self.system_hz(),
    {
        self.system_hz
    }

    /// Writes `data` to `register` of the channels `channels`.
    fn modify_channel(&mut self, channels: Channel, register: Register, data: &[u8]) -> (r: Result<
        (),
        Error,
    >)
        requires
            data@.len() == register.spec_width(),
        ensures
            final(self).same_settings(old(self)),
            performed(
                old(self).trace(),
                final(self).trace(),
                modify_script(old(self).mode(), channels, register, data@),
                r is Ok,
            ),
            r is Err ==> r == Err::<(), Error>(Error::Interface),
    {
        let ghost before = self.trace();
        let csr = [channel_select(self.mode, channels)];
        let selected = self.bus.write(Register::CSR, &csr);
        assert(csr@ =~= seq![spec_channel_select(self.mode, channels)]);
        if selected.is_err() {
            assert(self.trace().skip(before.len() as int) =~= seq![self.trace().last()]);
            return Err(Error::Interface);
        }
        let written = self.bus.write(register, data);
        assert(self.trace().skip(before.len() as int) =~= seq![
            self.trace()[before.len() as int],
            self.trace().last(),
        ]);
        written
    }

    /// Reads `register` of the channels `channels` into `data`.
    fn read_channel(&mut self, channels: Channel, register: Register, data: &mut [u8]) -> (r:
        Result<(), Error>)
        requires
            old(data)@.len() == register.spec_width(),
        ensures
            final(self).same_settings(old(self)),
            performed(
                old(self).trace(),
                final(self).trace(),
                read_script(
                    old(self).mode(),
                    channels,
                    register,
                    old(data)@.len(),
                    final(self).since(old(self)),
                ),
                r is Ok,
            ),
            r is Ok ==> final(data)@ == final(self).since(old(self))[2].data,
            r is Err ==> r == Err::<(), Error>(Error::Interface),
    {
        let ghost before = self.trace();
        let ghost start = before.len() as int;
        let mut csr: [u8; 1] = [0];
        let kept = self.bus.read(Register::CSR, &mut csr);
        if kept.is_err() {
            assert(self.trace().skip(start) =~= seq![self.trace()[start]]);
            return Err(Error::Interface);
        }
        let select = [channel_select(self.mode, channels)];
        assert(select@ =~= seq![spec_channel_select(self.mode, channels)]);
        let selected = self.bus.write(Register::CSR, &select);
        if selected.is_err() {
            assert(self.trace().skip(start) =~= seq![self.trace()[start], self.trace()[start + 1]]);
            return Err(Error::Interface);
        }
        let read = self.bus.read(register, data);
        if read.is_err() {
            assert(self.trace().skip(start) =~= seq![
                self.trace()[start],
                self.trace()[start + 1],
                self.trace()[start + 2],
            ]);
            return Err(Error::Interface);
        }
        let restored = self.bus.write(Register::CSR, &csr);
        assert(self.trace().skip(start) =~= seq![
            self.trace()[start],
            self.trace()[start + 1],
            self.trace()[start + 2],
            self.trace()[start + 3],
        ]);
        restored
    }

    /// The requests made since the device was as `before`.
    pub open spec fn since(&self, before: &Self) -> Seq<Transfer> {
        self.trace().skip(before.trace().len() as int)
    }

    /// Shifts the phase of `channels` by `turns` and returns the shift that was programmed,
    /// which is `turns` rounded down to a step of the phase offset word, less whole turns.
    pub fn set_phase(&mut self, channels: Channel, turns: Ratio) -> (r: Result<Ratio, Error>)
        ensures
            final(self).same_settings(old(self)),
            performed(
                old(self).trace(),
                final(self).trace(),
                modify_script(
                    old(self).mode(),
                    channels,
                    Register::CPOW0,
                    spec_pow_bytes(spec_phase_to_pow(turns)),
                ),
                r is Ok,
            ),
            r is Ok ==> r == Ok::<Ratio, Error>(spec_pow_to_phase(spec_phase_to_pow(turns))),
            r is Err ==> r == Err::<Ratio, Error>(Error::Interface),
    {
        let pow = match phase_to_pow(turns) {
            Ok(pow) => pow,
            Err(e) => {
                return Err(e);
            },
        };
        let bytes = pow_bytes(pow);
        match self.modify_channel(channels, Register::CPOW0, &bytes) {
            Ok(()) => Ok(pow_to_phase(pow)),
            Err(e) => Err(e),
        }
    }

    /// Reads the phase shift of `channels`, in turns.
    pub fn get_phase(&mut self, channels: Channel) -> (r: Result<Ratio, Error>)
        ensures
            final(self).same_settings(old(self)),
            performed(
                old(self).trace(),
                final(self).trace(),
                read_script(
                    old(self).mode(),
                    channels,
                    Register::CPOW0,
                    2,
                    final(self).since(old(self)),
                ),
                r is Ok,
            ),
            r is Ok ==> r == Ok::<Ratio, Error>(
                spec_pow_to_phase(spec_pow_from_bytes(final(self).since(old(self))[2].data)),
            ),
            r is Err ==> r == Err::<Ratio, Error>(Error::Interface),
    {
        let mut bytes: [u8; 2] = [0; 2];
        match self.read_channel(channels, Register::CPOW0, &mut bytes) {
            Ok(()) => Ok(pow_to_phase(pow_from_bytes(bytes))),
            Err(e) => Err(e),
        }
    }

    /// Scales the output of `channels` to `amplitude`, a part of full scale from zero to one,
    /// and returns the scale that was programmed: `amplitude` rounded down to a step of the
    /// amplitude multiplier. An amplitude out of range is refused before anything is asked of
    /// the link.
    pub fn set_amplitude(&mut self, channels: Channel, amplitude: Ratio) -> (r: Result<
        Ratio,
        Error,
    >)
        ensures
            final(self).same_settings(old(self)),
            match spec_amplitude_to_acr(amplitude) {
                Err(e) => r == Err::<Ratio, Error>(e) && final(self).trace() == old(self).trace(),
                Ok(acr) => {
                    &&& performed(
                        old(self).trace(),
                        final(self).trace(),
                        modify_script(
                            old(self).mode(),
                            channels,
                            Register::ACR,
                            spec_acr_bytes(acr),
                        ),
                        r is Ok,
                    )
                    &&& r is Ok ==> r == Ok::<Ratio, Error>(
                        spec_acr_to_amplitude(spec_acr_bytes(acr)),
                    )
                    &&& r is Err ==> r == Err::<Ratio, Error>(Error::Interface)
                },
            },
    {
        let acr = match amplitude_to_acr(amplitude) {
            Ok(acr) => acr,
            Err(e) => {
                return Err(e);
            },
        };
        let bytes = acr_bytes(acr);
        match self.modify_channel(channels, Register::ACR, &bytes) {
            Ok(()) => Ok(acr_to_amplitude(bytes)),
            Err(e) => Err(e),
        }
    }

    /// Reads the scale of the output of `channels`, as a part of full scale.
    pub fn get_amplitude(&mut self, channels: Channel) -> (r: Result<Ratio, Error>)
        ensures
            final(self).same_settings(old(self)),
            performed(
                old(self).trace(),
                final(self).trace(),
                read_script(
                    old(self).mode(),
                    channels,
                    Register::ACR,
                    3,
                    final(self).since(old(self)),
                ),
                r is Ok,
            ),
            r is Ok ==> r == Ok::<Ratio, Error>(
                spec_acr_to_amplitude(final(self).since(old(self))[2].data),
            ),
            r is Err ==> r == Err::<Ratio, Error>(Error::Interface),
    {
        let mut bytes: [u8; 3] = [0; 3];
        match self.read_channel(channels, Register::ACR, &mut bytes) {
            Ok(()) => Ok(acr_to_amplitude(bytes)),
            Err(e) => Err(e),
        }
    }

    /// Sets the frequency of `channels` to `hz` and returns the frequency that was programmed:
    /// `hz` rounded down to a step of the tuning word at the present system clock. A frequency
    /// that is negative or above half the system clock is refused before anything is asked of
    /// the link.
    pub fn set_frequency(&mut self, channels: Channel, hz: Ratio) -> (r: Result<Ratio, Error>)
        ensures
            final(self).same_settings(old(self)),
            match spec_frequency_to_ftw(hz, old(self).system_hz()) {
                Err(e) => r == Err::<Ratio, Error>(e) && final(self).trace() == old(self).trace(),
                Ok(ftw) => {
                    &&& performed(
                        old(self).trace(),
                        final(self).trace(),
                        modify_script(
                            old(self).mode(),
                            channels,
                            Register::CFTW0,
                            spec_ftw_bytes(ftw),
                        ),
                        r is Ok,
                    )
                    &&& r is Ok ==> r == Ok::<Ratio, Error>(
                        spec_ftw_to_frequency(ftw, old(self).system_hz()),
                    )
                    &&& r is Err ==> r == Err::<Ratio, Error>(Error::Interface)
                },
            },
    {
        let ftw = match frequency_to_ftw(hz, self.system_hz) {
            Ok(ftw) => ftw,
            Err(e) => {
                return Err(e);
            },
        };
        let bytes = ftw_bytes(ftw);
        match self.modify_channel(channels, Register::CFTW0, &bytes) {
            Ok(()) => Ok(ftw_to_frequency(ftw, self.system_hz)),
            Err(e) => Err(e),
        }
    }

    /// Reads the frequency of `channels`, in hertz at the present system clock.
    pub fn get_frequency(&mut self, channels: Channel) -> (r: Result<Ratio, Error>)
        ensures
            final(self).same_settings(old(self)),
            performed(
                old(self).trace(),
                final(self).trace(),
                read_script(
                    old(self).mode(),
                    channels,
                    Register::CFTW0,
                    4,
                    final(self).since(old(self)),
                ),
                r is Ok,
            ),
            r is Ok ==> r == Ok::<Ratio, Error>(
                spec_ftw_to_frequency(
                    spec_ftw_from_bytes(final(self).since(old(self))[2].data),
                    old(self).system_hz(),
                ),
            ),
            r is Err ==> r == Err::<Ratio, Error>(Error::Interface),
    {
        let mut bytes: [u8; 4] = [0; 4];
        match self.read_channel(channels, Register::CFTW0, &mut bytes) {
            Ok(()) => Ok(ftw_to_frequency(ftw_from_bytes(bytes), self.system_hz)),
            Err(e) => Err(e),
        }
    }

    /// Hands the link over, for a caller that goes on to stream batches over it, together with
    /// the communication mode that the device is in.
    pub fn freeze(self) -> (parts: (I, Mode))
        ensures
            parts.0 == self.link(),
            parts.1 == self.mode(),
    {
        (self.bus.release(), self.mode)
    }

    /// The link that the device is on.
    pub closed spec fn link(&self) -> I {
        self.bus.link()
    }

    /// Reads the setting of the clock multiplier from the device.
    pub fn get_reference_clock_multiplier(&mut self) -> (r: Result<u8, Error>)
        ensures
            final(self).same_settings(old(self)),
            performed(
                old(self).trace(),
                final(self).trace(),
                seq![Request::Read { addr: Register::FR1.spec_addr(), len: 3 }],
                r is Ok,
            ),
            r is Ok ==> r == Ok::<u8, Error>(field(final(self).since(old(self))[0].data[0], 2, 7)),
            r is Err ==> r == Err::<u8, Error>(Error::Interface),
    {
        let ghost start = self.trace().len() as int;
        let mut fr1: [u8; 3] = [0, 0, 0];
        let read = self.bus.read(Register::FR1, &mut fr1);
        assert(self.trace().skip(start) =~= seq![self.trace()[start]]);
        match read {
            Ok(()) => Ok(get_bits(fr1[0], 2, 7)),
            Err(e) => Err(e),
        }
    }

    /// Clocks the device from a reference of `reference_hz` with `multiplier`, and returns
    /// the system clock that this gives. A configuration that the device does not support is
    /// refused before anything is asked of the link. Unless the device was programmed, it stays
    /// clocked as it was.
    pub fn configure_system_clock(&mut self, reference_hz: u32, multiplier: u8) -> (r: Result<
        u32,
        Error,
    >)
        ensures
            final(self).mode() == old(self).mode(),
            match spec_validate_clocking(reference_hz, multiplier) {
                Err(e) => {
                    &&& r == Err::<u32, Error>(e)
                    &&& final(self).trace() == old(self).trace()
                },
                Ok(system_hz) => {
                    &&& performed(
                        old(self).trace(),
                        final(self).trace(),
                        clock_script(multiplier, system_hz, final(self).since(old(self))),
                        r is Ok,
                    )
                    &&& r is Ok ==> r == Ok::<u32, Error>(system_hz)
                    &&& r is Err ==> r == Err::<u32, Error>(Error::Interface)
                },
            },
            r is Err ==> final(self).same_settings(old(self)),
            r is Ok ==> {
                &&& final(self).reference_hz() == reference_hz
                &&& final(self).multiplier() == multiplier
                &&& final(self).system_hz() == multiplier * reference_hz
                &&& final(self).clocked()
            },
    {
        let system_hz = match program_clock(&mut self.bus, reference_hz, multiplier) {
            Ok(system_hz) => system_hz,
            Err(e) => {
                return Err(e);
            },
        };
        self.reference_hz = reference_hz;
        self.multiplier = multiplier;
        self.system_hz = system_hz;
        Ok(system_hz)
    }

    /// Tests the link by writing the channel enable bits and reading them back: see
    /// `self_test_script`. The result is `false` where the bits did not come back as written,
    /// and an error where the link failed. After a test that found no fault the channel select
    /// register has been written back as it was read at the start.
    pub fn self_test(&mut self) -> (r: Result<bool, Error>)
        ensures
            final(self).same_settings(old(self)),
            performed(
                old(self).trace(),
                final(self).trace(),
                self_test_script(final(self).since(old(self))),
                r is Ok,
            ),
            r is Ok ==> r == Ok::<bool, Error>(self_test_verdict(final(self).since(old(self)))),
            r is Err ==> r == Err::<bool, Error>(Error::Interface),
    {
        let ghost start = self.trace().len() as int;
        assert(fits_field(4, 8, 0xF) && fits_field(4, 8, 0x0)) by (bit_vector);
        let mut csr: [u8; 1] = [0];
        if self.bus.read(Register::CSR, &mut csr).is_err() {
            assert(self.trace().skip(start) =~= seq![self.trace()[start]]);
            return Err(Error::Interface);
        }
        let kept = csr[0];

        csr[0] = set_bits(csr[0], 4, 8, 0xF);
        assert(csr@ =~= seq![with_field(kept, 4, 8, 0xF)]);
        if self.bus.write(Register::CSR, &csr).is_err() {
            assert(self.trace().skip(start) =~= seq![self.trace()[start], self.trace()[start + 1]]);
            return Err(Error::Interface);
        }
        csr[0] = 0;
        if self.bus.read(Register::CSR, &mut csr).is_err() {
            assert(self.trace().skip(start) =~= seq![
                self.trace()[start],
                self.trace()[start + 1],
                self.trace()[start + 2],
            ]);
            return Err(Error::Interface);
        }
        let enabled = csr[0];
        if get_bits(csr[0], 4, 8) != 0xF {
            assert(self.trace().skip(start) =~= seq![
                self.trace()[start],
                self.trace()[start + 1],
                self.trace()[start + 2],
            ]);
            return Ok(false);
        }
        csr[0] = set_bits(csr[0], 4, 8, 0x0);
        assert(csr@ =~= seq![with_field(enabled, 4, 8, 0x0)]);
        if self.bus.write(Register::CSR, &csr).is_err() {
            assert(self.trace().skip(start) =~= seq![
                self.trace()[start],
                self.trace()[start + 1],
                self.trace()[start + 2],
                self.trace()[start + 3],
            ]);
            return Err(Error::Interface);
        }
        csr[0] = 0xFF;
        if self.bus.read(Register::CSR, &mut csr).is_err() {
            assert(self.trace().skip(start) =~= seq![
                self.trace()[start],
                self.trace()[start + 1],
                self.trace()[start + 2],
                self.trace()[start + 3],
                self.trace()[start + 4],
            ]);
            return Err(Error::Interface);
        }
        if get_bits(csr[0], 4, 8) != 0 {
            assert(self.trace().skip(start) =~= seq![
                self.trace()[start],
                self.trace()[start + 1],
                self.trace()[start + 2],
                self.trace()[start + 3],
                self.trace()[start + 4],
            ]);
            return Ok(false);
        }
        csr[0] = kept;
        assert(csr@ =~= seq![kept]);
        let restored = self.bus.write(Register::CSR, &csr);
        assert(self.trace().skip(start) =~= seq![
            self.trace()[start],
            self.trace()[start + 1],
            self.trace()[start + 2],
            self.trace()[start + 3],
            self.trace()[start + 4],
            self.trace()[start + 5],
        ]);
        match restored {
            Ok(()) => Ok(true),
            Err(e) => Err(e),
        }
    }
}

/// What the channel select register holds after `events`, on a device that held `initial`
/// before them and takes in all that is written to it: the first byte of the last write to the
/// register, or `initial` where there is none.
pub open spec fn csr_after(events: Seq<Transfer>, initial: u8) -> u8
    decreases events.len(),
{
    if events.len() == 0 {
        initial
    } else {
        match events.last().request {
            Request::Write { addr, data } if addr == Register::CSR.spec_addr() => data[0],
            _ => csr_after(events.drop_last(), initial),
        }
    }
}

/// Whether `events` are those of a link that never fails, to a device that held `initial` in
/// its channel select register and gives back, at each read of that register, what it holds.
pub open spec fn echoes(events: Seq<Transfer>, initial: u8) -> bool {
    forall|i: int|
        0 <= i < events.len() ==> {
            &&& (#[trigger] events[i]).ok
            &&& events[i].request == (Request::Read { addr: Register::CSR.spec_addr(), len: 1 })
                ==> events[i].data == seq![csr_after(events.take(i), initial)]
        }
}

/// On a link that never fails, to a device that gives back what was written to it, the
/// self-test runs to its end, finds no fault, and leaves the channel select register as it
/// found it.
pub proof fn lemma_self_test_on_echoing_link(events: Seq<Transfer>, initial: u8)
    requires
        carries_out(events, self_test_script(events)),
        echoes(events, initial),
    ensures
        completes(events, self_test_script(events)),
        events.len() == 6,
        self_test_verdict(events),
        csr_after(events, initial) == initial,
{
    let script = self_test_script(events);
    let read = Request::Read { addr: Register::CSR.spec_addr(), len: 1 };
    assert(script.len() >= 3);
    assert(events.len() >= 1);
    assert(events.len() == script.len()) by {
        if events.len() < script.len() {
            assert(!events.last().ok);
            assert(events[events.len() - 1].ok);
        }
    }
    assert(script[0] == read && script[2] == read);
    let raised = with_field(initial, 4, 8, 0xF);
    assert(events[0].request == script[0]);
    assert(events.take(0) =~= Seq::<Transfer>::empty());
    assert(events[0].data == seq![initial]);
    assert(events[1].request == script[1]);
    assert(events[2].request == script[2]);
    assert(events.take(2).drop_last() =~= events.take(1));
    assert(events.take(2).last() == events[1]);
    assert(csr_after(events.take(2), initial) == raised);
    assert(events[2].data == seq![raised]);
    assert(field(raised, 4, 8) == 0xF && field(with_field(raised, 4, 8, 0x0), 4, 8) == 0x0)
        by (bit_vector)
        requires
            raised == with_field(initial, 4, 8, 0xF),
    ;
    let lowered = with_field(raised, 4, 8, 0x0);
    assert(script.len() >= 5);
    assert(script[3] == (Request::Write { addr: Register::CSR.spec_addr(), data: seq![lowered] }));
    assert(script[4] == read);
    assert(events[3].request == script[3]);
    assert(events[4].request == script[4]);
    assert(events.take(4).drop_last() =~= events.take(3));
    assert(events.take(4).last() == events[3]);
    assert(csr_after(events.take(4), initial) == lowered);
    assert(events[4].data == seq![lowered]);
    assert(script.len() == 6);
    assert(script[5] == (Request::Write { addr: Register::CSR.spec_addr(), data: seq![initial] }));
    assert(events[5].request == script[5]);
    assert(events.last() == events[5]);
}

} // verus!
