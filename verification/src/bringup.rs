//! Bringing the device up after power-on.
//!
//! The sequence drives two lines of the device, reset and update, and waits between the
//! steps, besides what it asks of the link. The lines and the clock belong to the caller: the
//! bring-up says what is to be done with them, one action at a time, and the caller reports
//! how the action went. What goes over the link is done here.
//!
//! In order: the update line is driven low; reset is driven high, held and released; the link
//! takes up the single-line mode, the channel select register is written with the wanted mode
//! and all channels enabled, and the update line is pulsed to latch it; the link takes up the
//! wanted mode and the device is given time to follow; the channel select register is read
//! back and compared; the system clock is configured, and the update line is pulsed again.

use crate::codec::spec_validate_clocking;
use crate::controller::{clock_script, program_clock, ran, Ad9959};
use crate::interface::{carries_out, completes, Bus, Interface, Request, Transfer};
use crate::registers::{channel_select, Channel, Error, Mode, Register};
use vstd::prelude::*;

verus! {

/// The least time, in microseconds, that the device needs to take in a reset or an update:
/// one period of its slowest synchronization clock, rounded up.
pub const SETTLE_MICROS: u8 = 5;

/// Something for the caller of the bring-up to do.
#[derive(Clone, Copy, Debug, PartialEq, Eq, Structural)]
pub enum Action {
    /// Drive the update line low.
    UpdateLow,
    /// Drive the update line high.
    UpdateHigh,
    /// Drive the reset line high.
    ResetHigh,
    /// Drive the reset line low.
    ResetLow,
    /// Wait for at least this many microseconds.
    Delay { micros: u8 },
}

impl Action {
    /// Whether the action drives a line, and so can fail.
    pub open spec fn drives_line(self) -> bool {
        !(self is Delay)
    }
}

/// How far the bring-up has come. From `Idle` the stages follow each other in the order in
/// which they stand here, up to `Ready`. Each stage between the two has one action pending
/// with the caller.
#[derive(Clone, Copy, Debug, PartialEq, Eq, Structural)]
pub enum Stage {
    /// Nothing has been done.
    Idle,
    /// The update line is being driven low.
    UpdateLowered,
    /// Reset is being driven high.
    ResetAsserted,
    /// Reset is held high.
    ResetHeld,
    /// Reset is being driven low.
    ResetReleased,
    /// The channel select register has been written over the link in the single-line mode,
    /// and the update line is being driven high to latch it.
    CsrWritten,
    /// The update line is held high.
    CsrLatching,
    /// The update line is being driven low.
    CsrLatched,
    /// The link has taken up the wanted mode, and the device is given time to follow.
    ModeSelected,
    /// The channel select register has come back as written and the system clock has been
    /// configured. The update line is being driven high to latch the clock configuration.
    ClockConfigured,
    /// The update line is held high.
    ClockLatching,
    /// The update line is being driven low.
    ClockLatched,
    /// The device is up.
    Ready,
    /// The bring-up has failed, and stays so.
    Failed { error: Error },
}

/// What a call of `advance` answers.
#[derive(Clone, Copy, Debug, PartialEq, Eq, Structural)]
pub enum Step {
    /// The caller is to do this, and to say in the next call how it went.
    Perform(Action),
    /// The device is up: there is nothing left to do.
    Ready,
    /// The bring-up has failed.
    Failed(Error),
}

impl Stage {
    /// The action that is pending with the caller in this stage.
    pub open spec fn spec_pending(self) -> Option<Action> {
        match self {
            Stage::UpdateLowered | Stage::CsrLatched | Stage::ClockLatched => Some(
                Action::UpdateLow,
            ),
            Stage::ResetAsserted => Some(Action::ResetHigh),
            Stage::ResetReleased => Some(Action::ResetLow),
            Stage::CsrWritten | Stage::ClockConfigured => Some(Action::UpdateHigh),
            Stage::ResetHeld | Stage::CsrLatching | Stage::ModeSelected | Stage::ClockLatching => Some(
                Action::Delay { micros: SETTLE_MICROS },
            ),
            Stage::Idle | Stage::Ready | Stage::Failed { .. } => None,
        }
    }

    /// The action that is pending with the caller in this stage.
    #[verifier::when_used_as_spec(spec_pending)]
    pub fn pending(self) -> (action: Option<Action>)
        ensures
            action == self.spec_pending(),
    {
        match self {
            Stage::UpdateLowered | Stage::CsrLatched | Stage::ClockLatched => Some(
                Action::UpdateLow,
            ),
            Stage::ResetAsserted => Some(Action::ResetHigh),
            Stage::ResetReleased => Some(Action::ResetLow),
            Stage::CsrWritten | Stage::ClockConfigured => Some(Action::UpdateHigh),
            Stage::ResetHeld | Stage::CsrLatching | Stage::ModeSelected | Stage::ClockLatching => Some(
                Action::Delay { micros: SETTLE_MICROS },
            ),
            Stage::Idle | Stage::Ready | Stage::Failed { .. } => None,
        }
    }

    /// The stage that follows this one when nothing fails. The last stages follow themselves.
    pub open spec fn spec_successor(self) -> Stage {
        match self {
            Stage::Idle => Stage::UpdateLowered,
            Stage::UpdateLowered => Stage::ResetAsserted,
            Stage::ResetAsserted => Stage::ResetHeld,
            Stage::ResetHeld => Stage::ResetReleased,
            Stage::ResetReleased => Stage::CsrWritten,
            Stage::CsrWritten => Stage::CsrLatching,
            Stage::CsrLatching => Stage::CsrLatched,
            Stage::CsrLatched => Stage::ModeSelected,
            Stage::ModeSelected => Stage::ClockConfigured,
            Stage::ClockConfigured => Stage::ClockLatching,
            Stage::ClockLatching => Stage::ClockLatched,
            Stage::ClockLatched => Stage::Ready,
            Stage::Ready => Stage::Ready,
            Stage::Failed { error } => Stage::Failed { error },
        }
    }

    /// The stage that follows this one when nothing fails.
    #[verifier::when_used_as_spec(spec_successor)]
    pub fn successor(self) -> (next: Stage)
        ensures
            next == self.spec_successor(),
    {
        match self {
            Stage::Idle => Stage::UpdateLowered,
            Stage::UpdateLowered => Stage::ResetAsserted,
            Stage::ResetAsserted => Stage::ResetHeld,
            Stage::ResetHeld => Stage::ResetReleased,
            Stage::ResetReleased => Stage::CsrWritten,
            Stage::CsrWritten => Stage::CsrLatching,
            Stage::CsrLatching => Stage::CsrLatched,
            Stage::CsrLatched => Stage::ModeSelected,
            Stage::ModeSelected => Stage::ClockConfigured,
            Stage::ClockConfigured => Stage::ClockLatching,
            Stage::ClockLatching => Stage::ClockLatched,
            Stage::ClockLatched => Stage::Ready,
            Stage::Ready => Stage::Ready,
            Stage::Failed { error } => Stage::Failed { error },
        }
    }

    /// What `advance` answers when it has brought the bring-up to this stage.
    pub open spec fn spec_step(self) -> Step {
        match self {
            Stage::Ready => Step::Ready,
            Stage::Failed { error } => Step::Failed(error),
            _ => match self.spec_pending() {
                Some(action) => Step::Perform(action),
                None => Step::Ready,
            },
        }
    }

    /// What `advance` answers when it has brought the bring-up to this stage.
    #[verifier::when_used_as_spec(spec_step)]
    pub fn step(self) -> (step: Step)
        ensures
            step == self.spec_step(),
    {
        match self {
            Stage::Ready => Step::Ready,
            Stage::Failed { error } => Step::Failed(error),
            _ => match self.pending() {
                Some(action) => Step::Perform(action),
                None => Step::Ready,
            },
        }
    }
}

/// The settings that a bring-up is to give the device.
pub struct Target {
    pub mode: Mode,
    pub reference_hz: u32,
    pub multiplier: u8,
}

impl Target {
    /// The value that the bring-up writes to the channel select register: the wanted mode,
    /// with all channels enabled.
    pub open spec fn csr(self) -> u8 {
        self.mode.spec_bits() | 0xF0
    }
}

/// What is asked of the link on the way into the stage `next`, given the events of that very
/// exchange.
pub open spec fn entry_script(next: Stage, target: Target, events: Seq<Transfer>) -> Seq<Request> {
    match next {
        Stage::CsrWritten => seq![
            Request::Configure { mode: Mode::SingleBitTwoWire },
            Request::Write { addr: Register::CSR.spec_addr(), data: seq![target.csr()] },
        ],
        Stage::ModeSelected => seq![Request::Configure { mode: target.mode }],
        Stage::ClockConfigured => {
            let read_back = seq![Request::Read { addr: Register::CSR.spec_addr(), len: 1 }];
            match entry_verdict(next, target, events) {
                Ok(system_hz) => read_back + clock_script(
                    target.multiplier,
                    system_hz,
                    events.skip(1),
                ),
                Err(_) => read_back,
            }
        },
        _ => Seq::empty(),
    }
}

/// What an exchange on the way into the stage `next` shows, where the link carried it out:
/// for the stage `ClockConfigured` the system clock, unless the channel select register did
/// not come back as written or the clock configuration is not supported.
pub open spec fn entry_verdict(next: Stage, target: Target, events: Seq<Transfer>) -> Result<
    u32,
    Error,
> {
    match next {
        Stage::ClockConfigured => if events[0].data[0] != target.csr() {
            Err(Error::Check)
        } else {
            spec_validate_clocking(target.reference_hz, target.multiplier)
        },
        _ => Ok(0u32),
    }
}

/// How the exchange on the way into the stage `next` ends, given its events: with `Interface`
/// where the link failed, and else as the verdict has it.
pub open spec fn entry_result(next: Stage, target: Target, events: Seq<Transfer>) -> Result<
    (),
    Error,
> {
    if !completes(events, entry_script(next, target, events)) {
        Err(Error::Interface)
    } else {
        match entry_verdict(next, target, events) {
            Ok(_) => Ok(()),
            Err(error) => Err(error),
        }
    }
}

/// The stage that follows `stage` when the caller reports `line_ok` of the pending action and
/// the exchange with the link gave `events`.
pub open spec fn next_stage(stage: Stage, line_ok: bool, target: Target, events: Seq<Transfer>) -> Stage {
    if stage is Ready || stage is Failed {
        stage
    } else if line_failed(stage, line_ok) {
        Stage::Failed { error: Error::Pin }
    } else {
        match entry_result(stage.spec_successor(), target, events) {
            Ok(_) => stage.spec_successor(),
            Err(error) => Stage::Failed { error },
        }
    }
}

/// Whether the action that is pending in `stage` drives a line and was not carried out.
pub open spec fn line_failed(stage: Stage, line_ok: bool) -> bool {
    stage.spec_pending() matches Some(action) && action.drives_line() && !line_ok
}

/// A bring-up in progress.
pub struct Bringup<I: Interface> {
    bus: Bus<I>,
    mode: Mode,
    reference_hz: u32,
    multiplier: u8,
    stage: Stage,
}

impl<I: Interface> Bringup<I> {
    /// Every request that was made of the link, oldest first.
    pub closed spec fn trace(&self) -> Seq<Transfer> {
        self.bus.trace()
    }

    /// The link that the device is on.
    pub closed spec fn link(&self) -> I {
        self.bus.link()
    }

    /// How far the bring-up has come.
    pub closed spec fn spec_stage(&self) -> Stage {
        self.stage
    }

    /// The settings that the bring-up is to give the device.
    pub closed spec fn target(&self) -> Target {
        Target { mode: self.mode, reference_hz: self.reference_hz, multiplier: self.multiplier }
    }

    /// Whether the bring-up is in a stage that it can have reached: the stages from
    /// `ClockConfigured` on are reached with a clock configuration that the device supports.
    pub open spec fn wf(&self) -> bool {
        match self.spec_stage() {
            Stage::ClockConfigured | Stage::ClockLatching | Stage::ClockLatched | Stage::Ready => {
                spec_validate_clocking(self.target().reference_hz, self.target().multiplier) is Ok
            },
            _ => true,
        }
    }

    /// Starts the bring-up of the device on `interface`. The device is to communicate in
    /// `desired_mode` and to be clocked from a reference of `reference_hz` with `multiplier`.
    /// Nothing is done yet.
    pub fn new(interface: I, desired_mode: Mode, reference_hz: u32, multiplier: u8) -> (bringup:
        Self)
        ensures
            bringup.spec_stage() == Stage::Idle,
            bringup.target() == (Target { mode: desired_mode, reference_hz, multiplier }),
            bringup.trace() == Seq::<Transfer>::empty(),
            bringup.wf(),
    {
        Bringup {
            bus: Bus::new(interface),
            mode: desired_mode,
            reference_hz,
            multiplier,
            stage: Stage::Idle,
        }
    }

    /// How far the bring-up has come.
    #[verifier::when_used_as_spec(spec_stage)]
    pub fn stage(&self) -> (stage: Stage)
        ensures
            stage == self.spec_stage(),
    {
        self.stage
    }

    /// Does what is asked of the link on the way into the stage `next`.
    fn enter(&mut self, next: Stage) -> (r: Result<(), Error>)
        ensures
            final(self).target() == old(self).target(),
            final(self).spec_stage() == old(self).spec_stage(),
            ran(
                old(self).trace(),
                final(self).trace(),
                entry_script(
                    next,
                    old(self).target(),
                    final(self).trace().skip(old(self).trace().len() as int),
                ),
            ),
            r == entry_result(
                next,
                old(self).target(),
                final(self).trace().skip(old(self).trace().len() as int),
            ),
    {
        let ghost start = self.trace().len() as int;
        let ghost target = self.target();
        match next {
            Stage::CsrWritten => {
                if self.bus.configure(Mode::SingleBitTwoWire).is_err() {
                    assert(self.trace().skip(start) =~= seq![self.trace()[start]]);
                    return Err(Error::Interface);
                }
                let csr = [channel_select(self.mode, Channel::all())];
                assert(csr@ =~= seq![target.csr()]);
                let written = self.bus.write(Register::CSR, &csr);
                assert(self.trace().skip(start) =~= seq![
                    self.trace()[start],
                    self.trace()[start + 1],
                ]);
                written
            },
            Stage::ModeSelected => {
                let configured = self.bus.configure(self.mode);
                assert(self.trace().skip(start) =~= seq![self.trace()[start]]);
                configured
            },
            Stage::ClockConfigured => {
                let mut csr: [u8; 1] = [0];
                let read = self.bus.read(Register::CSR, &mut csr);
                if read.is_err() {
                    assert(self.trace().skip(start) =~= seq![self.trace()[start]]);
                    return Err(Error::Interface);
                }
                if csr[0] != channel_select(self.mode, Channel::all()) {
                    assert(self.trace().skip(start) =~= seq![self.trace()[start]]);
                    return Err(Error::Check);
                }
                let ghost middle = self.trace();
                let programmed = program_clock(&mut self.bus, self.reference_hz, self.multiplier);
                let r = match programmed {
                    Ok(_) => Ok(()),
                    Err(e) => Err(e),
                };
                proof {
                    let events = self.trace().skip(start);
                    let tail = self.trace().skip(start + 1);
                    assert(events.skip(1) =~= tail);
                    assert(events[0] == middle[start]);
                    assert(events =~= seq![middle[start]] + tail);
                    assert(events[0].data[0] == target.csr());
                    let script = entry_script(next, target, events);
                    match spec_validate_clocking(target.reference_hz, target.multiplier) {
                        Ok(system_hz) => {
                            let inner = clock_script(target.multiplier, system_hz, tail);
                            assert(script =~= seq![
                                Request::Read { addr: Register::CSR.spec_addr(), len: 1 },
                            ] + inner);
                            assert(inner.len() == 2);
                            assert(completes(events, script) == completes(tail, inner));
                        },
                        Err(_) => {
                            assert(tail =~= Seq::<Transfer>::empty());
                            assert(completes(events, script));
                        },
                    }
                    assert(r == entry_result(next, target, events));
                }
                r
            },
            _ => {
                assert(self.trace().skip(start) =~= Seq::<Transfer>::empty());
                Ok(())
            },
        }
    }

    /// Takes the bring-up one stage further. `line_ok` says whether the action that the last
    /// call handed out was carried out; it counts for an action that drives a line, and is
    /// not looked at otherwise. The answer is the next action, or that the bring-up is over.
    ///
    /// A line that could not be driven fails the bring-up with `Pin`, a failure of the link
    /// with `Interface`, a channel select register that reads back otherwise than written with
    /// `Check`, and a clock configuration that is not supported with `Bounds` or `Frequency`.
    pub fn advance(&mut self, line_ok: bool) -> (step: Step)
        ensures
            final(self).target() == old(self).target(),
            ran(
                old(self).trace(),
                final(self).trace(),
                if old(self).spec_stage() is Ready || old(self).spec_stage() is Failed
                    || line_failed(old(self).spec_stage(), line_ok) {
                    Seq::<Request>::empty()
                } else {
                    entry_script(
                        old(self).spec_stage().spec_successor(),
                        old(self).target(),
                        final(self).trace().skip(old(self).trace().len() as int),
                    )
                },
            ),
            final(self).spec_stage() == next_stage(
                old(self).spec_stage(),
                line_ok,
                old(self).target(),
                final(self).trace().skip(old(self).trace().len() as int),
            ),
            step == final(self).spec_stage().spec_step(),
            old(self).wf() ==> final(self).wf(),
    {
        let ghost start = self.trace().len() as int;
        match self.stage {
            Stage::Ready | Stage::Failed { .. } => {
                assert(self.trace().skip(start) =~= Seq::<Transfer>::empty());
                return self.stage.step();
            },
            _ => {},
        }
        let failed_line = match self.stage.pending() {
            Some(Action::Delay { .. }) | None => false,
            Some(_) => !line_ok,
        };
        if failed_line {
            assert(self.trace().skip(start) =~= Seq::<Transfer>::empty());
            self.stage = Stage::Failed { error: Error::Pin };
            return self.stage.step();
        }
        let next = self.stage.successor();
        match self.enter(next) {
            Ok(()) => {
                self.stage = next;
            },
            Err(error) => {
                self.stage = Stage::Failed { error };
            },
        }
        self.stage.step()
    }

    /// Ends a bring-up that is `Ready` and hands out the device. Of a bring-up in any other
    /// stage nothing comes.
    pub fn finish(self) -> (dds: Option<Ad9959<I>>)
        ensures
            self.wf() ==> (dds is Some <==> self.spec_stage() is Ready),
            dds matches Some(device) ==> {
                &&& self.spec_stage() is Ready
                &&& device.clocked()
                &&& device.mode() == self.target().mode
                &&& device.reference_hz() == self.target().reference_hz
                &&& device.multiplier() == self.target().multiplier
                &&& device.trace() == self.trace()
                &&& device.link() == self.link()
            },
    {
        match self.stage {
            Stage::Ready => match crate::codec::validate_clocking(
                self.reference_hz,
                self.multiplier,
            ) {
                Ok(system_hz) => Some(
                    Ad9959::assemble(
                        self.bus,
                        self.mode,
                        self.reference_hz,
                        self.multiplier,
                        system_hz,
                    ),
                ),
                Err(_) => None,
            },
            _ => None,
        }
    }
}

/// A line that could not be driven fails the bring-up with `Pin`, in every stage in which a
/// line is driven and whatever went over the link.
pub proof fn lemma_line_fault_is_pin(stage: Stage, target: Target, events: Seq<Transfer>)
    requires
        stage.spec_pending() matches Some(action) && action.drives_line(),
    ensures
        next_stage(stage, false, target, events) == (Stage::Failed { error: Error::Pin }),
{
}

/// A channel select register that comes back otherwise than it was written fails the bring-up
/// with `Check`, and with no other error, where the link itself carried out all that was
/// asked of it. Nothing is asked of the link after the read.
pub proof fn lemma_read_back_fault_is_check(target: Target, line_ok: bool, events: Seq<Transfer>)
    requires
        carries_out(events, entry_script(Stage::ClockConfigured, target, events)),
        forall|i: int| 0 <= i < events.len() ==> (#[trigger] events[i]).ok,
        events.len() > 0 ==> events[0].data[0] != target.csr(),
    ensures
        events.len() == 1,
        next_stage(Stage::ModeSelected, line_ok, target, events) == (Stage::Failed {
            error: Error::Check,
        }),
{
    let script = entry_script(Stage::ClockConfigured, target, events);
    if events.len() == 0 {
        assert(script.len() >= 1);
    } else {
        assert(entry_verdict(Stage::ClockConfigured, target, events) == Err::<u32, Error>(
            Error::Check,
        ));
        assert(script.len() == 1);
        assert(events.last().ok);
    }
}

/// Where no line and no transfer fails, the channel select register comes back as written
/// and the clock configuration is supported, every stage leads to the one that follows it.
pub proof fn lemma_sound_step_reaches_successor(
    stage: Stage,
    target: Target,
    line_ok: bool,
    events: Seq<Transfer>,
)
    requires
        !(stage is Failed),
        line_ok,
        carries_out(events, entry_script(stage.spec_successor(), target, events)),
        forall|i: int| 0 <= i < events.len() ==> (#[trigger] events[i]).ok,
        entry_verdict(stage.spec_successor(), target, events) is Ok,
    ensures
        next_stage(stage, line_ok, target, events) == stage.spec_successor(),
{
    let script = entry_script(stage.spec_successor(), target, events);
    if events.len() < script.len() {
        assert(!events.last().ok);
        assert(events[events.len() - 1].ok);
    }
}

} // verus!
