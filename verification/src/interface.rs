//! What the driver needs of the link to the device, and the record of what it asked of it.

use crate::registers::{Error, Mode, Register};
use vstd::prelude::*;

verus! {

/// A link to the device. The driver asks nothing of an implementation but that it carries out
/// what is asked or reports that it could not.
pub trait Interface {
    /// What the link reports when it fails.
    type Error;

    /// Takes up the given communication mode for the transfers that follow.
    fn configure_mode(&mut self, mode: Mode) -> Result<(), Self::Error>;

    /// Writes `data` to the register at `addr`.
    fn write(&mut self, addr: u8, data: &[u8]) -> Result<(), Self::Error>;

    /// Reads the register at `addr` into `dest`.
    fn read(&mut self, addr: u8, dest: &mut [u8]) -> Result<(), Self::Error>;
}

/// What can be asked of a link.
pub enum Request {
    /// To take up a communication mode.
    Configure { mode: Mode },
    /// To write `data` to the register at `addr`.
    Write { addr: u8, data: Seq<u8> },
    /// To read `len` bytes from the register at `addr`.
    Read { addr: u8, len: nat },
}

/// One request made of a link, with its outcome: whether the link carried it out, and what a
/// read left in the buffer.
pub struct Transfer {
    pub request: Request,
    pub ok: bool,
    pub data: Seq<u8>,
}

/// Whether `events` is what comes of making the requests of `script` in order and stopping at
/// the first that fails: each event belongs to the request at its place, every event but the
/// last succeeded, and where requests are left over the last event failed.
pub open spec fn carries_out(events: Seq<Transfer>, script: Seq<Request>) -> bool {
    &&& events.len() <= script.len()
    &&& forall|i: int| 0 <= i < events.len() ==> (#[trigger] events[i]).request == script[i]
    &&& forall|i: int| 0 <= i < events.len() - 1 ==> (#[trigger] events[i]).ok
    &&& events.len() < script.len() ==> events.len() > 0 && !events.last().ok
}

/// Whether `events`, which carry out `script`, reach its end with no request failed.
pub open spec fn completes(events: Seq<Transfer>, script: Seq<Request>) -> bool {
    &&& events.len() == script.len()
    &&& events.len() > 0 ==> events.last().ok
}

/// A link together with the record of every request that was made of it through this bus,
/// oldest first. The record is ghost: it exists for the contracts only.
pub struct Bus<I: Interface> {
    interface: I,
    trace: Ghost<Seq<Transfer>>,
}

impl<I: Interface> Bus<I> {
    /// The requests made so far, oldest first.
    pub closed spec fn trace(&self) -> Seq<Transfer> {
        self.trace@
    }

    /// A bus over `interface`, of which nothing has been asked yet.
    pub fn new(interface: I) -> (bus: Bus<I>)
        ensures
            bus.trace() == Seq::<Transfer>::empty(),
    {
        Bus { interface, trace: Ghost(Seq::empty()) }
    }

    /// The link itself.
    pub closed spec fn link(&self) -> I {
        self.interface
    }

    /// Gives the link back.
    pub fn release(self) -> (link: I)
        ensures
            link == self.link(),
    {
        self.interface
    }

    /// Asks the link to take up `mode`.
    pub fn configure(&mut self, mode: Mode) -> (r: Result<(), Error>)
        ensures
            final(self).trace() == old(self).trace().push(
                Transfer { request: Request::Configure { mode }, ok: r is Ok, data: Seq::empty() },
            ),
            r is Ok ==> r == Ok::<(), Error>(()),
            r is Err ==> r == Err::<(), Error>(Error::Interface),
    {
        let outcome = self.interface.configure_mode(mode);
        let ok = outcome.is_ok();
        proof {
            self.trace@ = self.trace@.push(
                Transfer { request: Request::Configure { mode }, ok, data: Seq::empty() },
            );
        }
        if ok {
            Ok(())
        } else {
            Err(Error::Interface)
        }
    }

    /// Asks the link to write `data`, which is as long as `register` is wide, to `register`.
    pub fn write(&mut self, register: Register, data: &[u8]) -> (r: Result<(), Error>)
        requires
            data@.len() == register.spec_width(),
        ensures
            final(self).trace() == old(self).trace().push(
                Transfer {
                    request: Request::Write { addr: register.spec_addr(), data: data@ },
                    ok: r is Ok,
                    data: Seq::empty(),
                },
            ),
            r is Ok ==> r == Ok::<(), Error>(()),
            r is Err ==> r == Err::<(), Error>(Error::Interface),
    {
        let outcome = self.interface.write(register.addr(), data);
        let ok = outcome.is_ok();
        proof {
            self.trace@ = self.trace@.push(
                Transfer {
                    request: Request::Write { addr: register.spec_addr(), data: data@ },
                    ok,
                    data: Seq::empty(),
                },
            );
        }
        if ok {
            Ok(())
        } else {
            Err(Error::Interface)
        }
    }

    /// Asks the link to read `register` into `dest`, which is as long as `register` is wide.
    pub fn read(&mut self, register: Register, dest: &mut [u8]) -> (r: Result<(), Error>)
        requires
            old(dest)@.len() == register.spec_width(),
        ensures
            final(self).trace() == old(self).trace().push(
                Transfer {
                    request: Request::Read { addr: register.spec_addr(), len: old(dest)@.len() },
                    ok: r is Ok,
                    data: final(dest)@,
                },
            ),
            r is Ok ==> r == Ok::<(), Error>(()),
            r is Err ==> r == Err::<(), Error>(Error::Interface),
    {
        let ghost len = dest@.len();
        let outcome = self.interface.read(register.addr(), dest);
        let ok = outcome.is_ok();
        proof {
            self.trace@ = self.trace@.push(
                Transfer {
                    request: Request::Read { addr: register.spec_addr(), len },
                    ok,
                    data: dest@,
                },
            );
        }
        if ok {
            Ok(())
        } else {
            Err(Error::Interface)
        }
    }
}

} // verus!
