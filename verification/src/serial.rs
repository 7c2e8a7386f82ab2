//! Keying over a serial control line.

use vstd::prelude::*;

use crate::error::{PttError, PttFault};

verus! {

/// The line speed a keying port is opened with.
pub const SERIAL_BAUD: u32 = 9600;

/// Which serial control line drives the transmitter.
#[derive(Debug, Clone, Copy, PartialEq, Eq, Structural)]
pub enum SerialPin {
    /// Request To Send.
    Rts,
    /// Data Terminal Ready.
    Dtr,
}

/// How an attempt to open a serial port at [`SERIAL_BAUD`] ended.
#[derive(Debug)]
pub enum PortAttempt {
    /// The port is open.
    Opened,
    /// The port could not be opened, with the reason.
    Failed(String),
    /// This program was built without serial ports.
    NotCompiledIn,
}

/// A level to put on a control line.
#[derive(Debug, Clone, Copy, PartialEq, Eq, Structural)]
pub struct LineWrite {
    pub pin: SerialPin,
    pub level: bool,
}

/// The serial keying controller: which line it drives, and whether the line was last driven high.
///
/// The port itself stays with the caller, which writes the line asked for and reports how the write
/// went.
#[derive(Debug)]
pub struct SerialRtsDtrPtt {
    pin: SerialPin,
    asserted: bool,
}

impl SerialRtsDtrPtt {
    /// The line that drives the transmitter.
    pub closed spec fn pin(self) -> SerialPin {
        self.pin
    }

    /// Whether the line was last driven high.
    pub closed spec fn asserted(self) -> bool {
        self.asserted
    }

    /// A released controller on a port that is open, or the reason why there is none.
    pub fn open(pin: SerialPin, attempt: PortAttempt) -> (opened: Result<Self, PttError>)
        ensures
            match attempt {
                PortAttempt::Opened => opened matches Ok(c) && c.pin() == pin && !c.asserted(),
                PortAttempt::Failed(reason) => opened matches Err(e) && e@ == PttFault::Serial(
                    reason@,
                ),
                PortAttempt::NotCompiledIn => opened matches Err(e) && e@ == PttFault::Config(
                    "serial PTT not compiled in; rebuild with --features serial"@,
                ),
            },
    {
        match attempt {
            PortAttempt::Opened => Ok(SerialRtsDtrPtt { pin, asserted: false }),
            PortAttempt::Failed(reason) => Err(PttError::Serial(reason)),
            PortAttempt::NotCompiledIn => Err(
                PttError::Config(
                    "serial PTT not compiled in; rebuild with --features serial".to_owned(),
                ),
            ),
        }
    }

    /// The write that keys the transmitter.
    pub fn assert_write(&self) -> (write: LineWrite)
        ensures
            write == (LineWrite { pin: self.pin(), level: true }),
    {
        LineWrite { pin: self.pin, level: true }
    }

    /// The write that releases the transmitter.
    pub fn release_write(&self) -> (write: LineWrite)
        ensures
            write == (LineWrite { pin: self.pin(), level: false }),
    {
        LineWrite { pin: self.pin, level: false }
    }

    /// Records how the write of [`Self::assert_write`] went. A failed write leaves the controller
    /// as it was.
    pub fn assert_ptt(&mut self, written: Result<(), String>) -> (result: Result<(), PttError>)
        ensures
            final(self).pin() == old(self).pin(),
            match written {
                Ok(_) => result is Ok && final(self).asserted(),
                Err(reason) => {
                    &&& result matches Err(e) && e@ == PttFault::Serial(reason@)
                    &&& final(self).asserted() == old(self).asserted()
                },
            },
    {
        self.record(true, written)
    }

    /// Records how the write of [`Self::release_write`] went. A failed write leaves the controller
    /// as it was.
    pub fn release_ptt(&mut self, written: Result<(), String>) -> (result: Result<(), PttError>)
        ensures
            final(self).pin() == old(self).pin(),
            match written {
                Ok(_) => result is Ok && !final(self).asserted(),
                Err(reason) => {
                    &&& result matches Err(e) && e@ == PttFault::Serial(reason@)
                    &&& final(self).asserted() == old(self).asserted()
                },
            },
    {
        self.record(false, written)
    }

    fn record(&mut self, level: bool, written: Result<(), String>) -> (result: Result<
        (),
        PttError,
    >)
        ensures
            final(self).pin() == old(self).pin(),
            match written {
                Ok(_) => result is Ok && final(self).asserted() == level,
                Err(reason) => {
                    &&& result matches Err(e) && e@ == PttFault::Serial(reason@)
                    &&& final(self).asserted() == old(self).asserted()
                },
            },
    {
        match written {
            Ok(_) => {
                self.asserted = level;
                Ok(())
            },
            Err(reason) => Err(PttError::Serial(reason)),
        }
    }

    /// Whether the line was last driven high.
    pub fn is_asserted(&self) -> (asserted: bool)
        ensures
            asserted == self.asserted(),
    {
        self.asserted
    }
}

/// A controller drives the line that it was opened for, high to key and low to release, and no other.
/// It is released when it is opened. Without an open port there is none, and the reason is told.
pub proof fn a_controller_drives_its_own_line(
    pin: SerialPin,
    attempt: PortAttempt,
    opened: Result<SerialRtsDtrPtt, PttError>,
    keying: LineWrite,
    releasing: LineWrite,
    asserted: bool,
)
    requires
        call_ensures(SerialRtsDtrPtt::open, (pin, attempt), opened),
        opened matches Ok(c) ==> call_ensures(SerialRtsDtrPtt::assert_write, (&c,), keying)
            && call_ensures(SerialRtsDtrPtt::release_write, (&c,), releasing) && call_ensures(
            SerialRtsDtrPtt::is_asserted,
            (&c,),
            asserted,
        ),
    ensures
        opened is Ok <==> attempt is Opened,
        opened is Ok ==> keying.pin == pin && keying.level && releasing.pin == pin
            && !releasing.level && !asserted,
        attempt matches PortAttempt::Failed(reason) ==> (opened matches Err(e) && e@
            == PttFault::Serial(reason@)),
        attempt is NotCompiledIn ==> (opened matches Err(e) && e@ is Config),
{
}

} // verus!
