//! The errors of keying and of rig control.

use vstd::prelude::*;

use crate::text::join;

verus! {

/// Why a transmitter could not be keyed or released.
#[derive(Debug)]
pub enum PttError {
    /// The serial port could not be opened or driven.
    Serial(String),
    /// The rigctld backend is not reachable, or refused.
    Rigctld(String),
    /// An operating-system error, by its message.
    Io(String),
    /// The configured backend cannot be honoured at all: an unknown name, a part that is not
    /// compiled in, or a missing device path.
    ///
    /// The other variants mean that the backend is real and the attempt failed, which may just be a
    /// rig that is not powered up yet. A caller must keep the two apart: this one is a mistake the
    /// operator has to correct.
    Config(String),
    /// Somebody else holds a live key.
    ///
    /// Transient and expected, unlike every other variant: the transmitter works and is busy.
    /// `held_by` is for diagnosis only.
    AlreadyKeyed { held_by: &'static str },
}

/// What a [`PttError`] says.
pub ghost enum PttFault {
    Serial(Seq<char>),
    Rigctld(Seq<char>),
    Io(Seq<char>),
    Config(Seq<char>),
    AlreadyKeyed(Seq<char>),
}

impl View for PttError {
    type V = PttFault;

    open spec fn view(&self) -> PttFault {
        match self {
            PttError::Serial(m) => PttFault::Serial(m@),
            PttError::Rigctld(m) => PttFault::Rigctld(m@),
            PttError::Io(m) => PttFault::Io(m@),
            PttError::Config(m) => PttFault::Config(m@),
            PttError::AlreadyKeyed { held_by } => PttFault::AlreadyKeyed(held_by@),
        }
    }
}

impl PttFault {
    /// The text shown to an operator.
    pub open spec fn text(self) -> Seq<char> {
        match self {
            PttFault::Serial(m) => "serial port error: "@ + m,
            PttFault::Rigctld(m) => "rigctld connection error: "@ + m,
            PttFault::Io(m) => "io error: "@ + m,
            PttFault::Config(m) => "PTT configuration error: "@ + m,
            PttFault::AlreadyKeyed(held_by) => "PTT already keyed by "@ + held_by,
        }
    }
}

impl PttError {
    /// The text shown to an operator.
    pub fn to_string(&self) -> (text: String)
        ensures
            text@ == self@.text(),
    {
        match self {
            PttError::Serial(m) => join("serial port error: ", m.as_str()),
            PttError::Rigctld(m) => join("rigctld connection error: ", m.as_str()),
            PttError::Io(m) => join("io error: ", m.as_str()),
            PttError::Config(m) => join("PTT configuration error: ", m.as_str()),
            PttError::AlreadyKeyed { held_by } => join("PTT already keyed by ", held_by),
        }
    }
}

/// Why a full rig control operation failed.
#[derive(Debug)]
pub enum RadioError {
    /// An operating-system error while talking to rigctld, by its message.
    RigctldIo(String),
    /// rigctld answered something that is not its protocol.
    RigctldProtocol(String),
    /// An answer could not be read.
    Parse(String),
    /// The rig definition does not name the requested operation.
    Unsupported(&'static str),
    /// A generic serial control error: I/O, protocol, or template expansion.
    GenericCat(String),
}

impl RadioError {
    /// The text shown to an operator.
    pub open spec fn text(self) -> Seq<char> {
        match self {
            RadioError::RigctldIo(m) => "rigctld I/O error: "@ + m@,
            RadioError::RigctldProtocol(m) => "rigctld protocol error: "@ + m@,
            RadioError::Parse(m) => "parse error: "@ + m@,
            RadioError::Unsupported(m) => "operation not supported by this rig: "@ + m@,
            RadioError::GenericCat(m) => "generic CAT error: "@ + m@,
        }
    }

    /// The text shown to an operator.
    pub fn to_string(&self) -> (text: String)
        ensures
            text@ == self.text(),
    {
        match self {
            RadioError::RigctldIo(m) => join("rigctld I/O error: ", m.as_str()),
            RadioError::RigctldProtocol(m) => join("rigctld protocol error: ", m.as_str()),
            RadioError::Parse(m) => join("parse error: ", m.as_str()),
            RadioError::Unsupported(m) => join("operation not supported by this rig: ", m),
            RadioError::GenericCat(m) => join("generic CAT error: ", m.as_str()),
        }
    }
}

/// Why a relay or a session ended without doing its work.
#[derive(Debug)]
pub enum RepeaterError {
    /// The modem failed, or the output band could not be sensed.
    Modem(String),
    /// The transmitter could not be keyed.
    Ptt(PttError),
}

/// What a [`RepeaterError`] says.
pub ghost enum RelayFault {
    Modem(Seq<char>),
    Ptt(PttFault),
}

impl View for RepeaterError {
    type V = RelayFault;

    open spec fn view(&self) -> RelayFault {
        match self {
            RepeaterError::Modem(m) => RelayFault::Modem(m@),
            RepeaterError::Ptt(e) => RelayFault::Ptt(e@),
        }
    }
}

impl RelayFault {
    /// The text shown to an operator.
    pub open spec fn text(self) -> Seq<char> {
        match self {
            RelayFault::Modem(m) => "modem error: "@ + m,
            RelayFault::Ptt(fault) => "PTT error: "@ + fault.text(),
        }
    }
}

impl RepeaterError {
    /// The text shown to an operator.
    pub fn to_string(&self) -> (text: String)
        ensures
            text@ == self@.text(),
    {
        match self {
            RepeaterError::Modem(m) => join("modem error: ", m.as_str()),
            RepeaterError::Ptt(e) => join("PTT error: ", e.to_string().as_str()),
        }
    }
}

impl From<PttError> for RepeaterError {
    fn from(e: PttError) -> (error: Self) {
        RepeaterError::Ptt(e)
    }
}

impl vstd::std_specs::convert::FromSpecImpl<PttError> for RepeaterError {
    open spec fn obeys_from_spec() -> bool {
        true
    }

    open spec fn from_spec(e: PttError) -> RepeaterError {
        RepeaterError::Ptt(e)
    }
}

/// An operator is shown the whole message, after what kind of error it is.
pub proof fn a_ptt_error_shows_its_message(e: PttError, text: String)
    requires
        call_ensures(PttError::to_string, (&e,), text),
    ensures
        text@ == match e {
            PttError::Serial(m) => "serial port error: "@ + m@,
            PttError::Rigctld(m) => "rigctld connection error: "@ + m@,
            PttError::Io(m) => "io error: "@ + m@,
            PttError::Config(m) => "PTT configuration error: "@ + m@,
            PttError::AlreadyKeyed { held_by } => "PTT already keyed by "@ + held_by@,
        },
{
}

/// An operator is shown the whole message, after what kind of error it is.
pub proof fn a_radio_error_shows_its_message(e: RadioError, text: String)
    requires
        call_ensures(RadioError::to_string, (&e,), text),
    ensures
        text@ == match e {
            RadioError::RigctldIo(m) => "rigctld I/O error: "@ + m@,
            RadioError::RigctldProtocol(m) => "rigctld protocol error: "@ + m@,
            RadioError::Parse(m) => "parse error: "@ + m@,
            RadioError::Unsupported(m) => "operation not supported by this rig: "@ + m@,
            RadioError::GenericCat(m) => "generic CAT error: "@ + m@,
        },
{
}

/// A repeater's error shows the modem's message, or all that the keying error shows, and a keying
/// error becomes a repeater's error without being changed.
pub proof fn a_repeater_error_shows_its_cause(
    e: RepeaterError,
    text: String,
    cause: PttError,
    cause_text: String,
)
    requires
        call_ensures(RepeaterError::to_string, (&e,), text),
        call_ensures(PttError::to_string, (&cause,), cause_text),
    ensures
        e matches RepeaterError::Modem(m) ==> text@ == "modem error: "@ + m@,
        e == RepeaterError::Ptt(cause) ==> text@ == "PTT error: "@ + cause_text@,
        e == RepeaterError::Ptt(cause) ==> e@ == RelayFault::Ptt(cause@),
{
}

/// An error is known by its kind and by its whole message: two that are told apart by either are
/// different faults.
pub proof fn a_fault_is_its_kind_and_message(e: PttError)
    ensures
        match e {
            PttError::Serial(m) => e@ == PttFault::Serial(m@),
            PttError::Rigctld(m) => e@ == PttFault::Rigctld(m@),
            PttError::Io(m) => e@ == PttFault::Io(m@),
            PttError::Config(m) => e@ == PttFault::Config(m@),
            PttError::AlreadyKeyed { held_by } => e@ == PttFault::AlreadyKeyed(held_by@),
        },
{
}

} // verus!
