//! From the configured backend to a keying controller.
//!
//! The error separates "this cannot be honoured" from "the attempt failed": [`PttError::Config`]
//! is a mistake the operator must correct, everything else is a real backend that did not answer.

use vstd::prelude::*;

use crate::error::{PttError, PttFault};
use crate::serial::SerialPin;
use crate::text::{enclose, same_text};

verus! {

/// Everything the backends need, as plain strings.
#[derive(Debug, Clone, Default)]
pub struct PttSpec<'a> {
    /// `[modem] ptt_backend`.
    pub backend: &'a str,
    /// `[radio] rigctld_addr`, for the `rigctld` backend.
    pub rigctld_addr: &'a str,
    /// `[modem] ptt_device`: a `/dev/hidrawN` path for `cm108`, a serial port for `rts` and `dtr`, a
    /// `chip:line` spec for `gpio`.
    pub device: &'a str,
    /// `[modem] ptt_gpio`, the CM108 GPIO pin (1..=8).
    pub gpio_pin: u8,
}

/// What a [`PttSpec`] asks for.
pub ghost struct PttRequest {
    pub backend: Seq<char>,
    pub rigctld_addr: Seq<char>,
    pub device: Seq<char>,
    pub gpio_pin: u8,
}

impl<'a> View for PttSpec<'a> {
    type V = PttRequest;

    open spec fn view(&self) -> PttRequest {
        PttRequest {
            backend: self.backend@,
            rigctld_addr: self.rigctld_addr@,
            device: self.device@,
            gpio_pin: self.gpio_pin,
        }
    }
}

/// A backend to open, with what opening it takes.
#[derive(Debug)]
pub enum PttBackend {
    /// The rig keys itself on audio.
    Vox,
    /// A rigctld server at an address.
    Rigctld { addr: String },
    /// A CM108 sound chip's GPIO pin.
    Cm108 { device: String, gpio_pin: u8 },
    /// A GPIO line.
    Gpio { device: String },
    /// A control line of a serial port.
    Serial { device: String, pin: SerialPin },
}

/// What a [`PttBackend`] names.
pub ghost enum BackendChoice {
    Vox,
    Rigctld(Seq<char>),
    Cm108(Seq<char>, u8),
    Gpio(Seq<char>),
    Serial(Seq<char>, SerialPin),
}

impl View for PttBackend {
    type V = BackendChoice;

    open spec fn view(&self) -> BackendChoice {
        match self {
            PttBackend::Vox => BackendChoice::Vox,
            PttBackend::Rigctld { addr } => BackendChoice::Rigctld(addr@),
            PttBackend::Cm108 { device, gpio_pin } => BackendChoice::Cm108(device@, *gpio_pin),
            PttBackend::Gpio { device } => BackendChoice::Gpio(device@),
            PttBackend::Serial { device, pin } => BackendChoice::Serial(device@, *pin),
        }
    }
}

/// What `built` says, with the controllers and errors taken by what they name.
pub open spec fn built_view(built: Result<Option<PttBackend>, PttError>) -> Result<
    Option<BackendChoice>,
    PttFault,
> {
    match built {
        Ok(Some(backend)) => Ok(Some(backend@)),
        Ok(None) => Ok(None),
        Err(e) => Err(e@),
    }
}

impl PttRequest {
    /// Whether the operator asked for no keying at all.
    pub open spec fn wants_none(self) -> bool {
        self.backend == "none"@ || self.backend == ""@
    }

    /// The serial line that the backend's name stands for.
    pub open spec fn serial_pin(self) -> Option<SerialPin> {
        if self.backend == "rts"@ {
            Some(SerialPin::Rts)
        } else if self.backend == "dtr"@ {
            Some(SerialPin::Dtr)
        } else {
            None
        }
    }

    /// The backend to open, none, or the reason why the request cannot be honoured.
    pub open spec fn choice(self) -> Result<Option<BackendChoice>, PttFault> {
        if self.wants_none() {
            Ok(None)
        } else if self.backend == "vox"@ {
            Ok(Some(BackendChoice::Vox))
        } else if self.backend == "rigctld"@ {
            Ok(Some(BackendChoice::Rigctld(self.rigctld_addr)))
        } else if self.backend == "cm108"@ {
            Ok(Some(BackendChoice::Cm108(self.device, self.gpio_pin)))
        } else if self.backend == "gpio"@ {
            Ok(Some(BackendChoice::Gpio(self.device)))
        } else {
            match self.serial_pin() {
                Some(pin) => if self.device.len() == 0 {
                    Err(PttFault::Config(missing_device_text(self.backend)))
                } else {
                    Ok(Some(BackendChoice::Serial(self.device, pin)))
                },
                None => Err(PttFault::Config(unknown_backend_text(self.backend))),
            }
        }
    }
}

/// The complaint about a serial backend without a port.
pub open spec fn missing_device_text(backend: Seq<char>) -> Seq<char> {
    "the `"@ + backend
        + "` PTT backend requires [modem] ptt_device (the serial port path)"@
}

/// The complaint about a name that is no backend, which lists those that are.
pub open spec fn unknown_backend_text(backend: Seq<char>) -> Seq<char> {
    "unknown PTT backend `"@ + backend
        + "`; expected one of none, vox, rigctld, cm108, gpio, rts, dtr"@
}

/// Decides which keying controller the configuration asks for.
///
/// `Ok(None)` means, and only means, that the operator asked for no keying. A backend comes with
/// what opening it takes; the caller opens it. An error is always [`PttError::Config`].
pub fn build_ptt(spec: &PttSpec<'_>) -> (built: Result<Option<PttBackend>, PttError>)
    ensures
        built_view(built) == spec@.choice(),
{
    let name = spec.backend;
    if same_text(name, "none") || same_text(name, "") {
        Ok(None)
    } else if same_text(name, "vox") {
        Ok(Some(PttBackend::Vox))
    } else if same_text(name, "rigctld") {
        Ok(Some(PttBackend::Rigctld { addr: spec.rigctld_addr.to_owned() }))
    } else if same_text(name, "cm108") {
        Ok(
            Some(
                PttBackend::Cm108 { device: spec.device.to_owned(), gpio_pin: spec.gpio_pin },
            ),
        )
    } else if same_text(name, "gpio") {
        Ok(Some(PttBackend::Gpio { device: spec.device.to_owned() }))
    } else if same_text(name, "rts") || same_text(name, "dtr") {
        if spec.device.is_empty() {
            return Err(
                PttError::Config(
                    enclose(
                        "the `",
                        name,
                        "` PTT backend requires [modem] ptt_device (the serial port path)",
                    ),
                ),
            );
        }
        let pin = if same_text(name, "rts") {
            SerialPin::Rts
        } else {
            SerialPin::Dtr
        };
        Ok(Some(PttBackend::Serial { device: spec.device.to_owned(), pin }))
    } else {
        Err(
            PttError::Config(
                enclose(
                    "unknown PTT backend `",
                    name,
                    "`; expected one of none, vox, rigctld, cm108, gpio, rts, dtr",
                ),
            ),
        )
    }
}

/// A controller that drives nothing: every key and every release succeeds.
#[derive(Debug)]
pub struct NoOpPtt;

impl NoOpPtt {
    /// Succeeds, and keys nothing.
    pub fn assert_ptt(&mut self) -> (result: Result<(), PttError>)
        ensures
            result is Ok,
    {
        Ok(())
    }

    /// Succeeds: nothing was keyed.
    pub fn release_ptt(&mut self) -> (result: Result<(), PttError>)
        ensures
            result is Ok,
    {
        Ok(())
    }

    /// Never: this controller keys nothing.
    pub fn is_asserted(&self) -> (asserted: bool)
        ensures
            !asserted,
    {
        false
    }
}

/// A controller that never keys, for a caller that has decided to carry on without one.
///
/// It has a name so that the decision is visible where it is taken.
pub fn no_ptt() -> (controller: NoOpPtt)
    ensures
        controller == NoOpPtt,
{
    NoOpPtt
}

/// Only `none`, or nothing at all, means that no keying was asked for. Everything else is a
/// backend or an error.
pub proof fn only_none_means_no_ptt(request: PttRequest)
    ensures
        request.choice() == Ok::<Option<BackendChoice>, PttFault>(None) <==> request.wants_none(),
{
}

/// Whatever is refused before anything is opened is a configuration error.
pub proof fn a_refused_request_is_a_config_error(request: PttRequest)
    ensures
        request.choice() matches Err(fault) ==> fault is Config,
{
}

/// The names that are understood: each of them is either honoured or refused for a missing device,
/// and every other name is refused as unknown, with the list of those that are known.
pub proof fn every_documented_backend_is_recognised(request: PttRequest)
    ensures
        request.backend == "vox"@ ==> request.choice() == Ok::<Option<BackendChoice>, PttFault>(
            Some(BackendChoice::Vox),
        ),
        request.backend == "rigctld"@ ==> request.choice() == Ok::<
            Option<BackendChoice>,
            PttFault,
        >(Some(BackendChoice::Rigctld(request.rigctld_addr))),
        request.backend == "cm108"@ ==> request.choice() == Ok::<Option<BackendChoice>, PttFault>(
            Some(BackendChoice::Cm108(request.device, request.gpio_pin)),
        ),
        request.backend == "gpio"@ ==> request.choice() == Ok::<Option<BackendChoice>, PttFault>(
            Some(BackendChoice::Gpio(request.device)),
        ),
        request.backend == "rts"@ || request.backend == "dtr"@ ==> request.choice() == (
        if request.device.len() == 0 {
            Err::<Option<BackendChoice>, PttFault>(
                PttFault::Config(missing_device_text(request.backend)),
            )
        } else {
            Ok(
                Some(
                    BackendChoice::Serial(
                        request.device,
                        if request.backend == "rts"@ {
                            SerialPin::Rts
                        } else {
                            SerialPin::Dtr
                        },
                    ),
                ),
            )
        }),
        !request.wants_none() && request.backend != "vox"@ && request.backend != "rigctld"@
            && request.backend != "cm108"@ && request.backend != "gpio"@ && request.backend
            != "rts"@ && request.backend != "dtr"@ ==> request.choice() == Err::<
            Option<BackendChoice>,
            PttFault,
        >(PttFault::Config(unknown_backend_text(request.backend))),
{
    lemma_names_differ();
}

proof fn lemma_names_differ()
    ensures
        ""@.len() == 0,
        "none"@.len() == 4 && "none"@[0] == 'n',
        "vox"@.len() == 3 && "vox"@[0] == 'v',
        "rigctld"@.len() == 7,
        "cm108"@.len() == 5,
        "gpio"@.len() == 4 && "gpio"@[0] == 'g',
        "rts"@.len() == 3 && "rts"@[0] == 'r',
        "dtr"@.len() == 3 && "dtr"@[0] == 'd',
{
    reveal_strlit("");
    reveal_strlit("none");
    reveal_strlit("vox");
    reveal_strlit("rigctld");
    reveal_strlit("cm108");
    reveal_strlit("gpio");
    reveal_strlit("rts");
    reveal_strlit("dtr");
}

/// What is refused says why: the complaint names the backend as it was written. One about an unknown
/// name lists every name that is known.
pub proof fn a_complaint_names_the_backend(
    spec: PttSpec<'_>,
    built: Result<Option<PttBackend>, PttError>,
)
    requires
        call_ensures(build_ptt, (&spec,), built),
    ensures
        built matches Err(e) ==> e@ == PttFault::Config(
            if spec.backend@ == "rts"@ || spec.backend@ == "dtr"@ {
                "the `"@ + spec.backend@
                    + "` PTT backend requires [modem] ptt_device (the serial port path)"@
            } else {
                "unknown PTT backend `"@ + spec.backend@
                    + "`; expected one of none, vox, rigctld, cm108, gpio, rts, dtr"@
            },
        ),
        built is Err && (spec.backend@ == "rts"@ || spec.backend@ == "dtr"@)
            ==> spec.device@.len() == 0,
{
    lemma_names_differ();
}

/// The backend that is built is the one that was named, with what was configured for it. Nothing at
/// all is built exactly where that was asked for.
pub proof fn what_is_built_is_what_was_named(
    spec: PttSpec<'_>,
    built: Result<Option<PttBackend>, PttError>,
)
    requires
        call_ensures(build_ptt, (&spec,), built),
    ensures
        built matches Ok(None) <==> spec.backend@ == "none"@ || spec.backend@.len() == 0,
        built matches Ok(Some(PttBackend::Vox)) <==> spec.backend@ == "vox"@,
        built matches Ok(Some(PttBackend::Rigctld { .. })) <==> spec.backend@ == "rigctld"@,
        built matches Ok(Some(PttBackend::Rigctld { addr })) ==> addr@ == spec.rigctld_addr@,
        built matches Ok(Some(PttBackend::Cm108 { .. })) <==> spec.backend@ == "cm108"@,
        built matches Ok(Some(PttBackend::Cm108 { device, gpio_pin })) ==> device@ == spec.device@
            && gpio_pin == spec.gpio_pin,
        built matches Ok(Some(PttBackend::Gpio { .. })) <==> spec.backend@ == "gpio"@,
        built matches Ok(Some(PttBackend::Gpio { device })) ==> device@ == spec.device@,
        built matches Ok(Some(PttBackend::Serial { .. })) <==> (spec.backend@ == "rts"@
            || spec.backend@ == "dtr"@) && spec.device@.len() > 0,
        built matches Ok(Some(PttBackend::Serial { device, pin })) ==> device@ == spec.device@ && (
        pin is Rts <==> spec.backend@ == "rts"@),
{
    lemma_names_differ();
    assert(spec.backend@.len() == 0 ==> spec.backend@ =~= ""@);
}

} // verus!
