//! The configuration of the repeater.

use vstd::prelude::*;

verus! {

/// Configuration of the cross-band repeater.
#[derive(Debug, Clone)]
pub struct RepeaterConfig {
    /// Whether the repeater does anything: neither a relay nor a session acts when this is `false`.
    pub enabled: bool,
    /// Modulation mode used for both directions (e.g. `"BPSK250"`).
    pub mode: String,
    /// Milliseconds to hold the key after the last transmission (half duplex only).
    pub tx_hang_ms: u64,
    /// Whether the key is held across relayed frames rather than dropped between them. It is taken
    /// on the first frame, re-stamped by each later one, and taken away by the watchdog after its
    /// bound of silence; `tx_hang_ms` is ignored. It is not held from the start of a session.
    pub full_duplex: bool,
    /// Callsign transmitted to identify the transmitting rig. A blank one disables identification.
    pub callsign: String,
    /// Seconds between identifications. `0` disables identification.
    pub id_interval_secs: u64,
    /// Whether the output band is sensed before the transmitter is keyed on it.
    pub carrier_sense: bool,
}

/// What a [`RepeaterConfig`] says.
pub ghost struct Settings {
    pub enabled: bool,
    pub mode: Seq<char>,
    pub tx_hang_ms: u64,
    pub full_duplex: bool,
    pub callsign: Seq<char>,
    pub id_interval_secs: u64,
    pub carrier_sense: bool,
}

impl View for RepeaterConfig {
    type V = Settings;

    open spec fn view(&self) -> Settings {
        Settings {
            enabled: self.enabled,
            mode: self.mode@,
            tx_hang_ms: self.tx_hang_ms,
            full_duplex: self.full_duplex,
            callsign: self.callsign@,
            id_interval_secs: self.id_interval_secs,
            carrier_sense: self.carrier_sense,
        }
    }
}

impl Default for RepeaterConfig {
    fn default() -> (config: Self)
        ensures
            config@ == (Settings {
                enabled: true,
                mode: "BPSK250"@,
                tx_hang_ms: 0,
                full_duplex: false,
                callsign: Seq::empty(),
                id_interval_secs: 600,
                carrier_sense: true,
            }),
    {
        RepeaterConfig {
            enabled: true,
            mode: "BPSK250".to_owned(),
            tx_hang_ms: 0,
            full_duplex: false,
            callsign: String::new(),
            id_interval_secs: 600,
            carrier_sense: true,
        }
    }
}

/// Whether a character has the Unicode property `White_Space`.
pub open spec fn is_white_space(c: char) -> bool {
    let code = c as u32;
    ||| 0x0009 <= code <= 0x000D
    ||| code == 0x0020
    ||| code == 0x0085
    ||| code == 0x00A0
    ||| code == 0x1680
    ||| 0x2000 <= code <= 0x200A
    ||| code == 0x2028
    ||| code == 0x2029
    ||| code == 0x202F
    ||| code == 0x205F
    ||| code == 0x3000
}

/// Whether nothing is left of a text without the white space at its ends: it is empty, or all of it
/// is white space.
pub open spec fn is_blank(text: Seq<char>) -> bool {
    forall|i: int| 0 <= i < text.len() ==> is_white_space(#[trigger] text[i])
}

fn white_space(c: char) -> (white: bool)
    ensures
        white == is_white_space(c),
{
    let code: u32 = c as u32;
    (0x0009 <= code && code <= 0x000D) || code == 0x0020 || code == 0x0085 || code == 0x00A0
        || code == 0x1680 || (0x2000 <= code && code <= 0x200A) || code == 0x2028 || code == 0x2029
        || code == 0x202F || code == 0x205F || code == 0x3000
}

fn blank(text: &str) -> (blank: bool)
    ensures
        blank == is_blank(text@),
{
    let len: usize = text.unicode_len();
    for i in 0..len
        invariant
            len == text@.len(),
            forall|j: int| 0 <= j < i ==> is_white_space(#[trigger] text@[j]),
    {
        if !white_space(text.get_char(i)) {
            return false;
        }
    }
    true
}

/// The milliseconds between identifications, or none where the station does not identify itself:
/// with a blank callsign, or with an interval of zero.
pub open spec fn id_interval_spec(callsign: Seq<char>, id_interval_secs: u64) -> Option<u64> {
    if is_blank(callsign) || id_interval_secs == 0 {
        None
    } else if id_interval_secs * 1000 <= u64::MAX {
        Some((id_interval_secs * 1000) as u64)
    } else {
        Some(u64::MAX)
    }
}

impl RepeaterConfig {
    /// The milliseconds between identifications of the transmitting rig, or none where it does not
    /// identify itself: with a blank callsign, or with an interval of zero.
    pub fn id_interval_ms(&self) -> (interval_ms: Option<u64>)
        ensures
            interval_ms == id_interval_spec(self@.callsign, self@.id_interval_secs),
    {
        if blank(self.callsign.as_str()) || self.id_interval_secs == 0 {
            None
        } else if self.id_interval_secs <= u64::MAX / 1000 {
            Some(self.id_interval_secs * 1000)
        } else {
            Some(u64::MAX)
        }
    }
}

/// A station identifies itself where its callsign has a character that is not white space and the
/// interval is not zero, and then every so many seconds: the interval in milliseconds is a thousand
/// times that, as far as it can be told. Otherwise it does not.
pub proof fn a_station_identifies_itself_as_configured(
    config: RepeaterConfig,
    interval_ms: Option<u64>,
)
    requires
        call_ensures(RepeaterConfig::id_interval_ms, (&config,), interval_ms),
    ensures
        interval_ms is Some <==> config.id_interval_secs > 0 && exists|i: int|
            0 <= i < config.callsign@.len() && !is_white_space(#[trigger] config.callsign@[i]),
        interval_ms matches Some(ms) ==> ms == if config.id_interval_secs * 1000 <= u64::MAX {
            config.id_interval_secs * 1000
        } else {
            u64::MAX as int
        },
{
}

/// The characters that are white space, one by one. No letter, digit or sign is among them.
pub proof fn white_space_is_just_this(c: char)
    ensures
        is_white_space(c) <==> seq![
            0x09u32,
            0x0A,
            0x0B,
            0x0C,
            0x0D,
            0x20,
            0x85,
            0xA0,
            0x1680,
            0x2000,
            0x2001,
            0x2002,
            0x2003,
            0x2004,
            0x2005,
            0x2006,
            0x2007,
            0x2008,
            0x2009,
            0x200A,
            0x2028,
            0x2029,
            0x202F,
            0x205F,
            0x3000,
        ].contains(c as u32),
        '!' <= c <= '~' ==> !is_white_space(c),
{
    let all = seq![
        0x09u32,
        0x0A,
        0x0B,
        0x0C,
        0x0D,
        0x20,
        0x85,
        0xA0,
        0x1680,
        0x2000,
        0x2001,
        0x2002,
        0x2003,
        0x2004,
        0x2005,
        0x2006,
        0x2007,
        0x2008,
        0x2009,
        0x200A,
        0x2028,
        0x2029,
        0x202F,
        0x205F,
        0x3000,
    ];
    let code = c as u32;
    if is_white_space(c) {
        let i: int = if code <= 0x0D {
            code - 0x09
        } else if code == 0x20 {
            5
        } else if code == 0x85 {
            6
        } else if code == 0xA0 {
            7
        } else if code == 0x1680 {
            8
        } else if code <= 0x200A {
            code - 0x2000 + 9
        } else if code == 0x2028 {
            20
        } else if code == 0x2029 {
            21
        } else if code == 0x202F {
            22
        } else if code == 0x205F {
            23
        } else {
            24int
        };
        assert(all[i] == code);
    }
}

/// What a configuration says is what was written into it, and a configuration that was not written
/// is enabled, half duplex, without a hang and without a callsign, and senses before it keys.
pub proof fn settings_say_what_is_configured(config: RepeaterConfig, unwritten: RepeaterConfig)
    requires
        call_ensures(RepeaterConfig::default, (), unwritten),
    ensures
        config@.enabled == config.enabled,
        config@.mode == config.mode@,
        config@.tx_hang_ms == config.tx_hang_ms,
        config@.full_duplex == config.full_duplex,
        config@.callsign == config.callsign@,
        config@.id_interval_secs == config.id_interval_secs,
        config@.carrier_sense == config.carrier_sense,
        unwritten.enabled,
        unwritten.carrier_sense,
        !unwritten.full_duplex,
        unwritten.tx_hang_ms == 0,
        unwritten.callsign@.len() == 0,
        unwritten.id_interval_secs == 600,
        unwritten.mode@ == "BPSK250"@,
{
}

} // verus!
