//! The configuration of the program, as it is given on the command line.

use crate::text::text_eq;
use vstd::prelude::*;
use vstd::string::*;

verus! {

/// The brightness levels of the display.
#[derive(Debug, Clone, Copy, PartialEq, Eq, Structural)]
pub enum Brightness {
    /// The dimmest level.
    Dimmest,
    /// A dim level.
    Dim,
    /// A medium level.
    Normal,
    /// A bright level.
    Bright,
    /// The brightest level.
    Brightest,
}

/// The shortest delay between two samples of the processor, in ms.
pub const MIN_DELAY: u64 = 100;

/// The delay between two samples of the processor stays below this, in ms.
pub const MAX_DELAY: u64 = 20000;

/// The brightness level that a word names, if it names one.
pub open spec fn brightness_of(value: Seq<char>) -> Option<Brightness> {
    if value == "dimmest"@ {
        Some(Brightness::Dimmest)
    } else if value == "dim"@ {
        Some(Brightness::Dim)
    } else if value == "normal"@ {
        Some(Brightness::Normal)
    } else if value == "bright"@ {
        Some(Brightness::Bright)
    } else if value == "brightest"@ {
        Some(Brightness::Brightest)
    } else {
        None
    }
}

/// Reads a brightness level from its name: `dimmest`, `dim`, `normal`,
/// `bright` or `brightest`. Any other word is refused with the message
/// `invalid brightness level`.
pub fn parse_brightness(value: &str) -> (level: Result<Brightness, String>)
    ensures
        match brightness_of(value@) {
            Some(named) => level == Ok::<Brightness, String>(named),
            None => level matches Err(message) && message@ == "invalid brightness level"@,
        },
{
    if text_eq(value, "dimmest") {
        Ok(Brightness::Dimmest)
    } else if text_eq(value, "dim") {
        Ok(Brightness::Dim)
    } else if text_eq(value, "normal") {
        Ok(Brightness::Normal)
    } else if text_eq(value, "bright") {
        Ok(Brightness::Bright)
    } else if text_eq(value, "brightest") {
        Ok(Brightness::Brightest)
    } else {
        Err(String::from_str("invalid brightness level"))
    }
}

/// The configuration of the program.
#[derive(Debug, Clone, PartialEq, Eq)]
pub struct Args {
    /// Filesystem path to CPU thermal info.
    pub thermal: String,
    /// Network interface name (IPv4 field).
    pub interface: String,
    /// Cpu usage/temperature readings delay in ms (>=100).
    pub delay: u64,
    /// Time from one refresh of the display to the next, in ms.
    pub refresh: u64,
    /// Display brightness.
    pub brightness: Brightness,
}

impl Args {
    /// Whether the configuration is one that the program accepts: whether
    /// the delay is at least `MIN_DELAY` and below `MAX_DELAY`.
    pub open spec fn valid(self) -> bool {
        MIN_DELAY <= self.delay < MAX_DELAY
    }

    /// Puts a configuration together, if the delay is one that the
    /// program accepts.
    pub fn new(
        thermal: String,
        interface: String,
        delay: u64,
        refresh: u64,
        brightness: Brightness,
    ) -> (args: Option<Self>)
        ensures
            args is Some == (MIN_DELAY <= delay < MAX_DELAY),
            args matches Some(a) ==> a.valid() && a.thermal == thermal && a.interface == interface
                && a.delay == delay && a.refresh == refresh && a.brightness == brightness,
    {
        if MIN_DELAY <= delay && delay < MAX_DELAY {
            Some(Self { thermal, interface, delay, refresh, brightness })
        } else {
            None
        }
    }
}

impl Default for Args {
    /// The configuration that holds where the command line says nothing.
    fn default() -> (args: Self)
        ensures
            args.valid(),
            args.thermal@ == "/sys/class/thermal/thermal_zone0/temp"@,
            args.interface@ == "wlan0"@,
            args.delay == 2000,
            args.refresh == 1000,
            args.brightness == Brightness::Brightest,
    {
        Self {
            thermal: String::from_str("/sys/class/thermal/thermal_zone0/temp"),
            interface: String::from_str("wlan0"),
            delay: 2000,
            refresh: 1000,
            brightness: Brightness::Brightest,
        }
    }
}

} // verus!
