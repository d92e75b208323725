//! Processor load and temperature, from the kernel's cumulative counters
//! and from the text of a thermal zone.

use crate::error::ErrorKind;
use crate::tenths::{
    lemma_rounded_share_is_bounded, round_div, rounded_quotient, tenths_text, Tenths,
};
use crate::text::{
    all_digits, all_digits_in, chars_of, digits_value, drop_spaces, find_char, fraction_digits,
    is_decimal_text, is_digit, parse_digits, skip_spaces, trim, unsigned_part, whole_digits,
};
use vstd::arithmetic::div_mod::lemma_fundamental_div_mod_converse;
use vstd::prelude::*;
use vstd::string::*;

verus! {

/// The cumulative time that the processors spent in each mode since boot,
/// in ticks. A counter that the kernel does not report is `None`.
#[derive(Debug, Clone, Copy, PartialEq, Eq)]
pub struct CpuTimes {
    /// Time spent in user mode.
    pub user: u64,
    /// Time spent in user mode with low priority.
    pub nice: u64,
    /// Time spent in system mode.
    pub system: u64,
    /// Time spent in the idle task.
    pub idle: u64,
    /// Time spent waiting for I/O to complete.
    pub iowait: Option<u64>,
    /// Time spent servicing interrupts.
    pub irq: Option<u64>,
    /// Time spent servicing soft interrupts.
    pub softirq: Option<u64>,
}

/// A counter as a number: zero where the kernel does not report it.
pub open spec fn counter(c: Option<u64>) -> nat {
    match c {
        Some(ticks) => ticks as nat,
        None => 0,
    }
}

impl CpuTimes {
    /// The time spent in all modes together.
    pub open spec fn total(self) -> nat {
        self.user as nat + self.nice as nat + self.system as nat + self.idle as nat + counter(
            self.iowait,
        ) + counter(self.irq) + counter(self.softirq)
    }
}

/// The share of the time between two samples of the counters that was not
/// spent idle, in tenths of a percent.
///
/// The share is zero where no time has passed, which is so for the sample
/// that sets the baseline. An idle time that ran backwards counts as no
/// idle time, and one that outran the total counts as the total.
pub open spec fn usage_between(
    idle_then: nat,
    total_then: nat,
    idle_now: nat,
    total_now: nat,
) -> nat {
    if total_now <= total_then {
        0
    } else {
        let elapsed = (total_now - total_then) as nat;
        let idle: nat = if idle_now <= idle_then {
            0
        } else if idle_now - idle_then >= elapsed {
            elapsed
        } else {
            (idle_now - idle_then) as nat
        };
        rounded_quotient(1000 * ((elapsed - idle) as nat), elapsed)
    }
}

/// Ten to the power of `k`.
pub open spec fn pow10(k: nat) -> nat
    decreases k,
{
    if k == 0 {
        1
    } else {
        10 * pow10((k - 1) as nat)
    }
}

/// Whether the number that a thermal zone holds is written with a minus
/// sign.
pub open spec fn thermal_is_negative(content: Seq<char>) -> bool {
    trim(content).len() > 0 && trim(content)[0] == '-'
}

/// The whole part of the number that a thermal zone holds, without its
/// sign.
pub open spec fn thermal_whole(content: Seq<char>) -> nat {
    digits_value(whole_digits(unsigned_part(trim(content))))
}

/// Whether the text of a thermal zone holds a temperature: white space
/// aside, a number of millidegrees in plain decimal notation, whose whole
/// part fits into 64 bits.
pub open spec fn is_thermal_text(content: Seq<char>) -> bool {
    &&& is_decimal_text(trim(content))
    &&& thermal_whole(content) <= if thermal_is_negative(content) {
        0x8000_0000_0000_0000nat
    } else {
        0x7fff_ffff_ffff_ffffnat
    }
}

/// The temperature that the text of a thermal zone holds, in tenths of a
/// degree: the number of millidegrees over a hundred, rounded to the
/// nearest tenth, a half going away from zero. The digits after the point
/// count.
pub open spec fn thermal_tenths(content: Seq<char>) -> int {
    let fraction = fraction_digits(unsigned_part(trim(content)));
    let scale = pow10(fraction.len());
    let magnitude = rounded_quotient(
        thermal_whole(content) * scale + digits_value(fraction),
        100 * scale,
    );
    if thermal_is_negative(content) {
        -(magnitude as int)
    } else {
        magnitude as int
    }
}

/// A run of `k` digits denotes a number below ten to the power of `k`.
pub proof fn lemma_digits_value_is_bounded(s: Seq<char>)
    requires
        all_digits(s),
    ensures
        digits_value(s) < pow10(s.len()),
    decreases s.len(),
{
    if s.len() > 0 {
        assert forall|i: int| 0 <= i < s.drop_last().len() implies is_digit(
            #[trigger] s.drop_last()[i],
        ) by {
            assert(s.drop_last()[i] == s[i]);
        }
        lemma_digits_value_is_bounded(s.drop_last());
        assert(is_digit(s.last()));
    }
}

/// What stands after the point cannot change the tenth that a number of
/// millidegrees is rounded to: the whole part decides.
pub proof fn lemma_fraction_keeps_rounding(whole: nat, part: nat, scale: nat)
    requires
        part < scale,
    ensures
        rounded_quotient(whole * scale + part, 100 * scale) == rounded_quotient(whole, 100),
{
    let q = whole / 100;
    let r = whole % 100;
    let num = whole * scale + part;
    let den = 100 * scale;
    let rem = r * scale + part;
    assert(num == q * den + rem) by (nonlinear_arith)
        requires
            whole == 100 * q + r,
            num == whole * scale + part,
            den == 100 * scale,
            rem == r * scale + part,
    ;
    assert(0 <= rem < den && ((2 * rem >= den) == (2 * r >= 100))) by (nonlinear_arith)
        requires
            0 <= r <= 99,
            0 <= part < scale,
            den == 100 * scale,
            rem == r * scale + part,
    ;
    lemma_fundamental_div_mod_converse(num as int, den as int, q as int, rem as int);
}

/// The CPU line of the report.
pub open spec fn cpu_info_text(info: CpuInfo) -> Seq<char> {
    tenths_text(info.usage.raw as int) + "% "@ + tenths_text(info.temp.raw as int) + "C"@
}

/// Usage is a percentage: whatever the counters hold, it lies between 0
/// and 100.
pub proof fn lemma_usage_is_a_percentage(
    idle_then: nat,
    total_then: nat,
    idle_now: nat,
    total_now: nat,
)
    ensures
        0 <= usage_between(idle_then, total_then, idle_now, total_now) <= 1000,
{
    if total_now > total_then {
        let elapsed = (total_now - total_then) as nat;
        let idle: nat = if idle_now <= idle_then {
            0
        } else if idle_now - idle_then >= elapsed {
            elapsed
        } else {
            (idle_now - idle_then) as nat
        };
        lemma_rounded_share_is_bounded((elapsed - idle) as nat, elapsed);
    }
}

/// Where the idle counter advanced as fast as the total, usage is 0.
pub proof fn lemma_all_idle_is_no_usage(
    idle_then: nat,
    total_then: nat,
    idle_now: nat,
    total_now: nat,
)
    requires
        total_now > total_then,
        idle_now >= idle_then,
        idle_now - idle_then == total_now - total_then,
    ensures
        usage_between(idle_then, total_then, idle_now, total_now) == 0,
{
    lemma_rounded_share_is_bounded(0, (total_now - total_then) as nat);
}

/// Where the idle counter stood still while the total advanced, usage is
/// 100.
pub proof fn lemma_never_idle_is_full_usage(
    idle_then: nat,
    total_then: nat,
    idle_now: nat,
    total_now: nat,
)
    requires
        total_now > total_then,
        idle_now == idle_then,
    ensures
        usage_between(idle_then, total_then, idle_now, total_now) == 1000,
{
    let elapsed = (total_now - total_then) as nat;
    lemma_rounded_share_is_bounded(elapsed, elapsed);
}

/// Cpu usage and temperature information.
#[derive(Debug, Clone, Copy, PartialEq, Eq, Structural)]
pub struct CpuInfo {
    /// Usage, in percent.
    pub usage: Tenths,
    /// Temperature, in degrees Celsius.
    pub temp: Tenths,
}

impl Default for CpuInfo {
    /// What is shown before the first sample has arrived: zero for both
    /// values.
    fn default() -> (info: Self)
        ensures
            info.usage.raw == 0,
            info.temp.raw == 0,
    {
        Self { usage: Tenths { raw: 0 }, temp: Tenths { raw: 0 } }
    }
}

impl CpuInfo {
    /// Renders the CPU line of the report, `<usage>% <temp>C`, each value
    /// with one decimal place.
    pub fn to_text(&self) -> (text: String)
        ensures
            text@ == cpu_info_text(*self),
    {
        let mut text = self.usage.to_text();
        text.append("% ");
        text.append(self.temp.to_text().as_str());
        text.append("C");
        text
    }
}

/// Reads the temperature that the text of a thermal zone holds, in tenths
/// of a degree; `None` where the text holds none.
fn read_thermal(content: &str) -> (tenths: Option<i128>)
    ensures
        tenths is Some == is_thermal_text(content@),
        tenths matches Some(raw) ==> raw == thermal_tenths(content@),
{
    let cs = chars_of(content);
    let n = cs.len();
    assert(cs@.subrange(0, n as int) =~= content@);
    let lo = skip_spaces(&cs, 0, n);
    let hi = drop_spaces(&cs, lo, n);
    let ghost s = cs@.subrange(lo as int, hi as int);
    assert(s == trim(content@));
    let negative = lo < hi && cs[lo] == '-';
    let start = if lo < hi && (cs[lo] == '+' || cs[lo] == '-') {
        lo + 1
    } else {
        lo
    };
    let ghost b = cs@.subrange(start as int, hi as int);
    assert(unsigned_part(s) =~= b);
    let point = find_char(&cs, start, hi, '.');
    assert(whole_digits(b) =~= cs@.subrange(start as int, point as int));
    let after = if point < hi {
        point + 1
    } else {
        hi
    };
    assert(fraction_digits(b) =~= cs@.subrange(after as int, hi as int));
    if point - start + (hi - after) == 0 {
        return None;
    }
    let limit: u64 = if negative {
        0x8000_0000_0000_0000
    } else {
        0x7fff_ffff_ffff_ffff
    };
    let whole = match parse_digits(&cs, start, point, limit) {
        Some(whole) => whole,
        None => { return None; },
    };
    if !all_digits_in(&cs, after, hi) {
        return None;
    }
    proof {
        lemma_digits_value_is_bounded(fraction_digits(b));
        lemma_fraction_keeps_rounding(
            whole as nat,
            digits_value(fraction_digits(b)),
            pow10(fraction_digits(b).len()),
        );
    }
    let magnitude = round_div(whole as u128, 100) as i128;
    if negative {
        Some(-magnitude)
    } else {
        Some(magnitude)
    }
}

/// Cpu.
///
/// Holds the path of the thermal zone and the counters of the last sample,
/// against which the next sample is measured.
#[derive(Debug, Clone, PartialEq, Eq)]
pub struct Cpu {
    /// Filesystem path to CPU thermal info.
    pub thermal_zone: String,
    /// Idle time of the last sample.
    pub idle_time: u64,
    /// Total time of the last sample.
    pub total_time: u128,
}

impl Cpu {
    /// Construct `Cpu` with the given `thermal_zone` path; `stat` is the
    /// sample that sets the baseline.
    pub fn new(thermal_zone: &str, stat: &CpuTimes) -> (cpu: Self)
        ensures
            cpu.thermal_zone@ == thermal_zone@,
            cpu.idle_time == stat.idle,
            cpu.total_time == stat.total(),
    {
        let (idle_time, total_time) = Cpu::get_times(stat);
        Self { thermal_zone: String::from_str(thermal_zone), idle_time, total_time }
    }

    /// Return time information as `(<cpu_idle>, <cpu_total>)`. The total is
    /// the sum of the time spent in user, nice, system, idle, iowait, irq
    /// and softirq mode; a counter that is missing counts as zero.
    pub fn get_times(stat: &CpuTimes) -> (times: (u64, u128))
        ensures
            times.0 == stat.idle,
            times.1 == stat.total(),
    {
        let iowait: u64 = match stat.iowait {
            Some(ticks) => ticks,
            None => 0,
        };
        let irq: u64 = match stat.irq {
            Some(ticks) => ticks,
            None => 0,
        };
        let softirq: u64 = match stat.softirq {
            Some(ticks) => ticks,
            None => 0,
        };
        (
            stat.idle,
            stat.user as u128 + stat.nice as u128 + stat.system as u128 + stat.idle as u128
                + iowait as u128 + irq as u128 + softirq as u128,
        )
    }

    /// Return `Cpu` overall percentage usage since the last sample, and
    /// make `stat` the last sample.
    pub fn usage(&mut self, stat: &CpuTimes) -> (usage: Tenths)
        ensures
            usage.raw == usage_between(
                old(self).idle_time as nat,
                old(self).total_time as nat,
                stat.idle as nat,
                stat.total(),
            ),
            0 <= usage.raw <= 1000,
            final(self).idle_time == stat.idle,
            final(self).total_time == stat.total(),
            final(self).thermal_zone == old(self).thermal_zone,
    {
        let (idle_time, total_time) = Cpu::get_times(stat);
        proof {
            lemma_usage_is_a_percentage(
                self.idle_time as nat,
                self.total_time as nat,
                stat.idle as nat,
                stat.total(),
            );
        }
        let usage: u128 = if total_time <= self.total_time {
            0
        } else {
            let elapsed: u128 = total_time - self.total_time;
            let idle: u128 = if idle_time <= self.idle_time {
                0
            } else if (idle_time - self.idle_time) as u128 >= elapsed {
                elapsed
            } else {
                (idle_time - self.idle_time) as u128
            };
            round_div(1000 * (elapsed - idle), elapsed)
        };
        self.total_time = total_time;
        self.idle_time = idle_time;
        Tenths { raw: usage as i128 }
    }

    /// Return `Cpu` package temperature in Celsius degrees, from the text
    /// that the thermal zone holds: a number of millidegrees.
    ///
    /// Any other text is refused as `ErrorKind::FileReadErr`, with the path
    /// of the thermal zone.
    pub fn temp(&self, content: &str) -> (temp: Result<Tenths, ErrorKind>)
        ensures
            temp is Ok == is_thermal_text(content@),
            temp matches Ok(t) ==> t.raw == thermal_tenths(content@),
            temp matches Err(e) ==> e matches ErrorKind::FileReadErr(path, cause) && path@
                == self.thermal_zone@ && cause@ == "invalid temperature value"@,
    {
        match read_thermal(content) {
            Some(raw) => Ok(Tenths { raw }),
            None => Err(
                ErrorKind::FileReadErr(
                    self.thermal_zone.clone(),
                    String::from_str("invalid temperature value"),
                ),
            ),
        }
    }

    /// Sample usage and temperature: usage since the last sample, which
    /// `stat` then becomes, and the temperature that `content` holds.
    pub fn info(&mut self, stat: &CpuTimes, content: &str) -> (info: Result<CpuInfo, ErrorKind>)
        ensures
            final(self).idle_time == stat.idle,
            final(self).total_time == stat.total(),
            final(self).thermal_zone == old(self).thermal_zone,
            info is Ok == is_thermal_text(content@),
            info matches Ok(i) ==> i.usage.raw == usage_between(
                old(self).idle_time as nat,
                old(self).total_time as nat,
                stat.idle as nat,
                stat.total(),
            ) && i.temp.raw == thermal_tenths(content@),
            info matches Err(e) ==> e matches ErrorKind::FileReadErr(path, cause) && path@
                == old(self).thermal_zone@ && cause@ == "invalid temperature value"@,
    {
        let usage = self.usage(stat);
        match self.temp(content) {
            Ok(temp) => Ok(CpuInfo { usage, temp }),
            Err(e) => Err(e),
        }
    }

    /// Sample usage and temperature as `info` does, and render them as
    /// the CPU line of the report.
    pub fn read_info(&mut self, stat: &CpuTimes, content: &str) -> (line: Result<String, ErrorKind>)
        ensures
            final(self).idle_time == stat.idle,
            final(self).total_time == stat.total(),
            final(self).thermal_zone == old(self).thermal_zone,
            line is Ok == is_thermal_text(content@),
            line matches Ok(text) ==> text@ == cpu_info_text(
                CpuInfo {
                    usage: Tenths {
                        raw: usage_between(
                            old(self).idle_time as nat,
                            old(self).total_time as nat,
                            stat.idle as nat,
                            stat.total(),
                        ) as i128,
                    },
                    temp: Tenths { raw: thermal_tenths(content@) as i128 },
                },
            ),
            line matches Err(e) ==> e matches ErrorKind::FileReadErr(path, cause) && path@
                == old(self).thermal_zone@ && cause@ == "invalid temperature value"@,
    {
        match self.info(stat, content) {
            Ok(info) => Ok(info.to_text()),
            Err(e) => Err(e),
        }
    }
}

} // verus!
