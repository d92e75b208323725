//! The two producers that feed the refresh loop: what each decides when
//! its input has come in.
//!
//! The measurement source reads the telemetry stream line by line. The
//! system sampler reads the counters of the processors and the thermal
//! zone on a fixed delay. Each either has a value to send or ends; the
//! program does the reading, the sending and the sleeping.

use crate::cpu::{is_thermal_text, thermal_tenths, usage_between, Cpu, CpuInfo, CpuTimes};
use crate::error::ErrorKind;
use crate::measure::{is_measure_line, measure_of, Measure};
use vstd::prelude::*;
use vstd::string::*;

verus! {

/// What reading the next line of the telemetry stream gave.
#[derive(Debug, Clone, PartialEq, Eq)]
pub enum Line {
    /// The stream has ended.
    End,
    /// The stream could not be read, or what it held is no text; holds the
    /// cause.
    Unreadable(String),
    /// A line, without its line break.
    Text(String),
}

/// What reading a thermal zone gave.
#[derive(Debug, Clone, PartialEq, Eq)]
pub enum Thermal {
    /// The file could not be opened; holds the cause.
    Unopened(String),
    /// The file could not be read; holds the cause.
    Unread(String),
    /// What the file holds.
    Content(String),
}

/// What a source does next.
#[derive(Debug, PartialEq, Eq)]
pub enum Step<T> {
    /// Send the value to the refresh loop and go on.
    Send(T),
    /// End with this result.
    Stop(Result<(), ErrorKind>),
}

/// Decides what the measurement source does with what it read.
///
/// The end of the stream ends the source cleanly. A line that could not
/// be read ends it with `ErrorKind::StdinErr`, one that is no telemetry
/// line with `ErrorKind::InvalidInputFormat`. A telemetry line is sent on
/// as the reading that it holds.
pub fn measurement_step(line: Line) -> (step: Step<Measure>)
    ensures
        match line {
            Line::End => step == Step::<Measure>::Stop(Ok(())),
            Line::Unreadable(cause) => step == Step::<Measure>::Stop(
                Err(ErrorKind::StdinErr(cause)),
            ),
            Line::Text(text) => if is_measure_line(text@) {
                step matches Step::Send(measure) && measure@ == measure_of(text@)
            } else {
                step == Step::<Measure>::Stop(Err(ErrorKind::InvalidInputFormat))
            },
        },
{
    match line {
        Line::End => Step::Stop(Ok(())),
        Line::Unreadable(cause) => Step::Stop(Err(ErrorKind::StdinErr(cause))),
        Line::Text(text) => match Measure::from_csv(text.as_str()) {
            Ok(measure) => Step::Send(measure),
            Err(error) => Step::Stop(Err(error)),
        },
    }
}

/// Sets the system sampler up: the first reading of the counters becomes
/// the baseline. Counters that could not be read are
/// `ErrorKind::ProcFsErr` with the cause.
pub fn sampler_start(thermal_zone: &str, stat: Result<CpuTimes, String>) -> (cpu: Result<
    Cpu,
    ErrorKind,
>)
    ensures
        match stat {
            Ok(times) => cpu matches Ok(c) && c.thermal_zone@ == thermal_zone@ && c.idle_time
                == times.idle && c.total_time == times.total(),
            Err(cause) => cpu == Err::<Cpu, ErrorKind>(ErrorKind::ProcFsErr(cause)),
        },
{
    match stat {
        Ok(times) => Ok(Cpu::new(thermal_zone, &times)),
        Err(cause) => Err(ErrorKind::ProcFsErr(cause)),
    }
}

/// Decides what the system sampler does with what it read.
///
/// Counters that could not be read end the sampler with
/// `ErrorKind::ProcFsErr`; the sample that was held stays. Else the
/// counters become the last sample, and a thermal zone that could not be
/// opened ends the sampler with `ErrorKind::FileOpenErr`, one that could
/// not be read or holds no temperature with `ErrorKind::FileReadErr`,
/// each with the path of the zone. Else the usage since the last sample
/// and the temperature are sent on.
pub fn sampler_step(cpu: &mut Cpu, stat: Result<CpuTimes, String>, thermal: Thermal) -> (step:
    Step<CpuInfo>)
    ensures
        final(cpu).thermal_zone == old(cpu).thermal_zone,
        match stat {
            Err(cause) => *final(cpu) == *old(cpu) && step == Step::<CpuInfo>::Stop(
                Err(ErrorKind::ProcFsErr(cause)),
            ),
            Ok(times) => {
                &&& final(cpu).idle_time == times.idle
                &&& final(cpu).total_time == times.total()
                &&& match thermal {
                    Thermal::Unopened(cause) => step matches Step::Stop(
                        Err(ErrorKind::FileOpenErr(path, text)),
                    ) && path@ == old(cpu).thermal_zone@ && text == cause,
                    Thermal::Unread(cause) => step matches Step::Stop(
                        Err(ErrorKind::FileReadErr(path, text)),
                    ) && path@ == old(cpu).thermal_zone@ && text == cause,
                    Thermal::Content(content) => if is_thermal_text(content@) {
                        step matches Step::Send(info) && info.usage.raw == usage_between(
                            old(cpu).idle_time as nat,
                            old(cpu).total_time as nat,
                            times.idle as nat,
                            times.total(),
                        ) && info.temp.raw == thermal_tenths(content@)
                    } else {
                        step matches Step::Stop(Err(ErrorKind::FileReadErr(path, text)))
                            && path@ == old(cpu).thermal_zone@ && text@
                            == "invalid temperature value"@
                    },
                }
            },
        },
{
    let times = match stat {
        Ok(times) => times,
        Err(cause) => { return Step::Stop(Err(ErrorKind::ProcFsErr(cause))); },
    };
    match thermal {
        Thermal::Unopened(cause) => {
            let _ = cpu.usage(&times);
            Step::Stop(Err(ErrorKind::FileOpenErr(cpu.thermal_zone.clone(), cause)))
        },
        Thermal::Unread(cause) => {
            let _ = cpu.usage(&times);
            Step::Stop(Err(ErrorKind::FileReadErr(cpu.thermal_zone.clone(), cause)))
        },
        Thermal::Content(content) => match cpu.info(&times, content.as_str()) {
            Ok(info) => Step::Send(info),
            Err(error) => Step::Stop(Err(error)),
        },
    }
}

} // verus!
