//! The snapshot that is shown on the display: the latest value of every
//! source, and the report that is rendered from them.

use crate::cpu::{cpu_info_text, CpuInfo};
use crate::error::ErrorKind;
use crate::measure::{measure_text, no_reading, Measure};
use crate::memory::{percent_tenths, Meminfo, MeminfoPerc};
use crate::network::{first_ipv4, ipv4_text, unspecified, Interface, InterfaceIPv4, Ipv4};
use crate::signal::toggled;
use crate::tenths::tenths_text;
use vstd::prelude::*;
use vstd::string::*;

verus! {

/// What the collaborators outside the program answered when they were
/// asked for one tick.
#[derive(Debug, Clone, PartialEq, Eq)]
pub struct Probe {
    /// Memory information.
    pub mem: Meminfo,
    /// Free disk space.
    pub disk: String,
    /// Whether the `datalogger` process is running.
    pub datalogger: bool,
    /// Whether the `bombuscv` process is running.
    pub bombuscv: bool,
}

/// Display screen data.
#[derive(Debug, Clone, PartialEq, Eq)]
pub struct Screen {
    /// `datalogger` humidity & temperature measure values.
    pub measure: Measure,
    /// Network interface.
    pub interface: Interface,
    /// Cpu usage and temperature values.
    pub cpu: CpuInfo,
    /// Memory (RAM) information.
    pub mem: Meminfo,
    /// Free disk space.
    pub disk: String,
    /// `datalogger` CSV file printing. The program is run in a pipeline
    /// with a `datalogger` that starts with its printing turned off, so
    /// this starts as `false`.
    pub logging: bool,
    /// `datalogger` process running.
    pub datalogger: bool,
    /// `bombuscv` process running.
    pub bombuscv: bool,
}

/// The address that the report shows for an interface: its first IPv4
/// address, or `0.0.0.0` where it has none.
pub open spec fn shown_ipv4(interface: Interface) -> Ipv4 {
    match first_ipv4(interface.addresses@) {
        Some(address) => address,
        None => unspecified(),
    }
}

/// The word that the report shows for the logging mode.
pub open spec fn logging_text(screen: Screen) -> Seq<char> {
    if screen.logging {
        "on"@
    } else {
        "off"@
    }
}

/// The word that the report shows for a companion process.
pub open spec fn running_text(running: bool) -> Seq<char> {
    if running {
        "running"@
    } else {
        "--"@
    }
}

/// What stands in the report before the word for the logging mode.
pub open spec fn report_head(screen: Screen, timestamp: Seq<char>) -> Seq<char> {
    timestamp + "\n"@ + measure_text(screen.measure@) + "\nIP: "@ + ipv4_text(
        shown_ipv4(screen.interface),
    ) + "\nCPU: "@ + cpu_info_text(screen.cpu) + "\nMEM: "@ + tenths_text(
        percent_tenths(screen.mem.mem_free as nat, screen.mem.mem_total as nat) as int,
    ) + "% DISK: "@ + screen.disk@ + "\nLOGGING: "@
}

/// The report of a snapshot, headed by the given timestamp: the
/// measurement, the address, the processor, memory and disk, the logging
/// mode, and the two companion processes.
pub open spec fn report_text(screen: Screen, timestamp: Seq<char>) -> Seq<char> {
    report_head(screen, timestamp) + logging_text(screen) + "\nDATALOGGER: "@ + running_text(
        screen.datalogger,
    ) + " BOMBUSCV: "@ + running_text(screen.bombuscv)
}

/// The report shows the logging mode: two snapshots that differ in the
/// logging mode have different reports, whether the companion processes
/// run or not.
pub proof fn lemma_report_shows_logging(on: Screen, off: Screen, timestamp: Seq<char>)
    requires
        on.logging,
        !off.logging,
        on == (Screen { logging: true, ..off }),
    ensures
        report_text(on, timestamp) != report_text(off, timestamp),
{
    reveal_strlit("on");
    reveal_strlit("off");
    let head = report_head(off, timestamp);
    assert(report_head(on, timestamp) == head);
    let at: int = head.len() as int + 1;
    let shown_on = head + "on"@;
    let shown_off = head + "off"@;
    assert(shown_on[at] == 'n');
    assert(shown_off[at] == 'f');
    assert(report_text(on, timestamp)[at] == shown_on[at]);
    assert(report_text(off, timestamp)[at] == shown_off[at]);
}

/// A value that has newly arrived replaces the one that is held; where
/// none has arrived, the one that is held stays.
pub open spec fn replaced<T>(held: T, arrived: Option<T>) -> T {
    match arrived {
        Some(value) => value,
        None => held,
    }
}

impl Screen {
    /// The snapshot after one tick: the readings that arrived replace the
    /// ones that were held, an observed signal flips the logging mode, and
    /// the answers of the collaborators are taken as they are.
    pub open spec fn updated(
        self,
        measure: Option<Measure>,
        cpu: Option<CpuInfo>,
        sigusr1_received: bool,
        probe: Probe,
    ) -> Screen {
        Screen {
            measure: replaced(self.measure, measure),
            interface: self.interface,
            cpu: replaced(self.cpu, cpu),
            mem: probe.mem,
            disk: probe.disk,
            logging: toggled(self.logging, sigusr1_received),
            datalogger: probe.datalogger,
            bombuscv: probe.bombuscv,
        }
    }

    /// The snapshot at startup, for the interface `interface`, where
    /// `found` is what the lookup of that name gave.
    ///
    /// An interface that was not found is `ErrorKind::InterfaceNotFound`
    /// with its name. Else the snapshot holds zero for every reading, `--`
    /// for the disk, logging turned off, and what the collaborators
    /// answered.
    pub fn new(
        interface: &str,
        found: Option<Interface>,
        mem: Meminfo,
        datalogger: bool,
        bombuscv: bool,
    ) -> (screen: Result<Self, ErrorKind>)
        ensures
            match found {
                Some(entry) => screen matches Ok(s) && s.interface == entry && s.measure@
                    == no_reading() && s.cpu.usage.raw == 0 && s.cpu.temp.raw == 0 && s.mem
                    == mem && s.disk@ == "--"@ && !s.logging && s.datalogger == datalogger
                    && s.bombuscv == bombuscv,
                None => screen matches Err(ErrorKind::InterfaceNotFound(name)) && name@
                    == interface@,
            },
    {
        match found {
            Some(entry) => Ok(
                Self {
                    measure: Measure::default(),
                    interface: entry,
                    cpu: CpuInfo::default(),
                    mem,
                    disk: String::from_str("--"),
                    logging: false,
                    datalogger,
                    bombuscv,
                },
            ),
            None => Err(ErrorKind::InterfaceNotFound(String::from_str(interface))),
        }
    }

    /// Takes in what one tick brought: the reading and the sample that
    /// arrived, if any; whether the signal was observed; and the answers of
    /// the collaborators.
    pub fn update(
        &mut self,
        measure: Option<Measure>,
        cpu: Option<CpuInfo>,
        sigusr1_received: bool,
        probe: Probe,
    )
        ensures
            *final(self) == old(self).updated(measure, cpu, sigusr1_received, probe),
    {
        if let Some(measure) = measure {
            self.measure = measure;
        }
        if let Some(cpu) = cpu {
            self.cpu = cpu;
        }
        self.mem = probe.mem;
        self.disk = probe.disk;
        // If SIGUSR1 is received swap logging status.
        if sigusr1_received {
            self.logging = !self.logging;
        }
        self.datalogger = probe.datalogger;
        self.bombuscv = probe.bombuscv;
    }

    /// Renders the report of the snapshot, headed by `timestamp`.
    pub fn report(&self, timestamp: &str) -> (text: String)
        ensures
            text@ == report_text(*self, timestamp@),
    {
        let address = match self.interface.local_ipv4() {
            Some(address) => address,
            None => Ipv4::unspecified(),
        };
        let mut text = String::from_str(timestamp);
        text.append("\n");
        text.append(self.measure.to_text().as_str());
        text.append("\nIP: ");
        text.append(address.to_text().as_str());
        text.append("\nCPU: ");
        text.append(self.cpu.to_text().as_str());
        text.append("\nMEM: ");
        text.append(self.mem.free_percent().to_text().as_str());
        text.append("% DISK: ");
        text.append(self.disk.as_str());
        text.append("\nLOGGING: ");
        text.append(
            if self.logging {
                "on"
            } else {
                "off"
            },
        );
        text.append("\nDATALOGGER: ");
        text.append(
            if self.datalogger {
                "running"
            } else {
                "--"
            },
        );
        text.append(" BOMBUSCV: ");
        text.append(
            if self.bombuscv {
                "running"
            } else {
                "--"
            },
        );
        text
    }

    /// Renders the report of the snapshot, headed by the local time.
    pub fn to_text(&self) -> (text: String)
        ensures
            exists|timestamp: Seq<char>| text@ == report_text(*self, timestamp),
    {
        let timestamp = local_timestamp();
        self.report(timestamp.as_str())
    }
}

/// The local time, as `chrono::Local::now` gives it and as
/// `chrono::DateTime::format` writes it with the pattern
/// `%Y-%m-%d %H:%M:%S`. The result depends on the clock and on the time
/// zone of the machine: nothing is claimed of it.
#[verifier::external_body]
pub(crate) fn local_timestamp() -> (timestamp: String) {
    chrono::Local::now().format("%Y-%m-%d %H:%M:%S").to_string()
}

} // verus!
