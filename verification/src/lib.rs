//! Status line aggregation for a small monitoring display: telemetry
//! parsing, system metric arithmetic, the snapshot that is rendered each
//! tick and the refresh loop that drives it.
//!
//! The library holds the rules and leaves the reading, the sending and the
//! sleeping to the program around it: that program hands in plain values
//! and does what the library answers.

pub mod args;
pub mod cpu;
pub mod disk;
pub mod error;
pub mod measure;
pub mod memory;
pub mod network;
pub mod numeral;
pub mod process;
pub mod refresh;
pub mod screen;
pub mod signal;
pub mod source;
pub mod sys_info;
pub mod tenths;
pub mod text;

pub use args::{parse_brightness, Args, Brightness};
pub use error::ErrorKind;
pub use measure::{Input, Measure};
pub use network::local_ipv4;
pub use refresh::RefreshLoop;
pub use screen::Screen;
pub use signal::SignalFlag;
pub use sys_info::{disk_free, pgrep, Cpu, CpuInfo, InterfaceIPv4, Meminfo, MeminfoPerc};
