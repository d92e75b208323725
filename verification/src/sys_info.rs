//! System information: processor, memory, disk, network and processes.

pub use crate::cpu::{Cpu, CpuInfo, CpuTimes};
pub use crate::disk::disk_free;
pub use crate::memory::{Meminfo, MeminfoPerc};
pub use crate::network::{local_ipv4, Address, Interface, InterfaceIPv4, Ipv4, Kind};
pub use crate::process::{pgrep, ProcEntry};
