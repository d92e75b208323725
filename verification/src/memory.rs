//! Memory figures, as shares of the total memory.

use crate::tenths::{round_div, rounded_quotient, Tenths};
use vstd::prelude::*;

verus! {

/// `value` as a share of `total`, in tenths of a percent, rounded to the
/// nearest tenth; zero where `total` is zero.
pub open spec fn percent_tenths(value: nat, total: nat) -> nat {
    rounded_quotient(1000 * value, total)
}

/// The figures of the kernel's memory report that the status line shows,
/// in kB.
#[derive(Debug, Clone, Copy, PartialEq, Eq, Structural)]
pub struct Meminfo {
    /// Total usable RAM.
    pub mem_total: u64,
    /// RAM that is not in use.
    pub mem_free: u64,
}

/// Memory info values expressed as percentage.
pub trait MeminfoPerc {
    /// The total memory that shares are taken of.
    spec fn total(&self) -> nat;

    /// The memory that is free.
    spec fn free(&self) -> nat;

    /// Convert absolute *kB* value to percentage with respect to total
    /// memory.
    fn percentage(&self, value: u64) -> (share: Tenths)
        ensures
            share.raw == percent_tenths(value as nat, self.total()),
    ;

    /// Return used memory percentage: what the free memory leaves of 100.
    fn used_percent(&self) -> (share: Tenths)
        ensures
            share.raw == 1000 - percent_tenths(self.free(), self.total()),
    ;

    /// Return free memory percentage.
    fn free_percent(&self) -> (share: Tenths)
        ensures
            share.raw == percent_tenths(self.free(), self.total()),
    ;
}

impl MeminfoPerc for Meminfo {
    open spec fn total(&self) -> nat {
        self.mem_total as nat
    }

    open spec fn free(&self) -> nat {
        self.mem_free as nat
    }

    fn percentage(&self, value: u64) -> (share: Tenths) {
        Tenths { raw: round_div(1000 * (value as u128), self.mem_total as u128) as i128 }
    }

    fn free_percent(&self) -> (share: Tenths) {
        self.percentage(self.mem_free)
    }

    fn used_percent(&self) -> (share: Tenths) {
        Tenths { raw: 1000 - self.free_percent().raw }
    }
}

} // verus!
