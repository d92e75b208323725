//! The flag that a signal of the operating system raises and that the
//! refresh loop takes down again when it looks.

use vstd::prelude::*;

verus! {

/// A flag that is raised by a signal and observed by taking it down.
///
/// The flag does not count: however often it is raised before it is
/// observed, it is observed once.
#[derive(Debug, Clone, Copy, PartialEq, Eq, Structural)]
pub struct SignalFlag {
    /// Whether a signal has come since the flag was last observed.
    pub pending: bool,
}

impl SignalFlag {
    /// The flag after a signal has come.
    pub open spec fn raised(self) -> SignalFlag {
        SignalFlag { pending: true }
    }

    /// The flag after it has been observed.
    pub open spec fn cleared(self) -> SignalFlag {
        SignalFlag { pending: false }
    }

    /// The flag after `times` signals have come.
    pub open spec fn raised_times(self, times: nat) -> SignalFlag
        decreases times,
    {
        if times == 0 {
            self
        } else {
            self.raised_times((times - 1) as nat).raised()
        }
    }

    /// A flag that no signal has raised yet.
    pub fn new() -> (flag: Self)
        ensures
            !flag.pending,
    {
        Self { pending: false }
    }

    /// Raises the flag: a signal has come.
    pub fn raise(&mut self)
        ensures
            *final(self) == old(self).raised(),
    {
        self.pending = true;
    }

    /// Observes the flag: says whether a signal has come since the last
    /// observation, and takes the flag down.
    pub fn take(&mut self) -> (observed: bool)
        ensures
            observed == old(self).pending,
            *final(self) == old(self).cleared(),
    {
        let observed = self.pending;
        self.pending = false;
        observed
    }
}

/// The logging mode after an observation of the flag: flipped if a signal
/// was observed, unchanged if none was.
pub open spec fn toggled(logging: bool, observed: bool) -> bool {
    logging != observed
}

/// Signals coalesce: after one signal or many, the flag is as it is after
/// one.
pub proof fn lemma_signals_coalesce(flag: SignalFlag, times: nat)
    requires
        times >= 1,
    ensures
        flag.raised_times(times) == flag.raised(),
{
}

/// Signals that come before one observation make exactly one toggle: the
/// observation flips the logging mode once, whatever the number of
/// signals, and the next observation finds nothing and leaves it alone.
pub proof fn lemma_one_toggle_per_observation(flag: SignalFlag, times: nat, logging: bool)
    requires
        times >= 1,
    ensures
        toggled(logging, flag.raised_times(times).pending) == !logging,
        toggled(!logging, flag.raised_times(times).cleared().pending) == !logging,
{
    lemma_signals_coalesce(flag, times);
}

} // verus!
