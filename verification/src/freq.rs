use vstd::prelude::*;

use crate::error::Error;
use crate::power::PROCESSOR_POWER_INFORMATION;

verus! {

/// A clock rate, held in hertz.
#[derive(Debug, Clone, Copy, PartialEq, Eq, Structural)]
pub struct Frequency {
    pub hertz: u64,
}

/// The hertz value of a clock rate that the native layer reports in MHz.
pub open spec fn mhz_to_hz(mhz: u32) -> u64 {
    (mhz * 1_000_000) as u64
}

impl Frequency {
    /// A frequency of `mhz` megahertz.
    pub fn from_megahertz(mhz: u32) -> (r: Frequency)
        ensures
            r.hertz == mhz_to_hz(mhz),
    {
        Frequency { hertz: (mhz as u64) * 1_000_000 }
    }
}

/// The direct low-level query strategy: frequencies read from the first
/// per-processor power record of a successful bulk power query.
#[derive(Debug, Clone, Copy, PartialEq, Eq, Structural)]
pub struct WinternlStrategy {
    pub record: PROCESSOR_POWER_INFORMATION,
}

impl WinternlStrategy {
    /// Builds the strategy from the records of a successful bulk power
    /// query, keeping the first record. An empty set of records is the
    /// same data-integrity failure as a zero processor count.
    pub fn new(processors: Vec<PROCESSOR_POWER_INFORMATION>) -> (r: Result<
        WinternlStrategy,
        Error,
    >)
        ensures
            processors@.len() == 0 ==> (r matches Err(e)
                && e matches Error::InvalidData(m) && m@ == "No processors were found"@),
            processors@.len() > 0 ==> (r matches Ok(s) && s.record == processors@[0]),
    {
        if processors.len() == 0 {
            Err(Error::InvalidData("No processors were found"))
        } else {
            Ok(WinternlStrategy { record: processors[0] })
        }
    }

    /// The current frequency this strategy reports.
    pub open spec fn spec_current(self) -> Frequency {
        Frequency { hertz: mhz_to_hz(self.record.CurrentMhz) }
    }

    /// The maximum frequency this strategy reports.
    pub open spec fn spec_max(self) -> Option<Frequency> {
        Some(Frequency { hertz: mhz_to_hz(self.record.MaxMhz) })
    }

    /// The minimum frequency this strategy reports: always unknown.
    pub open spec fn spec_min(self) -> Option<Frequency> {
        None
    }

    /// The current clock rate of the recorded processor.
    pub fn current(&self) -> (r: Frequency)
        ensures
            r == self.spec_current(),
    {
        Frequency::from_megahertz(self.record.CurrentMhz)
    }

    /// The maximum clock rate of the recorded processor.
    pub fn max(&self) -> (r: Option<Frequency>)
        ensures
            r == self.spec_max(),
    {
        Some(Frequency::from_megahertz(self.record.MaxMhz))
    }

    /// The minimum clock rate. This strategy never learns one, so the
    /// result is always `None`, a valid non-error outcome.
    pub fn min(&self) -> (r: Option<Frequency>)
        ensures
            r == self.spec_min(),
            r is None,
    {
        None
    }
}

/// The management-interface strategy. It is present for completeness but
/// dormant: the selector never picks it, and in this version it reports a
/// zero current rate and no maximum or minimum.
#[derive(Debug, Clone, Copy, PartialEq, Eq, Structural)]
pub struct WMIStrategy;

impl WMIStrategy {
    /// The current frequency this strategy reports.
    pub open spec fn spec_current(self) -> Frequency {
        Frequency { hertz: 0 }
    }

    /// The maximum frequency this strategy reports.
    pub open spec fn spec_max(self) -> Option<Frequency> {
        None
    }

    /// The minimum frequency this strategy reports.
    pub open spec fn spec_min(self) -> Option<Frequency> {
        None
    }

    /// The current clock rate: this version of the strategy reports zero.
    pub fn current(&self) -> (r: Frequency)
        ensures
            r == self.spec_current(),
    {
        Frequency::from_megahertz(0)
    }

    /// The maximum clock rate: unknown under this strategy.
    pub fn max(&self) -> (r: Option<Frequency>)
        ensures
            r == self.spec_max(),
    {
        None
    }

    /// The minimum clock rate: unknown under this strategy.
    pub fn min(&self) -> (r: Option<Frequency>)
        ensures
            r == self.spec_min(),
    {
        None
    }
}

/// The frequency backend selected for a query.
#[derive(Debug, Clone, Copy, PartialEq, Eq, Structural)]
pub enum FreqStrategy {
    Winternl(WinternlStrategy),
    Wmi(WMIStrategy),
}

/// CPU frequency as reported by the selected backend strategy.
#[derive(Debug, Clone, Copy, PartialEq, Eq, Structural)]
pub struct CpuFrequency {
    pub strategy: FreqStrategy,
}

impl CpuFrequency {
    /// The current frequency of the selected strategy.
    pub open spec fn spec_current(self) -> Frequency {
        match self.strategy {
            FreqStrategy::Winternl(s) => s.spec_current(),
            FreqStrategy::Wmi(s) => s.spec_current(),
        }
    }

    /// The maximum frequency of the selected strategy.
    pub open spec fn spec_max(self) -> Option<Frequency> {
        match self.strategy {
            FreqStrategy::Winternl(s) => s.spec_max(),
            FreqStrategy::Wmi(s) => s.spec_max(),
        }
    }

    /// The minimum frequency of the selected strategy.
    pub open spec fn spec_min(self) -> Option<Frequency> {
        match self.strategy {
            FreqStrategy::Winternl(s) => s.spec_min(),
            FreqStrategy::Wmi(s) => s.spec_min(),
        }
    }

    /// The current clock rate; always present when the query succeeded.
    pub fn current(&self) -> (r: Frequency)
        ensures
            r == self.spec_current(),
    {
        match &self.strategy {
            FreqStrategy::Winternl(s) => s.current(),
            FreqStrategy::Wmi(s) => s.current(),
        }
    }

    /// The maximum clock rate; absence is a valid non-error outcome.
    pub fn max(&self) -> (r: Option<Frequency>)
        ensures
            r == self.spec_max(),
    {
        match &self.strategy {
            FreqStrategy::Winternl(s) => s.max(),
            FreqStrategy::Wmi(s) => s.max(),
        }
    }

    /// The minimum clock rate; absence is a valid non-error outcome.
    pub fn min(&self) -> (r: Option<Frequency>)
        ensures
            r == self.spec_min(),
    {
        match &self.strategy {
            FreqStrategy::Winternl(s) => s.min(),
            FreqStrategy::Wmi(s) => s.min(),
        }
    }
}

/// Selects the frequency backend and builds the frequency view from the
/// records of a successful bulk power query. Only the low-level strategy
/// is ever selected; the management-interface strategy stays dormant.
pub fn frequency(processors: Vec<PROCESSOR_POWER_INFORMATION>) -> (r: Result<CpuFrequency, Error>)
    ensures
        processors@.len() == 0 ==> (r matches Err(e)
            && e matches Error::InvalidData(m) && m@ == "No processors were found"@),
        processors@.len() > 0 ==> (r matches Ok(f)
            && f.strategy matches FreqStrategy::Winternl(s)
            && s.record == processors@[0]
            && f.spec_min() is None),
{
    match WinternlStrategy::new(processors) {
        Ok(s) => Ok(CpuFrequency { strategy: FreqStrategy::Winternl(s) }),
        Err(e) => Err(e),
    }
}

/// The only strategy the selector ever picks reports the minimum
/// frequency as unknown: it is a stable property of the strategy, not an
/// accident of one query.
pub proof fn lemma_selected_min_unknown(f: CpuFrequency)
    requires
        f.strategy is Winternl,
    ensures
        f.spec_min() is None,
{
}

/// Whenever the recorded current clock rate does not exceed the recorded
/// maximum, the reported current frequency does not exceed the reported
/// maximum frequency.
pub proof fn lemma_current_within_max(s: WinternlStrategy)
    requires
        s.record.CurrentMhz <= s.record.MaxMhz,
    ensures
        s.spec_max() matches Some(m) && s.spec_current().hertz <= m.hertz,
{
}

} // verus!
