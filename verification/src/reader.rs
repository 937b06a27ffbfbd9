//! The tiered statistics-read policy: which source one quality
//! measurement comes from.
//!
//! A reader first scans the multi-source read in driver-declared order and
//! takes the first value that carries a reading — the driver's order is
//! authoritative, values are never averaged or merged. Only when every
//! slot is unavailable, and the metric has a legacy single-value call, and
//! the lock bit that makes that call meaningful is set, does the legacy
//! scalar read happen; otherwise the measurement is unavailable. The
//! caller owns the device handle and performs the legacy call only where
//! this policy asks for it.

use vstd::prelude::*;
use crate::stats::{DtvFrontendStats, DtvStat};
use crate::status_bits::{fe_status, FE_HAS_CARRIER, FE_HAS_LOCK, FE_HAS_SIGNAL};

verus! {

/// The eight quality-statistic kinds a reader can fetch.
#[derive(Debug, Clone, Copy, PartialEq, Eq, Structural)]
pub enum StatKind {
    /// Signal strength.
    SignalStrength,
    /// Carrier-to-noise ratio.
    Cnr,
    /// Bit errors before error correction.
    PreErrorBitCount,
    /// Total bits counted before error correction.
    PreTotalBitCount,
    /// Bit errors after error correction.
    PostErrorBitCount,
    /// Total bits counted after error correction.
    PostTotalBitCount,
    /// Uncorrected blocks.
    ErrorBlockCount,
    /// Total blocks counted.
    TotalBlockCount,
}

impl StatKind {
    /// The lock bit that makes this kind's legacy single-value call
    /// meaningful, for the kinds that have such a call: something above
    /// the noise level for signal strength, a carrier for the
    /// carrier-to-noise ratio, and a full lock for the two error
    /// counters. The remaining kinds have no legacy equivalent.
    pub open spec fn legacy_gate_spec(self) -> Option<u32> {
        match self {
            StatKind::SignalStrength => Some(FE_HAS_SIGNAL),
            StatKind::Cnr => Some(FE_HAS_CARRIER),
            StatKind::PreErrorBitCount => Some(FE_HAS_LOCK),
            StatKind::ErrorBlockCount => Some(FE_HAS_LOCK),
            _ => None,
        }
    }

    /// Returns the lock bit gating this kind's legacy call, if it has one.
    pub fn legacy_gate(self) -> (r: Option<u32>)
        ensures
            r == self.legacy_gate_spec(),
    {
        match self {
            StatKind::SignalStrength => Some(FE_HAS_SIGNAL),
            StatKind::Cnr => Some(FE_HAS_CARRIER),
            StatKind::PreErrorBitCount => Some(FE_HAS_LOCK),
            StatKind::ErrorBlockCount => Some(FE_HAS_LOCK),
            _ => None,
        }
    }
}

/// Where one quality measurement comes from.
#[derive(Debug, Clone, Copy, PartialEq, Eq, Structural)]
pub enum StatSource {
    /// The multi-source read carried this value; it is the first slot, in
    /// driver-declared order, with a reading.
    Reading(DtvStat),
    /// Every slot was unavailable and the gating lock bit is set: the
    /// caller performs the legacy scalar read.
    LegacyFallback,
    /// Every slot was unavailable and no legacy call applies.
    Unavailable,
}

/// The tiered policy: the first available value of the multi-source read;
/// failing that, the legacy call where one exists and its lock bit is
/// set; failing that, nothing.
pub open spec fn spec_select_statistic(
    kind: StatKind,
    stats: DtvFrontendStats,
    status: fe_status,
) -> StatSource {
    match stats.spec_first_available() {
        Some(s) => StatSource::Reading(s),
        None => match kind.legacy_gate_spec() {
            Some(bit) => if status.spec_contains(bit) {
                StatSource::LegacyFallback
            } else {
                StatSource::Unavailable
            },
            None => StatSource::Unavailable,
        },
    }
}

/// Decides where one quality measurement comes from, per the tiered
/// policy. Pure; the caller performs the legacy read only where the
/// result asks for it.
pub fn select_statistic(kind: StatKind, stats: &DtvFrontendStats, status: fe_status) -> (r:
    StatSource)
    ensures
        r == spec_select_statistic(kind, *stats, status),
{
    match stats.first_available() {
        Some(s) => StatSource::Reading(s),
        None => match kind.legacy_gate() {
            Some(bit) => if status.contains(bit) {
                StatSource::LegacyFallback
            } else {
                StatSource::Unavailable
            },
            None => StatSource::Unavailable,
        },
    }
}

} // verus!
