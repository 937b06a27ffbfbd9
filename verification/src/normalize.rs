//! Pure conversion of raw quality measurements into calibrated percentage
//! and decibel figures, using delivery-system- and modulation-dependent
//! thresholds. No I/O; every function here is a function of its inputs.
//!
//! Decibel figures are kept in 0.001 dB steps throughout, as the hardware
//! reports them.

use vstd::prelude::*;
use vstd::arithmetic::div_mod::{lemma_div_is_ordered, lemma_div_multiples_vanish};
use crate::enums::{fe_delivery_system, fe_modulation};
use crate::stats::{rel_percent_spec, DtvFrontendStats, DtvStatType};
use crate::status_bits::{fe_status, FE_HAS_CARRIER, FE_HAS_SIGNAL};

verus! {

/// Signal strength of this many 0.001 dB steps or less reads as 0%.
pub const SIGNAL_FLOOR_MDB: i64 = -85000;

/// Signal strength of this many 0.001 dB steps or more reads as 100%.
pub const SIGNAL_CEIL_MDB: i64 = -6000;

/// Width of the signal interpolation band, in 0.001 dB steps.
pub const SIGNAL_RANGE_MDB: i64 = 79000;

/// Reference SNR ceiling for satellite systems, in 0.001 dB steps.
pub const SNR_CEIL_DVBS_MDB: i64 = 15000;

/// Reference SNR ceiling for terrestrial systems, in 0.001 dB steps.
pub const SNR_CEIL_DVBT_MDB: i64 = 19000;

/// Reference SNR ceiling for cable systems, in 0.001 dB steps.
pub const SNR_CEIL_DVBC_MDB: i64 = 28000;

/// A decibel signal reading as a percentage: clamped to the floor and
/// ceiling, linearly interpolated between them.
pub open spec fn spec_signal_percent_from_decibel(d: i64) -> u8 {
    if d > SIGNAL_CEIL_MDB {
        100u8
    } else if d < SIGNAL_FLOOR_MDB {
        0u8
    } else {
        (((d - SIGNAL_FLOOR_MDB) * 100) / (SIGNAL_RANGE_MDB as int)) as u8
    }
}

/// The decibel figure a signal-strength read yields: a decibel reading is
/// carried through beside a relative one; a decibel reading alone counts
/// only once something was found above the noise level.
pub open spec fn spec_signal_decibel(stats: DtvFrontendStats, status: fe_status) -> Option<i64> {
    match stats.spec_relative() {
        Some(_) => stats.spec_decibel(),
        None => match stats.spec_decibel() {
            Some(d) => if status.spec_contains(FE_HAS_SIGNAL) {
                Some(d)
            } else {
                None
            },
            None => None,
        },
    }
}

/// The percentage a signal-strength read yields: a relative reading scales
/// linearly; a decibel reading interpolates between the floor and ceiling,
/// and only counts once something was found above the noise level.
pub open spec fn spec_signal_percent(stats: DtvFrontendStats, status: fe_status) -> Option<u8> {
    match stats.spec_relative() {
        Some(v) => Some(rel_percent_spec(v)),
        None => match stats.spec_decibel() {
            Some(d) => if status.spec_contains(FE_HAS_SIGNAL) {
                Some(spec_signal_percent_from_decibel(d))
            } else {
                None
            },
            None => None,
        },
    }
}

/// The reference SNR ceiling, in 0.001 dB steps, for a delivery system and
/// modulation; systems without a published reference have none, and their
/// SNR percentage stays unknown.
pub open spec fn spec_snr_ceiling(
    delivery_system: Option<fe_delivery_system>,
    modulation: Option<fe_modulation>,
) -> Option<i64> {
    match delivery_system {
        Some(ds) => match ds {
            fe_delivery_system::SYS_DVBS => Some(SNR_CEIL_DVBS_MDB),
            fe_delivery_system::SYS_DVBS2 => Some(SNR_CEIL_DVBS_MDB),
            fe_delivery_system::SYS_DVBC_ANNEX_A => Some(SNR_CEIL_DVBC_MDB),
            fe_delivery_system::SYS_DVBC_ANNEX_B => Some(SNR_CEIL_DVBC_MDB),
            fe_delivery_system::SYS_DVBC_ANNEX_C => Some(SNR_CEIL_DVBC_MDB),
            fe_delivery_system::SYS_DVBC2 => Some(SNR_CEIL_DVBC_MDB),
            fe_delivery_system::SYS_DVBT => Some(SNR_CEIL_DVBT_MDB),
            fe_delivery_system::SYS_DVBT2 => Some(SNR_CEIL_DVBT_MDB),
            fe_delivery_system::SYS_ATSC => match modulation {
                Some(fe_modulation::VSB_8) => Some(SNR_CEIL_DVBT_MDB),
                Some(fe_modulation::VSB_16) => Some(SNR_CEIL_DVBT_MDB),
                _ => Some(SNR_CEIL_DVBC_MDB),
            },
            _ => None,
        },
        None => None,
    }
}

/// A decibel SNR reading as a percentage of the reference ceiling: zero
/// and below reads 0%, the ceiling and above reads 100%, linear between.
pub open spec fn spec_snr_percent_from_decibel(d: i64, vhi: i64) -> u8 {
    if d <= 0 {
        0u8
    } else if d >= vhi {
        100u8
    } else {
        ((d * 100) / (vhi as int)) as u8
    }
}

/// The decibel figure an SNR read yields: a decibel reading is carried
/// through beside a relative one; a decibel reading alone counts only once
/// a carrier was found.
pub open spec fn spec_snr_decibel(stats: DtvFrontendStats, status: fe_status) -> Option<i64> {
    match stats.spec_relative() {
        Some(_) => stats.spec_decibel(),
        None => match stats.spec_decibel() {
            Some(d) => if status.spec_contains(FE_HAS_CARRIER) {
                Some(d)
            } else {
                None
            },
            None => None,
        },
    }
}

/// The percentage an SNR read yields: a relative reading scales linearly;
/// a decibel reading is measured against the delivery system's reference
/// ceiling, counts only once a carrier was found, and stays unknown for
/// systems without a published ceiling.
pub open spec fn spec_snr_percent(
    stats: DtvFrontendStats,
    status: fe_status,
    delivery_system: Option<fe_delivery_system>,
    modulation: Option<fe_modulation>,
) -> Option<u8> {
    match stats.spec_relative() {
        Some(v) => Some(rel_percent_spec(v)),
        None => match stats.spec_decibel() {
            Some(d) => if status.spec_contains(FE_HAS_CARRIER) {
                match spec_snr_ceiling(delivery_system, modulation) {
                    Some(vhi) => Some(spec_snr_percent_from_decibel(d, vhi)),
                    None => None,
                }
            } else {
                None
            },
            None => None,
        },
    }
}

fn signal_percent_from_decibel(d: i64) -> (r: u8)
    ensures
        r == spec_signal_percent_from_decibel(d),
{
    if d > SIGNAL_CEIL_MDB {
        100
    } else if d < SIGNAL_FLOOR_MDB {
        0
    } else {
        let off: u64 = (d - SIGNAL_FLOOR_MDB) as u64;
        ((off * 100) / (SIGNAL_RANGE_MDB as u64)) as u8
    }
}

fn snr_percent_from_decibel(d: i64, vhi: i64) -> (r: u8)
    requires
        0 < vhi <= SNR_CEIL_DVBC_MDB,
    ensures
        r == spec_snr_percent_from_decibel(d, vhi),
{
    if d <= 0 {
        0
    } else if d >= vhi {
        100
    } else {
        (((d as u64) * 100) / (vhi as u64)) as u8
    }
}

/// Converts one signal-strength read into a decibel figure (0.001 dB
/// steps) and a percentage, gated on something having been found above
/// the noise level.
pub fn normalize_signal_strength(stats: &DtvFrontendStats, status: fe_status) -> (r: (
    Option<i64>,
    Option<u8>,
))
    ensures
        r.0 == spec_signal_decibel(*stats, status),
        r.1 == spec_signal_percent(*stats, status),
{
    let rel = stats.get_relative();
    let db = stats.get_decibel();
    let has_signal = status.contains(FE_HAS_SIGNAL);
    let decibel_out: Option<i64> = match (rel, db) {
        (Some(_), d) => d,
        (None, Some(d)) => if has_signal {
            Some(d)
        } else {
            None
        },
        (None, None) => None,
    };
    let percent_out: Option<u8> = match (rel, db) {
        (Some(v), _) => Some(((v as u32) * 100 / 65535) as u8),
        (None, Some(d)) => if has_signal {
            Some(signal_percent_from_decibel(d))
        } else {
            None
        },
        (None, None) => None,
    };
    (decibel_out, percent_out)
}

fn snr_ceiling(
    delivery_system: Option<fe_delivery_system>,
    modulation: Option<fe_modulation>,
) -> (r: Option<i64>)
    ensures
        r == spec_snr_ceiling(delivery_system, modulation),
        r is Some ==> 0 < r->0 <= SNR_CEIL_DVBC_MDB,
{
    match delivery_system {
        Some(ds) => match ds {
            fe_delivery_system::SYS_DVBS => Some(SNR_CEIL_DVBS_MDB),
            fe_delivery_system::SYS_DVBS2 => Some(SNR_CEIL_DVBS_MDB),
            fe_delivery_system::SYS_DVBC_ANNEX_A => Some(SNR_CEIL_DVBC_MDB),
            fe_delivery_system::SYS_DVBC_ANNEX_B => Some(SNR_CEIL_DVBC_MDB),
            fe_delivery_system::SYS_DVBC_ANNEX_C => Some(SNR_CEIL_DVBC_MDB),
            fe_delivery_system::SYS_DVBC2 => Some(SNR_CEIL_DVBC_MDB),
            fe_delivery_system::SYS_DVBT => Some(SNR_CEIL_DVBT_MDB),
            fe_delivery_system::SYS_DVBT2 => Some(SNR_CEIL_DVBT_MDB),
            fe_delivery_system::SYS_ATSC => match modulation {
                Some(fe_modulation::VSB_8) => Some(SNR_CEIL_DVBT_MDB),
                Some(fe_modulation::VSB_16) => Some(SNR_CEIL_DVBT_MDB),
                _ => Some(SNR_CEIL_DVBC_MDB),
            },
            _ => None,
        },
        None => None,
    }
}

/// Converts one SNR read into a decibel figure (0.001 dB steps) and a
/// percentage of the delivery system's reference ceiling, gated on a
/// carrier having been found.
pub fn normalize_snr(
    stats: &DtvFrontendStats,
    status: fe_status,
    delivery_system: Option<fe_delivery_system>,
    modulation: Option<fe_modulation>,
) -> (r: (Option<i64>, Option<u8>))
    ensures
        r.0 == spec_snr_decibel(*stats, status),
        r.1 == spec_snr_percent(*stats, status, delivery_system, modulation),
{
    let rel = stats.get_relative();
    let db = stats.get_decibel();
    let has_carrier = status.contains(FE_HAS_CARRIER);
    let decibel_out: Option<i64> = match (rel, db) {
        (Some(_), d) => d,
        (None, Some(d)) => if has_carrier {
            Some(d)
        } else {
            None
        },
        (None, None) => None,
    };
    let percent_out: Option<u8> = match (rel, db) {
        (Some(v), _) => Some(((v as u32) * 100 / 65535) as u8),
        (None, Some(d)) => if has_carrier {
            match snr_ceiling(delivery_system, modulation) {
                Some(vhi) => Some(snr_percent_from_decibel(d, vhi)),
                None => None,
            }
        } else {
            None
        },
        (None, None) => None,
    };
    (decibel_out, percent_out)
}

/// Law: for relative readings, the signal percentage is monotonically
/// non-decreasing in the raw value, the bottom of the scale reads 0% and
/// the top reads 100%; and the signal-strength percentage of a read whose
/// relative reading is `v` is exactly that scaled value, whatever the
/// lock status.
pub proof fn lemma_relative_percent_monotone(
    s1: DtvFrontendStats,
    s2: DtvFrontendStats,
    status: fe_status,
    v1: u16,
    v2: u16,
)
    requires
        s1.spec_relative() == Some(v1),
        s2.spec_relative() == Some(v2),
        v1 <= v2,
    ensures
        spec_signal_percent(s1, status) == Some(rel_percent_spec(v1)),
        spec_signal_percent(s2, status) == Some(rel_percent_spec(v2)),
        rel_percent_spec(v1) <= rel_percent_spec(v2),
        rel_percent_spec(0) == 0,
        rel_percent_spec(65535) == 100,
{
    let big: int = 65535;
    lemma_div_is_ordered((v1 as int) * 100, (v2 as int) * 100, big);
    lemma_div_is_ordered((v2 as int) * 100, big * 100, big);
    lemma_div_multiples_vanish(100, big);
}

/// Law: a decibel SNR reading at or above the delivery system's reference
/// ceiling reads 100%, once a carrier was found.
pub proof fn lemma_snr_percent_clamps_at_ceiling(
    stats: DtvFrontendStats,
    status: fe_status,
    delivery_system: Option<fe_delivery_system>,
    modulation: Option<fe_modulation>,
    d: i64,
    vhi: i64,
)
    requires
        stats.spec_relative() is None,
        stats.spec_decibel() == Some(d),
        status.spec_contains(FE_HAS_CARRIER),
        spec_snr_ceiling(delivery_system, modulation) == Some(vhi),
        d >= vhi,
    ensures
        spec_snr_percent(stats, status, delivery_system, modulation) == Some(100u8),
{
}

} // verus!
