//! Frontend capabilities: the bitset a device declares at open time,
//! together with its valid frequency and symbol-rate ranges. Captured once
//! and never mutated afterwards.

use vstd::prelude::*;

verus! {

/// There is something wrong at the frontend and it cannot report its
/// capabilities.
pub const FE_IS_STUPID: u32 = 0x0;

/// Can auto-detect frequency spectral band inversion.
pub const FE_CAN_INVERSION_AUTO: u32 = 0x1;

/// Supports FEC 1/2.
pub const FE_CAN_FEC_1_2: u32 = 0x2;

/// Supports FEC 2/3.
pub const FE_CAN_FEC_2_3: u32 = 0x4;

/// Supports FEC 3/4.
pub const FE_CAN_FEC_3_4: u32 = 0x8;

/// Supports FEC 4/5.
pub const FE_CAN_FEC_4_5: u32 = 0x10;

/// Supports FEC 5/6.
pub const FE_CAN_FEC_5_6: u32 = 0x20;

/// Supports FEC 6/7.
pub const FE_CAN_FEC_6_7: u32 = 0x40;

/// Supports FEC 7/8.
pub const FE_CAN_FEC_7_8: u32 = 0x80;

/// Supports FEC 8/9.
pub const FE_CAN_FEC_8_9: u32 = 0x100;

/// Can auto-detect FEC.
pub const FE_CAN_FEC_AUTO: u32 = 0x200;

/// Supports QPSK modulation.
pub const FE_CAN_QPSK: u32 = 0x400;

/// Supports 16-QAM modulation.
pub const FE_CAN_QAM_16: u32 = 0x800;

/// Supports 32-QAM modulation.
pub const FE_CAN_QAM_32: u32 = 0x1000;

/// Supports 64-QAM modulation.
pub const FE_CAN_QAM_64: u32 = 0x2000;

/// Supports 128-QAM modulation.
pub const FE_CAN_QAM_128: u32 = 0x4000;

/// Supports 256-QAM modulation.
pub const FE_CAN_QAM_256: u32 = 0x8000;

/// Can auto-detect QAM modulation.
pub const FE_CAN_QAM_AUTO: u32 = 0x10000;

/// Can auto-detect transmission mode.
pub const FE_CAN_TRANSMISSION_MODE_AUTO: u32 = 0x20000;

/// Can auto-detect bandwidth.
pub const FE_CAN_BANDWIDTH_AUTO: u32 = 0x40000;

/// Can auto-detect guard interval.
pub const FE_CAN_GUARD_INTERVAL_AUTO: u32 = 0x80000;

/// Can auto-detect hierarchy.
pub const FE_CAN_HIERARCHY_AUTO: u32 = 0x100000;

/// Supports 8-VSB modulation.
pub const FE_CAN_8VSB: u32 = 0x200000;

/// Supports 16-VSB modulation.
pub const FE_CAN_16VSB: u32 = 0x400000;

/// Unused.
pub const FE_HAS_EXTENDED_CAPS: u32 = 0x800000;

/// Supports multistream filtering.
pub const FE_CAN_MULTISTREAM: u32 = 0x4000000;

/// Supports "turbo FEC" modulation.
pub const FE_CAN_TURBO_FEC: u32 = 0x8000000;

/// Supports "2nd generation" modulation, e.g. DVB-S2, DVB-T2, DVB-C2.
pub const FE_CAN_2G_MODULATION: u32 = 0x10000000;

/// Unused.
pub const FE_NEEDS_BENDING: u32 = 0x20000000;

/// Can recover from a cable unplug automatically.
pub const FE_CAN_RECOVER: u32 = 0x40000000;

/// Can stop spurious TS data output.
pub const FE_CAN_MUTE_TS: u32 = 0x80000000;

/// Frontend capability bitset.
#[allow(non_camel_case_types)]
#[derive(Debug, Clone, Copy, PartialEq, Eq, Structural)]
pub struct fe_caps {
    pub bits: u32,
}

impl fe_caps {
    /// True when every bit of `mask` is set.
    pub open spec fn spec_contains(self, mask: u32) -> bool {
        self.bits & mask == mask
    }

    /// No capability bit set.
    pub fn none() -> (r: fe_caps)
        ensures
            r.bits == 0,
    {
        fe_caps { bits: 0 }
    }

    /// Builds a capability set from raw bits.
    pub fn from_bits(bits: u32) -> (r: fe_caps)
        ensures
            r.bits == bits,
    {
        fe_caps { bits }
    }

    /// True when every bit of `mask` is set in this capability set.
    pub fn contains(&self, mask: u32) -> (r: bool)
        ensures
            r == self.spec_contains(mask),
    {
        self.bits & mask == mask
    }
}

/// What a device declared at open time: its capability bits, its valid
/// frequency range and its valid symbol-rate range. Frequencies are in Hz
/// for terrestrial and cable systems and in kHz for satellite systems;
/// both ranges are half-open, the upper bound excluded.
#[derive(Debug, Clone, Copy, PartialEq, Eq, Structural)]
pub struct Capabilities {
    /// Capability bits the device reported.
    pub caps: fe_caps,
    /// Lowest valid frequency, inclusive.
    pub frequency_min: u32,
    /// Lowest invalid frequency above the range, exclusive bound.
    pub frequency_max: u32,
    /// Lowest valid symbol rate, inclusive.
    pub symbolrate_min: u32,
    /// Lowest invalid symbol rate above the range, exclusive bound.
    pub symbolrate_max: u32,
}

impl Capabilities {
    /// True when `v` lies in the declared frequency range.
    pub open spec fn spec_frequency_in_range(self, v: u32) -> bool {
        self.frequency_min <= v < self.frequency_max
    }

    /// True when `v` lies in the declared symbol-rate range.
    pub open spec fn spec_symbolrate_in_range(self, v: u32) -> bool {
        self.symbolrate_min <= v < self.symbolrate_max
    }

    /// Returns whether `v` lies in the declared frequency range.
    pub fn frequency_in_range(&self, v: u32) -> (r: bool)
        ensures
            r == self.spec_frequency_in_range(v),
    {
        self.frequency_min <= v && v < self.frequency_max
    }

    /// Returns whether `v` lies in the declared symbol-rate range.
    pub fn symbolrate_in_range(&self, v: u32) -> (r: bool)
        ensures
            r == self.spec_symbolrate_in_range(v),
    {
        self.symbolrate_min <= v && v < self.symbolrate_max
    }
}

} // verus!
