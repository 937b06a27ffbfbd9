//! Frontend lock status: a small bitset describing how far the tuner has
//! progressed towards a full lock.

use vstd::prelude::*;

verus! {

/// No lock of any kind; the initial frontend status.
pub const FE_NONE: u32 = 0x00;

/// Found something above the noise level.
pub const FE_HAS_SIGNAL: u32 = 0x01;

/// Found a carrier.
pub const FE_HAS_CARRIER: u32 = 0x02;

/// FEC inner coding (Viterbi, LDPC or another inner code) is stable.
pub const FE_HAS_VITERBI: u32 = 0x04;

/// Synchronization bytes were found.
pub const FE_HAS_SYNC: u32 = 0x08;

/// Everything is working: the frontend is fully locked.
pub const FE_HAS_LOCK: u32 = 0x10;

/// No lock within the last couple of seconds.
pub const FE_TIMEDOUT: u32 = 0x20;

/// The frontend was reinitialized; DiSEqC, tone and parameters should be
/// set again by the application.
pub const FE_REINIT: u32 = 0x40;

/// Mask of all bits a frontend may report.
pub const FE_STATUS_ALL: u32 = 0x7F;

/// Frontend lock status bitset, as reported by the status read.
#[allow(non_camel_case_types)]
#[derive(Debug, Clone, Copy, PartialEq, Eq, Structural)]
pub struct fe_status {
    pub bits: u32,
}

impl fe_status {
    /// True when every bit of `mask` is set.
    pub open spec fn spec_contains(self, mask: u32) -> bool {
        self.bits & mask == mask
    }

    /// The empty status: tuner off or unlocked with no partial progress.
    pub fn none() -> (r: fe_status)
        ensures
            r.bits == FE_NONE,
    {
        fe_status { bits: FE_NONE }
    }

    /// Builds a status from raw bits, accepting only known flags.
    pub fn from_bits(bits: u32) -> (r: Option<fe_status>)
        ensures
            (bits & FE_STATUS_ALL == bits) <==> r is Some,
            r is Some ==> r->0.bits == bits,
    {
        if bits & FE_STATUS_ALL == bits {
            Some(fe_status { bits })
        } else {
            None
        }
    }

    /// True when every bit of `mask` is set in this status.
    pub fn contains(&self, mask: u32) -> (r: bool)
        ensures
            r == self.spec_contains(mask),
    {
        self.bits & mask == mask
    }

    /// True when no bit at all is set.
    pub fn is_empty(&self) -> (r: bool)
        ensures
            r == (self.bits == FE_NONE),
    {
        self.bits == FE_NONE
    }
}

} // verus!
