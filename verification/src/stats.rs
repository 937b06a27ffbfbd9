//! Raw quality-statistic values as a frontend reports them.
//!
//! A driver reports each quality metric in one of three scales, or marks it
//! unavailable; a multi-source read carries up to [`MAX_DTV_STATS`] such
//! values, in driver-declared order.

use vstd::prelude::*;

verus! {

/// The measure is not available, temporarily or permanently.
#[derive(Debug, Clone, Copy, PartialEq, Eq, Structural)]
pub struct NoScale {}

/// A measure in 0.001 dB steps, typically used on signal readings.
#[derive(Debug, Clone, Copy, PartialEq, Eq, Structural)]
pub struct ScaleDecibel {
    pub scale: i64,
}

/// A relative measure, ranging from 0 (0%) to 0xFFFF (100%).
#[derive(Debug, Clone, Copy, PartialEq, Eq, Structural)]
pub struct ScaleRelative {
    pub scale: u16,
}

/// A count of events: bit errors, block errors, lapsed time.
#[derive(Debug, Clone, Copy, PartialEq, Eq, Structural)]
pub struct ScaleCounter {
    pub scale: u64,
}

/// One quality-statistic value; exactly one scale kind is active.
#[allow(non_camel_case_types)]
#[derive(Debug, Clone, Copy, PartialEq, Eq, Structural)]
pub enum DtvStat {
    /// The measure is not available.
    FE_SCALE_NOT_AVAILABLE(NoScale),
    /// The measure is in 0.001 dB steps.
    FE_SCALE_DECIBEL(ScaleDecibel),
    /// The measure is relative, 0 to 0xFFFF.
    FE_SCALE_RELATIVE(ScaleRelative),
    /// The measure counts occurrences of an event.
    FE_SCALE_COUNTER(ScaleCounter),
}

/// A relative 0..=0xFFFF reading as a percentage, rounded down.
pub open spec fn rel_percent_spec(v: u16) -> u8 {
    ((v as u32) * 100 / 65535) as u8
}

/// Common view over a single statistic value and over a multi-source read:
/// the reading each scale kind carries, if that kind is present.
pub trait DtvStatType {
    /// The decibel reading carried, if any.
    spec fn spec_decibel(&self) -> Option<i64>;

    /// The relative reading carried, if any.
    spec fn spec_relative(&self) -> Option<u16>;

    /// The counter reading carried, if any.
    spec fn spec_counter(&self) -> Option<u64>;

    /// Returns the decibel reading, in 0.001 dB steps, if present.
    fn get_decibel(&self) -> (r: Option<i64>)
        ensures
            r == self.spec_decibel(),
    ;

    /// Returns the relative 0..=0xFFFF reading, if present.
    fn get_relative(&self) -> (r: Option<u16>)
        ensures
            r == self.spec_relative(),
    ;

    /// Returns the counter reading, if present.
    fn get_counter(&self) -> (r: Option<u64>)
        ensures
            r == self.spec_counter(),
    ;

    /// Returns the relative reading as a percentage, if present.
    fn get_relative_percentage(&self) -> (r: Option<u8>)
        ensures
            r == match self.spec_relative() {
                Some(v) => Some(rel_percent_spec(v)),
                None => None,
            },
    {
        match self.get_relative() {
            Some(v) => Some(((v as u32) * 100 / 65535) as u8),
            None => None,
        }
    }
}

impl DtvStatType for DtvStat {
    open spec fn spec_decibel(&self) -> Option<i64> {
        match self {
            DtvStat::FE_SCALE_DECIBEL(s) => Some(s.scale),
            _ => None,
        }
    }

    open spec fn spec_relative(&self) -> Option<u16> {
        match self {
            DtvStat::FE_SCALE_RELATIVE(s) => Some(s.scale),
            _ => None,
        }
    }

    open spec fn spec_counter(&self) -> Option<u64> {
        match self {
            DtvStat::FE_SCALE_COUNTER(s) => Some(s.scale),
            _ => None,
        }
    }

    fn get_decibel(&self) -> (r: Option<i64>) {
        match self {
            DtvStat::FE_SCALE_DECIBEL(s) => Some(s.scale),
            _ => None,
        }
    }

    fn get_relative(&self) -> (r: Option<u16>) {
        match self {
            DtvStat::FE_SCALE_RELATIVE(s) => Some(s.scale),
            _ => None,
        }
    }

    fn get_counter(&self) -> (r: Option<u64>) {
        match self {
            DtvStat::FE_SCALE_COUNTER(s) => Some(s.scale),
            _ => None,
        }
    }
}

impl DtvStat {
    /// A value that carries no reading.
    pub fn not_available() -> (r: DtvStat)
        ensures
            r == DtvStat::FE_SCALE_NOT_AVAILABLE(NoScale {}),
    {
        DtvStat::FE_SCALE_NOT_AVAILABLE(NoScale {})
    }

    /// A decibel reading, in 0.001 dB steps.
    pub fn decibel(v: i64) -> (r: DtvStat)
        ensures
            r == DtvStat::FE_SCALE_DECIBEL(ScaleDecibel { scale: v }),
    {
        DtvStat::FE_SCALE_DECIBEL(ScaleDecibel { scale: v })
    }

    /// A relative reading, 0 to 0xFFFF.
    pub fn relative(v: u16) -> (r: DtvStat)
        ensures
            r == DtvStat::FE_SCALE_RELATIVE(ScaleRelative { scale: v }),
    {
        DtvStat::FE_SCALE_RELATIVE(ScaleRelative { scale: v })
    }

    /// A counter reading.
    pub fn counter(v: u64) -> (r: DtvStat)
        ensures
            r == DtvStat::FE_SCALE_COUNTER(ScaleCounter { scale: v }),
    {
        DtvStat::FE_SCALE_COUNTER(ScaleCounter { scale: v })
    }

    /// True when this value carries a reading of some scale kind.
    pub open spec fn spec_is_available(self) -> bool {
        !(self is FE_SCALE_NOT_AVAILABLE)
    }

    /// Returns whether this value carries a reading.
    pub fn is_available(&self) -> (r: bool)
        ensures
            r == self.spec_is_available(),
    {
        !matches!(self, DtvStat::FE_SCALE_NOT_AVAILABLE(_))
    }
}

/// Hard ceiling on the number of values one multi-source read can carry.
pub const MAX_DTV_STATS: usize = 4;

/// One multi-source statistics read: a declared count and four fixed slots,
/// of which the first `len` are meaningful, in driver-declared order.
#[derive(Debug, Clone, Copy, PartialEq, Eq, Structural)]
pub struct DtvFrontendStats {
    /// How many of the four slots the driver filled.
    pub len: u8,
    pub stat0: DtvStat,
    pub stat1: DtvStat,
    pub stat2: DtvStat,
    pub stat3: DtvStat,
}

impl DtvFrontendStats {
    /// The declared count never exceeds the fixed capacity.
    pub open spec fn wf(self) -> bool {
        self.len <= MAX_DTV_STATS
    }

    /// The number of meaningful slots, clamped to the fixed capacity.
    pub open spec fn n_spec(self) -> int {
        if self.len <= MAX_DTV_STATS {
            self.len as int
        } else {
            MAX_DTV_STATS as int
        }
    }

    /// The meaningful slots, in driver-declared order.
    pub open spec fn stats_seq(self) -> Seq<DtvStat> {
        seq![self.stat0, self.stat1, self.stat2, self.stat3].take(self.n_spec())
    }

    /// An empty read: no slot filled.
    pub fn empty() -> (r: DtvFrontendStats)
        ensures
            r.len == 0,
            r.wf(),
            r.stats_seq() =~= Seq::<DtvStat>::empty(),
            r.stat0 == DtvStat::FE_SCALE_NOT_AVAILABLE(NoScale {}),
            r.stat1 == DtvStat::FE_SCALE_NOT_AVAILABLE(NoScale {}),
            r.stat2 == DtvStat::FE_SCALE_NOT_AVAILABLE(NoScale {}),
            r.stat3 == DtvStat::FE_SCALE_NOT_AVAILABLE(NoScale {}),
    {
        DtvFrontendStats {
            len: 0,
            stat0: DtvStat::not_available(),
            stat1: DtvStat::not_available(),
            stat2: DtvStat::not_available(),
            stat3: DtvStat::not_available(),
        }
    }

    /// Builds a read from a list of values; fails when the list exceeds the
    /// fixed capacity. Unused slots are left unavailable.
    pub fn from_vec(v: &Vec<DtvStat>) -> (r: Option<DtvFrontendStats>)
        ensures
            (v@.len() <= MAX_DTV_STATS) <==> r is Some,
            r is Some ==> r->0.wf() && r->0.stats_seq() =~= v@,
    {
        if v.len() > MAX_DTV_STATS {
            return None;
        }
        let mut r = DtvFrontendStats::empty();
        r.len = v.len() as u8;
        if v.len() >= 1 {
            r.stat0 = v[0];
        }
        if v.len() >= 2 {
            r.stat1 = v[1];
        }
        if v.len() >= 3 {
            r.stat2 = v[2];
        }
        if v.len() >= 4 {
            r.stat3 = v[3];
        }
        assert(r.stats_seq() =~= v@);
        Some(r)
    }

    /// Returns the slots the driver filled, in driver-declared order.
    pub fn slots(&self) -> (r: Vec<DtvStat>)
        ensures
            r@ =~= self.stats_seq(),
    {
        let n: usize = if self.len as usize > MAX_DTV_STATS {
            MAX_DTV_STATS
        } else {
            self.len as usize
        };
        let mut r: Vec<DtvStat> = Vec::new();
        if n >= 1 {
            r.push(self.stat0);
        }
        if n >= 2 {
            r.push(self.stat1);
        }
        if n >= 3 {
            r.push(self.stat2);
        }
        if n >= 4 {
            r.push(self.stat3);
        }
        assert(r@ =~= self.stats_seq());
        r
    }

    /// The first filled slot that carries a reading, in driver-declared
    /// order; the driver's order is authoritative, readings are never merged.
    pub open spec fn spec_first_available(self) -> Option<DtvStat> {
        let n = self.n_spec();
        if n >= 1 && self.stat0.spec_is_available() {
            Some(self.stat0)
        } else if n >= 2 && self.stat1.spec_is_available() {
            Some(self.stat1)
        } else if n >= 3 && self.stat2.spec_is_available() {
            Some(self.stat2)
        } else if n >= 4 && self.stat3.spec_is_available() {
            Some(self.stat3)
        } else {
            None
        }
    }

    /// Returns the first filled slot that carries a reading, if any.
    pub fn first_available(&self) -> (r: Option<DtvStat>)
        ensures
            r == self.spec_first_available(),
    {
        let n: usize = if self.len as usize > MAX_DTV_STATS {
            MAX_DTV_STATS
        } else {
            self.len as usize
        };
        if n >= 1 && self.stat0.is_available() {
            Some(self.stat0)
        } else if n >= 2 && self.stat1.is_available() {
            Some(self.stat1)
        } else if n >= 3 && self.stat2.is_available() {
            Some(self.stat2)
        } else if n >= 4 && self.stat3.is_available() {
            Some(self.stat3)
        } else {
            None
        }
    }
}

impl DtvStatType for DtvFrontendStats {
    /// The first filled decibel reading, in driver-declared order.
    open spec fn spec_decibel(&self) -> Option<i64> {
        let n = self.n_spec();
        if n >= 1 && self.stat0.spec_decibel() is Some {
            self.stat0.spec_decibel()
        } else if n >= 2 && self.stat1.spec_decibel() is Some {
            self.stat1.spec_decibel()
        } else if n >= 3 && self.stat2.spec_decibel() is Some {
            self.stat2.spec_decibel()
        } else if n >= 4 && self.stat3.spec_decibel() is Some {
            self.stat3.spec_decibel()
        } else {
            None
        }
    }

    /// The first filled relative reading, in driver-declared order.
    open spec fn spec_relative(&self) -> Option<u16> {
        let n = self.n_spec();
        if n >= 1 && self.stat0.spec_relative() is Some {
            self.stat0.spec_relative()
        } else if n >= 2 && self.stat1.spec_relative() is Some {
            self.stat1.spec_relative()
        } else if n >= 3 && self.stat2.spec_relative() is Some {
            self.stat2.spec_relative()
        } else if n >= 4 && self.stat3.spec_relative() is Some {
            self.stat3.spec_relative()
        } else {
            None
        }
    }

    /// The first filled counter reading, in driver-declared order.
    open spec fn spec_counter(&self) -> Option<u64> {
        let n = self.n_spec();
        if n >= 1 && self.stat0.spec_counter() is Some {
            self.stat0.spec_counter()
        } else if n >= 2 && self.stat1.spec_counter() is Some {
            self.stat1.spec_counter()
        } else if n >= 3 && self.stat2.spec_counter() is Some {
            self.stat2.spec_counter()
        } else if n >= 4 && self.stat3.spec_counter() is Some {
            self.stat3.spec_counter()
        } else {
            None
        }
    }

    fn get_decibel(&self) -> (r: Option<i64>) {
        let n: usize = if self.len as usize > MAX_DTV_STATS {
            MAX_DTV_STATS
        } else {
            self.len as usize
        };
        if n >= 1 && matches!(self.stat0, DtvStat::FE_SCALE_DECIBEL(_)) {
            self.stat0.get_decibel()
        } else if n >= 2 && matches!(self.stat1, DtvStat::FE_SCALE_DECIBEL(_)) {
            self.stat1.get_decibel()
        } else if n >= 3 && matches!(self.stat2, DtvStat::FE_SCALE_DECIBEL(_)) {
            self.stat2.get_decibel()
        } else if n >= 4 && matches!(self.stat3, DtvStat::FE_SCALE_DECIBEL(_)) {
            self.stat3.get_decibel()
        } else {
            None
        }
    }

    fn get_relative(&self) -> (r: Option<u16>) {
        let n: usize = if self.len as usize > MAX_DTV_STATS {
            MAX_DTV_STATS
        } else {
            self.len as usize
        };
        if n >= 1 && matches!(self.stat0, DtvStat::FE_SCALE_RELATIVE(_)) {
            self.stat0.get_relative()
        } else if n >= 2 && matches!(self.stat1, DtvStat::FE_SCALE_RELATIVE(_)) {
            self.stat1.get_relative()
        } else if n >= 3 && matches!(self.stat2, DtvStat::FE_SCALE_RELATIVE(_)) {
            self.stat2.get_relative()
        } else if n >= 4 && matches!(self.stat3, DtvStat::FE_SCALE_RELATIVE(_)) {
            self.stat3.get_relative()
        } else {
            None
        }
    }

    fn get_counter(&self) -> (r: Option<u64>) {
        let n: usize = if self.len as usize > MAX_DTV_STATS {
            MAX_DTV_STATS
        } else {
            self.len as usize
        };
        if n >= 1 && matches!(self.stat0, DtvStat::FE_SCALE_COUNTER(_)) {
            self.stat0.get_counter()
        } else if n >= 2 && matches!(self.stat1, DtvStat::FE_SCALE_COUNTER(_)) {
            self.stat1.get_counter()
        } else if n >= 3 && matches!(self.stat2, DtvStat::FE_SCALE_COUNTER(_)) {
            self.stat2.get_counter()
        } else if n >= 4 && matches!(self.stat3, DtvStat::FE_SCALE_COUNTER(_)) {
            self.stat3.get_counter()
        } else {
            None
        }
    }
}

} // verus!
