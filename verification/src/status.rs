//! The status snapshot and the poll cycle that assembles it.
//!
//! A poll is a pure function of the readings taken at that instant: the
//! lock status decides whether the batched property read is issued at all,
//! and which of the optional fields the snapshot carries. The device calls
//! themselves live outside this crate; the caller reads the lock status,
//! hands the raw records to [`FeStatus::apply_properties`], and performs
//! the legacy scalar reads only where [`LegacyNeeds`] asks for them.

use vstd::prelude::*;
use crate::codec::{
    decode, query_record, spec_parse_stats, spec_parse_u32, spec_void_payload, DtvProperty,
    ProtocolError, WireRecord, DTV_DELIVERY_SYSTEM_CODE, DTV_MODULATION_CODE, DTV_STAT_CNR_CODE,
    DTV_STAT_ERROR_BLOCK_COUNT_CODE, DTV_STAT_PRE_ERROR_BIT_COUNT_CODE,
    DTV_STAT_SIGNAL_STRENGTH_CODE,
};
use crate::enums::{fe_delivery_system, fe_modulation};
use crate::normalize::{
    normalize_signal_strength, normalize_snr, spec_signal_decibel, spec_signal_percent,
    spec_snr_decibel, spec_snr_percent,
};
use crate::stats::{DtvFrontendStats, DtvStatType};
use crate::status_bits::{fe_status, FE_HAS_CARRIER, FE_HAS_LOCK, FE_HAS_SIGNAL, FE_NONE};

verus! {

/// Which legacy scalar reads a poll still needs: the multi-source read
/// carried no counter for the metric, and the lock bit that makes the
/// legacy call meaningful is set.
#[derive(Debug, Clone, Copy, PartialEq, Eq, Structural)]
pub struct LegacyNeeds {
    /// The bit-error counter must be read through the legacy call.
    pub ber: bool,
    /// The uncorrected-blocks counter must be read through the legacy call.
    pub unc: bool,
}

/// A point-in-time, immutable snapshot of the frontend: the lock status
/// and, strictly according to which lock bits are set, the delivery
/// system, modulation and the four quality metrics. A new snapshot
/// replaces the previous one each poll; no history is retained.
#[derive(Debug, Clone, Copy, PartialEq, Eq, Structural)]
pub struct FeStatus {
    /// Lock status read at this instant.
    pub status: fe_status,
    /// Delivery system in use; populated once any lock bit is set.
    pub delivery_system: Option<fe_delivery_system>,
    /// Modulation in use; populated once any lock bit is set.
    pub modulation: Option<fe_modulation>,
    /// Signal strength in 0.001 dB steps; needs the has-signal bit.
    pub signal_strength_decibel: Option<i64>,
    /// Signal strength as a percentage; needs the has-signal bit.
    pub signal_strength_percentage: Option<u8>,
    /// Signal-to-noise ratio in 0.001 dB steps; needs the has-carrier bit.
    pub snr_decibel: Option<i64>,
    /// Signal-to-noise ratio as a percentage; needs the has-carrier bit.
    pub snr_percentage: Option<u8>,
    /// Number of bit errors, a cumulative counter.
    pub ber: Option<u64>,
    /// Number of uncorrected blocks, a cumulative counter.
    pub unc: Option<u64>,
}

/// The snapshot of a tuner that is off or unlocked with no partial
/// progress: every optional field empty.
pub open spec fn spec_off() -> FeStatus {
    FeStatus {
        status: fe_status { bits: FE_NONE },
        delivery_system: None,
        modulation: None,
        signal_strength_decibel: None,
        signal_strength_percentage: None,
        snr_decibel: None,
        snr_percentage: None,
        ber: None,
        unc: None,
    }
}

/// The delivery system a poll response carries, or the decode error.
pub open spec fn spec_poll_ds(records: Seq<WireRecord>) -> Result<
    fe_delivery_system,
    ProtocolError,
> {
    if records[0].cmd != DTV_DELIVERY_SYSTEM_CODE {
        Err(ProtocolError::TagMismatch)
    } else {
        match fe_delivery_system::from_repr_spec(spec_parse_u32(records[0].data@)) {
            Some(ds) => Ok(ds),
            None => Err(ProtocolError::InvalidValue),
        }
    }
}

/// The modulation a poll response carries, or the decode error.
pub open spec fn spec_poll_mod(records: Seq<WireRecord>) -> Result<fe_modulation, ProtocolError> {
    if records[1].cmd != DTV_MODULATION_CODE {
        Err(ProtocolError::TagMismatch)
    } else {
        match fe_modulation::from_repr_spec(spec_parse_u32(records[1].data@)) {
            Some(m) => Ok(m),
            None => Err(ProtocolError::InvalidValue),
        }
    }
}

/// The statistics read at position `i` of a poll response, expected to be
/// tagged `code`, or the decode error.
pub open spec fn spec_poll_stats(records: Seq<WireRecord>, i: int, code: u32) -> Result<
    DtvFrontendStats,
    ProtocolError,
> {
    if records[i].cmd != code {
        Err(ProtocolError::TagMismatch)
    } else {
        spec_parse_stats(records[i].data@)
    }
}

/// What applying a poll response to a snapshot yields: either the decoded
/// and normalized snapshot together with the legacy reads still owed, or
/// the first decode error in record order, which aborts the whole poll.
///
/// Delivery system and modulation are populated unconditionally (a poll
/// response is only fetched once some lock bit is set); signal fields need
/// the has-signal bit, SNR fields the has-carrier bit; a counter found in
/// the multi-source read is taken as is, and the legacy fallback is owed
/// only where no counter came back and the has-lock bit is set.
pub open spec fn spec_apply(pre: FeStatus, records: Seq<WireRecord>) -> Result<
    (FeStatus, LegacyNeeds),
    ProtocolError,
> {
    let status = pre.status;
    match spec_poll_ds(records) {
        Err(e) => Err(e),
        Ok(ds) => match spec_poll_mod(records) {
            Err(e) => Err(e),
            Ok(md) => match spec_poll_stats(records, 2, DTV_STAT_SIGNAL_STRENGTH_CODE) {
                Err(e) => Err(e),
                Ok(sig) => match spec_poll_stats(records, 3, DTV_STAT_CNR_CODE) {
                    Err(e) => Err(e),
                    Ok(cnr) => match spec_poll_stats(
                        records,
                        4,
                        DTV_STAT_PRE_ERROR_BIT_COUNT_CODE,
                    ) {
                        Err(e) => Err(e),
                        Ok(berstats) => match spec_poll_stats(
                            records,
                            5,
                            DTV_STAT_ERROR_BLOCK_COUNT_CODE,
                        ) {
                            Err(e) => Err(e),
                            Ok(uncstats) => Ok(spec_assemble(
                                status,
                                ds,
                                md,
                                sig,
                                cnr,
                                berstats,
                                uncstats,
                            )),
                        },
                    },
                },
            },
        },
    }
}

/// Assembles the snapshot from the decoded poll response, gating each
/// optional field on the lock bit it needs.
pub open spec fn spec_assemble(
    status: fe_status,
    ds: fe_delivery_system,
    md: fe_modulation,
    sig: DtvFrontendStats,
    cnr: DtvFrontendStats,
    berstats: DtvFrontendStats,
    uncstats: DtvFrontendStats,
) -> (FeStatus, LegacyNeeds) {
    let has_signal = status.spec_contains(FE_HAS_SIGNAL);
    let has_carrier = status.spec_contains(FE_HAS_CARRIER);
    let has_lock = status.spec_contains(FE_HAS_LOCK);
    let ber_counter = berstats.spec_counter();
    let unc_counter = uncstats.spec_counter();
    (
        FeStatus {
            status,
            delivery_system: Some(ds),
            modulation: Some(md),
            signal_strength_decibel: if has_signal {
                spec_signal_decibel(sig, status)
            } else {
                None
            },
            signal_strength_percentage: if has_signal {
                spec_signal_percent(sig, status)
            } else {
                None
            },
            snr_decibel: if has_carrier {
                spec_snr_decibel(cnr, status)
            } else {
                None
            },
            snr_percentage: if has_carrier {
                spec_snr_percent(cnr, status, Some(ds), Some(md))
            } else {
                None
            },
            ber: ber_counter,
            unc: unc_counter,
        },
        LegacyNeeds {
            ber: ber_counter is None && has_lock,
            unc: unc_counter is None && has_lock,
        },
    )
}

impl FeStatus {
    /// The snapshot of a tuner that is off: every optional field empty.
    pub fn off() -> (r: FeStatus)
        ensures
            r == spec_off(),
    {
        FeStatus {
            status: fe_status { bits: FE_NONE },
            delivery_system: None,
            modulation: None,
            signal_strength_decibel: None,
            signal_strength_percentage: None,
            snr_decibel: None,
            snr_percentage: None,
            ber: None,
            unc: None,
        }
    }

    /// Starts a poll from a lock status just read: an empty snapshot
    /// carrying that status, and whether the batched property read is to
    /// be issued at all. When it is not, the snapshot is already complete:
    /// a tuner with no lock bit at all gets no further reads.
    pub fn begin_poll(status: fe_status) -> (r: (FeStatus, bool))
        ensures
            r.0 == (FeStatus { status, ..spec_off() }),
            r.1 == (status.bits != FE_NONE),
    {
        let mut st = FeStatus::off();
        st.status = status;
        let go = !status.is_empty();
        (st, go)
    }

    /// The six property kinds one status poll queries, in order: delivery
    /// system, modulation, then the four quality-statistic kinds.
    pub fn poll_query() -> (r: Vec<WireRecord>)
        ensures
            r@.len() == 6,
            forall|i: int| 0 <= i < 6 ==> (#[trigger] r@[i]).wf(),
            forall|i: int| 0 <= i < 6 ==> (#[trigger] r@[i]).data@ == spec_void_payload(),
            r@[0].cmd == DTV_DELIVERY_SYSTEM_CODE,
            r@[1].cmd == DTV_MODULATION_CODE,
            r@[2].cmd == DTV_STAT_SIGNAL_STRENGTH_CODE,
            r@[3].cmd == DTV_STAT_CNR_CODE,
            r@[4].cmd == DTV_STAT_PRE_ERROR_BIT_COUNT_CODE,
            r@[5].cmd == DTV_STAT_ERROR_BLOCK_COUNT_CODE,
    {
        let mut r: Vec<WireRecord> = Vec::new();
        r.push(query_record(DTV_DELIVERY_SYSTEM_CODE));
        r.push(query_record(DTV_MODULATION_CODE));
        r.push(query_record(DTV_STAT_SIGNAL_STRENGTH_CODE));
        r.push(query_record(DTV_STAT_CNR_CODE));
        r.push(query_record(DTV_STAT_PRE_ERROR_BIT_COUNT_CODE));
        r.push(query_record(DTV_STAT_ERROR_BLOCK_COUNT_CODE));
        r
    }

    /// Applies a poll response: decodes the six records, normalizes the
    /// readings, and fills the snapshot, each optional field gated on the
    /// lock bit it needs. A decode failure aborts the whole poll and
    /// leaves the snapshot unchanged. On success the result says which
    /// legacy scalar reads are still owed.
    pub fn apply_properties(&mut self, records: &Vec<WireRecord>) -> (r: Result<
        LegacyNeeds,
        ProtocolError,
    >)
        requires
            old(self).status.bits != FE_NONE,
            records@.len() == 6,
            forall|i: int| 0 <= i < 6 ==> (#[trigger] records@[i]).wf(),
        ensures
            match spec_apply(*old(self), records@) {
                Ok((st, needs)) => r == Ok::<LegacyNeeds, ProtocolError>(needs) && *final(self)
                    == st,
                Err(e) => r == Err::<LegacyNeeds, ProtocolError>(e) && *final(self) == *old(self),
            },
    {
        let ds: fe_delivery_system = match decode(DTV_DELIVERY_SYSTEM_CODE, &records[0]) {
            Ok(DtvProperty::DTV_DELIVERY_SYSTEM(d)) => d.data,
            Ok(_) => {
                return Err(ProtocolError::TagMismatch);
            },
            Err(e) => {
                return Err(e);
            },
        };
        let md: fe_modulation = match decode(DTV_MODULATION_CODE, &records[1]) {
            Ok(DtvProperty::DTV_MODULATION(d)) => d.data,
            Ok(_) => {
                return Err(ProtocolError::TagMismatch);
            },
            Err(e) => {
                return Err(e);
            },
        };
        let sig: DtvFrontendStats = match decode(DTV_STAT_SIGNAL_STRENGTH_CODE, &records[2]) {
            Ok(DtvProperty::DTV_STAT_SIGNAL_STRENGTH(d)) => d.data,
            Ok(_) => {
                return Err(ProtocolError::TagMismatch);
            },
            Err(e) => {
                return Err(e);
            },
        };
        let cnr: DtvFrontendStats = match decode(DTV_STAT_CNR_CODE, &records[3]) {
            Ok(DtvProperty::DTV_STAT_CNR(d)) => d.data,
            Ok(_) => {
                return Err(ProtocolError::TagMismatch);
            },
            Err(e) => {
                return Err(e);
            },
        };
        let berstats: DtvFrontendStats = match decode(
            DTV_STAT_PRE_ERROR_BIT_COUNT_CODE,
            &records[4],
        ) {
            Ok(DtvProperty::DTV_STAT_PRE_ERROR_BIT_COUNT(d)) => d.data,
            Ok(_) => {
                return Err(ProtocolError::TagMismatch);
            },
            Err(e) => {
                return Err(e);
            },
        };
        let uncstats: DtvFrontendStats = match decode(
            DTV_STAT_ERROR_BLOCK_COUNT_CODE,
            &records[5],
        ) {
            Ok(DtvProperty::DTV_STAT_ERROR_BLOCK_COUNT(d)) => d.data,
            Ok(_) => {
                return Err(ProtocolError::TagMismatch);
            },
            Err(e) => {
                return Err(e);
            },
        };
        let status = self.status;
        let has_signal = status.contains(FE_HAS_SIGNAL);
        let has_carrier = status.contains(FE_HAS_CARRIER);
        let has_lock = status.contains(FE_HAS_LOCK);
        self.delivery_system = Some(ds);
        self.modulation = Some(md);
        if has_signal {
            let (sdb, spct) = normalize_signal_strength(&sig, status);
            self.signal_strength_decibel = sdb;
            self.signal_strength_percentage = spct;
        } else {
            self.signal_strength_decibel = None;
            self.signal_strength_percentage = None;
        }
        if has_carrier {
            let (qdb, qpct) = normalize_snr(&cnr, status, Some(ds), Some(md));
            self.snr_decibel = qdb;
            self.snr_percentage = qpct;
        } else {
            self.snr_decibel = None;
            self.snr_percentage = None;
        }
        let ber_counter = berstats.get_counter();
        let unc_counter = uncstats.get_counter();
        self.ber = ber_counter;
        self.unc = unc_counter;
        let needs = LegacyNeeds {
            ber: ber_counter.is_none() && has_lock,
            unc: unc_counter.is_none() && has_lock,
        };
        Ok(needs)
    }

    /// Records a bit-error counter read through the legacy scalar call,
    /// where the poll asked for it.
    pub fn apply_legacy_ber(&mut self, v: u64)
        ensures
            *final(self) == (FeStatus { ber: Some(v), ..*old(self) }),
    {
        self.ber = Some(v);
    }

    /// Records an uncorrected-blocks counter read through the legacy
    /// scalar call, where the poll asked for it.
    pub fn apply_legacy_unc(&mut self, v: u64)
        ensures
            *final(self) == (FeStatus { unc: Some(v), ..*old(self) }),
    {
        self.unc = Some(v);
    }

    /// Returns the lock status this snapshot was taken at.
    pub fn get_status(&self) -> (r: fe_status)
        ensures
            r == self.status,
    {
        self.status
    }

    /// Returns the current delivery system, if the poll populated it.
    pub fn get_delivery_system(&self) -> (r: Option<fe_delivery_system>)
        ensures
            r == self.delivery_system,
    {
        self.delivery_system
    }

    /// Returns the current modulation, if the poll populated it.
    pub fn get_modulation(&self) -> (r: Option<fe_modulation>)
        ensures
            r == self.modulation,
    {
        self.modulation
    }

    /// Returns the signal strength in 0.001 dB steps, if populated.
    pub fn get_signal_strength_millidb(&self) -> (r: Option<i64>)
        ensures
            r == self.signal_strength_decibel,
    {
        self.signal_strength_decibel
    }

    /// Returns the signal strength as a percentage, if populated.
    pub fn get_signal_strength(&self) -> (r: Option<u8>)
        ensures
            r == self.signal_strength_percentage,
    {
        self.signal_strength_percentage
    }

    /// Returns the signal-to-noise ratio in 0.001 dB steps, if populated.
    pub fn get_snr_millidb(&self) -> (r: Option<i64>)
        ensures
            r == self.snr_decibel,
    {
        self.snr_decibel
    }

    /// Returns the signal-to-noise ratio as a percentage, if populated.
    pub fn get_snr(&self) -> (r: Option<u8>)
        ensures
            r == self.snr_percentage,
    {
        self.snr_percentage
    }

    /// Returns the bit-error counter, if available.
    pub fn get_ber(&self) -> (r: Option<u64>)
        ensures
            r == self.ber,
    {
        self.ber
    }

    /// Returns the uncorrected-blocks counter, if available.
    pub fn get_unc(&self) -> (r: Option<u64>)
        ensures
            r == self.unc,
    {
        self.unc
    }
}

impl Default for FeStatus {
    /// The snapshot of a tuner that is off.
    fn default() -> (r: FeStatus)
        ensures
            r == spec_off(),
    {
        FeStatus::off()
    }
}

/// Law: every optional field degrades monotonically with lock progress.
/// With no carrier and no lock, a successfully applied poll leaves the SNR
/// fields empty, owes no legacy read, and, as long as the multi-source
/// reads carried no counter, leaves the error counters empty too; and with
/// the has-signal bit set, the signal fields carry whatever reading the
/// signal statistics offered.
pub proof fn lemma_lock_status_gating(
    pre: FeStatus,
    records: Seq<WireRecord>,
    st: FeStatus,
    needs: LegacyNeeds,
)
    requires
        spec_apply(pre, records) == Ok::<(FeStatus, LegacyNeeds), ProtocolError>((st, needs)),
        !pre.status.spec_contains(FE_HAS_CARRIER),
        !pre.status.spec_contains(FE_HAS_LOCK),
        spec_poll_stats(records, 4, DTV_STAT_PRE_ERROR_BIT_COUNT_CODE) is Ok ==> spec_poll_stats(
            records,
            4,
            DTV_STAT_PRE_ERROR_BIT_COUNT_CODE,
        )->Ok_0.spec_counter() is None,
        spec_poll_stats(records, 5, DTV_STAT_ERROR_BLOCK_COUNT_CODE) is Ok ==> spec_poll_stats(
            records,
            5,
            DTV_STAT_ERROR_BLOCK_COUNT_CODE,
        )->Ok_0.spec_counter() is None,
    ensures
        st.snr_decibel is None,
        st.snr_percentage is None,
        st.ber is None,
        st.unc is None,
        !needs.ber,
        !needs.unc,
        pre.status.spec_contains(FE_HAS_SIGNAL) ==> {
            let sig = spec_poll_stats(records, 2, DTV_STAT_SIGNAL_STRENGTH_CODE)->Ok_0;
            (sig.spec_relative() is Some || sig.spec_decibel() is Some)
                ==> st.signal_strength_percentage is Some
        },
{
}

} // verus!
