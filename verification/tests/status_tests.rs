use libdvb::codec::{encode, DtvProperty, DtvPropertyRequest, ProtocolError, WireRecord};
use libdvb::enums::{fe_delivery_system, fe_modulation};
use libdvb::stats::{DtvFrontendStats, DtvStat};
use libdvb::reader::{select_statistic, StatKind, StatSource};
use libdvb::status::{FeStatus, LegacyNeeds};
use libdvb::status_bits::{
    fe_status, FE_HAS_CARRIER, FE_HAS_LOCK, FE_HAS_SIGNAL, FE_HAS_SYNC, FE_HAS_VITERBI, FE_NONE,
};

fn stats(v: Vec<DtvStat>) -> DtvFrontendStats {
    DtvFrontendStats::from_vec(&v).unwrap()
}

/// A poll response as a driver would fill it in place.
fn response(
    ds: fe_delivery_system,
    md: fe_modulation,
    sig: DtvFrontendStats,
    cnr: DtvFrontendStats,
    ber: DtvFrontendStats,
    unc: DtvFrontendStats,
) -> Vec<WireRecord> {
    vec![
        encode(&DtvProperty::DTV_DELIVERY_SYSTEM(DtvPropertyRequest::new(ds))),
        encode(&DtvProperty::DTV_MODULATION(DtvPropertyRequest::new(md))),
        encode(&DtvProperty::DTV_STAT_SIGNAL_STRENGTH(DtvPropertyRequest::new(sig))),
        encode(&DtvProperty::DTV_STAT_CNR(DtvPropertyRequest::new(cnr))),
        encode(&DtvProperty::DTV_STAT_PRE_ERROR_BIT_COUNT(DtvPropertyRequest::new(ber))),
        encode(&DtvProperty::DTV_STAT_ERROR_BLOCK_COUNT(DtvPropertyRequest::new(unc))),
    ]
}

#[test]
fn tuner_off_ends_the_poll_at_once() {
    let (st, go) = FeStatus::begin_poll(fe_status { bits: FE_NONE });
    assert!(!go);
    assert_eq!(st, FeStatus::off());
    assert_eq!(st.get_delivery_system(), None);
    assert_eq!(st.get_signal_strength(), None);
    assert_eq!(st.get_ber(), None);
}

#[test]
fn poll_query_names_the_six_kinds_in_order() {
    let q = FeStatus::poll_query();
    let cmds: Vec<u32> = q.iter().map(|r| r.cmd).collect();
    assert_eq!(cmds, vec![17, 4, 62, 63, 64, 68]);
    assert!(q.iter().all(|r| r.data.iter().all(|&b| b == 0)));
}

#[test]
fn signal_only_poll_populates_signal_and_nothing_else() {
    // has-signal only: no carrier, no lock
    let (mut st, go) = FeStatus::begin_poll(fe_status { bits: FE_HAS_SIGNAL });
    assert!(go);
    let records = response(
        fe_delivery_system::SYS_DVBS,
        fe_modulation::QPSK,
        stats(vec![DtvStat::not_available(), DtvStat::decibel(-9000)]),
        stats(vec![DtvStat::decibel(12000)]),
        stats(vec![]),
        stats(vec![]),
    );
    let needs = st.apply_properties(&records).unwrap();
    assert_eq!(needs, LegacyNeeds { ber: false, unc: false });
    assert_eq!(st.get_delivery_system(), Some(fe_delivery_system::SYS_DVBS));
    assert_eq!(st.get_modulation(), Some(fe_modulation::QPSK));
    // the multi-source read falls back to its decibel entry: -9.0 dBm, 96%
    assert_eq!(st.get_signal_strength_millidb(), Some(-9000));
    assert_eq!(st.get_signal_strength(), Some(96));
    // no carrier, no lock: everything below stays empty
    assert_eq!(st.get_snr_millidb(), None);
    assert_eq!(st.get_snr(), None);
    assert_eq!(st.get_ber(), None);
    assert_eq!(st.get_unc(), None);
}

#[test]
fn locked_poll_populates_everything() {
    let bits = FE_HAS_SIGNAL | FE_HAS_CARRIER | FE_HAS_VITERBI | FE_HAS_SYNC | FE_HAS_LOCK;
    let (mut st, go) = FeStatus::begin_poll(fe_status { bits });
    assert!(go);
    let records = response(
        fe_delivery_system::SYS_DVBS,
        fe_modulation::QPSK,
        stats(vec![DtvStat::relative(0x8000)]),
        stats(vec![DtvStat::decibel(12000)]),
        stats(vec![DtvStat::counter(5)]),
        stats(vec![DtvStat::not_available()]),
    );
    let needs = st.apply_properties(&records).unwrap();
    // signal: 0x8000 * 100 / 65535 = 50
    assert_eq!(st.get_signal_strength(), Some(50));
    // snr: 12000 * 100 / 15000 = 80
    assert_eq!(st.get_snr_millidb(), Some(12000));
    assert_eq!(st.get_snr(), Some(80));
    // ber came from the multi-source read; unc still needs the legacy call
    assert_eq!(st.get_ber(), Some(5));
    assert_eq!(st.get_unc(), None);
    assert_eq!(needs, LegacyNeeds { ber: false, unc: true });
    st.apply_legacy_unc(3);
    assert_eq!(st.get_unc(), Some(3));
}

#[test]
fn legacy_fallback_needs_the_lock_bit() {
    // carrier but no lock: empty counters stay empty, no legacy read owed
    let bits = FE_HAS_SIGNAL | FE_HAS_CARRIER;
    let (mut st, _) = FeStatus::begin_poll(fe_status { bits });
    let records = response(
        fe_delivery_system::SYS_DVBT,
        fe_modulation::QAM_64,
        stats(vec![DtvStat::relative(1000)]),
        stats(vec![DtvStat::relative(2000)]),
        stats(vec![]),
        stats(vec![]),
    );
    let needs = st.apply_properties(&records).unwrap();
    assert_eq!(needs, LegacyNeeds { ber: false, unc: false });
    assert_eq!(st.get_ber(), None);
    assert_eq!(st.get_unc(), None);
}

#[test]
fn decode_failure_aborts_the_poll() {
    let (mut st, _) = FeStatus::begin_poll(fe_status { bits: FE_HAS_SIGNAL });
    let before = st;
    let mut records = response(
        fe_delivery_system::SYS_DVBS,
        fe_modulation::QPSK,
        stats(vec![]),
        stats(vec![]),
        stats(vec![]),
        stats(vec![]),
    );
    records[1].cmd = 3; // the modulation slot answers as a different kind
    assert_eq!(
        st.apply_properties(&records),
        Err(ProtocolError::TagMismatch)
    );
    assert_eq!(st, before);
}

#[test]
fn default_snapshot_is_off() {
    assert_eq!(FeStatus::default(), FeStatus::off());
}

#[test]
fn tiered_policy_takes_the_first_reading() {
    let s = stats(vec![DtvStat::not_available(), DtvStat::decibel(-9000)]);
    let any = fe_status { bits: FE_NONE };
    assert_eq!(
        select_statistic(StatKind::SignalStrength, &s, any),
        StatSource::Reading(DtvStat::decibel(-9000))
    );
}

#[test]
fn tiered_policy_falls_back_only_with_the_right_bit() {
    let empty = stats(vec![DtvStat::not_available()]);
    let locked = fe_status {
        bits: FE_HAS_SIGNAL | FE_HAS_CARRIER | FE_HAS_LOCK,
    };
    let signal_only = fe_status { bits: FE_HAS_SIGNAL };
    assert_eq!(
        select_statistic(StatKind::PreErrorBitCount, &empty, locked),
        StatSource::LegacyFallback
    );
    assert_eq!(
        select_statistic(StatKind::PreErrorBitCount, &empty, signal_only),
        StatSource::Unavailable
    );
    assert_eq!(
        select_statistic(StatKind::SignalStrength, &empty, signal_only),
        StatSource::LegacyFallback
    );
    assert_eq!(
        select_statistic(StatKind::Cnr, &empty, signal_only),
        StatSource::Unavailable
    );
    // no legacy equivalent at all
    assert_eq!(
        select_statistic(StatKind::PreTotalBitCount, &empty, locked),
        StatSource::Unavailable
    );
}
