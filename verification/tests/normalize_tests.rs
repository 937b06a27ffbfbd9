use libdvb::enums::{fe_delivery_system, fe_modulation};
use libdvb::normalize::{normalize_signal_strength, normalize_snr};
use libdvb::stats::{DtvFrontendStats, DtvStat, DtvStatType};
use libdvb::status_bits::{fe_status, FE_HAS_CARRIER, FE_HAS_SIGNAL, FE_NONE};

fn stats(v: Vec<DtvStat>) -> DtvFrontendStats {
    DtvFrontendStats::from_vec(&v).unwrap()
}

fn sig_status() -> fe_status {
    fe_status { bits: FE_HAS_SIGNAL }
}

fn carrier_status() -> fe_status {
    fe_status {
        bits: FE_HAS_SIGNAL | FE_HAS_CARRIER,
    }
}

#[test]
fn relative_scale_endpoints() {
    let zero = stats(vec![DtvStat::relative(0)]);
    let full = stats(vec![DtvStat::relative(65535)]);
    assert_eq!(normalize_signal_strength(&zero, sig_status()).1, Some(0));
    assert_eq!(normalize_signal_strength(&full, sig_status()).1, Some(100));
}

#[test]
fn relative_scale_is_monotone_on_samples() {
    let mut last = 0u8;
    for v in [0u16, 1, 100, 5000, 32767, 50000, 65534, 65535] {
        let s = stats(vec![DtvStat::relative(v)]);
        let pct = normalize_signal_strength(&s, sig_status()).1.unwrap();
        assert!(pct >= last, "percent dropped at {}", v);
        last = pct;
    }
    assert_eq!(last, 100);
}

#[test]
fn relative_midpoint() {
    let s = stats(vec![DtvStat::relative(32767)]);
    // 32767 * 100 / 65535 = 49 (rounded down)
    assert_eq!(normalize_signal_strength(&s, sig_status()).1, Some(49));
}

#[test]
fn signal_decibel_interpolates() {
    // (85000 - 9000) * 100 / 79000 = 96
    let s = stats(vec![DtvStat::decibel(-9000)]);
    let (db, pct) = normalize_signal_strength(&s, sig_status());
    assert_eq!(db, Some(-9000));
    assert_eq!(pct, Some(96));
}

#[test]
fn signal_decibel_clamps() {
    let high = stats(vec![DtvStat::decibel(-5000)]);
    assert_eq!(normalize_signal_strength(&high, sig_status()).1, Some(100));
    let low = stats(vec![DtvStat::decibel(-90000)]);
    assert_eq!(normalize_signal_strength(&low, sig_status()).1, Some(0));
    let floor = stats(vec![DtvStat::decibel(-85000)]);
    assert_eq!(normalize_signal_strength(&floor, sig_status()).1, Some(0));
    let ceil = stats(vec![DtvStat::decibel(-6000)]);
    assert_eq!(normalize_signal_strength(&ceil, sig_status()).1, Some(100));
}

#[test]
fn signal_decibel_needs_signal_bit() {
    let s = stats(vec![DtvStat::decibel(-9000)]);
    let off = fe_status { bits: FE_NONE };
    assert_eq!(normalize_signal_strength(&s, off), (None, None));
}

#[test]
fn snr_decibel_scale_for_dvbs() {
    let ds = Some(fe_delivery_system::SYS_DVBS);
    let md = Some(fe_modulation::QPSK);
    let zero = stats(vec![DtvStat::decibel(0)]);
    assert_eq!(
        normalize_snr(&zero, carrier_status(), ds, md),
        (Some(0), Some(0))
    );
    let top = stats(vec![DtvStat::decibel(15000)]);
    assert_eq!(
        normalize_snr(&top, carrier_status(), ds, md),
        (Some(15000), Some(100))
    );
    let above = stats(vec![DtvStat::decibel(21000)]);
    assert_eq!(normalize_snr(&above, carrier_status(), ds, md).1, Some(100));
    let half = stats(vec![DtvStat::decibel(7500)]);
    assert_eq!(normalize_snr(&half, carrier_status(), ds, md).1, Some(50));
}

#[test]
fn snr_ceilings_by_delivery_system() {
    let half_of = |vhi: i64| stats(vec![DtvStat::decibel(vhi / 2)]);
    let cases = [
        (fe_delivery_system::SYS_DVBS2, fe_modulation::PSK_8, 15000),
        (fe_delivery_system::SYS_DVBC_ANNEX_A, fe_modulation::QAM_256, 28000),
        (fe_delivery_system::SYS_DVBC2, fe_modulation::QAM_256, 28000),
        (fe_delivery_system::SYS_DVBT, fe_modulation::QAM_64, 19000),
        (fe_delivery_system::SYS_DVBT2, fe_modulation::QAM_256, 19000),
        (fe_delivery_system::SYS_ATSC, fe_modulation::VSB_8, 19000),
        (fe_delivery_system::SYS_ATSC, fe_modulation::VSB_16, 19000),
        (fe_delivery_system::SYS_ATSC, fe_modulation::QAM_256, 28000),
    ];
    for (ds, md, vhi) in cases {
        let r = normalize_snr(&half_of(vhi), carrier_status(), Some(ds), Some(md));
        assert_eq!(r.1, Some(50), "system {:?}", ds);
    }
}

#[test]
fn snr_unknown_system_has_no_percentage() {
    let s = stats(vec![DtvStat::decibel(9000)]);
    let r = normalize_snr(
        &s,
        carrier_status(),
        Some(fe_delivery_system::SYS_ISDBT),
        Some(fe_modulation::QPSK),
    );
    assert_eq!(r.0, Some(9000));
    assert_eq!(r.1, None);
    let r2 = normalize_snr(&s, carrier_status(), None, None);
    assert_eq!(r2.1, None);
}

#[test]
fn snr_decibel_needs_carrier_bit() {
    let s = stats(vec![DtvStat::decibel(9000)]);
    let r = normalize_snr(
        &s,
        sig_status(),
        Some(fe_delivery_system::SYS_DVBS),
        Some(fe_modulation::QPSK),
    );
    assert_eq!(r, (None, None));
}

#[test]
fn first_reading_of_each_scale_wins() {
    let s = stats(vec![
        DtvStat::not_available(),
        DtvStat::decibel(-9000),
        DtvStat::decibel(-20000),
        DtvStat::relative(1000),
    ]);
    assert_eq!(s.get_decibel(), Some(-9000));
    assert_eq!(s.get_relative(), Some(1000));
    assert_eq!(s.get_counter(), None);
    // the first slot that carries any reading at all
    assert_eq!(s.first_available(), Some(DtvStat::decibel(-9000)));
}

#[test]
fn declared_count_limits_the_scan() {
    let mut s = stats(vec![DtvStat::not_available(), DtvStat::decibel(-9000)]);
    s.len = 1; // the decibel slot is beyond the declared count
    assert_eq!(s.get_decibel(), None);
    assert_eq!(s.first_available(), None);
}

#[test]
fn slots_exposes_the_declared_entries() {
    let s = stats(vec![DtvStat::decibel(-9000), DtvStat::counter(7)]);
    assert_eq!(
        s.slots(),
        vec![DtvStat::decibel(-9000), DtvStat::counter(7)]
    );
    assert!(DtvFrontendStats::empty().slots().is_empty());
}

#[test]
fn relative_percentage_accessor_scales() {
    let s = stats(vec![DtvStat::relative(65535)]);
    assert_eq!(s.get_relative_percentage(), Some(100));
    let single = DtvStat::relative(0);
    assert_eq!(single.get_relative_percentage(), Some(0));
    assert_eq!(DtvStat::counter(3).get_relative_percentage(), None);
}
