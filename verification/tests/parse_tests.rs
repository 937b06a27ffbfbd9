use libdvb::codec::DtvProperty;
use libdvb::status_bits::{fe_status, FE_HAS_LOCK, FE_HAS_SIGNAL};
use libdvb::enums::{
    fe_code_rate, fe_delivery_system, fe_guard_interval, fe_hierarchy, fe_lna, fe_modulation,
    fe_pilot, fe_rolloff, fe_sec_tone_mode, fe_sec_voltage, fe_spectral_inversion,
    fe_transmit_mode,
};

#[test]
fn parses_a_frequency_line() {
    match DtvProperty::from_line("FREQUENCY=1500000") {
        Some(DtvProperty::DTV_FREQUENCY(d)) => assert_eq!(d.data, 1_500_000),
        other => panic!("unexpected: {:?}", other),
    }
}

#[test]
fn whitespace_around_key_and_value_is_ignored() {
    match DtvProperty::from_line("  FREQUENCY \t=  1500000 \r\n") {
        Some(DtvProperty::DTV_FREQUENCY(d)) => assert_eq!(d.data, 1_500_000),
        other => panic!("unexpected: {:?}", other),
    }
}

#[test]
fn leading_plus_is_accepted() {
    match DtvProperty::from_line("SYMBOL_RATE=+27500000") {
        Some(DtvProperty::DTV_SYMBOL_RATE(d)) => assert_eq!(d.data, 27_500_000),
        other => panic!("unexpected: {:?}", other),
    }
}

#[test]
fn numeric_bounds_are_enforced() {
    assert!(DtvProperty::from_line("FREQUENCY=4294967295").is_some());
    assert!(DtvProperty::from_line("FREQUENCY=4294967296").is_none());
    assert!(DtvProperty::from_line("FREQUENCY=99999999999").is_none());
    assert!(DtvProperty::from_line("FREQUENCY=-1").is_none());
    assert!(DtvProperty::from_line("FREQUENCY=").is_none());
    assert!(DtvProperty::from_line("FREQUENCY=12x3").is_none());
}

#[test]
fn signed_values_parse_with_their_bounds() {
    match DtvProperty::from_line("ISDBT_SB_SEGMENT_IDX = -5") {
        Some(DtvProperty::DTV_ISDBT_SB_SEGMENT_IDX(d)) => assert_eq!(d.data, -5),
        other => panic!("unexpected: {:?}", other),
    }
    match DtvProperty::from_line("ISDBT_SB_SEGMENT_IDX=-2147483648") {
        Some(DtvProperty::DTV_ISDBT_SB_SEGMENT_IDX(d)) => assert_eq!(d.data, i32::MIN),
        other => panic!("unexpected: {:?}", other),
    }
    match DtvProperty::from_line("ISDBT_SB_SEGMENT_IDX=2147483647") {
        Some(DtvProperty::DTV_ISDBT_SB_SEGMENT_IDX(d)) => assert_eq!(d.data, i32::MAX),
        other => panic!("unexpected: {:?}", other),
    }
    assert!(DtvProperty::from_line("ISDBT_SB_SEGMENT_IDX=2147483648").is_none());
    assert!(DtvProperty::from_line("ISDBT_SB_SEGMENT_IDX=-2147483649").is_none());
}

#[test]
fn modulation_names_are_exact() {
    match DtvProperty::from_line("MODULATION=QAM/64") {
        Some(DtvProperty::DTV_MODULATION(d)) => assert_eq!(d.data, fe_modulation::QAM_64),
        other => panic!("unexpected: {:?}", other),
    }
    // modulation names do not fold case
    assert!(DtvProperty::from_line("MODULATION=qam/64").is_none());
    assert!(DtvProperty::from_line("MODULATION=QAM64").is_none());
}

#[test]
fn code_rate_names_ignore_case() {
    match DtvProperty::from_line("INNER_FEC=auto") {
        Some(DtvProperty::DTV_INNER_FEC(d)) => assert_eq!(d.data, fe_code_rate::FEC_AUTO),
        other => panic!("unexpected: {:?}", other),
    }
    match DtvProperty::from_line("INNER_FEC=3/4") {
        Some(DtvProperty::DTV_INNER_FEC(d)) => assert_eq!(d.data, fe_code_rate::FEC_3_4),
        other => panic!("unexpected: {:?}", other),
    }
}

#[test]
fn delivery_system_names_ignore_case_and_know_aliases() {
    match DtvProperty::from_line("DELIVERY_SYSTEM=DVBS2") {
        Some(DtvProperty::DTV_DELIVERY_SYSTEM(d)) => {
            assert_eq!(d.data, fe_delivery_system::SYS_DVBS2)
        }
        other => panic!("unexpected: {:?}", other),
    }
    match DtvProperty::from_line("DELIVERY_SYSTEM=dvbt22") {
        Some(DtvProperty::DTV_DELIVERY_SYSTEM(d)) => {
            assert_eq!(d.data, fe_delivery_system::SYS_DVBT2)
        }
        other => panic!("unexpected: {:?}", other),
    }
    match DtvProperty::from_line("DELIVERY_SYSTEM=atsc-m/h") {
        Some(DtvProperty::DTV_DELIVERY_SYSTEM(d)) => {
            assert_eq!(d.data, fe_delivery_system::SYS_ATSCMH)
        }
        other => panic!("unexpected: {:?}", other),
    }
}

#[test]
fn remaining_enum_kinds_parse() {
    match DtvProperty::from_line("INVERSION=AUTO") {
        Some(DtvProperty::DTV_INVERSION(d)) => {
            assert_eq!(d.data, fe_spectral_inversion::INVERSION_AUTO)
        }
        other => panic!("unexpected: {:?}", other),
    }
    match DtvProperty::from_line("VOLTAGE=SEC_VOLTAGE_13") {
        Some(DtvProperty::DTV_VOLTAGE(d)) => assert_eq!(d.data, fe_sec_voltage::SEC_VOLTAGE_13),
        other => panic!("unexpected: {:?}", other),
    }
    match DtvProperty::from_line("TONE=SEC_TONE_OFF") {
        Some(DtvProperty::DTV_TONE(d)) => assert_eq!(d.data, fe_sec_tone_mode::SEC_TONE_OFF),
        other => panic!("unexpected: {:?}", other),
    }
    match DtvProperty::from_line("PILOT=PILOT_AUTO") {
        Some(DtvProperty::DTV_PILOT(d)) => assert_eq!(d.data, fe_pilot::PILOT_AUTO),
        other => panic!("unexpected: {:?}", other),
    }
    match DtvProperty::from_line("ROLLOFF=ROLLOFF_35") {
        Some(DtvProperty::DTV_ROLLOFF(d)) => assert_eq!(d.data, fe_rolloff::ROLLOFF_35),
        other => panic!("unexpected: {:?}", other),
    }
    match DtvProperty::from_line("GUARD_INTERVAL=19/128") {
        Some(DtvProperty::DTV_GUARD_INTERVAL(d)) => {
            assert_eq!(d.data, fe_guard_interval::GUARD_INTERVAL_19_128)
        }
        other => panic!("unexpected: {:?}", other),
    }
    match DtvProperty::from_line("TRANSMISSION_MODE=8K") {
        Some(DtvProperty::DTV_TRANSMISSION_MODE(d)) => {
            assert_eq!(d.data, fe_transmit_mode::TRANSMISSION_MODE_8K)
        }
        other => panic!("unexpected: {:?}", other),
    }
    match DtvProperty::from_line("HIERARCHY=NONE") {
        Some(DtvProperty::DTV_HIERARCHY(d)) => assert_eq!(d.data, fe_hierarchy::HIERARCHY_NONE),
        other => panic!("unexpected: {:?}", other),
    }
    match DtvProperty::from_line("LNA=LNA_AUTO") {
        Some(DtvProperty::DTV_LNA(d)) => assert_eq!(d.data, fe_lna::LNA_AUTO),
        other => panic!("unexpected: {:?}", other),
    }
}

#[test]
fn lines_without_equals_or_with_unknown_keys_parse_to_nothing() {
    assert!(DtvProperty::from_line("FREQUENCY 1500000").is_none());
    assert!(DtvProperty::from_line("").is_none());
    assert!(DtvProperty::from_line("NO_SUCH_KEY=1").is_none());
    assert!(DtvProperty::from_line("MODULATION=NO_SUCH_NAME").is_none());
}

#[test]
fn value_may_contain_further_equals_nowhere() {
    // the split happens at the first '='; a stray second one spoils the value
    assert!(DtvProperty::from_line("FREQUENCY=15=0").is_none());
}

#[test]
fn enum_codes_round_trip_through_from_repr() {
    assert_eq!(fe_modulation::from_repr(3), Some(fe_modulation::QAM_64));
    assert_eq!(fe_modulation::from_repr(99), None);
    assert_eq!(fe_modulation::QAM_64.code(), 3);
    assert_eq!(fe_lna::from_repr(0xFFFFFFFF), Some(fe_lna::LNA_AUTO));
    assert_eq!(
        fe_delivery_system::from_repr(6),
        Some(fe_delivery_system::SYS_DVBS2)
    );
}

#[test]
fn status_bits_accept_only_known_flags() {
    let s = fe_status::from_bits(FE_HAS_SIGNAL | FE_HAS_LOCK).unwrap();
    assert!(s.contains(FE_HAS_SIGNAL));
    assert!(!s.is_empty());
    assert!(fe_status::from_bits(0x80).is_none());
    assert!(fe_status::from_bits(0).unwrap().is_empty());
}
