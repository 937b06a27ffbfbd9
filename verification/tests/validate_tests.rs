use libdvb::caps::{
    fe_caps, Capabilities, FE_CAN_GUARD_INTERVAL_AUTO, FE_CAN_HIERARCHY_AUTO,
    FE_CAN_INVERSION_AUTO, FE_CAN_MULTISTREAM, FE_CAN_TRANSMISSION_MODE_AUTO,
};
use libdvb::codec::{DtvProperty, DtvPropertyRequest};
use libdvb::enums::{
    fe_guard_interval, fe_hierarchy, fe_spectral_inversion, fe_transmit_mode,
};
use libdvb::validate::{check_properties, clear_batch, prepare_set_properties, ValidationError};

fn caps_with(bits: u32) -> Capabilities {
    Capabilities {
        caps: fe_caps::from_bits(bits),
        frequency_min: 950_000,
        frequency_max: 2_150_000,
        symbolrate_min: 1_000_000,
        symbolrate_max: 45_000_000,
    }
}

fn freq(v: u32) -> DtvProperty {
    DtvProperty::DTV_FREQUENCY(DtvPropertyRequest::new(v))
}

#[test]
fn batch_of_sixty_four_passes() {
    let caps = caps_with(0);
    let batch = vec![freq(1_000_000); 64];
    assert!(check_properties(&caps, &batch).is_ok());
}

#[test]
fn batch_of_sixty_five_fails_before_io() {
    let caps = caps_with(0);
    let batch = vec![freq(1_000_000); 65];
    assert_eq!(
        check_properties(&caps, &batch),
        Err(ValidationError::BatchTooLarge)
    );
    // the failure happens at validation: no record is ever produced
    assert_eq!(
        prepare_set_properties(&caps, &batch),
        Err(ValidationError::BatchTooLarge)
    );
}

#[test]
fn empty_batch_is_rejected() {
    let caps = caps_with(0);
    assert_eq!(
        check_properties(&caps, &vec![]),
        Err(ValidationError::BatchEmpty)
    );
}

#[test]
fn frequency_range_is_enforced() {
    let caps = caps_with(0);
    assert!(check_properties(&caps, &vec![freq(950_000)]).is_ok());
    assert!(check_properties(&caps, &vec![freq(2_149_999)]).is_ok());
    assert_eq!(
        check_properties(&caps, &vec![freq(949_999)]),
        Err(ValidationError::FrequencyOutOfRange)
    );
    assert_eq!(
        check_properties(&caps, &vec![freq(2_150_000)]),
        Err(ValidationError::FrequencyOutOfRange)
    );
}

#[test]
fn symbolrate_range_is_enforced() {
    let caps = caps_with(0);
    let ok = DtvProperty::DTV_SYMBOL_RATE(DtvPropertyRequest::new(27_500_000));
    let bad = DtvProperty::DTV_SYMBOL_RATE(DtvPropertyRequest::new(999_999));
    assert!(check_properties(&caps, &vec![ok]).is_ok());
    assert_eq!(
        check_properties(&caps, &vec![bad]),
        Err(ValidationError::SymbolRateOutOfRange)
    );
}

#[test]
fn auto_modes_need_their_capability_bits() {
    let inv = DtvProperty::DTV_INVERSION(DtvPropertyRequest::new(
        fe_spectral_inversion::INVERSION_AUTO,
    ));
    let tm = DtvProperty::DTV_TRANSMISSION_MODE(DtvPropertyRequest::new(
        fe_transmit_mode::TRANSMISSION_MODE_AUTO,
    ));
    let gi = DtvProperty::DTV_GUARD_INTERVAL(DtvPropertyRequest::new(
        fe_guard_interval::GUARD_INTERVAL_AUTO,
    ));
    let hi = DtvProperty::DTV_HIERARCHY(DtvPropertyRequest::new(fe_hierarchy::HIERARCHY_AUTO));

    let none = caps_with(0);
    assert_eq!(
        check_properties(&none, &vec![inv.clone()]),
        Err(ValidationError::NoAutoInversion)
    );
    assert_eq!(
        check_properties(&none, &vec![tm.clone()]),
        Err(ValidationError::NoAutoTransmitMode)
    );
    assert_eq!(
        check_properties(&none, &vec![gi.clone()]),
        Err(ValidationError::NoAutoGuardInterval)
    );
    assert_eq!(
        check_properties(&none, &vec![hi.clone()]),
        Err(ValidationError::NoAutoHierarchy)
    );

    let all = caps_with(
        FE_CAN_INVERSION_AUTO
            | FE_CAN_TRANSMISSION_MODE_AUTO
            | FE_CAN_GUARD_INTERVAL_AUTO
            | FE_CAN_HIERARCHY_AUTO,
    );
    assert!(check_properties(&all, &vec![inv, tm, gi, hi]).is_ok());
}

#[test]
fn non_auto_modes_pass_without_bits() {
    let caps = caps_with(0);
    let inv = DtvProperty::DTV_INVERSION(DtvPropertyRequest::new(
        fe_spectral_inversion::INVERSION_OFF,
    ));
    assert!(check_properties(&caps, &vec![inv]).is_ok());
}

#[test]
fn stream_id_needs_multistream() {
    let sid = DtvProperty::DTV_STREAM_ID(DtvPropertyRequest::new(42u32));
    assert_eq!(
        check_properties(&caps_with(0), &vec![sid.clone()]),
        Err(ValidationError::NoMultistream)
    );
    assert!(check_properties(&caps_with(FE_CAN_MULTISTREAM), &vec![sid]).is_ok());
}

#[test]
fn unvalidated_kinds_pass_through() {
    let caps = caps_with(0);
    let bw = DtvProperty::DTV_BANDWIDTH_HZ(DtvPropertyRequest::new(0xFFFF_FFFF));
    assert!(check_properties(&caps, &vec![bw]).is_ok());
}

#[test]
fn one_invalid_entry_rejects_the_whole_batch() {
    let caps = caps_with(0);
    let batch = vec![freq(1), freq(1_500_000)];
    assert_eq!(
        check_properties(&caps, &batch),
        Err(ValidationError::FrequencyOutOfRange)
    );
    // validation precedes I/O: prepare yields no record at all
    assert!(prepare_set_properties(&caps, &batch).is_err());
    let good = vec![freq(1_500_000)];
    assert_eq!(prepare_set_properties(&caps, &good).unwrap().len(), 1);
}

#[test]
fn tune_request_produces_three_records() {
    // capabilities: frequency 950,000..2,150,000, auto-inversion supported
    let caps = caps_with(FE_CAN_INVERSION_AUTO);
    let batch = vec![
        freq(1_500_000),
        DtvProperty::DTV_INVERSION(DtvPropertyRequest::new(
            fe_spectral_inversion::INVERSION_AUTO,
        )),
        DtvProperty::DTV_TUNE(DtvPropertyRequest::new(libdvb::codec::VoidPayload {})),
    ];
    let records = prepare_set_properties(&caps, &batch).unwrap();
    assert_eq!(records.len(), 3);
    assert_eq!(records[0].cmd, 3);
    assert_eq!(records[1].cmd, 6);
    assert_eq!(records[2].cmd, 1);
}

#[test]
fn clear_batch_validates_and_encodes() {
    let caps = caps_with(0);
    let batch = clear_batch();
    assert_eq!(batch.len(), 3);
    let records = prepare_set_properties(&caps, &batch).unwrap();
    assert_eq!(records.len(), 3);
    assert_eq!(records[0].cmd, 10); // voltage
    assert_eq!(records[1].cmd, 11); // tone
    assert_eq!(records[2].cmd, 2); // clear
}
