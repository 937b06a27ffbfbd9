use libdvb::codec::{
    decode, encode, query_record, DtvProperty, DtvPropertyBuffer, DtvPropertyNotImplementedLinux,
    DtvPropertyRequest, ProtocolError, VoidPayload, DATA_SIZE, DTV_ENUM_DELSYS_CODE,
    DTV_IOCTL_MAX_MSGS,
};
use libdvb::enums::{fe_delivery_system, fe_modulation, fe_sec_voltage};
use libdvb::stats::{DtvFrontendStats, DtvStat};

#[test]
fn round_trip_u32_scalar() {
    let p = DtvProperty::DTV_FREQUENCY(DtvPropertyRequest::new(1_500_000u32));
    let rec = encode(&p);
    assert_eq!(rec.cmd, 3);
    assert_eq!(rec.data.len(), DATA_SIZE);
    let q = decode(3, &rec).unwrap();
    assert_eq!(q, p);
}

#[test]
fn encode_u32_little_endian_layout() {
    let p = DtvProperty::DTV_FREQUENCY(DtvPropertyRequest::new(1_500_000u32));
    let rec = encode(&p);
    // 1,500,000 = 0x0016E360
    assert_eq!(&rec.data[0..4], &[0x60, 0xE3, 0x16, 0x00]);
    assert!(rec.data[4..].iter().all(|&b| b == 0));
}

#[test]
fn round_trip_i32_scalar() {
    let p = DtvProperty::DTV_ISDBT_SB_SEGMENT_IDX(DtvPropertyRequest::new(-3i32));
    let rec = encode(&p);
    assert_eq!(rec.cmd, 21);
    let q = decode(21, &rec).unwrap();
    assert_eq!(q, p);
}

#[test]
fn round_trip_enum_payload() {
    let p = DtvProperty::DTV_MODULATION(DtvPropertyRequest::new(fe_modulation::QAM_64));
    let rec = encode(&p);
    assert_eq!(rec.cmd, 4);
    assert_eq!(&rec.data[0..4], &[3, 0, 0, 0]);
    let q = decode(4, &rec).unwrap();
    assert_eq!(q, p);
}

#[test]
fn round_trip_voltage() {
    let p = DtvProperty::DTV_VOLTAGE(DtvPropertyRequest::new(fe_sec_voltage::SEC_VOLTAGE_18));
    let rec = encode(&p);
    assert_eq!(rec.cmd, 10);
    let q = decode(10, &rec).unwrap();
    assert_eq!(q, p);
}

#[test]
fn round_trip_void_and_uninterpreted() {
    let p = DtvProperty::DTV_TUNE(DtvPropertyRequest::new(VoidPayload {}));
    let rec = encode(&p);
    assert_eq!(rec.cmd, 1);
    assert!(rec.data.iter().all(|&b| b == 0));
    assert_eq!(decode(1, &rec).unwrap(), p);

    let p2 = DtvProperty::DTV_UNDEFINED(DtvPropertyNotImplementedLinux {});
    let rec2 = encode(&p2);
    assert_eq!(rec2.cmd, 0);
    assert_eq!(decode(0, &rec2).unwrap(), p2);
}

#[test]
fn round_trip_stats_payload() {
    let stats = DtvFrontendStats::from_vec(&vec![
        DtvStat::not_available(),
        DtvStat::decibel(-9000),
        DtvStat::relative(0x8000),
        DtvStat::counter(42),
    ])
    .unwrap();
    let p = DtvProperty::DTV_STAT_CNR(DtvPropertyRequest::new(stats));
    let rec = encode(&p);
    assert_eq!(rec.cmd, 63);
    assert_eq!(rec.data[0], 4);
    let q = decode(63, &rec).unwrap();
    assert_eq!(q, p);
}

#[test]
fn round_trip_delivery_system_list() {
    let buf = DtvPropertyBuffer::from_systems(&vec![
        fe_delivery_system::SYS_DVBS,
        fe_delivery_system::SYS_DVBS2,
    ])
    .unwrap();
    let p = DtvProperty::DTV_ENUM_DELSYS(DtvPropertyRequest::new(buf));
    let rec = encode(&p);
    assert_eq!(rec.cmd, DTV_ENUM_DELSYS_CODE);
    assert_eq!(&rec.data[0..2], &[5, 6]);
    // the declared count sits after the fixed 32-byte id area
    assert_eq!(&rec.data[32..36], &[2, 0, 0, 0]);
    let q = decode(DTV_ENUM_DELSYS_CODE, &rec).unwrap();
    match q {
        DtvProperty::DTV_ENUM_DELSYS(d) => {
            assert_eq!(d.data.data, vec![5u8, 6u8]);
            let systems = d.data.systems().unwrap();
            assert_eq!(
                systems,
                vec![fe_delivery_system::SYS_DVBS, fe_delivery_system::SYS_DVBS2]
            );
        }
        other => panic!("wrong kind decoded: {:?}", other),
    }
}

#[test]
fn decode_rejects_wrong_kind() {
    let p = DtvProperty::DTV_FREQUENCY(DtvPropertyRequest::new(1u32));
    let rec = encode(&p);
    assert_eq!(decode(4, &rec), Err(ProtocolError::TagMismatch));
    assert_eq!(decode(9999, &rec), Err(ProtocolError::TagMismatch));
}

#[test]
fn decode_rejects_overlong_stats_list() {
    let stats = DtvFrontendStats::from_vec(&vec![DtvStat::counter(1)]).unwrap();
    let p = DtvProperty::DTV_STAT_SIGNAL_STRENGTH(DtvPropertyRequest::new(stats));
    let mut rec = encode(&p);
    rec.data[0] = 5; // count beyond the four fixed slots
    assert_eq!(decode(62, &rec), Err(ProtocolError::Truncated));
}

#[test]
fn decode_rejects_overlong_delivery_list() {
    let buf = DtvPropertyBuffer::from_systems(&vec![fe_delivery_system::SYS_DVBT]).unwrap();
    let p = DtvProperty::DTV_ENUM_DELSYS(DtvPropertyRequest::new(buf));
    let mut rec = encode(&p);
    rec.data[32] = 33; // count beyond the 32-byte id area
    assert_eq!(
        decode(DTV_ENUM_DELSYS_CODE, &rec),
        Err(ProtocolError::Truncated)
    );
}

#[test]
fn decode_rejects_unknown_enum_code() {
    let p = DtvProperty::DTV_MODULATION(DtvPropertyRequest::new(fe_modulation::QPSK));
    let mut rec = encode(&p);
    rec.data[0] = 0xFF; // 255 names no modulation
    assert_eq!(decode(4, &rec), Err(ProtocolError::InvalidValue));
}

#[test]
fn decode_rejects_unknown_stat_scale() {
    let stats = DtvFrontendStats::from_vec(&vec![DtvStat::counter(1)]).unwrap();
    let p = DtvProperty::DTV_STAT_CNR(DtvPropertyRequest::new(stats));
    let mut rec = encode(&p);
    rec.data[1] = 7; // scale tag of the first slot
    assert_eq!(decode(63, &rec), Err(ProtocolError::InvalidValue));
}

#[test]
fn decode_rejects_unknown_delivery_id() {
    let buf = DtvPropertyBuffer::from_systems(&vec![fe_delivery_system::SYS_DVBT]).unwrap();
    let p = DtvProperty::DTV_ENUM_DELSYS(DtvPropertyRequest::new(buf));
    let mut rec = encode(&p);
    rec.data[0] = 200; // 200 names no delivery system
    assert_eq!(
        decode(DTV_ENUM_DELSYS_CODE, &rec),
        Err(ProtocolError::InvalidValue)
    );
}

#[test]
fn buffer_capacity_limits() {
    let many = vec![fe_delivery_system::SYS_DVBT; 33];
    assert!(DtvPropertyBuffer::from_systems(&many).is_none());
    let ok = vec![fe_delivery_system::SYS_DVBT; 32];
    assert!(DtvPropertyBuffer::from_systems(&ok).is_some());

    let five = vec![DtvStat::counter(0); 5];
    assert!(DtvFrontendStats::from_vec(&five).is_none());
}

#[test]
fn query_record_is_zeroed() {
    let rec = query_record(17);
    assert_eq!(rec.cmd, 17);
    assert_eq!(rec.data.len(), DATA_SIZE);
    assert!(rec.data.iter().all(|&b| b == 0));
}

#[test]
fn batch_ceiling_constant() {
    assert_eq!(DTV_IOCTL_MAX_MSGS, 64);
}

#[test]
fn systems_rejects_an_unknown_id() {
    let buf = DtvPropertyBuffer {
        data: vec![5u8, 200u8],
    };
    assert!(!buf.is_well_formed());
    assert_eq!(buf.systems(), Err(ProtocolError::InvalidValue));
}
