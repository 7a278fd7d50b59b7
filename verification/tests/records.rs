use ipmi_rs::storage::sdr::record::{
    Direction, EntityInstance, EntityRelativeTo, EventKind, HysteresisCapability, Linearization,
    Record, RecordContents, SensorCapabilities, SensorId, SensorOwner, SensorUnits,
    ThresholdAccessCapability, ThresholdKind, TypeLengthRaw,
};
use ipmi_rs::storage::sdr::{RecordId, Unit};

const FAN_2A_FSR: [u8; 48] = [
    0x20, 0x00, 0x32, 0x07, 0x01, 0x7f, 0xd4, 0x04, 0x01, 0x05, 0x30, 0x05, 0x00, 0x03, 0x00,
    0x00, 0x12, 0x00, 0x00, 0x78, 0x02, 0x00, 0x02, 0x30, 0x00, 0x07, 0x54, 0xc5, 0x8b, 0xff,
    0x00, 0xff, 0xff, 0xff, 0x00, 0x05, 0x07, 0x01, 0x01, 0x00, 0x00, 0x00, 0xc5, 0x46, 0x61,
    0x6e, 0x32, 0x41,
];

#[test]
fn test_decode_fan_rpm() {
    let sensor = Record::parse(FAN_2A_FSR.as_ref()).unwrap();
    assert_eq!(
        SensorId::Ascii8BAndLatin1("Fan2A".to_string()),
        sensor.common_data().unwrap().sensor_id
    );
}

#[test]
fn fan_record_fields() {
    let record = Record::parse(FAN_2A_FSR.as_ref()).unwrap();
    let common = record.common_data().unwrap();
    assert_eq!(common.key.owner_id, SensorOwner::I2C(0x10));
    assert_eq!(common.key.sensor_number.get(), 0x32);
    assert_eq!(common.entity_id, 0x07);
    assert_eq!(common.sensor_type, 0x04);
    assert_eq!(common.event_reading_type_code, 0x01);
    assert_eq!(common.base_unit, Some(Unit::RevolutionsPerMinute));
    assert_eq!(common.sensor_id.as_str(), Some("Fan2A"));
    match &record.contents {
        RecordContents::FullSensor(full) => {
            assert_eq!(full.linearization, Linearization::Linear);
            assert_eq!(full.direction, Direction::UnspecifiedNotApplicable);
        }
        RecordContents::Unknown { .. } => panic!("expected a full sensor record"),
    }
}

#[test]
fn framed_record_parses_with_header() {
    let mut framed = vec![0x2a, 0x00, 0x51, 0x01, 48];
    framed.extend_from_slice(&FAN_2A_FSR);
    let record = Record::parse(&framed).unwrap();
    assert_eq!(record.header.id, RecordId(0x002a));
    assert_eq!(record.header.sdr_version_major, 1);
    assert_eq!(record.header.sdr_version_minor, 5);
    assert_eq!(record.common_data().unwrap().sensor_id.as_str(), Some("Fan2A"));
}

#[test]
fn framed_unknown_type_is_kept_verbatim() {
    let data = [0x01, 0x00, 0x51, 0x02, 0x03, 0xaa, 0xbb, 0xcc];
    let record = Record::parse(&data).unwrap();
    assert_eq!(record.header.id, RecordId(0x0001));
    match &record.contents {
        RecordContents::Unknown { data } => assert_eq!(data, &vec![0xaa, 0xbb, 0xcc]),
        RecordContents::FullSensor(_) => panic!("type 0x02 is not a full sensor record"),
    }
    assert!(record.common_data().is_none());
}

#[test]
fn record_length_mismatch_fails() {
    // Declared length 5, but only one byte follows the header.
    let data = [0x01, 0x00, 0x51, 0x01, 0x05, 0xaa];
    assert!(Record::parse(&data).is_none());
    // Declared length 2, three bytes follow: no silent truncation.
    let data = [0x01, 0x00, 0x51, 0x02, 0x02, 0xaa, 0xbb, 0xcc];
    assert!(Record::parse(&data).is_none());
    // Too short for any header at all.
    assert!(Record::parse(&[0x01, 0x00]).is_none());
}

#[test]
fn record_parse_is_idempotent() {
    let first = Record::parse(FAN_2A_FSR.as_ref());
    let second = Record::parse(FAN_2A_FSR.as_ref());
    assert_eq!(first, second);
    let unknown = [0x01, 0x00, 0x51, 0x02, 0x01, 0x42];
    assert_eq!(Record::parse(&unknown), Record::parse(&unknown));
}

#[test]
fn sensor_owner_decodes_both_kinds() {
    assert_eq!(SensorOwner::from(0x20), SensorOwner::I2C(0x10));
    assert_eq!(SensorOwner::from(0x21), SensorOwner::System(0x10));
    assert_eq!(SensorOwner::from(0x20).raw(), 0x20);
    assert_eq!(SensorOwner::from(0x21).raw(), 0x21);
}

#[test]
fn entity_instance_splits_ranges() {
    assert_eq!(
        EntityInstance::from(0x01),
        EntityInstance::Physical {
            relative: EntityRelativeTo::System,
            instance_number: 0x01,
        }
    );
    assert_eq!(
        EntityInstance::from(0x60),
        EntityInstance::Physical {
            relative: EntityRelativeTo::Device,
            instance_number: 0x60,
        }
    );
    assert_eq!(
        EntityInstance::from(0xe5),
        EntityInstance::LogicalContainer {
            relative: EntityRelativeTo::Device,
            instance_number: 0x65,
        }
    );
}

#[test]
fn sensor_units_decode() {
    // 0b00_000_01_0: unsigned format, no rate, divide modifier, no percent.
    let units = SensorUnits::from(0x02);
    assert_eq!(
        units.modifier,
        Some(ipmi_rs::storage::sdr::record::ModifierUnit::BasicUnitDivByModifierUnit)
    );
    assert!(units.analog_data_format.is_some());
    assert!(units.rate.is_none());
    assert!(!units.is_percentage);

    // 0b11_111_11_1: every reserved code plus the percentage flag.
    let units = SensorUnits::from(0xff);
    assert!(units.analog_data_format.is_none());
    assert!(units.rate.is_none());
    assert!(units.modifier.is_none());
    assert!(units.is_percentage);

    // Rate code 0b011 is seconds.
    let units = SensorUnits::from(0x18);
    assert_eq!(units.rate, Some(ipmi_rs::storage::sdr::record::RateUnit::Second));
}

#[test]
fn linearization_catalog() {
    assert_eq!(Linearization::from(0), Linearization::Linear);
    assert_eq!(Linearization::from(7), Linearization::OneOverX);
    assert_eq!(Linearization::from(9), Linearization::Sqrt);
    assert_eq!(Linearization::from(10), Linearization::Cube);
    assert_eq!(Linearization::from(11), Linearization::CubeRoot);
    assert_eq!(Linearization::from(12), Linearization::Unknown(12));
    assert_eq!(Linearization::from(0x71), Linearization::Oem(0x71));
    assert_eq!(Linearization::from(0x7f), Linearization::Oem(0x7f));
    assert_eq!(Linearization::from(0x30), Linearization::Unknown(0x30));
    assert_eq!(Linearization::from(0xff), Linearization::Unknown(0xff));
}

#[test]
fn unit_catalog_roundtrip() {
    assert_eq!(Unit::try_from(18), Ok(Unit::RevolutionsPerMinute));
    assert_eq!(Unit::try_from(0), Ok(Unit::Unspecified));
    assert_eq!(Unit::try_from(0xff), Ok(Unit::Unknown));
    assert_eq!(Unit::try_from(59), Err(()));
    assert_eq!(Unit::try_from(93), Err(()));
    assert_eq!(Unit::RevolutionsPerMinute.raw(), 18);
    assert_eq!(Unit::Gram.raw(), 92);
}

#[test]
fn direction_codes() {
    assert_eq!(Direction::try_from(0), Ok(Direction::UnspecifiedNotApplicable));
    assert_eq!(Direction::try_from(1), Ok(Direction::Input));
    assert_eq!(Direction::try_from(2), Ok(Direction::Output));
    assert_eq!(Direction::try_from(3), Err(()));
}

#[test]
fn sensor_id_encodings() {
    let raw = TypeLengthRaw::new(0xc5, b"Fan2Aextra");
    assert_eq!(
        raw.into_sensor_id(),
        Some(SensorId::Ascii8BAndLatin1("Fan2A".to_string()))
    );

    // Type code 0b01 keeps raw bytes.
    let raw = TypeLengthRaw::new(0x42, &[0x12, 0x34]);
    assert_eq!(raw.into_sensor_id(), Some(SensorId::BCDPlus(vec![0x12, 0x34])));

    // Type code 0b10 keeps raw bytes undecoded.
    let raw = TypeLengthRaw::new(0x83, &[0x01, 0x02, 0x03]);
    assert_eq!(
        raw.into_sensor_id(),
        Some(SensorId::Ascii6BPacked(vec![0x01, 0x02, 0x03]))
    );

    // The declared length exceeds the available bytes.
    let raw = TypeLengthRaw::new(0xc5, b"Fan");
    assert_eq!(raw.into_sensor_id(), None);

    // Ill-formed UTF-8 in a textual encoding.
    let raw = TypeLengthRaw::new(0xc2, &[0xff, 0xfe]);
    assert_eq!(raw.into_sensor_id(), None);
}

#[test]
fn capabilities_decode() {
    let caps = SensorCapabilities::new(0xd4, 0x3005, 0x0005, 0x0003);
    assert!(caps.ignore);
    assert!(caps.auto_rearm);
    assert_eq!(caps.event_message_control, 0x00);
    assert_eq!(caps.hysteresis, HysteresisCapability::Readable);
    assert_eq!(caps.assertion_threshold_events.bits, 0x005);
    assert_eq!(caps.deassertion_threshold_events.bits, 0x005);
    match caps.threshold_access {
        ThresholdAccessCapability::Readable { readable, .. } => {
            assert!(readable.for_kind(ThresholdKind::LowerNonCritical));
            assert!(readable.for_kind(ThresholdKind::LowerCritical));
            assert!(!readable.for_kind(ThresholdKind::UpperCritical));
        }
        _ => panic!("access code 0b01 means readable thresholds"),
    }
}

#[test]
fn event_mask_for_kind() {
    let caps = SensorCapabilities::new(0x00, 0x0003, 0x0001, 0x0000);
    let both = caps
        .assertion_threshold_events
        .for_kind(ThresholdKind::LowerNonCritical);
    assert_eq!(both, vec![EventKind::GoingHigh, EventKind::GoingLow]);
    let low_only = caps
        .deassertion_threshold_events
        .for_kind(ThresholdKind::LowerNonCritical);
    assert_eq!(low_only, vec![EventKind::GoingLow]);
    let nothing = caps
        .assertion_threshold_events
        .for_kind(ThresholdKind::UpperNonRecoverable);
    assert!(nothing.is_empty());
}

#[test]
fn threshold_summary_per_kind() {
    // Access code 0b10: readable and settable masks, with assertion events
    // for the lower-non-critical band.
    let caps = SensorCapabilities::new(0x08, 0x0003, 0x0000, 0x0001);
    let t = caps.threshold(ThresholdKind::LowerNonCritical);
    assert_eq!(t.kind, ThresholdKind::LowerNonCritical);
    assert!(t.readable);
    assert!(!t.settable);
    assert!(t.event_assert_going_high);
    assert!(t.event_assert_going_low);
    assert!(!t.event_deassert_going_high);
    assert!(!t.event_deassert_going_low);

    let t = caps.threshold(ThresholdKind::LowerNonRecoverable);
    assert!(!t.readable);
    assert!(!t.event_assert_going_high);

    // The settable mask lives in bits 8..14 of the third word.
    let caps = SensorCapabilities::new(0x08, 0x0000, 0x0000, 0x0100);
    assert!(caps.threshold(ThresholdKind::LowerNonCritical).settable);
    assert!(!caps.threshold(ThresholdKind::LowerNonCritical).readable);
}

#[test]
fn threshold_kind_variants_enumerate_all_six() {
    let kinds = ThresholdKind::variants();
    assert_eq!(kinds.len(), 6);
    assert_eq!(kinds[0], ThresholdKind::LowerNonCritical);
    assert_eq!(kinds[5], ThresholdKind::UpperNonRecoverable);
}
