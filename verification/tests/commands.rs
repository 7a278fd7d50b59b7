use ipmi_rs::app::{Channel, GetChannelAuthenticationCapabilities, PrivilegeLevel};
use ipmi_rs::connection::{CompletionCode, IpmiCommand, NetFn, ParseResponseError};
use ipmi_rs::sensor_event::get_sensor_reading::{GetSensorReading, SensorReading};
use ipmi_rs::sensor_event::sensor_reading::get::GetSensorReading as GetSensorReadingKeyed;
use ipmi_rs::sensor_event::RawSensorReading;
use ipmi_rs::storage::record::{SensorKey, SensorNumber};
use ipmi_rs::storage::sdr::GetDeviceSdr;
use ipmi_rs::storage::sdr::RecordId;
use ipmi_rs::storage::AllocInfo;

#[test]
fn channel_number_is_masked_and_tagged() {
    // The channel number is masked to four bits and sent with the high bit
    // set, exactly as it was normalized at construction.
    let command =
        GetChannelAuthenticationCapabilities::new(Channel::Number(0x1a), PrivilegeLevel::User);
    assert_eq!(command.channel_number, 0x0a);
    let message = command.into_message();
    assert_eq!(message.netfn(), NetFn::App);
    assert_eq!(message.cmd(), 0x38);
    assert_eq!(message.data(), &[0x8a, 0x02]);

    let command =
        GetChannelAuthenticationCapabilities::new(Channel::Current, PrivilegeLevel::Administrator);
    let message = command.into_message();
    assert_eq!(message.data(), &[0x8e, 0x04]);
}

#[test]
fn privilege_level_codes() {
    assert_eq!(PrivilegeLevel::try_from(0x01), Ok(PrivilegeLevel::Callback));
    assert_eq!(PrivilegeLevel::try_from(0xf4), Ok(PrivilegeLevel::Administrator));
    assert_eq!(PrivilegeLevel::try_from(0x00), Err(()));
    assert_eq!(PrivilegeLevel::try_from(0x06), Err(()));
    assert_eq!(PrivilegeLevel::Operator.raw(), 3);
}

#[test]
fn channel_auth_parses_base_layout() {
    // Bit 7 of byte 1 clear: the 7-byte layout without extension fields.
    let data = [0x01, 0x15, 0x1d, 0xaa, 0xbb, 0xcc, 0xdd];
    let caps = GetChannelAuthenticationCapabilities::parse_response(CompletionCode::Success, &data)
        .unwrap();
    assert_eq!(caps.channel_number, 0x01);
    assert!(caps.key);
    assert!(caps.md5);
    assert!(caps.none);
    assert!(!caps.md2);
    assert!(!caps.kg_status);
    assert!(!caps.ipmi2_connections_supported);
    assert!(!caps.ipmi15_connections_supported);
    assert!(!caps.per_message_authentication_enabled);
    assert!(!caps.user_level_authentication_enabled);
    assert_eq!(caps.oem_id, [0xaa, 0xbb, 0xcc]);
    assert_eq!(caps.oem_auxiliary_data, 0xdd);
}

#[test]
fn channel_auth_parses_extended_layout() {
    // Bit 7 of byte 1 set: the layout grows by one byte and the length
    // floor is re-checked.
    let short = [0x01, 0x95, 0x1d, 0x03, 0xaa, 0xbb, 0xcc];
    assert_eq!(
        GetChannelAuthenticationCapabilities::parse_response(CompletionCode::Success, &short),
        Err(ParseResponseError::NotEnoughData)
    );

    let data = [0x01, 0x95, 0x3d, 0x03, 0xaa, 0xbb, 0xcc, 0xdd];
    let caps = GetChannelAuthenticationCapabilities::parse_response(CompletionCode::Success, &data)
        .unwrap();
    assert!(caps.kg_status);
    assert!(caps.ipmi2_connections_supported);
    assert!(caps.ipmi15_connections_supported);
    assert_eq!(caps.oem_id, [0xaa, 0xbb, 0xcc]);
    assert_eq!(caps.oem_auxiliary_data, 0xdd);
}

#[test]
fn channel_auth_rejects_non_success() {
    let data = [0u8; 8];
    assert_eq!(
        GetChannelAuthenticationCapabilities::parse_response(CompletionCode::NodeBusy, &data),
        Err(ParseResponseError::NotSuccess(CompletionCode::NodeBusy))
    );
}

#[test]
fn sensor_reading_parses() {
    // Enable bits set on the wire mean the disabled flags are clear.
    let reading = SensorReading::parse(&[0x42, 0xc0]).unwrap();
    assert_eq!(reading.reading, 0x42);
    assert!(!reading.all_event_messages_disabled);
    assert!(!reading.scanning_disabled);
    assert!(!reading.reading_or_state_unavailable);
    assert_eq!(reading.offset_data_1, None);
    assert_eq!(reading.offset_data_2, None);

    let reading = SensorReading::parse(&[0x42, 0x20, 0x11, 0x22]).unwrap();
    assert!(reading.all_event_messages_disabled);
    assert!(reading.scanning_disabled);
    assert!(reading.reading_or_state_unavailable);
    assert_eq!(reading.offset_data_1, Some(0x11));
    assert_eq!(reading.offset_data_2, Some(0x22));

    assert!(SensorReading::parse(&[0x42]).is_none());
}

#[test]
fn raw_sensor_reading_parses() {
    let reading = RawSensorReading::parse(&[0x10, 0x80, 0x01]).unwrap();
    assert_eq!(reading.reading, 0x10);
    assert!(!reading.all_event_messages_disabled);
    assert!(reading.scanning_disabled);
    assert_eq!(reading.offset_data_1, Some(0x01));
    assert_eq!(reading.offset_data_2, None);
    assert!(RawSensorReading::parse(&[]).is_none());
}

#[test]
fn get_sensor_reading_encodes_sensor_number() {
    let message = GetSensorReading::for_sensor(SensorNumber::new(0x32)).into_message();
    assert_eq!(message.netfn(), NetFn::SensorEvent);
    assert_eq!(message.cmd(), 0x2d);
    assert_eq!(message.data(), &[0x32]);
}

#[test]
fn get_sensor_reading_for_key_targets_owner() {
    let record = ipmi_rs::storage::sdr::Record::parse(&FAN_2A_FSR).unwrap();
    let key: SensorKey = record.common_data().unwrap().key;
    let command = GetSensorReadingKeyed::for_sensor_key(&key);
    assert_eq!(command.sensor_number.get(), 0x32);
    assert_eq!(command.address_and_channel, Some((0x20, 0x00)));
    assert_eq!(command.address_and_channel(), Some((0x20, 0x00)));
}

#[test]
fn get_device_sdr_encodes_reservation_and_id() {
    let message = GetDeviceSdr::new(Some(0x1234), RecordId::new_raw(0xabcd)).into_message();
    assert_eq!(message.netfn(), NetFn::Storage);
    assert_eq!(message.cmd(), 0x23);
    assert_eq!(message.data(), &[0x34, 0x12, 0xcd, 0xab, 0x00, 0xff]);

    let message = GetDeviceSdr::new(None, RecordId::first()).into_message();
    assert_eq!(message.data(), &[0x00, 0x00, 0x00, 0x00, 0x00, 0xff]);
}

#[test]
fn get_device_sdr_rejects_malformed_record() {
    // Two chain-link bytes followed by a record whose declared length does
    // not match: the command-specific failure, not a truncation error.
    let data = [0x01, 0x00, 0x02, 0x00, 0x51, 0x01, 0x09, 0xaa];
    assert_eq!(
        GetDeviceSdr::parse_response(CompletionCode::Success, &data),
        Err(ParseResponseError::Failed(()))
    );
    assert_eq!(
        GetDeviceSdr::parse_response(CompletionCode::Success, &[0x01]),
        Err(ParseResponseError::NotEnoughData)
    );
}

#[test]
fn full_record_reserved_direction_fails() {
    let mut body = FAN_2A_FSR;
    // Set the two direction bits of the accuracy byte to the reserved code.
    body[23] |= 0x03;
    assert!(ipmi_rs::storage::sdr::Record::parse(&body).is_none());
}

#[test]
fn alloc_info_parses_exactly_nine_bytes() {
    let data = [0x01, 0x00, 0x10, 0x00, 0x02, 0x00, 0x08, 0x00, 0x3f];
    let info = AllocInfo::parse(&data).unwrap();
    assert_eq!(info.num_alloc_units, 1);
    assert_eq!(info.alloc_unit_size, 0x10);
    assert_eq!(info.num_free_units, 2);
    assert_eq!(info.largest_free_blk, 8);
    assert_eq!(info.max_record_size, 0x3f);
    assert!(AllocInfo::parse(&data[..8]).is_none());
}

const FAN_2A_FSR: [u8; 48] = [
    0x20, 0x00, 0x32, 0x07, 0x01, 0x7f, 0xd4, 0x04, 0x01, 0x05, 0x30, 0x05, 0x00, 0x03, 0x00,
    0x00, 0x12, 0x00, 0x00, 0x78, 0x02, 0x00, 0x02, 0x30, 0x00, 0x07, 0x54, 0xc5, 0x8b, 0xff,
    0x00, 0xff, 0xff, 0xff, 0x00, 0x05, 0x07, 0x01, 0x01, 0x00, 0x00, 0x00, 0xc5, 0x46, 0x61,
    0x6e, 0x32, 0x41,
];
