use vstd::prelude::*;

use super::{raw_sensor_reading_parse_spec, RawSensorReading};
use crate::connection::{
    check_cc_success, CompletionCode, IpmiCommand, Message, MessageView, NetFn, ParseResponseError,
};
use crate::storage::sdr::record::{sensor_owner_raw_spec, SensorKey, SensorNumber};

verus! {

impl RawSensorReading {
    /// Decode a reading payload; fails exactly when fewer than two bytes
    /// were supplied.
    pub fn parse(data: &[u8]) -> (r: Option<RawSensorReading>)
        ensures
            r == raw_sensor_reading_parse_spec(data@),
    {
        if data.len() < 2 {
            return None;
        }
        let reading = data[0];

        // The wire bit says events are enabled, so the disabled flag is its
        // negation; the scanning bit works the same way.
        let all_event_messages_disabled = (data[1] & 0x80) != 0x80;
        let scanning_disabled = (data[1] & 0x40) != 0x40;
        let reading_or_state_unavailable = (data[1] & 0x20) == 0x20;

        let offset_data_1 = if data.len() > 2 {
            Some(data[2])
        } else {
            None
        };
        let offset_data_2 = if data.len() > 3 {
            Some(data[3])
        } else {
            None
        };

        Some(
            RawSensorReading {
                reading,
                all_event_messages_disabled,
                scanning_disabled,
                reading_or_state_unavailable,
                offset_data_1,
                offset_data_2,
            },
        )
    }
}

/// Query for a sensor's current reading, optionally directed at a remote
/// device picked out of a sensor key.
#[derive(Debug, Clone, Copy, PartialEq, Eq)]
pub struct GetSensorReading {
    pub sensor_number: SensorNumber,
    pub address_and_channel: Option<(u8, u8)>,
}

impl GetSensorReading {
    /// A query for the given sensor on the local controller.
    pub fn new(value: SensorNumber) -> (r: GetSensorReading)
        ensures
            r.sensor_number == value,
            r.address_and_channel is None,
    {
        GetSensorReading { sensor_number: value, address_and_channel: None }
    }

    /// A query addressed at the owner a sensor key names.
    pub fn for_sensor_key(value: &SensorKey) -> (r: GetSensorReading)
        ensures
            r.sensor_number == value.sensor_number,
            r.address_and_channel == Some(
                (sensor_owner_raw_spec(value.owner_id), value.owner_channel),
            ),
    {
        GetSensorReading {
            sensor_number: value.sensor_number,
            address_and_channel: Some((value.owner_id.raw(), value.owner_channel)),
        }
    }

    /// A query for the given sensor on the local controller.
    pub fn for_sensor(sensor: SensorNumber) -> (r: GetSensorReading)
        ensures
            r.sensor_number == sensor,
            r.address_and_channel is None,
    {
        Self::new(sensor)
    }
}

impl IpmiCommand for GetSensorReading {
    type Output = RawSensorReading;

    type Error = ();

    open spec fn message_spec(self) -> MessageView {
        MessageView { netfn_raw: 0x04, cmd: 0x2D, data: seq![self.sensor_number.0] }
    }

    open spec fn addr_spec(self) -> Option<(u8, u8)> {
        self.address_and_channel
    }

    open spec fn parse_ok(
        completion_code: CompletionCode,
        data: Seq<u8>,
        r: Result<RawSensorReading, ParseResponseError<()>>,
    ) -> bool {
        match r {
            Ok(o) => completion_code is Success && raw_sensor_reading_parse_spec(data) == Some(o),
            Err(ParseResponseError::NotSuccess(c)) => !(completion_code is Success) && c
                == completion_code,
            Err(ParseResponseError::NotEnoughData) => completion_code is Success
                && raw_sensor_reading_parse_spec(data) is None,
            Err(ParseResponseError::Failed(_)) => false,
        }
    }

    fn into_message(self) -> (m: Message) {
        let mut data: Vec<u8> = Vec::new();
        data.push(self.sensor_number.get());
        proof {
            assert(data@ =~= seq![self.sensor_number.0]);
        }
        Message::new_request(NetFn::SensorEvent, 0x2D, data)
    }

    fn address_and_channel(&self) -> (r: Option<(u8, u8)>) {
        self.address_and_channel
    }

    fn parse_response(completion_code: CompletionCode, data: &[u8]) -> (r: Result<
        RawSensorReading,
        ParseResponseError<()>,
    >) {
        if let Err(e) = check_cc_success::<()>(completion_code) {
            return Err(e);
        }
        match RawSensorReading::parse(data) {
            Some(reading) => Ok(reading),
            None => Err(ParseResponseError::NotEnoughData),
        }
    }
}

} // verus!
