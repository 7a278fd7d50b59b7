use vstd::prelude::*;

use crate::connection::{
    check_cc_success, CompletionCode, IpmiCommand, Message, MessageView, NetFn, ParseResponseError,
};
use crate::storage::record::SensorNumber;

verus! {

/// Query for a sensor's current reading on the local controller.
#[derive(Debug, Clone, Copy, PartialEq, Eq, Structural)]
pub struct GetSensorReading {
    pub sensor_number: SensorNumber,
}

impl GetSensorReading {
    /// A query for the given sensor.
    pub fn new(value: SensorNumber) -> (r: GetSensorReading)
        ensures
            r.sensor_number == value,
    {
        GetSensorReading { sensor_number: value }
    }

    /// A query for the given sensor.
    pub fn for_sensor(sensor: SensorNumber) -> (r: GetSensorReading)
        ensures
            r.sensor_number == sensor,
    {
        Self::new(sensor)
    }
}

/// A sensor's current raw reading and status flags, with up to two optional
/// event-offset bytes when the response carries them.
#[derive(Debug, Clone, Copy, PartialEq, Eq, Structural)]
pub struct SensorReading {
    pub reading: u8,
    pub all_event_messages_disabled: bool,
    pub scanning_disabled: bool,
    pub reading_or_state_unavailable: bool,
    pub offset_data_1: Option<u8>,
    pub offset_data_2: Option<u8>,
}

/// The reading held in a response payload: the raw reading byte, three
/// status bits (the wire carries enable bits, so the disabled flags negate
/// them), and whichever of the two offset bytes are present. Payloads
/// shorter than two bytes are rejected.
pub open spec fn sensor_reading_parse_spec(data: Seq<u8>) -> Option<SensorReading> {
    if data.len() < 2 {
        None
    } else {
        Some(
            SensorReading {
                reading: data[0],
                all_event_messages_disabled: data[1] & 0x80 != 0x80,
                scanning_disabled: data[1] & 0x40 != 0x40,
                reading_or_state_unavailable: data[1] & 0x20 == 0x20,
                offset_data_1: if data.len() > 2 {
                    Some(data[2])
                } else {
                    None
                },
                offset_data_2: if data.len() > 3 {
                    Some(data[3])
                } else {
                    None
                },
            },
        )
    }
}

impl SensorReading {
    /// Decode a reading payload; fails exactly when fewer than two bytes
    /// were supplied.
    pub fn parse(data: &[u8]) -> (r: Option<SensorReading>)
        ensures
            r == sensor_reading_parse_spec(data@),
    {
        if data.len() < 2 {
            return None;
        }
        let reading = data[0];

        // The wire bit says events are enabled, so the disabled flag is its
        // negation; the scanning bit works the same way.
        let all_event_messages_disabled = (data[1] & 0x80) != 0x80;
        let scanning_disabled = (data[1] & 0x40) != 0x40;
        let reading_or_state_unavailable = (data[1] & 0x20) == 0x20;

        let offset_data_1 = if data.len() > 2 {
            Some(data[2])
        } else {
            None
        };
        let offset_data_2 = if data.len() > 3 {
            Some(data[3])
        } else {
            None
        };

        Some(
            SensorReading {
                reading,
                all_event_messages_disabled,
                scanning_disabled,
                reading_or_state_unavailable,
                offset_data_1,
                offset_data_2,
            },
        )
    }
}

impl IpmiCommand for GetSensorReading {
    type Output = SensorReading;

    type Error = ();

    open spec fn message_spec(self) -> MessageView {
        MessageView { netfn_raw: 0x04, cmd: 0x2D, data: seq![self.sensor_number.0] }
    }

    open spec fn addr_spec(self) -> Option<(u8, u8)> {
        None
    }

    open spec fn parse_ok(
        completion_code: CompletionCode,
        data: Seq<u8>,
        r: Result<SensorReading, ParseResponseError<()>>,
    ) -> bool {
        match r {
            Ok(o) => completion_code is Success && sensor_reading_parse_spec(data) == Some(o),
            Err(ParseResponseError::NotSuccess(c)) => !(completion_code is Success) && c
                == completion_code,
            Err(ParseResponseError::NotEnoughData) => completion_code is Success
                && sensor_reading_parse_spec(data) is None,
            Err(ParseResponseError::Failed(_)) => false,
        }
    }

    fn into_message(self) -> (m: Message) {
        let mut data: Vec<u8> = Vec::new();
        data.push(self.sensor_number.get());
        proof {
            assert(data@ =~= seq![self.sensor_number.0]);
        }
        Message::new_request(NetFn::SensorEvent, 0x2D, data)
    }

    fn address_and_channel(&self) -> (r: Option<(u8, u8)>) {
        None
    }

    fn parse_response(completion_code: CompletionCode, data: &[u8]) -> (r: Result<
        SensorReading,
        ParseResponseError<()>,
    >) {
        if let Err(e) = check_cc_success::<()>(completion_code) {
            return Err(e);
        }
        match SensorReading::parse(data) {
            Some(reading) => Ok(reading),
            None => Err(ParseResponseError::NotEnoughData),
        }
    }
}

} // verus!
