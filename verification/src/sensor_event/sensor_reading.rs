use vstd::prelude::*;

pub mod get;

verus! {

/// A sensor's current raw reading and status flags, with up to two optional
/// event-offset bytes when the response carries them.
#[derive(Debug, Clone, Copy, PartialEq, Eq, Structural)]
pub struct RawSensorReading {
    pub reading: u8,
    pub all_event_messages_disabled: bool,
    pub scanning_disabled: bool,
    pub reading_or_state_unavailable: bool,
    pub offset_data_1: Option<u8>,
    pub offset_data_2: Option<u8>,
}

/// The reading held in a response payload: the raw reading byte, three
/// status bits (the wire carries enable bits, so the disabled flags negate
/// them), and whichever of the two offset bytes are present. Payloads
/// shorter than two bytes are rejected.
pub open spec fn raw_sensor_reading_parse_spec(data: Seq<u8>) -> Option<RawSensorReading> {
    if data.len() < 2 {
        None
    } else {
        Some(
            RawSensorReading {
                reading: data[0],
                all_event_messages_disabled: data[1] & 0x80 != 0x80,
                scanning_disabled: data[1] & 0x40 != 0x40,
                reading_or_state_unavailable: data[1] & 0x20 == 0x20,
                offset_data_1: if data.len() > 2 {
                    Some(data[2])
                } else {
                    None
                },
                offset_data_2: if data.len() > 3 {
                    Some(data[3])
                } else {
                    None
                },
            },
        )
    }
}

} // verus!
