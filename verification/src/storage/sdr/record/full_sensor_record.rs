use vstd::prelude::*;

use super::{
    direction_from_spec, sensor_capabilities_spec, sensor_id_from_spec,
    sensor_initialization_from_spec, sensor_key_spec, sensor_units_from_spec,
    entity_instance_from_spec, linearization_from_spec, Direction, EntityInstance, Linearization,
    SensorCapabilities, SensorId, SensorInitialization, SensorKey, SensorRecordCommon,
    SensorRecordCommonView, SensorUnits, TypeLengthRaw,
};
use crate::storage::sdr::units::{unit_from_raw_spec, Unit};
use crate::wire::{u16_from_le, u16_from_le_spec};

verus! {

/// Spec-level value of a full sensor record.
pub struct FullSensorRecordView {
    pub common: SensorRecordCommonView,
    pub linearization: Linearization,
    pub direction: Direction,
}

/// The fully modeled record variant: the common sensor block plus the
/// transfer function and the sensor direction.
#[derive(Debug, Clone, PartialEq)]
pub struct FullSensorRecord {
    pub common: SensorRecordCommon,
    pub linearization: Linearization,
    pub direction: Direction,
}

impl View for FullSensorRecord {
    type V = FullSensorRecordView;

    open spec fn view(&self) -> FullSensorRecordView {
        FullSensorRecordView {
            common: self.common@,
            linearization: self.linearization,
            direction: self.direction,
        }
    }
}

/// The full-sensor record held in a record body: a 42-byte fixed part
/// followed by the identifier string at offset 42. Decoding fails when the
/// body is shorter than the fixed part plus the type/length byte, when the
/// identifier bytes run short or hold ill-formed text, or when the direction
/// code is the reserved one.
pub open spec fn full_sensor_record_parse_spec(body: Seq<u8>) -> Option<FullSensorRecordView> {
    if body.len() < 43 {
        None
    } else {
        match direction_from_spec(body[23] & 0x03) {
            None => None,
            Some(direction) => {
                match sensor_id_from_spec(body[42], body.subrange(43, body.len() as int)) {
                    None => None,
                    Some(sensor_id) => Some(
                        FullSensorRecordView {
                            common: SensorRecordCommonView {
                                key: sensor_key_spec(body[0], body[1], body[2]),
                                entity_id: body[3],
                                entity_instance: entity_instance_from_spec(body[4]),
                                initialization: sensor_initialization_from_spec(body[5]),
                                capabilities: sensor_capabilities_spec(
                                    body[6],
                                    u16_from_le_spec(body[9], body[10]),
                                    u16_from_le_spec(body[11], body[12]),
                                    u16_from_le_spec(body[13], body[14]),
                                ),
                                sensor_type: body[7],
                                event_reading_type_code: body[8],
                                sensor_units: sensor_units_from_spec(body[15]),
                                base_unit: unit_from_raw_spec(body[16]),
                                modifier_unit: unit_from_raw_spec(body[17]),
                                sensor_id,
                            },
                            linearization: linearization_from_spec(body[18]),
                            direction,
                        },
                    ),
                }
            },
        }
    }
}

impl FullSensorRecord {
    /// Decode a full-sensor record body, exactly as
    /// `full_sensor_record_parse_spec` lays down.
    pub fn parse(body: &[u8]) -> (r: Option<FullSensorRecord>)
        ensures
            r is Some <==> full_sensor_record_parse_spec(body@) is Some,
            r matches Some(f) ==> Some(f@) == full_sensor_record_parse_spec(body@),
    {
        if body.len() < 43 {
            return None;
        }
        let direction = match Direction::try_from(body[23] & 0x03) {
            Ok(d) => d,
            Err(_) => {
                return None;
            },
        };
        let tail = vstd::slice::slice_subrange(body, 43, body.len());
        let sensor_id = match TypeLengthRaw::new(body[42], tail).into_sensor_id() {
            Some(id) => id,
            None => {
                return None;
            },
        };
        let base_unit = match Unit::try_from(body[16]) {
            Ok(u) => Some(u),
            Err(_) => None,
        };
        let modifier_unit = match Unit::try_from(body[17]) {
            Ok(u) => Some(u),
            Err(_) => None,
        };
        Some(
            FullSensorRecord {
                common: SensorRecordCommon {
                    key: SensorKey::new(body[0], body[1], body[2]),
                    entity_id: body[3],
                    entity_instance: EntityInstance::from(body[4]),
                    initialization: SensorInitialization::from(body[5]),
                    capabilities: SensorCapabilities::new(
                        body[6],
                        u16_from_le(body[9], body[10]),
                        u16_from_le(body[11], body[12]),
                        u16_from_le(body[13], body[14]),
                    ),
                    sensor_type: body[7],
                    event_reading_type_code: body[8],
                    sensor_units: SensorUnits::from(body[15]),
                    base_unit,
                    modifier_unit,
                    sensor_id,
                },
                linearization: Linearization::from(body[18]),
                direction,
            },
        )
    }

    /// The common sensor block.
    pub fn common(&self) -> (r: &SensorRecordCommon)
        ensures
            r == &self.common,
    {
        &self.common
    }
}

} // verus!
