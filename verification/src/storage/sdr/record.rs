use vstd::prelude::*;

pub mod full_sensor_record;

pub use full_sensor_record::{full_sensor_record_parse_spec, FullSensorRecord, FullSensorRecordView};

use crate::connection::LogicalUnit;
use crate::wire::u16_from_le_spec;
use super::RecordId;

verus! {

/// How a sensor's owner is addressed: bit 0 of the raw byte selects between
/// an I2C slave address and a system software identifier, and the remaining
/// seven bits carry that identifier.
#[derive(Debug, Clone, Copy, PartialEq, Eq, Structural)]
pub enum SensorOwner {
    I2C(u8),
    System(u8),
}

/// The owner encoded in a raw byte: seven identifier bits over one kind bit.
pub open spec fn sensor_owner_from_spec(value: u8) -> SensorOwner {
    let id = (value & 0xFE) >> 1;
    if value & 0x01 == 0x01 {
        SensorOwner::System(id)
    } else {
        SensorOwner::I2C(id)
    }
}

/// The raw byte an owner encodes to.
pub open spec fn sensor_owner_raw_spec(owner: SensorOwner) -> u8 {
    match owner {
        SensorOwner::I2C(id) => id << 1,
        SensorOwner::System(id) => (id << 1) | 0x01,
    }
}

impl SensorOwner {
    /// Decode an owner byte. Total.
    pub fn from(value: u8) -> (r: SensorOwner)
        ensures
            r == sensor_owner_from_spec(value),
    {
        let id = (value & 0xFE) >> 1;
        if (value & 0x01) == 0x01 {
            SensorOwner::System(id)
        } else {
            SensorOwner::I2C(id)
        }
    }

    /// Encode back to the raw byte; inverse of `from`.
    pub fn raw(self) -> (r: u8)
        ensures
            r == sensor_owner_raw_spec(self),
    {
        match self {
            SensorOwner::I2C(id) => id << 1,
            SensorOwner::System(id) => (id << 1) | 0x01,
        }
    }
}

/// Owner bytes survive a decode/encode round trip exactly.
pub proof fn lemma_sensor_owner_roundtrip(value: u8)
    ensures
        sensor_owner_raw_spec(sensor_owner_from_spec(value)) == value,
{
    assert((value & 0x01 == 0x01 ==> ((((value & 0xFE) >> 1) << 1) | 0x01) == value) && (value
        & 0x01 != 0x01 ==> (((value & 0xFE) >> 1) << 1) == value)) by (bit_vector);
}

/// Encoding an owner and decoding the byte again keeps the owner kind and
/// the low seven identifier bits.
pub proof fn lemma_sensor_owner_raw_roundtrip(owner: SensorOwner)
    ensures
        sensor_owner_from_spec(sensor_owner_raw_spec(owner)) == match owner {
            SensorOwner::I2C(id) => SensorOwner::I2C(id & 0x7F),
            SensorOwner::System(id) => SensorOwner::System(id & 0x7F),
        },
{
    match owner {
        SensorOwner::I2C(id) => {
            assert(((id << 1) & 0x01) == 0x00 && (((id << 1) & 0xFE) >> 1) == id & 0x7F)
                by (bit_vector);
        },
        SensorOwner::System(id) => {
            assert(((((id << 1) | 0x01) & 0x01) == 0x01) && (((((id << 1) | 0x01) & 0xFE) >> 1)
                == id & 0x7F)) by (bit_vector);
        },
    }
}

/// Whether an entity instance number counts relative to the whole system or
/// to the device the sensor lives on.
#[derive(Debug, Clone, Copy, PartialEq, Eq, Structural)]
pub enum EntityRelativeTo {
    System,
    Device,
}

/// The entity a sensor monitors: bit 7 of the raw byte distinguishes a
/// physical entity from a logical container, and the low seven bits split
/// into the system-relative range 0x00..=0x5F and the device-relative range
/// 0x60..=0x7F.
#[derive(Debug, Clone, Copy, PartialEq, Eq, Structural)]
pub enum EntityInstance {
    Physical { relative: EntityRelativeTo, instance_number: u8 },
    LogicalContainer { relative: EntityRelativeTo, instance_number: u8 },
}

/// The entity instance encoded in a raw byte.
pub open spec fn entity_instance_from_spec(value: u8) -> EntityInstance {
    let instance_number = value & 0x7F;
    let relative = if instance_number <= 0x5F {
        EntityRelativeTo::System
    } else {
        EntityRelativeTo::Device
    };
    if value & 0x80 == 0x80 {
        EntityInstance::LogicalContainer { relative, instance_number }
    } else {
        EntityInstance::Physical { relative, instance_number }
    }
}

impl EntityInstance {
    /// Decode an entity-instance byte. Total.
    pub fn from(value: u8) -> (r: EntityInstance)
        ensures
            r == entity_instance_from_spec(value),
    {
        let instance_number = value & 0x7F;
        let relative = if instance_number <= 0x5F {
            EntityRelativeTo::System
        } else {
            EntityRelativeTo::Device
        };
        if (value & 0x80) == 0x80 {
            EntityInstance::LogicalContainer { relative, instance_number }
        } else {
            EntityInstance::Physical { relative, instance_number }
        }
    }
}

/// Which aspects of a sensor its controller lets software initialize, plus
/// the two startup defaults.
#[derive(Clone, Copy, Debug, PartialEq, Eq, Structural)]
pub struct SensorInitialization {
    pub settable: bool,
    pub scanning: bool,
    pub events: bool,
    pub thresholds: bool,
    pub hysteresis: bool,
    pub sensor_type: bool,
    pub event_generation_enabled_on_startup: bool,
    pub sensor_scanning_enabled_on_startup: bool,
}

/// The initialization flags packed into one byte. The hysteresis flag
/// reads the same bit as the thresholds flag.
pub open spec fn sensor_initialization_from_spec(value: u8) -> SensorInitialization {
    SensorInitialization {
        settable: value & 0x80 == 0x80,
        scanning: value & 0x40 == 0x40,
        events: value & 0x20 == 0x20,
        thresholds: value & 0x10 == 0x10,
        hysteresis: value & 0x10 == 0x10,
        sensor_type: value & 0x04 == 0x04,
        event_generation_enabled_on_startup: value & 0x02 == 0x02,
        sensor_scanning_enabled_on_startup: value & 0x01 == 0x01,
    }
}

impl SensorInitialization {
    /// Decode the initialization byte. Total.
    pub fn from(value: u8) -> (r: SensorInitialization)
        ensures
            r == sensor_initialization_from_spec(value),
    {
        SensorInitialization {
            settable: value & 0x80 == 0x80,
            scanning: value & 0x40 == 0x40,
            events: value & 0x20 == 0x20,
            thresholds: value & 0x10 == 0x10,
            hysteresis: value & 0x10 == 0x10,
            sensor_type: value & 0x04 == 0x04,
            event_generation_enabled_on_startup: value & 0x02 == 0x02,
            sensor_scanning_enabled_on_startup: value & 0x01 == 0x01,
        }
    }
}

/// How a sensor's hysteresis values can be accessed.
#[derive(Debug, Clone, Copy, PartialEq, Eq, Structural)]
pub enum HysteresisCapability {
    NoneOrUnspecified,
    Readable,
    ReadableAndSettable,
    FixedAndUnreadable,
}

/// A threshold event direction: the reading crossed going up or going down.
#[derive(Debug, Clone, Copy, PartialEq, Eq, Structural)]
pub enum EventKind {
    GoingHigh,
    GoingLow,
}

/// One of the six threshold severity/direction bands.
#[derive(Debug, Clone, Copy, PartialEq, Eq, Structural)]
pub enum ThresholdKind {
    LowerNonCritical,
    LowerCritical,
    LowerNonRecoverable,
    UpperNonCritical,
    UpperCritical,
    UpperNonRecoverable,
}

impl ThresholdKind {
    /// All six threshold kinds, lower bands first.
    pub fn variants() -> (r: Vec<ThresholdKind>)
        ensures
            r@ == seq![
                ThresholdKind::LowerNonCritical,
                ThresholdKind::LowerCritical,
                ThresholdKind::LowerNonRecoverable,
                ThresholdKind::UpperNonCritical,
                ThresholdKind::UpperCritical,
                ThresholdKind::UpperNonRecoverable,
            ],
    {
        let mut r: Vec<ThresholdKind> = Vec::new();
        r.push(ThresholdKind::LowerNonCritical);
        r.push(ThresholdKind::LowerCritical);
        r.push(ThresholdKind::LowerNonRecoverable);
        r.push(ThresholdKind::UpperNonCritical);
        r.push(ThresholdKind::UpperCritical);
        r.push(ThresholdKind::UpperNonRecoverable);
        proof {
            assert(r@ =~= seq![
                ThresholdKind::LowerNonCritical,
                ThresholdKind::LowerCritical,
                ThresholdKind::LowerNonRecoverable,
                ThresholdKind::UpperNonCritical,
                ThresholdKind::UpperCritical,
                ThresholdKind::UpperNonRecoverable,
            ]);
        }
        r
    }
}

/// A 12-bit mask of threshold assertion or deassertion events: one
/// going-low and one going-high bit for each of the six threshold kinds,
/// lower-non-critical-going-low in bit 0 up to
/// upper-non-recoverable-going-high in bit 11.
#[derive(Debug, Clone, Copy, PartialEq, Eq, Structural)]
pub struct ThresholdAssertEventMask {
    pub bits: u16,
}

/// The going-low bit a threshold kind uses in an event mask.
pub open spec fn threshold_low_bit_spec(kind: ThresholdKind) -> u16 {
    match kind {
        ThresholdKind::LowerNonCritical => 0x0001,
        ThresholdKind::LowerCritical => 0x0004,
        ThresholdKind::LowerNonRecoverable => 0x0010,
        ThresholdKind::UpperNonCritical => 0x0040,
        ThresholdKind::UpperCritical => 0x0100,
        ThresholdKind::UpperNonRecoverable => 0x0400,
    }
}

/// The going-high bit a threshold kind uses in an event mask.
pub open spec fn threshold_high_bit_spec(kind: ThresholdKind) -> u16 {
    match kind {
        ThresholdKind::LowerNonCritical => 0x0002,
        ThresholdKind::LowerCritical => 0x0008,
        ThresholdKind::LowerNonRecoverable => 0x0020,
        ThresholdKind::UpperNonCritical => 0x0080,
        ThresholdKind::UpperCritical => 0x0200,
        ThresholdKind::UpperNonRecoverable => 0x0800,
    }
}

/// The event directions a mask enables for a threshold kind: going-high
/// first when both are set.
pub open spec fn mask_for_kind_spec(mask: ThresholdAssertEventMask, kind: ThresholdKind) -> Seq<
    EventKind,
> {
    let low = mask.bits & threshold_low_bit_spec(kind) == threshold_low_bit_spec(kind);
    let high = mask.bits & threshold_high_bit_spec(kind) == threshold_high_bit_spec(kind);
    if low && high {
        seq![EventKind::GoingHigh, EventKind::GoingLow]
    } else if low {
        seq![EventKind::GoingLow]
    } else if high {
        seq![EventKind::GoingHigh]
    } else {
        Seq::empty()
    }
}

impl ThresholdAssertEventMask {
    /// Keep the twelve defined mask bits of a raw 16-bit field and drop the
    /// rest.
    pub fn from_bits_truncate(bits: u16) -> (r: ThresholdAssertEventMask)
        ensures
            r.bits == bits & 0x0FFF,
    {
        ThresholdAssertEventMask { bits: bits & 0x0FFF }
    }

    /// The event directions this mask enables for a threshold kind.
    pub fn for_kind(&self, kind: ThresholdKind) -> (r: Vec<EventKind>)
        ensures
            r@ == mask_for_kind_spec(*self, kind),
    {
        let low_bit: u16 = match kind {
            ThresholdKind::LowerNonCritical => 0x0001,
            ThresholdKind::LowerCritical => 0x0004,
            ThresholdKind::LowerNonRecoverable => 0x0010,
            ThresholdKind::UpperNonCritical => 0x0040,
            ThresholdKind::UpperCritical => 0x0100,
            ThresholdKind::UpperNonRecoverable => 0x0400,
        };
        let high_bit: u16 = match kind {
            ThresholdKind::LowerNonCritical => 0x0002,
            ThresholdKind::LowerCritical => 0x0008,
            ThresholdKind::LowerNonRecoverable => 0x0020,
            ThresholdKind::UpperNonCritical => 0x0080,
            ThresholdKind::UpperCritical => 0x0200,
            ThresholdKind::UpperNonRecoverable => 0x0800,
        };
        let low = self.bits & low_bit == low_bit;
        let high = self.bits & high_bit == high_bit;
        let mut r: Vec<EventKind> = Vec::new();
        if low && high {
            r.push(EventKind::GoingHigh);
            r.push(EventKind::GoingLow);
        } else if low {
            r.push(EventKind::GoingLow);
        } else if high {
            r.push(EventKind::GoingHigh);
        }
        proof {
            assert(r@ =~= mask_for_kind_spec(*self, kind));
        }
        r
    }
}

/// One flag per threshold kind.
#[derive(Debug, Clone, Copy, PartialEq, Eq, Structural)]
pub struct Thresholds {
    pub lower_non_recoverable: bool,
    pub lower_critical: bool,
    pub lower_non_critical: bool,
    pub upper_non_recoverable: bool,
    pub upper_critical: bool,
    pub upper_non_critical: bool,
}

/// The flag a threshold kind selects.
pub open spec fn thresholds_for_kind_spec(t: Thresholds, kind: ThresholdKind) -> bool {
    match kind {
        ThresholdKind::LowerNonCritical => t.lower_non_critical,
        ThresholdKind::LowerCritical => t.lower_critical,
        ThresholdKind::LowerNonRecoverable => t.lower_non_recoverable,
        ThresholdKind::UpperNonCritical => t.upper_non_critical,
        ThresholdKind::UpperCritical => t.upper_critical,
        ThresholdKind::UpperNonRecoverable => t.upper_non_recoverable,
    }
}

impl Thresholds {
    /// The flag of the given threshold kind.
    pub fn for_kind(&self, kind: ThresholdKind) -> (r: bool)
        ensures
            r == thresholds_for_kind_spec(*self, kind),
    {
        match kind {
            ThresholdKind::LowerNonCritical => self.lower_non_critical,
            ThresholdKind::LowerCritical => self.lower_critical,
            ThresholdKind::LowerNonRecoverable => self.lower_non_recoverable,
            ThresholdKind::UpperNonCritical => self.upper_non_critical,
            ThresholdKind::UpperCritical => self.upper_critical,
            ThresholdKind::UpperNonRecoverable => self.upper_non_recoverable,
        }
    }
}

/// Everything a record states about one threshold kind.
#[derive(Debug, Clone, Copy, PartialEq, Eq, Structural)]
pub struct Threshold {
    pub kind: ThresholdKind,
    pub readable: bool,
    pub settable: bool,
    pub event_assert_going_high: bool,
    pub event_assert_going_low: bool,
    pub event_deassert_going_high: bool,
    pub event_deassert_going_low: bool,
}

/// How a sensor's thresholds can be accessed, a four-way variant whose
/// payload differs by variant: nothing, readable masks, readable and
/// settable masks, or the fixed supported set.
#[derive(Debug, Clone, Copy, PartialEq, Eq, Structural)]
pub enum ThresholdAccessCapability {
    NoAccess,
    Readable { readable: Thresholds, values: Thresholds },
    ReadableAndSettable { readable: Thresholds, values: Thresholds, settable: Thresholds },
    FixedAndUnreadable { supported: Thresholds },
}

/// Whether a threshold kind is readable under an access capability.
pub open spec fn access_readable_spec(access: ThresholdAccessCapability, kind: ThresholdKind) -> bool {
    match access {
        ThresholdAccessCapability::Readable { readable, .. } => thresholds_for_kind_spec(
            readable,
            kind,
        ),
        ThresholdAccessCapability::ReadableAndSettable { readable, .. } => thresholds_for_kind_spec(
            readable,
            kind,
        ),
        _ => false,
    }
}

/// Whether a threshold kind is settable under an access capability.
pub open spec fn access_settable_spec(access: ThresholdAccessCapability, kind: ThresholdKind) -> bool {
    match access {
        ThresholdAccessCapability::ReadableAndSettable { settable, .. } => thresholds_for_kind_spec(
            settable,
            kind,
        ),
        _ => false,
    }
}

impl ThresholdAccessCapability {
    /// Whether the given threshold kind can be read.
    pub fn readable(&self, kind: ThresholdKind) -> (r: bool)
        ensures
            r == access_readable_spec(*self, kind),
    {
        match self {
            ThresholdAccessCapability::Readable { readable, .. } => readable.for_kind(kind),
            ThresholdAccessCapability::ReadableAndSettable { readable, .. } => readable.for_kind(
                kind,
            ),
            _ => false,
        }
    }

    /// Whether the given threshold kind can be set.
    pub fn settable(&self, kind: ThresholdKind) -> (r: bool)
        ensures
            r == access_settable_spec(*self, kind),
    {
        match self {
            ThresholdAccessCapability::ReadableAndSettable { settable, .. } => settable.for_kind(
                kind,
            ),
            _ => false,
        }
    }
}

/// A sensor's capability block, decoded from the capability byte and the
/// three 16-bit threshold mask fields of a full sensor record.
#[derive(Debug, Clone, Copy, PartialEq, Eq, Structural)]
pub struct SensorCapabilities {
    pub ignore: bool,
    pub auto_rearm: bool,
    pub event_message_control: u8,
    pub hysteresis: HysteresisCapability,
    pub threshold_access: ThresholdAccessCapability,
    pub assertion_threshold_events: ThresholdAssertEventMask,
    pub deassertion_threshold_events: ThresholdAssertEventMask,
}

/// The capability block encoded in the capability byte and the three mask
/// words. The capability byte splits positionally: the ignore and
/// auto-rearm bits on top, the hysteresis code in bits 5:4, the
/// threshold-access code in bits 3:2 and event-message control in the low
/// two bits. The three upper flags of the readable-value mask all read bit
/// 14 of the deassertion word.
pub open spec fn sensor_capabilities_spec(
    caps: u8,
    assert_lower_thrsd: u16,
    deassert_upper_thrshd: u16,
    discrete_rd_thrsd_set_thrshd_read: u16,
) -> SensorCapabilities {
    let hysteresis_code = (caps >> 4) & 0x03;
    let hysteresis = if hysteresis_code == 0b00 {
        HysteresisCapability::NoneOrUnspecified
    } else if hysteresis_code == 0b01 {
        HysteresisCapability::Readable
    } else if hysteresis_code == 0b10 {
        HysteresisCapability::ReadableAndSettable
    } else {
        HysteresisCapability::FixedAndUnreadable
    };
    let threshold_read_value_mask = Thresholds {
        lower_non_recoverable: (assert_lower_thrsd >> 14) & 0x1 == 1,
        lower_critical: (assert_lower_thrsd >> 13) & 0x1 == 1,
        lower_non_critical: (assert_lower_thrsd >> 12) & 0x1 == 1,
        upper_non_recoverable: (deassert_upper_thrshd >> 14) & 0x1 == 1,
        upper_critical: (deassert_upper_thrshd >> 14) & 0x1 == 1,
        upper_non_critical: (deassert_upper_thrshd >> 14) & 0x1 == 1,
    };
    let threshold_set_mask = Thresholds {
        upper_non_recoverable: (discrete_rd_thrsd_set_thrshd_read >> 13) & 0x1 == 1,
        upper_critical: (discrete_rd_thrsd_set_thrshd_read >> 12) & 0x1 == 1,
        upper_non_critical: (discrete_rd_thrsd_set_thrshd_read >> 11) & 0x1 == 1,
        lower_non_recoverable: (discrete_rd_thrsd_set_thrshd_read >> 10) & 0x1 == 1,
        lower_critical: (discrete_rd_thrsd_set_thrshd_read >> 9) & 0x1 == 1,
        lower_non_critical: (discrete_rd_thrsd_set_thrshd_read >> 8) & 0x1 == 1,
    };
    let threshold_read_mask = Thresholds {
        upper_non_recoverable: (discrete_rd_thrsd_set_thrshd_read >> 5) & 0x1 == 1,
        upper_critical: (discrete_rd_thrsd_set_thrshd_read >> 4) & 0x1 == 1,
        upper_non_critical: (discrete_rd_thrsd_set_thrshd_read >> 3) & 0x1 == 1,
        lower_non_recoverable: (discrete_rd_thrsd_set_thrshd_read >> 2) & 0x1 == 1,
        lower_critical: (discrete_rd_thrsd_set_thrshd_read >> 1) & 0x1 == 1,
        lower_non_critical: discrete_rd_thrsd_set_thrshd_read & 0x1 == 1,
    };
    let access_code = (caps & 0x0C) >> 2;
    let threshold_access = if access_code == 0b00 {
        ThresholdAccessCapability::NoAccess
    } else if access_code == 0b01 {
        ThresholdAccessCapability::Readable {
            readable: threshold_read_mask,
            values: threshold_read_value_mask,
        }
    } else if access_code == 0b10 {
        ThresholdAccessCapability::ReadableAndSettable {
            readable: threshold_read_mask,
            values: threshold_read_value_mask,
            settable: threshold_set_mask,
        }
    } else {
        ThresholdAccessCapability::FixedAndUnreadable { supported: threshold_read_mask }
    };
    SensorCapabilities {
        ignore: caps & 0x80 == 0x80,
        auto_rearm: caps & 0x40 == 0x40,
        event_message_control: caps & 0x03,
        hysteresis,
        threshold_access,
        assertion_threshold_events: ThresholdAssertEventMask {
            bits: assert_lower_thrsd & 0x0FFF,
        },
        deassertion_threshold_events: ThresholdAssertEventMask {
            bits: deassert_upper_thrshd & 0x0FFF,
        },
    }
}

impl SensorCapabilities {
    /// Decode the capability byte together with the three mask words. Total.
    pub fn new(
        caps: u8,
        assert_lower_thrsd: u16,
        deassert_upper_thrshd: u16,
        discrete_rd_thrsd_set_thrshd_read: u16,
    ) -> (r: SensorCapabilities)
        ensures
            r == sensor_capabilities_spec(
                caps,
                assert_lower_thrsd,
                deassert_upper_thrshd,
                discrete_rd_thrsd_set_thrshd_read,
            ),
    {
        let ignore = (caps & 0x80) == 0x80;
        let auto_rearm = (caps & 0x40) == 0x40;
        let hysteresis_code = (caps >> 4) & 0x03;
        let hysteresis = if hysteresis_code == 0b00 {
            HysteresisCapability::NoneOrUnspecified
        } else if hysteresis_code == 0b01 {
            HysteresisCapability::Readable
        } else if hysteresis_code == 0b10 {
            HysteresisCapability::ReadableAndSettable
        } else {
            HysteresisCapability::FixedAndUnreadable
        };
        let event_message_control = caps & 0x03;

        let assertion_event_mask = ThresholdAssertEventMask::from_bits_truncate(assert_lower_thrsd);
        let deassertion_event_mask = ThresholdAssertEventMask::from_bits_truncate(
            deassert_upper_thrshd,
        );

        let threshold_read_value_mask = Thresholds {
            lower_non_recoverable: ((assert_lower_thrsd >> 14) & 0x1) == 1,
            lower_critical: ((assert_lower_thrsd >> 13) & 0x1) == 1,
            lower_non_critical: ((assert_lower_thrsd >> 12) & 0x1) == 1,
            upper_non_recoverable: ((deassert_upper_thrshd >> 14) & 0x1) == 1,
            upper_critical: ((deassert_upper_thrshd >> 14) & 0x1) == 1,
            upper_non_critical: ((deassert_upper_thrshd >> 14) & 0x1) == 1,
        };

        let threshold_set_mask = Thresholds {
            upper_non_recoverable: ((discrete_rd_thrsd_set_thrshd_read >> 13) & 0x1) == 1,
            upper_critical: ((discrete_rd_thrsd_set_thrshd_read >> 12) & 0x1) == 1,
            upper_non_critical: ((discrete_rd_thrsd_set_thrshd_read >> 11) & 0x1) == 1,
            lower_non_recoverable: ((discrete_rd_thrsd_set_thrshd_read >> 10) & 0x1) == 1,
            lower_critical: ((discrete_rd_thrsd_set_thrshd_read >> 9) & 0x1) == 1,
            lower_non_critical: ((discrete_rd_thrsd_set_thrshd_read >> 8) & 0x1) == 1,
        };

        let threshold_read_mask = Thresholds {
            upper_non_recoverable: ((discrete_rd_thrsd_set_thrshd_read >> 5) & 0x1) == 1,
            upper_critical: ((discrete_rd_thrsd_set_thrshd_read >> 4) & 0x1) == 1,
            upper_non_critical: ((discrete_rd_thrsd_set_thrshd_read >> 3) & 0x1) == 1,
            lower_non_recoverable: ((discrete_rd_thrsd_set_thrshd_read >> 2) & 0x1) == 1,
            lower_critical: ((discrete_rd_thrsd_set_thrshd_read >> 1) & 0x1) == 1,
            lower_non_critical: (discrete_rd_thrsd_set_thrshd_read & 0x1) == 1,
        };

        let access_code = (caps & 0x0C) >> 2;
        let threshold_access_support = if access_code == 0b00 {
            ThresholdAccessCapability::NoAccess
        } else if access_code == 0b01 {
            ThresholdAccessCapability::Readable {
                readable: threshold_read_mask,
                values: threshold_read_value_mask,
            }
        } else if access_code == 0b10 {
            ThresholdAccessCapability::ReadableAndSettable {
                readable: threshold_read_mask,
                values: threshold_read_value_mask,
                settable: threshold_set_mask,
            }
        } else {
            ThresholdAccessCapability::FixedAndUnreadable { supported: threshold_read_mask }
        };

        SensorCapabilities {
            ignore,
            auto_rearm,
            event_message_control,
            hysteresis,
            threshold_access: threshold_access_support,
            assertion_threshold_events: assertion_event_mask,
            deassertion_threshold_events: deassertion_event_mask,
        }
    }

    /// Everything this capability block states about one threshold kind.
    pub fn threshold(&self, kind: ThresholdKind) -> (r: Threshold)
        ensures
            r.kind == kind,
            r.readable == access_readable_spec(self.threshold_access, kind),
            r.settable == access_settable_spec(self.threshold_access, kind),
            r.event_assert_going_high == mask_for_kind_spec(
                self.assertion_threshold_events,
                kind,
            ).contains(EventKind::GoingHigh),
            r.event_assert_going_low == mask_for_kind_spec(
                self.assertion_threshold_events,
                kind,
            ).contains(EventKind::GoingLow),
            r.event_deassert_going_high == mask_for_kind_spec(
                self.deassertion_threshold_events,
                kind,
            ).contains(EventKind::GoingHigh),
            r.event_deassert_going_low == mask_for_kind_spec(
                self.deassertion_threshold_events,
                kind,
            ).contains(EventKind::GoingLow),
    {
        let assert_events = self.assertion_threshold_events.for_kind(kind);
        let deassert_events = self.deassertion_threshold_events.for_kind(kind);
        let r = Threshold {
            kind,
            readable: self.threshold_access.readable(kind),
            settable: self.threshold_access.settable(kind),
            event_assert_going_high: contains_event(&assert_events, EventKind::GoingHigh),
            event_assert_going_low: contains_event(&assert_events, EventKind::GoingLow),
            event_deassert_going_high: contains_event(&deassert_events, EventKind::GoingHigh),
            event_deassert_going_low: contains_event(&deassert_events, EventKind::GoingLow),
        };
        r
    }
}

/// Whether an event list holds the given direction.
fn contains_event(events: &Vec<EventKind>, kind: EventKind) -> (r: bool)
    ensures
        r == events@.contains(kind),
{
    let mut i: usize = 0;
    while i < events.len()
        invariant
            0 <= i <= events@.len(),
            forall|j: int| 0 <= j < i ==> events@[j] != kind,
        decreases events@.len() - i,
    {
        if events[i] == kind {
            assert(events@.contains(kind));
            return true;
        }
        i += 1;
    }
    false
}

/// How an analog reading byte is to be interpreted.
#[derive(Debug, Clone, Copy, PartialEq, Eq, Structural)]
pub enum DataFormat {
    Unsigned,
    OnesComplement,
    TwosComplement,
}

/// The time base a rate-of-change reading counts against.
#[derive(Debug, Clone, Copy, PartialEq, Eq, Structural)]
pub enum RateUnit {
    Microsecond,
    Millisecond,
    Second,
    Minute,
    Hour,
    Day,
}

/// How the modifier unit combines with the base unit.
#[derive(Debug, Clone, Copy, PartialEq, Eq, Structural)]
pub enum ModifierUnit {
    BasicUnitDivByModifierUnit,
    BasicUnitMulByModifierUnit,
}

/// The unit byte of a sensor record: a 2-bit analog data format, a 3-bit
/// rate unit, a 2-bit modifier relationship and the percentage flag. The
/// reserved codes of each field decode to `None`.
#[derive(Debug, Clone, Copy, PartialEq, Eq, Structural)]
pub struct SensorUnits {
    pub analog_data_format: Option<DataFormat>,
    pub rate: Option<RateUnit>,
    pub modifier: Option<ModifierUnit>,
    pub is_percentage: bool,
}

/// The unit fields packed into the first sensor-units byte.
pub open spec fn sensor_units_from_spec(value: u8) -> SensorUnits {
    let format_code = (value >> 6) & 0x03;
    let rate_code = (value >> 3) & 0x07;
    let modifier_code = (value >> 1) & 0x03;
    SensorUnits {
        analog_data_format: if format_code == 0b00 {
            Some(DataFormat::Unsigned)
        } else if format_code == 0b01 {
            Some(DataFormat::OnesComplement)
        } else if format_code == 0b10 {
            Some(DataFormat::TwosComplement)
        } else {
            None
        },
        rate: if rate_code == 0b001 {
            Some(RateUnit::Microsecond)
        } else if rate_code == 0b010 {
            Some(RateUnit::Millisecond)
        } else if rate_code == 0b011 {
            Some(RateUnit::Second)
        } else if rate_code == 0b100 {
            Some(RateUnit::Minute)
        } else if rate_code == 0b101 {
            Some(RateUnit::Hour)
        } else if rate_code == 0b110 {
            Some(RateUnit::Day)
        } else {
            None
        },
        modifier: if modifier_code == 0b01 {
            Some(ModifierUnit::BasicUnitDivByModifierUnit)
        } else if modifier_code == 0b10 {
            Some(ModifierUnit::BasicUnitMulByModifierUnit)
        } else {
            None
        },
        is_percentage: value & 0x01 == 0x01,
    }
}

impl SensorUnits {
    /// Decode the first sensor-units byte. Total.
    pub fn from(sensor_units_1: u8) -> (r: SensorUnits)
        ensures
            r == sensor_units_from_spec(sensor_units_1),
    {
        let format_code = (sensor_units_1 >> 6) & 0x03;
        let analog_data_format = if format_code == 0b00 {
            Some(DataFormat::Unsigned)
        } else if format_code == 0b01 {
            Some(DataFormat::OnesComplement)
        } else if format_code == 0b10 {
            Some(DataFormat::TwosComplement)
        } else {
            None
        };

        let rate_code = (sensor_units_1 >> 3) & 0x07;
        let rate = if rate_code == 0b001 {
            Some(RateUnit::Microsecond)
        } else if rate_code == 0b010 {
            Some(RateUnit::Millisecond)
        } else if rate_code == 0b011 {
            Some(RateUnit::Second)
        } else if rate_code == 0b100 {
            Some(RateUnit::Minute)
        } else if rate_code == 0b101 {
            Some(RateUnit::Hour)
        } else if rate_code == 0b110 {
            Some(RateUnit::Day)
        } else {
            None
        };

        let modifier_code = (sensor_units_1 >> 1) & 0x03;
        let modifier = if modifier_code == 0b01 {
            Some(ModifierUnit::BasicUnitDivByModifierUnit)
        } else if modifier_code == 0b10 {
            Some(ModifierUnit::BasicUnitMulByModifierUnit)
        } else {
            None
        };

        let is_percentage = (sensor_units_1 & 0x1) == 0x1;

        SensorUnits { analog_data_format, rate, modifier, is_percentage }
    }
}

/// The transfer function relating a raw reading to its engineering value: a
/// fixed catalog of named functions, an OEM range kept with its raw code,
/// and a catch-all for every other code. Total, never fails.
#[derive(Debug, Clone, Copy, PartialEq, Eq, Structural)]
pub enum Linearization {
    Linear,
    Ln,
    Log10,
    Log2,
    E,
    Exp10,
    Exp2,
    OneOverX,
    Sqr,
    Cube,
    Sqrt,
    CubeRoot,
    Oem(u8),
    Unknown(u8),
}

/// The linearization a raw code names: the twelve-function catalog at
/// codes 0 through 11, the OEM range kept with its raw code, and every
/// other code preserved as unknown.
pub open spec fn linearization_from_spec(value: u8) -> Linearization {
    if value == 0 {
        Linearization::Linear
    } else if value == 1 {
        Linearization::Ln
    } else if value == 2 {
        Linearization::Log10
    } else if value == 3 {
        Linearization::Log2
    } else if value == 4 {
        Linearization::E
    } else if value == 5 {
        Linearization::Exp10
    } else if value == 6 {
        Linearization::Exp2
    } else if value == 7 {
        Linearization::OneOverX
    } else if value == 8 {
        Linearization::Sqr
    } else if value == 9 {
        Linearization::Sqrt
    } else if value == 10 {
        Linearization::Cube
    } else if value == 11 {
        Linearization::CubeRoot
    } else if 0x71 <= value && value <= 0x7F {
        Linearization::Oem(value)
    } else {
        Linearization::Unknown(value)
    }
}

impl Linearization {
    /// Decode a linearization code. Total.
    pub fn from(value: u8) -> (r: Linearization)
        ensures
            r == linearization_from_spec(value),
    {
        if value == 0 {
            Linearization::Linear
        } else if value == 1 {
            Linearization::Ln
        } else if value == 2 {
            Linearization::Log10
        } else if value == 3 {
            Linearization::Log2
        } else if value == 4 {
            Linearization::E
        } else if value == 5 {
            Linearization::Exp10
        } else if value == 6 {
            Linearization::Exp2
        } else if value == 7 {
            Linearization::OneOverX
        } else if value == 8 {
            Linearization::Sqr
        } else if value == 9 {
            Linearization::Sqrt
        } else if value == 10 {
            Linearization::Cube
        } else if value == 11 {
            Linearization::CubeRoot
        } else if 0x71 <= value && value <= 0x7F {
            Linearization::Oem(value)
        } else {
            Linearization::Unknown(value)
        }
    }
}

/// Whether a sensor measures an input or an output of its entity.
#[derive(Clone, Copy, Debug, PartialEq, Eq, Structural)]
pub enum Direction {
    UnspecifiedNotApplicable,
    Input,
    Output,
}

/// The direction a 2-bit code names, if any: the fourth code is reserved.
pub open spec fn direction_from_spec(value: u8) -> Option<Direction> {
    if value == 0b00 {
        Some(Direction::UnspecifiedNotApplicable)
    } else if value == 0b01 {
        Some(Direction::Input)
    } else if value == 0b10 {
        Some(Direction::Output)
    } else {
        None
    }
}

impl Direction {
    /// Decode a direction code; the reserved code is rejected.
    pub fn try_from(value: u8) -> (r: Result<Direction, ()>)
        ensures
            r matches Ok(d) ==> direction_from_spec(value) == Some(d),
            r is Err <==> direction_from_spec(value) is None,
    {
        if value == 0b00 {
            Ok(Direction::UnspecifiedNotApplicable)
        } else if value == 0b01 {
            Ok(Direction::Input)
        } else if value == 0b10 {
            Ok(Direction::Output)
        } else {
            Err(())
        }
    }
}

/// The number a sensor carries within its owner's scope.
#[derive(Debug, Clone, Copy, PartialEq, Eq, Structural)]
pub struct SensorNumber(pub u8);

impl SensorNumber {
    pub fn new(value: u8) -> (r: SensorNumber)
        ensures
            r == SensorNumber(value),
    {
        SensorNumber(value)
    }

    /// The raw sensor number.
    pub fn get(&self) -> (r: u8)
        ensures
            r == self.0,
    {
        self.0
    }
}

/// What identifies a sensor to its controller: owner, channel, logical unit
/// and sensor number.
#[derive(Debug, Clone, Copy, PartialEq, Eq, Structural)]
pub struct SensorKey {
    pub owner_id: SensorOwner,
    pub owner_channel: u8,
    pub owner_lun: LogicalUnit,
    pub sensor_number: SensorNumber,
}

/// The sensor key held in the first three body bytes of a full sensor
/// record: the owner byte, the channel/unit byte, and the sensor number.
pub open spec fn sensor_key_spec(owner: u8, lun_channel: u8, number: u8) -> SensorKey {
    SensorKey {
        owner_id: sensor_owner_from_spec(owner),
        owner_channel: lun_channel >> 4,
        owner_lun: crate::connection::logical_unit_from_low_bits_spec(lun_channel),
        sensor_number: SensorNumber(number),
    }
}

impl SensorKey {
    /// Decode the three key bytes. Total.
    pub fn new(owner: u8, lun_channel: u8, number: u8) -> (r: SensorKey)
        ensures
            r == sensor_key_spec(owner, lun_channel, number),
    {
        SensorKey {
            owner_id: SensorOwner::from(owner),
            owner_channel: lun_channel >> 4,
            owner_lun: LogicalUnit::from_low_bits(lun_channel),
            sensor_number: SensorNumber::new(number),
        }
    }
}

/// Relies on `String::from_utf8`: it succeeds exactly on well-formed UTF-8
/// and the decoding depends on the bytes alone.
#[verifier::external_body]
fn string_from_utf8(bytes: Vec<u8>) -> (r: Option<String>)
    ensures
        r is Some <==> vstd::utf8::valid_utf8(bytes@),
        r matches Some(s) ==> s@ == vstd::utf8::decode_utf8(bytes@),
{
    String::from_utf8(bytes).ok()
}

/// The undecoded trailing identifier field of a record: the type/length
/// byte and the bytes that follow it.
#[derive(Debug, Clone, PartialEq, Eq)]
pub struct TypeLengthRaw(pub u8, pub Vec<u8>);

impl TypeLengthRaw {
    pub fn new(value: u8, other_data: &[u8]) -> (r: TypeLengthRaw)
        ensures
            r.0 == value,
            r.1@ == other_data@,
    {
        TypeLengthRaw(value, vstd::slice::slice_to_vec(other_data))
    }

    /// Decode the identifier field: the 5-bit length selects exactly that
    /// many bytes, and the 2-bit type code selects the encoding. Fails when
    /// the bytes run short, or when a textual encoding holds ill-formed
    /// UTF-8.
    pub fn into_sensor_id(self) -> (r: Option<SensorId>)
        ensures
            r is Some <==> sensor_id_from_spec(self.0, self.1@) is Some,
            r matches Some(id) ==> Some(id@) == sensor_id_from_spec(self.0, self.1@),
    {
        let TypeLengthRaw(value, data) = self;
        let type_code = (value >> 6) & 0x3;
        let length = (value & 0x1F) as usize;
        if data.len() < length {
            return None;
        }
        let id_bytes = vstd::slice::slice_to_vec(
            vstd::slice::slice_subrange(data.as_slice(), 0, length),
        );
        if type_code == 0b00 {
            match string_from_utf8(id_bytes) {
                Some(s) => Some(SensorId::Unicode(s)),
                None => None,
            }
        } else if type_code == 0b01 {
            Some(SensorId::BCDPlus(id_bytes))
        } else if type_code == 0b10 {
            Some(SensorId::Ascii6BPacked(id_bytes))
        } else {
            match string_from_utf8(id_bytes) {
                Some(s) => Some(SensorId::Ascii8BAndLatin1(s)),
                None => None,
            }
        }
    }
}

/// Spec-level value of a sensor identifier.
pub enum SensorIdView {
    Unicode(Seq<char>),
    BCDPlus(Seq<u8>),
    Ascii6BPacked(Seq<u8>),
    Ascii8BAndLatin1(Seq<char>),
}

/// A sensor's identifier, tagged with its wire encoding. Only the Unicode
/// and 8-bit ASCII variants decode to text; the packed encodings keep their
/// raw bytes.
#[derive(Debug, Clone, PartialEq, Eq)]
pub enum SensorId {
    Unicode(String),
    BCDPlus(Vec<u8>),
    Ascii6BPacked(Vec<u8>),
    Ascii8BAndLatin1(String),
}

impl View for SensorId {
    type V = SensorIdView;

    open spec fn view(&self) -> SensorIdView {
        match self {
            SensorId::Unicode(s) => SensorIdView::Unicode(s@),
            SensorId::BCDPlus(b) => SensorIdView::BCDPlus(b@),
            SensorId::Ascii6BPacked(b) => SensorIdView::Ascii6BPacked(b@),
            SensorId::Ascii8BAndLatin1(s) => SensorIdView::Ascii8BAndLatin1(s@),
        }
    }
}

/// The identifier encoded under a type/length byte, given the bytes that
/// follow it: the 5-bit length selects exactly that many bytes and the 2-bit
/// type code the encoding; textual encodings must hold well-formed UTF-8.
pub open spec fn sensor_id_from_spec(value: u8, data: Seq<u8>) -> Option<SensorIdView> {
    let type_code = (value >> 6) & 0x3;
    let length = (value & 0x1F) as int;
    if data.len() < length {
        None
    } else {
        let id_bytes = data.subrange(0, length);
        if type_code == 0b00 {
            if vstd::utf8::valid_utf8(id_bytes) {
                Some(SensorIdView::Unicode(vstd::utf8::decode_utf8(id_bytes)))
            } else {
                None
            }
        } else if type_code == 0b01 {
            Some(SensorIdView::BCDPlus(id_bytes))
        } else if type_code == 0b10 {
            Some(SensorIdView::Ascii6BPacked(id_bytes))
        } else {
            if vstd::utf8::valid_utf8(id_bytes) {
                Some(SensorIdView::Ascii8BAndLatin1(vstd::utf8::decode_utf8(id_bytes)))
            } else {
                None
            }
        }
    }
}

impl SensorId {
    /// The identifier as text, for the two encodings that carry text.
    pub fn as_str(&self) -> (r: Option<&str>)
        ensures
            match self@ {
                SensorIdView::Unicode(s) => r matches Some(t) && t@ == s,
                SensorIdView::Ascii8BAndLatin1(s) => r matches Some(t) && t@ == s,
                _ => r is None,
            },
    {
        match self {
            SensorId::Unicode(v) => Some(v.as_str()),
            SensorId::Ascii8BAndLatin1(v) => Some(v.as_str()),
            _ => None,
        }
    }
}

/// Spec-level value of the common block of a sensor record.
pub struct SensorRecordCommonView {
    pub key: SensorKey,
    pub entity_id: u8,
    pub entity_instance: EntityInstance,
    pub initialization: SensorInitialization,
    pub capabilities: SensorCapabilities,
    pub sensor_type: u8,
    pub event_reading_type_code: u8,
    pub sensor_units: SensorUnits,
    pub base_unit: Option<super::Unit>,
    pub modifier_unit: Option<super::Unit>,
    pub sensor_id: SensorIdView,
}

/// What every modeled sensor record states about its sensor: addressing,
/// entity, capabilities, units and the identifier string.
#[derive(Debug, Clone, PartialEq)]
pub struct SensorRecordCommon {
    pub key: SensorKey,
    pub entity_id: u8,
    pub entity_instance: EntityInstance,
    pub initialization: SensorInitialization,
    pub capabilities: SensorCapabilities,
    pub sensor_type: u8,
    pub event_reading_type_code: u8,
    pub sensor_units: SensorUnits,
    pub base_unit: Option<super::Unit>,
    pub modifier_unit: Option<super::Unit>,
    pub sensor_id: SensorId,
}

impl View for SensorRecordCommon {
    type V = SensorRecordCommonView;

    open spec fn view(&self) -> SensorRecordCommonView {
        SensorRecordCommonView {
            key: self.key,
            entity_id: self.entity_id,
            entity_instance: self.entity_instance,
            initialization: self.initialization,
            capabilities: self.capabilities,
            sensor_type: self.sensor_type,
            event_reading_type_code: self.event_reading_type_code,
            sensor_units: self.sensor_units,
            base_unit: self.base_unit,
            modifier_unit: self.modifier_unit,
            sensor_id: self.sensor_id@,
        }
    }
}

/// The preamble of a repository record: its chain identifier and the format
/// version the record declares, split nibble-wise.
#[derive(Debug, Clone, Copy, PartialEq, Eq, Structural)]
pub struct RecordHeader {
    pub id: RecordId,
    pub sdr_version_major: u8,
    pub sdr_version_minor: u8,
}

/// Spec-level value of a record's contents.
pub enum RecordContentsView {
    FullSensor(FullSensorRecordView),
    Unknown { data: Seq<u8> },
}

/// A record's payload: the fully modeled full-sensor variant, or the raw
/// bytes of any record type this library does not model, kept verbatim so
/// unknown types never break a repository walk.
#[derive(Debug, Clone, PartialEq)]
pub enum RecordContents {
    FullSensor(FullSensorRecord),
    Unknown { data: Vec<u8> },
}

impl View for RecordContents {
    type V = RecordContentsView;

    open spec fn view(&self) -> RecordContentsView {
        match self {
            RecordContents::FullSensor(f) => RecordContentsView::FullSensor(f@),
            RecordContents::Unknown { data } => RecordContentsView::Unknown { data: data@ },
        }
    }
}

/// Spec-level value of a decoded record.
pub struct RecordView {
    pub header: RecordHeader,
    pub contents: RecordContentsView,
}

/// A decoded repository record: header plus contents.
#[derive(Debug, Clone, PartialEq)]
pub struct Record {
    pub header: RecordHeader,
    pub contents: RecordContents,
}

impl View for Record {
    type V = RecordView;

    open spec fn view(&self) -> RecordView {
        RecordView { header: self.header, contents: self.contents@ }
    }
}

/// Whether a buffer is exactly a bare full-sensor body: long enough for the
/// fixed part, with its identifier string ending exactly at the end of the
/// buffer.
pub open spec fn bare_full_sensor_body_spec(data: Seq<u8>) -> bool {
    data.len() >= 43 && (data[42] & 0x1F) == data.len() - 43
}

/// The record held in a buffer. A buffer that starts with a preamble whose
/// declared length byte equals the remaining byte count decodes as a framed
/// record: type 0x01 through the full-sensor decoder, every other type kept
/// verbatim. A buffer without such a preamble is accepted only when it is
/// exactly a bare full-sensor body, the form in which full-sensor records
/// are stored; a bare body carries no identifier, so its header holds the
/// sentinel id and version zero. Everything else is rejected.
pub open spec fn record_parse_spec(data: Seq<u8>) -> Option<RecordView> {
    if data.len() >= 5 && data.len() - 5 == data[4] {
        let header = RecordHeader {
            id: RecordId(u16_from_le_spec(data[0], data[1])),
            sdr_version_major: data[2] & 0x0F,
            sdr_version_minor: (data[2] & 0xF0) >> 4,
        };
        let body = data.subrange(5, data.len() as int);
        if data[3] == 0x01 {
            match full_sensor_record_parse_spec(body) {
                Some(f) => Some(RecordView { header, contents: RecordContentsView::FullSensor(f) }),
                None => None,
            }
        } else {
            Some(RecordView { header, contents: RecordContentsView::Unknown { data: body } })
        }
    } else if bare_full_sensor_body_spec(data) {
        match full_sensor_record_parse_spec(data) {
            Some(f) => Some(
                RecordView {
                    header: RecordHeader {
                        id: RecordId(0xFFFF),
                        sdr_version_major: 0,
                        sdr_version_minor: 0,
                    },
                    contents: RecordContentsView::FullSensor(f),
                },
            ),
            None => None,
        }
    } else {
        None
    }
}

impl Record {
    /// Decode a record, framed or bare, as `record_parse_spec` lays down;
    /// any mismatch between the declared and the actual layout fails.
    pub fn parse(data: &[u8]) -> (r: Option<Record>)
        ensures
            r is Some <==> record_parse_spec(data@) is Some,
            r matches Some(rec) ==> Some(rec@) == record_parse_spec(data@),
    {
        if data.len() >= 5 && data.len() - 5 == data[4] as usize {
            let record_id = RecordId::new_raw(crate::wire::u16_from_le(data[0], data[1]));
            let sdr_version_min = (data[2] & 0xF0) >> 4;
            let sdr_version_maj = data[2] & 0x0F;
            let record_type = data[3];
            let record_data = vstd::slice::slice_subrange(data, 5, data.len());
            let header = RecordHeader {
                id: record_id,
                sdr_version_major: sdr_version_maj,
                sdr_version_minor: sdr_version_min,
            };
            if record_type == 0x01 {
                match FullSensorRecord::parse(record_data) {
                    Some(full) => Some(
                        Record { header, contents: RecordContents::FullSensor(full) },
                    ),
                    None => None,
                }
            } else {
                Some(
                    Record {
                        header,
                        contents: RecordContents::Unknown {
                            data: vstd::slice::slice_to_vec(record_data),
                        },
                    },
                )
            }
        } else if data.len() >= 43 && (data[42] & 0x1F) as usize == data.len() - 43 {
            match FullSensorRecord::parse(data) {
                Some(full) => Some(
                    Record {
                        header: RecordHeader {
                            id: RecordId::new_raw(0xFFFF),
                            sdr_version_major: 0,
                            sdr_version_minor: 0,
                        },
                        contents: RecordContents::FullSensor(full),
                    },
                ),
                None => None,
            }
        } else {
            None
        }
    }

    /// The common sensor block, present exactly for the record types this
    /// library models.
    pub fn common_data(&self) -> (r: Option<&SensorRecordCommon>)
        ensures
            r is Some <==> self.contents is FullSensor,
            r matches Some(c) ==> self.contents matches RecordContents::FullSensor(f) && *c
                == f.common,
    {
        match &self.contents {
            RecordContents::FullSensor(full) => Some(&full.common),
            RecordContents::Unknown { .. } => None,
        }
    }
}

/// A framed record whose declared length byte does not equal the remaining
/// byte count never decodes, unless the whole buffer happens to be exactly a
/// bare full-sensor body.
pub proof fn lemma_record_length_mismatch(data: Seq<u8>)
    requires
        data.len() >= 5,
        data[4] != data.len() - 5,
        !bare_full_sensor_body_spec(data),
    ensures
        record_parse_spec(data) is None,
{
}

/// Decoding depends on the bytes alone: the same bytes decode to the same
/// record, with no state carried between calls.
pub proof fn lemma_record_parse_deterministic(d1: Seq<u8>, d2: Seq<u8>)
    requires
        d1 == d2,
    ensures
        record_parse_spec(d1) == record_parse_spec(d2),
{
}

} // verus!
