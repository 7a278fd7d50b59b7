use vstd::prelude::*;

pub mod sdr;
pub mod sel;

pub use sdr::record;

use crate::wire::{u16_from_le, u16_from_le_spec};

verus! {

/// A 32-bit timestamp as carried on the wire. This library does not
/// interpret it; it only moves the raw seconds counter around.
#[derive(Clone, Copy, Debug, PartialEq, Eq, Structural)]
pub struct Timestamp(pub u32);

impl Timestamp {
    pub fn from(value: u32) -> (r: Timestamp)
        ensures
            r == Timestamp(value),
    {
        Timestamp(value)
    }

    /// The raw seconds counter.
    pub fn get(self) -> (r: u32)
        ensures
            r == self.0,
    {
        self.0
    }
}

/// Allocation bookkeeping of a storage repository: unit counts and sizes,
/// plus the largest record the repository accepts.
#[derive(Clone, Copy, Debug, PartialEq, Eq, Structural)]
pub struct AllocInfo {
    pub num_alloc_units: u16,
    pub alloc_unit_size: u16,
    pub num_free_units: u16,
    pub largest_free_blk: u16,
    pub max_record_size: u8,
}

/// The allocation record held in a 9-byte response payload: four 16-bit
/// little-endian counters followed by one size byte. Shorter payloads are
/// rejected.
pub open spec fn alloc_info_parse_spec(data: Seq<u8>) -> Option<AllocInfo> {
    if data.len() < 9 {
        None
    } else {
        Some(
            AllocInfo {
                num_alloc_units: u16_from_le_spec(data[0], data[1]),
                alloc_unit_size: u16_from_le_spec(data[2], data[3]),
                num_free_units: u16_from_le_spec(data[4], data[5]),
                largest_free_blk: u16_from_le_spec(data[6], data[7]),
                max_record_size: data[8],
            },
        )
    }
}

impl AllocInfo {
    /// Decode an allocation record; fails exactly when fewer than 9 bytes
    /// were supplied.
    pub fn parse(data: &[u8]) -> (r: Option<AllocInfo>)
        ensures
            r == alloc_info_parse_spec(data@),
    {
        if data.len() < 9 {
            return None;
        }
        Some(
            AllocInfo {
                num_alloc_units: u16_from_le(data[0], data[1]),
                alloc_unit_size: u16_from_le(data[2], data[3]),
                num_free_units: u16_from_le(data[4], data[5]),
                largest_free_blk: u16_from_le(data[6], data[7]),
                max_record_size: data[8],
            },
        )
    }
}

} // verus!
