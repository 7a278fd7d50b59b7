use vstd::prelude::*;

pub mod get_info;
pub mod record;
pub mod units;

pub use get_info::{FreeSpace, GetRepositoryInfo, Operation, RepositoryInfo};
pub use record::Record;
pub use units::Unit;

use crate::connection::{
    check_cc_success, CompletionCode, IpmiCommand, Message, MessageView, NetFn, ParseResponseError,
};
use crate::wire::{u16_from_le, u16_from_le_spec, u16_to_le};

verus! {

/// Key of a record in the sensor data repository: an opaque, forward-only
/// chain position. The raw value 0xFFFF is the sentinel meaning "no further
/// record" and is never fetched; every walk starts at the fixed raw value
/// 0x0000.
#[derive(Clone, Copy, Debug, PartialEq, Eq, Structural)]
pub struct RecordId(pub u16);

impl RecordId {
    /// Wrap a raw 16-bit identifier, sentinel included.
    pub fn new_raw(value: u16) -> (r: RecordId)
        ensures
            r == RecordId(value),
    {
        RecordId(value)
    }

    /// The fixed identifier every repository walk starts at.
    pub fn first() -> (r: RecordId)
        ensures
            r == RecordId(0x0000),
    {
        RecordId(0x0000)
    }

    /// Whether this is the sentinel that ends the record chain.
    pub fn is_last(&self) -> (r: bool)
        ensures
            r == (self.0 == 0xFFFF),
    {
        self.0 == 0xFFFF
    }

    /// The raw 16-bit value.
    pub fn value(&self) -> (r: u16)
        ensures
            r == self.0,
    {
        self.0
    }
}

/// Fetch one record from the repository by its chain identifier, under an
/// optional reservation. The sentinel identifier is never a fetchable
/// record, so it is excluded up front.
#[derive(Clone, Copy, Debug, PartialEq, Eq)]
pub struct GetDeviceSdr {
    pub reservation_id: Option<u16>,
    pub record_id: RecordId,
}

impl GetDeviceSdr {
    pub fn new(reservation_id: Option<u16>, record_id: RecordId) -> (r: GetDeviceSdr)
        requires
            record_id.0 != 0xFFFF,
        ensures
            r.reservation_id == reservation_id,
            r.record_id == record_id,
    {
        GetDeviceSdr { reservation_id, record_id }
    }
}

/// Spec-level value of a fetched record and its chain link.
pub struct RecordInfoView {
    pub next_entry: RecordId,
    pub record: record::RecordView,
}

/// What one fetch returns: the decoded record and the identifier of the
/// next record in the chain, or the sentinel when this was the last one.
#[derive(Clone, Debug, PartialEq)]
pub struct RecordInfo {
    pub next_entry: RecordId,
    pub record: record::Record,
}

impl View for RecordInfo {
    type V = RecordInfoView;

    open spec fn view(&self) -> RecordInfoView {
        RecordInfoView { next_entry: self.next_entry, record: self.record@ }
    }
}

impl IpmiCommand for GetDeviceSdr {
    type Output = RecordInfo;

    type Error = ();

    open spec fn message_spec(self) -> MessageView {
        let res = match self.reservation_id {
            Some(v) => v,
            None => 0,
        };
        MessageView {
            netfn_raw: 0x0A,
            cmd: 0x23,
            data: seq![
                (res % 0x100) as u8,
                (res / 0x100) as u8,
                (self.record_id.0 % 0x100) as u8,
                (self.record_id.0 / 0x100) as u8,
                0x00,
                0xFF,
            ],
        }
    }

    open spec fn addr_spec(self) -> Option<(u8, u8)> {
        None
    }

    open spec fn parse_ok(
        completion_code: CompletionCode,
        data: Seq<u8>,
        r: Result<RecordInfo, ParseResponseError<()>>,
    ) -> bool {
        match r {
            Ok(o) => completion_code is Success && data.len() >= 2 && o.next_entry == RecordId(
                u16_from_le_spec(data[0], data[1]),
            ) && record::record_parse_spec(data.subrange(2, data.len() as int)) == Some(o.record@),
            Err(ParseResponseError::NotSuccess(c)) => !(completion_code is Success) && c
                == completion_code,
            Err(ParseResponseError::NotEnoughData) => completion_code is Success && data.len() < 2,
            Err(ParseResponseError::Failed(())) => completion_code is Success && data.len() >= 2
                && record::record_parse_spec(data.subrange(2, data.len() as int)) is None,
        }
    }

    fn into_message(self) -> (m: Message) {
        let res = match self.reservation_id {
            Some(v) => v,
            None => 0,
        };
        let (res_lo, res_hi) = u16_to_le(res);
        let (id_lo, id_hi) = u16_to_le(self.record_id.value());
        let mut data: Vec<u8> = Vec::new();
        data.push(res_lo);
        data.push(res_hi);
        data.push(id_lo);
        data.push(id_hi);
        // Fetch the whole record: offset zero, the full-length marker.
        data.push(0x00);
        data.push(0xFF);
        proof {
            assert(data@ =~= self.message_spec().data);
        }
        Message::new_request(NetFn::Storage, 0x23, data)
    }

    fn address_and_channel(&self) -> (r: Option<(u8, u8)>) {
        None
    }

    fn parse_response(completion_code: CompletionCode, data: &[u8]) -> (r: Result<
        RecordInfo,
        ParseResponseError<()>,
    >) {
        if let Err(e) = check_cc_success::<()>(completion_code) {
            return Err(e);
        }
        if data.len() < 2 {
            return Err(ParseResponseError::NotEnoughData);
        }
        let next_entry = RecordId::new_raw(u16_from_le(data[0], data[1]));
        let record_bytes = vstd::slice::slice_subrange(data, 2, data.len());
        match record::Record::parse(record_bytes) {
            Some(rec) => Ok(RecordInfo { next_entry, record: rec }),
            None => Err(ParseResponseError::Failed(())),
        }
    }
}

} // verus!
