use vstd::prelude::*;

use crate::connection::{
    check_cc_success, CompletionCode, IpmiCommand, Message, MessageView, NetFn, ParseResponseError,
};
use crate::storage::Timestamp;
use crate::wire::{u16_from_le, u16_from_le_spec, u32_from_le, u32_from_le_spec};

verus! {

/// Query for the sensor data repository's metadata. Takes no parameters.
#[derive(Clone, Copy, Debug, PartialEq, Eq, Structural)]
pub struct GetRepositoryInfo;

/// Free space left in the repository, keyed off two sentinel values of the
/// raw 16-bit field: 0x0000 means exactly full, 0xFFFF means the controller
/// does not say, and anything else is a lower bound in bytes.
#[derive(Clone, Copy, Debug, PartialEq, Eq, Structural)]
pub enum FreeSpace {
    Full,
    AtLeast { bytes: u16 },
    Unspecified,
}

/// The free-space tri-state of a raw 16-bit value.
pub open spec fn free_space_from_spec(value: u16) -> FreeSpace {
    if value == 0x0000 {
        FreeSpace::Full
    } else if value == 0xFFFF {
        FreeSpace::Unspecified
    } else {
        FreeSpace::AtLeast { bytes: value }
    }
}

impl FreeSpace {
    /// Decode the raw free-space field. Total over all 16-bit values.
    pub fn from(value: u16) -> (r: FreeSpace)
        ensures
            r == free_space_from_spec(value),
    {
        if value == 0x0000 {
            FreeSpace::Full
        } else if value == 0xFFFF {
            FreeSpace::Unspecified
        } else {
            FreeSpace::AtLeast { bytes: value }
        }
    }
}

/// The free-space field decodes by its two sentinel values alone: zero is
/// exactly full, all-ones is unspecified, and every other value is a lower
/// bound carrying that value.
pub proof fn lemma_free_space_classification()
    ensures
        free_space_from_spec(0x0000) == FreeSpace::Full,
        free_space_from_spec(0xFFFF) == FreeSpace::Unspecified,
        forall|v: u16|
            v != 0x0000 && v != 0xFFFF ==> free_space_from_spec(v) == (FreeSpace::AtLeast {
                bytes: v,
            }),
{
}

/// An operation the repository reports support for: one modality code plus
/// four independent capability flags.
#[derive(Clone, Copy, Debug, PartialEq, Eq, Structural)]
pub enum Operation {
    ModalityUnspecified,
    NonModalUpdate,
    ModalUpdate,
    NonModalAndModalUpdate,
    Delete,
    PartialAdd,
    Reserve,
    GetAllocInfo,
}

/// Spec-level value of the repository metadata.
pub struct RepositoryInfoView {
    pub version_major: u8,
    pub version_minor: u8,
    pub record_count: u16,
    pub free_space: FreeSpace,
    pub most_recent_addition: Timestamp,
    pub most_recent_erase: Timestamp,
    pub overflow: bool,
    pub supported_ops: Seq<Operation>,
}

/// Metadata of the sensor data repository: version, record count, free
/// space, the two modification timestamps, the overflow flag, and the
/// supported operations.
#[derive(Clone, Debug, PartialEq)]
pub struct RepositoryInfo {
    pub version_major: u8,
    pub version_minor: u8,
    pub record_count: u16,
    pub free_space: FreeSpace,
    pub most_recent_addition: Timestamp,
    pub most_recent_erase: Timestamp,
    pub overflow: bool,
    pub supported_ops: Vec<Operation>,
}

impl View for RepositoryInfo {
    type V = RepositoryInfoView;

    open spec fn view(&self) -> RepositoryInfoView {
        RepositoryInfoView {
            version_major: self.version_major,
            version_minor: self.version_minor,
            record_count: self.record_count,
            free_space: self.free_space,
            most_recent_addition: self.most_recent_addition,
            most_recent_erase: self.most_recent_erase,
            overflow: self.overflow,
            supported_ops: self.supported_ops@,
        }
    }
}

/// The modality code held in bits 6:5 of the support byte.
pub open spec fn modality_spec(support: u8) -> Operation {
    let code = (support >> 5) & 0x03;
    if code == 0b00 {
        Operation::ModalityUnspecified
    } else if code == 0b01 {
        Operation::NonModalUpdate
    } else if code == 0b10 {
        Operation::ModalUpdate
    } else {
        Operation::NonModalAndModalUpdate
    }
}

/// The operation list read off the support byte: the modality code first,
/// then one entry per capability bit that is set.
pub open spec fn supported_ops_spec(support: u8) -> Seq<Operation> {
    let ops = seq![modality_spec(support)];
    let ops = if support & 0x01 == 0x01 {
        ops.push(Operation::GetAllocInfo)
    } else {
        ops
    };
    let ops = if support & 0x02 == 0x02 {
        ops.push(Operation::Reserve)
    } else {
        ops
    };
    let ops = if support & 0x04 == 0x04 {
        ops.push(Operation::PartialAdd)
    } else {
        ops
    };
    if support & 0x08 == 0x08 {
        ops.push(Operation::Delete)
    } else {
        ops
    }
}

/// The repository metadata held in a 14-byte response payload: a nibble pair
/// of version digits, a 16-bit record count, the 16-bit free-space field, two
/// 32-bit timestamps, and the operation-support byte. Shorter payloads are
/// rejected.
pub open spec fn repository_info_parse_spec(data: Seq<u8>) -> Option<RepositoryInfoView> {
    if data.len() < 14 {
        None
    } else {
        Some(
            RepositoryInfoView {
                version_major: data[0] & 0x0F,
                version_minor: (data[0] & 0xF0) >> 4,
                record_count: u16_from_le_spec(data[1], data[2]),
                free_space: free_space_from_spec(u16_from_le_spec(data[3], data[4])),
                most_recent_addition: Timestamp(
                    u32_from_le_spec(data[5], data[6], data[7], data[8]),
                ),
                most_recent_erase: Timestamp(
                    u32_from_le_spec(data[9], data[10], data[11], data[12]),
                ),
                overflow: data[13] & 0x80 == 0x80,
                supported_ops: supported_ops_spec(data[13]),
            },
        )
    }
}

impl RepositoryInfo {
    /// Decode the repository metadata; fails exactly when fewer than 14
    /// bytes were supplied.
    pub fn parse(v: &[u8]) -> (r: Option<RepositoryInfo>)
        ensures
            r matches Some(info) ==> repository_info_parse_spec(v@) == Some(info@),
            r is None <==> repository_info_parse_spec(v@) is None,
    {
        if v.len() < 14 {
            return None;
        }
        let version_minor = (v[0] & 0xF0) >> 4;
        let version_major = v[0] & 0x0F;
        let record_count = u16_from_le(v[1], v[2]);
        let free_space = FreeSpace::from(u16_from_le(v[3], v[4]));
        let most_recent_addition = Timestamp::from(u32_from_le(v[5], v[6], v[7], v[8]));
        let most_recent_erase = Timestamp::from(u32_from_le(v[9], v[10], v[11], v[12]));
        let overflow = (v[13] & 0x80) == 0x80;

        let support = v[13];
        let code = (support >> 5) & 0x03;
        let modality = if code == 0b00 {
            Operation::ModalityUnspecified
        } else if code == 0b01 {
            Operation::NonModalUpdate
        } else if code == 0b10 {
            Operation::ModalUpdate
        } else {
            Operation::NonModalAndModalUpdate
        };

        let mut ops: Vec<Operation> = Vec::new();
        ops.push(modality);
        if support & 0x01 == 0x01 {
            ops.push(Operation::GetAllocInfo);
        }
        if support & 0x02 == 0x02 {
            ops.push(Operation::Reserve);
        }
        if support & 0x04 == 0x04 {
            ops.push(Operation::PartialAdd);
        }
        if support & 0x08 == 0x08 {
            ops.push(Operation::Delete);
        }

        proof {
            assert(ops@ =~= supported_ops_spec(support));
        }

        Some(
            RepositoryInfo {
                version_major,
                version_minor,
                record_count,
                free_space,
                most_recent_addition,
                most_recent_erase,
                overflow,
                supported_ops: ops,
            },
        )
    }
}

impl IpmiCommand for GetRepositoryInfo {
    type Output = RepositoryInfo;

    type Error = ();

    open spec fn message_spec(self) -> MessageView {
        MessageView { netfn_raw: 0x0A, cmd: 0x20, data: Seq::empty() }
    }

    open spec fn addr_spec(self) -> Option<(u8, u8)> {
        None
    }

    open spec fn parse_ok(
        completion_code: CompletionCode,
        data: Seq<u8>,
        r: Result<RepositoryInfo, ParseResponseError<()>>,
    ) -> bool {
        match r {
            Ok(o) => completion_code is Success && repository_info_parse_spec(data) == Some(o@),
            Err(ParseResponseError::NotSuccess(c)) => !(completion_code is Success) && c
                == completion_code,
            Err(ParseResponseError::NotEnoughData) => completion_code is Success
                && repository_info_parse_spec(data) is None,
            Err(ParseResponseError::Failed(_)) => false,
        }
    }

    fn into_message(self) -> (m: Message) {
        Message::new_request(NetFn::Storage, 0x20, Vec::new())
    }

    fn address_and_channel(&self) -> (r: Option<(u8, u8)>) {
        None
    }

    fn parse_response(completion_code: CompletionCode, data: &[u8]) -> (r: Result<
        RepositoryInfo,
        ParseResponseError<()>,
    >) {
        if let Err(e) = check_cc_success::<()>(completion_code) {
            return Err(e);
        }
        match RepositoryInfo::parse(data) {
            Some(info) => Ok(info),
            None => Err(ParseResponseError::NotEnoughData),
        }
    }
}

} // verus!
