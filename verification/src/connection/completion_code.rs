use vstd::prelude::*;

verus! {

/// Sub-reason carried by `CompletionCode::ResponseUnavailable`.
#[derive(Clone, Copy, Debug, PartialEq, Eq, Structural)]
pub enum ResponseUnavailableReason {
    Unknown,
    SDRInUpdate,
    DeviceInFwUpdate,
    BMCInitializing,
}

/// Classification of the one-byte completion code that accompanies every
/// response. The mapping from bytes is total: every value of `u8` falls in
/// exactly one variant, with the open OEM, command-specific and reserved
/// ranges keeping their raw byte.
#[derive(Clone, Copy, Debug, PartialEq, Eq, Structural)]
pub enum CompletionCode {
    Success,
    NodeBusy,
    InvalidCommand,
    InvalidCommandForLun,
    ProcessingTimeout,
    OutOfSpace,
    ReservationCancelledOrInvalidId,
    RequestDataTruncated,
    RequestDataLenInvalid,
    RequestDataLengthLimitExceeded,
    ParameterOutOfRange,
    CannotReturnNumOfRequestedBytes,
    RequestedDatapointNotPresent,
    InvalidDataFieldInRequest,
    CommandIllegalForSensorOrRecord,
    ResponseUnavailable { reason: ResponseUnavailableReason },
    CannotExecuteDuplicateRequest,
    DestinationUnavailable,
    InsufficientPrivilege,
    CannotExecuteCommand,
    SubFunctionDisabled,
    Unspecified,
    Oem(u8),
    CommandSpecific(u8),
    Reserved(u8),
}

/// The classification of a raw completion byte: 0x00 is success, 0xC0..=0xD6
/// are the named standard failures, 0xFF is unspecified, 0x01..=0x7E is the
/// OEM range, 0x80..=0xBE the command-specific range, and everything else is
/// reserved.
pub open spec fn completion_code_from_spec(value: u8) -> CompletionCode {
    if value == 0x00 {
        CompletionCode::Success
    } else if value == 0xC0 {
        CompletionCode::NodeBusy
    } else if value == 0xC1 {
        CompletionCode::InvalidCommand
    } else if value == 0xC2 {
        CompletionCode::InvalidCommandForLun
    } else if value == 0xC3 {
        CompletionCode::ProcessingTimeout
    } else if value == 0xC4 {
        CompletionCode::OutOfSpace
    } else if value == 0xC5 {
        CompletionCode::ReservationCancelledOrInvalidId
    } else if value == 0xC6 {
        CompletionCode::RequestDataTruncated
    } else if value == 0xC7 {
        CompletionCode::RequestDataLenInvalid
    } else if value == 0xC8 {
        CompletionCode::RequestDataLengthLimitExceeded
    } else if value == 0xC9 {
        CompletionCode::ParameterOutOfRange
    } else if value == 0xCA {
        CompletionCode::CannotReturnNumOfRequestedBytes
    } else if value == 0xCB {
        CompletionCode::RequestedDatapointNotPresent
    } else if value == 0xCC {
        CompletionCode::InvalidDataFieldInRequest
    } else if value == 0xCD {
        CompletionCode::CommandIllegalForSensorOrRecord
    } else if value == 0xCE {
        CompletionCode::ResponseUnavailable { reason: ResponseUnavailableReason::Unknown }
    } else if value == 0xCF {
        CompletionCode::CannotExecuteDuplicateRequest
    } else if value == 0xD0 {
        CompletionCode::ResponseUnavailable { reason: ResponseUnavailableReason::SDRInUpdate }
    } else if value == 0xD1 {
        CompletionCode::ResponseUnavailable { reason: ResponseUnavailableReason::DeviceInFwUpdate }
    } else if value == 0xD2 {
        CompletionCode::ResponseUnavailable { reason: ResponseUnavailableReason::BMCInitializing }
    } else if value == 0xD3 {
        CompletionCode::DestinationUnavailable
    } else if value == 0xD4 {
        CompletionCode::InsufficientPrivilege
    } else if value == 0xD5 {
        CompletionCode::CannotExecuteCommand
    } else if value == 0xD6 {
        CompletionCode::SubFunctionDisabled
    } else if value == 0xFF {
        CompletionCode::Unspecified
    } else if 0x01 <= value && value <= 0x7E {
        CompletionCode::Oem(value)
    } else if 0x80 <= value && value <= 0xBE {
        CompletionCode::CommandSpecific(value)
    } else {
        CompletionCode::Reserved(value)
    }
}

impl CompletionCode {
    /// Classify a raw completion byte. Total: never fails, whatever the byte.
    pub fn from(value: u8) -> (r: CompletionCode)
        ensures
            r == completion_code_from_spec(value),
    {
        if value == 0x00 {
            CompletionCode::Success
        } else if value == 0xC0 {
            CompletionCode::NodeBusy
        } else if value == 0xC1 {
            CompletionCode::InvalidCommand
        } else if value == 0xC2 {
            CompletionCode::InvalidCommandForLun
        } else if value == 0xC3 {
            CompletionCode::ProcessingTimeout
        } else if value == 0xC4 {
            CompletionCode::OutOfSpace
        } else if value == 0xC5 {
            CompletionCode::ReservationCancelledOrInvalidId
        } else if value == 0xC6 {
            CompletionCode::RequestDataTruncated
        } else if value == 0xC7 {
            CompletionCode::RequestDataLenInvalid
        } else if value == 0xC8 {
            CompletionCode::RequestDataLengthLimitExceeded
        } else if value == 0xC9 {
            CompletionCode::ParameterOutOfRange
        } else if value == 0xCA {
            CompletionCode::CannotReturnNumOfRequestedBytes
        } else if value == 0xCB {
            CompletionCode::RequestedDatapointNotPresent
        } else if value == 0xCC {
            CompletionCode::InvalidDataFieldInRequest
        } else if value == 0xCD {
            CompletionCode::CommandIllegalForSensorOrRecord
        } else if value == 0xCE {
            CompletionCode::ResponseUnavailable { reason: ResponseUnavailableReason::Unknown }
        } else if value == 0xCF {
            CompletionCode::CannotExecuteDuplicateRequest
        } else if value == 0xD0 {
            CompletionCode::ResponseUnavailable { reason: ResponseUnavailableReason::SDRInUpdate }
        } else if value == 0xD1 {
            CompletionCode::ResponseUnavailable {
                reason: ResponseUnavailableReason::DeviceInFwUpdate,
            }
        } else if value == 0xD2 {
            CompletionCode::ResponseUnavailable {
                reason: ResponseUnavailableReason::BMCInitializing,
            }
        } else if value == 0xD3 {
            CompletionCode::DestinationUnavailable
        } else if value == 0xD4 {
            CompletionCode::InsufficientPrivilege
        } else if value == 0xD5 {
            CompletionCode::CannotExecuteCommand
        } else if value == 0xD6 {
            CompletionCode::SubFunctionDisabled
        } else if value == 0xFF {
            CompletionCode::Unspecified
        } else if 0x01 <= value && value <= 0x7E {
            CompletionCode::Oem(value)
        } else if 0x80 <= value && value <= 0xBE {
            CompletionCode::CommandSpecific(value)
        } else {
            CompletionCode::Reserved(value)
        }
    }
}

/// The classification of completion bytes is total and deterministic, and the
/// fixed points of the taxonomy hold: 0x00 is success, 0xFF is unspecified,
/// 0xD2 reports a controller still initializing, and every byte of the OEM
/// range is kept with its raw value.
pub proof fn lemma_completion_code_classification()
    ensures
        completion_code_from_spec(0x00) == CompletionCode::Success,
        completion_code_from_spec(0xFF) == CompletionCode::Unspecified,
        completion_code_from_spec(0xD2) == (CompletionCode::ResponseUnavailable {
            reason: ResponseUnavailableReason::BMCInitializing,
        }),
        forall|b: u8|
            0x01 <= b <= 0x7E ==> completion_code_from_spec(b) == CompletionCode::Oem(b),
        forall|b: u8|
            0x80 <= b <= 0xBE ==> completion_code_from_spec(b) == CompletionCode::CommandSpecific(
                b,
            ),
{
}

} // verus!
