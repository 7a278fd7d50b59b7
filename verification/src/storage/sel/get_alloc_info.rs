use vstd::prelude::*;

use crate::connection::{
    check_cc_success, CompletionCode, IpmiCommand, Message, MessageView, NetFn, ParseResponseError,
};
use crate::storage::alloc_info_parse_spec;

verus! {

/// Query for the event-log repository's allocation bookkeeping. Takes no
/// parameters.
#[derive(Clone, Copy, Debug, PartialEq, Eq, Structural)]
pub struct GetAllocInfo;

/// The allocation record of the event-log repository.
#[derive(Clone, Copy, Debug, PartialEq, Eq, Structural)]
pub struct AllocInfo {
    pub inner: crate::storage::AllocInfo,
}

impl AllocInfo {
    /// Decode the repository's allocation record; fails exactly when fewer
    /// than 9 bytes were supplied.
    pub fn parse(data: &[u8]) -> (r: Option<AllocInfo>)
        ensures
            r matches Some(a) ==> alloc_info_parse_spec(data@) == Some(a.inner),
            r is None <==> alloc_info_parse_spec(data@) is None,
    {
        match crate::storage::AllocInfo::parse(data) {
            Some(inner) => Some(AllocInfo { inner }),
            None => None,
        }
    }
}

impl IpmiCommand for GetAllocInfo {
    type Output = AllocInfo;

    type Error = ();

    open spec fn message_spec(self) -> MessageView {
        MessageView { netfn_raw: 0x0A, cmd: 0x41, data: Seq::empty() }
    }

    open spec fn addr_spec(self) -> Option<(u8, u8)> {
        None
    }

    open spec fn parse_ok(
        completion_code: CompletionCode,
        data: Seq<u8>,
        r: Result<AllocInfo, ParseResponseError<()>>,
    ) -> bool {
        match r {
            Ok(o) => completion_code is Success && alloc_info_parse_spec(data) == Some(o.inner),
            Err(ParseResponseError::NotSuccess(c)) => !(completion_code is Success) && c
                == completion_code,
            Err(ParseResponseError::NotEnoughData) => completion_code is Success
                && alloc_info_parse_spec(data) is None,
            Err(ParseResponseError::Failed(_)) => false,
        }
    }

    fn into_message(self) -> (m: Message) {
        Message::new_request(NetFn::Storage, 0x41, Vec::new())
    }

    fn address_and_channel(&self) -> (r: Option<(u8, u8)>) {
        None
    }

    fn parse_response(completion_code: CompletionCode, data: &[u8]) -> (r: Result<
        AllocInfo,
        ParseResponseError<()>,
    >) {
        if let Err(e) = check_cc_success::<()>(completion_code) {
            return Err(e);
        }
        match AllocInfo::parse(data) {
            Some(info) => Ok(info),
            None => Err(ParseResponseError::NotEnoughData),
        }
    }
}

} // verus!
