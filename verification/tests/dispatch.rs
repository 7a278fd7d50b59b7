use ipmi_rs::connection::{
    CompletionCode, IpmiCommand, IpmiConnection, Message, NetFn, ParseResponseError, Request,
    Response, ResponseUnavailableReason,
};
use ipmi_rs::storage::sdr::{FreeSpace, GetRepositoryInfo, Operation, RecordId};
use ipmi_rs::storage::sel::GetAllocInfo;
use ipmi_rs::{Ipmi, IpmiError};

/// A transport that replays a fixed script of responses.
struct Scripted {
    responses: Vec<Result<Response, String>>,
    calls: usize,
}

impl Scripted {
    fn new(responses: Vec<Result<Response, String>>) -> Self {
        Scripted { responses, calls: 0 }
    }
}

impl IpmiConnection for Scripted {
    type Error = String;

    fn send_recv(&mut self, _request: &mut Request) -> Result<Response, String> {
        self.calls += 1;
        if self.responses.is_empty() {
            Err("script exhausted".to_string())
        } else {
            self.responses.remove(0)
        }
    }
}

#[test]
fn completion_code_taxonomy() {
    assert_eq!(CompletionCode::from(0x00), CompletionCode::Success);
    assert_eq!(CompletionCode::from(0xff), CompletionCode::Unspecified);
    assert_eq!(
        CompletionCode::from(0xd2),
        CompletionCode::ResponseUnavailable {
            reason: ResponseUnavailableReason::BMCInitializing,
        }
    );
    assert_eq!(
        CompletionCode::from(0xce),
        CompletionCode::ResponseUnavailable {
            reason: ResponseUnavailableReason::Unknown,
        }
    );
    assert_eq!(CompletionCode::from(0xc0), CompletionCode::NodeBusy);
    assert_eq!(CompletionCode::from(0xc5), CompletionCode::ReservationCancelledOrInvalidId);
    assert_eq!(CompletionCode::from(0xd6), CompletionCode::SubFunctionDisabled);
    assert_eq!(CompletionCode::from(0x01), CompletionCode::Oem(0x01));
    assert_eq!(CompletionCode::from(0x7e), CompletionCode::Oem(0x7e));
    assert_eq!(CompletionCode::from(0x80), CompletionCode::CommandSpecific(0x80));
    assert_eq!(CompletionCode::from(0xbe), CompletionCode::CommandSpecific(0xbe));
    assert_eq!(CompletionCode::from(0x7f), CompletionCode::Reserved(0x7f));
    assert_eq!(CompletionCode::from(0xbf), CompletionCode::Reserved(0xbf));
}

#[test]
fn free_space_tristate() {
    assert_eq!(FreeSpace::from(0x0000), FreeSpace::Full);
    assert_eq!(FreeSpace::from(0xffff), FreeSpace::Unspecified);
    assert_eq!(FreeSpace::from(0x1234), FreeSpace::AtLeast { bytes: 0x1234 });
    assert_eq!(FreeSpace::from(0x0001), FreeSpace::AtLeast { bytes: 0x0001 });
}

#[test]
fn alloc_info_success_roundtrip() {
    let payload = vec![0x10, 0x00, 0x20, 0x00, 0x08, 0x00, 0x30, 0x00, 0x40];
    let response = Response::new(0x0b, 0x41, 0x00, payload);
    let mut ipmi = Ipmi::new(Scripted::new(vec![Ok(response)]));
    let info = ipmi.send_recv(GetAllocInfo).unwrap();
    assert_eq!(info.inner.num_alloc_units, 0x0010);
    assert_eq!(info.inner.alloc_unit_size, 0x0020);
    assert_eq!(info.inner.num_free_units, 0x0008);
    assert_eq!(info.inner.largest_free_blk, 0x0030);
    assert_eq!(info.inner.max_record_size, 0x40);
}

#[test]
fn correlation_mismatch_is_surfaced() {
    // The echo comes back with the wrong command byte.
    let response = Response::new(0x0b, 0x42, 0x00, vec![0; 9]);
    let mut ipmi = Ipmi::new(Scripted::new(vec![Ok(response)]));
    match ipmi.send_recv(GetAllocInfo) {
        Err(IpmiError::UnexpectedResponse {
            netfn_sent,
            netfn_recvd,
            cmd_sent,
            cmd_recvd,
        }) => {
            assert_eq!(netfn_sent, NetFn::Storage);
            assert_eq!(netfn_recvd, NetFn::Storage);
            assert_eq!(cmd_sent, 0x41);
            assert_eq!(cmd_recvd, 0x42);
        }
        other => panic!("expected an unexpected-response error, got {other:?}"),
    }

    // The echo comes back under the wrong function family.
    let response = Response::new(0x05, 0x41, 0x00, vec![0; 9]);
    let mut ipmi = Ipmi::new(Scripted::new(vec![Ok(response)]));
    match ipmi.send_recv(GetAllocInfo) {
        Err(IpmiError::UnexpectedResponse {
            netfn_sent,
            netfn_recvd,
            ..
        }) => {
            assert_eq!(netfn_sent, NetFn::Storage);
            assert_eq!(netfn_recvd, NetFn::SensorEvent);
        }
        other => panic!("expected an unexpected-response error, got {other:?}"),
    }
}

#[test]
fn non_success_code_is_kept() {
    let response = Response::new(0x0b, 0x41, 0xc0, Vec::new());
    let mut ipmi = Ipmi::new(Scripted::new(vec![Ok(response)]));
    match ipmi.send_recv(GetAllocInfo) {
        Err(IpmiError::ParsingFailed {
            error,
            completion_code,
            cmd,
            ..
        }) => {
            assert_eq!(error, ParseResponseError::NotSuccess(CompletionCode::NodeBusy));
            assert_eq!(completion_code, 0xc0);
            assert_eq!(cmd, 0x41);
        }
        other => panic!("expected a parsing failure, got {other:?}"),
    }
}

#[test]
fn transport_error_propagates() {
    let mut ipmi = Ipmi::new(Scripted::new(vec![Err("link down".to_string())]));
    match ipmi.send_recv(GetAllocInfo) {
        Err(IpmiError::Connection(e)) => assert_eq!(e, "link down"),
        other => panic!("expected a connection error, got {other:?}"),
    }
}

#[test]
fn repository_info_decodes() {
    let payload = vec![
        0x51, // version 1.5
        0x2a, 0x00, // 42 records
        0x00, 0x00, // free space: exactly full
        0x01, 0x00, 0x00, 0x00, // most recent addition
        0x02, 0x00, 0x00, 0x00, // most recent erase
        0xca, // overflow, reserve and delete bits set; modality code 0b10 in bits 6:5
    ];
    let response = Response::new(0x0b, 0x20, 0x00, payload);
    let mut ipmi = Ipmi::new(Scripted::new(vec![Ok(response)]));
    let info = ipmi.send_recv(GetRepositoryInfo).unwrap();
    assert_eq!(info.version_major, 1);
    assert_eq!(info.version_minor, 5);
    assert_eq!(info.record_count, 42);
    assert_eq!(info.free_space, FreeSpace::Full);
    assert_eq!(info.most_recent_addition.get(), 1);
    assert_eq!(info.most_recent_erase.get(), 2);
    assert!(info.overflow);
    assert_eq!(
        info.supported_ops,
        vec![Operation::ModalUpdate, Operation::Reserve, Operation::Delete]
    );
}

#[test]
fn repository_info_too_short_is_rejected() {
    let response = Response::new(0x0b, 0x20, 0x00, vec![0x51, 0x00, 0x00]);
    let mut ipmi = Ipmi::new(Scripted::new(vec![Ok(response)]));
    match ipmi.send_recv(GetRepositoryInfo) {
        Err(IpmiError::ParsingFailed { error, .. }) => {
            assert_eq!(error, ParseResponseError::NotEnoughData);
        }
        other => panic!("expected a parsing failure, got {other:?}"),
    }
}

fn sdr_fetch_response(next_id: u16, record_id: u16, tag: u8) -> Response {
    let mut data = vec![(next_id & 0xff) as u8, (next_id >> 8) as u8];
    // A framed record of an unmodeled type, three bytes of payload.
    data.extend_from_slice(&[
        (record_id & 0xff) as u8,
        (record_id >> 8) as u8,
        0x51,
        0x02,
        0x03,
        tag,
        tag,
        tag,
    ]);
    Response::new(0x0b, 0x23, 0x00, data)
}

#[test]
fn sdr_walk_stops_at_sentinel() {
    let script = vec![
        Ok(sdr_fetch_response(0x0001, 0x0000, 0xaa)),
        Ok(sdr_fetch_response(0xffff, 0x0001, 0xbb)),
    ];
    let mut ipmi = Ipmi::new(Scripted::new(script));
    let mut walk = ipmi.sdrs();

    let first = walk.next(&mut ipmi).expect("first record");
    assert_eq!(first.header.id, RecordId(0x0000));

    // The record whose chain link is the sentinel is still yielded.
    let last = walk.next(&mut ipmi).expect("last record");
    assert_eq!(last.header.id, RecordId(0x0001));

    // After the sentinel nothing more is fetched: the walk is exhausted and
    // the transport sees no third call.
    assert!(walk.next(&mut ipmi).is_none());
    assert!(walk.next(&mut ipmi).is_none());
    assert_eq!(ipmi.release().calls, 2);
}

#[test]
fn sdr_walk_swallows_failures() {
    let script = vec![
        Ok(sdr_fetch_response(0x0001, 0x0000, 0xaa)),
        Err("link down".to_string()),
    ];
    let mut ipmi = Ipmi::new(Scripted::new(script));
    let mut walk = ipmi.sdrs();

    assert!(walk.next(&mut ipmi).is_some());
    // The failure ends the walk without surfacing an error.
    assert!(walk.next(&mut ipmi).is_none());
    assert!(walk.next(&mut ipmi).is_none());
    assert_eq!(ipmi.release().calls, 2);
}

#[test]
fn correlate_response_decides_by_echo() {
    // A mismatched echo surfaces both pairs, whatever the payload held.
    let response = Response::new(0x0b, 0x42, 0x00, vec![0; 9]);
    match ipmi_rs::correlate_response::<String, GetAllocInfo>(NetFn::Storage, 0x41, &response) {
        Err(IpmiError::UnexpectedResponse {
            netfn_sent,
            netfn_recvd,
            cmd_sent,
            cmd_recvd,
        }) => {
            assert_eq!(netfn_sent, NetFn::Storage);
            assert_eq!(netfn_recvd, NetFn::Storage);
            assert_eq!(cmd_sent, 0x41);
            assert_eq!(cmd_recvd, 0x42);
        }
        other => panic!("expected an unexpected-response error, got {other:?}"),
    }

    // A matching echo under success reaches the command's parser.
    let response = Response::new(0x0b, 0x41, 0x00, vec![0x10, 0x00, 0x20, 0x00, 0x08, 0x00, 0x30, 0x00, 0x40]);
    let info = ipmi_rs::correlate_response::<String, GetAllocInfo>(NetFn::Storage, 0x41, &response)
        .unwrap();
    assert_eq!(info.inner.num_alloc_units, 0x0010);

    // A matching echo under a failure code keeps the offending bytes.
    let response = Response::new(0x0b, 0x41, 0xc0, vec![0x99]);
    match ipmi_rs::correlate_response::<String, GetAllocInfo>(NetFn::Storage, 0x41, &response) {
        Err(IpmiError::ParsingFailed {
            error,
            completion_code,
            data,
            ..
        }) => {
            assert_eq!(error, ParseResponseError::NotSuccess(CompletionCode::NodeBusy));
            assert_eq!(completion_code, 0xc0);
            assert_eq!(data, vec![0x99]);
        }
        other => panic!("expected a parsing failure, got {other:?}"),
    }
}

#[test]
fn sdr_walk_step_follows_chain_links() {
    let record = || {
        ipmi_rs::storage::sdr::Record::parse(&[0x01, 0x00, 0x51, 0x02, 0x01, 0x42]).unwrap()
    };

    // A real chain link becomes the new cursor.
    let mut walk = ipmi_rs::SdrIter { next_id: Some(RecordId(0x0000)) };
    let info = ipmi_rs::storage::sdr::RecordInfo {
        next_entry: RecordId(0x0005),
        record: record(),
    };
    assert!(walk.step::<String>(Ok(info)).is_some());
    assert_eq!(walk.next_id, Some(RecordId(0x0005)));

    // The sentinel link still yields the record but exhausts the walk: the
    // sentinel is never kept as a fetchable identifier.
    let info = ipmi_rs::storage::sdr::RecordInfo {
        next_entry: RecordId(0xffff),
        record: record(),
    };
    assert!(walk.step::<String>(Ok(info)).is_some());
    assert_eq!(walk.next_id, None);

    // A failure yields nothing and exhausts the walk.
    let mut walk = ipmi_rs::SdrIter { next_id: Some(RecordId(0x0000)) };
    assert!(walk.step::<String>(Err("link down".to_string())).is_none());
    assert_eq!(walk.next_id, None);
}

/// A command that sends an arbitrary prebuilt message and echoes the
/// response payload back.
struct RawEcho(Message);

impl IpmiCommand for RawEcho {
    type Output = Vec<u8>;
    type Error = ();

    // The specification-level trait items are never run; they only exist
    // for the verifier's benefit.
    fn message_spec(self) -> ipmi_rs::connection::MessageView {
        unreachable!()
    }

    fn addr_spec(self) -> Option<(u8, u8)> {
        unreachable!()
    }

    fn parse_ok(
        _completion_code: CompletionCode,
        _data: vstd::prelude::Seq<u8>,
        _r: Result<Vec<u8>, ParseResponseError<()>>,
    ) -> bool {
        unreachable!()
    }

    fn into_message(self) -> Message {
        self.0
    }

    fn address_and_channel(&self) -> Option<(u8, u8)> {
        None
    }

    fn parse_response(
        _completion_code: CompletionCode,
        data: &[u8],
    ) -> Result<Vec<u8>, ParseResponseError<()>> {
        Ok(data.to_vec())
    }
}

#[test]
fn response_tagged_netfn_is_refused() {
    let mut ipmi = Ipmi::new(Scripted::new(vec![]));
    // Netfn 0x07 carries the response parity bit: the dispatcher must
    // refuse to send it, before touching the transport.
    let message = Message::new_raw(0x07, 0x01, Vec::new());
    match ipmi.send_recv(RawEcho(message)) {
        Err(IpmiError::NetFnIsResponse(n)) => assert_eq!(n, NetFn::App),
        other => panic!("expected a netfn-is-response error, got {other:?}"),
    }
    assert_eq!(ipmi.release().calls, 0);
}

#[test]
fn raw_message_assembly() {
    let message = Message::new_raw(0x06, 0x38, vec![0x8e, 0x04]);
    assert_eq!(message.netfn_raw(), 0x06);
    assert_eq!(message.netfn(), NetFn::App);
    assert_eq!(message.cmd(), 0x38);
    assert_eq!(message.data(), &[0x8e, 0x04]);

    let request = Request::new(
        message,
        ipmi_rs::connection::RequestTargetAddress::Bmc(ipmi_rs::connection::LogicalUnit::Zero),
    );
    assert_eq!(request.message().cmd(), 0x38);
}

#[test]
fn netfn_parity() {
    assert_eq!(NetFn::from_raw(0x06), NetFn::App);
    assert_eq!(NetFn::from_raw(0x07), NetFn::App);
    assert_eq!(NetFn::from_raw(0x0a), NetFn::Storage);
    assert_eq!(NetFn::from_raw(0x0b), NetFn::Storage);
    assert_eq!(NetFn::from_raw(0x04), NetFn::SensorEvent);
    assert_eq!(NetFn::from_raw(0x30), NetFn::Unknown(0x30));
    assert_eq!(NetFn::App.request_value(), 0x06);
    assert_eq!(NetFn::App.response_value(), 0x07);
    assert_eq!(NetFn::Storage.response_value(), 0x0b);
}
