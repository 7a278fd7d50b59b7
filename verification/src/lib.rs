use vstd::prelude::*;

pub mod app;
pub mod connection;
pub mod sensor_event;
pub mod storage;
pub mod wire;

use connection::{
    completion_code_from_spec, netfn_from_raw_spec, netfn_is_response_spec, CompletionCode,
    IpmiCommand, IpmiConnection, LogicalUnit, NetFn, ParseResponseError, Request,
    RequestTargetAddress, Response,
};
use storage::sdr::{record::Record as SdrRecord, GetDeviceSdr, RecordId, RecordInfo};

verus! {

/// Everything a dispatch can fail with: the caller handed over a message
/// already tagged as a response, the echoed function-code pair did not match
/// what was sent (both pairs are kept), the command's parser rejected the
/// response (the raw completion byte and payload are kept), or the transport
/// itself failed (its error is passed through unchanged).
#[derive(Clone, Debug, PartialEq)]
pub enum IpmiError<CON, P> {
    NetFnIsResponse(NetFn),
    UnexpectedResponse { netfn_sent: NetFn, netfn_recvd: NetFn, cmd_sent: u8, cmd_recvd: u8 },
    ParsingFailed { error: P, netfn: NetFn, cmd: u8, completion_code: u8, data: Vec<u8> },
    Connection(CON),
}

pub type IpmiCommandError<T, E> = IpmiError<T, ParseResponseError<E>>;

/// Whether some completion byte and payload let this command's parser
/// produce the given output: what a successful dispatch guarantees about
/// the value it hands back.
pub open spec fn parse_can_return<CMD: IpmiCommand>(output: CMD::Output) -> bool {
    exists|cc: u8, data: Seq<u8>|
        CMD::parse_ok(
            completion_code_from_spec(cc),
            data,
            Ok::<CMD::Output, ParseResponseError<CMD::Error>>(output),
        )
}

/// The dispatcher: owns a transport, sends typed commands over it one at a
/// time, verifies the response echo and hands the payload to the command's
/// own parser.
pub struct Ipmi<CON> {
    pub inner: CON,
}

impl<CON> Ipmi<CON> {
    /// Give the transport back.
    pub fn release(self) -> (r: CON)
        ensures
            r == self.inner,
    {
        self.inner
    }
}

impl<CON> Ipmi<CON> where CON: IpmiConnection {
    pub fn new(inner: CON) -> (r: Ipmi<CON>)
        ensures
            r.inner == inner,
    {
        Ipmi { inner }
    }

    /// The transport, for callers that need to drive it directly.
    pub fn inner_mut(&mut self) -> &mut CON {
        &mut self.inner
    }

    /// A fresh repository walk, positioned at the fixed first identifier.
    pub fn sdrs(&mut self) -> (r: SdrIter)
        ensures
            *final(self) == *old(self),
            r.next_id == Some(RecordId(0x0000)),
    {
        SdrIter { next_id: Some(RecordId::first()) }
    }

    /// Dispatch one command: encode it, refuse a response-tagged function
    /// code, send it to the address the command picks (the local controller
    /// at logical unit zero by default), verify the echoed function-code
    /// pair, and run the command's parser on the classified completion code
    /// and the payload. Exactly one of the four failure kinds, or the
    /// parsed output, comes back.
    pub fn send_recv<CMD: IpmiCommand>(&mut self, request: CMD) -> (r: Result<
        CMD::Output,
        IpmiCommandError<CON::Error, CMD::Error>,
    >)
        ensures
            r matches Err(IpmiError::NetFnIsResponse(n)) ==> netfn_is_response_spec(
                request.message_spec().netfn_raw,
            ) && n == netfn_from_raw_spec(request.message_spec().netfn_raw),
            !(r matches Err(IpmiError::NetFnIsResponse(_))) ==> !netfn_is_response_spec(
                request.message_spec().netfn_raw,
            ),
            r matches Ok(output) ==> parse_can_return::<CMD>(output),
            r matches Err(IpmiError::UnexpectedResponse {
                netfn_sent,
                netfn_recvd,
                cmd_sent,
                cmd_recvd,
            }) ==> netfn_sent == netfn_from_raw_spec(request.message_spec().netfn_raw) && cmd_sent
                == request.message_spec().cmd && !(netfn_recvd == netfn_sent && cmd_recvd
                == cmd_sent),
            r matches Err(IpmiError::ParsingFailed { error, netfn, cmd, completion_code, data })
                ==> netfn == netfn_from_raw_spec(request.message_spec().netfn_raw) && cmd
                == request.message_spec().cmd && CMD::parse_ok(
                completion_code_from_spec(completion_code),
                data@,
                Err::<CMD::Output, ParseResponseError<CMD::Error>>(error),
            ),
    {
        let addr = request.address_and_channel();
        let message = request.into_message();
        let message_netfn_raw = message.netfn_raw();
        let message_netfn = message.netfn();
        let message_cmd = message.cmd();

        if message_netfn_raw & 0x01 == 0x01 {
            return Err(IpmiError::NetFnIsResponse(message_netfn));
        }

        let target = match addr {
            Some((address, channel)) => RequestTargetAddress::Device {
                address,
                channel,
                lun: LogicalUnit::Zero,
            },
            None => RequestTargetAddress::Bmc(LogicalUnit::Zero),
        };
        let mut wire_request = Request::new(message, target);

        let response = match self.inner.send_recv(&mut wire_request) {
            Ok(response) => response,
            Err(e) => {
                return Err(IpmiError::Connection(e));
            },
        };

        let r = correlate_response::<CON::Error, CMD>(message_netfn, message_cmd, &response);
        proof {
            match &r {
                Ok(output) => {
                    assert(parse_can_return::<CMD>(*output)) by {
                        assert(CMD::parse_ok(
                            completion_code_from_spec(response.cc),
                            response.data@,
                            Ok::<CMD::Output, ParseResponseError<CMD::Error>>(*output),
                        ));
                    }
                },
                Err(_) => {},
            }
        }
        r
    }
}

/// The receive half of a dispatch, stated for every response a transport
/// could hand back: an echoed function-code pair that does not match the
/// sent one always surfaces both pairs and never a parsed payload; a
/// matching echo has its completion byte classified and its payload run
/// through the command's parser, and a rejection keeps the offending byte
/// and payload.
pub fn correlate_response<E, CMD: IpmiCommand>(
    netfn_sent: NetFn,
    cmd_sent: u8,
    response: &Response,
) -> (r: Result<CMD::Output, IpmiError<E, ParseResponseError<CMD::Error>>>)
    ensures
        !(netfn_from_raw_spec(response.netfn_raw) == netfn_sent && response.cmd == cmd_sent)
            ==> r == Err::<CMD::Output, IpmiError<E, ParseResponseError<CMD::Error>>>(
            IpmiError::UnexpectedResponse {
                netfn_sent,
                netfn_recvd: netfn_from_raw_spec(response.netfn_raw),
                cmd_sent,
                cmd_recvd: response.cmd,
            },
        ),
        netfn_from_raw_spec(response.netfn_raw) == netfn_sent && response.cmd == cmd_sent
            ==> match r {
            Ok(output) => CMD::parse_ok(
                completion_code_from_spec(response.cc),
                response.data@,
                Ok::<CMD::Output, ParseResponseError<CMD::Error>>(output),
            ),
            Err(IpmiError::ParsingFailed { error, netfn, cmd, completion_code, data }) => netfn
                == netfn_sent && cmd == cmd_sent && completion_code == response.cc && data@
                == response.data@ && CMD::parse_ok(
                completion_code_from_spec(response.cc),
                response.data@,
                Err::<CMD::Output, ParseResponseError<CMD::Error>>(error),
            ),
            _ => false,
        },
{
    if response.netfn() != netfn_sent || response.cmd() != cmd_sent {
        return Err(
            IpmiError::UnexpectedResponse {
                netfn_sent,
                netfn_recvd: response.netfn(),
                cmd_sent,
                cmd_recvd: response.cmd(),
            },
        );
    }

    let raw_cc = response.cc();
    let completion_code = CompletionCode::from(raw_cc);
    match CMD::parse_response(completion_code, response.data()) {
        Ok(output) => Ok(output),
        Err(error) => Err(
            IpmiError::ParsingFailed {
                error,
                netfn: response.netfn(),
                completion_code: raw_cc,
                cmd: response.cmd(),
                data: vstd::slice::slice_to_vec(response.data()),
            },
        ),
    }
}

/// A repository walk: a two-state machine that is either positioned at the
/// next identifier to fetch, or exhausted. It starts at the fixed first
/// identifier, follows each record's chain link, stops after the record
/// whose link is the sentinel, and stops early on any dispatch failure,
/// keeping the records already produced (partial results stand; the walk
/// never retries and never surfaces the failure).
#[derive(Clone, Copy, Debug, PartialEq, Eq, Structural)]
pub struct SdrIter {
    pub next_id: Option<RecordId>,
}

impl SdrIter {
    /// Fetch the next record through the given dispatcher, stepping the
    /// state machine: the sentinel is never fetched, a sentinel chain link
    /// or any failure moves the walk to its exhausted state, and an
    /// exhausted walk stays exhausted.
    pub fn next<CON: IpmiConnection>(&mut self, ipmi: &mut Ipmi<CON>) -> (r: Option<SdrRecord>)
        ensures
            old(self).next_id is None ==> r is None && final(self).next_id is None,
            r is None ==> final(self).next_id is None,
            final(self).next_id matches Some(id) ==> id.0 != 0xFFFF && r is Some,
            r matches Some(rec) ==> exists|info: RecordInfo, cc: u8, data: Seq<u8>|
                {
                    &&& GetDeviceSdr::parse_ok(
                        completion_code_from_spec(cc),
                        data,
                        Ok::<RecordInfo, ParseResponseError<()>>(info),
                    )
                    &&& info.record == rec
                    &&& final(self).next_id == if info.next_entry.0 != 0xFFFF {
                        Some(info.next_entry)
                    } else {
                        None::<RecordId>
                    }
                },
    {
        let next_id = match self.next_id {
            Some(id) => id,
            None => {
                return None;
            },
        };
        if next_id.is_last() {
            // The sentinel names no record; never fetch it.
            self.next_id = None;
            return None;
        }
        let fetched = ipmi.send_recv(GetDeviceSdr::new(None, next_id));
        let ghost fetch_outcome = fetched;
        let r = self.step(fetched);
        proof {
            match fetch_outcome {
                Ok(info) => {
                    // A successful dispatch means some completion byte and
                    // payload produced this value; name that pair so the
                    // walk's guarantee can quantify over it.
                    let (cc, data) = choose|cc: u8, data: Seq<u8>|
                        GetDeviceSdr::parse_ok(
                            completion_code_from_spec(cc),
                            data,
                            Ok::<RecordInfo, ParseResponseError<()>>(info),
                        );
                    assert(GetDeviceSdr::parse_ok(
                        completion_code_from_spec(cc),
                        data,
                        Ok::<RecordInfo, ParseResponseError<()>>(info),
                    ));
                },
                Err(_) => {},
            }
        }
        r
    }

    /// Advance the walk by the outcome of fetching at the current position:
    /// a fetched record is always yielded and its chain link becomes the new
    /// cursor, except that the sentinel link leaves the walk exhausted — the
    /// sentinel is never kept as a fetchable identifier; any failure
    /// exhausts the walk silently, keeping what was already produced.
    pub fn step<E>(&mut self, fetched: Result<RecordInfo, E>) -> (r: Option<SdrRecord>)
        ensures
            fetched matches Ok(info) ==> r == Some(info.record) && final(self).next_id == (
            if info.next_entry.0 != 0xFFFF {
                Some(info.next_entry)
            } else {
                None::<RecordId>
            }),
            fetched is Err ==> r is None && final(self).next_id is None,
    {
        match fetched {
            Ok(info) => {
                if !info.next_entry.is_last() {
                    self.next_id = Some(info.next_entry);
                } else {
                    self.next_id = None;
                }
                Some(info.record)
            },
            Err(_) => {
                self.next_id = None;
                None
            },
        }
    }
}

} // verus!
