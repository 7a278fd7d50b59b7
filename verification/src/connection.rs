use vstd::prelude::*;

pub mod completion_code;

pub use completion_code::{completion_code_from_spec, CompletionCode, ResponseUnavailableReason};

verus! {

/// Network function code: the command family of a wire message. The raw
/// encoding reserves the lowest bit as the request/response parity bit, so a
/// family is identified by the even value alone; `Unknown` keeps that even
/// value for families this library does not name.
#[derive(Clone, Copy, Debug, PartialEq, Eq, Structural)]
pub enum NetFn {
    App,
    SensorEvent,
    Storage,
    Unknown(u8),
}

/// The family of a raw netfn byte, ignoring the parity bit.
pub open spec fn netfn_from_raw_spec(raw: u8) -> NetFn {
    let even = raw & 0xFE;
    if even == 0x04 {
        NetFn::SensorEvent
    } else if even == 0x06 {
        NetFn::App
    } else if even == 0x0A {
        NetFn::Storage
    } else {
        NetFn::Unknown(even)
    }
}

/// The raw value that marks a request of this family (parity bit clear).
pub open spec fn netfn_request_value_spec(netfn: NetFn) -> u8 {
    match netfn {
        NetFn::App => 0x06,
        NetFn::SensorEvent => 0x04,
        NetFn::Storage => 0x0A,
        NetFn::Unknown(v) => v & 0xFE,
    }
}

/// A raw netfn byte with the parity bit set marks a response.
pub open spec fn netfn_is_response_spec(raw: u8) -> bool {
    raw & 0x01 == 0x01
}

impl NetFn {
    /// The family of a raw netfn byte; the parity bit is ignored.
    pub fn from_raw(raw: u8) -> (r: NetFn)
        ensures
            r == netfn_from_raw_spec(raw),
    {
        let even = raw & 0xFE;
        if even == 0x04 {
            NetFn::SensorEvent
        } else if even == 0x06 {
            NetFn::App
        } else if even == 0x0A {
            NetFn::Storage
        } else {
            NetFn::Unknown(even)
        }
    }

    /// The raw value this family uses for requests.
    pub fn request_value(self) -> (r: u8)
        ensures
            r == netfn_request_value_spec(self),
    {
        match self {
            NetFn::App => 0x06,
            NetFn::SensorEvent => 0x04,
            NetFn::Storage => 0x0A,
            NetFn::Unknown(v) => v & 0xFE,
        }
    }

    /// The raw value this family uses for responses: the request value with
    /// the parity bit set.
    pub fn response_value(self) -> (r: u8)
        ensures
            r == netfn_request_value_spec(self) | 0x01,
    {
        self.request_value() | 0x01
    }
}

/// Requests and responses classify a raw netfn byte into the same family.
pub proof fn lemma_netfn_parity(netfn: NetFn)
    requires
        !(netfn is Unknown),
    ensures
        netfn_from_raw_spec(netfn_request_value_spec(netfn)) == netfn,
        netfn_from_raw_spec(netfn_request_value_spec(netfn) | 0x01) == netfn,
        !netfn_is_response_spec(netfn_request_value_spec(netfn)),
        netfn_is_response_spec(netfn_request_value_spec(netfn) | 0x01),
{
    let raw = netfn_request_value_spec(netfn);
    match netfn {
        NetFn::App => {
            assert(raw == 0x06);
            assert(0x06u8 & 0xFE == 0x06 && 0x06u8 & 0x01 == 0x00) by (bit_vector);
            assert((0x06u8 | 0x01) == 0x07 && 0x07u8 & 0xFE == 0x06 && 0x07u8 & 0x01 == 0x01)
                by (bit_vector);
        },
        NetFn::SensorEvent => {
            assert(raw == 0x04);
            assert(0x04u8 & 0xFE == 0x04 && 0x04u8 & 0x01 == 0x00) by (bit_vector);
            assert((0x04u8 | 0x01) == 0x05 && 0x05u8 & 0xFE == 0x04 && 0x05u8 & 0x01 == 0x01)
                by (bit_vector);
        },
        NetFn::Storage => {
            assert(raw == 0x0A);
            assert(0x0Au8 & 0xFE == 0x0A && 0x0Au8 & 0x01 == 0x00) by (bit_vector);
            assert((0x0Au8 | 0x01) == 0x0B && 0x0Bu8 & 0xFE == 0x0A && 0x0Bu8 & 0x01 == 0x01)
                by (bit_vector);
        },
        NetFn::Unknown(_) => {},
    }
}

/// Logical unit number: the two-bit sub-address within a target device.
#[derive(Clone, Copy, Debug, PartialEq, Eq, Structural)]
pub enum LogicalUnit {
    Zero,
    One,
    Two,
    Three,
}

/// The logical unit selected by the low two bits of a byte.
pub open spec fn logical_unit_from_low_bits_spec(value: u8) -> LogicalUnit {
    let code = value & 0x03;
    if code == 0 {
        LogicalUnit::Zero
    } else if code == 1 {
        LogicalUnit::One
    } else if code == 2 {
        LogicalUnit::Two
    } else {
        LogicalUnit::Three
    }
}

impl LogicalUnit {
    /// The logical unit named by the low two bits of a byte; higher bits
    /// are ignored.
    pub fn from_low_bits(value: u8) -> (r: LogicalUnit)
        ensures
            r == logical_unit_from_low_bits_spec(value),
    {
        let code = value & 0x03;
        if code == 0 {
            LogicalUnit::Zero
        } else if code == 1 {
            LogicalUnit::One
        } else if code == 2 {
            LogicalUnit::Two
        } else {
            LogicalUnit::Three
        }
    }

    /// The two-bit encoding of this logical unit.
    pub fn value(self) -> (r: u8)
        ensures
            r == match self {
                LogicalUnit::Zero => 0u8,
                LogicalUnit::One => 1u8,
                LogicalUnit::Two => 2u8,
                LogicalUnit::Three => 3u8,
            },
    {
        match self {
            LogicalUnit::Zero => 0,
            LogicalUnit::One => 1,
            LogicalUnit::Two => 2,
            LogicalUnit::Three => 3,
        }
    }
}

/// Spec-level value of a wire message: raw netfn byte, command byte, payload.
pub struct MessageView {
    pub netfn_raw: u8,
    pub cmd: u8,
    pub data: Seq<u8>,
}

/// The minimal unit of protocol data: a function-code pair plus a byte
/// payload. The same shape serves requests and responses; construction is
/// plain data assembly and never fails.
#[derive(Clone, Debug, PartialEq)]
pub struct Message {
    pub netfn_raw: u8,
    pub cmd: u8,
    pub data: Vec<u8>,
}

impl View for Message {
    type V = MessageView;

    open spec fn view(&self) -> MessageView {
        MessageView { netfn_raw: self.netfn_raw, cmd: self.cmd, data: self.data@ }
    }
}

impl Message {
    /// A request message of the given family: the raw netfn byte is the
    /// family's request value, with the parity bit clear.
    pub fn new_request(netfn: NetFn, cmd: u8, data: Vec<u8>) -> (r: Message)
        ensures
            r@ == (MessageView {
                netfn_raw: netfn_request_value_spec(netfn),
                cmd,
                data: data@,
            }),
    {
        Message { netfn_raw: netfn.request_value(), cmd, data }
    }

    /// A message with an arbitrary raw netfn byte, parity bit included.
    pub fn new_raw(netfn_raw: u8, cmd: u8, data: Vec<u8>) -> (r: Message)
        ensures
            r@ == (MessageView { netfn_raw, cmd, data: data@ }),
    {
        Message { netfn_raw, cmd, data }
    }

    /// The command family of this message.
    pub fn netfn(&self) -> (r: NetFn)
        ensures
            r == netfn_from_raw_spec(self.netfn_raw),
    {
        NetFn::from_raw(self.netfn_raw)
    }

    /// The raw netfn byte, parity bit included.
    pub fn netfn_raw(&self) -> (r: u8)
        ensures
            r == self.netfn_raw,
    {
        self.netfn_raw
    }

    /// The command byte.
    pub fn cmd(&self) -> (r: u8)
        ensures
            r == self.cmd,
    {
        self.cmd
    }

    /// The payload bytes.
    pub fn data(&self) -> (r: &[u8])
        ensures
            r@ == self.data@,
    {
        self.data.as_slice()
    }
}

/// Where a request is directed: the local controller at a logical unit, or a
/// remote device reached through a channel.
#[derive(Clone, Copy, Debug, PartialEq, Eq, Structural)]
pub enum RequestTargetAddress {
    Bmc(LogicalUnit),
    Device { address: u8, channel: u8, lun: LogicalUnit },
}

/// A message paired with its target address, handed to a transport. The
/// transport may rewrite it while sending, so it is passed by mutable
/// reference.
#[derive(Clone, Debug, PartialEq)]
pub struct Request {
    pub message: Message,
    pub target: RequestTargetAddress,
}

impl Request {
    pub fn new(message: Message, target: RequestTargetAddress) -> (r: Request)
        ensures
            r.message == message,
            r.target == target,
    {
        Request { message, target }
    }

    pub fn message(&self) -> (r: &Message)
        ensures
            r == &self.message,
    {
        &self.message
    }

    pub fn target(&self) -> (r: RequestTargetAddress)
        ensures
            r == self.target,
    {
        self.target
    }
}

/// What a transport hands back: the raw completion byte, the echoed
/// function-code pair, and the response payload. Read-only to this library.
#[derive(Clone, Debug, PartialEq)]
pub struct Response {
    pub cc: u8,
    pub netfn_raw: u8,
    pub cmd: u8,
    pub data: Vec<u8>,
}

impl Response {
    pub fn new(netfn_raw: u8, cmd: u8, cc: u8, data: Vec<u8>) -> (r: Response)
        ensures
            r.netfn_raw == netfn_raw,
            r.cmd == cmd,
            r.cc == cc,
            r.data@ == data@,
    {
        Response { cc, netfn_raw, cmd, data }
    }

    /// The raw completion byte.
    pub fn cc(&self) -> (r: u8)
        ensures
            r == self.cc,
    {
        self.cc
    }

    /// The command family echoed by the responder.
    pub fn netfn(&self) -> (r: NetFn)
        ensures
            r == netfn_from_raw_spec(self.netfn_raw),
    {
        NetFn::from_raw(self.netfn_raw)
    }

    /// The raw echoed netfn byte, parity bit included.
    pub fn netfn_raw(&self) -> (r: u8)
        ensures
            r == self.netfn_raw,
    {
        self.netfn_raw
    }

    /// The echoed command byte.
    pub fn cmd(&self) -> (r: u8)
        ensures
            r == self.cmd,
    {
        self.cmd
    }

    /// The response payload.
    pub fn data(&self) -> (r: &[u8])
        ensures
            r@ == self.data@,
    {
        self.data.as_slice()
    }
}

/// Why a command's response parser rejected a response: the payload was
/// shorter than the format requires, the completion code was not success (the
/// classified code is kept for diagnostics), or a command-specific semantic
/// rejection.
#[derive(Clone, Copy, Debug, PartialEq, Eq)]
pub enum ParseResponseError<E> {
    NotEnoughData,
    NotSuccess(CompletionCode),
    Failed(E),
}

/// Every parser tests the completion code first: only success proceeds to
/// structural parsing, anything else fails fast and keeps the code.
pub fn check_cc_success<E>(completion_code: CompletionCode) -> (r: Result<
    (),
    ParseResponseError<E>,
>)
    ensures
        completion_code is Success <==> r is Ok,
        !(completion_code is Success) ==> r == Err::<(), ParseResponseError<E>>(
            ParseResponseError::NotSuccess(completion_code),
        ),
{
    if let CompletionCode::Success = completion_code {
        Ok(())
    } else {
        Err(ParseResponseError::NotSuccess(completion_code))
    }
}

/// The command contract: a typed command can be turned into a wire message,
/// may override the target address, and can parse a response's payload, given
/// its completion code, into a typed result or a typed error.
pub trait IpmiCommand: Sized {
    type Output;

    type Error;

    /// The wire message this command encodes to.
    spec fn message_spec(self) -> MessageView;

    /// The remote address/channel pair this command targets, if it does not
    /// target the local controller.
    spec fn addr_spec(self) -> Option<(u8, u8)>;

    /// Exactly which results `parse_response` may return for a completion
    /// code and payload.
    spec fn parse_ok(
        completion_code: CompletionCode,
        data: Seq<u8>,
        r: Result<Self::Output, ParseResponseError<Self::Error>>,
    ) -> bool;

    /// Encode this command into a wire message. Infallible.
    fn into_message(self) -> (m: Message)
        ensures
            m@ == self.message_spec(),
    ;

    /// The address/channel the command targets, or `None` for the local
    /// controller.
    fn address_and_channel(&self) -> (r: Option<(u8, u8)>)
        ensures
            r == self.addr_spec(),
    ;

    /// Parse a response's payload under its completion code.
    fn parse_response(completion_code: CompletionCode, data: &[u8]) -> (r: Result<
        Self::Output,
        ParseResponseError<Self::Error>,
    >)
        ensures
            Self::parse_ok(completion_code, data@, r),
    ;
}

/// The transport contract: a blocking exchange that either returns a matching
/// response or a transport-specific error. Implemented by library consumers;
/// this library places no constraint on what comes back and validates the
/// echo itself.
pub trait IpmiConnection {
    type Error;

    fn send_recv(&mut self, request: &mut Request) -> Result<Response, Self::Error>;
}

} // verus!
