use vstd::prelude::*;

use crate::connection::{
    check_cc_success, CompletionCode, IpmiCommand, Message, MessageView, NetFn, ParseResponseError,
};

verus! {

/// The privilege level a session asks for.
#[derive(Debug, Clone, Copy, PartialEq, Eq, Structural)]
pub enum PrivilegeLevel {
    Callback,
    User,
    Operator,
    Administrator,
    OemProperietary,
}

/// The privilege level named by the low four bits of a byte, if any.
pub open spec fn privilege_level_from_spec(value: u8) -> Option<PrivilegeLevel> {
    let code = value & 0x0F;
    if code == 1 {
        Some(PrivilegeLevel::Callback)
    } else if code == 2 {
        Some(PrivilegeLevel::User)
    } else if code == 3 {
        Some(PrivilegeLevel::Operator)
    } else if code == 4 {
        Some(PrivilegeLevel::Administrator)
    } else if code == 5 {
        Some(PrivilegeLevel::OemProperietary)
    } else {
        None
    }
}

/// The four-bit code of a privilege level.
pub open spec fn privilege_level_raw_spec(level: PrivilegeLevel) -> u8 {
    match level {
        PrivilegeLevel::Callback => 1,
        PrivilegeLevel::User => 2,
        PrivilegeLevel::Operator => 3,
        PrivilegeLevel::Administrator => 4,
        PrivilegeLevel::OemProperietary => 5,
    }
}

impl PrivilegeLevel {
    /// Decode the low four bits of a byte; unassigned codes are rejected.
    pub fn try_from(value: u8) -> (r: Result<PrivilegeLevel, ()>)
        ensures
            r matches Ok(level) ==> privilege_level_from_spec(value) == Some(level),
            r is Err <==> privilege_level_from_spec(value) is None,
    {
        let code = value & 0x0F;
        if code == 1 {
            Ok(PrivilegeLevel::Callback)
        } else if code == 2 {
            Ok(PrivilegeLevel::User)
        } else if code == 3 {
            Ok(PrivilegeLevel::Operator)
        } else if code == 4 {
            Ok(PrivilegeLevel::Administrator)
        } else if code == 5 {
            Ok(PrivilegeLevel::OemProperietary)
        } else {
            Err(())
        }
    }

    /// The four-bit code of this level; inverse of `try_from`.
    pub fn raw(self) -> (r: u8)
        ensures
            r == privilege_level_raw_spec(self),
            privilege_level_from_spec(r) == Some(self),
    {
        proof {
            assert(1u8 & 0x0F == 1 && 2u8 & 0x0F == 2 && 3u8 & 0x0F == 3 && 4u8 & 0x0F == 4 && 5u8
                & 0x0F == 5) by (bit_vector);
        }
        match self {
            PrivilegeLevel::Callback => 1,
            PrivilegeLevel::User => 2,
            PrivilegeLevel::Operator => 3,
            PrivilegeLevel::Administrator => 4,
            PrivilegeLevel::OemProperietary => 5,
        }
    }
}

/// Which channel a query asks about: the one it arrives on, or a numbered
/// one.
#[derive(Debug, Clone, Copy, PartialEq, Eq, Structural)]
pub enum Channel {
    Current,
    Number(u8),
}

/// The four-bit channel field a channel selector encodes to: the fixed code
/// 0xE for the current channel, or the number masked to four bits.
pub open spec fn channel_number_spec(channel: Channel) -> u8 {
    match channel {
        Channel::Current => 0x0E,
        Channel::Number(n) => n & 0x0F,
    }
}

/// What a channel reports about its authentication support.
#[derive(Debug, Clone, Copy, PartialEq, Eq)]
pub struct ChannelAuthenticationCapabilities {
    pub channel_number: u8,
    pub oem_proprietary: bool,
    pub key: bool,
    pub md5: bool,
    pub md2: bool,
    pub none: bool,
    pub kg_status: bool,
    pub per_message_authentication_enabled: bool,
    pub user_level_authentication_enabled: bool,
    pub non_null_usernames_enabled: bool,
    pub null_usernames_enabled: bool,
    pub anonymous_login_enabled: bool,
    pub ipmi2_connections_supported: bool,
    pub ipmi15_connections_supported: bool,
    pub oem_id: [u8; 3],
    pub oem_auxiliary_data: u8,
}

/// Whether byte 1 of the response announces the extended layout, whose
/// extra fields only exist when this bit is set.
pub open spec fn channel_auth_extended_spec(data: Seq<u8>) -> bool {
    data[1] & 0x80 == 0x80
}

/// The payload length the response needs: the base layout takes 7 bytes and
/// the extended layout one more.
pub open spec fn channel_auth_enough_data_spec(data: Seq<u8>) -> bool {
    data.len() >= 7 && (channel_auth_extended_spec(data) ==> data.len() >= 8)
}

/// Field-by-field meaning of a decoded capability report: the echoed channel
/// byte, the algorithm and login flags, and the fields whose position
/// depends on the extended-layout bit.
pub open spec fn channel_auth_matches_spec(
    data: Seq<u8>,
    o: ChannelAuthenticationCapabilities,
) -> bool {
    &&& o.channel_number == data[0]
    &&& o.oem_proprietary == (data[1] & 0x20 == 0x20)
    &&& o.key == (data[1] & 0x10 == 0x10)
    &&& o.md5 == (data[1] & 0x04 == 0x04)
    &&& o.md2 == (data[1] & 0x02 == 0x02)
    &&& o.none == (data[1] & 0x01 == 0x01)
    &&& o.per_message_authentication_enabled == !(data[2] & 0x10 == 0x10)
    &&& o.user_level_authentication_enabled == !(data[2] & 0x08 == 0x08)
    &&& o.non_null_usernames_enabled == (data[2] & 0x04 == 0x04)
    &&& o.null_usernames_enabled == (data[2] & 0x02 == 0x02)
    &&& o.anonymous_login_enabled == (data[2] & 0x01 == 0x01)
    &&& if channel_auth_extended_spec(data) {
        &&& o.kg_status == (data[2] & 0x20 == 0x20)
        &&& o.ipmi2_connections_supported == (data[3] & 0x02 == 0x02)
        &&& o.ipmi15_connections_supported == (data[3] & 0x01 == 0x01)
        &&& o.oem_id@ == seq![data[4], data[5], data[6]]
        &&& o.oem_auxiliary_data == data[7]
    } else {
        &&& !o.kg_status
        &&& !o.ipmi2_connections_supported
        &&& !o.ipmi15_connections_supported
        &&& o.oem_id@ == seq![data[3], data[4], data[5]]
        &&& o.oem_auxiliary_data == data[6]
    }
}

/// Query for a channel's authentication capabilities, built from a channel
/// selector and the privilege level to ask about.
#[derive(Debug, Clone, Copy, PartialEq, Eq, Structural)]
pub struct GetChannelAuthenticationCapabilities {
    pub channel_number: u8,
    pub privilege_level: PrivilegeLevel,
}

impl GetChannelAuthenticationCapabilities {
    /// Build the query: the channel selector is normalized to its four-bit
    /// field.
    pub fn new(channel_number: Channel, privilege_level: PrivilegeLevel) -> (r:
        GetChannelAuthenticationCapabilities)
        ensures
            r.channel_number == channel_number_spec(channel_number),
            r.privilege_level == privilege_level,
    {
        let channel_number = match channel_number {
            Channel::Current => 0xE,
            Channel::Number(n) => n & 0x0F,
        };
        GetChannelAuthenticationCapabilities { channel_number, privilege_level }
    }
}

impl IpmiCommand for GetChannelAuthenticationCapabilities {
    type Output = ChannelAuthenticationCapabilities;

    type Error = ();

    open spec fn message_spec(self) -> MessageView {
        MessageView {
            netfn_raw: 0x06,
            cmd: 0x38,
            data: seq![
                0x80 | (self.channel_number & 0x0F),
                privilege_level_raw_spec(self.privilege_level),
            ],
        }
    }

    open spec fn addr_spec(self) -> Option<(u8, u8)> {
        None
    }

    open spec fn parse_ok(
        completion_code: CompletionCode,
        data: Seq<u8>,
        r: Result<ChannelAuthenticationCapabilities, ParseResponseError<()>>,
    ) -> bool {
        match r {
            Ok(o) => completion_code is Success && channel_auth_enough_data_spec(data)
                && channel_auth_matches_spec(data, o),
            Err(ParseResponseError::NotSuccess(c)) => !(completion_code is Success) && c
                == completion_code,
            Err(ParseResponseError::NotEnoughData) => completion_code is Success
                && !channel_auth_enough_data_spec(data),
            Err(ParseResponseError::Failed(_)) => false,
        }
    }

    fn into_message(self) -> (m: Message) {
        let mut data: Vec<u8> = Vec::new();
        data.push(0x80 | (self.channel_number & 0x0F));
        data.push(self.privilege_level.raw());
        proof {
            assert(data@ =~= seq![
                0x80 | (self.channel_number & 0x0F),
                privilege_level_raw_spec(self.privilege_level),
            ]);
        }
        Message::new_request(NetFn::App, 0x38, data)
    }

    fn address_and_channel(&self) -> (r: Option<(u8, u8)>) {
        None
    }

    fn parse_response(completion_code: CompletionCode, data: &[u8]) -> (r: Result<
        ChannelAuthenticationCapabilities,
        ParseResponseError<()>,
    >) {
        if let Err(e) = check_cc_success::<()>(completion_code) {
            return Err(e);
        }

        if data.len() < 7 {
            return Err(ParseResponseError::NotEnoughData);
        }

        let channel_number = data[0];
        let ipmi2_ext_cap = (data[1] & 0x80) == 0x80;

        let oem_proprietary = (data[1] & 0x20) == 0x20;
        let key = (data[1] & 0x10) == 0x10;
        let md5 = (data[1] & 0x04) == 0x04;
        let md2 = (data[1] & 0x02) == 0x02;
        let none = (data[1] & 0x01) == 0x01;

        let pma = (data[2] & 0x10) == 0x10;
        let ula = (data[2] & 0x08) == 0x08;
        let nnue = (data[2] & 0x04) == 0x04;
        let nue = (data[2] & 0x02) == 0x02;
        let ale = (data[2] & 0x01) == 0x01;

        let (kg, v2, v15, oem_id, oem_aux) = if ipmi2_ext_cap {
            // The extended fields only exist when the capability bit is
            // set, so the length floor is re-checked for the longer layout.
            if data.len() < 8 {
                return Err(ParseResponseError::NotEnoughData);
            }
            let kg = (data[2] & 0x20) == 0x20;
            let v2 = (data[3] & 0x02) == 0x02;
            let v15 = (data[3] & 0x01) == 0x01;
            let oem_id = [data[4], data[5], data[6]];
            let oem_aux = data[7];
            (kg, v2, v15, oem_id, oem_aux)
        } else {
            let oem_id = [data[3], data[4], data[5]];
            let oem_aux = data[6];
            (false, false, false, oem_id, oem_aux)
        };

        Ok(
            ChannelAuthenticationCapabilities {
                channel_number,
                oem_proprietary,
                key,
                md5,
                md2,
                none,
                kg_status: kg,
                per_message_authentication_enabled: !pma,
                user_level_authentication_enabled: !ula,
                non_null_usernames_enabled: nnue,
                null_usernames_enabled: nue,
                anonymous_login_enabled: ale,
                ipmi2_connections_supported: v2,
                ipmi15_connections_supported: v15,
                oem_id,
                oem_auxiliary_data: oem_aux,
            },
        )
    }
}

/// The request payload carries the channel field masked to four bits with
/// the high bit set, and the privilege code: what `new` normalizes is
/// exactly what goes on the wire.
pub proof fn lemma_channel_field_encoding(channel: Channel, level: PrivilegeLevel)
    ensures
        ({
            let cmd = GetChannelAuthenticationCapabilities {
                channel_number: channel_number_spec(channel),
                privilege_level: level,
            };
            cmd.message_spec().data == seq![
                0x80 | (channel_number_spec(channel) & 0x0F),
                privilege_level_raw_spec(level),
            ]
        }),
        channel_number_spec(channel) & 0x0F == channel_number_spec(channel),
{
    match channel {
        Channel::Current => {
            assert(0x0Eu8 & 0x0F == 0x0E) by (bit_vector);
        },
        Channel::Number(n) => {
            assert((n & 0x0F) & 0x0F == n & 0x0F) by (bit_vector);
        },
    }
}

} // verus!
