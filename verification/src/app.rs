pub mod get_channel_authentication_capabilities;

pub use get_channel_authentication_capabilities::{
    Channel, ChannelAuthenticationCapabilities, GetChannelAuthenticationCapabilities,
    PrivilegeLevel,
};
