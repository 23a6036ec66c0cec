//! Types, limits and codes shared with the SoftEtherVPN C libraries, and the
//! conversion of strings into SoftEther's wide-character buffers.

pub mod error_codes;
pub mod log_level;

use vstd::prelude::*;
use crate::text::{encode_utf16, string_of, utf16_encode};

verus! {

/// SoftEther's unsigned integer type.
pub type UINT = u32;

/// SoftEther's 64-bit unsigned integer type.
pub type UINT64 = u64;

/// SoftEther's byte type.
pub type UCHAR = u8;

/// SoftEther's boolean type (a byte).
pub type SoftEtherBool = u8;

/// Maximum length of an account name.
pub const MAX_ACCOUNT_NAME_LEN: usize = 127;

/// Maximum length of a host name.
pub const MAX_HOST_NAME_LEN: usize = 255;

/// Maximum length of a Virtual Hub name.
pub const MAX_HUBNAME_LEN: usize = 255;

/// Maximum length of a device name.
pub const MAX_DEVICE_NAME_LEN: usize = 31;

/// Maximum size of a custom HTTP header.
pub const HTTP_CUSTOM_HEADER_MAX_SIZE: usize = 1024;

/// Maximum length of a proxy user name.
pub const PROXY_MAX_USERNAME_LEN: usize = 255;

/// Maximum length of a proxy password.
pub const PROXY_MAX_PASSWORD_LEN: usize = 255;

/// Size of a SHA-1 digest.
pub const SHA1_SIZE: usize = 20;

/// Anonymous authentication.
pub const CLIENT_AUTHTYPE_ANONYMOUS: u32 = 0;

/// Password authentication.
pub const CLIENT_AUTHTYPE_PASSWORD: u32 = 1;

/// Proxy type for a direct connection.
pub const PROXY_DIRECT: u32 = 0;

/// Request to connect an account.
#[allow(non_camel_case_types, non_snake_case)]
#[derive(Debug)]
pub struct RPC_CLIENT_CONNECT {
    pub AccountName: [u16; 128],
}

/// The status of an account's connection, as SoftEther reports it. Byte-string
/// fields hold NUL-terminated UTF-8 text.
#[allow(non_camel_case_types, non_snake_case)]
#[derive(Debug)]
pub struct RPC_CLIENT_GET_CONNECTION_STATUS {
    pub AccountName: [u16; 128],
    pub Active: bool,
    pub Connected: bool,
    pub SessionStatus: UINT,
    pub ServerName: [u8; 256],
    pub ServerPort: UINT,
    pub ServerProductName: [u8; 256],
    pub ServerProductVer: UINT,
    pub ServerProductBuild: UINT,
}

/// Request to create an account.
#[allow(non_camel_case_types, non_snake_case)]
#[derive(Debug)]
pub struct RPC_CLIENT_CREATE_ACCOUNT {
    pub AccountName: [u16; 128],
}

/// Request to delete an account.
#[allow(non_camel_case_types, non_snake_case)]
#[derive(Debug)]
pub struct RPC_CLIENT_DELETE_ACCOUNT {
    pub AccountName: [u16; 128],
}

/// Request to read an account.
#[allow(non_camel_case_types, non_snake_case)]
#[derive(Debug)]
pub struct RPC_CLIENT_GET_ACCOUNT {
    pub AccountName: [u16; 128],
}

/// An IP address as SoftEther stores it.
#[allow(non_camel_case_types)]
#[derive(Debug)]
pub struct IP {
    pub address: [u8; 16],
    pub ipv6_scope_id: u32,
}

/// Connection options of a SoftEther client session. Byte-string fields hold
/// NUL-terminated UTF-8 text; the `pad` fields keep the C layout.
#[allow(non_camel_case_types, non_snake_case)]
#[derive(Debug)]
pub struct CLIENT_OPTION {
    pub AccountName: [u16; 128],
    pub Hostname: [u8; 256],
    pub Port: UINT,
    pub PortUDP: UINT,
    pub ProxyType: UINT,
    pub ProxyName: [u8; 256],
    pub ProxyPort: UINT,
    pub ProxyUsername: [u8; 256],
    pub ProxyPassword: [u8; 256],
    pub NumRetry: UINT,
    pub RetryInterval: UINT,
    pub HubName: [u8; 256],
    pub MaxConnection: UINT,
    pub UseEncrypt: bool,
    pub pad1: [u8; 3],
    pub UseCompress: bool,
    pub pad2: [u8; 3],
    pub HalfConnection: bool,
    pub pad3: [u8; 3],
    pub NoRoutingTracking: bool,
    pub pad4: [u8; 3],
    pub DeviceName: [u8; 32],
    pub AdditionalConnectionInterval: UINT,
    pub ConnectionDisconnectSpan: UINT,
    pub HideStatusWindow: bool,
    pub pad5: [u8; 3],
    pub HideNicInfoWindow: bool,
    pub pad6: [u8; 3],
    pub RequireMonitorMode: bool,
    pub pad7: [u8; 3],
    pub RequireBridgeRoutingMode: bool,
    pub pad8: [u8; 3],
    pub DisableQoS: bool,
    pub pad9: [u8; 3],
    pub FromAdminPack: bool,
    pub pad10: [u8; 3],
    pub pad11: [u8; 4],
    pub NoUdpAcceleration: bool,
    pub pad12: [u8; 3],
    pub HostUniqueKey: [u8; 20],
    pub CustomHttpHeader: [u8; 1024],
    pub HintStr: [u8; 256],
    pub BindLocalIP: IP,
    pub BindLocalPort: UINT,
}

/// Every element of `s` is zero.
pub open spec fn all_zero_u8(s: Seq<u8>) -> bool {
    forall|i: int| 0 <= i < s.len() ==> s[i] == 0u8
}

/// Every element of `s` is zero.
pub open spec fn all_zero_u16(s: Seq<u16>) -> bool {
    forall|i: int| 0 <= i < s.len() ==> s[i] == 0u16
}

/// The options are all zero: empty strings, zero numbers, false flags.
pub open spec fn is_zeroed(o: CLIENT_OPTION) -> bool {
    &&& all_zero_u16(o.AccountName@)
    &&& all_zero_u8(o.Hostname@)
    &&& o.Port == 0 && o.PortUDP == 0 && o.ProxyType == 0 && o.ProxyPort == 0
    &&& all_zero_u8(o.ProxyName@) && all_zero_u8(o.ProxyUsername@) && all_zero_u8(o.ProxyPassword@)
    &&& o.NumRetry == 0 && o.RetryInterval == 0 && o.MaxConnection == 0
    &&& all_zero_u8(o.HubName@) && all_zero_u8(o.DeviceName@)
    &&& !o.UseEncrypt && !o.UseCompress && !o.HalfConnection && !o.NoRoutingTracking
    &&& o.AdditionalConnectionInterval == 0 && o.ConnectionDisconnectSpan == 0
    &&& !o.HideStatusWindow && !o.HideNicInfoWindow && !o.RequireMonitorMode
    &&& !o.RequireBridgeRoutingMode && !o.DisableQoS && !o.FromAdminPack && !o.NoUdpAcceleration
    &&& all_zero_u8(o.HostUniqueKey@) && all_zero_u8(o.CustomHttpHeader@) && all_zero_u8(o.HintStr@)
    &&& all_zero_u8(o.BindLocalIP.address@) && o.BindLocalIP.ipv6_scope_id == 0
    &&& o.BindLocalPort == 0
}

impl Default for CLIENT_OPTION {
    fn default() -> (o: Self)
        ensures
            is_zeroed(o),
    {
        CLIENT_OPTION {
            AccountName: [0u16; 128],
            Hostname: [0u8; 256],
            Port: 0,
            PortUDP: 0,
            ProxyType: 0,
            ProxyName: [0u8; 256],
            ProxyPort: 0,
            ProxyUsername: [0u8; 256],
            ProxyPassword: [0u8; 256],
            NumRetry: 0,
            RetryInterval: 0,
            HubName: [0u8; 256],
            MaxConnection: 0,
            UseEncrypt: false,
            pad1: [0u8; 3],
            UseCompress: false,
            pad2: [0u8; 3],
            HalfConnection: false,
            pad3: [0u8; 3],
            NoRoutingTracking: false,
            pad4: [0u8; 3],
            DeviceName: [0u8; 32],
            AdditionalConnectionInterval: 0,
            ConnectionDisconnectSpan: 0,
            HideStatusWindow: false,
            pad5: [0u8; 3],
            HideNicInfoWindow: false,
            pad6: [0u8; 3],
            RequireMonitorMode: false,
            pad7: [0u8; 3],
            RequireBridgeRoutingMode: false,
            pad8: [0u8; 3],
            DisableQoS: false,
            pad9: [0u8; 3],
            FromAdminPack: false,
            pad10: [0u8; 3],
            pad11: [0u8; 4],
            NoUdpAcceleration: false,
            pad12: [0u8; 3],
            HostUniqueKey: [0u8; 20],
            CustomHttpHeader: [0u8; 1024],
            HintStr: [0u8; 256],
            BindLocalIP: IP { address: [0u8; 16], ipv6_scope_id: 0 },
            BindLocalPort: 0,
        }
    }
}

/// Opaque Cedar context.
#[allow(non_camel_case_types)]
pub struct CEDAR {
    _private: [u8; 0],
}

/// Opaque session.
#[allow(non_camel_case_types)]
pub struct SESSION {
    _private: [u8; 0],
}

/// The NUL-terminated UTF-16 form of a string.
pub open spec fn wide_chars(s: Seq<char>) -> Seq<u16> {
    utf16_encode(s).push(0u16)
}

/// Writes the NUL-terminated UTF-16 form of `s` at the start of `buffer`; the rest
/// of the buffer is left as it was. Fails, leaving the buffer untouched, when the
/// form does not fit.
pub fn to_wide_string(s: &str, buffer: &mut [u16]) -> (r: Result<(), String>)
    ensures
        r is Ok <==> wide_chars(s@).len() <= old(buffer)@.len(),
        r is Ok ==> final(buffer)@ == wide_chars(s@) + old(buffer)@.skip(wide_chars(s@).len() as int),
        r matches Err(m) ==> final(buffer)@ == old(buffer)@ && m@ == "String too long for buffer"@,
{
    let mut wide = encode_utf16(s);
    wide.push(0u16);
    if wide.len() > buffer.len() {
        return Err(string_of("String too long for buffer"));
    }
    let mut i: usize = 0;
    while i < wide.len()
        invariant
            i <= wide@.len() <= buffer@.len(),
            wide@ == wide_chars(s@),
            buffer@.len() == old(buffer)@.len(),
            forall|k: int| 0 <= k < i ==> buffer@[k] == wide@[k],
            forall|k: int| i <= k < buffer@.len() ==> buffer@[k] == old(buffer)@[k],
        decreases wide@.len() - i,
    {
        buffer[i] = wide[i];
        i = i + 1;
    }
    assert(buffer@ =~= wide_chars(s@) + old(buffer)@.skip(wide_chars(s@).len() as int));
    Ok(())
}

} // verus!
