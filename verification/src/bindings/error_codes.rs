//! SoftEther VPN error codes.

use vstd::prelude::*;

verus! {

pub const ERR_NO_ERROR: u32 = 0;
pub const ERR_CONNECT_FAILED: u32 = 1;
pub const ERR_SERVER_IS_NOT_VPN: u32 = 2;
pub const ERR_DISCONNECTED: u32 = 3;
pub const ERR_PROTOCOL_ERROR: u32 = 4;
pub const ERR_CLIENT_IS_NOT_VPN: u32 = 5;
pub const ERR_USER_CANCEL: u32 = 6;
pub const ERR_AUTHTYPE_NOT_SUPPORTED: u32 = 7;
pub const ERR_HUB_NOT_FOUND: u32 = 8;
pub const ERR_AUTH_FAILED: u32 = 9;
pub const ERR_HUB_STOPPING: u32 = 10;
pub const ERR_SESSION_REMOVED: u32 = 11;
pub const ERR_ACCESS_DENIED: u32 = 12;
pub const ERR_SESSION_TIMEOUT: u32 = 13;
pub const ERR_INVALID_PROTOCOL: u32 = 14;
pub const ERR_TOO_MANY_CONNECTION: u32 = 15;
pub const ERR_HUB_IS_BUSY: u32 = 16;
pub const ERR_PROXY_CONNECT_FAILED: u32 = 17;
pub const ERR_PROXY_ERROR: u32 = 18;
pub const ERR_PROXY_AUTH_FAILED: u32 = 19;
pub const ERR_VLAN_ALREADY_EXISTS: u32 = 30;
pub const ERR_VLAN_INSTALL_ERROR: u32 = 31;
pub const ERR_VLAN_INVALID_NAME: u32 = 32;
pub const ERR_NOT_SUPPORTED: u32 = 33;
pub const ERR_ACCOUNT_ALREADY_EXISTS: u32 = 34;
pub const ERR_ACCOUNT_ACTIVE: u32 = 35;
pub const ERR_ACCOUNT_NOT_FOUND: u32 = 36;
pub const ERR_ACCOUNT_INACTIVE: u32 = 37;
pub const ERR_INVALID_PARAMETER: u32 = 38;
pub const ERR_SECURE_DEVICE_ERROR: u32 = 39;

} // verus!
