//! Enumerating the Virtual Hubs of a SoftEther server: checking the target,
//! preparing the RPC session's options, and collecting the names the server
//! returns. The RPC calls themselves are made by the application.

use vstd::prelude::*;
use crate::bindings::{
    all_zero_u8, is_zeroed, to_wide_string, wide_chars, CLIENT_OPTION, MAX_HOST_NAME_LEN, PROXY_DIRECT, UINT,
};
use crate::error::Error;
use crate::text::{append_str, append_u64, copy_string, decimal, is_blank, string_of, trim, trim_str};

verus! {

/// The message of the profile error that a hub-enumeration target draws, if any.
pub open spec fn hub_target_error(host: Seq<char>, port: u16) -> Option<Seq<char>> {
    if trim(host).len() == 0 {
        Some("Server host is required to fetch Virtual Hub names"@)
    } else if port == 0 {
        Some("Server port must be greater than zero"@)
    } else {
        None
    }
}

/// Checks that a server can be asked for its Virtual Hubs: the host must not be
/// blank and the port must not be zero.
pub fn check_hub_target(host: &str, port: u16) -> (r: Result<(), Error>)
    ensures
        match hub_target_error(host@, port) {
            Some(m) => r matches Err(Error::ProfileError { message }) && message@ == m,
            None => r is Ok,
        },
{
    if is_blank(host) {
        return Err(Error::ProfileError {
            message: string_of("Server host is required to fetch Virtual Hub names"),
        });
    }
    if port == 0 {
        return Err(Error::ProfileError {
            message: string_of("Server port must be greater than zero"),
        });
    }
    Ok(())
}

/// The UTF-8 bytes of the trimmed value.
pub open spec fn trimmed_bytes(value: Seq<char>) -> Seq<u8> {
    vstd::utf8::encode_utf8(trim(value))
}

/// The buffer that holds `bytes` followed by zeros up to `len` elements.
pub open spec fn zero_padded(bytes: Seq<u8>, len: nat) -> Seq<u8> {
    bytes + Seq::new((len - bytes.len()) as nat, |i: int| 0u8)
}

/// Writes the trimmed value's UTF-8 bytes into a C string buffer, zeroing the
/// rest of it. Fails, leaving the buffer as it was, when the bytes are more than
/// `max_len`.
pub fn write_c_string(buffer: &mut [u8], value: &str, max_len: usize) -> (r: Result<(), Error>)
    requires
        trimmed_bytes(value@).len() <= max_len ==> trimmed_bytes(value@).len() <= old(buffer)@.len(),
    ensures
        trimmed_bytes(value@).len() > max_len ==> final(buffer)@ == old(buffer)@ && (r matches Err(
            Error::ProfileError { message },
        ) && message@ == "Value '"@ + trim(value@) + "' exceeds maximum length "@ + decimal(
            max_len as nat,
        )),
        trimmed_bytes(value@).len() <= max_len ==> r is Ok && final(buffer)@ == zero_padded(
            trimmed_bytes(value@),
            old(buffer)@.len(),
        ),
{
    let trimmed = trim_str(value);
    let bytes = trimmed.as_str().as_bytes();
    if bytes.len() > max_len {
        let mut message = string_of("Value '");
        append_str(&mut message, trimmed.as_str());
        append_str(&mut message, "' exceeds maximum length ");
        append_u64(&mut message, max_len as u64);
        return Err(Error::ProfileError { message });
    }
    let n = buffer.len();
    let mut i: usize = 0;
    while i < n
        invariant
            i <= n,
            buffer@.len() == n,
            bytes@.len() <= n,
            forall|k: int| 0 <= k < i ==> buffer@[k] == (if k < bytes@.len() { bytes@[k] } else { 0u8 }),
        decreases n - i,
    {
        if i < bytes.len() {
            buffer[i] = bytes[i];
        } else {
            buffer[i] = 0;
        }
        i = i + 1;
    }
    assert(buffer@ =~= zero_padded(bytes@, n as nat));
    Ok(())
}

/// The account name under which Virtual Hubs are enumerated.
pub open spec fn hub_account_name() -> Seq<char> {
    "geist-hub-enum"@
}

/// The options that `prepare_client_option` sets for a host and port, over the
/// options it started from.
pub open spec fn hub_options_prepared(o: CLIENT_OPTION, before: CLIENT_OPTION, host: Seq<char>, port: u16) -> bool {
    &&& o.AccountName@ == wide_chars(hub_account_name()) + before.AccountName@.skip(
        wide_chars(hub_account_name()).len() as int,
    )
    &&& o.Hostname@ == zero_padded(trimmed_bytes(host), 256)
    &&& o.Port == port as u32
    &&& o.PortUDP == 0 && o.ProxyType == PROXY_DIRECT && o.ProxyPort == 0
    &&& o.NumRetry == 1 && o.RetryInterval == 1 && o.MaxConnection == 1
    &&& o.UseEncrypt && o.UseCompress && o.NoRoutingTracking
    &&& o.HideStatusWindow && o.HideNicInfoWindow
    &&& o.AdditionalConnectionInterval == 1 && o.ConnectionDisconnectSpan == 0
    &&& !o.NoUdpAcceleration && !o.RequireMonitorMode && !o.RequireBridgeRoutingMode
    &&& !o.DisableQoS && !o.FromAdminPack && !o.HalfConnection
    &&& o.ProxyName == before.ProxyName && o.ProxyUsername == before.ProxyUsername
    &&& o.ProxyPassword == before.ProxyPassword && o.HubName == before.HubName
    &&& o.DeviceName == before.DeviceName && o.HostUniqueKey == before.HostUniqueKey
    &&& o.CustomHttpHeader == before.CustomHttpHeader && o.HintStr == before.HintStr
    &&& o.BindLocalIP == before.BindLocalIP && o.BindLocalPort == before.BindLocalPort
}

/// The options of a hub-enumeration session for `host` and `port`: those that
/// `prepare_client_option` sets, all others zero.
pub open spec fn hub_session_fields(o: CLIENT_OPTION, host: Seq<char>, port: u16) -> bool {
    &&& o.AccountName@ == wide_chars(hub_account_name()) + Seq::new(
        (128 - wide_chars(hub_account_name()).len()) as nat,
        |i: int| 0u16,
    )
    &&& o.Hostname@ == zero_padded(trimmed_bytes(host), 256)
    &&& o.Port == port as u32
    &&& o.PortUDP == 0 && o.ProxyType == PROXY_DIRECT && o.ProxyPort == 0
    &&& o.NumRetry == 1 && o.RetryInterval == 1 && o.MaxConnection == 1
    &&& o.UseEncrypt && o.UseCompress && o.NoRoutingTracking
    &&& o.HideStatusWindow && o.HideNicInfoWindow
    &&& o.AdditionalConnectionInterval == 1 && o.ConnectionDisconnectSpan == 0
    &&& !o.NoUdpAcceleration && !o.RequireMonitorMode && !o.RequireBridgeRoutingMode
    &&& !o.DisableQoS && !o.FromAdminPack && !o.HalfConnection
    &&& all_zero_u8(o.ProxyName@) && all_zero_u8(o.ProxyUsername@) && all_zero_u8(o.ProxyPassword@)
    &&& all_zero_u8(o.HubName@) && all_zero_u8(o.DeviceName@) && all_zero_u8(o.HostUniqueKey@)
    &&& all_zero_u8(o.CustomHttpHeader@) && all_zero_u8(o.HintStr@)
    &&& all_zero_u8(o.BindLocalIP.address@) && o.BindLocalIP.ipv6_scope_id == 0
    &&& o.BindLocalPort == 0
}

proof fn lemma_hub_account_name_fits()
    ensures
        wide_chars(hub_account_name()).len() <= 128,
{
    reveal_strlit("geist-hub-enum");
    reveal_with_fuel(crate::text::utf16_encode, 15);
}

proof fn lemma_prepared_from_zero(o: CLIENT_OPTION, z: CLIENT_OPTION, host: Seq<char>, port: u16)
    requires
        is_zeroed(z),
        hub_options_prepared(o, z, host, port),
    ensures
        hub_session_fields(o, host, port),
{
    let w = wide_chars(hub_account_name());
    lemma_hub_account_name_fits();
    assert(z.AccountName@.len() == 128);
    assert(z.AccountName@.skip(w.len() as int) =~= Seq::new((128 - w.len()) as nat, |i: int| 0u16));
}

/// Fills the options of a hub-enumeration session for `host` and `port`: a
/// direct, encrypted, single-connection session under the enumeration account.
/// Fails when the trimmed host is longer than a SoftEther host name may be.
pub fn prepare_client_option(option: &mut CLIENT_OPTION, host: &str, port: u16) -> (r: Result<(), Error>)
    ensures
        trimmed_bytes(host@).len() <= MAX_HOST_NAME_LEN <==> r is Ok,
        r is Ok ==> hub_options_prepared(*final(option), *old(option), host@, port),
        r matches Err(e) ==> e matches Error::ProfileError { message } && message@ == "Value '"@ + trim(
            host@,
        ) + "' exceeds maximum length "@ + decimal(MAX_HOST_NAME_LEN as nat),
{
    let name = "geist-hub-enum";
    proof {
        reveal_strlit("geist-hub-enum");
    }
    proof {
        lemma_hub_account_name_fits();
    }
    match to_wide_string(name, &mut option.AccountName) {
        Ok(()) => {},
        Err(m) => {
            let mut message = string_of("Failed to encode account name: ");
            append_str(&mut message, m.as_str());
            return Err(Error::EncodingError { message });
        },
    }
    match write_c_string(&mut option.Hostname, host, MAX_HOST_NAME_LEN) {
        Ok(()) => {},
        Err(e) => {
            return Err(e);
        },
    }
    option.Port = port as UINT;
    option.PortUDP = 0;
    option.ProxyType = PROXY_DIRECT;
    option.ProxyPort = 0;
    option.NumRetry = 1;
    option.RetryInterval = 1;
    option.MaxConnection = 1;
    option.UseEncrypt = true;
    option.UseCompress = true;
    option.NoRoutingTracking = true;
    option.HideStatusWindow = true;
    option.HideNicInfoWindow = true;
    option.AdditionalConnectionInterval = 1;
    option.ConnectionDisconnectSpan = 0;
    option.NoUdpAcceleration = false;
    option.RequireMonitorMode = false;
    option.RequireBridgeRoutingMode = false;
    option.DisableQoS = false;
    option.FromAdminPack = false;
    option.HalfConnection = false;
    Ok(())
}

/// The options of a session that enumerates the Virtual Hubs of `host:port`, or
/// the error that the target or the host name draws.
pub fn hub_session_options(host: &str, port: u16) -> (r: Result<CLIENT_OPTION, Error>)
    ensures
        r is Ok <==> hub_target_error(host@, port) is None && trimmed_bytes(host@).len()
            <= MAX_HOST_NAME_LEN,
        r matches Ok(o) ==> hub_session_fields(o, host@, port),
        hub_target_error(host@, port) matches Some(m) ==> r matches Err(Error::ProfileError { message })
            && message@ == m,
        hub_target_error(host@, port) is None && trimmed_bytes(host@).len() > MAX_HOST_NAME_LEN ==> (r matches Err(
            Error::ProfileError { message },
        ) && message@ == "Value '"@ + trim(host@) + "' exceeds maximum length "@ + decimal(
            MAX_HOST_NAME_LEN as nat,
        )),
{
    match check_hub_target(host, port) {
        Ok(()) => {},
        Err(e) => {
            return Err(e);
        },
    }
    let mut option = CLIENT_OPTION::default();
    let ghost zero = option;
    match prepare_client_option(&mut option, host, port) {
        Ok(()) => {},
        Err(e) => {
            return Err(e);
        },
    }
    proof {
        lemma_prepared_from_zero(option, zero, host@, port);
    }
    Ok(option)
}

/// The non-empty names among the entries of a hub list, in order; entries the
/// server left unset are skipped.
pub open spec fn hub_names(entries: Seq<Option<String>>) -> Seq<Seq<char>>
    decreases entries.len(),
{
    if entries.len() == 0 {
        Seq::empty()
    } else {
        let rest = hub_names(entries.drop_last());
        match entries.last() {
            Some(name) => if name@.len() > 0 { rest.push(name@) } else { rest },
            None => rest,
        }
    }
}

/// Collects the non-empty names of a hub list, in order.
pub fn collect_hub_names(entries: Vec<Option<String>>) -> (r: Vec<String>)
    ensures
        r@.map_values(|s: String| s@) == hub_names(entries@),
{
    let mut hubs: Vec<String> = Vec::new();
    let n = entries.len();
    let mut i: usize = 0;
    while i < n
        invariant
            i <= n,
            n == entries@.len(),
            hubs@.map_values(|s: String| s@) == hub_names(entries@.take(i as int)),
        decreases n - i,
    {
        assert(entries@.take(i + 1).drop_last() =~= entries@.take(i as int));
        match &entries[i] {
            Some(name) => {
                if !name.as_str().is_empty() {
                    let copy = copy_string(name);
                    hubs.push(copy);
                    assert(hubs@.map_values(|s: String| s@) =~= hub_names(entries@.take(i as int)).push(
                        name@,
                    ));
                }
            },
            None => {},
        }
        i = i + 1;
    }
    assert(entries@.take(n as int) =~= entries@);
    hubs
}

} // verus!
