//! Error types for VPN operations.

use vstd::prelude::*;
use crate::text::{append_i64, append_str, signed_decimal, string_of};

verus! {

/// Error types that can occur in VPN operations.
///
/// The payloads of I/O, serialisation and UTF-8 errors are the messages of the
/// errors that produced them.
#[derive(Debug, Clone)]
pub enum Error {
    InitializationFailed { message: String },
    ConnectionFailed { message: String },
    AuthenticationFailed { message: String },
    ProfileError { message: String },
    NetworkError { message: String },
    FfiError { message: String },
    MemoryError { message: String },
    EncodingError { message: String },
    SoftEtherError { code: i32, message: String },
    IoError(String),
    SerializationError(String),
    Utf8Error(String),
    NulError(String),
    Other(String),
}

/// The text that an error displays.
pub open spec fn error_text(e: Error) -> Seq<char> {
    match e {
        Error::InitializationFailed { message } => "Initialization failed: "@ + message@,
        Error::ConnectionFailed { message } => "Connection failed: "@ + message@,
        Error::AuthenticationFailed { message } => "Authentication failed: "@ + message@,
        Error::ProfileError { message } => "Profile error: "@ + message@,
        Error::NetworkError { message } => "Network error: "@ + message@,
        Error::FfiError { message } => "FFI error: "@ + message@,
        Error::MemoryError { message } => "Memory allocation failed: "@ + message@,
        Error::EncodingError { message } => "String encoding error: "@ + message@,
        Error::SoftEtherError { code, message } => "SoftEther error code "@ + signed_decimal(
            code as int,
        ) + ": "@ + message@,
        Error::IoError(m) => "IO error: "@ + m@,
        Error::SerializationError(m) => "Serialization error: "@ + m@,
        Error::Utf8Error(m) => "UTF-8 conversion error: "@ + m@,
        Error::NulError(_) => "Nul byte in string"@,
        Error::Other(m) => "Generic error: "@ + m@,
    }
}

/// The message that SoftEther associates with a non-zero error code.
pub open spec fn softether_message(code: i32) -> Seq<char> {
    if code == 1 { "Connection to the server has failed"@ }
    else if code == 2 { "The destination server is not a VPN server"@ }
    else if code == 3 { "The connection has been interrupted"@ }
    else if code == 4 { "Protocol error"@ }
    else if code == 5 { "Connecting client is not a VPN client"@ }
    else if code == 6 { "User cancel"@ }
    else if code == 7 { "Specified authentication method is not supported"@ }
    else if code == 8 { "The HUB does not exist"@ }
    else if code == 9 { "Authentication failure"@ }
    else if code == 10 { "HUB is stopped"@ }
    else if code == 11 { "Session has been deleted"@ }
    else if code == 12 { "Access denied"@ }
    else if code == 13 { "Session times out"@ }
    else if code == 14 { "Protocol is invalid"@ }
    else if code == 15 { "Too many connections"@ }
    else if code == 16 { "Too many sessions of the HUB"@ }
    else if code == 17 { "Connection to the proxy server fails"@ }
    else if code == 18 { "Proxy Error"@ }
    else if code == 19 { "Failed to authenticate on the proxy server"@ }
    else if code == 20 { "Too many sessions of the same user"@ }
    else if code == 21 { "License error"@ }
    else if code == 22 { "Device driver error"@ }
    else if code == 23 { "Internal error"@ }
    else if code == 24 { "The secure device cannot be opened"@ }
    else if code == 25 { "PIN code is incorrect"@ }
    else if code == 26 { "Specified certificate is not stored"@ }
    else if code == 27 { "Specified private key is not stored"@ }
    else if code == 28 { "Write failure"@ }
    else if code == 29 { "Specified object can not be found"@ }
    else if code == 30 { "Virtual LAN card with the specified name already exists"@ }
    else if code == 31 { "Specified virtual LAN card cannot be created"@ }
    else if code == 32 { "Specified name of the virtual LAN card is invalid"@ }
    else if code == 33 { "Unsupported"@ }
    else if code == 34 { "Account already exists"@ }
    else if code == 35 { "Account is operating"@ }
    else if code == 36 { "Specified account doesn't exist"@ }
    else if code == 37 { "Account is offline"@ }
    else if code == 38 { "Parameter is invalid"@ }
    else if code == 39 { "Error has occurred in the operation of the secure device"@ }
    else if code == 40 { "Secure device is not specified"@ }
    else if code == 41 { "Virtual LAN card in use by account"@ }
    else if code == 42 { "Virtual LAN card of the account can not be found"@ }
    else if code == 43 { "Virtual LAN card of the account is already in use"@ }
    else if code == 44 { "Virtual LAN card of the account is disabled"@ }
    else if code == 45 { "Value is invalid"@ }
    else if code == 46 { "Not a farm controller"@ }
    else if code == 47 { "Attempting to connect"@ }
    else if code == 48 { "Failed to connect to the farm controller"@ }
    else { "Unknown error"@ }
}

fn softether_message_str(code: i32) -> (m: &'static str)
    requires
        code != 0,
    ensures
        m@ == softether_message(code),
{
    match code {
        1 => "Connection to the server has failed",
        2 => "The destination server is not a VPN server",
        3 => "The connection has been interrupted",
        4 => "Protocol error",
        5 => "Connecting client is not a VPN client",
        6 => "User cancel",
        7 => "Specified authentication method is not supported",
        8 => "The HUB does not exist",
        9 => "Authentication failure",
        19 => "Failed to authenticate on the proxy server",
        10 => "HUB is stopped",
        11 => "Session has been deleted",
        12 => "Access denied",
        13 => "Session times out",
        14 => "Protocol is invalid",
        15 => "Too many connections",
        16 => "Too many sessions of the HUB",
        20 => "Too many sessions of the same user",
        17 => "Connection to the proxy server fails",
        18 => "Proxy Error",
        21 => "License error",
        22 => "Device driver error",
        23 => "Internal error",
        24 => "The secure device cannot be opened",
        25 => "PIN code is incorrect",
        26 => "Specified certificate is not stored",
        27 => "Specified private key is not stored",
        28 => "Write failure",
        39 => "Error has occurred in the operation of the secure device",
        40 => "Secure device is not specified",
        29 => "Specified object can not be found",
        34 => "Account already exists",
        35 => "Account is operating",
        36 => "Specified account doesn't exist",
        37 => "Account is offline",
        30 => "Virtual LAN card with the specified name already exists",
        31 => "Specified virtual LAN card cannot be created",
        32 => "Specified name of the virtual LAN card is invalid",
        41 => "Virtual LAN card in use by account",
        42 => "Virtual LAN card of the account can not be found",
        43 => "Virtual LAN card of the account is already in use",
        44 => "Virtual LAN card of the account is disabled",
        38 => "Parameter is invalid",
        45 => "Value is invalid",
        46 => "Not a farm controller",
        47 => "Attempting to connect",
        48 => "Failed to connect to the farm controller",
        33 => "Unsupported",
        _ => "Unknown error",
    }
}

impl Error {
    /// Create a new generic error.
    pub fn new(message: &str) -> (e: Error)
        ensures
            e matches Error::Other(m) && m@ == message@,
    {
        Error::Other(string_of(message))
    }

    /// Create an FFI error with the given message.
    pub fn ffi_error(message: &str) -> (e: Error)
        ensures
            e matches Error::FfiError { message: m } && m@ == message@,
    {
        Error::FfiError { message: string_of(message) }
    }

    /// Create a connection error with the given message.
    pub fn connection_error(message: &str) -> (e: Error)
        ensures
            e matches Error::ConnectionFailed { message: m } && m@ == message@,
    {
        Error::ConnectionFailed { message: string_of(message) }
    }

    /// Convert from a non-zero SoftEtherVPN error code.
    ///
    /// Code 0 means success and makes no error.
    pub fn from_softether_error(code: i32) -> (e: Error)
        requires
            code != 0,
        ensures
            e matches Error::SoftEtherError { code: c, message: m } && c == code && m@
                == softether_message(code),
    {
        Error::SoftEtherError { code, message: string_of(softether_message_str(code)) }
    }

    /// Create a memory allocation error.
    pub fn memory_error(message: &str) -> (e: Error)
        ensures
            e matches Error::MemoryError { message: m } && m@ == message@,
    {
        Error::MemoryError { message: string_of(message) }
    }

    /// Create a string encoding error.
    pub fn encoding_error(message: &str) -> (e: Error)
        ensures
            e matches Error::EncodingError { message: m } && m@ == message@,
    {
        Error::EncodingError { message: string_of(message) }
    }

    /// The text that the error displays.
    pub fn to_string(&self) -> (s: String)
        ensures
            s@ == error_text(*self),
    {
        match self {
            Error::InitializationFailed { message } => prefixed("Initialization failed: ", message),
            Error::ConnectionFailed { message } => prefixed("Connection failed: ", message),
            Error::AuthenticationFailed { message } => prefixed("Authentication failed: ", message),
            Error::ProfileError { message } => prefixed("Profile error: ", message),
            Error::NetworkError { message } => prefixed("Network error: ", message),
            Error::FfiError { message } => prefixed("FFI error: ", message),
            Error::MemoryError { message } => prefixed("Memory allocation failed: ", message),
            Error::EncodingError { message } => prefixed("String encoding error: ", message),
            Error::SoftEtherError { code, message } => {
                let mut s = string_of("SoftEther error code ");
                append_i64(&mut s, *code as i64);
                append_str(&mut s, ": ");
                append_str(&mut s, message.as_str());
                s
            },
            Error::IoError(m) => prefixed("IO error: ", m),
            Error::SerializationError(m) => prefixed("Serialization error: ", m),
            Error::Utf8Error(m) => prefixed("UTF-8 conversion error: ", m),
            Error::NulError(_) => string_of("Nul byte in string"),
            Error::Other(m) => prefixed("Generic error: ", m),
        }
    }
}

fn prefixed(prefix: &str, message: &String) -> (s: String)
    ensures
        s@ == prefix@ + message@,
{
    let mut s = string_of(prefix);
    append_str(&mut s, message.as_str());
    s
}

} // verus!
