//! Geist VPN: profile management, connection state handling and the
//! SoftEther-facing text conversions, with their behaviour stated as contracts.

pub mod bindings;
pub mod cert_prompt;
pub mod commands;
pub mod client;
pub mod error;
pub mod gui;
pub mod hub;
pub mod memory;
pub mod platform;
pub mod profile;
pub mod text;
pub mod ui;
pub mod vpn_manager;

use vstd::prelude::*;

verus! {

/// The library version.
pub const VERSION: &'static str = "0.1.0";

} // verus!
