//! The window header: the application's title and the status indicator.

use vstd::prelude::*;
use crate::gui::ConnectionStatus;
use crate::text::{seq_contains, str_contains};

verus! {

/// The colour class of the status indicator.
#[derive(Debug, Clone, Copy, PartialEq, Eq, Structural)]
pub enum StatusIndicator {
    /// Green: connected.
    Connected,
    /// Orange: a connection is being made.
    Connecting,
    /// Red: something went wrong.
    Failed,
    /// Grey: nothing is going on.
    Idle,
}

/// The indicator for a status: connected, else by what the status message says.
pub open spec fn indicator_of(connected: bool, message: Seq<char>) -> StatusIndicator {
    if connected {
        StatusIndicator::Connected
    } else if seq_contains(message, "Connecting"@) {
        StatusIndicator::Connecting
    } else if seq_contains(message, "Error"@) {
        StatusIndicator::Failed
    } else {
        StatusIndicator::Idle
    }
}

/// The indicator for a status.
pub fn status_indicator(status: &ConnectionStatus) -> (i: StatusIndicator)
    ensures
        i == indicator_of(status.connected, status.status_message@),
{
    if status.connected {
        StatusIndicator::Connected
    } else if str_contains(status.status_message.as_str(), "Connecting") {
        StatusIndicator::Connecting
    } else if str_contains(status.status_message.as_str(), "Error") {
        StatusIndicator::Failed
    } else {
        StatusIndicator::Idle
    }
}

} // verus!
