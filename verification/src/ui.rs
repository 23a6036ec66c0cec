//! What the user interface shows and edits, apart from drawing it: the profile
//! form, the labels and selections of each panel, and the events the interface
//! is told about.

pub mod certificate;
pub mod header;
pub mod modal;
pub mod profiles;
pub mod quick_connect;

use vstd::prelude::*;
use crate::error::Error;

verus! {

/// Initialize the UI components.
pub fn init_ui() -> (r: Result<(), Error>)
    ensures
        r is Ok,
{
    Ok(())
}

/// UI event types.
#[derive(Debug)]
pub enum UiEvent {
    /// Connection status changed
    ConnectionStatusChanged { connected: bool },
    /// Profile list updated
    ProfilesUpdated,
    /// Error occurred
    Error { message: String },
}

/// Send an event to the UI: it is queued, after the events already waiting, in
/// the outbox that the front end drains.
pub fn send_ui_event(outbox: &mut Vec<UiEvent>, event: UiEvent)
    ensures
        final(outbox)@ == old(outbox)@.push(event),
{
    outbox.push(event);
}

} // verus!
