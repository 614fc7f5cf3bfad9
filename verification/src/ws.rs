//! The decisions of the task that serves one WebSocket client.
use vstd::prelude::*;

use crate::protocol::{ClientCommand, ClientUpdate};

verus! {

/// Errors of the WebSocket tasks.
#[derive(Clone, Copy, Debug, PartialEq, Eq, Structural)]
pub enum WebSocketTaskError {
    UnexpectedError,
}

/// An event seen by the task that serves one WebSocket client.
pub enum WsEvent {
    /// A batch of updates arrived from the controller's side.
    Updates { updates: Vec<ClientUpdate> },
    /// The update channel failed to deliver a batch.
    UpdatesMissed,
    /// Sending a batch to the client failed.
    SendFailed,
    /// The client sent a text message holding this command.
    Command { command: ClientCommand },
    /// The client sent a close message.
    Close,
    /// The client sent a message of another kind.
    OtherMessage,
    /// Receiving failed because the connection is closed.
    ConnectionClosed,
    /// Receiving failed on a protocol violation.
    ProtocolError,
    /// Receiving failed for another reason.
    OtherError,
}

/// What the task does in answer to an event.
pub enum WsAction {
    /// Send this batch of updates to the client.
    SendUpdates { updates: Vec<ClientUpdate> },
    /// Hand this command to the controller's side.
    Forward { command: ClientCommand },
    /// Wait for the next event.
    Continue,
    /// End the task with this result.
    Finish { result: Result<(), WebSocketTaskError> },
    /// Give up: the connection failed in a way the task does not handle.
    Abort,
}

/// Decides the answer to one event: batches go to the client, commands to
/// the controller's side; a failed send ends the task with an error; a close
/// message, a closed connection or a protocol error end it normally; any
/// other receive error aborts it; anything else is passed over.
pub fn handle_websocket_event(event: WsEvent) -> (action: WsAction)
    ensures
        match event {
            WsEvent::Updates { updates } => action matches WsAction::SendUpdates { updates: sent }
                && sent@ == updates@,
            WsEvent::UpdatesMissed => action is Continue,
            WsEvent::SendFailed => action == (WsAction::Finish {
                result: Err(WebSocketTaskError::UnexpectedError),
            }),
            WsEvent::Command { command } => action == (WsAction::Forward { command }),
            WsEvent::Close => action == (WsAction::Finish { result: Ok(()) }),
            WsEvent::OtherMessage => action is Continue,
            WsEvent::ConnectionClosed => action == (WsAction::Finish { result: Ok(()) }),
            WsEvent::ProtocolError => action == (WsAction::Finish { result: Ok(()) }),
            WsEvent::OtherError => action is Abort,
        },
{
    match event {
        WsEvent::Updates { updates } => WsAction::SendUpdates { updates },
        WsEvent::UpdatesMissed => WsAction::Continue,
        WsEvent::SendFailed => WsAction::Finish { result: Err(WebSocketTaskError::UnexpectedError) },
        WsEvent::Command { command } => WsAction::Forward { command },
        WsEvent::Close => WsAction::Finish { result: Ok(()) },
        WsEvent::OtherMessage => WsAction::Continue,
        WsEvent::ConnectionClosed => WsAction::Finish { result: Ok(()) },
        WsEvent::ProtocolError => WsAction::Finish { result: Ok(()) },
        WsEvent::OtherError => WsAction::Abort,
    }
}

} // verus!
