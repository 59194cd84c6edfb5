//! What a watching client does with a change on disk, and with each event
//! of its main loop.
use vstd::prelude::*;
use crate::protocol::ClientMessage;

verus! {

/// The kind of a file-system change, as the watcher reports it.
#[derive(Debug, Clone, Copy, PartialEq, Eq)]
pub enum FsEventKind {
    Create,
    Modify,
    Remove,
    /// Access, metadata-only and unknown changes.
    Other,
}

/// Whether reporting a change of this kind takes the file's contents.
pub open spec fn reads_contents(kind: FsEventKind) -> bool {
    kind == FsEventKind::Create || kind == FsEventKind::Modify
}

/// Tells whether the file's contents must be read to report a change.
pub fn needs_contents(kind: FsEventKind) -> (r: bool)
    ensures
        r == reads_contents(kind),
{
    match kind {
        FsEventKind::Create | FsEventKind::Modify => true,
        FsEventKind::Remove | FsEventKind::Other => false,
    }
}

/// The message that reports a change of `kind` at `path` for
/// `computer_id`, given the file's contents where they could be read.
/// Creations and modifications whose contents could not be read, and other
/// kinds of change, are not reported.
pub open spec fn update_for(
    kind: FsEventKind,
    computer_id: String,
    path: String,
    contents: Option<String>,
) -> Option<ClientMessage> {
    match kind {
        FsEventKind::Create => match contents {
            Some(c) => Some(ClientMessage::FileCreated { computer_id, path, contents: c }),
            None => None,
        },
        FsEventKind::Modify => match contents {
            Some(c) => Some(ClientMessage::FileChanged { computer_id, path, contents: c }),
            None => None,
        },
        FsEventKind::Remove => Some(ClientMessage::FileDeleted { computer_id, path }),
        FsEventKind::Other => None,
    }
}

/// Builds the message that reports a change on disk.
pub fn update_message(
    kind: FsEventKind,
    computer_id: String,
    path: String,
    contents: Option<String>,
) -> (message: Option<ClientMessage>)
    ensures
        message == update_for(kind, computer_id, path, contents),
{
    match kind {
        FsEventKind::Create => match contents {
            Some(c) => Some(ClientMessage::FileCreated { computer_id, path, contents: c }),
            None => None,
        },
        FsEventKind::Modify => match contents {
            Some(c) => Some(ClientMessage::FileChanged { computer_id, path, contents: c }),
            None => None,
        },
        FsEventKind::Remove => Some(ClientMessage::FileDeleted { computer_id, path }),
        FsEventKind::Other => None,
    }
}

/// A reported change is addressed to the computer it was found for; only
/// removals, and creations or changes whose contents were read, are
/// reported.
pub proof fn lemma_update_addressed_to_target(
    kind: FsEventKind,
    computer_id: String,
    path: String,
    contents: Option<String>,
)
    ensures
        update_for(kind, computer_id, path, contents) matches Some(m) ==> m.addressee()
            == computer_id@,
        update_for(kind, computer_id, path, contents) is Some <==> (kind == FsEventKind::Remove
            || (reads_contents(kind) && contents is Some)),
{
}

/// A creation is reported as a created file and a modification as a
/// changed file, each with the addressee, the path and the contents read,
/// unchanged; a removal is reported as a deleted file with the addressee and
/// the path, whatever contents were passed.
pub proof fn lemma_update_reports_the_change(
    kind: FsEventKind,
    computer_id: String,
    path: String,
    contents: Option<String>,
)
    ensures
        kind == FsEventKind::Create && contents is Some ==> (update_for(
            kind,
            computer_id,
            path,
            contents,
        ) matches Some(ClientMessage::FileCreated { computer_id: i, path: p, contents: c }) && i
            == computer_id && p == path && contents == Some(c)),
        kind == FsEventKind::Modify && contents is Some ==> (update_for(
            kind,
            computer_id,
            path,
            contents,
        ) matches Some(ClientMessage::FileChanged { computer_id: i, path: p, contents: c }) && i
            == computer_id && p == path && contents == Some(c)),
        kind == FsEventKind::Remove ==> (update_for(kind, computer_id, path, contents) matches Some(
            ClientMessage::FileDeleted { computer_id: i, path: p },
        ) && i == computer_id && p == path),
{
}

/// An event of the client's main loop.
#[derive(Debug, Clone, Copy, PartialEq, Eq)]
pub enum ClientEvent {
    /// The watcher reported a change.
    FsChange,
    /// The watcher reported an error.
    FsError,
    /// The relay sent a close frame.
    WsClosed,
    /// Reading from the relay failed.
    WsFailed,
    /// The relay sent some other frame.
    WsMessage,
    /// The user interrupted the client.
    Interrupted,
}

/// What the client's main loop does next.
#[derive(Debug, Clone, Copy, PartialEq, Eq)]
pub enum ClientAction {
    /// Report the change to the relay.
    SendUpdate,
    /// Print the watcher's error and go on.
    ReportWatchError,
    /// Print what the relay sent and go on.
    ReportReceived,
    /// Leave the loop: the connection was lost.
    ConnectionLost,
    /// Close the connection, then leave the loop.
    Shutdown,
}

/// The action for each event of the client's main loop.
pub open spec fn spec_client_action(event: ClientEvent) -> ClientAction {
    match event {
        ClientEvent::FsChange => ClientAction::SendUpdate,
        ClientEvent::FsError => ClientAction::ReportWatchError,
        ClientEvent::WsClosed => ClientAction::ConnectionLost,
        ClientEvent::WsFailed => ClientAction::ConnectionLost,
        ClientEvent::WsMessage => ClientAction::ReportReceived,
        ClientEvent::Interrupted => ClientAction::Shutdown,
    }
}

/// Decides what the client's main loop does with `event`.
pub fn client_action(event: ClientEvent) -> (action: ClientAction)
    ensures
        action == spec_client_action(event),
{
    match event {
        ClientEvent::FsChange => ClientAction::SendUpdate,
        ClientEvent::FsError => ClientAction::ReportWatchError,
        ClientEvent::WsClosed => ClientAction::ConnectionLost,
        ClientEvent::WsFailed => ClientAction::ConnectionLost,
        ClientEvent::WsMessage => ClientAction::ReportReceived,
        ClientEvent::Interrupted => ClientAction::Shutdown,
    }
}

} // verus!
