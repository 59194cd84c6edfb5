use vstd::prelude::*;

verus! {

/// The handshake header in which a watching client names itself.
pub const CLIENT_ID_HEADER: &'static str = "x-client-id";

/// A file-system change that a watching client reports for one computer.
#[derive(Debug, Clone, PartialEq, Eq)]
pub enum ClientMessage {
    FileCreated { computer_id: String, path: String, contents: String },
    FileChanged { computer_id: String, path: String, contents: String },
    FileDeleted { computer_id: String, path: String },
}

impl ClientMessage {
    /// The computer that the message is addressed to.
    pub open spec fn addressee(&self) -> Seq<char> {
        match self {
            ClientMessage::FileCreated { computer_id, .. } => computer_id@,
            ClientMessage::FileChanged { computer_id, .. } => computer_id@,
            ClientMessage::FileDeleted { computer_id, .. } => computer_id@,
        }
    }

    /// Returns the id of the computer that the message is addressed to.
    pub fn computer_id(&self) -> (id: &str)
        ensures
            id@ == self.addressee(),
    {
        match self {
            ClientMessage::FileCreated { computer_id, .. } => computer_id.as_str(),
            ClientMessage::FileChanged { computer_id, .. } => computer_id.as_str(),
            ClientMessage::FileDeleted { computer_id, .. } => computer_id.as_str(),
        }
    }
}

} // verus!
