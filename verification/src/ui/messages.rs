//! What the front end is told: the user's actions and what came of the work
//! they started.

use crate::backend::types::TunnelId;
use vstd::prelude::*;

verus! {

/// The user's actions on the list of entries.
#[derive(Debug, Clone, Copy, PartialEq, Eq, Structural)]
pub enum TunnelListMessage {
    AddTunnel,
    EditTunnel(TunnelId),
    DeleteTunnel(TunnelId),
    StartTunnel(TunnelId),
    StopTunnel(TunnelId),
    OpenLogs(TunnelId),
    Refresh,
    DismissError,
}

/// The user's actions on the screen that edits an entry, and the outcome of
/// a save: the identifier of the entry saved, or why it was not saved.
#[derive(Debug)]
pub enum EditTunnelMessage {
    TagChanged(String),
    CliArgsChanged(String),
    AutostartToggled(bool),
    Save,
    Cancel,
    SaveCompleted(Result<TunnelId, String>),
}

impl Clone for EditTunnelMessage {
    fn clone(&self) -> (copy: Self)
        ensures
            copy == *self,
    {
        match self {
            EditTunnelMessage::TagChanged(tag) => EditTunnelMessage::TagChanged(tag.clone()),
            EditTunnelMessage::CliArgsChanged(args) => EditTunnelMessage::CliArgsChanged(
                args.clone(),
            ),
            EditTunnelMessage::AutostartToggled(checked) => EditTunnelMessage::AutostartToggled(
                *checked,
            ),
            EditTunnelMessage::Save => EditTunnelMessage::Save,
            EditTunnelMessage::Cancel => EditTunnelMessage::Cancel,
            EditTunnelMessage::SaveCompleted(result) => EditTunnelMessage::SaveCompleted(
                match result {
                    Ok(id) => Ok(*id),
                    Err(error) => Err(error.clone()),
                },
            ),
        }
    }
}

/// The user's answer to whether an entry is to be deleted.
#[derive(Debug, Clone, Copy, PartialEq, Eq, Structural)]
pub enum ConfirmDeleteMessage {
    Confirm,
    Cancel,
}

/// Everything the front end is told.
#[derive(Debug)]
pub enum Message {
    TunnelList(TunnelListMessage),
    EditTunnel(EditTunnelMessage),
    ConfirmDelete(ConfirmDeleteMessage),
    /// The process of an entry was started or stopped.
    ProcessStatusChanged { id: TunnelId },
    /// Another configuration is in force.
    ConfigReloaded,
    /// Something went wrong.
    Error(String),
}

impl Clone for Message {
    fn clone(&self) -> (copy: Self)
        ensures
            copy == *self,
    {
        match self {
            Message::TunnelList(message) => Message::TunnelList(*message),
            Message::EditTunnel(message) => Message::EditTunnel(message.clone()),
            Message::ConfirmDelete(message) => Message::ConfirmDelete(*message),
            Message::ProcessStatusChanged { id } => Message::ProcessStatusChanged { id: *id },
            Message::ConfigReloaded => Message::ConfigReloaded,
            Message::Error(error) => Message::Error(error.clone()),
        }
    }
}

} // verus!
