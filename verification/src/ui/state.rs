//! The screens of the front end and what each of them holds.

use crate::backend::types::TunnelId;
use crate::text::{optional_text, texts};
use vstd::prelude::*;

verus! {

/// The list of entries, with the error to show, if any.
#[derive(Debug, Clone)]
pub struct TunnelListState {
    pub error_message: Option<String>,
}

impl Default for TunnelListState {
    fn default() -> (state: Self)
        ensures
            state.error_message is None,
    {
        TunnelListState { error_message: None }
    }
}

/// Whether the edit screen makes a new entry or changes one.
#[derive(Debug, Clone, Copy, PartialEq, Eq, Structural)]
pub enum EditMode {
    Create,
    Edit { id: TunnelId },
}

/// The inputs of the screen that edits an entry.
#[derive(Debug, Clone)]
pub struct EditTunnelState {
    pub mode: EditMode,
    pub tag_input: String,
    pub cli_args_input: String,
    pub autostart_checkbox: bool,
    pub validation_errors: Vec<String>,
}

impl EditTunnelState {
    /// The screen for a new entry, with empty inputs.
    pub fn new_create() -> (state: Self)
        ensures
            state.mode == EditMode::Create,
            state.tag_input@.len() == 0,
            state.cli_args_input@.len() == 0,
            !state.autostart_checkbox,
            state.validation_errors@.len() == 0,
    {
        EditTunnelState {
            mode: EditMode::Create,
            tag_input: String::new(),
            cli_args_input: String::new(),
            autostart_checkbox: false,
            validation_errors: Vec::new(),
        }
    }

    /// The screen for changing entry `id`, with the entry's values as inputs.
    pub fn new_edit(id: TunnelId, tag: String, cli_args: String, autostart: bool) -> (state: Self)
        ensures
            state.mode == (EditMode::Edit { id }),
            state.tag_input == tag,
            state.cli_args_input == cli_args,
            state.autostart_checkbox == autostart,
            state.validation_errors@.len() == 0,
    {
        EditTunnelState {
            mode: EditMode::Edit { id },
            tag_input: tag,
            cli_args_input: cli_args,
            autostart_checkbox: autostart,
            validation_errors: Vec::new(),
        }
    }
}

/// The entry that the user is asked about before it is deleted.
#[derive(Debug, Clone)]
pub struct ConfirmDeleteState {
    pub tunnel_id: TunnelId,
    pub tunnel_name: String,
}

impl ConfirmDeleteState {
    /// The question whether to delete entry `tunnel_id`, named `tunnel_name`.
    pub fn new(tunnel_id: TunnelId, tunnel_name: String) -> (state: Self)
        ensures
            state.tunnel_id == tunnel_id,
            state.tunnel_name == tunnel_name,
    {
        ConfirmDeleteState { tunnel_id, tunnel_name }
    }
}

/// The screen that is shown.
#[derive(Debug, Clone)]
pub enum Screen {
    TunnelList(TunnelListState),
    EditTunnel(EditTunnelState),
    ConfirmDelete(ConfirmDeleteState),
}

/// What a screen shows, as plain values.
pub enum ScreenView {
    TunnelList { error_message: Option<Seq<char>> },
    EditTunnel {
        mode: EditMode,
        tag_input: Seq<char>,
        cli_args_input: Seq<char>,
        autostart_checkbox: bool,
        validation_errors: Seq<Seq<char>>,
    },
    ConfirmDelete { tunnel_id: TunnelId, tunnel_name: Seq<char> },
}

impl View for Screen {
    type V = ScreenView;

    open spec fn view(&self) -> ScreenView {
        match *self {
            Screen::TunnelList(state) => ScreenView::TunnelList {
                error_message: optional_text(state.error_message),
            },
            Screen::EditTunnel(state) => ScreenView::EditTunnel {
                mode: state.mode,
                tag_input: state.tag_input@,
                cli_args_input: state.cli_args_input@,
                autostart_checkbox: state.autostart_checkbox,
                validation_errors: texts(state.validation_errors@),
            },
            Screen::ConfirmDelete(state) => ScreenView::ConfirmDelete {
                tunnel_id: state.tunnel_id,
                tunnel_name: state.tunnel_name@,
            },
        }
    }
}

impl Default for Screen {
    fn default() -> (screen: Self)
        ensures
            screen@ == (ScreenView::TunnelList { error_message: None }),
    {
        Screen::TunnelList(TunnelListState::default())
    }
}

} // verus!
