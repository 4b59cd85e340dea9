//! The front end's state and what each message does to it. Drawing the
//! screens and carrying out the effects is left to the application.

pub mod messages;
pub mod state;

use crate::backend::types::{
    is_random_uuid, TunnelEntry, TunnelId, TunnelMode, TunnelRuntimeState,
};
use crate::text::{decimal, decimal_string, texts};
use crate::ui::messages::{ConfirmDeleteMessage, EditTunnelMessage, Message, TunnelListMessage};
use crate::ui::state::{
    ConfirmDeleteState, EditMode, EditTunnelState, Screen, ScreenView, TunnelListState,
};
use vstd::prelude::*;
use vstd::string::*;

verus! {

/// What the application is to do after a message has been taken.
#[derive(Debug)]
pub enum Effect {
    /// Nothing.
    Nothing,
    /// Fetch the entries anew.
    Refresh,
    /// Start the process of the entry.
    StartTunnel { id: TunnelId },
    /// Stop the process of the entry.
    StopTunnel { id: TunnelId },
    /// Show the log of the entry.
    OpenLogs { id: TunnelId },
    /// Add the entry, then report with `SaveCompleted`.
    AddTunnel { entry: TunnelEntry },
    /// Replace entry `id` by the entry, then report with `SaveCompleted`.
    EditTunnel { id: TunnelId, entry: TunnelEntry },
    /// Delete the entry.
    DeleteTunnel { id: TunnelId },
}

/// The list screen without a message.
pub open spec fn plain_list() -> ScreenView {
    ScreenView::TunnelList { error_message: None }
}

/// The message that tells that entry `id` is unknown.
pub open spec fn unknown_entry_text(id: TunnelId) -> Seq<char> {
    "Tunnel with ID "@ + id.debug_text() + " not found"@
}

/// The screen after `message`, where `found` is the entry that a message of
/// the list screen names, if there is such an entry. A message that is not
/// meant for the screen shown changes nothing.
pub open spec fn next_screen(screen: ScreenView, message: Message, found: Option<TunnelEntry>) -> ScreenView {
    match message {
        Message::TunnelList(m) => match screen {
            ScreenView::TunnelList { error_message } => match m {
                TunnelListMessage::AddTunnel => ScreenView::EditTunnel {
                    mode: EditMode::Create,
                    tag_input: Seq::empty(),
                    cli_args_input: Seq::empty(),
                    autostart_checkbox: false,
                    validation_errors: Seq::empty(),
                },
                TunnelListMessage::EditTunnel(id) => match found {
                    Some(tunnel) => ScreenView::EditTunnel {
                        mode: EditMode::Edit { id: tunnel.id },
                        tag_input: tunnel.tag@,
                        cli_args_input: tunnel.cli_args@,
                        autostart_checkbox: tunnel.autostart,
                        validation_errors: Seq::empty(),
                    },
                    None => ScreenView::TunnelList {
                        error_message: Some(unknown_entry_text(id)),
                    },
                },
                TunnelListMessage::DeleteTunnel(id) => match found {
                    Some(tunnel) => ScreenView::ConfirmDelete {
                        tunnel_id: tunnel.id,
                        tunnel_name: tunnel.tag@,
                    },
                    None => ScreenView::TunnelList {
                        error_message: Some(unknown_entry_text(id)),
                    },
                },
                TunnelListMessage::DismissError => plain_list(),
                _ => screen,
            },
            _ => screen,
        },
        Message::EditTunnel(m) => match screen {
            ScreenView::EditTunnel {
                mode,
                tag_input,
                cli_args_input,
                autostart_checkbox,
                validation_errors,
            } => match m {
                EditTunnelMessage::TagChanged(tag) => ScreenView::EditTunnel {
                    mode,
                    tag_input: tag@,
                    cli_args_input,
                    autostart_checkbox,
                    validation_errors,
                },
                EditTunnelMessage::CliArgsChanged(args) => ScreenView::EditTunnel {
                    mode,
                    tag_input,
                    cli_args_input: args@,
                    autostart_checkbox,
                    validation_errors,
                },
                EditTunnelMessage::AutostartToggled(checked) => ScreenView::EditTunnel {
                    mode,
                    tag_input,
                    cli_args_input,
                    autostart_checkbox: checked,
                    validation_errors,
                },
                EditTunnelMessage::Save => screen,
                EditTunnelMessage::Cancel => plain_list(),
                EditTunnelMessage::SaveCompleted(result) => match result {
                    Ok(_) => plain_list(),
                    Err(error) => ScreenView::EditTunnel {
                        mode,
                        tag_input,
                        cli_args_input,
                        autostart_checkbox,
                        validation_errors: seq![error@],
                    },
                },
            },
            _ => screen,
        },
        Message::ConfirmDelete(m) => match screen {
            ScreenView::ConfirmDelete { tunnel_id, tunnel_name } => plain_list(),
            _ => screen,
        },
        Message::ProcessStatusChanged { id } => screen,
        Message::ConfigReloaded => screen,
        Message::Error(error) => match screen {
            ScreenView::TunnelList { error_message } => ScreenView::TunnelList {
                error_message: Some(error@),
            },
            ScreenView::EditTunnel {
                mode,
                tag_input,
                cli_args_input,
                autostart_checkbox,
                validation_errors,
            } => ScreenView::EditTunnel {
                mode,
                tag_input,
                cli_args_input,
                autostart_checkbox,
                validation_errors: seq![error@],
            },
            ScreenView::ConfirmDelete { tunnel_id, tunnel_name } => ScreenView::TunnelList {
                error_message: Some(error@),
            },
        },
    }
}

/// The entry that the edit screen asks to save has the screen's inputs; in
/// create mode its identifier is a fresh random one.
pub open spec fn saves(screen: ScreenView, entry: TunnelEntry) -> bool {
    screen matches ScreenView::EditTunnel {
        mode,
        tag_input,
        cli_args_input,
        autostart_checkbox,
        validation_errors,
    } && entry.tag@ == tag_input && entry.cli_args@ == cli_args_input && entry.autostart
        == autostart_checkbox && entry.mode == TunnelMode::Client && entry.runtime_state is None
        && match mode {
        EditMode::Create => is_random_uuid(entry.id.0),
        EditMode::Edit { id } => entry.id == id,
    }
}

/// `effect` is what `message` asks of the application on `screen`.
pub open spec fn effect_ok(screen: ScreenView, message: Message, effect: Effect) -> bool {
    match message {
        Message::TunnelList(m) => if screen is TunnelList {
            match m {
                TunnelListMessage::StartTunnel(id) => effect matches Effect::StartTunnel {
                    id: started,
                } && started == id,
                TunnelListMessage::StopTunnel(id) => effect matches Effect::StopTunnel {
                    id: stopped,
                } && stopped == id,
                TunnelListMessage::OpenLogs(id) => effect matches Effect::OpenLogs { id: shown }
                    && shown == id,
                TunnelListMessage::Refresh => effect is Refresh,
                _ => effect is Nothing,
            }
        } else {
            effect is Nothing
        },
        Message::EditTunnel(m) => if screen is EditTunnel {
            match m {
                EditTunnelMessage::Save => match screen->EditTunnel_mode {
                    EditMode::Create => effect matches Effect::AddTunnel { entry } && saves(
                        screen,
                        entry,
                    ),
                    EditMode::Edit { id } => effect matches Effect::EditTunnel {
                        id: edited,
                        entry,
                    } && edited == id && saves(screen, entry),
                },
                EditTunnelMessage::SaveCompleted(result) => if result is Ok {
                    effect is Refresh
                } else {
                    effect is Nothing
                },
                _ => effect is Nothing,
            }
        } else {
            effect is Nothing
        },
        Message::ConfirmDelete(m) => match screen {
            ScreenView::ConfirmDelete { tunnel_id, tunnel_name } => match m {
                ConfirmDeleteMessage::Confirm => effect matches Effect::DeleteTunnel { id }
                    && id == tunnel_id,
                ConfirmDeleteMessage::Cancel => effect is Nothing,
            },
            _ => effect is Nothing,
        },
        Message::ProcessStatusChanged { id } => effect is Refresh,
        Message::ConfigReloaded => effect is Refresh,
        Message::Error(error) => effect is Nothing,
    }
}

/// The entry that `message` names and that is to be looked up before the
/// message is taken on `screen`.
pub fn needs_lookup(screen: &Screen, message: &Message) -> (id: Option<TunnelId>)
    ensures
        id == match (*screen, *message) {
            (Screen::TunnelList(_), Message::TunnelList(TunnelListMessage::EditTunnel(id))) => Some(
                id,
            ),
            (
                Screen::TunnelList(_),
                Message::TunnelList(TunnelListMessage::DeleteTunnel(id)),
            ) => Some(id),
            _ => None::<TunnelId>,
        },
{
    match screen {
        Screen::TunnelList(_) => match message {
            Message::TunnelList(TunnelListMessage::EditTunnel(id)) => Some(*id),
            Message::TunnelList(TunnelListMessage::DeleteTunnel(id)) => Some(*id),
            _ => None,
        },
        _ => None,
    }
}

/// Takes one message: gives the screen to show next and what the
/// application is to do. `found` is the entry that the message names, where
/// it names one and the entry exists.
pub fn update(screen: Screen, message: Message, found: Option<TunnelEntry>) -> (next: (
    Screen,
    Effect,
))
    ensures
        next.0@ == next_screen(screen@, message, found),
        effect_ok(screen@, message, next.1),
{
    match message {
        Message::TunnelList(m) => match screen {
            Screen::TunnelList(state) => handle_tunnel_list_message(state, m, found),
            other => (other, Effect::Nothing),
        },
        Message::EditTunnel(m) => match screen {
            Screen::EditTunnel(state) => handle_edit_tunnel_message(state, m),
            other => (other, Effect::Nothing),
        },
        Message::ConfirmDelete(m) => match screen {
            Screen::ConfirmDelete(state) => handle_confirm_delete_message(state, m),
            other => (other, Effect::Nothing),
        },
        Message::ProcessStatusChanged { id } => (screen, Effect::Refresh),
        Message::ConfigReloaded => (screen, Effect::Refresh),
        Message::Error(error) => (handle_error(screen, error), Effect::Nothing),
    }
}

/// Takes a message of the list screen.
pub fn handle_tunnel_list_message(
    state: TunnelListState,
    message: TunnelListMessage,
    found: Option<TunnelEntry>,
) -> (next: (Screen, Effect))
    ensures
        next.0@ == next_screen(Screen::TunnelList(state)@, Message::TunnelList(message), found),
        effect_ok(Screen::TunnelList(state)@, Message::TunnelList(message), next.1),
{
    match message {
        TunnelListMessage::AddTunnel => {
            let editor = EditTunnelState::new_create();
            proof {
                assert(editor.tag_input@ =~= Seq::<char>::empty());
                assert(editor.cli_args_input@ =~= Seq::<char>::empty());
                assert(texts(editor.validation_errors@) =~= Seq::<Seq<char>>::empty());
            }
            (Screen::EditTunnel(editor), Effect::Nothing)
        },
        TunnelListMessage::EditTunnel(id) => match found {
            Some(tunnel) => {
                let editor = EditTunnelState::new_edit(
                    tunnel.id,
                    tunnel.tag,
                    tunnel.cli_args,
                    tunnel.autostart,
                );
                proof {
                    assert(texts(editor.validation_errors@) =~= Seq::<Seq<char>>::empty());
                }
                (Screen::EditTunnel(editor), Effect::Nothing)
            },
            None => (unknown_entry(id), Effect::Nothing),
        },
        TunnelListMessage::DeleteTunnel(id) => match found {
            Some(tunnel) => (
                Screen::ConfirmDelete(ConfirmDeleteState::new(tunnel.id, tunnel.tag)),
                Effect::Nothing,
            ),
            None => (unknown_entry(id), Effect::Nothing),
        },
        TunnelListMessage::StartTunnel(id) => (
            Screen::TunnelList(state),
            Effect::StartTunnel { id },
        ),
        TunnelListMessage::StopTunnel(id) => (Screen::TunnelList(state), Effect::StopTunnel { id }),
        TunnelListMessage::OpenLogs(id) => (Screen::TunnelList(state), Effect::OpenLogs { id }),
        TunnelListMessage::Refresh => (Screen::TunnelList(state), Effect::Refresh),
        TunnelListMessage::DismissError => (
            Screen::TunnelList(TunnelListState::default()),
            Effect::Nothing,
        ),
    }
}

/// The list screen with the message that entry `id` is unknown.
fn unknown_entry(id: TunnelId) -> (screen: Screen)
    ensures
        screen@ == (ScreenView::TunnelList { error_message: Some(unknown_entry_text(id)) }),
{
    let name = id.to_debug_text();
    Screen::TunnelList(
        TunnelListState { error_message: Some(crate::errors::tunnel::not_found(name.as_str())) },
    )
}

/// Takes a message of the edit screen.
pub fn handle_edit_tunnel_message(state: EditTunnelState, message: EditTunnelMessage) -> (next: (
    Screen,
    Effect,
))
    ensures
        next.0@ == next_screen(
            Screen::EditTunnel(state)@,
            Message::EditTunnel(message),
            None::<TunnelEntry>,
        ),
        effect_ok(Screen::EditTunnel(state)@, Message::EditTunnel(message), next.1),
{
    let mut state = state;
    match message {
        EditTunnelMessage::TagChanged(new_tag) => {
            state.tag_input = new_tag;
            (Screen::EditTunnel(state), Effect::Nothing)
        },
        EditTunnelMessage::CliArgsChanged(new_args) => {
            state.cli_args_input = new_args;
            (Screen::EditTunnel(state), Effect::Nothing)
        },
        EditTunnelMessage::AutostartToggled(checked) => {
            state.autostart_checkbox = checked;
            (Screen::EditTunnel(state), Effect::Nothing)
        },
        EditTunnelMessage::Save => {
            let effect = match state.mode {
                EditMode::Create => Effect::AddTunnel {
                    entry: TunnelEntry {
                        id: TunnelId::default(),
                        tag: state.tag_input.clone(),
                        mode: TunnelMode::Client,
                        cli_args: state.cli_args_input.clone(),
                        autostart: state.autostart_checkbox,
                        runtime_state: None,
                    },
                },
                EditMode::Edit { id } => Effect::EditTunnel {
                    id,
                    entry: TunnelEntry {
                        id,
                        tag: state.tag_input.clone(),
                        mode: TunnelMode::Client,
                        cli_args: state.cli_args_input.clone(),
                        autostart: state.autostart_checkbox,
                        runtime_state: None,
                    },
                },
            };
            (Screen::EditTunnel(state), effect)
        },
        EditTunnelMessage::Cancel => (
            Screen::TunnelList(TunnelListState::default()),
            Effect::Nothing,
        ),
        EditTunnelMessage::SaveCompleted(result) => match result {
            Ok(_) => (Screen::TunnelList(TunnelListState::default()), Effect::Refresh),
            Err(error) => {
                let mut errors: Vec<String> = Vec::new();
                errors.push(error);
                proof {
                    assert(texts(errors@) =~= seq![error@]);
                }
                state.validation_errors = errors;
                (Screen::EditTunnel(state), Effect::Nothing)
            },
        },
    }
}

/// Takes a message of the screen that asks whether to delete an entry.
pub fn handle_confirm_delete_message(state: ConfirmDeleteState, message: ConfirmDeleteMessage) -> (next:
    (Screen, Effect))
    ensures
        next.0@ == next_screen(
            Screen::ConfirmDelete(state)@,
            Message::ConfirmDelete(message),
            None::<TunnelEntry>,
        ),
        effect_ok(Screen::ConfirmDelete(state)@, Message::ConfirmDelete(message), next.1),
{
    match message {
        ConfirmDeleteMessage::Confirm => (
            Screen::TunnelList(TunnelListState::default()),
            Effect::DeleteTunnel { id: state.tunnel_id },
        ),
        ConfirmDeleteMessage::Cancel => (
            Screen::TunnelList(TunnelListState::default()),
            Effect::Nothing,
        ),
    }
}

/// Shows an error on whatever screen is up; the screen that asks whether to
/// delete an entry gives way to the list.
pub fn handle_error(screen: Screen, error: String) -> (next: Screen)
    ensures
        next@ == next_screen(screen@, Message::Error(error), None::<TunnelEntry>),
{
    match screen {
        Screen::TunnelList(_) => Screen::TunnelList(TunnelListState { error_message: Some(error) }),
        Screen::EditTunnel(state) => {
            let mut state = state;
            let mut errors: Vec<String> = Vec::new();
            errors.push(error);
            proof {
                assert(texts(errors@) =~= seq![error@]);
            }
            state.validation_errors = errors;
            Screen::EditTunnel(state)
        },
        Screen::ConfirmDelete(_) => Screen::TunnelList(
            TunnelListState { error_message: Some(error) },
        ),
    }
}

/// What the list says of an entry's process, where `uptime_secs` is how long
/// a running process has run.
pub open spec fn status_text(status: TunnelRuntimeState, uptime_secs: u64) -> Seq<char> {
    match status {
        TunnelRuntimeState::Running { pid, started_at, log_path } => "Running (PID: "@ + decimal(
            pid.0 as nat,
        ) + ", uptime: "@ + decimal(uptime_secs as nat) + "s)"@,
        TunnelRuntimeState::Stopped => "Stopped"@,
        TunnelRuntimeState::Failed { error, last_attempt, exit_code } => "Failed: "@ + error@,
        TunnelRuntimeState::Starting => "Starting..."@,
    }
}

/// What the list says of an entry's process.
pub fn status_line(status: &TunnelRuntimeState, uptime_secs: u64) -> (line: String)
    ensures
        line@ == status_text(*status, uptime_secs),
{
    match status {
        TunnelRuntimeState::Running { pid, started_at, log_path } => {
            let number = pid.to_text();
            let uptime = decimal_string(uptime_secs);
            let mut line = String::from_str("Running (PID: ");
            line.append(number.as_str());
            line.append(", uptime: ");
            line.append(uptime.as_str());
            line.append("s)");
            line
        },
        TunnelRuntimeState::Stopped => String::from_str("Stopped"),
        TunnelRuntimeState::Failed { error, last_attempt, exit_code } => {
            let mut line = String::from_str("Failed: ");
            line.append(error.as_str());
            line
        },
        TunnelRuntimeState::Starting => String::from_str("Starting..."),
    }
}

/// The badge that names a mode in the list.
pub fn mode_badge(mode: TunnelMode) -> (label: &'static str)
    ensures
        label@ == match mode {
            TunnelMode::Client => "CLIENT"@,
            TunnelMode::Server => "SERVER"@,
        },
{
    match mode {
        TunnelMode::Client => "CLIENT",
        TunnelMode::Server => "SERVER",
    }
}

/// The title of the application's window.
pub fn title() -> (text: String)
    ensures
        text@ == crate::constants::APP_TITLE@,
{
    String::from_str(crate::constants::APP_TITLE)
}

} // verus!
