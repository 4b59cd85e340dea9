use wstunnel_manager::backend::types::{TunnelEntry, TunnelId, TunnelMode};
use wstunnel_manager::ui::messages::{
    ConfirmDeleteMessage, EditTunnelMessage, Message, TunnelListMessage,
};
use wstunnel_manager::ui::state::{
    ConfirmDeleteState, EditMode, EditTunnelState, Screen, TunnelListState,
};
use wstunnel_manager::backend::types::{ProcessId, Timestamp, TunnelRuntimeState};
use wstunnel_manager::ui::{mode_badge, needs_lookup, status_line, title, update, Effect};

fn entry(tag: &str) -> TunnelEntry {
    TunnelEntry {
        id: TunnelId::new(),
        tag: tag.to_string(),
        mode: TunnelMode::Server,
        cli_args: "server ws://0.0.0.0:8080".to_string(),
        autostart: true,
        runtime_state: None,
    }
}

fn list() -> Screen {
    Screen::default()
}

#[test]
fn the_first_screen_is_the_list() {
    assert!(matches!(
        Screen::default(),
        Screen::TunnelList(TunnelListState { error_message: None })
    ));
    assert_eq!(title(), "wstunnel Manager");
}

#[test]
fn adding_opens_an_empty_editor() {
    let (screen, effect) = update(list(), Message::TunnelList(TunnelListMessage::AddTunnel), None);
    assert!(matches!(effect, Effect::Nothing));
    match screen {
        Screen::EditTunnel(state) => {
            assert_eq!(state.mode, EditMode::Create);
            assert_eq!(state.tag_input, "");
            assert_eq!(state.cli_args_input, "");
            assert!(!state.autostart_checkbox);
            assert!(state.validation_errors.is_empty());
        }
        other => panic!("unexpected screen: {:?}", other),
    }
}

#[test]
fn editing_opens_the_editor_with_the_entry() {
    let tunnel = entry("t1");
    let id = tunnel.id;
    let message = Message::TunnelList(TunnelListMessage::EditTunnel(id));
    assert_eq!(needs_lookup(&list(), &message), Some(id));
    let (screen, _) = update(list(), message, Some(tunnel));
    match screen {
        Screen::EditTunnel(state) => {
            assert_eq!(state.mode, EditMode::Edit { id });
            assert_eq!(state.tag_input, "t1");
            assert_eq!(state.cli_args_input, "server ws://0.0.0.0:8080");
            assert!(state.autostart_checkbox);
        }
        other => panic!("unexpected screen: {:?}", other),
    }
}

#[test]
fn an_unknown_entry_shows_an_error_on_the_list() {
    let id = TunnelId(0xa1a2a3a4b1b2c1c2d1d2d3d4d5d6d7d8);
    for message in [
        TunnelListMessage::EditTunnel(id),
        TunnelListMessage::DeleteTunnel(id),
    ] {
        let (screen, effect) = update(list(), Message::TunnelList(message), None);
        assert!(matches!(effect, Effect::Nothing));
        match screen {
            Screen::TunnelList(state) => assert_eq!(
                state.error_message.as_deref(),
                Some("Tunnel with ID TunnelId(a1a2a3a4-b1b2-c1c2-d1d2-d3d4d5d6d7d8) not found")
            ),
            other => panic!("unexpected screen: {:?}", other),
        }
    }
}

#[test]
fn deleting_asks_first() {
    let tunnel = entry("t1");
    let id = tunnel.id;
    let (screen, effect) = update(
        list(),
        Message::TunnelList(TunnelListMessage::DeleteTunnel(id)),
        Some(tunnel),
    );
    assert!(matches!(effect, Effect::Nothing));
    assert!(matches!(
        &screen,
        Screen::ConfirmDelete(ConfirmDeleteState { tunnel_id, tunnel_name })
            if *tunnel_id == id && tunnel_name == "t1"
    ));
    let (screen, effect) = update(
        screen,
        Message::ConfirmDelete(ConfirmDeleteMessage::Confirm),
        None,
    );
    assert!(matches!(effect, Effect::DeleteTunnel { id: deleted } if deleted == id));
    assert!(matches!(screen, Screen::TunnelList(_)));
    let asking = Screen::ConfirmDelete(ConfirmDeleteState::new(id, "t1".to_string()));
    let (screen, effect) = update(
        asking,
        Message::ConfirmDelete(ConfirmDeleteMessage::Cancel),
        None,
    );
    assert!(matches!(effect, Effect::Nothing));
    assert!(matches!(screen, Screen::TunnelList(_)));
}

#[test]
fn the_list_hands_on_what_it_cannot_do_itself() {
    let id = TunnelId::new();
    let (_, effect) = update(list(), Message::TunnelList(TunnelListMessage::StartTunnel(id)), None);
    assert!(matches!(effect, Effect::StartTunnel { id: started } if started == id));
    let (_, effect) = update(list(), Message::TunnelList(TunnelListMessage::StopTunnel(id)), None);
    assert!(matches!(effect, Effect::StopTunnel { id: stopped } if stopped == id));
    let (_, effect) = update(list(), Message::TunnelList(TunnelListMessage::OpenLogs(id)), None);
    assert!(matches!(effect, Effect::OpenLogs { id: shown } if shown == id));
    let (_, effect) = update(list(), Message::TunnelList(TunnelListMessage::Refresh), None);
    assert!(matches!(effect, Effect::Refresh));
    let (_, effect) = update(list(), Message::ProcessStatusChanged { id }, None);
    assert!(matches!(effect, Effect::Refresh));
    let (_, effect) = update(list(), Message::ConfigReloaded, None);
    assert!(matches!(effect, Effect::Refresh));
    assert_eq!(
        needs_lookup(&list(), &Message::TunnelList(TunnelListMessage::StartTunnel(id))),
        None
    );
}

#[test]
fn inputs_are_kept_and_saved() {
    let mut screen = Screen::EditTunnel(EditTunnelState::new_create());
    for message in [
        EditTunnelMessage::TagChanged("t1".to_string()),
        EditTunnelMessage::CliArgsChanged("client ws://x".to_string()),
        EditTunnelMessage::AutostartToggled(true),
    ] {
        let (next, effect) = update(screen, Message::EditTunnel(message), None);
        assert!(matches!(effect, Effect::Nothing));
        screen = next;
    }
    let (screen, effect) = update(screen, Message::EditTunnel(EditTunnelMessage::Save), None);
    match effect {
        Effect::AddTunnel { entry } => {
            assert_eq!(entry.tag, "t1");
            assert_eq!(entry.cli_args, "client ws://x");
            assert!(entry.autostart);
            assert_eq!(entry.mode, TunnelMode::Client);
            assert!(entry.runtime_state.is_none());
            assert_eq!(
                entry.id.0 & 0xF000_C000_0000_0000_0000,
                0x4000_8000_0000_0000_0000
            );
        }
        other => panic!("unexpected effect: {:?}", other),
    }
    assert!(matches!(&screen, Screen::EditTunnel(state) if state.tag_input == "t1"));
    let saved = Message::EditTunnel(EditTunnelMessage::SaveCompleted(Ok(TunnelId::new())));
    let (screen, effect) = update(screen, saved, None);
    assert!(matches!(effect, Effect::Refresh));
    assert!(matches!(screen, Screen::TunnelList(_)));
}

#[test]
fn saving_an_edit_keeps_the_identifier() {
    let id = TunnelId::new();
    let screen = Screen::EditTunnel(EditTunnelState::new_edit(
        id,
        "t1".to_string(),
        "client ws://x".to_string(),
        false,
    ));
    let (screen, effect) = update(screen, Message::EditTunnel(EditTunnelMessage::Save), None);
    assert!(matches!(
        &effect,
        Effect::EditTunnel { id: edited, entry } if *edited == id && entry.id == id && entry.tag == "t1"
    ));
    let failed = Message::EditTunnel(EditTunnelMessage::SaveCompleted(Err("no".to_string())));
    let (screen, effect) = update(screen, failed, None);
    assert!(matches!(effect, Effect::Nothing));
    assert!(matches!(
        &screen,
        Screen::EditTunnel(state) if state.validation_errors == vec!["no".to_string()]
    ));
    let (screen, _) = update(screen, Message::EditTunnel(EditTunnelMessage::Cancel), None);
    assert!(matches!(screen, Screen::TunnelList(_)));
}

#[test]
fn errors_are_shown_where_the_user_is() {
    let (screen, _) = update(list(), Message::Error("boom".to_string()), None);
    assert!(matches!(
        &screen,
        Screen::TunnelList(state) if state.error_message.as_deref() == Some("boom")
    ));
    let (screen, _) = update(
        screen,
        Message::TunnelList(TunnelListMessage::DismissError),
        None,
    );
    assert!(matches!(
        &screen,
        Screen::TunnelList(state) if state.error_message.is_none()
    ));
    let editor = Screen::EditTunnel(EditTunnelState::new_create());
    let (screen, _) = update(editor, Message::Error("boom".to_string()), None);
    assert!(matches!(
        &screen,
        Screen::EditTunnel(state) if state.validation_errors == vec!["boom".to_string()]
    ));
    let asking = Screen::ConfirmDelete(ConfirmDeleteState::new(TunnelId::new(), "t".to_string()));
    let (screen, _) = update(asking, Message::Error("boom".to_string()), None);
    assert!(matches!(
        &screen,
        Screen::TunnelList(state) if state.error_message.as_deref() == Some("boom")
    ));
}

#[test]
fn messages_for_another_screen_change_nothing() {
    let editor = Screen::EditTunnel(EditTunnelState::new_create());
    let (screen, effect) = update(
        editor,
        Message::TunnelList(TunnelListMessage::StartTunnel(TunnelId::new())),
        None,
    );
    assert!(matches!(effect, Effect::Nothing));
    assert!(matches!(screen, Screen::EditTunnel(_)));
    let (screen, effect) = update(list(), Message::EditTunnel(EditTunnelMessage::Save), None);
    assert!(matches!(effect, Effect::Nothing));
    assert!(matches!(screen, Screen::TunnelList(_)));
    let (screen, effect) = update(
        list(),
        Message::ConfirmDelete(ConfirmDeleteMessage::Confirm),
        None,
    );
    assert!(matches!(effect, Effect::Nothing));
    assert!(matches!(screen, Screen::TunnelList(_)));
}

#[test]
fn the_list_tells_the_state_of_each_process() {
    let running = TunnelRuntimeState::Running {
        pid: ProcessId(4242),
        started_at: Timestamp::now(),
        log_path: "a.log".to_string(),
    };
    assert_eq!(status_line(&running, 75), "Running (PID: 4242, uptime: 75s)");
    assert_eq!(status_line(&TunnelRuntimeState::Stopped, 0), "Stopped");
    assert_eq!(status_line(&TunnelRuntimeState::Starting, 0), "Starting...");
    let failed = TunnelRuntimeState::Failed {
        error: "boom".to_string(),
        last_attempt: Timestamp::now(),
        exit_code: Some(1),
    };
    assert_eq!(status_line(&failed, 0), "Failed: boom");
    assert_eq!(mode_badge(TunnelMode::Client), "CLIENT");
    assert_eq!(mode_badge(TunnelMode::Server), "SERVER");
}

#[test]
fn messages_can_be_copied() {
    let message = Message::EditTunnel(EditTunnelMessage::SaveCompleted(Err("no".to_string())));
    assert!(matches!(
        message.clone(),
        Message::EditTunnel(EditTunnelMessage::SaveCompleted(Err(ref e))) if e == "no"
    ));
    let message = Message::EditTunnel(EditTunnelMessage::TagChanged("t".to_string()));
    assert!(matches!(
        message.clone(),
        Message::EditTunnel(EditTunnelMessage::TagChanged(ref t)) if t == "t"
    ));
}
