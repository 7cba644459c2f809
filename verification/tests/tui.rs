use localsend_rs::error::LocalSendError;
use localsend_rs::id_map::IdMap;
use localsend_rs::protocol::{DeviceInfo, FileId, FileMetadata, Protocol, SessionId};
use localsend_rs::server::events::{PendingRequest, ServerEvent, TransferDecision};
use localsend_rs::tui::app::{App, Effect};
use localsend_rs::tui::input::KeyCode;
use localsend_rs::tui::popup::{MessageLevel, Popup};
use localsend_rs::tui::screens::{Screen, SendFileStage, SendTextStage};
use localsend_rs::tui::send::{
    file_offer, send_update_from_result, Payload, SendJob, SendKind, SendUpdate,
};
use std::path::PathBuf;
use tokio::sync::oneshot::Receiver;

fn test_app() -> App {
    App::new(
        0,
        Some("t".to_string()),
        false,
        None,
        false,
        "model".to_string(),
        0,
    )
}

fn status(app: &App) -> (&str, MessageLevel) {
    let (text, level) = app.status_message.as_ref().expect("a message");
    (text, *level)
}

fn press(app: &mut App, key: KeyCode) -> Effect {
    app.handle_key(key, 0).0
}

fn type_text(app: &mut App, text: &str) {
    for c in text.chars() {
        assert!(matches!(press(app, KeyCode::Char(c)), Effect::Nothing));
    }
}

fn peer(name: &str, ip: &str) -> DeviceInfo {
    let mut device = DeviceInfo::new(name.to_string(), 53317, Protocol::Http);
    device.fingerprint = format!("fp-{name}");
    device.ip = Some(ip.to_string());
    device
}

fn request(ids: &[&str]) -> (PendingRequest, Receiver<TransferDecision>) {
    let mut files: IdMap<FileMetadata> = IdMap::new();
    for id in ids {
        files.insert(
            id.to_string(),
            FileMetadata {
                id: FileId::from_string(id.to_string()),
                file_name: format!("{id}.bin"),
                size: 1,
                file_type: "t".to_string(),
                sha256: None,
                preview: None,
                metadata: None,
            },
        );
    }
    PendingRequest::new(
        DeviceInfo::new("peer".to_string(), 53317, Protocol::Http),
        files,
    )
}

fn ids(names: &[&str]) -> Vec<FileId> {
    names.iter().map(|n| FileId::from_string(n.to_string())).collect()
}

fn show(app: &mut App, ids: &[&str]) -> Receiver<TransferDecision> {
    let (req, rx) = request(ids);
    app.on_server_event(ServerEvent::TransferRequest(req));
    rx
}

fn writing_to(app: &mut App, name: &str) {
    app.on_discovered(peer(name, "10.0.0.2"));
    press(app, KeyCode::Enter);
    assert_eq!(app.send_text.stage, SendTextStage::EnterMessage);
}

fn sent(effect: Effect) -> SendJob {
    match effect {
        Effect::Send(job) => job,
        other => panic!("expected a send, got {other:?}"),
    }
}

#[test]
fn pin_prompt_opens_when_no_popup_is_shown() {
    let mut app = test_app();
    app.pending_pin_kind = Some(SendKind::File);
    app.maybe_open_pin_prompt();
    assert!(matches!(app.popup, Some(Popup::PinEntry { .. })));
}

#[test]
fn pin_prompt_defers_behind_an_open_popup() {
    let mut app = test_app();
    app.pending_pin_kind = Some(SendKind::File);
    app.popup = Some(Popup::Message {
        text: "busy".into(),
        level: MessageLevel::Info,
    });
    app.maybe_open_pin_prompt();
    assert!(matches!(app.popup, Some(Popup::Message { .. })));
}

#[test]
fn no_pin_prompt_without_a_pending_kind() {
    let mut app = test_app();
    app.pending_pin_kind = None;
    app.maybe_open_pin_prompt();
    assert!(app.popup.is_none());
}

#[test]
fn incoming_transfer_preempts_an_open_pin_prompt() {
    let mut app = test_app();
    app.pending_pin_kind = Some(SendKind::File);
    app.popup = Some(Popup::PinEntry {
        input: tui_input::Input::default(),
    });

    let sender = DeviceInfo::new("peer".to_string(), 53317, Protocol::Http);
    let (req, mut decision_rx) = PendingRequest::new(sender, IdMap::new());
    app.on_server_event(ServerEvent::TransferRequest(req));

    assert!(matches!(app.popup, Some(Popup::TransferConfirm(_))));
    assert_eq!(app.pending_pin_kind, Some(SendKind::File));
    assert!(matches!(
        decision_rx.try_recv(),
        Err(tokio::sync::oneshot::error::TryRecvError::Empty)
    ));
}

#[test]
fn invalid_pin_error_maps_to_needs_pin() {
    let err = LocalSendError::InvalidPin;
    let update = send_update_from_result(1, SendKind::File, "f".into(), Err(err));
    assert!(matches!(
        update,
        SendUpdate::NeedsPin {
            generation: 1,
            kind: SendKind::File
        }
    ));
}

#[test]
fn other_error_maps_to_finished_with_reason() {
    let err = LocalSendError::other("boom");
    let update = send_update_from_result(2, SendKind::Text, "m".into(), Err(err));
    match update {
        SendUpdate::Finished {
            generation: 2,
            error: Some(reason),
            ..
        } => assert!(reason.contains("boom")),
        other => panic!("expected Finished with error, got {other:?}"),
    }
}

#[test]
fn ok_maps_to_finished_success() {
    let update = send_update_from_result(3, SendKind::File, "f".into(), Ok(()));
    assert!(matches!(
        update,
        SendUpdate::Finished {
            generation: 3,
            error: None,
            ..
        }
    ));
}

#[test]
fn a_new_app_knows_itself() {
    let app = App::new(
        7,
        None,
        true,
        Some("1".to_string()),
        true,
        "model".to_string(),
        500,
    );
    assert!(app.device_info.alias.starts_with("LocalSend-Rust-"));
    assert_eq!(app.device_info.alias.len(), 19);
    assert_eq!(app.device_info.protocol, Protocol::Https);
    assert_eq!(app.device_info.device_model.as_deref(), Some("model"));
    assert_eq!(app.device_info.fingerprint.len(), 36);
    assert_eq!(app.scan_deadline, 3500);
    assert_eq!(app.settings.save_dir, "./downloads");
    assert!(app.settings.auto_accept);
    let builder = app.server_builder();
    assert_eq!(builder.alias, app.device_info.alias);
    assert_eq!(builder.port, 7);
    assert_eq!(builder.save_dir, PathBuf::from("./downloads"));
    assert_eq!(builder.protocol, Protocol::Https);
    assert_eq!(builder.pin.as_deref(), Some("1"));
    assert!(builder.auto_accept);
    assert_eq!(test_app().server_builder().pin, None);
}

#[test]
fn devices_are_listed_once_and_never_this_one() {
    let mut app = test_app();
    let mut own = peer("own", "10.0.0.9");
    own.fingerprint = app.device_info.fingerprint.clone();
    app.on_discovered(own);
    assert!(app.devices.is_empty());
    app.on_discovered(peer("a", "10.0.0.1"));
    app.on_discovered(peer("a", "10.0.0.3"));
    app.on_discovered(peer("b", "10.0.0.1"));
    assert_eq!(app.devices.len(), 1);
    let mut other_port = peer("c", "10.0.0.1");
    other_port.port = 1;
    app.on_discovered(other_port);
    app.on_discovered(peer("d", "10.0.0.4"));
    assert_eq!(app.devices.len(), 3);
    let mut no_ip = peer("e", "");
    no_ip.ip = None;
    app.on_discovered(no_ip.clone());
    no_ip.fingerprint = "fp-f".to_string();
    app.on_discovered(no_ip);
    assert_eq!(app.devices.len(), 4);
}

#[test]
fn tabs_go_round() {
    let mut app = test_app();
    let order = [
        Screen::SendFile,
        Screen::Receive,
        Screen::Settings,
        Screen::SendText,
    ];
    for screen in order {
        press(&mut app, KeyCode::Tab);
        assert_eq!(app.screen, screen);
    }
    press(&mut app, KeyCode::Left);
    assert_eq!(app.screen, Screen::Settings);
    press(&mut app, KeyCode::Right);
    assert_eq!(app.screen, Screen::SendText);
    assert_eq!(Screen::SendText.title(), "📝 Text");
    assert_eq!(Screen::SendFile.title(), "📁 File");
    assert_eq!(Screen::Receive.title(), "📥 Inbox");
    assert_eq!(Screen::Settings.title(), "⚙️ Settings");
    assert_eq!(Screen::Settings.index(), 3);
}

#[test]
fn q_quits_unless_a_dialog_is_up() {
    let mut app = test_app();
    app.popup = Some(Popup::TransferProgress {
        label: "l".to_string(),
        sent: 0,
        total: 1,
    });
    press(&mut app, KeyCode::Char('q'));
    press(&mut app, KeyCode::Enter);
    press(&mut app, KeyCode::Esc);
    assert!(!app.should_quit);
    assert!(matches!(app.popup, Some(Popup::TransferProgress { .. })));
    app.popup = None;
    press(&mut app, KeyCode::Esc);
    assert_eq!(status(&app), ("Press q to quit", MessageLevel::Info));
    press(&mut app, KeyCode::Char('q'));
    assert!(app.should_quit);
}

#[test]
fn message_popups_close() {
    for key in [KeyCode::Enter, KeyCode::Esc] {
        let mut app = test_app();
        app.popup = Some(Popup::Message {
            text: "m".to_string(),
            level: MessageLevel::Error,
        });
        press(&mut app, KeyCode::Char('x'));
        assert!(matches!(
            &app.popup,
            Some(Popup::Message { text, level: MessageLevel::Error }) if text == "m"
        ));
        press(&mut app, key);
        assert!(app.popup.is_none());
    }
}

#[test]
fn typed_messages_are_sent_as_they_are() {
    let mut app = test_app();
    writing_to(&mut app, "a");
    assert!(matches!(press(&mut app, KeyCode::Enter), Effect::Nothing));
    type_text(&mut app, "Héllo wörld");
    let job = sent(press(&mut app, KeyCode::Enter));
    assert_eq!(job.generation, 1);
    assert_eq!(job.target.alias, "a");
    assert_eq!(job.device.alias, "t");
    assert_eq!(job.pin, None);
    assert!(matches!(job.payload, Payload::Text { message } if message == "Héllo wörld"));
    assert!(app.send_text.is_sending);
    assert_eq!(status(&app), ("Sending message...", MessageLevel::Info));
    assert!(matches!(press(&mut app, KeyCode::Enter), Effect::Nothing));
    assert_eq!(app.send_generation, 1);
}

#[test]
fn lines_are_edited_at_the_cursor() {
    let mut app = test_app();
    writing_to(&mut app, "a");
    type_text(&mut app, "abcd");
    for key in [
        KeyCode::Left,
        KeyCode::Backspace,
        KeyCode::Home,
        KeyCode::Delete,
        KeyCode::End,
        KeyCode::Up,
        KeyCode::Tab,
        KeyCode::Other,
        KeyCode::Char('!'),
    ] {
        press(&mut app, key);
    }
    assert_eq!(app.send_text.message(), "bd!");
    press(&mut app, KeyCode::Home);
    press(&mut app, KeyCode::Right);
    press(&mut app, KeyCode::Char('-'));
    press(&mut app, KeyCode::Backspace);
    press(&mut app, KeyCode::Char('+'));
    assert_eq!(app.send_text.message(), "b+d!");
    assert_eq!(app.screen, Screen::SendText);
    press(&mut app, KeyCode::Char('e'));
    press(&mut app, KeyCode::Char('\u{301}'));
    press(&mut app, KeyCode::Backspace);
    assert_eq!(app.send_text.message(), "b+d!");
    press(&mut app, KeyCode::Home);
    press(&mut app, KeyCode::Backspace);
    press(&mut app, KeyCode::Left);
    assert_eq!(app.send_text.message(), "b+d!");
    press(&mut app, KeyCode::End);
    press(&mut app, KeyCode::Delete);
    press(&mut app, KeyCode::Right);
    assert_eq!(app.send_text.message(), "b+d!");
}

#[test]
fn cancelled_sends_are_forgotten() {
    let mut app = test_app();
    writing_to(&mut app, "a");
    type_text(&mut app, "x");
    let job = sent(press(&mut app, KeyCode::Enter));
    press(&mut app, KeyCode::Esc);
    assert_eq!(status(&app), ("Send cancelled", MessageLevel::Info));
    assert!(!app.send_text.is_sending);
    assert_eq!(app.send_text.stage, SendTextStage::SelectDevice);
    app.dirty = false;
    app.on_send_update(SendUpdate::NeedsPin {
        generation: job.generation,
        kind: SendKind::Text,
    });
    app.on_send_update(SendUpdate::Finished {
        generation: job.generation,
        kind: SendKind::Text,
        label: "message".to_string(),
        error: None,
    });
    assert!(app.dirty);
    assert_eq!(app.pending_pin_kind, None);
    assert_eq!(status(&app), ("Send cancelled", MessageLevel::Info));
}

#[test]
fn generations_wrap() {
    let mut app = test_app();
    app.send_generation = u64::MAX;
    writing_to(&mut app, "a");
    type_text(&mut app, "x");
    assert_eq!(sent(press(&mut app, KeyCode::Enter)).generation, 0);
}

#[test]
fn finished_sends_are_told() {
    for (error, text, level) in [
        (None, "✓ Sent message", MessageLevel::Success),
        (Some("boom"), "✗ Send failed: boom", MessageLevel::Error),
    ] {
        let mut app = test_app();
        writing_to(&mut app, "a");
        type_text(&mut app, "x");
        let job = sent(press(&mut app, KeyCode::Enter));
        app.on_send_update(SendUpdate::Finished {
            generation: job.generation,
            kind: SendKind::Text,
            label: "message".to_string(),
            error: error.map(|e| e.to_string()),
        });
        assert_eq!(status(&app), (text, level));
        assert!(!app.send_text.is_sending);
        assert_eq!(app.send_text.message(), "");
        assert_eq!(app.send_text.stage, SendTextStage::SelectDevice);
    }
}

fn choosing_a_file(app: &mut App, path: &str) {
    app.on_discovered(peer("a", "10.0.0.2"));
    press(app, KeyCode::Right);
    press(app, KeyCode::Enter);
    assert_eq!(app.send_file.stage, SendFileStage::EnterFilePath);
    type_text(app, path);
}

#[test]
fn files_are_looked_at_before_they_are_sent() {
    let mut app = test_app();
    choosing_a_file(&mut app, "/d/a.txt");
    let probe = match press(&mut app, KeyCode::Enter) {
        Effect::Probe(probe) => probe,
        other => panic!("expected a probe, got {other:?}"),
    };
    assert_eq!(probe.path, PathBuf::from("/d/a.txt"));
    assert!(matches!(app.file_probed(probe, false), Effect::Nothing));
    assert_eq!(status(&app), ("File not found", MessageLevel::Error));
    assert_eq!(app.send_generation, 0);
    let probe = match press(&mut app, KeyCode::Enter) {
        Effect::Probe(probe) => probe,
        other => panic!("expected a probe, got {other:?}"),
    };
    let job = sent(app.file_probed(probe, true));
    assert_eq!(job.generation, 1);
    assert!(matches!(
        &job.payload,
        Payload::File { path, label } if *path == PathBuf::from("/d/a.txt") && label == "a.txt"
    ));
    assert_eq!(status(&app), ("Sending a.txt...", MessageLevel::Info));
    assert_eq!(app.send_file.current_file.as_deref(), Some("a.txt"));
    assert!(matches!(press(&mut app, KeyCode::Enter), Effect::Nothing));
    press(&mut app, KeyCode::Char('x'));
    assert_eq!(app.send_file.file_path(), "/d/a.txt");

    app.on_send_update(SendUpdate::Progress {
        generation: 1,
        sent: 5,
        total: 10,
    });
    assert_eq!((app.send_file.sent, app.send_file.total), (5, 10));
    app.on_send_update(SendUpdate::Progress {
        generation: 0,
        sent: 9,
        total: 10,
    });
    assert_eq!((app.send_file.sent, app.send_file.total), (5, 10));
    app.on_send_update(SendUpdate::Progress {
        generation: 1,
        sent: 11,
        total: 10,
    });
    assert_eq!((app.send_file.sent, app.send_file.total), (10, 10));

    press(&mut app, KeyCode::Esc);
    assert_eq!(status(&app), ("Send cancelled", MessageLevel::Info));
    assert_eq!(app.send_generation, 2);
    assert!(!app.send_file.is_sending);
    assert_eq!(app.send_file.file_path(), "");
}

#[test]
fn a_path_without_name_is_called_file() {
    let mut app = test_app();
    choosing_a_file(&mut app, "/");
    let probe = match press(&mut app, KeyCode::Enter) {
        Effect::Probe(probe) => probe,
        other => panic!("expected a probe, got {other:?}"),
    };
    sent(app.file_probed(probe, true));
    assert_eq!(status(&app), ("Sending file...", MessageLevel::Info));
    press(&mut app, KeyCode::Esc);
    press(&mut app, KeyCode::Enter);
    type_text(&mut app, "/d");
    let probe = match press(&mut app, KeyCode::Enter) {
        Effect::Probe(probe) => probe,
        other => panic!("expected a probe, got {other:?}"),
    };
    sent(app.file_probed_as(probe, true, Some("other".to_string())));
    assert_eq!(status(&app), ("Sending other...", MessageLevel::Info));
}

#[test]
fn a_pin_goes_with_the_same_send() {
    let mut app = test_app();
    writing_to(&mut app, "a");
    type_text(&mut app, "secret");
    let first = sent(press(&mut app, KeyCode::Enter));
    app.on_send_update(SendUpdate::NeedsPin {
        generation: first.generation,
        kind: SendKind::Text,
    });
    assert_eq!(status(&app), ("PIN required by receiver", MessageLevel::Info));
    assert!(!app.send_text.is_sending);
    app.maybe_open_pin_prompt();
    type_text(&mut app, "q12");
    let retry = sent(press(&mut app, KeyCode::Enter));
    assert_eq!(retry.pin.as_deref(), Some("q12"));
    assert_eq!(retry.target.alias, "a");
    assert!(matches!(retry.payload, Payload::Text { message } if message == "secret"));
    assert_ne!(retry.generation, first.generation);
    assert!(app.popup.is_none());
    assert_eq!(app.pending_pin_kind, None);
}

#[test]
fn a_pin_goes_with_the_same_file() {
    let mut app = test_app();
    choosing_a_file(&mut app, "/d/a");
    app.pending_pin_kind = Some(SendKind::File);
    app.maybe_open_pin_prompt();
    type_text(&mut app, "99");
    match press(&mut app, KeyCode::Enter) {
        Effect::Probe(probe) => {
            assert_eq!(probe.pin.as_deref(), Some("99"));
            assert_eq!(probe.path, PathBuf::from("/d/a"));
        }
        other => panic!("expected a probe, got {other:?}"),
    }
}

#[test]
fn a_pin_prompt_can_be_left() {
    let mut app = test_app();
    app.pending_pin_kind = Some(SendKind::Text);
    app.maybe_open_pin_prompt();
    press(&mut app, KeyCode::Enter);
    assert_eq!(status(&app), ("Send cancelled (no PIN)", MessageLevel::Info));
    assert_eq!(app.pending_pin_kind, None);
    assert_eq!(app.send_generation, 0);

    app.pending_pin_kind = Some(SendKind::Text);
    app.maybe_open_pin_prompt();
    type_text(&mut app, "1");
    press(&mut app, KeyCode::Esc);
    assert_eq!(status(&app), ("Send cancelled", MessageLevel::Info));
    assert_eq!(app.pending_pin_kind, None);
    assert_eq!(app.send_generation, 1);
    assert!(app.popup.is_none());
}

#[test]
fn dialogs_answer_with_the_selection() {
    let mut app = test_app();
    let mut rx = show(&mut app, &["a", "b", "c"]);
    press(&mut app, KeyCode::Char('j'));
    press(&mut app, KeyCode::Char(' '));
    assert!(matches!(press(&mut app, KeyCode::Enter), Effect::Nothing));
    assert_eq!(
        rx.try_recv(),
        Ok(TransferDecision::AcceptFiles(ids(&["a", "c"])))
    );
    assert_eq!(status(&app), ("Accepting 2 file(s)", MessageLevel::Info));
    assert!(app.popup.is_none());

    let mut rx = show(&mut app, &["a", "b"]);
    assert!(matches!(press(&mut app, KeyCode::Enter), Effect::Nothing));
    assert_eq!(rx.try_recv(), Ok(TransferDecision::Accept));

    let mut rx = show(&mut app, &["a", "b"]);
    press(&mut app, KeyCode::Char('a'));
    assert!(matches!(press(&mut app, KeyCode::Enter), Effect::Nothing));
    assert_eq!(rx.try_recv(), Ok(TransferDecision::Decline));
    assert_eq!(status(&app), ("Transfer declined", MessageLevel::Info));

    let mut rx = show(&mut app, &["a", "b"]);
    for key in [
        KeyCode::Char('A'),
        KeyCode::Char('A'),
        KeyCode::Up,
        KeyCode::Down,
        KeyCode::Down,
        KeyCode::Char('k'),
        KeyCode::Char(' '),
        KeyCode::Char('z'),
    ] {
        assert!(matches!(press(&mut app, key), Effect::Nothing));
    }
    assert!(matches!(press(&mut app, KeyCode::Enter), Effect::Nothing));
    assert_eq!(
        rx.try_recv(),
        Ok(TransferDecision::AcceptFiles(ids(&["b"])))
    );
}

#[test]
fn dialogs_have_shortcuts() {
    for (key, decision) in [
        (KeyCode::Char('y'), TransferDecision::Accept),
        (KeyCode::Char('Y'), TransferDecision::Accept),
        (KeyCode::Char('n'), TransferDecision::Decline),
        (KeyCode::Char('N'), TransferDecision::Decline),
        (KeyCode::Esc, TransferDecision::Decline),
    ] {
        let mut app = test_app();
        let mut rx = show(&mut app, &["a", "b"]);
        press(&mut app, KeyCode::Char(' '));
        assert!(matches!(press(&mut app, key), Effect::Nothing));
        assert_eq!(rx.try_recv(), Ok(decision));
        assert!(app.popup.is_none());
    }
}

#[test]
fn a_busy_dialog_declines_transfers() {
    let mut app = test_app();
    let mut first = show(&mut app, &["a"]);
    let (second, mut rx) = request(&["b"]);
    app.on_server_event(ServerEvent::TransferRequest(second));
    assert_eq!(rx.try_recv(), Ok(TransferDecision::Decline));
    assert!(first.try_recv().is_err());
    assert!(matches!(press(&mut app, KeyCode::Char('y')), Effect::Nothing));
    assert_eq!(first.try_recv(), Ok(TransferDecision::Accept));
}

#[test]
fn a_pin_prompt_comes_back_after_a_transfer() {
    let mut app = test_app();
    app.pending_pin_kind = Some(SendKind::Text);
    app.maybe_open_pin_prompt();
    let _rx = show(&mut app, &["a"]);
    app.maybe_open_pin_prompt();
    assert!(matches!(app.popup, Some(Popup::TransferConfirm(_))));
    assert!(matches!(press(&mut app, KeyCode::Char('n')), Effect::Nothing));
    app.maybe_open_pin_prompt();
    assert!(matches!(app.popup, Some(Popup::PinEntry { .. })));
}

#[test]
fn server_events_are_shown() {
    let mut app = test_app();
    app.dirty = false;
    app.on_server_event(ServerEvent::TextReceived {
        session_id: SessionId::new(),
        text: "hi".to_string(),
        sender_alias: "peer".to_string(),
    });
    assert_eq!(status(&app), ("Message from peer: hi", MessageLevel::Success));
    assert!(app.dirty);
    app.on_server_event(ServerEvent::SessionDone {
        session_id: SessionId::new(),
    });
    assert_eq!(status(&app), ("✓ Transfer complete", MessageLevel::Success));
    app.on_server_event_at(
        ServerEvent::FileReceived {
            session_id: SessionId::new(),
            file_id: FileId::new(),
            file_name: "a.txt".to_string(),
            path: PathBuf::from("/d/a.txt"),
            size: 5,
            sender_alias: "peer".to_string(),
            message_text: None,
        },
        "then".to_string(),
    );
    app.on_server_event(ServerEvent::FileReceived {
        session_id: SessionId::new(),
        file_id: FileId::new(),
        file_name: "b.txt".to_string(),
        path: PathBuf::from("/d/b.txt"),
        size: 6,
        sender_alias: "peer".to_string(),
        message_text: None,
    });
    assert_eq!(app.received_files.len(), 2);
    assert_eq!(app.received_files[0].time, "then");
    assert_eq!(app.received_files[0].sender, "peer");
    assert_eq!(app.received_files[1].file_name, "b.txt");
    let time = app.received_files[1].time.as_bytes();
    assert_eq!(time.len(), 19);
    for (i, byte) in time.iter().enumerate() {
        match i {
            4 | 7 => assert_eq!(*byte, b'-'),
            10 => assert_eq!(*byte, b' '),
            13 | 16 => assert_eq!(*byte, b':'),
            _ => assert!(byte.is_ascii_digit()),
        }
    }
    app.on_server_event(ServerEvent::WebShareSessionDone {
        session_id: SessionId::new(),
    });
    assert_eq!(status(&app), ("✓ Transfer complete", MessageLevel::Success));

    app.screen = Screen::Receive;
    press(&mut app, KeyCode::Down);
    press(&mut app, KeyCode::Down);
    match press(&mut app, KeyCode::Enter) {
        Effect::Reveal(path) => assert_eq!(path, PathBuf::from("/d/b.txt")),
        other => panic!("expected a path, got {other:?}"),
    }
    app.revealed(None);
    assert_eq!(status(&app), ("Revealed in file manager", MessageLevel::Info));
    app.revealed(Some("no".to_string()));
    assert_eq!(status(&app), ("Could not reveal: no", MessageLevel::Error));
    press(&mut app, KeyCode::Up);
    match press(&mut app, KeyCode::Enter) {
        Effect::Reveal(path) => assert_eq!(path, PathBuf::from("/d/a.txt")),
        other => panic!("expected a path, got {other:?}"),
    }
}

#[test]
fn an_empty_inbox_reveals_nothing() {
    let mut app = test_app();
    app.screen = Screen::Receive;
    assert!(matches!(press(&mut app, KeyCode::Enter), Effect::Nothing));
    press(&mut app, KeyCode::Down);
    assert_eq!(app.receive.selected, 0);
}

#[test]
fn auto_accept_toggles() {
    let mut app = test_app();
    app.screen = Screen::Settings;
    assert!(matches!(
        press(&mut app, KeyCode::Enter),
        Effect::SetAutoAccept(true)
    ));
    assert_eq!(status(&app), ("Auto-accept ON", MessageLevel::Info));
    assert!(matches!(
        press(&mut app, KeyCode::Char('A')),
        Effect::SetAutoAccept(false)
    ));
    assert_eq!(status(&app), ("Auto-accept OFF", MessageLevel::Info));
    assert!(matches!(
        press(&mut app, KeyCode::Char('x')),
        Effect::Nothing
    ));
    assert!(!app.settings.auto_accept);
}

#[test]
fn a_refresh_starts_a_new_search() {
    for screen in [Screen::SendText, Screen::SendFile] {
        let mut app = test_app();
        app.screen = screen;
        app.on_discovered(peer("a", "10.0.0.1"));
        app.refresh_device_count(10_000);
        assert_eq!(app.last_device_count, 1);
        assert!(!app.is_scanning(10_000));
        let (effect, announce) = app.handle_key(KeyCode::Char('R'), 10_000);
        assert!(matches!(effect, Effect::Nothing));
        assert!(announce);
        assert!(app.devices.is_empty());
        assert!(app.is_scanning(12_999));
        assert!(!app.is_scanning(13_000));
        assert_eq!(status(&app), ("Refreshing devices...", MessageLevel::Info));
        assert!(!app.handle_key(KeyCode::Down, 10_000).1);
    }
}

#[test]
fn frames_are_due_while_searching_and_when_it_ends() {
    let mut app = test_app();
    app.dirty = false;
    app.refresh_device_count(2_999);
    assert!(app.dirty);
    app.dirty = false;
    app.refresh_device_count(3_000);
    assert!(app.dirty);
    app.dirty = false;
    app.refresh_device_count(3_001);
    assert!(!app.dirty);
    app.on_discovered(peer("a", "10.0.0.1"));
    app.refresh_device_count(3_002);
    assert!(app.dirty);
    app.prepare_frame(0);
    assert!(!app.send_text.scanning);
}

#[test]
fn the_status_bar_tells_what_goes_on() {
    let mut app = test_app();
    app.on_discovered(peer("a", "10.0.0.1"));
    assert_eq!(
        app.status_bar(),
        vec!["📲 t", " | ", "📱 1 devices ", "| ", "🟢 Listening on 0 "]
    );
    assert_eq!(app.last_device_count, 1);
    app.revealed(None);
    assert_eq!(
        app.status_bar()[5..],
        ["| ".to_string(), "Revealed in file manager".to_string()]
    );
    app.prepare_frame(0);
    assert!(!app.send_file.scanning);
}

#[test]
fn devices_are_chosen_with_the_cursor() {
    let mut app = test_app();
    for (name, ip) in [("a", "10.0.0.1"), ("b", "10.0.0.2"), ("c", "10.0.0.3")] {
        app.on_discovered(peer(name, ip));
    }
    for key in [
        KeyCode::Down,
        KeyCode::Char('j'),
        KeyCode::Down,
        KeyCode::Char('k'),
    ] {
        press(&mut app, key);
    }
    press(&mut app, KeyCode::Enter);
    assert_eq!(app.send_text.selected_device.as_ref().unwrap().alias, "b");
    press(&mut app, KeyCode::Esc);
    assert_eq!(app.send_text.stage, SendTextStage::SelectDevice);
    assert!(app.status_message.is_none());
}

#[test]
fn an_empty_list_has_nothing_to_choose() {
    let mut app = test_app();
    press(&mut app, KeyCode::Enter);
    assert_eq!(app.send_text.stage, SendTextStage::SelectDevice);
    app.screen = Screen::SendFile;
    press(&mut app, KeyCode::Enter);
    assert_eq!(app.send_file.stage, SendFileStage::SelectDevice);
}

#[test]
fn file_offers_are_described() {
    let id = FileId::new();
    let offer = file_offer(id.clone(), "a.png".to_string(), 7, Some("h".to_string()));
    assert_eq!(offer.id, id);
    assert_eq!(offer.file_name, "a.png");
    assert_eq!(offer.file_type, "image/png");
    assert_eq!(offer.size, 7);
    assert_eq!(offer.sha256.as_deref(), Some("h"));
    assert!(offer.preview.is_none());
}
