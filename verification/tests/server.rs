use localsend_rs::cli::receive::{
    confirmed, event_action, event_line, event_line_as, ReceiveAction,
};
use localsend_rs::cli::ReceiveCommand;
use localsend_rs::id_map::IdMap;
use localsend_rs::protocol::{
    DeviceInfo, DeviceType, FileId, FileMetadata, PeerIp, PrepareUploadRequest, Protocol,
    SessionId, TlsCertificate,
};
use localsend_rs::server::events::{
    PendingRequest, PendingWebShareRequest, ServerEvent, TransferDecision,
};
use localsend_rs::server::handlers::PrepareUploadStep;
use localsend_rs::server::LocalSendServer;
use std::path::PathBuf;
use std::time::Duration;

fn certificate() -> TlsCertificate {
    TlsCertificate {
        cert_pem: "cert".to_string(),
        key_pem: "key".to_string(),
        fingerprint: "fp".to_string(),
    }
}

#[test]
fn builders_start_from_the_defaults() {
    let builder = LocalSendServer::builder();
    assert_eq!(builder.alias, "LocalSend-Rust");
    assert_eq!(builder.port, 53317);
    assert_eq!(builder.save_dir, PathBuf::from("./downloads"));
    assert_eq!(builder.protocol, Protocol::Http);
    assert_eq!(builder.pin, None);
    assert!(!builder.auto_accept);
    assert_eq!(builder.accept_timeout, Duration::from_secs(60));
    assert!(builder.tls_certificate.is_none());
    assert!(!builder.needs_certificate());
}

#[test]
fn builders_keep_what_is_set() {
    let server = LocalSendServer::builder()
        .alias("name".to_string())
        .port(1)
        .save_dir(PathBuf::from("/d"))
        .protocol(Protocol::Https)
        .pin("1".to_string())
        .auto_accept(true)
        .accept_timeout(Duration::from_millis(5))
        .tls_certificate(certificate())
        .build(None, "model".to_string(), DeviceType::Server);
    assert_eq!(server.device().alias, "name");
    assert_eq!(server.device().version, "2.1");
    assert_eq!(server.device().device_model.as_deref(), Some("model"));
    assert_eq!(server.device().device_type, Some(DeviceType::Server));
    assert_eq!(server.device().fingerprint, "fp");
    assert_eq!(server.device().protocol, Protocol::Https);
    assert!(!server.device().download);
    assert_eq!(server.port(), 1);
    assert_eq!(server.save_dir, PathBuf::from("/d"));
    assert_eq!(server.pin.as_deref(), Some("1"));
    assert_eq!(server.accept_timeout, Duration::from_millis(5));
    assert!(server.https);
    assert!(server.auto_accept());
    assert!(!server.needs_certificate());
    assert_eq!(server.tls_cert.unwrap().cert_pem, "cert");
}

#[test]
fn https_uses_the_certificate_that_was_made() {
    let builder = LocalSendServer::builder().protocol(Protocol::Https);
    assert!(builder.needs_certificate());
    let server = builder.build(Some(certificate()), "m".to_string(), DeviceType::Desktop);
    assert_eq!(server.device().fingerprint, "fp");
    assert_eq!(server.tls_cert.as_ref().unwrap().key_pem, "key");
}

#[test]
fn http_has_an_identity_of_its_own() {
    let server = LocalSendServer::builder().tls_certificate(certificate()).build_as(
        None,
        "random".to_string(),
        "m".to_string(),
        DeviceType::Desktop,
    );
    assert_eq!(server.device().fingerprint, "random");
    assert!(server.tls_cert.is_none());
    let other = LocalSendServer::builder().build(None, "m".to_string(), DeviceType::Desktop);
    assert_eq!(other.device().fingerprint.len(), 36);
}

#[test]
fn starting_takes_the_bound_port() {
    let mut server = LocalSendServer::builder()
        .port(0)
        .build(None, "m".to_string(), DeviceType::Desktop);
    assert_eq!(server.listen_address(), "0.0.0.0:0");
    assert!(server.state.is_none());
    server.started(50123);
    assert_eq!(server.port(), 50123);
    assert_eq!(server.listen_address(), "0.0.0.0:50123");
    let state = server.state.as_ref().unwrap();
    assert_eq!(state.device.port, 50123);
    assert!(state.current_session.is_none());
    assert!(state.web_share.is_none());
}

#[test]
fn events_are_taken_once() {
    let mut server = LocalSendServer::builder().build(None, "m".to_string(), DeviceType::Desktop);
    assert!(server.take_events().is_none());
    let sender = server.open_events();
    server.started(1);
    let mut events = server.take_events().unwrap();
    assert!(server.take_events().is_none());
    assert_eq!(sender.max_capacity(), 64);
    let done = ServerEvent::SessionDone {
        session_id: SessionId::from_string("s1".to_string()),
    };
    assert!(sender.try_send(done).is_ok());
    assert!(matches!(
        events.try_recv(),
        Ok(ServerEvent::SessionDone { session_id }) if session_id.as_str() == "s1"
    ));
    server.open_events();
    assert!(server.take_events().is_some());
}

#[test]
fn certificates_can_be_set_later() {
    let mut server = LocalSendServer::from_parts(
        DeviceInfo::new("a".to_string(), 1, Protocol::Https),
        PathBuf::from("."),
        true,
        None,
        false,
        Duration::from_secs(1),
    );
    assert!(server.needs_certificate());
    server.set_tls_certificate(certificate());
    assert!(!server.needs_certificate());
}

fn offer() -> PrepareUploadRequest {
    let mut files: IdMap<FileMetadata> = IdMap::new();
    files.insert(
        "a".to_string(),
        FileMetadata {
            id: FileId::from_string("a".to_string()),
            file_name: "a".to_string(),
            size: 1,
            file_type: "t".to_string(),
            sha256: None,
            preview: None,
            metadata: None,
        },
    );
    PrepareUploadRequest {
        info: DeviceInfo::new("peer".to_string(), 1, Protocol::Http),
        files,
    }
}

#[test]
fn auto_accept_is_live() {
    let mut server = LocalSendServer::builder().build(None, "m".to_string(), DeviceType::Desktop);
    server.set_auto_accept(true);
    assert!(server.auto_accept());
    server.set_auto_accept(false);
    server.started(1);
    let peer = PeerIp::V4(1);
    assert!(matches!(
        server.state.as_mut().unwrap().begin_prepare_upload(None, peer, &offer(), 0),
        PrepareUploadStep::Ask(_, _)
    ));
    server.state.as_mut().unwrap().current_session = None;
    server.set_auto_accept(true);
    assert!(matches!(
        server.state.as_mut().unwrap().begin_prepare_upload(None, peer, &offer(), 0),
        PrepareUploadStep::Accepted
    ));
}

fn command() -> ReceiveCommand {
    ReceiveCommand {
        directory: PathBuf::from("./in"),
        port: 53317,
        pin: None,
        auto_accept: false,
        no_https: false,
    }
}

#[test]
fn receive_tells_how_it_starts() {
    assert_eq!(
        command().banner(false),
        vec![
            "Starting LocalSend server on port 53317",
            "Save directory: ./in",
            "Transport: HTTPS",
        ]
    );
    let mut all = command();
    all.pin = Some("123".to_string());
    all.auto_accept = true;
    all.no_https = true;
    assert_eq!(
        all.banner(true),
        vec![
            "Created download directory: ./in",
            "Starting LocalSend server on port 53317",
            "Save directory: ./in",
            "PIN required: 123",
            "Auto-accept mode ENABLED - files will be accepted without confirmation!",
            "Transport: HTTP",
        ]
    );
    assert_eq!(
        command().banner_as("elsewhere", false)[1],
        "Save directory: elsewhere"
    );
}

#[test]
fn receive_builds_its_server() {
    let mut with_pin = command();
    with_pin.pin = Some("123".to_string());
    with_pin.auto_accept = true;
    let builder = with_pin.server_builder();
    assert_eq!(builder.alias, "LocalSend-Rust");
    assert_eq!(builder.port, 53317);
    assert_eq!(builder.save_dir, PathBuf::from("./in"));
    assert_eq!(builder.protocol, Protocol::Https);
    assert_eq!(builder.pin.as_deref(), Some("123"));
    assert!(builder.auto_accept);
    let mut plain = command();
    plain.no_https = true;
    assert_eq!(plain.protocol(), Protocol::Http);
    assert_eq!(plain.server_builder().pin, None);
}

#[test]
fn receive_tells_of_events() {
    let (pending, mut rx) = PendingRequest::new(offer().info, offer().files);
    let event = ServerEvent::TransferRequest(pending);
    assert_eq!(
        event_line(&event).as_deref(),
        Some("Incoming transfer from 'peer' (1 file(s))")
    );
    match event_action(event, false) {
        ReceiveAction::Confirm(pending) => {
            confirmed(pending, None);
        }
        other => panic!("unexpected action: {other:?}"),
    }
    assert_eq!(rx.try_recv(), Ok(TransferDecision::Decline));
    let text = ServerEvent::TextReceived {
        session_id: SessionId::new(),
        text: "hi".to_string(),
        sender_alias: "peer".to_string(),
    };
    assert_eq!(event_line(&text).as_deref(), Some("Message from peer: hi"));
    assert!(matches!(event_action(text, true), ReceiveAction::Nothing));
    let file = ServerEvent::FileReceived {
        session_id: SessionId::new(),
        file_id: FileId::new(),
        file_name: "a.txt".to_string(),
        path: PathBuf::from("/d/a.txt"),
        size: 12,
        sender_alias: "peer".to_string(),
        message_text: None,
    };
    assert_eq!(
        event_line(&file).as_deref(),
        Some("Received 'a.txt' (12 bytes) from peer -> /d/a.txt")
    );
    assert_eq!(
        event_line_as(&file, "there").as_deref(),
        Some("Received 'a.txt' (12 bytes) from peer -> there")
    );
    let done = ServerEvent::SessionDone {
        session_id: SessionId::from_string("s1".to_string()),
    };
    assert_eq!(event_line(&done).as_deref(), Some("Session s1 complete"));
    let share = ServerEvent::WebShareRequest(PendingWebShareRequest::new(
        SessionId::new(),
        PeerIp::V4(1),
    ));
    assert_eq!(event_line(&share), None);
    assert!(matches!(event_action(share, true), ReceiveAction::Nothing));
}

#[test]
fn receive_answers_transfers() {
    for (answer, decision) in [
        (Some(true), TransferDecision::Accept),
        (Some(false), TransferDecision::Decline),
    ] {
        let (pending, mut rx) = PendingRequest::new(offer().info, offer().files);
        confirmed(pending, answer);
        assert_eq!(rx.try_recv(), Ok(decision));
    }
    let (pending, mut rx) = PendingRequest::new(offer().info, offer().files);
    assert!(matches!(
        event_action(ServerEvent::TransferRequest(pending), true),
        ReceiveAction::Nothing
    ));
    assert_eq!(rx.try_recv(), Ok(TransferDecision::Accept));
}
