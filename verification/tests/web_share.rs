use localsend_rs::error::LocalSendError;
use localsend_rs::protocol::{DeviceType, FileId, PeerIp, Protocol, SessionId, Status};
use localsend_rs::server::events::ServerEvent;
use localsend_rs::server::web_share::{
    content_disposition, disk_failure_status, download_events, DiskFailure,
    PrepareDownloadResponse, PrepareDownloadStep,
};
use localsend_rs::server::{LocalSendServer, WebShareFile, WebShareSource};
use std::path::PathBuf;
use tokio::sync::oneshot::error::TryRecvError;

const BROWSER: PeerIp = PeerIp::V4(0x7f000001);
const ELSEWHERE: PeerIp = PeerIp::V4(0x0a000001);

fn running(auto_accept: bool) -> LocalSendServer {
    let mut server = LocalSendServer::builder()
        .alias("Browser sender".to_string())
        .port(0)
        .protocol(Protocol::Http)
        .auto_accept(auto_accept)
        .build(None, "model".to_string(), DeviceType::Desktop);
    server.started(4242);
    server
}

fn prepare(server: &mut LocalSendServer, pin: Option<&str>) -> PrepareDownloadStep {
    server
        .state
        .as_mut()
        .unwrap()
        .begin_prepare_download(None, pin, BROWSER)
}

fn files(step: PrepareDownloadStep) -> PrepareDownloadResponse {
    match step {
        PrepareDownloadStep::Files(response) => response,
        other => panic!("expected files, got {other:?}"),
    }
}

fn refusal(step: PrepareDownloadStep) -> (Status, &'static str) {
    match step {
        PrepareDownloadStep::Refuse(refusal) => (refusal.status, refusal.text),
        other => panic!("expected a refusal, got {other:?}"),
    }
}

fn bytes_of(file: &WebShareFile) -> Vec<u8> {
    match &file.source {
        WebShareSource::Inline(bytes) => bytes.as_ref().clone(),
        WebShareSource::Path(path) => panic!("{path:?} is on disk"),
    }
}

fn says(result: Result<(), LocalSendError>, words: &str) -> bool {
    matches!(result, Err(LocalSendError::InvalidState { message }) if message == words)
}

#[test]
fn approved_browser_session_downloads_exact_bytes() {
    let fixture = b"crosscopy-web-share\nsecond line";
    let mut server = running(true);
    server
        .start_web_share(
            vec![WebShareFile::inline("hello.txt".to_string(), fixture.to_vec())],
            None,
            true,
        )
        .expect("web share starts");
    assert!(server.device().download);

    let response = files(prepare(&mut server, None));
    assert!(response.info.download);
    assert_eq!(response.info.alias, "Browser sender");
    assert_eq!(response.files.len(), 1);
    let file_id = FileId::from_string(response.files.key_at(0).clone());
    let metadata = response.files.value_at(0);
    assert_eq!(metadata.file_name, "hello.txt");
    assert_eq!(metadata.file_type, "text/plain");
    assert_eq!(metadata.size, 31);

    let state = server.state.as_ref().unwrap();
    let file = state
        .admit_download(&response.session_id, &file_id, BROWSER)
        .expect("download accepted");
    assert_eq!(bytes_of(file), fixture);
    assert_eq!(
        state
            .admit_download(&response.session_id, &file_id, ELSEWHERE)
            .unwrap_err(),
        Status::Forbidden
    );

    server.stop_web_share().expect("web share stops");
    assert!(!server.device().download);
    assert_eq!(
        refusal(prepare(&mut server, None)),
        (Status::Forbidden, "Web share not initialized")
    );
    assert_eq!(
        server
            .state
            .as_ref()
            .unwrap()
            .admit_download(&response.session_id, &file_id, BROWSER)
            .unwrap_err(),
        Status::Forbidden
    );
}

#[test]
fn browser_prepare_waits_for_explicit_approval() {
    let mut server = running(false);
    server
        .start_web_share(
            vec![WebShareFile::inline("hello.txt".to_string(), b"approved".to_vec())],
            None,
            false,
        )
        .expect("web share starts");
    let (pending, mut answer) = match prepare(&mut server, None) {
        PrepareDownloadStep::Ask(pending, answer) => (pending, answer),
        other => panic!("unexpected step: {other:?}"),
    };
    assert_eq!(pending.ip(), BROWSER);
    let id = pending.session_id().clone();
    let file_id = {
        let web = server.state.as_ref().unwrap().web_share.as_ref().unwrap();
        FileId::from_string(web.files.key_at(0).clone())
    };
    assert!(server
        .state
        .as_ref()
        .unwrap()
        .admit_download(&id, &file_id, BROWSER)
        .is_err());
    assert!(matches!(answer.try_recv(), Err(TryRecvError::Empty)));
    server.respond_web_share(&id, true).expect("approve request");
    assert!(matches!(answer.try_recv(), Ok(true)));
    assert!(says(
        server.respond_web_share(&id, true),
        "Unknown or already answered Web Share request"
    ));
    let state = server.state.as_mut().unwrap();
    let response = state
        .finish_prepare_download(&id, Some(true))
        .expect("approved");
    assert_eq!(response.session_id, id);
    assert_eq!(
        bytes_of(state.admit_download(&id, &file_id, BROWSER).unwrap()),
        b"approved"
    );
    let again = files(state.begin_prepare_download(Some(&id), None, BROWSER));
    assert_eq!(again.session_id, id);
    assert!(matches!(
        state.begin_prepare_download(Some(&id), None, ELSEWHERE),
        PrepareDownloadStep::Ask(_, _)
    ));
}

#[test]
fn refused_browsers_get_nothing() {
    let mut server = running(false);
    server
        .start_web_share(
            vec![WebShareFile::inline("a".to_string(), vec![1])],
            None,
            false,
        )
        .unwrap();
    for (answer, text) in [(Some(false), "File transfer rejected"), (None, "")] {
        let (id, _rx) = match prepare(&mut server, None) {
            PrepareDownloadStep::Ask(pending, rx) => (pending.session_id().clone(), rx),
            other => panic!("unexpected step: {other:?}"),
        };
        let state = server.state.as_mut().unwrap();
        let refusal = state.finish_prepare_download(&id, answer).unwrap_err();
        assert_eq!(refusal.status, Status::Forbidden);
        assert_eq!(refusal.text, text);
        let web = state.web_share.as_ref().unwrap();
        assert_eq!(web.sessions.contains_key(id.as_str()), answer.is_none());
        assert!(!web.is_granted(&id, BROWSER));
    }
}

#[test]
fn a_share_that_stopped_meanwhile_refuses() {
    let mut server = running(false);
    server
        .start_web_share(
            vec![WebShareFile::inline("a".to_string(), vec![1])],
            None,
            false,
        )
        .unwrap();
    let id = match prepare(&mut server, None) {
        PrepareDownloadStep::Ask(pending, _) => pending.session_id().clone(),
        other => panic!("unexpected step: {other:?}"),
    };
    server.stop_web_share().unwrap();
    let refusal = server
        .state
        .as_mut()
        .unwrap()
        .finish_prepare_download(&id, Some(true))
        .unwrap_err();
    assert_eq!((refusal.status, refusal.text), (Status::Forbidden, ""));
    assert!(says(
        server.respond_web_share(&id, true),
        "Unknown or already answered Web Share request"
    ));
}

#[test]
fn a_browser_that_left_is_reported() {
    let mut server = running(false);
    server
        .start_web_share(
            vec![WebShareFile::inline("a".to_string(), vec![1])],
            None,
            false,
        )
        .unwrap();
    let (id, answer) = match prepare(&mut server, None) {
        PrepareDownloadStep::Ask(pending, answer) => (pending.session_id().clone(), answer),
        other => panic!("unexpected step: {other:?}"),
    };
    drop(answer);
    assert!(says(
        server.respond_web_share(&id, false),
        "Web Share requester disconnected"
    ));
    assert!(says(
        server.respond_web_share(&id, false),
        "Unknown or already answered Web Share request"
    ));
}

#[test]
fn browser_share_pin_uses_receiver_rate_limit() {
    let mut server = running(true);
    server
        .start_web_share(
            vec![WebShareFile::inline("secret.txt".to_string(), b"secret".to_vec())],
            Some("123456".to_string()),
            true,
        )
        .expect("web share starts");
    for _ in 0..3 {
        assert_eq!(
            refusal(prepare(&mut server, Some("wrong"))),
            (Status::Unauthorized, "")
        );
    }
    assert_eq!(
        refusal(prepare(&mut server, Some("123456"))),
        (Status::TooManyRequests, "")
    );
    let state = server.state.as_mut().unwrap();
    assert!(matches!(
        state.begin_prepare_download(None, Some("123456"), ELSEWHERE),
        PrepareDownloadStep::Files(_)
    ));
}

#[test]
fn browser_share_streams_disk_files_and_rejects_unknown_file_ids() {
    let mut server = running(true);
    let path = PathBuf::from("/tmp/report.txt");
    let file = WebShareFile::path(path.clone(), "report.txt".to_string(), 29);
    assert_eq!(file.metadata.size, 29);
    assert_eq!(file.metadata.file_type, "text/plain");
    let file_id = file.metadata.id.clone();
    server
        .start_web_share(vec![file], None, true)
        .expect("web share starts");
    let response = files(prepare(&mut server, None));
    let state = server.state.as_ref().unwrap();
    assert_eq!(
        state
            .admit_download(&response.session_id, &FileId::new(), BROWSER)
            .unwrap_err(),
        Status::Forbidden
    );
    let file = state
        .admit_download(&response.session_id, &file_id, BROWSER)
        .expect("download accepted");
    assert!(matches!(&file.source, WebShareSource::Path(p) if *p == path));
    assert_eq!(
        content_disposition(&file.metadata.file_name),
        "attachment; filename=\"report.txt\""
    );
}

#[test]
fn names_in_headers_are_safe() {
    assert_eq!(
        content_disposition("../a\\b\"c\".txt"),
        "attachment; filename=\"..-a-bc.txt\""
    );
    assert_eq!(content_disposition(""), "attachment; filename=\"\"");
    assert_eq!(
        content_disposition("größe ✓.txt"),
        "attachment; filename=\"größe ✓.txt\""
    );
}

#[test]
fn media_types_come_from_the_name() {
    for (name, kind) in [
        ("a.png", "image/png"),
        ("a.html", "text/html"),
        ("noextension", "application/octet-stream"),
    ] {
        let file = WebShareFile::inline(name.to_string(), vec![]);
        assert_eq!(file.metadata.file_type, kind);
        assert_eq!(file.metadata.size, 0);
    }
}

#[test]
fn downloads_are_told_with_their_length() {
    let session = SessionId::new();
    let file = FileId::new();
    let events = download_events(session.clone(), file.clone(), 31);
    assert_eq!(events.len(), 2);
    assert!(matches!(
        &events[0],
        ServerEvent::WebShareDownloadProgress { session_id, file_id, bytes_sent: 31, total_bytes: 31 }
            if *session_id == session && *file_id == file
    ));
    assert!(matches!(
        &events[1],
        ServerEvent::WebShareSessionDone { session_id } if *session_id == session
    ));
    assert_eq!(disk_failure_status(DiskFailure::Open), Status::NotFound);
    assert_eq!(
        disk_failure_status(DiskFailure::Metadata),
        Status::InternalServerError
    );
}

#[test]
fn pages_are_served_with_a_share_only() {
    let mut server = running(true);
    {
        let state = server.state.as_ref().unwrap();
        assert_eq!(state.web_page_status(), Status::Forbidden);
        assert_eq!(state.web_texts().unwrap_err(), Status::Forbidden);
    }
    server
        .start_web_share(
            vec![WebShareFile::inline("a".to_string(), vec![1])],
            None,
            true,
        )
        .unwrap();
    let state = server.state.as_ref().unwrap();
    assert_eq!(state.web_page_status(), Status::Success);
    assert_eq!(
        state.web_texts().unwrap(),
        vec![
            ("waiting", "Waiting for approval…"),
            ("enterPin", "Enter PIN"),
            ("invalidPin", "Invalid PIN"),
            ("tooManyAttempts", "Too many attempts"),
            ("rejected", "Transfer rejected"),
            ("files", "Files"),
            ("fileName", "File name"),
            ("size", "Size"),
        ]
    );
}

#[test]
fn shares_need_a_file_and_a_running_server() {
    let mut server = running(true);
    assert!(says(
        server.start_web_share(vec![], None, true),
        "Web share requires at least one file"
    ));
    let mut idle =
        LocalSendServer::builder().build(None, "model".to_string(), DeviceType::Desktop);
    assert!(says(
        idle.start_web_share(vec![], None, true),
        "Web share requires at least one file"
    ));
    assert!(says(
        idle.start_web_share(
            vec![WebShareFile::inline("a".to_string(), vec![])],
            None,
            true
        ),
        "Server is not running"
    ));
    assert!(says(idle.stop_web_share(), "Server is not running"));
    assert!(says(
        idle.respond_web_share(&SessionId::new(), true),
        "Server is not running"
    ));
}

#[test]
fn a_refusal_reaches_the_waiting_browser() {
    let mut server = running(false);
    server
        .start_web_share(
            vec![WebShareFile::inline("a".to_string(), vec![1])],
            None,
            false,
        )
        .unwrap();
    let (first, mut first_rx) = match prepare(&mut server, None) {
        PrepareDownloadStep::Ask(pending, rx) => (pending.session_id().clone(), rx),
        other => panic!("unexpected step: {other:?}"),
    };
    let (second, mut second_rx) = match prepare(&mut server, None) {
        PrepareDownloadStep::Ask(pending, rx) => (pending.session_id().clone(), rx),
        other => panic!("unexpected step: {other:?}"),
    };
    server.respond_web_share(&second, false).unwrap();
    assert!(matches!(second_rx.try_recv(), Ok(false)));
    assert!(matches!(first_rx.try_recv(), Err(TryRecvError::Empty)));
    server.respond_web_share(&first, true).unwrap();
    assert!(matches!(first_rx.try_recv(), Ok(true)));
}
