use localsend_rs::client::LocalSendClient;
use localsend_rs::error::LocalSendError;
use localsend_rs::id_map::IdMap;
use localsend_rs::protocol::{
    DeviceInfo, DeviceType, FileId, FileMetadata, PeerIp, PrepareUploadRequest,
    PrepareUploadResponse, Protocol, SessionId, Status, Token,
};
use localsend_rs::server::events::{decision_covers, PendingRequest, ServerEvent, TransferDecision};
use localsend_rs::server::handlers::{
    message_text, store_failure_status, PrepareUploadReply, PrepareUploadStep, StoreAction,
    StoreFailure, StoreOutcome, UploadParams, UploadTicket, SESSION_TTL, SWEEP_PERIOD,
};
use localsend_rs::server::pin::{PinGate, PinVerdict};
use localsend_rs::server::state::ServerState;
use localsend_rs::server::LocalSendServer;
use localsend_rs::session::Session;
use localsend_rs::tui::send::{file_upload, single_offer, text_offer, text_upload};
use std::path::PathBuf;
use tokio::sync::oneshot::error::TryRecvError;

const PEER: PeerIp = PeerIp::V4(0x0a000001);
const OTHER: PeerIp = PeerIp::V6(1);

fn server(pin: Option<&str>, auto_accept: bool) -> ServerState {
    let mut builder = LocalSendServer::builder().port(0).auto_accept(auto_accept);
    if let Some(pin) = pin {
        builder = builder.pin(pin.to_string());
    }
    let mut server = builder.build(None, "model".to_string(), DeviceType::Desktop);
    server.started(4242);
    server.state.take().unwrap()
}

fn file(id: &str, size: u64) -> FileMetadata {
    FileMetadata {
        id: FileId::from_string(id.to_string()),
        file_name: format!("{id}.bin"),
        size,
        file_type: "application/octet-stream".to_string(),
        sha256: None,
        preview: None,
        metadata: None,
    }
}

fn offer(files: Vec<FileMetadata>) -> PrepareUploadRequest {
    let mut map: IdMap<FileMetadata> = IdMap::new();
    for f in files {
        map.insert(f.id.as_str().to_string(), f);
    }
    PrepareUploadRequest {
        info: DeviceInfo::new("Test Sender".to_string(), 0, Protocol::Http),
        files: map,
    }
}

fn reply_status(step: PrepareUploadStep) -> Status {
    match step {
        PrepareUploadStep::Reply(status) => status,
        other => panic!("expected a status, got {other:?}"),
    }
}

fn open_session(
    state: &mut ServerState,
    request: &PrepareUploadRequest,
    decision: Option<TransferDecision>,
    now: u64,
) -> PrepareUploadResponse {
    let _ = state.begin_prepare_upload(None, PEER, request, now);
    match state.finish_prepare_upload(request, decision, now).0 {
        PrepareUploadReply::Session(response) => response,
        other => panic!("expected a session, got {other:?}"),
    }
}

fn params(response: &PrepareUploadResponse, id: &str) -> UploadParams {
    UploadParams {
        session_id: response.session_id.clone(),
        file_id: FileId::from_string(id.to_string()),
        token: response.files.get(id).unwrap().clone(),
    }
}

fn req() -> (
    PendingRequest,
    tokio::sync::oneshot::Receiver<TransferDecision>,
) {
    let sender = DeviceInfo::new("s".to_string(), 53317, Protocol::Http);
    PendingRequest::new(sender, IdMap::new())
}

#[test]
fn accept_sends_accept_decision() {
    let (r, mut rx) = req();
    r.accept();
    assert!(matches!(rx.try_recv(), Ok(TransferDecision::Accept)));
}

#[test]
fn decline_sends_decline_decision() {
    let (r, mut rx) = req();
    r.decline();
    assert!(matches!(rx.try_recv(), Ok(TransferDecision::Decline)));
}

#[test]
fn dropping_request_closes_channel() {
    let (r, mut rx) = req();
    drop(r);
    assert!(matches!(rx.try_recv(), Err(TryRecvError::Closed)));
}

#[test]
fn accepting_some_files_names_them() {
    let (r, mut rx) = req();
    let ids = vec![FileId::from_string("a".to_string())];
    r.accept_files(ids.clone());
    assert_eq!(rx.try_recv(), Ok(TransferDecision::AcceptFiles(ids)));
}

#[test]
fn a_late_answer_comes_back() {
    let (r, rx) = req();
    drop(rx);
    assert_eq!(
        r.answer(TransferDecision::Accept).deliver(),
        Err(TransferDecision::Accept)
    );
    let (gone, rx) = req();
    drop(rx);
    gone.accept_files(vec![]);
}

#[test]
fn a_request_tells_who_asks_and_what_is_offered() {
    let request = offer(vec![file("a", 1)]);
    let (pending, _rx) = PendingRequest::new(request.info, request.files);
    assert_eq!(pending.sender().alias, "Test Sender");
    assert_eq!(pending.files().len(), 1);
}

#[test]
fn decisions_cover_what_they_name() {
    let some = TransferDecision::AcceptFiles(vec![FileId::from_string("a".to_string())]);
    assert!(decision_covers(&TransferDecision::Accept, "b"));
    assert!(decision_covers(&some, "a"));
    assert!(!decision_covers(&some, "b"));
    assert!(!decision_covers(&TransferDecision::Decline, "a"));
}

#[test]
fn pin_comes_before_everything_else() {
    let mut state = server(Some("123456"), true);
    let request = offer(vec![file("a", 1)]);
    let empty = offer(vec![]);
    assert_eq!(
        reply_status(state.begin_prepare_upload(None, PEER, &request, 0)),
        Status::Unauthorized
    );
    assert_eq!(
        reply_status(state.begin_prepare_upload(Some("wrong"), PEER, &empty, 0)),
        Status::Unauthorized
    );
    assert!(state.current_session.is_none());
    assert!(matches!(
        state.begin_prepare_upload(Some("123456"), PEER, &request, 0),
        PrepareUploadStep::Accepted
    ));
    assert_eq!(
        reply_status(state.begin_prepare_upload(Some("wrong"), PEER, &request, 0)),
        Status::Unauthorized
    );
    assert!(state.current_session.is_some());
}

#[test]
fn three_wrong_pins_lock_an_address_out() {
    let mut gate = PinGate::new(Some("123456".to_string()));
    assert_eq!(gate.check(None, PEER), PinVerdict::Unauthorized);
    assert_eq!(gate.check(Some(""), PEER), PinVerdict::Unauthorized);
    for _ in 0..3 {
        assert_eq!(gate.check(Some("wrong"), PEER), PinVerdict::Unauthorized);
    }
    assert_eq!(gate.check(Some("123456"), PEER), PinVerdict::LockedOut);
    assert_eq!(gate.check(None, PEER), PinVerdict::LockedOut);
    assert_eq!(gate.check(Some("123456"), OTHER), PinVerdict::Granted);
}

#[test]
fn without_a_pin_everybody_passes() {
    let mut gate = PinGate::new(None);
    for _ in 0..5 {
        assert_eq!(gate.check(Some("anything"), PEER), PinVerdict::Granted);
    }
    assert_eq!(gate.check(None, PEER), PinVerdict::Granted);
}

#[test]
fn lock_out_is_answered_with_too_many_requests() {
    let mut state = server(Some("123456"), true);
    let request = offer(vec![file("a", 1)]);
    for _ in 0..3 {
        assert_eq!(
            reply_status(state.begin_prepare_upload(Some("wrong"), PEER, &request, 0)),
            Status::Unauthorized
        );
    }
    let status = reply_status(state.begin_prepare_upload(Some("123456"), PEER, &request, 0));
    assert_eq!(status, Status::TooManyRequests);
    assert!(matches!(
        LocalSendClient::prepare_upload_outcome(status.code()),
        Err(LocalSendError::RateLimited)
    ));
}

#[test]
fn an_empty_offer_reserves_nothing() {
    let mut state = server(None, false);
    assert_eq!(
        reply_status(state.begin_prepare_upload(None, PEER, &offer(vec![]), 0)),
        Status::NoContent
    );
    assert!(state.current_session.is_none());
}

#[test]
fn one_session_at_a_time() {
    let mut state = server(None, true);
    let request = offer(vec![file("a", 1)]);
    let first = open_session(&mut state, &request, Some(TransferDecision::Accept), 1000);
    assert_eq!(
        reply_status(state.begin_prepare_upload(None, OTHER, &request, 1300)),
        Status::Conflict
    );
    assert!(state.admit_upload(&params(&first, "a")).is_ok());
    assert!(matches!(
        state.begin_prepare_upload(None, OTHER, &request, 1301),
        PrepareUploadStep::Accepted
    ));
    assert_eq!(
        state.admit_upload(&params(&first, "a")).unwrap_err(),
        Status::Forbidden
    );
}

#[test]
fn silent_sessions_are_swept() {
    let mut state = server(None, true);
    let request = offer(vec![file("a", 1)]);
    assert!(!state.sweep(5000));
    let _ = open_session(&mut state, &request, Some(TransferDecision::Accept), 100);
    assert!(!state.sweep(400));
    assert!(state.current_session.is_some());
    assert!(state.sweep(401));
    assert!(state.current_session.is_none());
}

#[test]
fn asking_shows_the_request() {
    let mut state = server(None, false);
    let request = offer(vec![file("a", 1), file("b", 2)]);
    match state.begin_prepare_upload(None, PEER, &request, 0) {
        PrepareUploadStep::Ask(pending, mut rx) => {
            assert_eq!(pending.sender().alias, "Test Sender");
            assert_eq!(pending.files().len(), 2);
            assert!(matches!(rx.try_recv(), Err(TryRecvError::Empty)));
            pending.accept();
            assert!(matches!(rx.try_recv(), Ok(TransferDecision::Accept)));
        }
        other => panic!("expected a question, got {other:?}"),
    }
    assert!(state.current_session.is_some());
}

#[test]
fn tokens_open_the_uploads_they_were_issued_for() {
    let mut state = server(None, true);
    let request = offer(vec![file("a", 1), file("b", 2), file("c", 3)]);
    let decision = TransferDecision::AcceptFiles(vec![
        FileId::from_string("a".to_string()),
        FileId::from_string("c".to_string()),
        FileId::from_string("never offered".to_string()),
    ]);
    let response = open_session(&mut state, &request, Some(decision), 0);
    assert_eq!(response.files.len(), 2);
    assert!(!response.files.contains_key("b"));
    let ticket = state.admit_upload(&params(&response, "c")).unwrap();
    assert_eq!(ticket.file_name, "c.bin");
    assert_eq!(ticket.declared_size, 3);
    assert_eq!(ticket.sender_alias, "Test Sender");
    let crossed = UploadParams {
        session_id: response.session_id.clone(),
        file_id: FileId::from_string("a".to_string()),
        token: response.files.get("c").unwrap().clone(),
    };
    assert_eq!(state.admit_upload(&crossed).unwrap_err(), Status::Forbidden);
    let foreign = UploadParams {
        session_id: SessionId::new(),
        file_id: FileId::from_string("a".to_string()),
        token: response.files.get("a").unwrap().clone(),
    };
    assert_eq!(state.admit_upload(&foreign).unwrap_err(), Status::Forbidden);
    let unknown = UploadParams {
        session_id: response.session_id.clone(),
        file_id: FileId::from_string("b".to_string()),
        token: Token::new(),
    };
    assert_eq!(state.admit_upload(&unknown).unwrap_err(), Status::Forbidden);
}

#[test]
fn a_token_without_its_file_is_not_found() {
    let mut session = Session::new("s".to_string(), IdMap::new(), 0);
    session.tokens.insert("ghost".to_string(), Token::from_string("t".to_string()));
    let id = session.id.clone();
    let mut state = server(None, true);
    state.current_session = Some(session);
    let params = UploadParams {
        session_id: id,
        file_id: FileId::from_string("ghost".to_string()),
        token: Token::from_string("t".to_string()),
    };
    assert_eq!(state.admit_upload(&params).unwrap_err(), Status::NotFound);
}

#[test]
fn refusals_free_the_slot() {
    let request = offer(vec![file("a", 1)]);
    let refusals = vec![
        None,
        Some(TransferDecision::Decline),
        Some(TransferDecision::AcceptFiles(vec![])),
        Some(TransferDecision::AcceptFiles(vec![FileId::from_string("x".to_string())])),
    ];
    for answer in refusals {
        let mut state = server(None, false);
        let _ = state.begin_prepare_upload(None, PEER, &request, 0);
        let (reply, events) = state.finish_prepare_upload(&request, answer, 0);
        assert!(matches!(reply, PrepareUploadReply::Status(Status::Forbidden)));
        assert!(events.is_empty());
        assert!(state.current_session.is_none());
    }
}

#[test]
fn message_path_emits_text_received_and_session_done() {
    let mut state = server(None, true);
    let metadata = text_offer(FileId::new(), "hello world");
    assert_eq!(metadata.file_name, "message.txt");
    assert_eq!(metadata.file_type, "text/plain");
    assert_eq!(metadata.size, 11);
    let request = PrepareUploadRequest {
        info: DeviceInfo::new("Test Sender".to_string(), 0, Protocol::Http),
        files: single_offer(&metadata),
    };
    assert!(matches!(
        state.begin_prepare_upload(None, PEER, &request, 0),
        PrepareUploadStep::Accepted
    ));
    let (reply, events) =
        state.finish_prepare_upload(&request, Some(TransferDecision::Accept), 0);
    let status = match reply {
        PrepareUploadReply::Status(status) => status,
        other => panic!("expected a status, got {other:?}"),
    };
    assert_eq!(status, Status::NoContent);
    let response = LocalSendClient::prepare_upload_outcome(status.code()).unwrap().unwrap();
    assert!(response.session_id.as_str().is_empty());
    assert!(response.files.is_empty());
    assert!(text_upload(&response, &metadata.id).is_none());
    assert_eq!(events.len(), 2);
    let id = match &events[0] {
        ServerEvent::TextReceived { session_id, text, sender_alias } => {
            assert_eq!(text, "hello world");
            assert_eq!(sender_alias, "Test Sender");
            session_id.clone()
        }
        other => panic!("unexpected event: {other:?}"),
    };
    assert!(matches!(&events[1], ServerEvent::SessionDone { session_id } if *session_id == id));
    assert!(!id.as_str().is_empty());
    assert!(state.current_session.is_none());
}

#[test]
fn messages_are_single_small_and_not_empty() {
    let mut text = file("a", 1048575);
    text.preview = Some("body".to_string());
    let mut map: IdMap<FileMetadata> = IdMap::new();
    map.insert("a".to_string(), text.clone());
    assert_eq!(message_text(&map).as_deref(), Some("body"));

    let mut large = text.clone();
    large.size = 1048576;
    map.insert("a".to_string(), large);
    assert_eq!(message_text(&map), None);

    let mut empty = text.clone();
    empty.preview = Some(String::new());
    map.insert("a".to_string(), empty);
    assert_eq!(message_text(&map), None);

    map.insert("a".to_string(), text.clone());
    let mut second = text;
    second.id = FileId::from_string("b".to_string());
    map.insert("b".to_string(), second);
    assert_eq!(message_text(&map), None);

    let none: IdMap<FileMetadata> = IdMap::new();
    assert_eq!(message_text(&none), None);
}

fn arrive(state: &mut ServerState, response: &PrepareUploadResponse, id: &str, now: u64) -> Vec<ServerEvent> {
    let ticket = state.admit_upload(&params(response, id)).unwrap();
    let size = ticket.declared_size;
    state.complete_upload(
        ticket,
        &FileId::from_string(id.to_string()),
        PathBuf::from(format!("/downloads/{id} (1).bin")),
        size,
        now,
    )
}

#[test]
fn a_session_ends_with_its_last_file() {
    let mut state = server(None, true);
    let request = offer(vec![file("a", 1), file("b", 2)]);
    let response = open_session(&mut state, &request, Some(TransferDecision::Accept), 0);
    let events = arrive(&mut state, &response, "b", 10);
    assert_eq!(events.len(), 1);
    match &events[0] {
        ServerEvent::FileReceived {
            session_id,
            file_id,
            file_name,
            path,
            size,
            sender_alias,
            message_text,
        } => {
            assert_eq!(*session_id, response.session_id);
            assert_eq!(file_id.as_str(), "b");
            assert_eq!(file_name, "b (1).bin");
            assert_eq!(*path, PathBuf::from("/downloads/b (1).bin"));
            assert_eq!(*size, 2);
            assert_eq!(sender_alias, "Test Sender");
            assert!(message_text.is_none());
        }
        other => panic!("unexpected event: {other:?}"),
    }
    assert_eq!(arrive(&mut state, &response, "b", 20).len(), 1);
    assert_eq!(state.current_session.as_ref().unwrap().last_activity, 20);
    let events = arrive(&mut state, &response, "a", 30);
    assert_eq!(events.len(), 2);
    assert!(matches!(
        &events[1],
        ServerEvent::SessionDone { session_id } if *session_id == response.session_id
    ));
    assert!(state.current_session.is_none());
}

#[test]
fn a_silent_session_is_gone_in_time() {
    assert_eq!((SESSION_TTL, SWEEP_PERIOD), (300, 60));
    for first in 0..60 {
        let mut state = server(None, true);
        let request = offer(vec![file("a", 1)]);
        open_session(&mut state, &request, Some(TransferDecision::Accept), 1000);
        let mut now = 1000 + first;
        while state.current_session.is_some() {
            let freed = state.sweep(now);
            assert_eq!(freed, now > 1300);
            assert!(now <= 1360);
            now += 60;
        }
    }
}

#[test]
fn a_file_can_be_noted_under_a_given_name() {
    let mut state = server(None, true);
    let request = offer(vec![file("a", 1)]);
    let response = open_session(&mut state, &request, Some(TransferDecision::Accept), 0);
    for (stored, told) in [(Some("other"), "other"), (None, "a.bin")] {
        let ticket = UploadTicket {
            file_name: "a.bin".to_string(),
            session_id: response.session_id.clone(),
            sender_alias: "peer".to_string(),
            declared_size: 1,
            declared_sha: None,
        };
        let events = state.complete_upload_as(
            ticket,
            &FileId::from_string("a".to_string()),
            PathBuf::from("/downloads/a.bin"),
            stored.map(|name| name.to_string()),
            1,
            2,
        );
        assert!(matches!(
            &events[0],
            ServerEvent::FileReceived { file_name, .. } if file_name == told
        ));
    }
}

#[test]
fn a_stale_upload_is_told_but_not_counted() {
    let mut state = server(None, true);
    let request = offer(vec![file("a", 1)]);
    let old = open_session(&mut state, &request, Some(TransferDecision::Accept), 0);
    let ticket: UploadTicket = state.admit_upload(&params(&old, "a")).unwrap();
    assert_eq!(state.cancel(&old.session_id).len(), 1);
    let fresh = open_session(&mut state, &request, Some(TransferDecision::Accept), 1);
    let events = state.complete_upload(
        ticket,
        &FileId::from_string("a".to_string()),
        PathBuf::from("/downloads/.."),
        1,
        2,
    );
    assert_eq!(events.len(), 1);
    assert!(matches!(
        &events[0],
        ServerEvent::FileReceived { file_name, .. } if file_name == "a.bin"
    ));
    let session = state.current_session.as_ref().unwrap();
    assert_eq!(session.id, fresh.session_id);
    assert!(session.received.is_empty());
}

#[test]
fn bodies_are_held_to_what_was_declared() {
    let mut state = server(None, true);
    let mut hashed = file("a", 5);
    hashed.sha256 = Some("ABcd".to_string());
    let request = offer(vec![hashed, file("b", 6)]);
    let response = open_session(&mut state, &request, Some(TransferDecision::Accept), 0);
    let with_hash = state.admit_upload(&params(&response, "a")).unwrap();
    assert_eq!(with_hash.check_size(4), Err(Status::InternalServerError));
    assert_eq!(with_hash.check_size(5), Ok(true));
    assert_eq!(with_hash.check_hash(Some("abCD")), Ok(()));
    assert_eq!(with_hash.check_hash(Some("abce")), Err(Status::InternalServerError));
    assert_eq!(with_hash.check_hash(None), Err(Status::InternalServerError));
    let without = state.admit_upload(&params(&response, "b")).unwrap();
    assert_eq!(without.check_size(6), Ok(false));
    assert_eq!(without.check_hash(None), Ok(()));
    assert_eq!(store_failure_status(StoreFailure::Name), Status::BadRequest);
    assert_eq!(store_failure_status(StoreFailure::Directory), Status::InternalServerError);
    assert_eq!(store_failure_status(StoreFailure::Write), Status::InternalServerError);
}

#[test]
fn cancelling_ends_only_the_named_session() {
    let mut state = server(None, true);
    let request = offer(vec![file("a", 1)]);
    let response = open_session(&mut state, &request, Some(TransferDecision::Accept), 0);
    assert!(state.cancel(&SessionId::new()).is_empty());
    assert!(state.current_session.is_some());
    let events = state.cancel(&response.session_id);
    assert!(matches!(
        &events[..],
        [ServerEvent::SessionDone { session_id }] if *session_id == response.session_id
    ));
    assert!(state.current_session.is_none());
    assert!(state.cancel(&response.session_id).is_empty());
}

#[test]
fn a_file_without_token_was_declined() {
    let mut response = PrepareUploadResponse {
        session_id: SessionId::new(),
        files: IdMap::new(),
    };
    let id = FileId::from_string("a".to_string());
    assert_eq!(
        file_upload(&response, &id).unwrap_err().message(),
        "receiver declined the file (no upload token was issued)"
    );
    assert!(text_upload(&response, &id).is_none());
    response.files.insert("a".to_string(), Token::from_string("t".to_string()));
    assert_eq!(file_upload(&response, &id).unwrap().as_str(), "t");
    assert_eq!(text_upload(&response, &id).unwrap().as_str(), "t");
}

#[test]
fn the_device_describes_itself() {
    let state = server(None, true);
    assert_eq!(state.info().alias, "LocalSend-Rust");
    assert_eq!(state.info().port, 4242);
}

#[test]
fn only_declared_bodies_are_kept() {
    let ticket = |sha: Option<&str>| UploadTicket {
        file_name: "a".to_string(),
        session_id: SessionId::new(),
        sender_alias: "s".to_string(),
        declared_size: 5,
        declared_sha: sha.map(|s| s.to_string()),
    };
    let error = Status::InternalServerError;
    let plain = ticket(None);
    assert_eq!(plain.next_action(&StoreOutcome::Written(5)), StoreAction::Store);
    assert_eq!(plain.next_action(&StoreOutcome::Written(4)), StoreAction::Discard(error));
    let hashed = ticket(Some("ABcd"));
    assert_eq!(hashed.next_action(&StoreOutcome::Written(5)), StoreAction::Hash);
    assert_eq!(hashed.next_action(&StoreOutcome::Written(6)), StoreAction::Discard(error));
    for (hash, action) in [
        (Some("abCD"), StoreAction::Store),
        (Some("abce"), StoreAction::Discard(error)),
        (None, StoreAction::Discard(error)),
    ] {
        let outcome = StoreOutcome::Hashed(hash.map(|h| h.to_string()));
        assert_eq!(hashed.next_action(&outcome), action);
    }
    for (failure, status) in [
        (StoreFailure::Name, Status::BadRequest),
        (StoreFailure::Directory, error),
        (StoreFailure::Write, error),
    ] {
        assert_eq!(
            hashed.next_action(&StoreOutcome::Failed(failure)),
            StoreAction::Fail(status)
        );
    }
}

#[test]
fn each_file_has_the_token_at_its_place() {
    let request = offer(vec![file("b", 1), file("a", 2)]);
    let draws = vec![
        Token::from_string("first".to_string()),
        Token::from_string("second".to_string()),
    ];
    let session = Session::with_draws(
        SessionId::from_string("id".to_string()),
        "s".to_string(),
        request.files,
        draws,
        9,
    );
    assert_eq!(session.id.as_str(), "id");
    assert_eq!(session.tokens.get("b").unwrap().as_str(), "first");
    assert_eq!(session.tokens.get("a").unwrap().as_str(), "second");
    assert_eq!(session.tokens.len(), 2);
    assert_eq!(session.last_activity, 9);
    assert!(session.received.is_empty());
}

#[test]
fn tokens_differ_from_file_to_file() {
    let mut state = server(None, true);
    let request = offer(vec![file("a", 1), file("b", 2)]);
    let response = open_session(&mut state, &request, Some(TransferDecision::Accept), 0);
    assert_ne!(response.files.get("a"), response.files.get("b"));
    assert_ne!(response.files.get("a").unwrap().as_str(), response.session_id.as_str());
}
