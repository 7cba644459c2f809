use localsend_rs::client::LocalSendClient;
use localsend_rs::error::LocalSendError;
use localsend_rs::id_map::IdMap;
use localsend_rs::protocol::{
    DeviceInfo, FileId, FileMetadata, Protocol, SessionId, Status, Token,
};

fn target() -> DeviceInfo {
    let mut device = DeviceInfo::new("peer".to_string(), 53317, Protocol::Https);
    device.ip = Some("192.168.1.7".to_string());
    device
}

fn is_missing_ip(error: LocalSendError) -> bool {
    matches!(error, LocalSendError::Network { message } if message == "Target IP not provided")
}

#[test]
fn urls_are_built_from_the_target() {
    assert_eq!(
        LocalSendClient::register_url(&target()).unwrap(),
        "https://192.168.1.7:53317/api/localsend/v2/register"
    );
    assert_eq!(
        LocalSendClient::prepare_upload_url(&target(), None).unwrap(),
        "https://192.168.1.7:53317/api/localsend/v2/prepare-upload"
    );
    assert_eq!(
        LocalSendClient::prepare_upload_url(&target(), Some("123456")).unwrap(),
        "https://192.168.1.7:53317/api/localsend/v2/prepare-upload?pin=123456"
    );
    let mut plain = target();
    plain.protocol = Protocol::Http;
    plain.port = 0;
    assert_eq!(
        LocalSendClient::upload_url(
            &plain,
            &SessionId::from_string("s".to_string()),
            &FileId::from_string("f".to_string()),
            &Token::from_string("t".to_string()),
        )
        .unwrap(),
        "http://192.168.1.7:0/api/localsend/v2/upload?sessionId=s&fileId=f&token=t"
    );
}

#[test]
fn a_target_without_address_is_an_error() {
    let device = DeviceInfo::new("peer".to_string(), 53317, Protocol::Http);
    assert!(is_missing_ip(LocalSendClient::register_url(&device).unwrap_err()));
    assert!(is_missing_ip(
        LocalSendClient::prepare_upload_url(&device, Some("1")).unwrap_err()
    ));
    assert!(is_missing_ip(
        LocalSendClient::upload_url(
            &device,
            &SessionId::new(),
            &FileId::new(),
            &Token::new()
        )
        .unwrap_err()
    ));
}

#[test]
fn registration_takes_any_success() {
    let other = DeviceInfo::new("described".to_string(), 1, Protocol::Http);
    let described = LocalSendClient::register_outcome(&target(), 200, Some(other)).unwrap();
    assert_eq!(described.alias, "described");
    let known = LocalSendClient::register_outcome(&target(), 299, None).unwrap();
    assert_eq!(known.alias, "peer");
    assert_eq!(known.ip.as_deref(), Some("192.168.1.7"));
}

#[test]
fn registration_failures_are_told_apart() {
    for status in [401u16, 403u16] {
        assert!(matches!(
            LocalSendClient::register_outcome(&target(), status, None),
            Err(LocalSendError::Rejected { status: s }) if s == status
        ));
    }
    for status in [199u16, 300u16, 404u16, 500u16] {
        assert!(matches!(
            LocalSendClient::register_outcome(&target(), status, None),
            Err(LocalSendError::HttpFailed { status: s, message })
                if s == status && message == "Registration failed"
        ));
    }
}

#[test]
fn prepare_upload_answers_are_told_apart() {
    assert!(matches!(LocalSendClient::prepare_upload_outcome(200), Ok(None)));
    let empty = LocalSendClient::prepare_upload_outcome(204).unwrap().unwrap();
    assert!(empty.session_id.is_empty());
    assert!(empty.files.is_empty());
    assert!(matches!(
        LocalSendClient::prepare_upload_outcome(401),
        Err(LocalSendError::InvalidPin)
    ));
    assert!(matches!(
        LocalSendClient::prepare_upload_outcome(403),
        Err(LocalSendError::Rejected { status: 403 })
    ));
    assert!(matches!(
        LocalSendClient::prepare_upload_outcome(409),
        Err(LocalSendError::SessionBlocked)
    ));
    assert!(matches!(
        LocalSendClient::prepare_upload_outcome(429),
        Err(LocalSendError::RateLimited)
    ));
    assert!(matches!(
        LocalSendClient::prepare_upload_outcome(500),
        Err(LocalSendError::Network { message }) if message == "Server error"
    ));
    assert!(matches!(
        LocalSendClient::prepare_upload_outcome(201),
        Err(LocalSendError::HttpFailed { status: 201, message })
            if message == "Prepare upload failed"
    ));
}

#[test]
fn upload_answers_are_told_apart() {
    assert!(LocalSendClient::upload_outcome(200).is_ok());
    assert!(LocalSendClient::upload_outcome(204).is_ok());
    assert!(matches!(
        LocalSendClient::upload_outcome(403),
        Err(LocalSendError::HttpFailed { status: 403, message }) if message == "File upload failed"
    ));
    assert!(LocalSendClient::upload_outcome(201).is_err());
}

#[test]
fn an_offer_carries_the_device_that_sends() {
    let client = LocalSendClient::new(DeviceInfo::new("me".to_string(), 7, Protocol::Http));
    let files: IdMap<FileMetadata> = IdMap::new();
    let request = client.prepare_upload_request(files);
    assert_eq!(request.info.alias, "me");
    assert_eq!(request.info.fingerprint, client.device.fingerprint);
    assert!(request.files.is_empty());
    assert_eq!(client.clone().device.alias, "me");
}

#[test]
fn statuses_have_their_numbers() {
    let numbers = [
        (Status::Success, 200u16),
        (Status::NoContent, 204),
        (Status::BadRequest, 400),
        (Status::Unauthorized, 401),
        (Status::Forbidden, 403),
        (Status::NotFound, 404),
        (Status::Conflict, 409),
        (Status::TooManyRequests, 429),
        (Status::InternalServerError, 500),
    ];
    for (status, number) in numbers {
        assert_eq!(status.code(), number);
    }
}

#[test]
fn errors_tell_their_reason() {
    assert_eq!(LocalSendError::network("down").message(), "Network error: down");
    assert_eq!(
        LocalSendError::Rejected { status: 403 }.message(),
        "Rejected by receiver (status 403)"
    );
    assert_eq!(
        LocalSendError::http_failed(418, "Registration failed").message(),
        "Registration failed (status 418)"
    );
    assert_eq!(LocalSendError::InvalidPin.message(), "Invalid PIN");
    assert_eq!(
        LocalSendError::SessionBlocked.message(),
        "Receiver is busy with another session"
    );
    assert_eq!(LocalSendError::RateLimited.message(), "Too many PIN attempts");
    assert_eq!(
        LocalSendError::invalid_state("Server is not running").message(),
        "Invalid state: Server is not running"
    );
    assert_eq!(LocalSendError::other("boom").message(), "boom");
}
