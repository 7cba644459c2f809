//! What a sender asks of a peer, and what the peer's answers mean.

use crate::client::trust_policy::TlsTrustPolicy;
use crate::error::LocalSendError;
use crate::id_map::IdMap;
use crate::protocol::{
    origin, origin_text, DeviceInfo, FileId, FileMetadata, PrepareUploadRequest,
    PrepareUploadResponse, SessionId, Token,
};
use crate::text::opt_view;
use vstd::prelude::*;
use vstd::string::*;

verus! {

/// A sender.
#[derive(Debug)]
pub struct LocalSendClient {
    /// The device that sends.
    pub device: DeviceInfo,
    /// True when certificates that cannot be verified are accepted.
    pub accept_invalid_certs: bool,
}

impl Clone for LocalSendClient {
    fn clone(&self) -> (res: Self)
        ensures
            res == *self,
    {
        LocalSendClient {
            device: self.device.clone(),
            accept_invalid_certs: self.accept_invalid_certs,
        }
    }
}

/// The URL under which `target` serves `tail`; none without an address.
pub open spec fn url_of(target: DeviceInfo, tail: Seq<char>) -> Option<Seq<char>> {
    match target.ip {
        Some(ip) => Some(origin(target.protocol, ip@, target.port) + tail),
        None => None,
    }
}

/// True when `res` is the URL, or the error that the target has no address.
pub open spec fn is_url(url: Option<Seq<char>>, res: Result<String, LocalSendError>) -> bool {
    match url {
        Some(text) => res matches Ok(found) && found@ == text,
        None => res matches Err(LocalSendError::Network { message }) && message@
            == "Target IP not provided"@,
    }
}

fn url(target: &DeviceInfo, tail: &str) -> (res: Result<String, LocalSendError>)
    ensures
        is_url(url_of(*target, tail@), res),
{
    match &target.ip {
        Some(ip) => Ok(origin_text(target.protocol, ip.as_str(), target.port).concat(tail)),
        None => Err(LocalSendError::network("Target IP not provided")),
    }
}

/// The place of `prepare-upload`, with the PIN where there is one.
pub open spec fn prepare_upload_tail(pin: Option<Seq<char>>) -> Seq<char> {
    match pin {
        Some(pin) => "/api/localsend/v2/prepare-upload"@ + "?pin="@ + pin,
        None => "/api/localsend/v2/prepare-upload"@,
    }
}

/// The place of an upload.
pub open spec fn upload_tail(session_id: Seq<char>, file_id: Seq<char>, token: Seq<char>) -> Seq<
    char,
> {
    "/api/localsend/v2/upload?sessionId="@ + session_id + "&fileId="@ + file_id + "&token="@ + token
}

/// What a peer's answer to `register` means. Any success will do: where the
/// peer describes itself that is the result, otherwise what was known of it.
pub open spec fn registers(
    target: DeviceInfo,
    status: u16,
    described: Option<DeviceInfo>,
    res: Result<DeviceInfo, LocalSendError>,
) -> bool {
    if 200 <= status < 300 {
        res == Ok::<DeviceInfo, LocalSendError>(
            match described {
                Some(info) => info,
                None => target,
            },
        )
    } else if status == 401 || status == 403 {
        res == Err::<DeviceInfo, LocalSendError>(LocalSendError::Rejected { status })
    } else {
        res matches Err(LocalSendError::HttpFailed { status: s, message }) && s == status
            && message@ == "Registration failed"@
    }
}

/// What the status of an answer to `prepare-upload` means: 200 has the session
/// in its body, 204 stands for a session without an identifier and without
/// files, and everything else is an error of its own.
pub open spec fn prepares(
    status: u16,
    res: Result<Option<PrepareUploadResponse>, LocalSendError>,
) -> bool {
    if status == 200 {
        res matches Ok(None)
    } else if status == 204 {
        res matches Ok(Some(response)) && response.session_id@.len() == 0 && response.files@
            == Map::<Seq<char>, Token>::empty()
    } else if status == 401 {
        res matches Err(LocalSendError::InvalidPin)
    } else if status == 403 {
        res == Err::<Option<PrepareUploadResponse>, LocalSendError>(
            LocalSendError::Rejected { status },
        )
    } else if status == 409 {
        res matches Err(LocalSendError::SessionBlocked)
    } else if status == 429 {
        res matches Err(LocalSendError::RateLimited)
    } else if status == 500 {
        res matches Err(LocalSendError::Network { message }) && message@ == "Server error"@
    } else {
        res matches Err(LocalSendError::HttpFailed { status: s, message }) && s == status
            && message@ == "Prepare upload failed"@
    }
}

/// What the status of an answer to an upload means: 200 and 204 are success.
pub open spec fn uploads(status: u16, res: Result<(), LocalSendError>) -> bool {
    if status == 200 || status == 204 {
        res is Ok
    } else {
        res matches Err(LocalSendError::HttpFailed { status: s, message }) && s == status
            && message@ == "File upload failed"@
    }
}

impl LocalSendClient {
    /// A sender that accepts every certificate.
    pub fn new(device: DeviceInfo) -> (res: Self)
        ensures
            res == (LocalSendClient { device, accept_invalid_certs: true }),
    {
        LocalSendClient { device, accept_invalid_certs: true }
    }

    /// A sender that accepts certificates that cannot be verified only where
    /// the policy does.
    pub fn with_trust_policy(device: DeviceInfo, policy: TlsTrustPolicy) -> (res: Self)
        ensures
            res == (LocalSendClient {
                device,
                accept_invalid_certs: policy.fingerprints() is None,
            }),
    {
        LocalSendClient { device, accept_invalid_certs: policy.allows_insecure() }
    }

    /// Where to register with `target`.
    pub fn register_url(target: &DeviceInfo) -> (res: Result<String, LocalSendError>)
        ensures
            is_url(url_of(*target, "/api/localsend/v2/register"@), res),
    {
        url(target, "/api/localsend/v2/register")
    }

    /// What a peer's answer to `register` means; `described` is absent where
    /// the body is empty or cannot be read.
    pub fn register_outcome(target: &DeviceInfo, status: u16, described: Option<DeviceInfo>) -> (res:
        Result<DeviceInfo, LocalSendError>)
        ensures
            registers(*target, status, described, res),
    {
        if 200 <= status && status < 300 {
            match described {
                Some(info) => Ok(info),
                None => Ok(target.clone()),
            }
        } else if status == 401 || status == 403 {
            Err(LocalSendError::Rejected { status })
        } else {
            Err(LocalSendError::http_failed(status, "Registration failed"))
        }
    }

    /// Where to offer files to `target`.
    pub fn prepare_upload_url(target: &DeviceInfo, pin: Option<&str>) -> (res: Result<
        String,
        LocalSendError,
    >)
        ensures
            is_url(url_of(*target, prepare_upload_tail(opt_view(pin))), res),
    {
        match pin {
            Some(pin) => {
                let tail = "/api/localsend/v2/prepare-upload".to_owned().concat("?pin=").concat(
                    pin,
                );
                url(target, tail.as_str())
            },
            None => url(target, "/api/localsend/v2/prepare-upload"),
        }
    }

    /// The offer of `files`.
    pub fn prepare_upload_request(&self, files: IdMap<FileMetadata>) -> (res: PrepareUploadRequest)
        ensures
            res == (PrepareUploadRequest { info: self.device, files }),
    {
        PrepareUploadRequest { info: self.device.clone(), files }
    }

    /// What the status of an answer to an offer means; `Ok(None)` says that
    /// the answer is in the body.
    pub fn prepare_upload_outcome(status: u16) -> (res: Result<
        Option<PrepareUploadResponse>,
        LocalSendError,
    >)
        ensures
            prepares(status, res),
    {
        if status == 200 {
            Ok(None)
        } else if status == 204 {
            let session_id = SessionId::from_string(String::new());
            Ok(Some(PrepareUploadResponse { session_id, files: IdMap::new() }))
        } else if status == 401 {
            Err(LocalSendError::InvalidPin)
        } else if status == 403 {
            Err(LocalSendError::Rejected { status })
        } else if status == 409 {
            Err(LocalSendError::SessionBlocked)
        } else if status == 429 {
            Err(LocalSendError::RateLimited)
        } else if status == 500 {
            Err(LocalSendError::network("Server error"))
        } else {
            Err(LocalSendError::http_failed(status, "Prepare upload failed"))
        }
    }

    /// Where to upload a file to `target`.
    pub fn upload_url(
        target: &DeviceInfo,
        session_id: &SessionId,
        file_id: &FileId,
        token: &Token,
    ) -> (res: Result<String, LocalSendError>)
        ensures
            is_url(url_of(*target, upload_tail(session_id@, file_id@, token@)), res),
    {
        let tail = "/api/localsend/v2/upload?sessionId=".to_owned().concat(
            session_id.as_str(),
        ).concat("&fileId=").concat(file_id.as_str()).concat("&token=").concat(token.as_str());
        url(target, tail.as_str())
    }

    /// What the status of an answer to an upload means.
    pub fn upload_outcome(status: u16) -> (res: Result<(), LocalSendError>)
        ensures
            uploads(status, res),
    {
        if status == 200 || status == 204 {
            Ok(())
        } else {
            Err(LocalSendError::http_failed(status, "File upload failed"))
        }
    }
}

} // verus!
