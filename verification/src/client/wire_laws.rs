//! What a peer is asked, and what its answers mean, over all peers and answers.

use crate::client::client::LocalSendClient;
use crate::client::trust_policy::TlsTrustPolicy;
use crate::error::LocalSendError;
use crate::id_map::IdMap;
use crate::protocol::{
    origin, DeviceInfo, FileId, FileMetadata, PrepareUploadRequest, PrepareUploadResponse, Protocol,
    SessionId, Token,
};
use crate::text_laws::{lemma_decimal_is_a_numeral, numeral};
use vstd::prelude::*;

verus! {

/// What stands before the address in the URLs of a peer.
pub open spec fn before_address(protocol: Protocol) -> Seq<char> {
    match protocol {
        Protocol::Http => "http://"@,
        Protocol::Https => "https://"@,
    }
}

/// True when `url` leads to `place` at this address and port, over the
/// protocol.
pub open spec fn leads_to_place(
    url: Seq<char>,
    protocol: Protocol,
    address: Seq<char>,
    port: u16,
    place: Seq<char>,
) -> bool {
    exists|digits: Seq<char>| #[trigger]
        numeral(digits, port as int) && url == before_address(protocol) + address + ":"@ + digits
            + place
}

proof fn lemma_origin(protocol: Protocol, address: Seq<char>, port: u16, place: Seq<char>)
    ensures
        leads_to_place(origin(protocol, address, port) + place, protocol, address, port, place),
{
    reveal_strlit("http");
    reveal_strlit("https");
    reveal_strlit("://");
    reveal_strlit("http://");
    reveal_strlit("https://");
    lemma_decimal_is_a_numeral(port as nat);
    let digits = crate::text::decimal(port as nat);
    let plain = protocol.scheme_text() + "://"@;
    assert(plain =~= before_address(protocol));
    assert(numeral(digits, port as int));
    assert(origin(protocol, address, port) + place =~= before_address(protocol) + address + ":"@
        + digits + place);
}

/// Each request goes to the peer itself: over the peer's own protocol, to its
/// address and its port, whatever they are. A PIN, and the session, the file
/// and the token of an upload, stand in the URL as they were given. A peer
/// without an address cannot be asked.
pub proof fn law_requests_go_to_the_peer(
    target: DeviceInfo,
    pin: Option<&str>,
    session_id: SessionId,
    file_id: FileId,
    token: Token,
    register: Result<String, LocalSendError>,
    offer: Result<String, LocalSendError>,
    upload: Result<String, LocalSendError>,
)
    requires
        call_ensures(LocalSendClient::register_url, (&target,), register),
        call_ensures(LocalSendClient::prepare_upload_url, (&target, pin), offer),
        call_ensures(
            LocalSendClient::upload_url,
            (&target, &session_id, &file_id, &token),
            upload,
        ),
    ensures
        target.ip matches Some(ip) ==> {
            &&& register matches Ok(url) && leads_to_place(
                url@,
                target.protocol,
                ip@,
                target.port,
                "/api/localsend/v2/register"@,
            )
            &&& offer matches Ok(url) && leads_to_place(
                url@,
                target.protocol,
                ip@,
                target.port,
                match pin {
                    Some(given) => "/api/localsend/v2/prepare-upload?pin="@ + given@,
                    None => "/api/localsend/v2/prepare-upload"@,
                },
            )
            &&& upload matches Ok(url) && leads_to_place(
                url@,
                target.protocol,
                ip@,
                target.port,
                "/api/localsend/v2/upload?sessionId="@ + session_id.text@ + "&fileId="@
                    + file_id.text@ + "&token="@ + token.text@,
            )
        },
        target.ip is None ==> {
            &&& register matches Err(LocalSendError::Network { message }) && message@
                == "Target IP not provided"@
            &&& offer matches Err(LocalSendError::Network { message }) && message@
                == "Target IP not provided"@
            &&& upload matches Err(LocalSendError::Network { message }) && message@
                == "Target IP not provided"@
        },
{
    if target.ip is Some {
        let address = target.ip->0@;
        lemma_origin(target.protocol, address, target.port, "/api/localsend/v2/register"@);
        lemma_origin(target.protocol, address, target.port, "/api/localsend/v2/prepare-upload"@);
        if pin is Some {
            reveal_strlit("/api/localsend/v2/prepare-upload");
            reveal_strlit("?pin=");
            reveal_strlit("/api/localsend/v2/prepare-upload?pin=");
            let place = "/api/localsend/v2/prepare-upload?pin="@ + pin->0@;
            assert("/api/localsend/v2/prepare-upload"@ + "?pin="@ + pin->0@ =~= place);
            lemma_origin(target.protocol, address, target.port, place);
        }
        lemma_origin(
            target.protocol,
            address,
            target.port,
            "/api/localsend/v2/upload?sessionId="@ + session_id.text@ + "&fileId="@ + file_id.text@
                + "&token="@ + token.text@,
        );
    }
}

/// An offer carries who sends and what is sent, unchanged.
pub proof fn law_offers_are_sent_as_they_are(
    device: DeviceInfo,
    policy: TlsTrustPolicy,
    open: LocalSendClient,
    strict: LocalSendClient,
    files: IdMap<FileMetadata>,
    first: PrepareUploadRequest,
    second: PrepareUploadRequest,
)
    requires
        call_ensures(LocalSendClient::new, (device,), open),
        call_ensures(LocalSendClient::with_trust_policy, (device, policy), strict),
        call_ensures(LocalSendClient::prepare_upload_request, (&open, files), first),
        call_ensures(LocalSendClient::prepare_upload_request, (&strict, files), second),
    ensures
        first.info == device && first.files == files,
        second.info == device && second.files == files,
        open.accept_invalid_certs,
{
}

/// The answers to an offer are told apart: 200 means a session in the body, 204
/// that nothing is left to upload, and each refusal is the error of its own
/// kind; any other status is reported with its number.
pub proof fn law_answers_to_an_offer_are_told_apart(
    status: u16,
    res: Result<Option<PrepareUploadResponse>, LocalSendError>,
)
    requires
        call_ensures(LocalSendClient::prepare_upload_outcome, (status,), res),
    ensures
        status == 200 <==> res matches Ok(None),
        status == 204 <==> res matches Ok(Some(response)),
        res matches Ok(Some(response)) ==> response.session_id.text@.len() == 0
            && response.files@.dom() == Set::<Seq<char>>::empty(),
        status == 401 <==> res matches Err(LocalSendError::InvalidPin),
        status == 403 <==> res matches Err(LocalSendError::Rejected { status: told }),
        res matches Err(LocalSendError::Rejected { status: told }) ==> told == status,
        status == 409 <==> res matches Err(LocalSendError::SessionBlocked),
        status == 429 <==> res matches Err(LocalSendError::RateLimited),
        status == 500 <==> res matches Err(LocalSendError::Network { message }),
        res matches Err(LocalSendError::Network { message }) ==> message@ == "Server error"@,
        res matches Err(LocalSendError::HttpFailed { status: told, message }) <==> ![
            200u16,
            204,
            401,
            403,
            409,
            429,
            500,
        ]@.contains(status),
        res matches Err(LocalSendError::HttpFailed { status: told, message }) ==> told == status
            && message@ == "Prepare upload failed"@,
{
    if res is Ok && res->Ok_0 is Some {
        assert(res->Ok_0->0.files@.dom() =~= Set::<Seq<char>>::empty());
    }
    let known = [200u16, 204, 401, 403, 409, 429, 500]@;
    assert(known[0] == 200 && known[1] == 204 && known[2] == 401 && known[3] == 403 && known[4]
        == 409 && known[5] == 429 && known[6] == 500);
}

/// A peer that answers a registration with success is registered: as it
/// describes itself, or else as it was known. A refusal is one, and any other
/// status is reported with its number.
pub proof fn law_answers_to_a_registration_are_told_apart(
    target: DeviceInfo,
    status: u16,
    described: Option<DeviceInfo>,
    res: Result<DeviceInfo, LocalSendError>,
)
    requires
        call_ensures(LocalSendClient::register_outcome, (&target, status, described), res),
    ensures
        res is Ok <==> status / 100 == 2,
        res matches Ok(peer) ==> peer == (if described is Some {
            described->0
        } else {
            target
        }),
        status == 401 || status == 403 <==> res matches Err(LocalSendError::Rejected { status: s }),
        res matches Err(LocalSendError::Rejected { status: told }) ==> told == status,
        res is Err && status != 401 && status != 403 ==> (res matches Err(
            LocalSendError::HttpFailed { status: told, message },
        ) && told == status && message@ == "Registration failed"@),
{
}

/// An upload has succeeded where the peer says so with 200 or 204; any other
/// status is reported with its number.
pub proof fn law_answers_to_an_upload_are_told_apart(status: u16, res: Result<(), LocalSendError>)
    requires
        call_ensures(LocalSendClient::upload_outcome, (status,), res),
    ensures
        res is Ok <==> status == 200 || status == 204,
        res is Err ==> (res matches Err(LocalSendError::HttpFailed { status: told, message })
            && told == status && message@ == "File upload failed"@),
{
}

/// A list of fingerprints trusts what stands at some place of it and is not
/// blank, and nothing else; it also turns the acceptance of unverified
/// certificates off. Without a list everything is trusted. A clone trusts what
/// the policy trusts.
pub proof fn law_trust_follows_the_list(
    list: Vec<String>,
    strict: TlsTrustPolicy,
    copy: TlsTrustPolicy,
    open: TlsTrustPolicy,
    fingerprint: &str,
    blank: bool,
    trusted: bool,
    copied: bool,
    anyone: bool,
    unverified: bool,
    unverified_open: bool,
    device: DeviceInfo,
    client: LocalSendClient,
)
    requires
        call_ensures(TlsTrustPolicy::new, (list,), strict),
        call_ensures(TlsTrustPolicy::insecure, (), open),
        call_ensures(TlsTrustPolicy::clone, (&strict,), copy),
        call_ensures(crate::text::is_blank, (fingerprint,), blank),
        call_ensures(TlsTrustPolicy::allows, (&strict, fingerprint), trusted),
        call_ensures(TlsTrustPolicy::allows, (&copy, fingerprint), copied),
        call_ensures(TlsTrustPolicy::allows, (&open, fingerprint), anyone),
        call_ensures(TlsTrustPolicy::allows_insecure, (&strict,), unverified),
        call_ensures(TlsTrustPolicy::allows_insecure, (&open,), unverified_open),
        call_ensures(LocalSendClient::with_trust_policy, (device, strict), client),
    ensures
        trusted <==> !blank && exists|i: int|
            0 <= i < list@.len() && (#[trigger] list@[i])@ == fingerprint@,
        copied == trusted,
        anyone,
        !unverified,
        unverified_open,
        !client.accept_invalid_certs,
{
}

} // verus!
