//! What holds between a sender and a receiver.

use crate::client::client::{prepares, uploads};
use crate::client::trust_policy::TlsTrustPolicy;
use crate::error::LocalSendError;
use crate::protocol::{
    FileMetadata, PeerIp, PrepareUploadRequest, PrepareUploadResponse, Status, Token,
};
use crate::server::events::{chosen, settled, ServerEvent, TransferDecision};
use crate::server::handlers::{
    message_of, PrepareUploadReply, PrepareUploadStep, MESSAGE_LIMIT,
};
use crate::server::pin::PinVerdict;
use crate::server::state::ServerState;
use crate::text::blank;
use crate::tui::send::{offers_text, only, text_token};
use vstd::prelude::*;
use vstd::utf8::encode_utf8;

verus! {

/// A receiver's refusal reaches the sender as what it is: a missing or wrong
/// PIN, too many attempts, a busy receiver; and an offer without files comes
/// back as a session without identifier.
pub proof fn law_refusals_reach_the_sender(
    before: ServerState,
    pin: Option<Seq<char>>,
    peer: PeerIp,
    request: PrepareUploadRequest,
    now: u64,
    status: Status,
    after: ServerState,
    res: Result<Option<PrepareUploadResponse>, LocalSendError>,
)
    requires
        before.begins(pin, peer, request, now, PrepareUploadStep::Reply(status), after),
        prepares(status.number(), res),
    ensures
        before.pin_gate.verdict(pin, peer) == PinVerdict::Unauthorized <==> res
            == Err::<Option<PrepareUploadResponse>, LocalSendError>(LocalSendError::InvalidPin),
        before.pin_gate.verdict(pin, peer) == PinVerdict::LockedOut <==> res
            == Err::<Option<PrepareUploadResponse>, LocalSendError>(LocalSendError::RateLimited),
        before.pin_gate.verdict(pin, peer) == PinVerdict::Granted && request.files@ == Map::<
            Seq<char>,
            FileMetadata,
        >::empty() <==> res is Ok,
        before.pin_gate.verdict(pin, peer) == PinVerdict::Granted && request.files@ != Map::<
            Seq<char>,
            FileMetadata,
        >::empty() && before.busy(now) <==> res == Err::<
            Option<PrepareUploadResponse>,
            LocalSendError,
        >(LocalSendError::SessionBlocked),
{
}

/// A decision reaches the sender as what it is: a refusal as a refusal, an
/// accepted message as success with nothing left to upload.
pub proof fn law_decisions_reach_the_sender(
    before: ServerState,
    request: PrepareUploadRequest,
    answer: Option<TransferDecision>,
    now: u64,
    status: Status,
    events: Seq<ServerEvent>,
    after: ServerState,
    res: Result<Option<PrepareUploadResponse>, LocalSendError>,
)
    requires
        before.finishes(
            request,
            settled(answer),
            now,
            PrepareUploadReply::Status(status),
            events,
            after,
        ),
        prepares(status.number(), res),
    ensures
        status == Status::Forbidden ==> res == Err::<Option<PrepareUploadResponse>, LocalSendError>(
            LocalSendError::Rejected { status: 403 },
        ),
        status != Status::Forbidden ==> {
            &&& message_of(request.files@) is Some
            &&& res matches Ok(Some(response))
            &&& response.session_id@.len() == 0
            &&& response.files@ == Map::<Seq<char>, Token>::empty()
        },
{
}

/// A text message arrives as the text that was sent: offered under the limit
/// and accepted, it reaches the receiver's owner word for word, the receiver is
/// free again, and nothing is left for the sender to upload.
pub proof fn law_messages_arrive(
    metadata: FileMetadata,
    message: Seq<char>,
    before: ServerState,
    request: PrepareUploadRequest,
    now: u64,
    reply: PrepareUploadReply,
    events: Seq<ServerEvent>,
    after: ServerState,
    res: Result<Option<PrepareUploadResponse>, LocalSendError>,
)
    requires
        offers_text(metadata, message),
        message.len() > 0,
        encode_utf8(message).len() < MESSAGE_LIMIT,
        request.files@ == only(metadata),
        before.finishes(request, TransferDecision::Accept, now, reply, events, after),
        reply matches PrepareUploadReply::Status(status) ==> prepares(status.number(), res),
    ensures
        reply == PrepareUploadReply::Status(Status::NoContent),
        events.len() == 2,
        events[0] matches ServerEvent::TextReceived { session_id, text, sender_alias } && text@
            == message && sender_alias == request.info.alias,
        after.current_session is None,
        res matches Ok(Some(response)) && text_token(response, metadata.id@) is None,
{
    lemma_only_message(metadata, message);
    assert(request.files@.dom().contains(metadata.id@));
    assert(chosen(TransferDecision::Accept, request.files@).contains(metadata.id@));
}

/// The offer of a text message under the limit is taken as one.
proof fn lemma_only_message(metadata: FileMetadata, message: Seq<char>)
    requires
        offers_text(metadata, message),
        message.len() > 0,
        encode_utf8(message).len() < MESSAGE_LIMIT,
    ensures
        message_of(only(metadata)) == Some(message),
{
    let d = only(metadata).dom();
    assert(d =~= Set::<Seq<char>>::empty().insert(metadata.id@));
    assert(d.len() == 1);
    assert(d.contains(metadata.id@));
    assert(d.contains(d.choose()));
}

/// Of the answers that a receiver gives to an upload, only success is success
/// to the sender.
pub proof fn law_upload_succeeds_on_success_only(
    status: Status,
    res: Result<(), LocalSendError>,
)
    requires
        uploads(status.number(), res),
    ensures
        res is Ok <==> status == Status::Success || status == Status::NoContent,
{
}

/// A list of fingerprints is strict: it accepts nothing that is not on it and
/// no blank fingerprint, and turns the acceptance of unverified certificates
/// off. Without a list everything is accepted.
pub proof fn law_trust_is_explicit(policy: TlsTrustPolicy, fingerprint: Seq<char>)
    ensures
        policy.fingerprints() is None ==> policy.accepts(fingerprint),
        policy.fingerprints() is Some && policy.accepts(fingerprint)
            ==> policy.fingerprints()->0.contains(fingerprint),
        policy.fingerprints() is Some && blank(fingerprint) ==> !policy.accepts(fingerprint),
        policy.fingerprints() is Some ==> !policy.accepts(Seq::empty()),
{
    assert(blank(Seq::<char>::empty()));
}

} // verus!
