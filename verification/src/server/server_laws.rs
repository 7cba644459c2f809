//! What holds of a server as its owner uses it.

use crate::error::LocalSendError;
use crate::outside::{arrives, handed, joined, linked};
use crate::protocol::{PeerIp, PrepareUploadRequest, SessionId, Status};
use crate::server::events::{PendingWebShareRequest, ServerEvent, TransferDecision};
use crate::server::handlers::{PrepareUploadReply, PrepareUploadStep, UploadTicket};
use crate::server::server::{LocalSendServer, WebShareReply, EVENT_BUFFER};
use crate::server::state::ServerState;
use crate::server::web_share::{
    by_id, PrepareDownloadResponse, PrepareDownloadStep, WebRefusal, WebShareFile,
};
use tokio::sync::{mpsc, oneshot};
use vstd::prelude::*;

verus! {

/// The auto-accept setting can be changed while the server runs: it decides
/// over the next offer that is not refused, and what was set before does not
/// matter.
pub proof fn law_auto_accept_is_live(
    before: LocalSendServer,
    yes: bool,
    after: LocalSendServer,
    pin: Option<Seq<char>>,
    peer: PeerIp,
    request: PrepareUploadRequest,
    now: u64,
    step: PrepareUploadStep,
    next: ServerState,
)
    requires
        before.state is Some,
        before.toggles(yes, after),
        after.state->0.begins(pin, peer, request, now, step, next),
        before.state->0.refusal(pin, peer, request.files@, now) is None,
    ensures
        yes ==> step == PrepareUploadStep::Accepted,
        !yes ==> step is Ask && step->Ask_0.from() == request.info,
{
}

/// No request makes a server unsound: whatever a handler does to the running
/// state, it still has the identity and the auto-accept setting of the server,
/// and a token for each file of its session.
pub proof fn law_requests_keep_the_server_sound(
    server: LocalSendServer,
    after: ServerState,
    pin: Option<Seq<char>>,
    peer: PeerIp,
    request: PrepareUploadRequest,
    now: u64,
    step: PrepareUploadStep,
    decision: TransferDecision,
    reply: PrepareUploadReply,
    events: Seq<ServerEvent>,
    session_id: SessionId,
    file_id: Seq<char>,
    freed: bool,
    known: Option<Seq<char>>,
    download: PrepareDownloadStep,
    answer: Option<bool>,
    res: Result<PrepareDownloadResponse, WebRefusal>,
)
    requires
        server.wf(),
        server.state is Some,
        ({
            let before = server.state->0;
            ||| before.begins(pin, peer, request, now, step, after)
            ||| before.finishes(request, decision, now, reply, events, after)
            ||| before.completes(session_id, file_id, now, events, after)
            ||| before.cancels(session_id, events, after)
            ||| before.sweeps(now, freed, after)
            ||| before.begins_download(known, pin, peer, download, after)
            ||| before.finishes_download(session_id@, answer, res, after)
        }),
    ensures
        (LocalSendServer { state: Some(after), ..server }).wf(),
{
}

/// A server that has just started admits no upload and no download, and holds
/// no session.
pub proof fn law_new_server_admits_nothing(
    before: LocalSendServer,
    port: u16,
    after: LocalSendServer,
    session_id: Seq<char>,
    file_id: Seq<char>,
    token: Seq<char>,
    peer: PeerIp,
    upload: Result<UploadTicket, Status>,
    download: Result<WebShareFile, Status>,
    now: u64,
)
    requires
        before.starts(port, after),
        after.state->0.admits(session_id, file_id, token, upload),
        after.state->0.admits_download(session_id, file_id, peer, download),
    ensures
        after.device.port == port,
        !after.state->0.busy(now),
        upload == Err::<UploadTicket, Status>(Status::Forbidden),
        download == Err::<WebShareFile, Status>(Status::Forbidden),
{
}

proof fn lemma_by_id(files: Seq<WebShareFile>, i: int)
    requires
        0 <= i < files.len(),
        forall|j: int|
            0 <= j < files.len() && j != i ==> (#[trigger] files[j]).metadata.id@
                != files[i].metadata.id@,
    ensures
        by_id(files).contains_key(files[i].metadata.id@),
        by_id(files)[files[i].metadata.id@] == files[i],
    decreases files.len(),
{
    if i < files.len() - 1 {
        let short = files.drop_last();
        assert forall|j: int| 0 <= j < short.len() && j != i implies (
        #[trigger] short[j]).metadata.id@ != short[i].metadata.id@ by {
            assert(files[j] == short[j]);
        }
        lemma_by_id(short, i);
        assert(files[files.len() - 1].metadata.id@ != files[i].metadata.id@);
    }
}

/// What is shared is what is downloaded: under a share without a PIN that
/// accepts everybody, a browser that asks is answered with every file, and the
/// download of a file gives that very file.
pub proof fn law_shared_files_download(
    before: LocalSendServer,
    files: Seq<WebShareFile>,
    res: Result<(), LocalSendError>,
    after: LocalSendServer,
    pin: Option<Seq<char>>,
    peer: PeerIp,
    step: PrepareDownloadStep,
    next: ServerState,
    i: int,
    download: Result<WebShareFile, Status>,
)
    requires
        before.state is Some,
        before.shares(files, None, true, res, after),
        after.state->0.begins_download(None, pin, peer, step, next),
        0 <= i < files.len(),
        forall|j: int|
            0 <= j < files.len() && j != i ==> (#[trigger] files[j]).metadata.id@
                != files[i].metadata.id@,
        next.admits_download(
            step->Files_0.session_id@,
            files[i].metadata.id@,
            peer,
            download,
        ),
    ensures
        step is Files,
        step->Files_0.info.download,
        step->Files_0.files@.contains_key(files[i].metadata.id@),
        step->Files_0.files@[files[i].metadata.id@] == files[i].metadata,
        download == Ok::<WebShareFile, Status>(files[i]),
{
    lemma_by_id(files, i);
}

/// The device announces downloads while there is a share, and no longer once
/// it is stopped; then a browser that asks is answered 403.
pub proof fn law_share_is_announced_until_it_stops(
    before: LocalSendServer,
    files: Seq<WebShareFile>,
    pin: Option<Seq<char>>,
    auto_accept: bool,
    res: Result<(), LocalSendError>,
    shared: LocalSendServer,
    stopped: Result<(), LocalSendError>,
    after: LocalSendServer,
    known: Option<Seq<char>>,
    given: Option<Seq<char>>,
    peer: PeerIp,
    step: PrepareDownloadStep,
    next: ServerState,
)
    requires
        before.shares(files, pin, auto_accept, res, shared),
        res is Ok,
        shared.unshares(stopped, after),
        after.state->0.begins_download(known, given, peer, step, next),
    ensures
        shared.device.download,
        shared.state->0.device.download,
        stopped is Ok,
        !after.device.download,
        !after.state->0.device.download,
        step is Refuse,
        step->Refuse_0.status == Status::Forbidden,
{
}

/// A browser is answered once: afterwards nobody waits under its session any
/// more, every further answer is an error, and whoever else waits still does.
pub proof fn law_browser_is_answered_once(
    before: LocalSendServer,
    session_id: Seq<char>,
    accepted: bool,
    res: Result<(), LocalSendError>,
    after: LocalSendServer,
    again: bool,
    second: Result<(), LocalSendError>,
    last: LocalSendServer,
    other: Seq<char>,
)
    requires
        before.responds(session_id, accepted, res, after),
        after.responds(session_id, again, second, last),
        other != session_id,
    ensures
        after.waiting(session_id) is None,
        second is Err,
        after.waiting(other) == before.waiting(other),
        last.waiting(other) == before.waiting(other),
{
}

/// An answer reaches the browser that waits for it: what the owner says under
/// the session of a waiting browser is handed to the very channel on which that
/// browser waits, and the owner is told what came of it. Once it has arrived, a
/// yes is answered with the files under that session, which its address may
/// download; a no is answered 403, and the session is gone.
pub proof fn law_answers_reach_the_waiting_browser(
    before: LocalSendServer,
    known: Option<Seq<char>>,
    pin: Option<Seq<char>>,
    peer: PeerIp,
    pending: PendingWebShareRequest,
    receiver: oneshot::Receiver<bool>,
    asked: LocalSendServer,
    accepted: bool,
    res: Result<(), LocalSendError>,
    answered: LocalSendServer,
    reply: Result<PrepareDownloadResponse, WebRefusal>,
    after: ServerState,
)
    requires
        before.state is Some,
        asked.state is Some,
        before.state->0.begins_download(
            known,
            pin,
            peer,
            PrepareDownloadStep::Ask(pending, receiver),
            asked.state->0,
        ),
        asked.responds(pending.session()@, accepted, res, answered),
        answered.state->0.finishes_download(pending.session()@, Some(accepted), reply, after),
    ensures
        asked.waiting(pending.session()@) is Some,
        joined(asked.waiting(pending.session()@)->0, receiver),
        exists|sent: Result<(), bool>| #[trigger]
            arrives(receiver, accepted, sent) && WebShareReply::tells(sent, res),
        accepted ==> reply is Ok && reply->Ok_0.session_id@ == pending.session()@
            && after.web_share->0.grants(pending.session()@, peer),
        !accepted ==> reply is Err && reply->Err_0.status == Status::Forbidden
            && !after.web_share->0.sessions@.contains_key(pending.session()@),
{
    let responder = asked.waiting(pending.session()@)->0;
    let sent = choose|sent: Result<(), bool>| #[trigger]
        handed(responder, accepted, sent) && WebShareReply::tells(sent, res);
    assert(joined(responder, receiver) && handed(responder, accepted, sent));
    assert(arrives(receiver, accepted, sent));
}

/// The events can be taken once after each start: whoever takes them first gets
/// the end on which what is sent arrives, and whoever comes later gets nothing.
/// That the server listens in between changes neither.
pub proof fn law_events_are_taken_once(
    before: LocalSendServer,
    sender: mpsc::Sender<ServerEvent>,
    opened: LocalSendServer,
    port: u16,
    listening: LocalSendServer,
    first: Option<mpsc::Receiver<ServerEvent>>,
    taken: LocalSendServer,
    second: Option<mpsc::Receiver<ServerEvent>>,
    after: LocalSendServer,
)
    requires
        before.announces_on(sender, opened),
        opened.starts(port, listening),
        listening.gives_events(first, taken),
        taken.gives_events(second, after),
    ensures
        first matches Some(receiver) && linked(EVENT_BUFFER, sender, receiver),
        second is None,
        after == taken,
{
}

} // verus!
