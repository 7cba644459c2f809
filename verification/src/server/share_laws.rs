//! What browsers see of a share, from its start to its end.

use crate::error::LocalSendError;
use crate::outside::{drawn, guessed_mime, handed, joined};
use crate::protocol::{DeviceInfo, FileId, PeerIp, SessionId, Status};
use crate::server::events::{PendingWebShareRequest, ServerEvent};
use crate::server::server::{LocalSendServer, WebShareReply};
use crate::server::state::ServerState;
use crate::server::web_share::{
    by_id, content_disposition, disk_failure_status, download_events, listing, quotable,
    without_slash, DiskFailure, PrepareDownloadResponse, PrepareDownloadStep, WebRefusal,
    WebShareFile, WebShareSession, WebShareSource, WebShareState,
};
use std::path::PathBuf;
use tokio::sync::oneshot;
use vstd::prelude::*;

verus! {

/// True when the file at place `i` is the last of `files` with its identifier.
pub open spec fn last_of_its_name(files: Seq<WebShareFile>, i: int) -> bool {
    &&& 0 <= i < files.len()
    &&& forall|j: int|
        i < j < files.len() ==> (#[trigger] files[j]).metadata.id.text@
            != files[i].metadata.id.text@
}

proof fn lemma_by_id(files: Seq<WebShareFile>)
    ensures
        forall|i: int| #[trigger]
            last_of_its_name(files, i) ==> by_id(files).contains_key(files[i].metadata.id.text@)
                && by_id(files)[files[i].metadata.id.text@] == files[i],
        forall|k: Seq<char>| #[trigger]
            by_id(files).contains_key(k) ==> exists|i: int| #[trigger]
                last_of_its_name(files, i) && files[i].metadata.id.text@ == k,
    decreases files.len(),
{
    if files.len() > 0 {
        let short = files.drop_last();
        let n = files.len() - 1;
        lemma_by_id(short);
        assert(last_of_its_name(files, n));
        assert forall|i: int| #[trigger] last_of_its_name(files, i) implies by_id(
            files,
        ).contains_key(files[i].metadata.id.text@) && by_id(files)[files[i].metadata.id.text@]
            == files[i] by {
            if i < n {
                assert(files[n].metadata.id.text@ != files[i].metadata.id.text@);
                assert forall|j: int| i < j < short.len() implies (
                #[trigger] short[j]).metadata.id.text@ != short[i].metadata.id.text@ by {
                    assert(files[j] == short[j]);
                }
                assert(last_of_its_name(short, i));
            }
        }
        assert forall|k: Seq<char>| #[trigger] by_id(files).contains_key(k) implies exists|
            i: int,
        | #[trigger]
            last_of_its_name(files, i) && files[i].metadata.id.text@ == k by {
            if k != files[n].metadata.id.text@ {
                assert(by_id(short).contains_key(k));
                let i = choose|i: int| #[trigger]
                    last_of_its_name(short, i) && short[i].metadata.id.text@ == k;
                assert forall|j: int| i < j < files.len() implies (
                #[trigger] files[j]).metadata.id.text@ != files[i].metadata.id.text@ by {
                    if j < n {
                        assert(short[j] == files[j]);
                    }
                }
                assert(last_of_its_name(files, i));
            }
        }
    }
}

/// True when the share holds these files and no others, each under its own
/// identifier; of two with one identifier the later.
pub open spec fn holds(web: WebShareState, files: Seq<WebShareFile>) -> bool {
    &&& forall|i: int| #[trigger]
        last_of_its_name(files, i) ==> web.files@.contains_key(files[i].metadata.id.text@)
            && web.files@[files[i].metadata.id.text@] == files[i]
    &&& forall|k: Seq<char>| #[trigger]
        web.files@.contains_key(k) ==> exists|i: int| #[trigger]
            last_of_its_name(files, i) && files[i].metadata.id.text@ == k
}

/// True when the answer describes the files of the share, one by one.
pub open spec fn lists(response: PrepareDownloadResponse, web: WebShareState) -> bool {
    forall|k: Seq<char>|
        #![trigger response.files@.contains_key(k)]
        #![trigger web.files@.contains_key(k)]
        response.files@.contains_key(k) == web.files@.contains_key(k) && (web.files@.contains_key(k)
            ==> response.files@[k] == web.files@[k].metadata)
}

proof fn lemma_lists(response: PrepareDownloadResponse, web: WebShareState)
    requires
        response.files@ == listing(web.files@),
    ensures
        lists(response, web),
{
}

/// A share starts on a running server with at least one file, and holds all the
/// given files, whatever the PIN and whether it asks. It replaces any other
/// share, and the device announces it. No browser has asked yet. Without files,
/// or before the server runs, nothing changes.
pub proof fn law_shares_hold_every_given_file(
    server: &mut LocalSendServer,
    files: Vec<WebShareFile>,
    pin: Option<String>,
    auto_accept: bool,
    res: Result<(), LocalSendError>,
)
    requires
        call_ensures(LocalSendServer::start_web_share, (server, files, pin, auto_accept), res),
    ensures
        res is Ok <==> files@.len() > 0 && old(server).state is Some,
        res is Err ==> *final(server) == *old(server),
        res is Err ==> (res matches Err(LocalSendError::InvalidState { message }) && message@ == (
        if files@.len() == 0 {
            "Web share requires at least one file"@
        } else {
            "Server is not running"@
        })),
        res is Ok ==> {
            let before = old(server).state->0;
            let after = final(server).state->0;
            &&& final(server).state is Some
            &&& after.web_share matches Some(web)
            &&& holds(web, files@)
            &&& forall|k: Seq<char>| !#[trigger] web.sessions@.contains_key(k)
            &&& web.auto_accept == auto_accept
            &&& final(server).device == (DeviceInfo { download: true, ..old(server).device })
            &&& after == (ServerState {
                device: DeviceInfo { download: true, ..before.device },
                web_share: after.web_share,
                ..before
            })
            &&& *final(server) == (LocalSendServer {
                device: final(server).device,
                state: final(server).state,
                ..*old(server)
            })
        },
{
    lemma_by_id(files@);
}

/// A share takes its files and its PIN as they were given.
pub proof fn law_new_shares_hold_every_given_file(
    files: Vec<WebShareFile>,
    pin: Option<String>,
    auto_accept: bool,
    web: WebShareState,
)
    requires
        call_ensures(WebShareState::new, (files, pin, auto_accept), web),
    ensures
        holds(web, files@),
        web.auto_accept == auto_accept,
        web.pin_gate.expected() == (if pin is Some {
            Some(pin->0@)
        } else {
            None
        }),
        forall|k: Seq<char>| !#[trigger] web.sessions@.contains_key(k),
{
    lemma_by_id(files@);
}

/// The end of a share takes it away and the announcement with it; without a
/// running server nothing changes.
pub proof fn law_shares_end(server: &mut LocalSendServer, res: Result<(), LocalSendError>)
    requires
        call_ensures(LocalSendServer::stop_web_share, (server,), res),
    ensures
        res is Ok <==> old(server).state is Some,
        res is Err ==> *final(server) == *old(server) && (res matches Err(
            LocalSendError::InvalidState { message },
        ) && message@ == "Server is not running"@),
        res is Ok ==> {
            &&& final(server).state is Some
            &&& final(server).state->0.web_share is None
            &&& !final(server).device.download
            &&& *final(server) == (LocalSendServer {
                device: DeviceInfo { download: false, ..old(server).device },
                state: Some(
                    ServerState {
                        device: DeviceInfo { download: false, ..old(server).state->0.device },
                        web_share: None,
                        ..old(server).state->0
                    },
                ),
                ..*old(server)
            })
        },
{
}

/// A request for the files is answered by what the share knows of the browser.
/// A session that was approved for its address is answered again, and nothing
/// changes. Whoever else gets the files has a new session, approved for its
/// address; whoever is asked about has one that waits, on the channel on which
/// the answer will come. Whoever is sent away leaves no session. The answer
/// describes the device with its downloads on and every file of the share. No
/// session of anybody else changes, and neither do the files.
pub proof fn law_browsers_are_let_in_asked_about_or_sent_away(
    state: &mut ServerState,
    known: Option<&SessionId>,
    pin: Option<&str>,
    peer: PeerIp,
    step: PrepareDownloadStep,
    asking: &SessionId,
    address: PeerIp,
)
    requires
        call_ensures(ServerState::begin_prepare_download, (state, known, pin, peer), step),
        step is Ask ==> call_ensures(PendingWebShareRequest::session_id, (&step->Ask_0,), asking),
        step is Ask ==> call_ensures(PendingWebShareRequest::ip, (&step->Ask_0,), address),
    ensures
        old(state).web_share is None ==> {
            &&& *final(state) == *old(state)
            &&& step is Refuse
            &&& step->Refuse_0.status == Status::Forbidden
            &&& step->Refuse_0.text@ == "Web share not initialized"@
        },
        old(state).web_share is Some ==> {
            let before = old(state).web_share->0;
            let after = final(state).web_share->0;
            let again = known is Some && before.sessions@.contains_key(known->0.text@)
                && before.sessions@[known->0.text@].approved
                && before.sessions@[known->0.text@].ip == peer;
            &&& final(state).web_share is Some
            &&& *final(state) == (ServerState { web_share: final(state).web_share, ..*old(state) })
            &&& after.files == before.files
            &&& after.auto_accept == before.auto_accept
            &&& again ==> *final(state) == *old(state) && step is Files
                && step->Files_0.session_id.text@ == known->0.text@
            &&& step matches PrepareDownloadStep::Files(response) ==> {
                &&& lists(response, before)
                &&& response.info == (DeviceInfo { download: true, ..old(state).device })
                &&& after.sessions@.contains_key(response.session_id.text@)
                &&& after.sessions@[response.session_id.text@].approved
                &&& after.sessions@[response.session_id.text@].ip == peer
                &&& forall|k: Seq<char>|
                    k != response.session_id.text@ ==> after.sessions@.contains_key(k)
                        == before.sessions@.contains_key(k) && #[trigger] after.sessions@[k]
                        == before.sessions@[k]
                &&& !again ==> before.auto_accept && drawn(response.session_id.text)
                    && after.sessions@[response.session_id.text@].response_tx is None
            }
            &&& step matches PrepareDownloadStep::Ask(pending, receiver) ==> {
                &&& !again && !before.auto_accept
                &&& drawn(asking.text)
                &&& address == peer
                &&& after.sessions@.contains_key(asking.text@)
                &&& !after.sessions@[asking.text@].approved
                &&& after.sessions@[asking.text@].ip == peer
                &&& after.sessions@[asking.text@].response_tx is Some
                &&& joined(after.sessions@[asking.text@].response_tx->0, receiver)
                &&& forall|k: Seq<char>|
                    k != asking.text@ ==> after.sessions@.contains_key(k)
                        == before.sessions@.contains_key(k) && #[trigger] after.sessions@[k]
                        == before.sessions@[k]
            }
            &&& step is Refuse ==> !again && after.sessions@ == before.sessions@ && (
            step->Refuse_0.status == Status::Unauthorized || step->Refuse_0.status
                == Status::TooManyRequests)
        },
{
    if old(state).web_share is Some {
        let before = old(state).web_share->0;
        if step is Files {
            lemma_lists(step->Files_0, before);
        }
    }
}

/// The owner's answer settles a browser that waits. A yes approves its session,
/// for its address, and is answered with every file of the share; a no takes its
/// session out and is answered 403, and so is a browser that nobody could be
/// asked about, whose session stays as it was. Without a share the answer is
/// 403. No other session changes.
pub proof fn law_answers_settle_the_browser(
    state: &mut ServerState,
    session_id: SessionId,
    answer: Option<bool>,
    res: Result<PrepareDownloadResponse, WebRefusal>,
)
    requires
        call_ensures(ServerState::finish_prepare_download, (state, &session_id, answer), res),
    ensures
        res is Ok <==> old(state).web_share is Some && answer == Some(true),
        res is Err ==> res->Err_0.status == Status::Forbidden,
        res is Err ==> res->Err_0.text@ == (if old(state).web_share is Some && answer == Some(false)
        {
            "File transfer rejected"@
        } else {
            ""@
        }),
        old(state).web_share is None ==> *final(state) == *old(state),
        old(state).web_share is Some ==> {
            let before = old(state).web_share->0;
            let after = final(state).web_share->0;
            let k = session_id.text@;
            &&& final(state).web_share is Some
            &&& *final(state) == (ServerState { web_share: final(state).web_share, ..*old(state) })
            &&& after.files == before.files
            &&& after.auto_accept == before.auto_accept
            &&& after.pin_gate == before.pin_gate
            &&& forall|other: Seq<char>|
                other != k ==> after.sessions@.contains_key(other) == before.sessions@.contains_key(
                    other,
                ) && (before.sessions@.contains_key(other) ==> #[trigger] after.sessions@[other]
                    == before.sessions@[other])
            &&& answer is None ==> after.sessions@ == before.sessions@
            &&& answer == Some(false) ==> !after.sessions@.contains_key(k)
            &&& answer == Some(true) ==> {
                &&& lists(res->Ok_0, before)
                &&& res->Ok_0.session_id.text@ == k
                &&& res->Ok_0.info == (DeviceInfo { download: true, ..old(state).device })
                &&& after.sessions@.contains_key(k) == before.sessions@.contains_key(k)
                &&& before.sessions@.contains_key(k) ==> after.sessions@[k].approved
                    && after.sessions@[k].ip == before.sessions@[k].ip
                    && after.sessions@[k].response_tx is None
            }
        },
{
    if old(state).web_share is Some && res is Ok {
        lemma_lists(res->Ok_0, old(state).web_share->0);
    }
}

/// A download gives the file of that identifier to an approved session at its
/// address, and 403 to everybody else and for everything else.
pub proof fn law_approved_sessions_download(
    state: ServerState,
    session_id: SessionId,
    file_id: FileId,
    peer: PeerIp,
    res: Result<&WebShareFile, Status>,
)
    requires
        call_ensures(ServerState::admit_download, (&state, &session_id, &file_id, peer), res),
    ensures
        ({
            let web = state.web_share->0;
            let approved = state.web_share is Some && web.sessions@.contains_key(session_id.text@)
                && web.sessions@[session_id.text@].approved && web.sessions@[session_id.text@].ip
                == peer;
            &&& approved && web.files@.contains_key(file_id.text@) ==> res is Ok && *(res->Ok_0)
                == web.files@[file_id.text@]
            &&& !approved || !web.files@.contains_key(file_id.text@) ==> res is Err && res->Err_0
                == Status::Forbidden
        }),
{
}

/// A share does what it is for: whoever is let in, at once or with the PIN, is
/// listed every given file with an identifier of its own, and downloads it.
pub proof fn law_let_in_browsers_get_every_file(
    server: &mut LocalSendServer,
    files: Vec<WebShareFile>,
    pin: Option<String>,
    auto_accept: bool,
    res: Result<(), LocalSendError>,
    state: &mut ServerState,
    known: Option<&SessionId>,
    given: Option<&str>,
    peer: PeerIp,
    response: PrepareDownloadResponse,
    i: int,
    file_id: FileId,
    download: Result<&WebShareFile, Status>,
)
    requires
        call_ensures(LocalSendServer::start_web_share, (server, files, pin, auto_accept), res),
        res is Ok,
        old(state).web_share is Some,
        old(state).web_share->0.files == final(server).state->0.web_share->0.files,
        call_ensures(
            ServerState::begin_prepare_download,
            (state, known, given, peer),
            PrepareDownloadStep::Files(response),
        ),
        last_of_its_name(files@, i),
        file_id.text@ == files@[i].metadata.id.text@,
        call_ensures(
            ServerState::admit_download,
            (&*final(state), &response.session_id, &file_id, peer),
            download,
        ),
    ensures
        response.files@.contains_key(files@[i].metadata.id.text@),
        response.files@[files@[i].metadata.id.text@] == files@[i].metadata,
        download is Ok && *(download->Ok_0) == files@[i],
{
    law_shares_hold_every_given_file(server, files, pin, auto_accept, res);
    let web = old(state).web_share->0;
    assert(web.files@.contains_key(files@[i].metadata.id.text@));
    if known is Some && web.sessions@.contains_key(known->0.text@)
        && web.sessions@[known->0.text@].approved && web.sessions@[known->0.text@].ip == peer {
        lemma_lists(response, web);
    } else {
        lemma_lists(response, web);
    }
    law_approved_sessions_download(
        *final(state),
        response.session_id,
        file_id,
        peer,
        download,
    );
}

/// And so is whoever was asked about and approved.
pub proof fn law_approved_browsers_get_every_file(
    server: &mut LocalSendServer,
    files: Vec<WebShareFile>,
    pin: Option<String>,
    auto_accept: bool,
    res: Result<(), LocalSendError>,
    asked: &mut ServerState,
    known: Option<&SessionId>,
    given: Option<&str>,
    peer: PeerIp,
    step: PrepareDownloadStep,
    session_id: &SessionId,
    state: &mut ServerState,
    answer: Result<PrepareDownloadResponse, WebRefusal>,
    i: int,
    file_id: FileId,
    download: Result<&WebShareFile, Status>,
)
    requires
        call_ensures(LocalSendServer::start_web_share, (server, files, pin, auto_accept), res),
        res is Ok,
        old(asked).web_share is Some,
        old(asked).web_share->0.files == final(server).state->0.web_share->0.files,
        call_ensures(ServerState::begin_prepare_download, (asked, known, given, peer), step),
        step is Ask,
        call_ensures(PendingWebShareRequest::session_id, (&step->Ask_0,), session_id),
        old(state).web_share is Some,
        old(state).web_share->0.files == final(asked).web_share->0.files,
        old(state).web_share->0.sessions@.contains_key(session_id.text@),
        old(state).web_share->0.sessions@[session_id.text@].ip
            == final(asked).web_share->0.sessions@[session_id.text@].ip,
        call_ensures(
            ServerState::finish_prepare_download,
            (state, session_id, Some(true)),
            answer,
        ),
        last_of_its_name(files@, i),
        file_id.text@ == files@[i].metadata.id.text@,
        call_ensures(
            ServerState::admit_download,
            (&*final(state), session_id, &file_id, peer),
            download,
        ),
    ensures
        answer is Ok,
        answer->Ok_0.files@.contains_key(files@[i].metadata.id.text@),
        answer->Ok_0.files@[files@[i].metadata.id.text@] == files@[i].metadata,
        download is Ok && *(download->Ok_0) == files@[i],
{
    law_shares_hold_every_given_file(server, files, pin, auto_accept, res);
    law_answers_settle_the_browser(state, *session_id, Some(true), answer);
    let web = old(state).web_share->0;
    assert(web.files@.contains_key(files@[i].metadata.id.text@));
    law_approved_sessions_download(*final(state), *session_id, file_id, peer, download);
}

/// The owner answers a browser that waits by its session: the answer is handed
/// to that browser's channel, whose session waits no longer, and the owner is
/// told whether it went out. Where nobody waits it is an error. Nothing else
/// changes.
pub proof fn law_owners_answer_whoever_waits(
    server: &mut LocalSendServer,
    session_id: SessionId,
    accepted: bool,
    res: Result<(), LocalSendError>,
)
    requires
        call_ensures(LocalSendServer::respond_web_share, (server, &session_id, accepted), res),
    ensures
        ({
            let k = session_id.text@;
            let running = old(server).state is Some;
            let web = old(server).state->0.web_share->0;
            let waits = running && old(server).state->0.web_share is Some
                && web.sessions@.contains_key(k) && web.sessions@[k].response_tx is Some;
            &&& waits ==> exists|sent: Result<(), bool>| #[trigger]
                handed(web.sessions@[k].response_tx->0, accepted, sent) && (sent is Ok == res is Ok)
            &&& waits && res is Err ==> (res matches Err(LocalSendError::InvalidState { message })
                && message@ == "Web Share requester disconnected"@)
            &&& !waits ==> (res matches Err(LocalSendError::InvalidState { message }) && message@
                == (if running {
                "Unknown or already answered Web Share request"@
            } else {
                "Server is not running"@
            }))
            &&& running && old(server).state->0.web_share is Some ==> {
                let after = final(server).state->0.web_share->0;
                &&& final(server).state is Some
                &&& final(server).state->0.web_share is Some
                &&& after.files == web.files
                &&& after.auto_accept == web.auto_accept
                &&& after.pin_gate == web.pin_gate
                &&& forall|other: Seq<char>|
                    after.sessions@.contains_key(other) == web.sessions@.contains_key(other)
                        && #[trigger] after.sessions@[other] == (if other == k
                        && web.sessions@.contains_key(k) {
                        WebShareSession { response_tx: None, ..web.sessions@[k] }
                    } else {
                        web.sessions@[other]
                    })
                &&& *final(server) == (LocalSendServer {
                    state: Some(
                        ServerState {
                            web_share: final(server).state->0.web_share,
                            ..old(server).state->0
                        },
                    ),
                    ..*old(server)
                })
            }
            &&& !running || old(server).state->0.web_share is None ==> *final(server)
                == *old(server)
        }),
{
}

/// A file for a share keeps its name, its size and its bytes or its path, and
/// its media type is the one that its name suggests.
pub proof fn law_shared_files_are_described(
    name: String,
    bytes: Vec<u8>,
    held: WebShareFile,
    path: PathBuf,
    size: u64,
    on_disk: WebShareFile,
)
    requires
        call_ensures(WebShareFile::inline, (name, bytes), held),
        call_ensures(WebShareFile::path, (path, name, size), on_disk),
    ensures
        held.metadata.file_name@ == name@ && on_disk.metadata.file_name@ == name@,
        held.metadata.size == bytes@.len() && on_disk.metadata.size == size,
        held.metadata.file_type@ == guessed_mime(name@) && on_disk.metadata.file_type@
            == guessed_mime(name@),
        held.source is Inline && held.source->Inline_0@ == bytes@,
        on_disk.source is Path && on_disk.source->Path_0 == path,
        drawn(held.metadata.id.text) && drawn(on_disk.metadata.id.text),
        held.metadata.sha256 is None && held.metadata.preview is None && held.metadata.metadata is None,
        on_disk.metadata.sha256 is None && on_disk.metadata.preview is None
            && on_disk.metadata.metadata is None,
{
}

/// What a download is told as: all of its bytes, then the end of its session.
pub proof fn law_downloads_are_told(
    session_id: SessionId,
    file_id: FileId,
    length: u64,
    events: Vec<ServerEvent>,
    failure: DiskFailure,
    status: Status,
)
    requires
        call_ensures(download_events, (session_id, file_id, length), events),
        call_ensures(disk_failure_status, (failure,), status),
    ensures
        events@.len() == 2,
        events@[0] == (ServerEvent::WebShareDownloadProgress {
            session_id,
            file_id,
            bytes_sent: length,
            total_bytes: length,
        }),
        events@[1] == (ServerEvent::WebShareSessionDone { session_id }),
        failure == DiskFailure::Open ==> status == Status::NotFound,
        failure == DiskFailure::Metadata ==> status == Status::InternalServerError,
{
}

/// The page of a share is there exactly while the share is, and so are its
/// texts, each under its name.
pub proof fn law_the_page_is_there_with_the_share(
    state: ServerState,
    page: Status,
    texts: Result<Vec<(&'static str, &'static str)>, Status>,
)
    requires
        call_ensures(ServerState::web_page_status, (&state,), page),
        call_ensures(ServerState::web_texts, (&state,), texts),
    ensures
        state.web_share is Some ==> page == Status::Success && texts is Ok,
        state.web_share is None ==> page == Status::Forbidden && texts is Err && texts->Err_0
            == Status::Forbidden,
        texts matches Ok(list) ==> {
            &&& list@.len() == 8
            &&& list@[0].0@ == "waiting"@ && list@[0].1@ == "Waiting for approval…"@
            &&& list@[1].0@ == "enterPin"@ && list@[1].1@ == "Enter PIN"@
            &&& list@[2].0@ == "invalidPin"@ && list@[2].1@ == "Invalid PIN"@
            &&& list@[3].0@ == "tooManyAttempts"@ && list@[3].1@ == "Too many attempts"@
            &&& list@[4].0@ == "rejected"@ && list@[4].1@ == "Transfer rejected"@
            &&& list@[5].0@ == "files"@ && list@[5].1@ == "Files"@
            &&& list@[6].0@ == "fileName"@ && list@[6].1@ == "File name"@
            &&& list@[7].0@ == "size"@ && list@[7].1@ == "Size"@
        },
{
    if texts is Ok {
        let list = texts->Ok_0@;
        let shown = crate::server::web_share::pairs(list);
        assert(shown.len() == list.len());
        assert(shown[0] == (list[0].0@, list[0].1@));
        assert(shown[1] == (list[1].0@, list[1].1@));
        assert(shown[2] == (list[2].0@, list[2].1@));
        assert(shown[3] == (list[3].0@, list[3].1@));
        assert(shown[4] == (list[4].0@, list[4].1@));
        assert(shown[5] == (list[5].0@, list[5].1@));
        assert(shown[6] == (list[6].0@, list[6].1@));
        assert(shown[7] == (list[7].0@, list[7].1@));
    }
}

proof fn lemma_quotable_push(head: Seq<char>, c: char)
    ensures
        quotable(head.push(c)) == quotable(head) + (if c == '"' {
            Seq::<char>::empty()
        } else if c == '/' || c == '\\' {
            seq!['-']
        } else {
            seq![c]
        }),
{
    reveal(Seq::filter);
    let f = |c: char| without_slash(c);
    let whole = head.push(c).map_values(f);
    assert(whole.drop_last() =~= head.map_values(f));
    assert(whole.last() == without_slash(c));
    let kept = quotable(head);
    assert(kept.push('-') =~= kept + seq!['-']);
    assert(kept.push(c) =~= kept + seq![c]);
    assert(kept =~= kept + Seq::<char>::empty());
}

/// A download is named after its file, between quotes. The name is taken
/// character by character: a slash or a backslash becomes a hyphen, a quote is
/// left out, and every other character stays.
pub proof fn law_downloads_are_named_after_their_file(
    head: &str,
    c: char,
    name: &str,
    short: String,
    long: String,
    nothing: &str,
    bare: String,
)
    requires
        name@ == head@.push(c),
        nothing@.len() == 0,
        call_ensures(content_disposition, (head,), short),
        call_ensures(content_disposition, (name,), long),
        call_ensures(content_disposition, (nothing,), bare),
    ensures
        bare@ == "attachment; filename=\"\""@,
        exists|kept: Seq<char>|
            {
                &&& #[trigger] ("attachment; filename=\""@ + kept) + "\""@ == short@
                &&& long@ == "attachment; filename=\""@ + kept + (if c == '"' {
                    Seq::<char>::empty()
                } else if c == '/' || c == '\\' {
                    seq!['-']
                } else {
                    seq![c]
                }) + "\""@
            },
{
    reveal_strlit("attachment; filename=\"");
    reveal_strlit("\"");
    reveal_strlit("attachment; filename=\"\"");
    lemma_quotable_push(head@, c);
    assert(nothing@ =~= Seq::<char>::empty());
    reveal(Seq::filter);
    assert(quotable(nothing@) =~= Seq::<char>::empty());
    assert(bare@ =~= "attachment; filename=\"\""@);
    let kept = quotable(head@);
    assert(("attachment; filename=\""@ + kept) + "\""@ == short@);
    assert(long@ =~= "attachment; filename=\""@ + kept + (if c == '"' {
        Seq::<char>::empty()
    } else if c == '/' || c == '\\' {
        seq!['-']
    } else {
        seq![c]
    }) + "\""@);
}

/// The parts of a share by themselves: a session is granted where it is approved
/// for its address, and the way back to a browser is taken once.
pub proof fn law_sessions_of_a_share(
    web: &mut WebShareState,
    session_id: SessionId,
    peer: PeerIp,
    granted: bool,
    taken: Option<oneshot::Sender<bool>>,
)
    requires
        call_ensures(WebShareState::is_granted, (&*old(web), &session_id, peer), granted),
        call_ensures(WebShareState::take_responder, (web, &session_id), taken),
    ensures
        ({
            let k = session_id.text@;
            let there = old(web).sessions@.contains_key(k);
            &&& granted <==> there && old(web).sessions@[k].approved && old(web).sessions@[k].ip
                == peer
            &&& taken == (if there {
                old(web).sessions@[k].response_tx
            } else {
                None
            })
            &&& there ==> final(web).sessions@.contains_key(k)
                && final(web).sessions@[k].response_tx is None
                && final(web).sessions@[k].approved == old(web).sessions@[k].approved
                && final(web).sessions@[k].ip == old(web).sessions@[k].ip
        }),
{
}

/// A file of any source keeps the description that it was given.
pub proof fn law_given_descriptions_are_kept(
    id: FileId,
    name: String,
    size: u64,
    file_type: String,
    source: WebShareSource,
    file: WebShareFile,
)
    requires
        call_ensures(WebShareFile::with_source, (id, name, size, file_type, source), file),
    ensures
        file.metadata.id == id,
        file.metadata.file_name@ == name@,
        file.metadata.size == size,
        file.metadata.file_type@ == file_type@,
        file.source == source,
        file.metadata.sha256 is None && file.metadata.preview is None && file.metadata.metadata is None,
{
}

/// An answer that is made ready goes to the browser that waits under the
/// session, as it was given; the owner is told whether it went out.
pub proof fn law_replies_go_to_whoever_waits(
    server: &mut LocalSendServer,
    session_id: SessionId,
    accepted: bool,
    reply: Result<WebShareReply, LocalSendError>,
    sent: Result<(), bool>,
    told: Result<(), LocalSendError>,
    given: WebShareReply,
    end: Result<(), LocalSendError>,
)
    requires
        call_ensures(LocalSendServer::prepare_reply, (server, &session_id, accepted), reply),
        call_ensures(WebShareReply::outcome, (sent,), told),
        call_ensures(WebShareReply::deliver, (given,), end),
    ensures
        ({
            let web = old(server).state->0.web_share->0;
            let waits = old(server).state is Some && old(server).state->0.web_share is Some
                && web.sessions@.contains_key(session_id.text@)
                && web.sessions@[session_id.text@].response_tx is Some;
            &&& waits ==> reply is Ok && reply->Ok_0.accepted == accepted && Some(
                reply->Ok_0.responder,
            ) == web.sessions@[session_id.text@].response_tx
            &&& !waits ==> reply is Err
        }),
        sent is Ok <==> told is Ok,
        exists|went: Result<(), bool>| #[trigger]
            handed(given.responder, given.accepted, went) && (went is Ok <==> end is Ok),
{
}

} // verus!
