//! What becomes of a transfer, from the offer to its last file.

use crate::id_map::IdMap;
use crate::outside::{arrives, drawn, ends_in, handed, joined};
use crate::protocol::{
    DeviceInfo, FileId, FileMetadata, PeerIp, PrepareUploadRequest, PrepareUploadResponse,
    SessionId, Status, Token,
};
use crate::server::events::{
    chosen, decision_covers, settled, DecisionReply, PendingRequest, ServerEvent, TransferDecision,
};
use crate::server::handlers::{
    message_of, message_text, store_failure_status, PrepareUploadReply, PrepareUploadStep,
    StoreAction, StoreFailure, StoreOutcome, UploadParams, UploadTicket,
};
use crate::server::state::ServerState;
use crate::session::{assign_tokens, Session};
use crate::text_laws::two_cases;
use std::path::PathBuf;
use tokio::sync::oneshot;
use vstd::prelude::*;

verus! {

/// True when the owner said yes to the file `k`: to everything, or by naming it
/// at some place.
pub open spec fn said_yes(answer: Option<TransferDecision>, k: Seq<char>) -> bool {
    ||| answer matches Some(TransferDecision::Accept)
    ||| answer matches Some(TransferDecision::AcceptFiles(ids)) && exists|i: int|
        0 <= i < ids@.len() && (#[trigger] ids@[i]).text@ == k
}

proof fn lemma_chosen(
    answer: Option<TransferDecision>,
    offered: Map<Seq<char>, FileMetadata>,
    k: Seq<char>,
)
    ensures
        chosen(settled(answer), offered).contains(k) <==> offered.contains_key(k) && said_yes(
            answer,
            k,
        ),
{
    if let Some(TransferDecision::AcceptFiles(ids)) = answer {
        if said_yes(answer, k) {
            let i = choose|i: int| 0 <= i < ids@.len() && (#[trigger] ids@[i]).text@ == k;
            assert(ids@[i]@ == k);
        }
        if chosen(settled(answer), offered).contains(k) {
            let i = choose|i: int| 0 <= i < ids@.len() && (#[trigger] ids@[i])@ == k;
            assert(ids@[i].text@ == k);
        }
    }
}

/// A decision covers a file exactly where it accepts everything or names the
/// file, at whatever place.
pub proof fn law_named_files_are_covered(decision: TransferDecision, id: &str, res: bool)
    requires
        call_ensures(decision_covers, (&decision, id), res),
    ensures
        res <==> said_yes(Some(decision), id@),
{
    let file: FileMetadata = vstd::pervasive::arbitrary();
    let offered = Map::<Seq<char>, FileMetadata>::empty().insert(id@, file);
    assert(offered.contains_key(id@));
    lemma_chosen(Some(decision), offered, id@);
}

/// An offer is answered by what it offers and by what runs. One without files is
/// answered 204. One that meets a session with a sign of life in the last 300
/// seconds is answered 409. Neither changes the session, and neither does an
/// offer without the right PIN. Any other reserves the slot over everything that
/// it offers, for its sender, and is accepted at once or asked about, as
/// auto-accept says. Whoever is asked sees the sender and the files, and answers
/// on the channel on which the offer waits.
pub proof fn law_offers_take_the_free_slot(
    state: &mut ServerState,
    pin: Option<&str>,
    peer: PeerIp,
    request: PrepareUploadRequest,
    now: u64,
    step: PrepareUploadStep,
    asking: &DeviceInfo,
    shown: &IdMap<FileMetadata>,
)
    requires
        call_ensures(ServerState::begin_prepare_upload, (state, pin, peer, &request, now), step),
        step is Ask ==> call_ensures(PendingRequest::sender, (&step->Ask_0,), asking),
        step is Ask ==> call_ensures(PendingRequest::files, (&step->Ask_0,), shown),
    ensures
        ({
            let passed = step != PrepareUploadStep::Reply(Status::Unauthorized) && step
                != PrepareUploadStep::Reply(Status::TooManyRequests);
            let empty = forall|k: Seq<char>| !#[trigger] request.files@.contains_key(k);
            let alive = old(state).current_session is Some && now
                <= old(state).current_session->0.last_activity + 300;
            &&& passed && empty ==> step == PrepareUploadStep::Reply(Status::NoContent)
            &&& passed && !empty && alive ==> step == PrepareUploadStep::Reply(Status::Conflict)
            &&& !passed || empty || alive ==> final(state).current_session
                == old(state).current_session
            &&& passed && !empty && !alive ==> {
                &&& final(state).current_session matches Some(session)
                &&& session.sender_alias == request.info.alias
                &&& session.files@ == request.files@
                &&& drawn(session.id.text)
                &&& forall|k: Seq<char>| #[trigger]
                    session.tokens@.contains_key(k) == request.files@.contains_key(k)
                &&& session.received@.dom() == Set::<Seq<char>>::empty()
                &&& session.last_activity == now
                &&& if old(state).auto_accept {
                    step is Accepted
                } else {
                    &&& step is Ask
                    &&& joined(step->Ask_0.channel(), step->Ask_1)
                    &&& *asking == request.info
                    &&& shown@ == request.files@
                }
            }
        }),
        final(state).device == old(state).device,
        final(state).save_dir == old(state).save_dir,
        final(state).auto_accept == old(state).auto_accept,
        final(state).accept_timeout == old(state).accept_timeout,
        final(state).web_share == old(state).web_share,
{
    if forall|k: Seq<char>| !#[trigger] request.files@.contains_key(k) {
        assert(request.files@ =~= Map::<Seq<char>, FileMetadata>::empty());
    }
    if final(state).current_session is Some {
        let session = final(state).current_session->0;
        assert forall|k: Seq<char>| session.tokens@.dom() == session.files@.dom() implies #[trigger]
            session.tokens@.contains_key(k) == session.files@.contains_key(k) by {
            assert(session.tokens@.dom().contains(k) == session.files@.dom().contains(k));
        }
        if session.received@ == Map::<Seq<char>, bool>::empty() {
            assert(session.received@.dom() =~= Set::<Seq<char>>::empty());
        }
    }
}

/// True when the offer is a message: one item with a preview that is not empty,
/// and less than a mebibyte.
pub open spec fn is_message(files: Map<Seq<char>, FileMetadata>, text: Seq<char>) -> bool {
    exists|k: Seq<char>|
        {
            &&& #[trigger] files.contains_key(k)
            &&& forall|other: Seq<char>| #[trigger] files.contains_key(other) ==> other == k
            &&& files[k].preview is Some
            &&& files[k].preview->0@ == text
            &&& text.len() > 0
            &&& files[k].size < 1024 * 1024
        }
}

proof fn lemma_message(files: Map<Seq<char>, FileMetadata>)
    requires
        files.dom().finite(),
    ensures
        message_of(files) matches Some(text) ==> is_message(files, text),
        message_of(files) is None ==> forall|text: Seq<char>| !#[trigger] is_message(files, text),
{
    let d = files.dom();
    if d.len() == 1 {
        let c = d.choose();
        assert(d.contains(c));
        assert forall|other: Seq<char>| #[trigger] files.contains_key(other) implies other == c by {
            assert(d.contains(other));
            if other != c {
                assert(d.remove(c).contains(other));
                assert(d.remove(c).len() == 0);
            }
        }
    }
    if message_of(files) is Some {
        assert(files.contains_key(d.choose()));
    }
    assert forall|text: Seq<char>| message_of(files) is None implies !#[trigger] is_message(
        files,
        text,
    ) by {
        if is_message(files, text) {
            let k = choose|k: Seq<char>|
                {
                    &&& #[trigger] files.contains_key(k)
                    &&& forall|other: Seq<char>| #[trigger] files.contains_key(other) ==> other == k
                    &&& files[k].preview is Some
                    &&& files[k].preview->0@ == text
                    &&& text.len() > 0
                    &&& files[k].size < 1024 * 1024
                };
            assert(d =~= Set::<Seq<char>>::empty().insert(k));
            assert(d.len() == 1);
            assert(d.contains(d.choose()));
        }
    }
}

/// The text of an offer is told exactly where the offer is a message.
pub proof fn law_messages_are_recognised(files: IdMap<FileMetadata>, res: Option<String>)
    requires
        files@.dom().finite(),
        call_ensures(message_text, (&files,), res),
    ensures
        res matches Some(text) ==> is_message(files@, text@),
        res is None ==> forall|text: Seq<char>| !#[trigger] is_message(files@, text),
{
    lemma_message(files@);
}

/// The owner's answer decides which files get a token: exactly those that were
/// offered and that the answer accepts, each under its own description. Where
/// that is none the sender is told 403 and the slot is free. An accepted message
/// is handed on, told 204, and leaves the slot free. Everything else is answered
/// with the session that runs from then on, and with the tokens that it goes by.
pub proof fn law_answers_open_what_they_accept(
    state: &mut ServerState,
    request: PrepareUploadRequest,
    answer: Option<TransferDecision>,
    now: u64,
    reply: PrepareUploadReply,
    events: Vec<ServerEvent>,
)
    requires
        request.files@.dom().finite(),
        call_ensures(
            ServerState::finish_prepare_upload,
            (state, &request, answer, now),
            (reply, events),
        ),
    ensures
        ({
            let some = exists|k: Seq<char>|
                #[trigger] request.files@.contains_key(k) && said_yes(answer, k);
            &&& !some ==> reply == PrepareUploadReply::Status(Status::Forbidden) && events@.len()
                == 0 && final(state).current_session is None
            &&& forall|text: Seq<char>| #[trigger]
                is_message(request.files@, text) && some ==> {
                    &&& reply == PrepareUploadReply::Status(Status::NoContent)
                    &&& events@.len() == 2
                    &&& events@[0] is TextReceived
                    &&& events@[0]->TextReceived_text@ == text
                    &&& events@[0]->TextReceived_sender_alias == request.info.alias
                    &&& drawn(events@[0]->TextReceived_session_id.text)
                    &&& events@[1] is SessionDone
                    &&& events@[1]->SessionDone_session_id == events@[0]->TextReceived_session_id
                    &&& final(state).current_session is None
                }
            &&& some && (forall|text: Seq<char>| !#[trigger] is_message(request.files@, text)) ==> {
                &&& reply matches PrepareUploadReply::Session(response)
                &&& final(state).current_session matches Some(session)
                &&& events@.len() == 0
                &&& session.id == response.session_id
                &&& drawn(session.id.text)
                &&& forall|k: Seq<char>| #[trigger]
                    session.tokens@.contains_key(k) ==> drawn(session.tokens@[k].text)
                &&& session.sender_alias == request.info.alias
                &&& session.received@.dom() == Set::<Seq<char>>::empty()
                &&& session.last_activity == now
                &&& forall|k: Seq<char>|
                    #![trigger response.files@.contains_key(k)]
                    #![trigger session.files@.contains_key(k)]
                    {
                        let accepted = request.files@.contains_key(k) && said_yes(answer, k);
                        &&& response.files@.contains_key(k) == accepted
                        &&& session.tokens@.contains_key(k) == accepted
                        &&& session.files@.contains_key(k) == accepted
                        &&& accepted ==> session.tokens@[k] == response.files@[k]
                            && session.files@[k] == request.files@[k]
                    }
            }
        }),
        final(state).device == old(state).device,
        final(state).save_dir == old(state).save_dir,
        final(state).auto_accept == old(state).auto_accept,
        final(state).accept_timeout == old(state).accept_timeout,
        final(state).pin_gate == old(state).pin_gate,
        final(state).web_share == old(state).web_share,
{
    let ids = chosen(settled(answer), request.files@);
    lemma_message(request.files@);
    assert forall|k: Seq<char>| #[trigger] ids.contains(k) == (request.files@.contains_key(k)
        && said_yes(answer, k)) by {
        lemma_chosen(answer, request.files@, k);
    }
    if exists|k: Seq<char>| #[trigger] request.files@.contains_key(k) && said_yes(answer, k) {
        let k = choose|k: Seq<char>|
            #[trigger] request.files@.contains_key(k) && said_yes(answer, k);
        assert(ids.contains(k));
        assert(ids != Set::<Seq<char>>::empty());
    } else {
        assert(ids =~= Set::<Seq<char>>::empty());
    }
    assert forall|text: Seq<char>| #[trigger] is_message(request.files@, text) implies message_of(
        request.files@,
    ) == Some(text) by {
        if message_of(request.files@) is Some {
            let other = message_of(request.files@)->0;
            assert(is_message(request.files@, other));
        }
    }
    if final(state).current_session is Some && reply is Session {
        let session = final(state).current_session->0;
        let response = reply->Session_0;
        assert(session.received@.dom() =~= Set::<Seq<char>>::empty());
        let kept = request.files@.restrict(ids);
        assert forall|k: Seq<char>| #[trigger] ids.contains(k) == kept.contains_key(k) by {}
        assert forall|k: Seq<char>|
            #![trigger response.files@.contains_key(k)]
            #![trigger session.files@.contains_key(k)]
            {
                let accepted = request.files@.contains_key(k) && said_yes(answer, k);
                &&& response.files@.contains_key(k) == accepted
                &&& session.tokens@.contains_key(k) == accepted
                &&& session.files@.contains_key(k) == accepted
                &&& accepted ==> session.tokens@[k] == response.files@[k] && session.files@[k]
                    == request.files@[k]
            } by {
            assert(ids.contains(k) == kept.contains_key(k));
            assert(session.tokens@.dom().contains(k) == session.files@.dom().contains(k));
        }
    }
}

/// Who may write: an upload is admitted exactly where it names the running
/// session and brings the token of a file of that session, whatever has arrived
/// before. It is then held to what was offered of that file. Any other session
/// or token is answered 403.
pub proof fn law_the_token_admits(
    state: ServerState,
    params: UploadParams,
    res: Result<UploadTicket, Status>,
)
    requires
        call_ensures(ServerState::admit_upload, (&state, &params), res),
    ensures
        ({
            let k = params.file_id.text@;
            let session = state.current_session->0;
            let ours = state.current_session is Some && session.id.text@ == params.session_id.text@;
            let right = session.tokens@.contains_key(k) && session.tokens@[k].text@
                == params.token.text@;
            &&& !ours || !right ==> res == Err::<UploadTicket, Status>(Status::Forbidden)
            &&& ours && right && !session.files@.contains_key(k) ==> res == Err::<
                UploadTicket,
                Status,
            >(Status::NotFound)
            &&& ours && right && session.files@.contains_key(k) ==> res == Ok::<
                UploadTicket,
                Status,
            >(
                UploadTicket {
                    file_name: session.files@[k].file_name,
                    session_id: session.id,
                    sender_alias: session.sender_alias,
                    declared_size: session.files@[k].size,
                    declared_sha: session.files@[k].sha256,
                },
            )
        }),
{
}

/// A file that is on disk and whole is announced with where it lies, under the
/// last part of its path, or else under its offered name. It counts for the
/// session that it was admitted to, if that still runs, and for no other: that
/// session ends with it where nothing is missing any more, and otherwise runs on
/// with its files and tokens as they were.
pub proof fn law_arrivals_are_announced_and_counted(
    state: &mut ServerState,
    ticket: UploadTicket,
    file_id: FileId,
    path: PathBuf,
    size: u64,
    now: u64,
    events: Vec<ServerEvent>,
)
    requires
        call_ensures(
            ServerState::complete_upload,
            (state, ticket, &file_id, path, size, now),
            events,
        ),
    ensures
        exists|name: Option<String>| #[trigger]
            ends_in(path, name) && events@.len() > 0 && events@[0] == (ServerEvent::FileReceived {
                session_id: ticket.session_id,
                file_id,
                file_name: if name is Some {
                    name->0
                } else {
                    ticket.file_name
                },
                path,
                size,
                sender_alias: ticket.sender_alias,
                message_text: None,
            }),
        ({
            let before = old(state).current_session->0;
            let ours = old(state).current_session is Some && before.id.text@
                == ticket.session_id.text@;
            let last = forall|k: Seq<char>| #[trigger]
                before.files@.contains_key(k) ==> before.received@.contains_key(k) || k
                    == file_id.text@;
            &&& !ours ==> final(state).current_session == old(state).current_session
            &&& ours && last ==> final(state).current_session is None && events@.len() == 2
                && events@[1] == (ServerEvent::SessionDone { session_id: ticket.session_id })
            &&& !(ours && last) ==> events@.len() == 1
            &&& ours && !last ==> {
                &&& final(state).current_session matches Some(session)
                &&& session.id == before.id
                &&& session.sender_alias == before.sender_alias
                &&& session.files == before.files
                &&& session.tokens == before.tokens
                &&& session.last_activity == now
                &&& forall|k: Seq<char>| #[trigger]
                    session.received@.contains_key(k) == (before.received@.contains_key(k) || k
                        == file_id.text@)
            }
        }),
        final(state).device == old(state).device,
        final(state).save_dir == old(state).save_dir,
        final(state).auto_accept == old(state).auto_accept,
        final(state).accept_timeout == old(state).accept_timeout,
        final(state).pin_gate == old(state).pin_gate,
        final(state).web_share == old(state).web_share,
{
    let name = choose|name: Option<String>| #[trigger]
        ends_in(path, name) && old(state).stores(
            ticket,
            file_id,
            path,
            name,
            size,
            now,
            events@,
            *final(state),
        );
    assert(ends_in(path, name));
    let rest = events@.skip(1);
    assert(events@.len() == 1 + rest.len());
    if rest.len() == 1 {
        assert(rest[0] == events@[1]);
    }
    if old(state).current_session is Some {
        let before = old(state).current_session->0;
        let arrived = before.received@.insert(file_id.text@, true);
        if before.files@.dom().subset_of(arrived.dom()) {
            assert forall|k: Seq<char>| #[trigger]
                before.files@.contains_key(k) implies before.received@.contains_key(k) || k
                == file_id.text@ by {
                assert(before.files@.dom().contains(k));
                assert(arrived.dom().contains(k));
            }
        } else {
            let k = choose|k: Seq<char>| #[trigger]
                before.files@.dom().contains(k) && !arrived.dom().contains(k);
            assert(before.files@.contains_key(k) && !before.received@.contains_key(k) && k
                != file_id.text@);
        }
    }
}

/// True when the first `n` uploads bring the file `k`.
pub open spec fn brought(uploads: Seq<UploadParams>, n: int, k: Seq<char>) -> bool {
    exists|i: int| 0 <= i < n && (#[trigger] uploads[i]).file_id.text@ == k
}

/// A transfer goes through: after the answer with its tokens, every upload with
/// the session and the token of its file is admitted and held to what was
/// offered of that file, however many have arrived before and in whatever order.
/// While a file is missing each arrival announces only itself and the session
/// runs on; the arrival of the last one missing ends it. What else happens in
/// between does not matter while it leaves the session alone.
pub proof fn law_transfers_go_through(
    opening: &mut ServerState,
    request: PrepareUploadRequest,
    answer: Option<TransferDecision>,
    now: u64,
    response: PrepareUploadResponse,
    told: Vec<ServerEvent>,
    calls: Seq<&mut ServerState>,
    uploads: Seq<UploadParams>,
    admitted: Seq<Result<UploadTicket, Status>>,
    paths: Seq<PathBuf>,
    sizes: Seq<u64>,
    times: Seq<u64>,
    events: Seq<Vec<ServerEvent>>,
    i: int,
)
    requires
        request.files@.dom().finite(),
        call_ensures(
            ServerState::finish_prepare_upload,
            (opening, &request, answer, now),
            (PrepareUploadReply::Session(response), told),
        ),
        0 <= i < calls.len(),
        uploads.len() == calls.len(),
        forall|j: int|
            #![trigger uploads[j]]
            0 <= j < uploads.len() ==> {
                &&& uploads[j].session_id.text@ == response.session_id.text@
                &&& response.files@.contains_key(uploads[j].file_id.text@)
                &&& uploads[j].token.text@ == response.files@[uploads[j].file_id.text@].text@
            },
        forall|j: int|
            #![trigger calls[j]]
            0 <= j < calls.len() ==> call_ensures(
                ServerState::admit_upload,
                (&*calls[j], &uploads[j]),
                admitted[j],
            ) && (admitted[j] is Ok ==> call_ensures(
                ServerState::complete_upload,
                (
                    calls[j],
                    admitted[j]->Ok_0,
                    &uploads[j].file_id,
                    paths[j],
                    sizes[j],
                    times[j],
                ),
                events[j],
            )),
        calls[0].current_session == final(opening).current_session,
        forall|j: int, k: int|
            #![trigger calls[j], calls[k]]
            0 <= j && k == j + 1 && k < calls.len() ==> calls[k].current_session
                == final(calls[j]).current_session,
        exists|k: Seq<char>| #[trigger] response.files@.contains_key(k) && !brought(uploads, i, k),
    ensures
        ({
            let k = uploads[i].file_id.text@;
            &&& admitted[i] matches Ok(ticket)
            &&& request.files@.contains_key(k)
            &&& ticket.session_id == response.session_id
            &&& ticket.sender_alias == request.info.alias
            &&& ticket.file_name == request.files@[k].file_name
            &&& ticket.declared_size == request.files@[k].size
            &&& ticket.declared_sha == request.files@[k].sha256
        }),
        ({
            let last = forall|k: Seq<char>| #[trigger]
                response.files@.contains_key(k) ==> brought(uploads, i + 1, k);
            &&& last ==> final(calls[i]).current_session is None && events[i]@.len() == 2
                && events[i]@[1] == (ServerEvent::SessionDone { session_id: response.session_id })
            &&& !last ==> final(calls[i]).current_session is Some && events[i]@.len() == 1
        }),
{
    lemma_still_running(
        opening,
        request,
        answer,
        now,
        response,
        told,
        calls,
        uploads,
        admitted,
        paths,
        sizes,
        times,
        events,
        i,
    );
    let upload = uploads[i];
    let k = upload.file_id.text@;
    let session = calls[i].current_session->0;
    assert(response.files@.contains_key(k));
    law_the_token_admits(*calls[i], upload, admitted[i]);
    law_arrivals_are_announced_and_counted(
        calls[i],
        admitted[i]->Ok_0,
        upload.file_id,
        paths[i],
        sizes[i],
        times[i],
        events[i],
    );
    lemma_brought(uploads, i);
    let every = forall|q: Seq<char>| #[trigger]
        response.files@.contains_key(q) ==> brought(uploads, i + 1, q);
    if every {
        assert forall|q: Seq<char>| #[trigger] session.files@.contains_key(q) implies session.received@.contains_key(
            q,
        ) || q == k by {
            assert(response.files@.contains_key(q));
            assert(brought(uploads, i + 1, q));
        }
    } else {
        let q = choose|q: Seq<char>| #[trigger]
            response.files@.contains_key(q) && !brought(uploads, i + 1, q);
        assert(session.files@.contains_key(q));
        assert(!session.received@.contains_key(q) && q != k);
    }
}

proof fn lemma_brought(uploads: Seq<UploadParams>, i: int)
    requires
        0 <= i < uploads.len(),
    ensures
        forall|q: Seq<char>| #[trigger]
            brought(uploads, i + 1, q) == (brought(uploads, i, q) || q
                == uploads[i].file_id.text@),
{
    assert forall|q: Seq<char>| #[trigger] brought(uploads, i + 1, q) == (brought(uploads, i, q) || q
        == uploads[i].file_id.text@) by {
        if brought(uploads, i, q) {
            let j = choose|j: int| 0 <= j < i && (#[trigger] uploads[j]).file_id.text@ == q;
            assert(uploads[j].file_id.text@ == q);
        }
        if q == uploads[i].file_id.text@ {
            assert(uploads[i].file_id.text@ == q);
        }
    }
}

proof fn lemma_still_running(
    opening: &mut ServerState,
    request: PrepareUploadRequest,
    answer: Option<TransferDecision>,
    now: u64,
    response: PrepareUploadResponse,
    told: Vec<ServerEvent>,
    calls: Seq<&mut ServerState>,
    uploads: Seq<UploadParams>,
    admitted: Seq<Result<UploadTicket, Status>>,
    paths: Seq<PathBuf>,
    sizes: Seq<u64>,
    times: Seq<u64>,
    events: Seq<Vec<ServerEvent>>,
    i: int,
)
    requires
        request.files@.dom().finite(),
        call_ensures(
            ServerState::finish_prepare_upload,
            (opening, &request, answer, now),
            (PrepareUploadReply::Session(response), told),
        ),
        0 <= i < calls.len(),
        uploads.len() == calls.len(),
        forall|j: int|
            #![trigger uploads[j]]
            0 <= j < uploads.len() ==> {
                &&& uploads[j].session_id.text@ == response.session_id.text@
                &&& response.files@.contains_key(uploads[j].file_id.text@)
                &&& uploads[j].token.text@ == response.files@[uploads[j].file_id.text@].text@
            },
        forall|j: int|
            #![trigger calls[j]]
            0 <= j < calls.len() ==> call_ensures(
                ServerState::admit_upload,
                (&*calls[j], &uploads[j]),
                admitted[j],
            ) && (admitted[j] is Ok ==> call_ensures(
                ServerState::complete_upload,
                (
                    calls[j],
                    admitted[j]->Ok_0,
                    &uploads[j].file_id,
                    paths[j],
                    sizes[j],
                    times[j],
                ),
                events[j],
            )),
        calls[0].current_session == final(opening).current_session,
        forall|j: int, k: int|
            #![trigger calls[j], calls[k]]
            0 <= j && k == j + 1 && k < calls.len() ==> calls[k].current_session
                == final(calls[j]).current_session,
        exists|k: Seq<char>| #[trigger] response.files@.contains_key(k) && !brought(uploads, i, k),
    ensures
        ({
            &&& calls[i].current_session matches Some(session)
            &&& session.id == response.session_id
            &&& session.sender_alias == request.info.alias
            &&& forall|k: Seq<char>|
                #![trigger response.files@.contains_key(k)]
                #![trigger session.files@.contains_key(k)]
                {
                    &&& response.files@.contains_key(k) == session.files@.contains_key(k)
                    &&& response.files@.contains_key(k) == session.tokens@.contains_key(k)
                    &&& response.files@.contains_key(k) ==> request.files@.contains_key(k)
                        && session.files@[k] == request.files@[k] && session.tokens@[k]
                        == response.files@[k]
                }
            &&& forall|k: Seq<char>| #[trigger]
                session.received@.contains_key(k) == brought(uploads, i, k)
        }),
    decreases i,
{
    if i == 0 {
        law_answers_open_what_they_accept(
            opening,
            request,
            answer,
            now,
            PrepareUploadReply::Session(response),
            told,
        );
        let session = calls[0].current_session->0;
        assert forall|k: Seq<char>| #[trigger] session.received@.contains_key(k) == brought(
            uploads,
            0,
            k,
        ) by {
            assert(!session.received@.dom().contains(k));
        }
    } else {
        lemma_brought(uploads, i - 1);
        let q = choose|q: Seq<char>| #[trigger]
            response.files@.contains_key(q) && !brought(uploads, i, q);
        assert(!brought(uploads, i - 1, q));
        lemma_still_running(
            opening,
            request,
            answer,
            now,
            response,
            told,
            calls,
            uploads,
            admitted,
            paths,
            sizes,
            times,
            events,
            i - 1,
        );
        let before = calls[i - 1].current_session->0;
        let upload = uploads[i - 1];
        assert(response.files@.contains_key(upload.file_id.text@));
        law_the_token_admits(*calls[i - 1], upload, admitted[i - 1]);
        law_arrivals_are_announced_and_counted(
            calls[i - 1],
            admitted[i - 1]->Ok_0,
            upload.file_id,
            paths[i - 1],
            sizes[i - 1],
            times[i - 1],
            events[i - 1],
        );
        assert(before.files@.contains_key(q));
        assert(!before.received@.contains_key(q) && q != upload.file_id.text@);
        let session = calls[i].current_session->0;
        assert(calls[i].current_session == final(calls[i - 1]).current_session);
        assert(session.files == before.files);
        assert(session.tokens == before.tokens);
        assert forall|k: Seq<char>|
            #![trigger response.files@.contains_key(k)]
            #![trigger session.files@.contains_key(k)]
            {
                &&& response.files@.contains_key(k) == session.files@.contains_key(k)
                &&& response.files@.contains_key(k) == session.tokens@.contains_key(k)
                &&& response.files@.contains_key(k) ==> request.files@.contains_key(k)
                    && session.files@[k] == request.files@[k] && session.tokens@[k]
                    == response.files@[k]
            } by {
            assert(response.files@.contains_key(k) == before.files@.contains_key(k));
        }
    }
}

/// A cancellation ends the session that it names, if that runs, and says so;
/// any other changes nothing and says nothing.
pub proof fn law_cancellations_end_what_they_name(
    state: &mut ServerState,
    session_id: SessionId,
    events: Vec<ServerEvent>,
)
    requires
        call_ensures(ServerState::cancel, (state, &session_id), events),
    ensures
        ({
            let named = old(state).current_session is Some
                && old(state).current_session->0.id.text@ == session_id.text@;
            &&& named ==> *final(state) == (ServerState { current_session: None, ..*old(state) })
                && events@.len() == 1 && events@[0] == (ServerEvent::SessionDone { session_id })
            &&& !named ==> *final(state) == *old(state) && events@.len() == 0
        }),
{
}

/// A sweep takes a session that gave no sign of life for more than 300 seconds,
/// says so, and leaves everything else alone.
pub proof fn law_sweeps_take_the_silent(state: &mut ServerState, now: u64, freed: bool)
    requires
        call_ensures(ServerState::sweep, (state, now), freed),
    ensures
        freed <==> old(state).current_session is Some && now
            > old(state).current_session->0.last_activity + 300,
        freed ==> *final(state) == (ServerState { current_session: None, ..*old(state) }),
        !freed ==> *final(state) == *old(state),
{
}

/// True when the texts are the same up to the case of letters from `a` to `z`.
pub open spec fn same_hash(a: Seq<char>, b: Seq<char>) -> bool {
    a.len() == b.len() && forall|i: int|
        0 <= i < a.len() ==> (#[trigger] a[i] == b[i] || two_cases(a[i], b[i]) || two_cases(
            b[i],
            a[i],
        ))
}

/// What is written is kept exactly where it has the declared size and, where a
/// hash was declared, that hash, in capital or small letters. It is hashed
/// first where a hash was declared. Everything else that was written is removed
/// and answered 500, also where the hash cannot be computed.
pub proof fn law_what_is_kept_is_what_was_declared(
    ticket: UploadTicket,
    size: u64,
    hash: Option<String>,
    written: StoreAction,
    hashed: StoreAction,
)
    requires
        call_ensures(UploadTicket::next_action, (&ticket, &StoreOutcome::Written(size)), written),
        call_ensures(UploadTicket::next_action, (&ticket, &StoreOutcome::Hashed(hash)), hashed),
    ensures
        size != ticket.declared_size ==> written == StoreAction::Discard(
            Status::InternalServerError,
        ),
        size == ticket.declared_size && ticket.declared_sha is Some ==> written
            == StoreAction::Hash,
        size == ticket.declared_size && ticket.declared_sha is None ==> written
            == StoreAction::Store,
        ticket.declared_sha is Some && hash is Some && same_hash(
            hash->0@,
            ticket.declared_sha->0@,
        ) ==> hashed == StoreAction::Store,
        ticket.declared_sha is Some && (hash is None || !same_hash(
            hash->0@,
            ticket.declared_sha->0@,
        )) ==> hashed == StoreAction::Discard(Status::InternalServerError),
{
    if hash is Some && ticket.declared_sha is Some {
        let a = hash->0@;
        let b = ticket.declared_sha->0@;
        assert(crate::text::equal_ignoring_case(a, b) == same_hash(a, b)) by {
            assert forall|c: char, d: char|
                (#[trigger] crate::text::ascii_lower(c) == #[trigger] crate::text::ascii_lower(d))
                    == (c == d || two_cases(c, d) || two_cases(d, c)) by {}
        }
    }
}

/// The two checks that make up the decision agree with it.
pub proof fn law_checks_hold_bodies_to_the_offer(
    ticket: UploadTicket,
    size: u64,
    sized: Result<bool, Status>,
    hash: Option<&str>,
    hashed: Result<(), Status>,
)
    requires
        call_ensures(UploadTicket::check_size, (&ticket, size), sized),
        call_ensures(UploadTicket::check_hash, (&ticket, hash), hashed),
    ensures
        sized is Ok <==> size == ticket.declared_size,
        sized is Ok ==> sized->Ok_0 == (ticket.declared_sha is Some),
        sized is Err ==> sized->Err_0 == Status::InternalServerError,
        hashed is Ok <==> (ticket.declared_sha is Some ==> hash is Some && same_hash(
            hash->0@,
            ticket.declared_sha->0@,
        )),
        hashed is Err ==> hashed->Err_0 == Status::InternalServerError,
{
    if hash is Some && ticket.declared_sha is Some {
        let a = hash->0@;
        let b = ticket.declared_sha->0@;
        assert(crate::text::equal_ignoring_case(a, b) == same_hash(a, b)) by {
            assert forall|c: char, d: char|
                (#[trigger] crate::text::ascii_lower(c) == #[trigger] crate::text::ascii_lower(d))
                    == (c == d || two_cases(c, d) || two_cases(d, c)) by {}
        }
    }
}

/// A failure before anything is on disk removes nothing: a name that cannot be
/// used is the sender's fault and answered 400, the rest is answered 500.
pub proof fn law_failures_to_store_are_answered(
    ticket: UploadTicket,
    failure: StoreFailure,
    action: StoreAction,
    status: Status,
)
    requires
        call_ensures(UploadTicket::next_action, (&ticket, &StoreOutcome::Failed(failure)), action),
        call_ensures(store_failure_status, (failure,), status),
    ensures
        action == StoreAction::Fail(status),
        failure == StoreFailure::Name ==> status == Status::BadRequest,
        failure != StoreFailure::Name ==> status == Status::InternalServerError,
{
}

/// A server tells of itself what it is.
pub proof fn law_info_is_the_device(state: ServerState, res: DeviceInfo)
    requires
        call_ensures(ServerState::info, (&state,), res),
    ensures
        res == state.device,
{
}

/// The operations of a session by themselves: a token verifies where it is the
/// one of its file; the session is idle where its last sign of life is more than
/// the limit ago; and an arrival is the last where every file has arrived.
pub proof fn law_sessions_count_their_files(
    session: &mut Session,
    file_id: FileId,
    token: Token,
    now: u64,
    ttl: u64,
    verified: bool,
    idle: bool,
    last: bool,
)
    requires
        call_ensures(Session::verify_token, (&*old(session), &file_id, &token), verified),
        call_ensures(Session::is_timed_out, (&*old(session), ttl, now), idle),
        call_ensures(Session::mark_received, (session, &file_id, now), last),
    ensures
        verified <==> old(session).tokens@.contains_key(file_id.text@)
            && old(session).tokens@[file_id.text@].text@ == token.text@,
        idle <==> now > old(session).last_activity + ttl,
        last <==> forall|k: Seq<char>| #[trigger]
            old(session).files@.contains_key(k) ==> old(session).received@.contains_key(k) || k
                == file_id.text@,
        final(session).received@.contains_key(file_id.text@),
        final(session).last_activity == now,
        final(session).files == old(session).files,
        final(session).tokens == old(session).tokens,
        final(session).id == old(session).id,
        final(session).sender_alias == old(session).sender_alias,
{
}

/// A session over some files starts with nothing received, and gives each file
/// the token that was drawn for its place.
pub proof fn law_sessions_start_with_a_token_for_each_file(
    id: SessionId,
    alias: String,
    files: IdMap<FileMetadata>,
    draws: Vec<Token>,
    now: u64,
    session: Session,
    tokens: IdMap<Token>,
    random: Session,
)
    requires
        draws@.len() == files.keys().len(),
        call_ensures(Session::with_draws, (id, alias, files, draws, now), session),
        call_ensures(assign_tokens, (&files, draws), tokens),
        call_ensures(Session::new, (alias, files, now), random),
    ensures
        session.id == id && session.sender_alias == alias && session.files == files,
        session.last_activity == now && random.last_activity == now,
        forall|k: Seq<char>| !#[trigger] session.received@.contains_key(k),
        forall|k: Seq<char>| !#[trigger] random.received@.contains_key(k),
        forall|k: Seq<char>| #[trigger]
            session.tokens@.contains_key(k) == files@.contains_key(k),
        forall|k: Seq<char>| #[trigger] tokens@.contains_key(k) == files@.contains_key(k),
        forall|k: Seq<char>| #[trigger] random.tokens@.contains_key(k) == files@.contains_key(k),
        forall|i: int|
            #![trigger files.keys()[i]]
            0 <= i < files.keys().len() ==> session.tokens@[files.keys()[i]] == draws@[i]
                && tokens@[files.keys()[i]] == draws@[i],
        random.sender_alias == alias && random.files == files,
        drawn(random.id.text),
        forall|k: Seq<char>| #[trigger]
            random.tokens@.contains_key(k) ==> drawn(random.tokens@[k].text),
{
    assert forall|k: Seq<char>| #[trigger] session.tokens@.contains_key(k) == files@.contains_key(
        k,
    ) by {
        assert(session.tokens@.dom().contains(k) == files@.dom().contains(k));
    }
    assert forall|k: Seq<char>| #[trigger] tokens@.contains_key(k) == files@.contains_key(k) by {
        assert(tokens@.dom().contains(k) == files@.dom().contains(k));
    }
    assert forall|k: Seq<char>| #[trigger] random.tokens@.contains_key(k) == files@.contains_key(
        k,
    ) by {
        assert(random.tokens@.dom().contains(k) == files@.dom().contains(k));
    }
}

/// A request shows who asks and what is offered, and whatever it is answered
/// arrives at the end that came with it: everything, some files, or nothing, as
/// the answer was given.
pub proof fn law_answers_arrive_as_they_were_given(
    sender: DeviceInfo,
    files: IdMap<FileMetadata>,
    pending: PendingRequest,
    receiver: oneshot::Receiver<TransferDecision>,
    asking: &DeviceInfo,
    shown: &IdMap<FileMetadata>,
    ids: Vec<FileId>,
    decision: TransferDecision,
    reply: DecisionReply,
    sent: Result<(), TransferDecision>,
)
    requires
        call_ensures(PendingRequest::new, (sender, files), (pending, receiver)),
        call_ensures(PendingRequest::sender, (&pending,), asking),
        call_ensures(PendingRequest::files, (&pending,), shown),
        call_ensures(PendingRequest::answer, (pending, decision), reply),
        call_ensures(DecisionReply::deliver, (reply,), sent),
    ensures
        *asking == sender,
        *shown == files,
        arrives(receiver, decision, sent),
        call_ensures(PendingRequest::accept, (pending,), ()) ==> exists|
            out: Result<(), TransferDecision>,
        | #[trigger]
            arrives(receiver, TransferDecision::Accept, out),
        call_ensures(PendingRequest::accept_files, (pending, ids), ()) ==> exists|
            out: Result<(), TransferDecision>,
        | #[trigger]
            arrives(receiver, TransferDecision::AcceptFiles(ids), out),
        call_ensures(PendingRequest::decline, (pending,), ()) ==> exists|
            out: Result<(), TransferDecision>,
        | #[trigger]
            arrives(receiver, TransferDecision::Decline, out),
{
    let channel = pending.channel();
    assert(joined(channel, receiver) && handed(channel, decision, sent));
    if call_ensures(PendingRequest::accept, (pending,), ()) {
        let out = choose|out: Result<(), TransferDecision>| #[trigger]
            handed(channel, TransferDecision::Accept, out);
        assert(arrives(receiver, TransferDecision::Accept, out));
    }
    if call_ensures(PendingRequest::accept_files, (pending, ids), ()) {
        let out = choose|out: Result<(), TransferDecision>| #[trigger]
            handed(channel, TransferDecision::AcceptFiles(ids), out);
        assert(arrives(receiver, TransferDecision::AcceptFiles(ids), out));
    }
    if call_ensures(PendingRequest::decline, (pending,), ()) {
        let out = choose|out: Result<(), TransferDecision>| #[trigger]
            handed(channel, TransferDecision::Decline, out);
        assert(arrives(receiver, TransferDecision::Decline, out));
    }
}

/// A file whose stored name is known is announced under it, and counts like any
/// other.
pub proof fn law_stored_names_are_announced(
    state: &mut ServerState,
    ticket: UploadTicket,
    file_id: FileId,
    path: PathBuf,
    name: Option<String>,
    size: u64,
    now: u64,
    events: Vec<ServerEvent>,
)
    requires
        call_ensures(
            ServerState::complete_upload_as,
            (state, ticket, &file_id, path, name, size, now),
            events,
        ),
    ensures
        events@.len() == 1 || events@.len() == 2,
        events@[0] == (ServerEvent::FileReceived {
            session_id: ticket.session_id,
            file_id,
            file_name: if name is Some {
                name->0
            } else {
                ticket.file_name
            },
            path,
            size,
            sender_alias: ticket.sender_alias,
            message_text: None,
        }),
        events@.len() == 2 ==> events@[1] == (ServerEvent::SessionDone {
            session_id: ticket.session_id,
        }),
        events@.len() == 2 <==> {
            &&& old(state).current_session is Some
            &&& old(state).current_session->0.id.text@ == ticket.session_id.text@
            &&& final(state).current_session is None
        },
{
    let rest = events@.skip(1);
    assert(events@.len() == 1 + rest.len());
    if rest.len() == 1 {
        assert(rest[0] == events@[1]);
    }
}

} // verus!
