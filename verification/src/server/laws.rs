//! What holds of the upload interface as a whole.

use crate::outside::{arrives, handed, joined};
use crate::protocol::{FileMetadata, PeerIp, PrepareUploadRequest, SessionId, Status};
use crate::server::events::{chosen, settled, PendingRequest, ServerEvent, TransferDecision};
use crate::server::handlers::{
    message_of, PrepareUploadReply, PrepareUploadStep, StoreAction, StoreFailure, StoreOutcome,
    UploadTicket, SESSION_TTL, SWEEP_PERIOD,
};
use crate::server::pin::PinVerdict;
use crate::server::state::ServerState;
use crate::session::Session;
use crate::text::opt_text;
use tokio::sync::oneshot;
use vstd::prelude::*;

verus! {

/// The PIN comes before everything else: a request without the right PIN, and
/// every request of an address that is locked out, is answered 401 or 429,
/// whatever it offers and whatever session runs, and no session is reserved,
/// ended or asked about.
pub proof fn law_pin_comes_first(
    before: ServerState,
    pin: Option<Seq<char>>,
    peer: PeerIp,
    request: PrepareUploadRequest,
    now: u64,
    step: PrepareUploadStep,
    after: ServerState,
)
    requires
        before.begins(pin, peer, request, now, step, after),
        before.pin_gate.verdict(pin, peer) != PinVerdict::Granted,
    ensures
        step == PrepareUploadStep::Reply(
            if before.pin_gate.verdict(pin, peer) == PinVerdict::LockedOut {
                Status::TooManyRequests
            } else {
                Status::Unauthorized
            },
        ),
        after.current_session == before.current_session,
{
}

/// An offer without files but with the right PIN is answered 204 and reserves
/// nothing.
pub proof fn law_empty_offer_reserves_nothing(
    before: ServerState,
    pin: Option<Seq<char>>,
    peer: PeerIp,
    request: PrepareUploadRequest,
    now: u64,
    step: PrepareUploadStep,
    after: ServerState,
)
    requires
        before.begins(pin, peer, request, now, step, after),
        before.pin_gate.verdict(pin, peer) == PinVerdict::Granted,
        request.files@ == Map::<Seq<char>, FileMetadata>::empty(),
    ensures
        step == PrepareUploadStep::Reply(Status::NoContent),
        after.current_session == before.current_session,
{
}

/// There is one session at a time: while it runs and is not silent for too
/// long, an offer with the right PIN is answered 409 and leaves it alone; a
/// session that was silent for too long gives way.
pub proof fn law_one_session_at_a_time(
    before: ServerState,
    pin: Option<Seq<char>>,
    peer: PeerIp,
    request: PrepareUploadRequest,
    now: u64,
    step: PrepareUploadStep,
    after: ServerState,
)
    requires
        before.begins(pin, peer, request, now, step, after),
        before.pin_gate.verdict(pin, peer) == PinVerdict::Granted,
        request.files@ != Map::<Seq<char>, FileMetadata>::empty(),
    ensures
        before.busy(now) ==> step == PrepareUploadStep::Reply(Status::Conflict)
            && after.current_session == before.current_session,
        !before.busy(now) ==> !(step is Reply) && after.current_session is Some
            && after.current_session->0.files@ == request.files@ && after.busy(now),
{
}

/// The tokens of the answer open the uploads that they were issued for: for
/// every file of the answer, and for the accepted files only, an upload with
/// the answer's session and token is admitted and held to what was offered.
pub proof fn law_issued_tokens_admit(
    before: ServerState,
    request: PrepareUploadRequest,
    decision: TransferDecision,
    now: u64,
    reply: PrepareUploadReply,
    events: Seq<ServerEvent>,
    after: ServerState,
    file_id: Seq<char>,
    res: Result<UploadTicket, Status>,
)
    requires
        before.finishes(request, decision, now, reply, events, after),
        reply is Session,
        reply->Session_0.files@.contains_key(file_id),
        after.admits(
            reply->Session_0.session_id@,
            file_id,
            reply->Session_0.files@[file_id]@,
            res,
        ),
    ensures
        request.files@.contains_key(file_id),
        chosen(decision, request.files@).contains(file_id),
        res matches Ok(ticket) && ticket.file_name == request.files@[file_id].file_name
            && ticket.declared_size == request.files@[file_id].size && ticket.declared_sha
            == request.files@[file_id].sha256 && ticket.session_id == reply->Session_0.session_id
            && ticket.sender_alias == request.info.alias,
{
    let session = after.current_session->0;
    assert(session.tokens@.dom().contains(file_id));
    assert(session.files@.dom().contains(file_id));
}

/// A decision reaches the request that waits for it: whoever is asked holds the
/// sending end of the very channel on which the request waits, and what is
/// handed to it arrives there unchanged.
pub proof fn law_decisions_reach_the_waiting_request(
    before: ServerState,
    pin: Option<Seq<char>>,
    peer: PeerIp,
    request: PrepareUploadRequest,
    now: u64,
    pending: PendingRequest,
    receiver: oneshot::Receiver<TransferDecision>,
    after: ServerState,
    decision: TransferDecision,
    sent: Result<(), TransferDecision>,
)
    requires
        before.begins(pin, peer, request, now, PrepareUploadStep::Ask(pending, receiver), after),
        handed(pending.channel(), decision, sent),
    ensures
        joined(pending.channel(), receiver),
        arrives(receiver, decision, sent),
{
}

/// What is kept is what was declared: a body is kept exactly where its size and,
/// if one was declared, its hash fit. Whatever does not fit is removed, and a
/// failure before anything was written removes nothing.
pub proof fn law_only_declared_bodies_are_kept(
    ticket: UploadTicket,
    size: u64,
    hash: Option<String>,
    failure: StoreFailure,
)
    ensures
        ({
            let written = ticket.next(StoreOutcome::Written(size));
            let last = if written == StoreAction::Hash {
                ticket.next(StoreOutcome::Hashed(hash))
            } else {
                written
            };
            if ticket.fits(size, opt_text(hash)) {
                last == StoreAction::Store
            } else {
                last == StoreAction::Discard(Status::InternalServerError)
            }
        }),
        ticket.next(StoreOutcome::Failed(failure)) is Fail,
{
}

/// Every accepted file gets a token, and a file that was not accepted gets
/// none.
pub proof fn law_tokens_for_accepted_files_only(
    before: ServerState,
    request: PrepareUploadRequest,
    decision: TransferDecision,
    now: u64,
    reply: PrepareUploadReply,
    events: Seq<ServerEvent>,
    after: ServerState,
    file_id: Seq<char>,
)
    requires
        before.finishes(request, decision, now, reply, events, after),
        reply is Session,
    ensures
        reply->Session_0.files@.contains_key(file_id) == chosen(
            decision,
            request.files@,
        ).contains(file_id),
{
    let session = after.current_session->0;
    assert(session.tokens@.dom().contains(file_id) == session.files@.dom().contains(file_id));
    match decision {
        TransferDecision::AcceptFiles(ids) => {},
        TransferDecision::Accept => {},
        TransferDecision::Decline => {},
    }
}

/// Without the running session and the token that was issued for the file,
/// every upload is answered 403.
pub proof fn law_wrong_token_is_forbidden(
    state: ServerState,
    session_id: Seq<char>,
    file_id: Seq<char>,
    token: Seq<char>,
    res: Result<UploadTicket, Status>,
)
    requires
        state.admits(session_id, file_id, token, res),
        !state.runs(session_id) || !state.current_session->0.token_matches(file_id, token),
    ensures
        res == Err::<UploadTicket, Status>(Status::Forbidden),
{
}

/// A refusal, a dropped request, one that timed out, and an acceptance of
/// nothing that was offered are all answered 403, tell nobody anything, and
/// free the slot.
pub proof fn law_refusals_free_the_slot(
    before: ServerState,
    request: PrepareUploadRequest,
    answer: Option<TransferDecision>,
    now: u64,
    reply: PrepareUploadReply,
    events: Seq<ServerEvent>,
    after: ServerState,
    later: u64,
)
    requires
        before.finishes(request, settled(answer), now, reply, events, after),
        match answer {
            None => true,
            Some(TransferDecision::Decline) => true,
            Some(TransferDecision::AcceptFiles(ids)) => forall|i: int|
                0 <= i < ids@.len() ==> !request.files@.contains_key((#[trigger] ids@[i])@),
            Some(TransferDecision::Accept) => false,
        },
    ensures
        reply == PrepareUploadReply::Status(Status::Forbidden),
        events == Seq::<ServerEvent>::empty(),
        !after.busy(later),
{
    let ids = chosen(settled(answer), request.files@);
    assert(ids =~= Set::<Seq<char>>::empty());
    assert(events =~= Seq::<ServerEvent>::empty());
}

/// A message that is accepted is handed on as text and ends its session; no
/// file is announced, and the slot is free.
pub proof fn law_message_is_text(
    before: ServerState,
    request: PrepareUploadRequest,
    now: u64,
    reply: PrepareUploadReply,
    events: Seq<ServerEvent>,
    after: ServerState,
    later: u64,
)
    requires
        before.finishes(request, TransferDecision::Accept, now, reply, events, after),
        message_of(request.files@) is Some,
    ensures
        reply == PrepareUploadReply::Status(Status::NoContent),
        events.len() == 2,
        events[0] matches ServerEvent::TextReceived { session_id, text, sender_alias } && text@
            == message_of(request.files@)->0 && sender_alias == request.info.alias && events[1] == (
        ServerEvent::SessionDone { session_id }),
        !after.busy(later),
{
    if request.files@.dom() =~= Set::<Seq<char>>::empty() {
        assert(request.files@.dom().len() == 0);
    }
}

/// An upload that ends after its session was cancelled, swept or replaced
/// changes no session and ends none.
pub proof fn law_stale_upload_changes_nothing(
    before: ServerState,
    session_id: SessionId,
    file_id: Seq<char>,
    now: u64,
    events: Seq<ServerEvent>,
    after: ServerState,
)
    requires
        before.completes(session_id, file_id, now, events, after),
        !before.runs(session_id@),
    ensures
        after.current_session == before.current_session,
        events == Seq::<ServerEvent>::empty(),
{
}

/// True when `ids` holds every file of the offer `files`.
pub open spec fn covers(ids: Seq<Seq<char>>, files: Map<Seq<char>, FileMetadata>) -> bool {
    forall|k: Seq<char>| #[trigger] files.contains_key(k) ==> ids.contains(k)
}

/// A session ends with the last of its files and not before: while the files
/// that have arrived leave one out, it runs on and announces nothing; the one
/// that completes them ends it with `SessionDone`. The order does not matter,
/// and a file that arrives twice counts once.
pub proof fn law_session_ends_with_its_last_file(
    states: Seq<ServerState>,
    session_id: SessionId,
    ids: Seq<Seq<char>>,
    times: Seq<u64>,
    events: Seq<Seq<ServerEvent>>,
)
    requires
        ids.len() > 0,
        states.len() == ids.len() + 1,
        times.len() == ids.len(),
        events.len() == ids.len(),
        states[0].runs(session_id@),
        states[0].current_session->0.received@ == Map::<Seq<char>, bool>::empty(),
        forall|i: int|
            0 <= i < ids.len() ==> (#[trigger] states[i]).completes(
                session_id,
                ids[i],
                times[i],
                events[i],
                states[i + 1],
            ),
        !covers(ids.drop_last(), states[0].current_session->0.files@),
    ensures
        forall|i: int|
            0 <= i < ids.len() ==> (#[trigger] states[i]).runs(session_id@),
        forall|i: int| 0 <= i < ids.len() - 1 ==> #[trigger] events[i] == Seq::<ServerEvent>::empty(),
        covers(ids, states[0].current_session->0.files@) ==> states.last().current_session is None
            && events.last() == seq![ServerEvent::SessionDone { session_id }],
        !covers(ids, states[0].current_session->0.files@) ==> states.last().runs(session_id@)
            && events.last() == Seq::<ServerEvent>::empty(),
{
    let files = states[0].current_session->0.files@;
    let n = ids.len() as int;
    lemma_runs_until(states, session_id, ids, times, events, n - 1);
    let session = states[n - 1].current_session->0;
    assert(states[n - 1].completes(session_id, ids[n - 1], times[n - 1], events[n - 1], states[n]));
    let arrived = session.received@.insert(ids[n - 1], true);
    assert(ids.take(n - 1) =~= ids.drop_last());
    if covers(ids, files) {
        assert forall|k: Seq<char>| session.files@.dom().contains(k) implies arrived.dom().contains(
            k,
        ) by {
            assert(files.contains_key(k));
            assert(ids.contains(k));
            let j = choose|j: int| 0 <= j < n && ids[j] == k;
            if j < n - 1 {
                assert(ids.take(n - 1)[j] == k);
                assert(ids.take(n - 1).contains(k));
            }
        }
    } else {
        if session.files@.dom().subset_of(arrived.dom()) {
            assert forall|k: Seq<char>| #[trigger] files.contains_key(k) implies ids.contains(k) by {
                assert(session.files@.dom().contains(k));
                assert(arrived.dom().contains(k));
                if k != ids[n - 1] {
                    assert(ids.take(n - 1).contains(k));
                    let early = ids.take(n - 1);
                    let j = choose|j: int| 0 <= j < early.len() && early[j] == k;
                    assert(ids[j] == k);
                } else {
                    assert(ids[n - 1] == k);
                }
            }
        }
    }
    assert forall|i: int| 0 <= i < n implies (#[trigger] states[i]).runs(session_id@) by {
        lemma_runs_until(states, session_id, ids, times, events, i);
    }
    assert forall|i: int| 0 <= i < n - 1 implies #[trigger] events[i]
        == Seq::<ServerEvent>::empty() by {
        lemma_runs_until(states, session_id, ids, times, events, i);
        lemma_runs_until(states, session_id, ids, times, events, i + 1);
        assert(states[i].completes(session_id, ids[i], times[i], events[i], states[i + 1]));
    }
}

/// While the files that have arrived leave one out, the session runs on with
/// exactly those noted.
proof fn lemma_runs_until(
    states: Seq<ServerState>,
    session_id: SessionId,
    ids: Seq<Seq<char>>,
    times: Seq<u64>,
    events: Seq<Seq<ServerEvent>>,
    i: int,
)
    requires
        ids.len() > 0,
        states.len() == ids.len() + 1,
        0 <= i < ids.len(),
        states[0].runs(session_id@),
        states[0].current_session->0.received@ == Map::<Seq<char>, bool>::empty(),
        forall|i: int|
            0 <= i < ids.len() ==> (#[trigger] states[i]).completes(
                session_id,
                ids[i],
                times[i],
                events[i],
                states[i + 1],
            ),
        !covers(ids.drop_last(), states[0].current_session->0.files@),
    ensures
        states[i].runs(session_id@),
        states[i].current_session->0.files@ == states[0].current_session->0.files@,
        forall|k: Seq<char>| #[trigger]
            states[i].current_session->0.received@.contains_key(k) == ids.take(i).contains(k),
    decreases i,
{
    let files = states[0].current_session->0.files@;
    if i > 0 {
        lemma_runs_until(states, session_id, ids, times, events, i - 1);
        let before = states[i - 1];
        assert(before.completes(session_id, ids[i - 1], times[i - 1], events[i - 1], states[i]));
        let session = before.current_session->0;
        let arrived = session.received@.insert(ids[i - 1], true);
        assert forall|k: Seq<char>| #[trigger] arrived.contains_key(k) == ids.take(i).contains(k) by {
            let now = ids.take(i);
            let then = ids.take(i - 1);
            if then.contains(k) {
                let j = choose|j: int| 0 <= j < then.len() && then[j] == k;
                assert(now[j] == k);
            }
            assert(now[i - 1] == ids[i - 1]);
            if now.contains(k) {
                let j = choose|j: int| 0 <= j < now.len() && now[j] == k;
                if j < i - 1 {
                    assert(then[j] == k);
                }
            }
        }
        if session.files@.dom().subset_of(arrived.dom()) {
            assert forall|k: Seq<char>| #[trigger] files.contains_key(k) implies ids.drop_last().contains(
                k,
            ) by {
                assert(session.files@.dom().contains(k));
                assert(arrived.contains_key(k));
                assert(ids.take(i).contains(k));
                let early = ids.take(i);
                let j = choose|j: int| 0 <= j < early.len() && early[j] == k;
                assert(ids.drop_last()[j] == k);
            }
            assert(covers(ids.drop_last(), files));
        }
    } else {
        assert(ids.take(0) =~= Seq::<Seq<char>>::empty());
    }
}

/// A cancelled session is over, the cancellation of any other session changes
/// nothing, and cancelling twice announces one end.
pub proof fn law_cancel_ends_the_named_session(
    before: ServerState,
    session_id: SessionId,
    events: Seq<ServerEvent>,
    after: ServerState,
    again: Seq<ServerEvent>,
    last: ServerState,
)
    requires
        before.cancels(session_id, events, after),
        after.cancels(session_id, again, last),
    ensures
        !after.runs(session_id@),
        !before.runs(session_id@) ==> after.current_session == before.current_session,
        again == Seq::<ServerEvent>::empty(),
        last.current_session == after.current_session,
{
}

/// A sender that vanishes cannot hold the slot: once its session has been
/// silent for longer than the limit, a sweep frees it; before that a sweep
/// changes nothing.
pub proof fn law_silence_frees_the_slot(
    before: ServerState,
    now: u64,
    freed: bool,
    after: ServerState,
)
    requires
        before.sweeps(now, freed, after),
        before.current_session is Some,
    ensures
        now - before.current_session->0.last_activity > SESSION_TTL ==> after.current_session is None,
        now - before.current_session->0.last_activity <= SESSION_TTL ==> after.current_session
            == before.current_session,
{
}

/// True when the slot is swept at these times, at most a period apart, and
/// nothing else happens to it in between.
pub open spec fn swept_at(
    before: Seq<ServerState>,
    times: Seq<u64>,
    freed: Seq<bool>,
    after: Seq<ServerState>,
) -> bool {
    &&& before.len() == times.len()
    &&& freed.len() == times.len()
    &&& after.len() == times.len()
    &&& forall|i: int|
        0 <= i < times.len() ==> (#[trigger] before[i]).sweeps(times[i], freed[i], after[i])
    &&& forall|i: int|
        0 < i < times.len() ==> (#[trigger] before[i]).current_session == after[i
            - 1].current_session
    &&& forall|i: int|
        0 < i < times.len() ==> times[i - 1] <= #[trigger] times[i] <= times[i - 1] + SWEEP_PERIOD
}

/// A sender that vanishes holds the slot no longer than the limit and one period
/// of the sweep: where sweeps at most a period apart begin before that time and
/// go on beyond the limit, its session is gone by that time. It stays until it
/// has been silent for longer than the limit, and does not come back.
pub proof fn law_silent_session_is_gone_in_time(
    session: Session,
    before: Seq<ServerState>,
    times: Seq<u64>,
    freed: Seq<bool>,
    after: Seq<ServerState>,
)
    requires
        swept_at(before, times, freed, after),
        times.len() > 0,
        before[0].current_session == Some(session),
        times[0] <= session.last_activity + SESSION_TTL + SWEEP_PERIOD,
        times.last() > session.last_activity + SESSION_TTL,
    ensures
        exists|k: int|
            0 <= k < times.len() && session.last_activity + SESSION_TTL < #[trigger] times[k]
                <= session.last_activity + SESSION_TTL + SWEEP_PERIOD
                && after[k].current_session is None,
        forall|i: int|
            0 <= i < times.len() ==> (#[trigger] after[i]).current_session == (if times[i]
                > session.last_activity + SESSION_TTL {
                None
            } else {
                Some(session)
            }),
{
    let limit = session.last_activity + SESSION_TTL;
    assert forall|i: int| 0 <= i < times.len() implies (#[trigger] after[i]).current_session == (
    if times[i] > limit {
        None
    } else {
        Some(session)
    }) by {
        lemma_swept_so_far(session, before, times, freed, after, i);
    }
    lemma_a_sweep_in_time(times, limit, times.len() - 1);
}

proof fn lemma_swept_so_far(
    session: Session,
    before: Seq<ServerState>,
    times: Seq<u64>,
    freed: Seq<bool>,
    after: Seq<ServerState>,
    i: int,
)
    requires
        swept_at(before, times, freed, after),
        0 <= i < times.len(),
        before[0].current_session == Some(session),
    ensures
        after[i].current_session == (if times[i] > session.last_activity + SESSION_TTL {
            None
        } else {
            Some(session)
        }),
    decreases i,
{
    assert(before[i].sweeps(times[i], freed[i], after[i]));
    if i > 0 {
        lemma_swept_so_far(session, before, times, freed, after, i - 1);
        assert(before[i].current_session == after[i - 1].current_session);
        assert(times[i - 1] <= times[i]);
    }
}

/// Among times that are at most a period apart, one falls into the period after
/// `limit`, if the first lies before its end and the last beyond `limit`.
proof fn lemma_a_sweep_in_time(times: Seq<u64>, limit: int, i: int)
    requires
        0 <= i < times.len(),
        times[0] <= limit + SWEEP_PERIOD,
        times[i] > limit,
        forall|j: int|
            0 < j < times.len() ==> times[j - 1] <= #[trigger] times[j] <= times[j - 1]
                + SWEEP_PERIOD,
    ensures
        exists|k: int| 0 <= k <= i && limit < #[trigger] times[k] <= limit + SWEEP_PERIOD,
    decreases i,
{
    if i > 0 && times[i - 1] > limit {
        lemma_a_sweep_in_time(times, limit, i - 1);
    } else {
        assert(limit < times[i] <= limit + SWEEP_PERIOD);
    }
}

/// Every step keeps the session sound: each of its files has a token, and
/// nothing else has one.
pub proof fn law_session_stays_sound(
    before: ServerState,
    pin: Option<Seq<char>>,
    peer: PeerIp,
    request: PrepareUploadRequest,
    step: PrepareUploadStep,
    decision: TransferDecision,
    reply: PrepareUploadReply,
    session_id: SessionId,
    file_id: Seq<char>,
    now: u64,
    events: Seq<ServerEvent>,
    freed: bool,
    after: ServerState,
)
    requires
        before.wf(),
        before.begins(pin, peer, request, now, step, after) || before.finishes(
            request,
            decision,
            now,
            reply,
            events,
            after,
        ) || before.completes(session_id, file_id, now, events, after) || before.cancels(
            session_id,
            events,
            after,
        ) || before.sweeps(now, freed, after),
    ensures
        after.wf(),
{
}

} // verus!
