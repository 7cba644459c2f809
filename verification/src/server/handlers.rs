//! The upload interface: who may send, what is accepted, and when a session
//! ends.

use crate::id_map::IdMap;
use crate::outside::{drawn, ends_in, joined, last_part, uuid_shape};
use crate::protocol::{
    DeviceInfo, FileId, FileMetadata, PeerIp, PrepareUploadRequest, PrepareUploadResponse,
    SessionId, Status, Token,
};
use crate::server::events::{
    chosen, decision_covers, settled, PendingRequest, ServerEvent, TransferDecision,
};
use crate::server::pin::PinVerdict;
use crate::server::state::ServerState;
use crate::session::Session;
use crate::text::{eq_ignore_ascii_case, equal_ignoring_case, opt_text, opt_view, same_text};
use std::path::PathBuf;
use tokio::sync::oneshot;
use vstd::prelude::*;

verus! {

/// Seconds of silence after which a session gives way.
pub const SESSION_TTL: u64 = 300;

/// Seconds between two sweeps of the session slot.
pub const SWEEP_PERIOD: u64 = 60;

/// Size from which an offered text is a file and no message.
pub const MESSAGE_LIMIT: u64 = 1048576;

/// What to do with a `prepare-upload` request.
#[derive(Debug)]
pub enum PrepareUploadStep {
    /// Answer with this status; nothing was reserved.
    Reply(Status),
    /// The session is reserved and everything is accepted.
    Accepted,
    /// The session is reserved: show the request, then wait for the decision.
    Ask(PendingRequest, oneshot::Receiver<TransferDecision>),
}

/// The answer to a `prepare-upload` request.
#[derive(Debug)]
pub enum PrepareUploadReply {
    Status(Status),
    Session(PrepareUploadResponse),
}

/// The query of an upload.
#[derive(Debug)]
pub struct UploadParams {
    pub session_id: SessionId,
    pub file_id: FileId,
    pub token: Token,
}

/// What an admitted upload is held to.
#[derive(Debug)]
pub struct UploadTicket {
    pub file_name: String,
    pub session_id: SessionId,
    pub sender_alias: String,
    pub declared_size: u64,
    pub declared_sha: Option<String>,
}

/// The text of an offer that is a message: exactly one small item with a
/// preview that is not empty.
pub open spec fn message_of(files: Map<Seq<char>, FileMetadata>) -> Option<Seq<char>> {
    if files.dom().len() == 1 {
        let file = files[files.dom().choose()];
        match file.preview {
            Some(text) => if text@.len() > 0 && file.size < MESSAGE_LIMIT {
                Some(text@)
            } else {
                None
            },
            None => None,
        }
    } else {
        None
    }
}

/// The text of an offer that is a message.
pub fn message_text(files: &IdMap<FileMetadata>) -> (res: Option<String>)
    ensures
        match res {
            Some(text) => message_of(files@) == Some(text@),
            None => message_of(files@) is None,
        },
{
    if files.len() == 1 {
        let file = files.value_at(0);
        proof {
            let k = files.keys()[0];
            let d = files@.dom();
            assert(files.keys().to_set().contains(k));
            assert(files.keys().to_set() == d);
            let c = d.choose();
            assert(d.contains(c));
            assert(files.keys().to_set().contains(c));
            assert(c == k);
        }
        match &file.preview {
            Some(text) => {
                if !text.as_str().is_empty() && file.size < MESSAGE_LIMIT {
                    Some(text.clone())
                } else {
                    None
                }
            },
            None => None,
        }
    } else {
        None
    }
}

/// The files that a decision accepts.
fn accepted_files(files: &IdMap<FileMetadata>, decision: &TransferDecision) -> (res: IdMap<
    FileMetadata,
>)
    ensures
        res@ == files@.restrict(chosen(*decision, files@)),
{
    let ghost all = files@;
    let ghost ids = chosen(*decision, all);
    let mut accepted: IdMap<FileMetadata> = IdMap::new();
    let n = files.len();
    let mut i: usize = 0;
    while i < n
        invariant
            i <= n,
            n == files.keys().len(),
            all == files@,
            ids == chosen(*decision, all),
            files.keys().to_set() == all.dom(),
            files.keys().no_duplicates(),
            forall|k: Seq<char>| #[trigger]
                accepted@.contains_key(k) ==> all.contains_key(k) && ids.contains(k)
                    && accepted@[k] == all[k],
            forall|j: int|
                0 <= j < i && ids.contains(files.keys()[j]) ==> accepted@.contains_key(
                    #[trigger] files.keys()[j],
                ),
        decreases n - i,
    {
        let key = files.key_at(i);
        let covered = decision_covers(decision, key.as_str());
        assert(covered == ids.contains(key@));
        if covered {
            accepted.insert(key.clone(), files.value_at(i).clone());
        }
        i = i + 1;
    }
    proof {
        let want = all.restrict(ids);
        assert forall|k: Seq<char>| want.contains_key(k) implies accepted@.contains_key(k) by {
            assert(files.keys().to_set().contains(k));
            let j = choose|j: int| 0 <= j < files.keys().len() && files.keys()[j] == k;
            assert(ids.contains(files.keys()[j]));
        }
        assert(accepted@ =~= want);
    }
    accepted
}

fn clone_files(files: &IdMap<FileMetadata>) -> (res: IdMap<FileMetadata>)
    ensures
        res@ == files@,
{
    let res = files.clone();
    assert(res@ =~= files@);
    res
}

fn clone_tokens(tokens: &IdMap<Token>) -> (res: IdMap<Token>)
    ensures
        res@ == tokens@,
{
    let res = tokens.clone();
    assert(res@ =~= tokens@);
    res
}

impl ServerState {
    /// True when `session` is the running one.
    pub open spec fn runs(self, session: Seq<char>) -> bool {
        self.current_session matches Some(current) && current.id@ == session
    }

    /// True when a session stands in the way of a new one.
    pub open spec fn busy(self, now: u64) -> bool {
        self.current_session matches Some(session) && !session.timed_out(SESSION_TTL, now)
    }

    /// The answer that ends a `prepare-upload` request at once, if there is one:
    /// the PIN comes first, then an offer without files, then a session that
    /// stands in the way.
    pub open spec fn refusal(
        self,
        pin: Option<Seq<char>>,
        peer: PeerIp,
        files: Map<Seq<char>, FileMetadata>,
        now: u64,
    ) -> Option<Status> {
        match self.pin_gate.verdict(pin, peer) {
            PinVerdict::Unauthorized => Some(Status::Unauthorized),
            PinVerdict::LockedOut => Some(Status::TooManyRequests),
            PinVerdict::Granted => if files == Map::<Seq<char>, FileMetadata>::empty() {
                Some(Status::NoContent)
            } else if self.busy(now) {
                Some(Status::Conflict)
            } else {
                None
            },
        }
    }

    /// What the first half of `prepare-upload` does: a refused request changes
    /// nothing but the count of wrong PINs; any other reserves a session over
    /// everything that is offered, and is accepted or asked about. The end on
    /// which its decision arrives is joined to the one that the request keeps.
    pub open spec fn begins(
        self,
        pin: Option<Seq<char>>,
        peer: PeerIp,
        request: PrepareUploadRequest,
        now: u64,
        step: PrepareUploadStep,
        after: ServerState,
    ) -> bool {
        &&& after.same_setup(self)
        &&& self.pin_gate.checked(pin, peer, after.pin_gate)
        &&& match self.refusal(pin, peer, request.files@, now) {
            Some(status) => {
                &&& step == PrepareUploadStep::Reply(status)
                &&& after.current_session == self.current_session
            },
            None => {
                &&& after.current_session matches Some(session)
                &&& session.fresh(request.info.alias, request.files@, now)
                &&& if self.auto_accept {
                    step == PrepareUploadStep::Accepted
                } else {
                    &&& step matches PrepareUploadStep::Ask(pending, decision)
                    &&& pending.from() == request.info
                    &&& pending.offered()@ == request.files@
                    &&& joined(pending.channel(), decision)
                }
            },
        }
    }

    /// What the second half of `prepare-upload` does with a decision. Where it
    /// accepts none of the offered files the request is forbidden and the slot
    /// is free. An accepted message is handed on and ends at once. Anything
    /// else becomes a session over the accepted files, and its tokens are the
    /// answer.
    pub open spec fn finishes(
        self,
        request: PrepareUploadRequest,
        decision: TransferDecision,
        now: u64,
        reply: PrepareUploadReply,
        events: Seq<ServerEvent>,
        after: ServerState,
    ) -> bool {
        let ids = chosen(decision, request.files@);
        &&& after.same_setup(self)
        &&& after.pin_gate == self.pin_gate
        &&& if ids == Set::<Seq<char>>::empty() {
            &&& reply == PrepareUploadReply::Status(Status::Forbidden)
            &&& events.len() == 0
            &&& after.current_session is None
        } else {
            match message_of(request.files@) {
                Some(message) => {
                    &&& reply == PrepareUploadReply::Status(Status::NoContent)
                    &&& events.len() == 2
                    &&& events[0] matches ServerEvent::TextReceived {
                        session_id,
                        text,
                        sender_alias,
                    }
                    &&& text@ == message
                    &&& sender_alias == request.info.alias
                    &&& drawn(session_id.text)
                    &&& uuid_shape(session_id@)
                    &&& events[1] == (ServerEvent::SessionDone { session_id })
                    &&& after.current_session is None
                },
                None => {
                    &&& reply matches PrepareUploadReply::Session(response)
                    &&& events.len() == 0
                    &&& after.current_session matches Some(session)
                    &&& session.fresh(request.info.alias, request.files@.restrict(ids), now)
                    &&& response.session_id == session.id
                    &&& response.files@ == session.tokens@
                },
            }
        }
    }

    /// How an upload is admitted: the session must be the running one, the
    /// token the one that was issued for the file.
    pub open spec fn admits(
        self,
        session_id: Seq<char>,
        file_id: Seq<char>,
        token: Seq<char>,
        res: Result<UploadTicket, Status>,
    ) -> bool {
        match self.current_session {
            None => res == Err::<UploadTicket, Status>(Status::Forbidden),
            Some(session) => if session.id@ != session_id || !session.token_matches(
                file_id,
                token,
            ) {
                res == Err::<UploadTicket, Status>(Status::Forbidden)
            } else if !session.files@.contains_key(file_id) {
                res == Err::<UploadTicket, Status>(Status::NotFound)
            } else {
                &&& res matches Ok(ticket)
                &&& ticket.file_name == session.files@[file_id].file_name
                &&& ticket.session_id == session.id
                &&& ticket.sender_alias == session.sender_alias
                &&& ticket.declared_size == session.files@[file_id].size
                &&& ticket.declared_sha == session.files@[file_id].sha256
            },
        }
    }

    /// What the arrival of a file does to the session slot, and the events that
    /// follow the one for the file. The running session notes the file, and ends
    /// with it when nothing is missing any more; another session is left alone.
    pub open spec fn completes(
        self,
        session_id: SessionId,
        file_id: Seq<char>,
        now: u64,
        events: Seq<ServerEvent>,
        after: ServerState,
    ) -> bool {
        &&& after.same_setup(self)
        &&& after.pin_gate == self.pin_gate
        &&& if self.runs(session_id@) {
            let session = self.current_session->0;
            let arrived = session.received@.insert(file_id, true);
            if session.files@.dom().subset_of(arrived.dom()) {
                &&& after.current_session is None
                &&& events == seq![ServerEvent::SessionDone { session_id }]
            } else {
                &&& events == Seq::<ServerEvent>::empty()
                &&& after.current_session matches Some(next)
                &&& next.id == session.id
                &&& next.sender_alias == session.sender_alias
                &&& next.files == session.files
                &&& next.tokens == session.tokens
                &&& next.received@ == arrived
                &&& next.last_activity == now
            }
        } else {
            &&& events == Seq::<ServerEvent>::empty()
            &&& after.current_session == self.current_session
        }
    }

    /// What is told of a file that is on disk and whole, and what follows: the
    /// event names the file as it lies on disk, by `stored_name`, or where the
    /// path has no last part by the name that was offered.
    pub open spec fn stores(
        self,
        ticket: UploadTicket,
        file_id: FileId,
        path: PathBuf,
        stored_name: Option<String>,
        size: u64,
        now: u64,
        events: Seq<ServerEvent>,
        after: ServerState,
    ) -> bool {
        &&& events.len() >= 1
        &&& events[0] == (ServerEvent::FileReceived {
            session_id: ticket.session_id,
            file_id,
            file_name: match stored_name {
                Some(name) => name,
                None => ticket.file_name,
            },
            path,
            size,
            sender_alias: ticket.sender_alias,
            message_text: None,
        })
        &&& self.completes(ticket.session_id, file_id@, now, events.skip(1), after)
    }

    /// What a cancellation does: it ends the session that it names, if that is
    /// the running one.
    pub open spec fn cancels(
        self,
        session_id: SessionId,
        events: Seq<ServerEvent>,
        after: ServerState,
    ) -> bool {
        &&& after.same_setup(self)
        &&& after.pin_gate == self.pin_gate
        &&& if self.runs(session_id@) {
            &&& after.current_session is None
            &&& events == seq![ServerEvent::SessionDone { session_id }]
        } else {
            &&& after.current_session == self.current_session
            &&& events == Seq::<ServerEvent>::empty()
        }
    }

    /// What a sweep does: it frees the slot of a session that was silent for
    /// too long.
    pub open spec fn sweeps(self, now: u64, freed: bool, after: ServerState) -> bool {
        &&& after.same_setup(self)
        &&& after.pin_gate == self.pin_gate
        &&& freed == (self.current_session is Some && !self.busy(now))
        &&& after.current_session == (if freed {
            None
        } else {
            self.current_session
        })
    }

    /// The device, as `info` and `register` answer it.
    pub fn info(&self) -> (res: DeviceInfo)
        ensures
            res == self.device,
    {
        self.device.clone()
    }

    /// First half of `prepare-upload`: the PIN, and the reservation of the one
    /// session over the offered files.
    pub fn begin_prepare_upload(
        &mut self,
        pin: Option<&str>,
        peer: PeerIp,
        request: &PrepareUploadRequest,
        now: u64,
    ) -> (res: PrepareUploadStep)
        ensures
            old(self).begins(opt_view(pin), peer, *request, now, res, *final(self)),
    {
        match self.pin_gate.check(pin, peer) {
            PinVerdict::Granted => {},
            PinVerdict::Unauthorized => {
                return PrepareUploadStep::Reply(Status::Unauthorized);
            },
            PinVerdict::LockedOut => {
                return PrepareUploadStep::Reply(Status::TooManyRequests);
            },
        }
        if request.files.is_empty() {
            return PrepareUploadStep::Reply(Status::NoContent);
        }
        let busy = match &self.current_session {
            Some(session) => !session.is_timed_out(SESSION_TTL, now),
            None => false,
        };
        if busy {
            return PrepareUploadStep::Reply(Status::Conflict);
        }
        self.current_session = Some(
            Session::new(request.info.alias.clone(), clone_files(&request.files), now),
        );
        if self.auto_accept {
            return PrepareUploadStep::Accepted;
        }
        let (pending, receiver) = PendingRequest::new(
            request.info.clone(),
            clone_files(&request.files),
        );
        PrepareUploadStep::Ask(pending, receiver)
    }

    /// Second half of `prepare-upload`, once the decision is in; `None` stands
    /// for a request that was dropped or timed out. What the decision accepts
    /// becomes the session, with fresh tokens. A message ends at once.
    pub fn finish_prepare_upload(
        &mut self,
        request: &PrepareUploadRequest,
        answer: Option<TransferDecision>,
        now: u64,
    ) -> (res: (PrepareUploadReply, Vec<ServerEvent>))
        ensures
            old(self).finishes(*request, settled(answer), now, res.0, res.1@, *final(self)),
    {
        let decision = match answer {
            Some(decision) => decision,
            None => TransferDecision::Decline,
        };
        let accepted = accepted_files(&request.files, &decision);
        let ghost ids = chosen(decision, request.files@);
        proof {
            assert(accepted@.dom() =~= ids);
        }
        if accepted.is_empty() {
            self.current_session = None;
            let events: Vec<ServerEvent> = Vec::new();
            return (PrepareUploadReply::Status(Status::Forbidden), events);
        }
        proof {
            if ids == Set::<Seq<char>>::empty() {
                assert(accepted@ =~= Map::<Seq<char>, FileMetadata>::empty());
            }
        }
        let session = Session::new(request.info.alias.clone(), accepted, now);
        match message_text(&request.files) {
            Some(text) => {
                let mut events: Vec<ServerEvent> = Vec::new();
                events.push(
                    ServerEvent::TextReceived {
                        session_id: session.id.clone(),
                        text,
                        sender_alias: request.info.alias.clone(),
                    },
                );
                events.push(ServerEvent::SessionDone { session_id: session.id });
                self.current_session = None;
                (PrepareUploadReply::Status(Status::NoContent), events)
            },
            None => {
                let response = PrepareUploadResponse {
                    session_id: session.id.clone(),
                    files: clone_tokens(&session.tokens),
                };
                self.current_session = Some(session);
                let events: Vec<ServerEvent> = Vec::new();
                (PrepareUploadReply::Session(response), events)
            },
        }
    }

    /// Admits an upload: the running session, the token that was issued for
    /// the file, and the file itself must all fit.
    pub fn admit_upload(&self, params: &UploadParams) -> (res: Result<UploadTicket, Status>)
        ensures
            self.admits(params.session_id@, params.file_id@, params.token@, res),
    {
        match &self.current_session {
            None => Err(Status::Forbidden),
            Some(session) => {
                if !same_text(session.id.as_str(), params.session_id.as_str()) {
                    return Err(Status::Forbidden);
                }
                if !session.verify_token(&params.file_id, &params.token) {
                    return Err(Status::Forbidden);
                }
                match session.files.get(params.file_id.as_str()) {
                    Some(meta) => Ok(
                        UploadTicket {
                            file_name: meta.file_name.clone(),
                            session_id: session.id.clone(),
                            sender_alias: session.sender_alias.clone(),
                            declared_size: meta.size,
                            declared_sha: crate::protocol::clone_text(&meta.sha256),
                        },
                    ),
                    None => Err(Status::NotFound),
                }
            },
        }
    }

    /// Notes a file that is on disk and whole; `stored_name` is the last part of
    /// its path, where there is one. A session that is no longer the running one
    /// is left alone, and so is the session that took its place.
    pub fn complete_upload_as(
        &mut self,
        ticket: UploadTicket,
        file_id: &FileId,
        path: PathBuf,
        stored_name: Option<String>,
        size: u64,
        now: u64,
    ) -> (res: Vec<ServerEvent>)
        ensures
            old(self).stores(
                ticket,
                *file_id,
                path,
                stored_name,
                size,
                now,
                res@,
                *final(self),
            ),
    {
        let mut all_done = false;
        let current = self.current_session.take();
        match current {
            Some(session) => {
                let mut session = session;
                if same_text(session.id.as_str(), ticket.session_id.as_str()) {
                    let ghost before = session;
                    all_done = session.mark_received(file_id, now);
                    proof {
                        let arrived = before.received@.insert(file_id@, true);
                        assert(session.complete() == before.files@.dom().subset_of(arrived.dom()))
                            by {
                            if session.complete() {
                                assert forall|k: Seq<char>| before.files@.dom().contains(
                                    k,
                                ) implies arrived.dom().contains(k) by {
                                    assert(session.files@.contains_key(k));
                                }
                            }
                            if before.files@.dom().subset_of(arrived.dom()) {
                                assert forall|k: Seq<char>| #[trigger]
                                    session.files@.contains_key(
                                        k,
                                    ) implies session.received@.contains_key(k) by {
                                    assert(before.files@.dom().contains(k));
                                }
                            }
                        }
                    }
                }
                if !all_done {
                    self.current_session = Some(session);
                }
            },
            None => {},
        }
        let mut events: Vec<ServerEvent> = Vec::new();
        let file_name = match stored_name {
            Some(name) => name,
            None => ticket.file_name,
        };
        events.push(
            ServerEvent::FileReceived {
                session_id: ticket.session_id.clone(),
                file_id: file_id.clone(),
                file_name,
                path,
                size,
                sender_alias: ticket.sender_alias,
                message_text: None,
            },
        );
        if all_done {
            events.push(ServerEvent::SessionDone { session_id: ticket.session_id });
            assert(events@.skip(1) =~= seq![
                ServerEvent::SessionDone { session_id: ticket.session_id },
            ]);
        } else {
            assert(events@.skip(1) =~= Seq::<ServerEvent>::empty());
        }
        events
    }

    /// Notes a file that is on disk and whole. The event names the file as it
    /// lies on disk, by the last part of its path.
    pub fn complete_upload(
        &mut self,
        ticket: UploadTicket,
        file_id: &FileId,
        path: PathBuf,
        size: u64,
        now: u64,
    ) -> (res: Vec<ServerEvent>)
        ensures
            exists|name: Option<String>| #[trigger]
                ends_in(path, name) && old(self).stores(
                    ticket,
                    *file_id,
                    path,
                    name,
                    size,
                    now,
                    res@,
                    *final(self),
                ),
    {
        let name = last_part(&path);
        self.complete_upload_as(ticket, file_id, path, name, size, now)
    }

    /// Ends the session that the sender names, if it is the running one.
    pub fn cancel(&mut self, session_id: &SessionId) -> (res: Vec<ServerEvent>)
        ensures
            old(self).cancels(*session_id, res@, *final(self)),
    {
        let mut events: Vec<ServerEvent> = Vec::new();
        let matches_id = match &self.current_session {
            Some(session) => same_text(session.id.as_str(), session_id.as_str()),
            None => false,
        };
        if matches_id {
            events.push(ServerEvent::SessionDone { session_id: session_id.clone() });
            self.current_session = None;
        }
        events
    }

    /// Frees the one session slot when its session has been silent for too
    /// long; true when it did.
    pub fn sweep(&mut self, now: u64) -> (res: bool)
        ensures
            old(self).sweeps(now, res, *final(self)),
    {
        let stale = match &self.current_session {
            Some(session) => session.is_timed_out(SESSION_TTL, now),
            None => false,
        };
        if stale {
            self.current_session = None;
        }
        stale
    }
}

/// What kept an admitted upload from reaching the disk.
#[derive(Debug, Clone, Copy, PartialEq, Eq, Structural)]
pub enum StoreFailure {
    /// The name of the file cannot be used.
    Name,
    /// The directory could not be made.
    Directory,
    /// The body could not be written.
    Write,
}

/// How far an admitted upload came.
#[derive(Debug)]
pub enum StoreOutcome {
    /// It did not reach the disk.
    Failed(StoreFailure),
    /// So many bytes were written.
    Written(u64),
    /// What was written has this hash; there is none where it could not be
    /// computed.
    Hashed(Option<String>),
}

/// What to do next with an admitted upload.
#[derive(Debug, Clone, Copy, PartialEq, Eq, Structural)]
pub enum StoreAction {
    /// Answer with this status, and leave the disk as it is.
    Fail(Status),
    /// Remove what was written, and answer with this status.
    Discard(Status),
    /// Compute the hash of what was written.
    Hash,
    /// Keep what was written, and note the file as received.
    Store,
}

/// The answer where an upload could not be stored.
pub open spec fn store_status(failure: StoreFailure) -> Status {
    match failure {
        StoreFailure::Name => Status::BadRequest,
        StoreFailure::Directory => Status::InternalServerError,
        StoreFailure::Write => Status::InternalServerError,
    }
}

/// The answer where an upload could not be stored.
pub fn store_failure_status(failure: StoreFailure) -> (res: Status)
    ensures
        res == store_status(failure),
{
    match failure {
        StoreFailure::Name => Status::BadRequest,
        StoreFailure::Directory => Status::InternalServerError,
        StoreFailure::Write => Status::InternalServerError,
    }
}

impl UploadTicket {
    /// True when a body of `size` bytes with this hash is what was declared;
    /// `hash` is absent where it could not be computed.
    pub open spec fn fits(self, size: u64, hash: Option<Seq<char>>) -> bool {
        &&& size == self.declared_size
        &&& self.declared_sha matches Some(declared) ==> hash matches Some(actual)
            && equal_ignoring_case(actual, declared@)
    }

    /// What to do next with an upload: one that did not reach the disk fails,
    /// one that is not what was declared is discarded, one whose hash was
    /// declared is hashed, and any other is kept.
    pub open spec fn next(self, outcome: StoreOutcome) -> StoreAction {
        match outcome {
            StoreOutcome::Failed(failure) => StoreAction::Fail(store_status(failure)),
            StoreOutcome::Written(size) => if size != self.declared_size {
                StoreAction::Discard(Status::InternalServerError)
            } else if self.declared_sha is Some {
                StoreAction::Hash
            } else {
                StoreAction::Store
            },
            StoreOutcome::Hashed(hash) => if self.fits(self.declared_size, opt_text(hash)) {
                StoreAction::Store
            } else {
                StoreAction::Discard(Status::InternalServerError)
            },
        }
    }

    /// What to do next with an upload that came so far.
    pub fn next_action(&self, outcome: &StoreOutcome) -> (res: StoreAction)
        ensures
            res == self.next(*outcome),
    {
        match outcome {
            StoreOutcome::Failed(failure) => StoreAction::Fail(store_failure_status(*failure)),
            StoreOutcome::Written(size) => match self.check_size(*size) {
                Err(status) => StoreAction::Discard(status),
                Ok(hashed) => if hashed {
                    StoreAction::Hash
                } else {
                    StoreAction::Store
                },
            },
            StoreOutcome::Hashed(hash) => {
                let actual = match hash {
                    Some(text) => Some(text.as_str()),
                    None => None,
                };
                match self.check_hash(actual) {
                    Err(status) => StoreAction::Discard(status),
                    Ok(_) => StoreAction::Store,
                }
            },
        }
    }

    /// Holds the size of the body to the declared one; where it fits, the
    /// result says whether the hash is still to be checked.
    pub fn check_size(&self, size: u64) -> (res: Result<bool, Status>)
        ensures
            res == (if size != self.declared_size {
                Err(Status::InternalServerError)
            } else {
                Ok(self.declared_sha is Some)
            }),
    {
        if size != self.declared_size {
            Err(Status::InternalServerError)
        } else {
            Ok(self.declared_sha.is_some())
        }
    }

    /// Holds the hash of the stored file to the declared one, without regard
    /// to case; `actual` is absent where it could not be computed.
    pub fn check_hash(&self, actual: Option<&str>) -> (res: Result<(), Status>)
        ensures
            res == (if self.fits(self.declared_size, opt_view(actual)) {
                Ok(())
            } else {
                Err(Status::InternalServerError)
            }),
    {
        match &self.declared_sha {
            None => Ok(()),
            Some(declared) => match actual {
                Some(hash) => {
                    if eq_ignore_ascii_case(hash, declared.as_str()) {
                        Ok(())
                    } else {
                        Err(Status::InternalServerError)
                    }
                },
                None => Err(Status::InternalServerError),
            },
        }
    }
}

} // verus!
