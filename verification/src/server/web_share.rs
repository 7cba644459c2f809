//! Files that browsers may download.

use crate::id_map::IdMap;
use crate::outside::{drawn, guess_mime, guessed_mime, joined, uuid_shape};
use crate::protocol::{DeviceInfo, FileId, FileMetadata, PeerIp, SessionId, Status};
use crate::server::events::{PendingWebShareRequest, ServerEvent};
use crate::server::pin::{PinGate, PinVerdict};
use crate::server::state::ServerState;
use crate::text::{characters, opt_text, opt_view};
use std::path::PathBuf;
use std::sync::Arc;
use tokio::sync::oneshot;
use vstd::prelude::*;
use vstd::string::*;

verus! {

/// Where the bytes of a shared file are.
#[derive(Clone, Debug)]
pub enum WebShareSource {
    Inline(Arc<Vec<u8>>),
    Path(PathBuf),
}

/// A shared file.
#[derive(Clone, Debug)]
pub struct WebShareFile {
    pub metadata: FileMetadata,
    pub source: WebShareSource,
}

/// A browser that asked for the files.
#[derive(Debug)]
pub struct WebShareSession {
    pub ip: PeerIp,
    pub approved: bool,
    pub response_tx: Option<oneshot::Sender<bool>>,
}

/// A running share.
#[derive(Debug)]
pub struct WebShareState {
    pub files: IdMap<WebShareFile>,
    pub sessions: IdMap<WebShareSession>,
    pub auto_accept: bool,
    pub pin_gate: PinGate,
}

/// The files by their identifiers; of two with one identifier the later.
pub open spec fn by_id(files: Seq<WebShareFile>) -> Map<Seq<char>, WebShareFile>
    decreases files.len(),
{
    if files.len() == 0 {
        Map::empty()
    } else {
        by_id(files.drop_last()).insert(files.last().metadata.id@, files.last())
    }
}

impl WebShareFile {
    /// True when the file is described as `name`, with `size` bytes of the
    /// media type `file_type`, and nothing more.
    pub open spec fn describes(
        self,
        id: Seq<char>,
        name: Seq<char>,
        size: int,
        file_type: Seq<char>,
    ) -> bool {
        &&& self.metadata.id@ == id
        &&& self.metadata.file_name@ == name
        &&& self.metadata.size == size
        &&& self.metadata.file_type@ == file_type
        &&& self.metadata.sha256 is None
        &&& self.metadata.preview is None
        &&& self.metadata.metadata is None
    }

    /// A file with the given description.
    pub fn with_source(
        id: FileId,
        name: String,
        size: u64,
        file_type: String,
        source: WebShareSource,
    ) -> (res: Self)
        ensures
            res.metadata.id == id,
            res.describes(id@, name@, size as int, file_type@),
            res.source == source,
    {
        WebShareFile {
            metadata: FileMetadata {
                id,
                file_name: name,
                size,
                file_type,
                sha256: None,
                preview: None,
                metadata: None,
            },
            source,
        }
    }

    /// A file whose bytes are in memory. Its media type is guessed from its
    /// name, and its identifier is random.
    pub fn inline(name: String, bytes: Vec<u8>) -> (res: Self)
        ensures
            drawn(res.metadata.id.text),
            uuid_shape(res.metadata.id@),
            res.describes(
                res.metadata.id@,
                name@,
                bytes@.len() as int,
                guessed_mime(name@),
            ),
            res.source matches WebShareSource::Inline(held) && held@ == bytes@,
    {
        let size = bytes.len() as u64;
        let file_type = guess_mime(name.as_str());
        Self::with_source(
            FileId::new(),
            name,
            size,
            file_type,
            WebShareSource::Inline(Arc::new(bytes)),
        )
    }

    /// A file on disk of which the size is known.
    pub fn path(path: PathBuf, name: String, size: u64) -> (res: Self)
        ensures
            drawn(res.metadata.id.text),
            uuid_shape(res.metadata.id@),
            res.describes(res.metadata.id@, name@, size as int, guessed_mime(name@)),
            res.source == WebShareSource::Path(path),
    {
        let file_type = guess_mime(name.as_str());
        Self::with_source(FileId::new(), name, size, file_type, WebShareSource::Path(path))
    }
}

impl WebShareState {
    /// A share of `files` that no browser has asked for yet.
    pub fn new(files: Vec<WebShareFile>, pin: Option<String>, auto_accept: bool) -> (res: Self)
        ensures
            res.files@ == by_id(files@),
            res.sessions@ == Map::<Seq<char>, WebShareSession>::empty(),
            res.auto_accept == auto_accept,
            res.pin_gate.expected() == opt_text(pin),
            forall|ip: PeerIp| #[trigger] res.pin_gate.failures_of(ip) == 0,
    {
        let mut map: IdMap<WebShareFile> = IdMap::new();
        let ghost all = files@;
        for file in it: files
            invariant
                it.seq() == all,
                map@ == by_id(all.take(it.index())),
        {
            proof {
                let next = all.take(it.index() + 1);
                assert(next.drop_last() =~= all.take(it.index()));
                assert(next.last() == file);
            }
            map.insert(file.metadata.id.text.clone(), file);
        }
        proof {
            assert(all.take(all.len() as int) =~= all);
        }
        WebShareState {
            files: map,
            sessions: IdMap::new(),
            auto_accept,
            pin_gate: PinGate::new(pin),
        }
    }
}

/// The answer to a browser that may download.
#[derive(Debug)]
pub struct PrepareDownloadResponse {
    pub info: DeviceInfo,
    pub session_id: SessionId,
    pub files: IdMap<FileMetadata>,
}

/// An answer that sends a browser away, with the text of its body.
#[derive(Debug)]
pub struct WebRefusal {
    pub status: Status,
    pub text: &'static str,
}

/// What to do with a `prepare-download` request.
#[derive(Debug)]
pub enum PrepareDownloadStep {
    /// Send the browser away.
    Refuse(WebRefusal),
    /// Answer with the files.
    Files(PrepareDownloadResponse),
    /// Show the request, then wait for the approval.
    Ask(PendingWebShareRequest, oneshot::Receiver<bool>),
}

/// What kept a shared file on disk from being read.
#[derive(Debug, Clone, Copy, PartialEq, Eq, Structural)]
pub enum DiskFailure {
    Open,
    Metadata,
}

/// The descriptions of the shared files.
pub open spec fn listing(files: Map<Seq<char>, WebShareFile>) -> Map<Seq<char>, FileMetadata> {
    files.map_values(|file: WebShareFile| file.metadata)
}

/// The descriptions of the shared files.
fn list_files(files: &IdMap<WebShareFile>) -> (res: IdMap<FileMetadata>)
    ensures
        res@ == listing(files@),
{
    let mut list: IdMap<FileMetadata> = IdMap::new();
    let n = files.len();
    let mut i: usize = 0;
    while i < n
        invariant
            i <= n,
            n == files.keys().len(),
            files.keys().to_set() == files@.dom(),
            forall|k: Seq<char>| #[trigger]
                list@.contains_key(k) ==> files@.contains_key(k) && list@[k] == files@[k].metadata,
            forall|j: int| 0 <= j < i ==> list@.contains_key(#[trigger] files.keys()[j]),
        decreases n - i,
    {
        list.insert(files.key_at(i).clone(), files.value_at(i).metadata.clone());
        i = i + 1;
    }
    proof {
        assert forall|k: Seq<char>| files@.contains_key(k) implies list@.contains_key(k) by {
            assert(files.keys().to_set().contains(k));
            let j = choose|j: int| 0 <= j < files.keys().len() && files.keys()[j] == k;
            assert(list@.contains_key(files.keys()[j]));
        }
        assert(list@ =~= listing(files@));
    }
    list
}

/// A slash or a backslash becomes a hyphen.
pub open spec fn without_slash(c: char) -> char {
    if c == '/' || c == '\\' {
        '-'
    } else {
        c
    }
}

/// A file name fit to stand between quotes: no slash, no backslash, no quote.
pub open spec fn quotable(name: Seq<char>) -> Seq<char> {
    name.map_values(|c: char| without_slash(c)).filter(|c: char| c != '"')
}

/// The value of the `Content-Disposition` header of a download.
pub open spec fn disposition(name: Seq<char>) -> Seq<char> {
    "attachment; filename=\""@ + quotable(name) + "\""@
}

/// The value of the `Content-Disposition` header of a download.
pub fn content_disposition(file_name: &str) -> (res: String)
    ensures
        res@ == disposition(file_name@),
{
    let chars = characters(file_name);
    let ghost mapped = file_name@.map_values(|c: char| without_slash(c));
    let mut name = String::new();
    let mut i: usize = 0;
    proof {
        assert(mapped.take(0) =~= Seq::<char>::empty());
        reveal(Seq::filter);
    }
    while i < chars.len()
        invariant
            i <= chars.len(),
            chars@ == file_name@,
            mapped == file_name@.map_values(|c: char| without_slash(c)),
            name@ == mapped.take(i as int).filter(|c: char| c != '"'),
        decreases chars.len() - i,
    {
        let c = chars[i];
        proof {
            reveal(Seq::filter);
            assert(mapped.take(i + 1).drop_last() =~= mapped.take(i as int));
            assert(mapped.take(i + 1).last() == without_slash(c));
        }
        if c == '/' || c == '\\' {
            name.push('-');
        } else if c != '"' {
            name.push(c);
        }
        i = i + 1;
    }
    assert(mapped.take(chars@.len() as int) =~= mapped);
    "attachment; filename=\"".to_owned().concat(name.as_str()).concat("\"")
}

/// The events of a finished download of `length` bytes.
pub fn download_events(session_id: SessionId, file_id: FileId, length: u64) -> (res: Vec<
    ServerEvent,
>)
    ensures
        res@ == seq![
            ServerEvent::WebShareDownloadProgress {
                session_id,
                file_id,
                bytes_sent: length,
                total_bytes: length,
            },
            ServerEvent::WebShareSessionDone { session_id },
        ],
{
    let mut events: Vec<ServerEvent> = Vec::new();
    events.push(
        ServerEvent::WebShareDownloadProgress {
            session_id: session_id.clone(),
            file_id,
            bytes_sent: length,
            total_bytes: length,
        },
    );
    events.push(ServerEvent::WebShareSessionDone { session_id });
    events
}

/// The answer where a shared file on disk cannot be read.
pub fn disk_failure_status(failure: DiskFailure) -> (res: Status)
    ensures
        res == (match failure {
            DiskFailure::Open => Status::NotFound,
            DiskFailure::Metadata => Status::InternalServerError,
        }),
{
    match failure {
        DiskFailure::Open => Status::NotFound,
        DiskFailure::Metadata => Status::InternalServerError,
    }
}

impl WebShareState {
    /// True when the session was approved, for this address.
    pub open spec fn grants(self, session_id: Seq<char>, peer: PeerIp) -> bool {
        &&& self.sessions@.contains_key(session_id)
        &&& self.sessions@[session_id].approved
        &&& self.sessions@[session_id].ip == peer
    }

    /// True when the session was approved, for this address.
    pub fn is_granted(&self, session_id: &SessionId, peer: PeerIp) -> (res: bool)
        ensures
            res == self.grants(session_id@, peer),
    {
        match self.sessions.get(session_id.as_str()) {
            Some(session) => session.approved && session.ip == peer,
            None => false,
        }
    }

    /// The answer to an approved browser: the device with downloads on, and the
    /// descriptions of all shared files.
    pub open spec fn answers(
        self,
        device: DeviceInfo,
        session_id: Seq<char>,
        response: PrepareDownloadResponse,
    ) -> bool {
        &&& response.info == (DeviceInfo { download: true, ..device })
        &&& response.session_id@ == session_id
        &&& response.files@ == listing(self.files@)
    }

    fn response(&self, device: &DeviceInfo, session_id: SessionId) -> (res: PrepareDownloadResponse)
        ensures
            res.session_id == session_id,
            self.answers(*device, session_id@, res),
    {
        let mut info = device.clone();
        info.download = true;
        PrepareDownloadResponse { info, session_id, files: list_files(&self.files) }
    }

    /// What a `prepare-download` request does to a share. An approved session
    /// is answered again without a PIN. Otherwise the PIN decides; a request
    /// that passes gets a session, which is approved at once or asked about. The
    /// end on which its answer arrives is joined to the one that the session
    /// keeps.
    pub open spec fn begins(
        self,
        device: DeviceInfo,
        known: Option<Seq<char>>,
        pin: Option<Seq<char>>,
        peer: PeerIp,
        step: PrepareDownloadStep,
        after: WebShareState,
    ) -> bool {
        &&& after.files == self.files
        &&& after.auto_accept == self.auto_accept
        &&& if known is Some && self.grants(known->0, peer) {
            &&& after == self
            &&& step matches PrepareDownloadStep::Files(response) && self.answers(
                device,
                known->0,
                response,
            )
        } else {
            &&& self.pin_gate.checked(pin, peer, after.pin_gate)
            &&& match self.pin_gate.verdict(pin, peer) {
                PinVerdict::Unauthorized => {
                    &&& after.sessions@ == self.sessions@
                    &&& step matches PrepareDownloadStep::Refuse(refusal)
                    &&& refusal.status == Status::Unauthorized
                    &&& refusal.text@ == ""@
                },
                PinVerdict::LockedOut => {
                    &&& after.sessions@ == self.sessions@
                    &&& step matches PrepareDownloadStep::Refuse(refusal)
                    &&& refusal.status == Status::TooManyRequests
                    &&& refusal.text@ == ""@
                },
                PinVerdict::Granted => if self.auto_accept {
                    &&& step matches PrepareDownloadStep::Files(response)
                    &&& drawn(response.session_id.text)
                    &&& uuid_shape(response.session_id@)
                    &&& self.answers(device, response.session_id@, response)
                    &&& after.sessions@ == self.sessions@.insert(
                        response.session_id@,
                        WebShareSession { ip: peer, approved: true, response_tx: None },
                    )
                } else {
                    &&& step matches PrepareDownloadStep::Ask(pending, approval)
                    &&& drawn(pending.session().text)
                    &&& uuid_shape(pending.session()@)
                    &&& pending.address() == peer
                    &&& after.sessions@.contains_key(pending.session()@)
                    &&& after.sessions@ == self.sessions@.insert(
                        pending.session()@,
                        after.sessions@[pending.session()@],
                    )
                    &&& after.sessions@[pending.session()@].ip == peer
                    &&& !after.sessions@[pending.session()@].approved
                    &&& after.sessions@[pending.session()@].response_tx matches Some(tx)
                    &&& joined(tx, approval)
                },
            }
        }
    }

    fn begin(
        &mut self,
        device: &DeviceInfo,
        known: Option<&SessionId>,
        pin: Option<&str>,
        peer: PeerIp,
    ) -> (res: PrepareDownloadStep)
        ensures
            old(self).begins(
                *device,
                match known {
                    Some(id) => Some(id@),
                    None => None,
                },
                opt_view(pin),
                peer,
                res,
                *final(self),
            ),
    {
        match known {
            Some(session_id) => {
                if self.is_granted(session_id, peer) {
                    return PrepareDownloadStep::Files(self.response(device, session_id.clone()));
                }
            },
            None => {},
        }
        match self.pin_gate.check(pin, peer) {
            PinVerdict::Granted => {},
            PinVerdict::Unauthorized => {
                return PrepareDownloadStep::Refuse(
                    WebRefusal { status: Status::Unauthorized, text: "" },
                );
            },
            PinVerdict::LockedOut => {
                return PrepareDownloadStep::Refuse(
                    WebRefusal { status: Status::TooManyRequests, text: "" },
                );
            },
        }
        let session_id = SessionId::new();
        if self.auto_accept {
            self.sessions.insert(
                session_id.text.clone(),
                WebShareSession { ip: peer, approved: true, response_tx: None },
            );
            return PrepareDownloadStep::Files(self.response(device, session_id));
        }
        let (response_tx, response_rx) = oneshot::channel::<bool>();
        assert(joined(response_tx, response_rx));
        self.sessions.insert(
            session_id.text.clone(),
            WebShareSession { ip: peer, approved: false, response_tx: Some(response_tx) },
        );
        PrepareDownloadStep::Ask(PendingWebShareRequest::new(session_id, peer), response_rx)
    }

    /// What the answer to a waiting browser does to the sessions: an approval
    /// marks its session, a refusal takes it out, and where nobody was there to
    /// ask nothing changes.
    pub open spec fn settles(
        self,
        session_id: Seq<char>,
        answer: Option<bool>,
        after: WebShareState,
    ) -> bool {
        &&& after.files == self.files
        &&& after.auto_accept == self.auto_accept
        &&& after.pin_gate == self.pin_gate
        &&& after.sessions@ == (match answer {
            None => self.sessions@,
            Some(false) => self.sessions@.remove(session_id),
            Some(true) => if self.sessions@.contains_key(session_id) {
                self.sessions@.insert(
                    session_id,
                    WebShareSession {
                        ip: self.sessions@[session_id].ip,
                        approved: true,
                        response_tx: None,
                    },
                )
            } else {
                self.sessions@
            },
        })
    }

    fn settle(&mut self, session_id: &SessionId, answer: Option<bool>)
        ensures
            old(self).settles(session_id@, answer, *final(self)),
    {
        match answer {
            None => {},
            Some(accepted) => {
                match self.sessions.remove(session_id.as_str()) {
                    Some(session) => {
                        if accepted {
                            self.sessions.insert(
                                session_id.text.clone(),
                                WebShareSession {
                                    ip: session.ip,
                                    approved: true,
                                    response_tx: None,
                                },
                            );
                            assert(self.sessions@ =~= old(self).sessions@.insert(
                                session_id@,
                                WebShareSession {
                                    ip: session.ip,
                                    approved: true,
                                    response_tx: None,
                                },
                            ));
                        }
                    },
                    None => {
                        assert(self.sessions@ =~= old(self).sessions@);
                    },
                }
            },
        }
    }

    /// The way back to a browser that waits for its answer.
    pub open spec fn responder(self, session_id: Seq<char>) -> Option<oneshot::Sender<bool>> {
        if self.sessions@.contains_key(session_id) {
            self.sessions@[session_id].response_tx
        } else {
            None
        }
    }

    /// True when the only change is that the session no longer waits.
    pub open spec fn answered(self, session_id: Seq<char>, after: WebShareState) -> bool {
        &&& after.files == self.files
        &&& after.auto_accept == self.auto_accept
        &&& after.pin_gate == self.pin_gate
        &&& after.sessions@ == (if self.sessions@.contains_key(session_id) {
            self.sessions@.insert(
                session_id,
                WebShareSession { response_tx: None, ..self.sessions@[session_id] },
            )
        } else {
            self.sessions@
        })
    }

    /// Takes the way back to a waiting browser, which can be answered once.
    pub fn take_responder(&mut self, session_id: &SessionId) -> (res: Option<oneshot::Sender<bool>>)
        ensures
            res == old(self).responder(session_id@),
            old(self).answered(session_id@, *final(self)),
    {
        match self.sessions.remove(session_id.as_str()) {
            Some(session) => {
                let ghost taken = session;
                self.sessions.insert(
                    session_id.text.clone(),
                    WebShareSession {
                        ip: session.ip,
                        approved: session.approved,
                        response_tx: None,
                    },
                );
                assert(self.sessions@ =~= old(self).sessions@.insert(
                    session_id@,
                    WebShareSession { response_tx: None, ..taken },
                ));
                session.response_tx
            },
            None => {
                assert(self.sessions@ =~= old(self).sessions@);
                None
            },
        }
    }
}

impl ServerState {
    /// True when nothing but the share differs.
    pub open spec fn same_but_share(self, other: ServerState) -> bool {
        &&& self.device == other.device
        &&& self.current_session == other.current_session
        &&& self.save_dir == other.save_dir
        &&& self.auto_accept == other.auto_accept
        &&& self.accept_timeout == other.accept_timeout
        &&& self.pin_gate == other.pin_gate
    }

    /// What the first half of `prepare-download` does: 403 without a share,
    /// otherwise what the share says.
    pub open spec fn begins_download(
        self,
        known: Option<Seq<char>>,
        pin: Option<Seq<char>>,
        peer: PeerIp,
        step: PrepareDownloadStep,
        after: ServerState,
    ) -> bool {
        &&& after.same_but_share(self)
        &&& match self.web_share {
            None => {
                &&& after.web_share is None
                &&& step matches PrepareDownloadStep::Refuse(refusal)
                &&& refusal.status == Status::Forbidden
                &&& refusal.text@ == "Web share not initialized"@
            },
            Some(web) => after.web_share matches Some(next) && web.begins(
                self.device,
                known,
                pin,
                peer,
                step,
                next,
            ),
        }
    }

    /// First half of `prepare-download`.
    pub fn begin_prepare_download(
        &mut self,
        known: Option<&SessionId>,
        pin: Option<&str>,
        peer: PeerIp,
    ) -> (res: PrepareDownloadStep)
        ensures
            old(self).begins_download(
                match known {
                    Some(id) => Some(id@),
                    None => None,
                },
                opt_view(pin),
                peer,
                res,
                *final(self),
            ),
    {
        match self.web_share.take() {
            None => PrepareDownloadStep::Refuse(
                WebRefusal { status: Status::Forbidden, text: "Web share not initialized" },
            ),
            Some(web) => {
                let mut web = web;
                let step = web.begin(&self.device, known, pin, peer);
                self.web_share = Some(web);
                step
            },
        }
    }

    /// What the second half of `prepare-download` does with the answer to a
    /// waiting browser. The share may have been stopped meanwhile.
    pub open spec fn finishes_download(
        self,
        session_id: Seq<char>,
        answer: Option<bool>,
        res: Result<PrepareDownloadResponse, WebRefusal>,
        after: ServerState,
    ) -> bool {
        &&& after.same_but_share(self)
        &&& match self.web_share {
            None => {
                &&& after.web_share is None
                &&& res matches Err(refusal)
                &&& refusal.status == Status::Forbidden
                &&& refusal.text@ == ""@
            },
            Some(web) => {
                &&& after.web_share matches Some(next)
                &&& web.settles(session_id, answer, next)
                &&& match answer {
                    None => {
                        &&& res matches Err(refusal)
                        &&& refusal.status == Status::Forbidden
                        &&& refusal.text@ == ""@
                    },
                    Some(false) => {
                        &&& res matches Err(refusal)
                        &&& refusal.status == Status::Forbidden
                        &&& refusal.text@ == "File transfer rejected"@
                    },
                    Some(true) => res matches Ok(response) && web.answers(
                        self.device,
                        session_id,
                        response,
                    ),
                }
            },
        }
    }

    /// Second half of `prepare-download`, once the answer is in: `None` where
    /// nobody listens for requests, `Some(false)` for a refusal, for a request
    /// that was dropped and for one that timed out.
    pub fn finish_prepare_download(&mut self, session_id: &SessionId, answer: Option<bool>) -> (res:
        Result<PrepareDownloadResponse, WebRefusal>)
        ensures
            old(self).finishes_download(session_id@, answer, res, *final(self)),
    {
        match self.web_share.take() {
            None => Err(WebRefusal { status: Status::Forbidden, text: "" }),
            Some(web) => {
                let mut web = web;
                web.settle(session_id, answer);
                let res = match answer {
                    None => Err(WebRefusal { status: Status::Forbidden, text: "" }),
                    Some(accepted) => if accepted {
                        Ok(web.response(&self.device, session_id.clone()))
                    } else {
                        Err(
                            WebRefusal { status: Status::Forbidden, text: "File transfer rejected" },
                        )
                    },
                };
                self.web_share = Some(web);
                res
            },
        }
    }

    /// How a download is admitted: there must be a share, an approved session
    /// for the address, and the file.
    pub open spec fn admits_download(
        self,
        session_id: Seq<char>,
        file_id: Seq<char>,
        peer: PeerIp,
        res: Result<WebShareFile, Status>,
    ) -> bool {
        match self.web_share {
            Some(web) if web.grants(session_id, peer) && web.files@.contains_key(file_id) => res
                == Ok::<WebShareFile, Status>(web.files@[file_id]),
            _ => res == Err::<WebShareFile, Status>(Status::Forbidden),
        }
    }

    /// Admits a download.
    pub fn admit_download(&self, session_id: &SessionId, file_id: &FileId, peer: PeerIp) -> (res:
        Result<&WebShareFile, Status>)
        ensures
            self.admits_download(
                session_id@,
                file_id@,
                peer,
                match res {
                    Ok(file) => Ok(*file),
                    Err(status) => Err(status),
                },
            ),
    {
        match &self.web_share {
            None => Err(Status::Forbidden),
            Some(web) => {
                if !web.is_granted(session_id, peer) {
                    return Err(Status::Forbidden);
                }
                match web.files.get(file_id.as_str()) {
                    Some(file) => Ok(file),
                    None => Err(Status::Forbidden),
                }
            },
        }
    }

    /// The status under which the page of the share and its script are served:
    /// 403 without a share.
    pub fn web_page_status(&self) -> (res: Status)
        ensures
            res == (if self.web_share is Some {
                Status::Success
            } else {
                Status::Forbidden
            }),
    {
        if self.web_share.is_some() {
            Status::Success
        } else {
            Status::Forbidden
        }
    }

    /// The texts of the share's page by their names; 403 without a share.
    pub fn web_texts(&self) -> (res: Result<Vec<(&'static str, &'static str)>, Status>)
        ensures
            match res {
                Ok(texts) => self.web_share is Some && pairs(texts@) == page_texts(),
                Err(status) => self.web_share is None && status == Status::Forbidden,
            },
    {
        if self.web_share.is_none() {
            return Err(Status::Forbidden);
        }
        let mut texts: Vec<(&'static str, &'static str)> = Vec::new();
        texts.push(("waiting", "Waiting for approval…"));
        texts.push(("enterPin", "Enter PIN"));
        texts.push(("invalidPin", "Invalid PIN"));
        texts.push(("tooManyAttempts", "Too many attempts"));
        texts.push(("rejected", "Transfer rejected"));
        texts.push(("files", "Files"));
        texts.push(("fileName", "File name"));
        texts.push(("size", "Size"));
        assert(pairs(texts@) =~= page_texts());
        Ok(texts)
    }
}

/// The texts of the share's page by their names.
pub open spec fn page_texts() -> Seq<(Seq<char>, Seq<char>)> {
    seq![
        ("waiting"@, "Waiting for approval…"@),
        ("enterPin"@, "Enter PIN"@),
        ("invalidPin"@, "Invalid PIN"@),
        ("tooManyAttempts"@, "Too many attempts"@),
        ("rejected"@, "Transfer rejected"@),
        ("files"@, "Files"@),
        ("fileName"@, "File name"@),
        ("size"@, "Size"@),
    ]
}

/// Pairs of texts as pairs of characters.
pub open spec fn pairs(texts: Seq<(&'static str, &'static str)>) -> Seq<(Seq<char>, Seq<char>)> {
    texts.map_values(|t: (&'static str, &'static str)| (t.0@, t.1@))
}

} // verus!
