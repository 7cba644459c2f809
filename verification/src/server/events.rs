//! What the server tells its consumer, and how the consumer answers.

use crate::id_map::IdMap;
use crate::outside::{handed, joined};
use crate::protocol::{DeviceInfo, FileId, FileMetadata, PeerIp, SessionId};
use std::path::PathBuf;
use tokio::sync::oneshot;
use vstd::prelude::*;

verus! {

/// Events emitted by the server.
#[derive(Debug)]
pub enum ServerEvent {
    /// A sender wants to transfer files. Answer through the [`PendingRequest`];
    /// dropping it, or ignoring it past the accept timeout, declines.
    TransferRequest(PendingRequest),
    /// A text message, accepted from its inline preview. It is never written to
    /// disk by itself.
    TextReceived { session_id: SessionId, text: String, sender_alias: String },
    /// One file finished writing to disk.
    FileReceived {
        session_id: SessionId,
        file_id: FileId,
        file_name: String,
        path: PathBuf,
        size: u64,
        sender_alias: String,
        /// Text messages come as `TextReceived`; a file carries none.
        message_text: Option<String>,
    },
    /// All accepted files of a session arrived, or the session was cancelled.
    SessionDone { session_id: SessionId },
    /// A browser wants to download the shared files.
    WebShareRequest(PendingWebShareRequest),
    /// Bytes of a shared file that went to a browser.
    WebShareDownloadProgress {
        session_id: SessionId,
        file_id: FileId,
        bytes_sent: u64,
        total_bytes: u64,
    },
    /// A browser got its file.
    WebShareSessionDone { session_id: SessionId },
}

/// The consumer's answer to a transfer request.
#[derive(Debug, Clone, PartialEq)]
pub enum TransferDecision {
    Accept,
    AcceptFiles(Vec<FileId>),
    Decline,
}

/// An answer on its way to the sender that waits for it.
#[derive(Debug)]
#[must_use]
pub struct DecisionReply {
    pub decision: TransferDecision,
    pub responder: oneshot::Sender<TransferDecision>,
}

impl DecisionReply {
    /// Hands the decision to the waiting request, and returns what came of it.
    /// Where the sender already timed out the decision comes back, and nothing
    /// else happens. Whether it is still waiting is up to the task that asked.
    pub fn deliver(self) -> (res: Result<(), TransferDecision>)
        ensures
            handed(self.responder, self.decision, res),
            res matches Err(back) ==> back == self.decision,
    {
        self.responder.send(self.decision)
    }
}

/// True when `decision` was handed to `channel`. Whether it was still awaited is
/// left open.
pub open spec fn answered(
    channel: oneshot::Sender<TransferDecision>,
    decision: TransferDecision,
) -> bool {
    exists|sent: Result<(), TransferDecision>| #[trigger] handed(channel, decision, sent)
}

/// Handle to answer an incoming `prepare-upload`. It is consumed by the answer.
#[derive(Debug)]
pub struct PendingRequest {
    sender: DeviceInfo,
    files: IdMap<FileMetadata>,
    responder: oneshot::Sender<TransferDecision>,
}

impl PendingRequest {
    /// The device that asks.
    pub closed spec fn from(self) -> DeviceInfo {
        self.sender
    }

    /// The files that it offers.
    pub closed spec fn offered(self) -> IdMap<FileMetadata> {
        self.files
    }

    /// The way back to the waiting request.
    pub closed spec fn channel(self) -> oneshot::Sender<TransferDecision> {
        self.responder
    }

    /// A request, and the end on which its answer arrives.
    pub fn new(sender: DeviceInfo, files: IdMap<FileMetadata>) -> (res: (
        Self,
        oneshot::Receiver<TransferDecision>,
    ))
        ensures
            res.0.from() == sender,
            res.0.offered() == files,
            joined(res.0.channel(), res.1),
    {
        let (responder, receiver) = oneshot::channel::<TransferDecision>();
        assert(joined(responder, receiver));
        (PendingRequest { sender, files, responder }, receiver)
    }

    /// The device that asks.
    pub fn sender(&self) -> (res: &DeviceInfo)
        ensures
            *res == self.from(),
    {
        &self.sender
    }

    /// The files that it offers.
    pub fn files(&self) -> (res: &IdMap<FileMetadata>)
        ensures
            *res == self.offered(),
    {
        &self.files
    }

    /// Makes the answer `decision` ready.
    pub fn answer(self, decision: TransferDecision) -> (res: DecisionReply)
        ensures
            res.decision == decision,
            res.responder == self.channel(),
    {
        DecisionReply { decision, responder: self.responder }
    }

    /// Accepts every offered file. Where the sender already timed out nothing
    /// happens.
    pub fn accept(self)
        ensures
            answered(self.channel(), TransferDecision::Accept),
    {
        let sent = self.responder.send(TransferDecision::Accept);
        assert(handed(self.channel(), TransferDecision::Accept, sent));
    }

    /// Accepts some of the offered files; none of them is a refusal.
    pub fn accept_files(self, ids: Vec<FileId>)
        ensures
            answered(self.channel(), TransferDecision::AcceptFiles(ids)),
    {
        let sent = self.responder.send(TransferDecision::AcceptFiles(ids));
        assert(handed(self.channel(), TransferDecision::AcceptFiles(ids), sent));
    }

    /// Refuses the transfer.
    pub fn decline(self)
        ensures
            answered(self.channel(), TransferDecision::Decline),
    {
        let sent = self.responder.send(TransferDecision::Decline);
        assert(handed(self.channel(), TransferDecision::Decline, sent));
    }
}

/// A browser that waits for approval.
#[derive(Debug)]
pub struct PendingWebShareRequest {
    session_id: SessionId,
    ip: PeerIp,
}

impl PendingWebShareRequest {
    /// The session that waits.
    pub closed spec fn session(self) -> SessionId {
        self.session_id
    }

    /// The address of the browser.
    pub closed spec fn address(self) -> PeerIp {
        self.ip
    }

    /// A request of the browser at `ip`.
    pub fn new(session_id: SessionId, ip: PeerIp) -> (res: Self)
        ensures
            res.session() == session_id,
            res.address() == ip,
    {
        PendingWebShareRequest { session_id, ip }
    }

    /// The session that waits.
    pub fn session_id(&self) -> (res: &SessionId)
        ensures
            *res == self.session(),
    {
        &self.session_id
    }

    /// The address of the browser.
    pub fn ip(&self) -> (res: PeerIp)
        ensures
            res == self.address(),
    {
        self.ip
    }
}

/// The decisions that mean a refusal of everything that was offered: a refusal,
/// and no answer at all (the request was dropped, or the time is over).
pub open spec fn settled(answer: Option<TransferDecision>) -> TransferDecision {
    match answer {
        Some(decision) => decision,
        None => TransferDecision::Decline,
    }
}

/// The offered files that a decision accepts.
pub open spec fn chosen(
    decision: TransferDecision,
    offered: Map<Seq<char>, FileMetadata>,
) -> Set<Seq<char>> {
    match decision {
        TransferDecision::Accept => offered.dom(),
        TransferDecision::AcceptFiles(ids) => Set::new(
            |k: Seq<char>| offered.contains_key(k) && exists|i: int|
                0 <= i < ids@.len() && (#[trigger] ids@[i])@ == k,
        ),
        TransferDecision::Decline => Set::empty(),
    }
}

/// True when the decision accepts the file `id`, if it was offered.
pub fn decision_covers(decision: &TransferDecision, id: &str) -> (res: bool)
    ensures
        forall|offered: Map<Seq<char>, FileMetadata>|
            #![trigger chosen(*decision, offered)]
            offered.contains_key(id@) ==> res == chosen(*decision, offered).contains(id@),
{
    match decision {
        TransferDecision::Accept => true,
        TransferDecision::Decline => false,
        TransferDecision::AcceptFiles(ids) => {
            let mut i: usize = 0;
            while i < ids.len()
                invariant
                    i <= ids.len(),
                    decision matches TransferDecision::AcceptFiles(v) && v == *ids,
                    forall|j: int| 0 <= j < i ==> (#[trigger] ids@[j])@ != id@,
                decreases ids.len() - i,
            {
                if crate::text::same_text(ids[i].as_str(), id) {
                    assert(ids@[i as int]@ == id@);
                    return true;
                }
                i = i + 1;
            }
            false
        },
    }
}

} // verus!
