//! Sends that run in the background, and how they report.

use crate::error::LocalSendError;
use crate::id_map::IdMap;
use crate::outside::{guess_mime, guessed_mime};
use crate::protocol::{DeviceInfo, FileId, FileMetadata, PrepareUploadResponse, Token};
use crate::text::opt_text;
use std::path::PathBuf;
use vstd::prelude::*;
use vstd::string::*;
use vstd::utf8::encode_utf8;

verus! {

/// Which send flow a background task belongs to, so that its result updates the
/// right screen.
#[derive(Debug, Clone, Copy, PartialEq, Eq, Structural)]
pub enum SendKind {
    File,
    Text,
}

/// What a send in the background reports.
#[derive(Debug)]
pub enum SendUpdate {
    /// The bytes that are sent so far.
    Progress { generation: u64, sent: u64, total: u64 },
    /// The send is over; `error` holds the reason of a failure.
    Finished { generation: u64, kind: SendKind, label: String, error: Option<String> },
    /// The receiver asks for a PIN. The user is asked for one, and the same send
    /// is tried again with it.
    NeedsPin { generation: u64, kind: SendKind },
}

/// What is sent.
#[derive(Debug)]
pub enum Payload {
    Text { message: String },
    File { path: PathBuf, label: String },
}

/// A send that is to be run in the background.
#[derive(Debug)]
pub struct SendJob {
    pub generation: u64,
    pub device: DeviceInfo,
    pub target: DeviceInfo,
    pub pin: Option<String>,
    pub payload: Payload,
}

/// A path that is to be looked at before its file is sent.
#[derive(Debug)]
pub struct FileProbe {
    pub target: DeviceInfo,
    pub path: PathBuf,
    pub pin: Option<String>,
}

/// What is sent, as characters.
#[verifier::ext_equal]
pub enum PayloadView {
    Text(Seq<char>),
    File(PathBuf, Seq<char>),
}

/// A send that is to be run.
#[verifier::ext_equal]
pub struct JobView {
    pub generation: u64,
    pub device: DeviceInfo,
    pub target: DeviceInfo,
    pub pin: Option<Seq<char>>,
    pub payload: PayloadView,
}

impl View for SendJob {
    type V = JobView;

    open spec fn view(&self) -> JobView {
        JobView {
            generation: self.generation,
            device: self.device,
            target: self.target,
            pin: opt_text(self.pin),
            payload: match self.payload {
                Payload::Text { message } => PayloadView::Text(message@),
                Payload::File { path, label } => PayloadView::File(path, label@),
            },
        }
    }
}

impl SendUpdate {
    /// The attempt that the report comes from.
    pub open spec fn attempt(self) -> u64 {
        match self {
            SendUpdate::Progress { generation, sent, total } => generation,
            SendUpdate::Finished { generation, kind, label, error } => generation,
            SendUpdate::NeedsPin { generation, kind } => generation,
        }
    }
}

/// What the result of a send reports: a receiver that asks for a PIN, or the
/// end of the send with the reason of a failure.
pub open spec fn reports(
    generation: u64,
    kind: SendKind,
    label: String,
    result: Result<(), LocalSendError>,
    update: SendUpdate,
) -> bool {
    match result {
        Ok(_) => update == (SendUpdate::Finished { generation, kind, label, error: None }),
        Err(LocalSendError::InvalidPin) => update == (SendUpdate::NeedsPin { generation, kind }),
        Err(e) => update matches SendUpdate::Finished {
            generation: g,
            kind: k,
            label: l,
            error: Some(reason),
        } && g == generation && k == kind && l == label && reason@ == e.reason(),
    }
}

/// Classifies a finished send: a plain success or failure, or a request for a
/// PIN.
pub fn send_update_from_result(
    generation: u64,
    kind: SendKind,
    label: String,
    result: Result<(), LocalSendError>,
) -> (res: SendUpdate)
    ensures
        reports(generation, kind, label, result, res),
{
    match result {
        Ok(_) => SendUpdate::Finished { generation, kind, label, error: None },
        Err(e) => match e {
            LocalSendError::InvalidPin => SendUpdate::NeedsPin { generation, kind },
            _ => {
                let reason = e.message();
                SendUpdate::Finished { generation, kind, label, error: Some(reason) }
            },
        },
    }
}

/// True for the offer of a text message: a small text file whose preview is
/// the whole message. Its size is that of the text in UTF-8.
pub open spec fn offers_text(metadata: FileMetadata, message: Seq<char>) -> bool {
    &&& metadata.file_name@ == "message.txt"@
    &&& metadata.size == encode_utf8(message).len()
    &&& metadata.file_type@ == "text/plain"@
    &&& metadata.sha256 is None
    &&& metadata.preview matches Some(preview) && preview@ == message
    &&& metadata.metadata is None
}

/// The offer of a text message.
pub fn text_offer(id: FileId, message: &str) -> (res: FileMetadata)
    ensures
        res.id == id,
        offers_text(res, message@),
{
    FileMetadata {
        id,
        file_name: "message.txt".to_owned(),
        size: message.as_bytes().len() as u64,
        file_type: "text/plain".to_owned(),
        sha256: None,
        preview: Some(message.to_owned()),
        metadata: None,
    }
}

/// The offer of a file on disk: its media type is guessed from its name.
pub fn file_offer(id: FileId, file_name: String, size: u64, sha256: Option<String>) -> (res:
    FileMetadata)
    ensures
        res.id == id,
        res.file_name == file_name,
        res.size == size,
        res.file_type@ == guessed_mime(file_name@),
        res.sha256 == sha256,
        res.preview is None,
        res.metadata is None,
{
    let file_type = guess_mime(file_name.as_str());
    FileMetadata { id, file_name, size, file_type, sha256, preview: None, metadata: None }
}

/// One file by its identifier.
pub open spec fn only(metadata: FileMetadata) -> Map<Seq<char>, FileMetadata> {
    Map::empty().insert(metadata.id@, metadata)
}

/// The offer of one file.
pub fn single_offer(metadata: &FileMetadata) -> (res: IdMap<FileMetadata>)
    ensures
        res@ == only(*metadata),
{
    let mut files: IdMap<FileMetadata> = IdMap::new();
    files.insert(metadata.id.text.clone(), metadata.clone());
    files
}

/// The token to upload a text message with, if it has to be uploaded. A
/// receiver that needs no more than the preview opens no session.
pub open spec fn text_token(response: PrepareUploadResponse, id: Seq<char>) -> Option<Token> {
    if response.session_id@.len() > 0 && response.files@.contains_key(id) {
        Some(response.files@[id])
    } else {
        None
    }
}

/// What is left to do for a text message once the receiver has answered.
pub fn text_upload(response: &PrepareUploadResponse, id: &FileId) -> (res: Option<Token>)
    ensures
        res == text_token(*response, id@),
{
    if response.session_id.is_empty() {
        return None;
    }
    match response.files.get(id.as_str()) {
        Some(token) => Some(token.clone()),
        None => None,
    }
}

/// The token to upload a file with. A receiver that issued none declined the
/// file.
pub fn file_upload(response: &PrepareUploadResponse, id: &FileId) -> (res: Result<
    Token,
    LocalSendError,
>)
    ensures
        match res {
            Ok(token) => response.files@.contains_key(id@) && token == response.files@[id@],
            Err(e) => {
                &&& !response.files@.contains_key(id@)
                &&& e matches LocalSendError::Other { message }
                &&& message@ == "receiver declined the file (no upload token was issued)"@
            },
        },
{
    match response.files.get(id.as_str()) {
        Some(token) => Ok(token.clone()),
        None => Err(
            LocalSendError::other("receiver declined the file (no upload token was issued)"),
        ),
    }
}

} // verus!
