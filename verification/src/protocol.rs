//! The data that peers exchange.

use crate::id_map::IdMap;
use crate::outside::{draw_uuid, drawn, uuid_shape};
use crate::text::{decimal, decimal_text};
use std::path::PathBuf;
use vstd::prelude::*;
use vstd::string::*;

verus! {

/// The port that peers listen on unless told otherwise.
pub const DEFAULT_HTTP_PORT: u16 = 53317;

/// The version of the protocol that this peer speaks.
pub const PROTOCOL_VERSION: &'static str = "2.1";

/// How a peer is reached.
#[derive(Debug, Clone, Copy, PartialEq, Eq, Structural)]
pub enum Protocol {
    Http,
    Https,
}

impl Protocol {
    /// The scheme of the peer's URLs.
    pub open spec fn scheme_text(self) -> Seq<char> {
        match self {
            Protocol::Http => "http"@,
            Protocol::Https => "https"@,
        }
    }

    /// The scheme of the peer's URLs.
    pub fn scheme(self) -> (res: &'static str)
        ensures
            res@ == self.scheme_text(),
    {
        match self {
            Protocol::Http => "http",
            Protocol::Https => "https",
        }
    }
}

/// What kind of device a peer is.
#[derive(Debug, Clone, Copy, PartialEq, Eq, Structural)]
pub enum DeviceType {
    Mobile,
    Desktop,
    Web,
    Headless,
    Server,
}

/// The address of a peer, as it is seen on the connection.
#[derive(Debug, Clone, Copy, PartialEq, Eq, Structural)]
pub enum PeerIp {
    V4(u32),
    V6(u128),
}

/// The name of an offered file, unique within its session.
#[derive(Debug, PartialEq, Eq, Hash)]
pub struct FileId {
    pub text: String,
}

/// The name of a session.
#[derive(Debug, PartialEq, Eq, Hash)]
pub struct SessionId {
    pub text: String,
}

/// The secret that allows the upload of one file.
#[derive(Debug, PartialEq, Eq, Hash)]
pub struct Token {
    pub text: String,
}

impl View for FileId {
    type V = Seq<char>;

    open spec fn view(&self) -> Seq<char> {
        self.text@
    }
}

impl View for SessionId {
    type V = Seq<char>;

    open spec fn view(&self) -> Seq<char> {
        self.text@
    }
}

impl View for Token {
    type V = Seq<char>;

    open spec fn view(&self) -> Seq<char> {
        self.text@
    }
}

impl Clone for FileId {
    fn clone(&self) -> (res: Self)
        ensures
            res == *self,
    {
        FileId { text: self.text.clone() }
    }
}

impl Clone for SessionId {
    fn clone(&self) -> (res: Self)
        ensures
            res == *self,
    {
        SessionId { text: self.text.clone() }
    }
}

impl Clone for Token {
    fn clone(&self) -> (res: Self)
        ensures
            res == *self,
    {
        Token { text: self.text.clone() }
    }
}

impl FileId {
    /// A random identifier.
    pub fn new() -> (res: Self)
        ensures
            drawn(res.text),
            uuid_shape(res@),
    {
        FileId { text: draw_uuid() }
    }

    /// The identifier with the given text.
    pub fn from_string(text: String) -> (res: Self)
        ensures
            res.text == text,
    {
        FileId { text }
    }

    /// The identifier as text.
    pub fn as_str(&self) -> (res: &str)
        ensures
            res@ == self@,
    {
        self.text.as_str()
    }
}

impl SessionId {
    /// A random identifier.
    pub fn new() -> (res: Self)
        ensures
            drawn(res.text),
            uuid_shape(res@),
    {
        SessionId { text: draw_uuid() }
    }

    /// The identifier with the given text.
    pub fn from_string(text: String) -> (res: Self)
        ensures
            res.text == text,
    {
        SessionId { text }
    }

    /// The identifier as text.
    pub fn as_str(&self) -> (res: &str)
        ensures
            res@ == self@,
    {
        self.text.as_str()
    }

    /// True for the identifier without characters, which stands for no session.
    pub fn is_empty(&self) -> (res: bool)
        ensures
            res == (self@.len() == 0),
    {
        self.text.as_str().is_empty()
    }
}

impl Token {
    /// A random token.
    pub fn new() -> (res: Self)
        ensures
            drawn(res.text),
            uuid_shape(res@),
    {
        Token { text: draw_uuid() }
    }

    /// The token with the given text.
    pub fn from_string(text: String) -> (res: Self)
        ensures
            res.text == text,
    {
        Token { text }
    }

    /// The token as text.
    pub fn as_str(&self) -> (res: &str)
        ensures
            res@ == self@,
    {
        self.text.as_str()
    }
}

/// Clones an optional text.
pub fn clone_text(text: &Option<String>) -> (res: Option<String>)
    ensures
        res == *text,
{
    match text {
        Some(t) => Some(t.clone()),
        None => None,
    }
}

/// A peer as it announces itself.
#[derive(Debug)]
pub struct DeviceInfo {
    pub alias: String,
    pub version: String,
    pub device_model: Option<String>,
    pub device_type: Option<DeviceType>,
    pub fingerprint: String,
    pub port: u16,
    pub protocol: Protocol,
    pub download: bool,
    pub ip: Option<String>,
}

impl Clone for DeviceInfo {
    fn clone(&self) -> (res: Self)
        ensures
            res == *self,
    {
        DeviceInfo {
            alias: self.alias.clone(),
            version: self.version.clone(),
            device_model: clone_text(&self.device_model),
            device_type: self.device_type,
            fingerprint: self.fingerprint.clone(),
            port: self.port,
            protocol: self.protocol,
            download: self.download,
            ip: clone_text(&self.ip),
        }
    }
}

impl DeviceInfo {
    /// A device with a random fingerprint and no address yet.
    pub fn new(alias: String, port: u16, protocol: Protocol) -> (res: Self)
        ensures
            res.alias == alias,
            res.version@ == PROTOCOL_VERSION@,
            res.device_model is None,
            res.device_type == Some(DeviceType::Desktop),
            drawn(res.fingerprint),
            uuid_shape(res.fingerprint@),
            res.port == port,
            res.protocol == protocol,
            !res.download,
            res.ip is None,
    {
        DeviceInfo {
            alias,
            version: PROTOCOL_VERSION.to_owned(),
            device_model: None,
            device_type: Some(DeviceType::Desktop),
            fingerprint: draw_uuid(),
            port,
            protocol,
            download: false,
            ip: None,
        }
    }
}

/// The times of a file, as the sender tells them.
#[derive(Debug)]
pub struct FileTimes {
    pub modified: Option<String>,
    pub accessed: Option<String>,
}

/// An offered file.
#[derive(Debug)]
pub struct FileMetadata {
    pub id: FileId,
    pub file_name: String,
    pub size: u64,
    pub file_type: String,
    pub sha256: Option<String>,
    pub preview: Option<String>,
    pub metadata: Option<FileTimes>,
}

impl Clone for FileTimes {
    fn clone(&self) -> (res: Self)
        ensures
            res == *self,
    {
        FileTimes { modified: clone_text(&self.modified), accessed: clone_text(&self.accessed) }
    }
}

impl Clone for FileMetadata {
    fn clone(&self) -> (res: Self)
        ensures
            res == *self,
    {
        FileMetadata {
            id: self.id.clone(),
            file_name: self.file_name.clone(),
            size: self.size,
            file_type: self.file_type.clone(),
            sha256: clone_text(&self.sha256),
            preview: clone_text(&self.preview),
            metadata: match &self.metadata {
                Some(times) => Some(times.clone()),
                None => None,
            },
        }
    }
}

/// The body of a `prepare-upload` request: who sends, and what.
#[derive(Debug)]
pub struct PrepareUploadRequest {
    pub info: DeviceInfo,
    pub files: IdMap<FileMetadata>,
}

/// The answer to it: the session, and a token for each accepted file.
#[derive(Debug)]
pub struct PrepareUploadResponse {
    pub session_id: SessionId,
    pub files: IdMap<Token>,
}

/// A row of the inbox.
#[derive(Debug)]
pub struct ReceivedFile {
    pub file_name: String,
    pub size: u64,
    pub sender: String,
    pub time: String,
    pub path: PathBuf,
    pub message_text: Option<String>,
}

/// A certificate with its private key and its SHA-256 fingerprint.
#[derive(Debug)]
pub struct TlsCertificate {
    pub cert_pem: String,
    pub key_pem: String,
    pub fingerprint: String,
}

impl Clone for TlsCertificate {
    fn clone(&self) -> (res: Self)
        ensures
            res == *self,
    {
        TlsCertificate {
            cert_pem: self.cert_pem.clone(),
            key_pem: self.key_pem.clone(),
            fingerprint: self.fingerprint.clone(),
        }
    }
}

/// The answers of the HTTP interface.
#[derive(Debug, Clone, Copy, PartialEq, Eq, Structural)]
pub enum Status {
    Success,
    NoContent,
    BadRequest,
    Unauthorized,
    Forbidden,
    NotFound,
    Conflict,
    TooManyRequests,
    InternalServerError,
}

impl Status {
    /// The number of the status on the wire.
    pub open spec fn number(self) -> u16 {
        match self {
            Status::Success => 200,
            Status::NoContent => 204,
            Status::BadRequest => 400,
            Status::Unauthorized => 401,
            Status::Forbidden => 403,
            Status::NotFound => 404,
            Status::Conflict => 409,
            Status::TooManyRequests => 429,
            Status::InternalServerError => 500,
        }
    }

    /// The number of the status on the wire.
    pub fn code(self) -> (res: u16)
        ensures
            res == self.number(),
    {
        match self {
            Status::Success => 200,
            Status::NoContent => 204,
            Status::BadRequest => 400,
            Status::Unauthorized => 401,
            Status::Forbidden => 403,
            Status::NotFound => 404,
            Status::Conflict => 409,
            Status::TooManyRequests => 429,
            Status::InternalServerError => 500,
        }
    }
}

/// `scheme://ip:port`.
pub open spec fn origin(protocol: Protocol, ip: Seq<char>, port: u16) -> Seq<char> {
    protocol.scheme_text() + "://"@ + ip + ":"@ + decimal(port as nat)
}

/// `scheme://ip:port`.
pub fn origin_text(protocol: Protocol, ip: &str, port: u16) -> (res: String)
    ensures
        res@ == origin(protocol, ip@, port),
{
    protocol.scheme().to_owned().concat("://").concat(ip).concat(":").concat(
        decimal_text(port as u64).as_str(),
    )
}

} // verus!
