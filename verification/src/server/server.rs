//! The server as its owner sees it, and how it is set up.

use crate::error::LocalSendError;
use crate::outside::{
    draw_uuid, drawn, handed, linked, path, path_from, seconds, uuid_shape, whole_seconds,
};
use crate::protocol::{
    clone_text, DeviceInfo, DeviceType, Protocol, SessionId, TlsCertificate, DEFAULT_HTTP_PORT,
    PROTOCOL_VERSION,
};
use crate::server::events::ServerEvent;
use crate::server::pin::PinGate;
use crate::server::state::ServerState;
use crate::server::web_share::{by_id, WebShareFile, WebShareSession, WebShareState};
use crate::text::{decimal, decimal_text, opt_text};
use std::path::PathBuf;
use std::time::Duration;
use tokio::sync::{mpsc, oneshot};
use vstd::prelude::*;
use vstd::string::*;

verus! {

/// How many events wait for the owner before a sender has to wait.
pub const EVENT_BUFFER: usize = 64;

/// A server: its identity, its settings and, once it listens, its state.
#[derive(Debug)]
pub struct LocalSendServer {
    pub device: DeviceInfo,
    pub save_dir: PathBuf,
    pub https: bool,
    pub tls_cert: Option<TlsCertificate>,
    pub auto_accept: bool,
    pub accept_timeout: Duration,
    /// The end on which the events arrive, until the owner takes it.
    pub events_rx: Option<mpsc::Receiver<ServerEvent>>,
    /// The PIN that senders must present.
    pub pin: Option<String>,
    pub state: Option<ServerState>,
}

/// True when `error` reports a call at the wrong time, in these words.
pub open spec fn wrong_time(error: LocalSendError, words: Seq<char>) -> bool {
    error matches LocalSendError::InvalidState { message } && message@ == words
}

impl LocalSendServer {
    /// The running state shares the identity and the auto-accept setting.
    pub open spec fn wf(self) -> bool {
        self.state matches Some(state) ==> {
            &&& state.device == self.device
            &&& state.auto_accept == self.auto_accept
            &&& state.wf()
        }
    }

    /// True when the servers differ at most in their device and their state.
    pub open spec fn same_settings(self, other: LocalSendServer) -> bool {
        &&& self.save_dir == other.save_dir
        &&& self.https == other.https
        &&& self.tls_cert == other.tls_cert
        &&& self.auto_accept == other.auto_accept
        &&& self.accept_timeout == other.accept_timeout
        &&& self.events_rx == other.events_rx
        &&& self.pin == other.pin
    }

    /// True for a state in which nothing has happened yet.
    pub open spec fn starts_with(self, state: ServerState) -> bool {
        &&& state.device == self.device
        &&& state.current_session is None
        &&& state.save_dir == self.save_dir
        &&& state.auto_accept == self.auto_accept
        &&& state.accept_timeout == self.accept_timeout
        &&& state.pin_gate.expected() == opt_text(self.pin)
        &&& forall|ip: crate::protocol::PeerIp| #[trigger] state.pin_gate.failures_of(ip) == 0
        &&& state.web_share is None
    }

    /// A server that does not listen yet.
    pub fn from_parts(
        device: DeviceInfo,
        save_dir: PathBuf,
        https: bool,
        pin: Option<String>,
        auto_accept: bool,
        accept_timeout: Duration,
    ) -> (res: Self)
        ensures
            res == (LocalSendServer {
                device,
                save_dir,
                https,
                tls_cert: None,
                auto_accept,
                accept_timeout,
                events_rx: None,
                pin,
                state: None,
            }),
    {
        LocalSendServer {
            device,
            save_dir,
            https,
            tls_cert: None,
            auto_accept,
            accept_timeout,
            events_rx: None,
            pin,
            state: None,
        }
    }

    /// The port: the one that was asked for, and once the server listens the
    /// one that it got.
    pub fn port(&self) -> (res: u16)
        ensures
            res == self.device.port,
    {
        self.device.port
    }

    /// The identity that is announced.
    pub fn device(&self) -> (res: &DeviceInfo)
        ensures
            *res == self.device,
    {
        &self.device
    }

    /// The settings to start from.
    pub fn builder() -> (res: LocalSendServerBuilder)
        ensures
            res.alias@ == "LocalSend-Rust"@,
            res.port == DEFAULT_HTTP_PORT,
            res.save_dir == path_from("./downloads"@),
            res.protocol == Protocol::Http,
            res.pin is None,
            !res.auto_accept,
            res.accept_timeout == whole_seconds(60),
            res.tls_certificate is None,
    {
        LocalSendServerBuilder {
            alias: "LocalSend-Rust".to_owned(),
            port: DEFAULT_HTTP_PORT,
            save_dir: path("./downloads"),
            protocol: Protocol::Http,
            pin: None,
            auto_accept: false,
            accept_timeout: seconds(60),
            tls_certificate: None,
        }
    }

    /// What the start of the events does: the owner can take one end of a new
    /// channel, and the other is `sender`.
    pub open spec fn announces_on(
        self,
        sender: mpsc::Sender<ServerEvent>,
        after: LocalSendServer,
    ) -> bool {
        exists|receiver: mpsc::Receiver<ServerEvent>| #[trigger]
            linked(EVENT_BUFFER, sender, receiver) && after == (LocalSendServer {
                events_rx: Some(receiver),
                ..self
            })
    }

    /// Makes the channel for the events, and returns the end on which they are
    /// sent. The other end is there for the owner to take.
    pub fn open_events(&mut self) -> (res: mpsc::Sender<ServerEvent>)
        ensures
            old(self).announces_on(res, *final(self)),
            old(self).wf() ==> final(self).wf(),
    {
        let (sender, receiver) = mpsc::channel::<ServerEvent>(EVENT_BUFFER);
        assert(linked(EVENT_BUFFER, sender, receiver));
        self.events_rx = Some(receiver);
        sender
    }

    /// What it means to take the events: whoever takes them first gets them,
    /// and nothing else changes.
    pub open spec fn gives_events(
        self,
        res: Option<mpsc::Receiver<ServerEvent>>,
        after: LocalSendServer,
    ) -> bool {
        &&& res == self.events_rx
        &&& after == (LocalSendServer { events_rx: None, ..self })
    }

    /// Takes the events. They are there once after each start.
    pub fn take_events(&mut self) -> (res: Option<mpsc::Receiver<ServerEvent>>)
        ensures
            old(self).gives_events(res, *final(self)),
            old(self).wf() ==> final(self).wf(),
    {
        self.events_rx.take()
    }

    /// What the toggle of auto-accept does: the setting and the running state
    /// change together, and nothing else does.
    pub open spec fn toggles(self, yes: bool, after: LocalSendServer) -> bool {
        after == (LocalSendServer {
            auto_accept: yes,
            state: match self.state {
                Some(state) => Some(ServerState { auto_accept: yes, ..state }),
                None => None,
            },
            ..self
        })
    }

    /// Sets auto-accept. It holds for the requests that arrive afterwards, also
    /// on a running server.
    pub fn set_auto_accept(&mut self, yes: bool)
        ensures
            old(self).toggles(yes, *final(self)),
            old(self).wf() ==> final(self).wf(),
    {
        self.auto_accept = yes;
        match self.state.take() {
            Some(state) => {
                let mut state = state;
                state.auto_accept = yes;
                self.state = Some(state);
            },
            None => {},
        }
    }

    /// The auto-accept setting.
    pub fn auto_accept(&self) -> (res: bool)
        ensures
            res == self.auto_accept,
    {
        self.auto_accept
    }

    /// Sets the certificate that the server presents.
    pub fn set_tls_certificate(&mut self, cert: TlsCertificate)
        ensures
            *final(self) == (LocalSendServer { tls_cert: Some(cert), ..*old(self) }),
    {
        self.tls_cert = Some(cert);
    }

    /// True when a certificate is needed and none is set.
    pub fn needs_certificate(&self) -> (res: bool)
        ensures
            res == (self.https && self.tls_cert is None),
    {
        self.https && self.tls_cert.is_none()
    }

    /// The address to listen on: the port on every interface.
    pub fn listen_address(&self) -> (res: String)
        ensures
            res@ == "0.0.0.0:"@ + decimal(self.device.port as nat),
    {
        "0.0.0.0:".to_owned().concat(decimal_text(self.device.port as u64).as_str())
    }

    /// What it means to listen on `port`: the device has that port, and the
    /// state is a new one.
    pub open spec fn starts(self, port: u16, after: LocalSendServer) -> bool {
        &&& after.same_settings(self)
        &&& after.device == (DeviceInfo { port, ..self.device })
        &&& after.state matches Some(state) && after.starts_with(state)
    }

    /// Notes that the server listens on `bound_port`, and starts with a new
    /// state.
    pub fn started(&mut self, bound_port: u16)
        ensures
            old(self).starts(bound_port, *final(self)),
            final(self).wf(),
    {
        self.device.port = bound_port;
        self.state = Some(
            ServerState {
                device: self.device.clone(),
                current_session: None,
                save_dir: self.save_dir.clone(),
                auto_accept: self.auto_accept,
                accept_timeout: self.accept_timeout,
                pin_gate: PinGate::new(clone_text(&self.pin)),
                web_share: None,
            },
        );
    }

    /// What the start of a share does. It takes at least one file and a
    /// running server; then the share replaces any other, and the device
    /// announces it.
    pub open spec fn shares(
        self,
        files: Seq<WebShareFile>,
        pin: Option<Seq<char>>,
        auto_accept: bool,
        res: Result<(), LocalSendError>,
        after: LocalSendServer,
    ) -> bool {
        if files.len() == 0 {
            &&& after == self
            &&& res matches Err(e) && wrong_time(e, "Web share requires at least one file"@)
        } else {
            match self.state {
                None => {
                    &&& after == self
                    &&& res matches Err(e) && wrong_time(e, "Server is not running"@)
                },
                Some(state) => {
                    &&& res is Ok
                    &&& after.same_settings(self)
                    &&& after.device == (DeviceInfo { download: true, ..self.device })
                    &&& after.state matches Some(next)
                    &&& next.web_share matches Some(web)
                    &&& next == (ServerState {
                        device: DeviceInfo { download: true, ..state.device },
                        web_share: Some(web),
                        ..state
                    })
                    &&& web.files@ == by_id(files)
                    &&& web.sessions@ == Map::<Seq<char>, WebShareSession>::empty()
                    &&& web.auto_accept == auto_accept
                    &&& web.pin_gate.expected() == pin
                    &&& forall|ip: crate::protocol::PeerIp| #[trigger]
                        web.pin_gate.failures_of(ip) == 0
                },
            }
        }
    }

    /// Starts a share of `files`.
    pub fn start_web_share(
        &mut self,
        files: Vec<WebShareFile>,
        pin: Option<String>,
        auto_accept: bool,
    ) -> (res: Result<(), LocalSendError>)
        ensures
            old(self).shares(files@, opt_text(pin), auto_accept, res, *final(self)),
            old(self).wf() ==> final(self).wf(),
    {
        if files.len() == 0 {
            return Err(LocalSendError::invalid_state("Web share requires at least one file"));
        }
        match self.state.take() {
            None => Err(LocalSendError::invalid_state("Server is not running")),
            Some(state) => {
                let mut state = state;
                state.web_share = Some(WebShareState::new(files, pin, auto_accept));
                state.device.download = true;
                self.state = Some(state);
                self.device.download = true;
                Ok(())
            },
        }
    }

    /// What the end of a share does on a running server: there is none any
    /// more, and the device no longer announces one.
    pub open spec fn unshares(self, res: Result<(), LocalSendError>, after: LocalSendServer) -> bool {
        match self.state {
            None => {
                &&& after == self
                &&& res matches Err(e) && wrong_time(e, "Server is not running"@)
            },
            Some(state) => {
                &&& res is Ok
                &&& after == (LocalSendServer {
                    device: DeviceInfo { download: false, ..self.device },
                    state: Some(
                        ServerState {
                            device: DeviceInfo { download: false, ..state.device },
                            web_share: None,
                            ..state
                        },
                    ),
                    ..self
                })
            },
        }
    }

    /// Stops the share.
    pub fn stop_web_share(&mut self) -> (res: Result<(), LocalSendError>)
        ensures
            old(self).unshares(res, *final(self)),
            old(self).wf() ==> final(self).wf(),
    {
        match self.state.take() {
            None => Err(LocalSendError::invalid_state("Server is not running")),
            Some(state) => {
                let mut state = state;
                state.web_share = None;
                state.device.download = false;
                self.state = Some(state);
                self.device.download = false;
                Ok(())
            },
        }
    }

    /// The way back to the browser that waits under `session_id`.
    pub open spec fn waiting(self, session_id: Seq<char>) -> Option<oneshot::Sender<bool>> {
        match self.state {
            Some(state) => match state.web_share {
                Some(web) => web.responder(session_id),
                None => None,
            },
            None => None,
        }
    }

    /// True when the only change is that nobody waits under `session_id`.
    pub open spec fn no_longer_waits(self, session_id: Seq<char>, after: LocalSendServer) -> bool {
        match self.state {
            None => after == self,
            Some(state) => match state.web_share {
                None => after == self,
                Some(web) => {
                    &&& after.state matches Some(next)
                    &&& next.web_share matches Some(share)
                    &&& after == (LocalSendServer { state: Some(next), ..self })
                    &&& next == (ServerState { web_share: Some(share), ..state })
                    &&& web.answered(session_id, share)
                },
            },
        }
    }

    /// Makes the answer to a waiting browser ready. A browser can be answered
    /// once: from then on nobody waits under `session_id`.
    pub fn prepare_reply(&mut self, session_id: &SessionId, accepted: bool) -> (res: Result<
        WebShareReply,
        LocalSendError,
    >)
        ensures
            old(self).no_longer_waits(session_id@, *final(self)),
            old(self).wf() ==> final(self).wf(),
            match res {
                Ok(reply) => reply.accepted == accepted && old(self).waiting(session_id@) == Some(
                    reply.responder,
                ),
                Err(e) => old(self).waiting(session_id@) is None && wrong_time(
                    e,
                    if old(self).state is None {
                        "Server is not running"@
                    } else {
                        "Unknown or already answered Web Share request"@
                    },
                ),
            },
    {
        match self.state.take() {
            None => Err(LocalSendError::invalid_state("Server is not running")),
            Some(state) => {
                let mut state = state;
                let taken = match state.web_share.take() {
                    None => None,
                    Some(web) => {
                        let mut web = web;
                        let taken = web.take_responder(session_id);
                        state.web_share = Some(web);
                        taken
                    },
                };
                self.state = Some(state);
                match taken {
                    Some(responder) => Ok(WebShareReply { accepted, responder }),
                    None => Err(
                        LocalSendError::invalid_state(
                            "Unknown or already answered Web Share request",
                        ),
                    ),
                }
            },
        }
    }

    /// What an answer does: where nobody waits under `session_id`, it is an
    /// error. Otherwise it is handed to whoever waits, who waits no longer, and
    /// what came of it is told.
    pub open spec fn responds(
        self,
        session_id: Seq<char>,
        accepted: bool,
        res: Result<(), LocalSendError>,
        after: LocalSendServer,
    ) -> bool {
        &&& self.no_longer_waits(session_id, after)
        &&& match self.waiting(session_id) {
            Some(responder) => WebShareReply::delivers(responder, accepted, res),
            None => res matches Err(e) && wrong_time(
                e,
                if self.state is None {
                    "Server is not running"@
                } else {
                    "Unknown or already answered Web Share request"@
                },
            ),
        }
    }

    /// Answers a waiting browser. Whether it is still there is known only when
    /// the answer is sent.
    pub fn respond_web_share(&mut self, session_id: &SessionId, accepted: bool) -> (res: Result<
        (),
        LocalSendError,
    >)
        ensures
            old(self).responds(session_id@, accepted, res, *final(self)),
            old(self).wf() ==> final(self).wf(),
    {
        match self.prepare_reply(session_id, accepted) {
            Ok(reply) => reply.deliver(),
            Err(e) => Err(e),
        }
    }
}

/// An answer on its way to a browser that waits for it.
#[derive(Debug)]
#[must_use]
pub struct WebShareReply {
    pub accepted: bool,
    pub responder: oneshot::Sender<bool>,
}

impl WebShareReply {
    /// What the owner is told of an answer: success once it is on its way, and
    /// otherwise that the browser is gone.
    pub open spec fn tells(sent: Result<(), bool>, res: Result<(), LocalSendError>) -> bool {
        match sent {
            Ok(_) => res is Ok,
            Err(_) => res matches Err(e) && wrong_time(e, "Web Share requester disconnected"@),
        }
    }

    /// True when `accepted` was handed to `responder`, and `res` tells what came
    /// of it.
    pub open spec fn delivers(
        responder: oneshot::Sender<bool>,
        accepted: bool,
        res: Result<(), LocalSendError>,
    ) -> bool {
        exists|sent: Result<(), bool>| #[trigger]
            handed(responder, accepted, sent) && Self::tells(sent, res)
    }

    /// What the owner is told of an answer; `sent` is an error where the
    /// browser is gone.
    pub fn outcome(sent: Result<(), bool>) -> (res: Result<(), LocalSendError>)
        ensures
            Self::tells(sent, res),
    {
        match sent {
            Ok(_) => Ok(()),
            Err(_) => Err(LocalSendError::invalid_state("Web Share requester disconnected")),
        }
    }

    /// Hands the answer to the waiting browser, and tells what came of it.
    /// Whether the browser is still there is up to the task that waits.
    pub fn deliver(self) -> (res: Result<(), LocalSendError>)
        ensures
            Self::delivers(self.responder, self.accepted, res),
    {
        let sent = self.responder.send(self.accepted);
        assert(handed(self.responder, self.accepted, sent));
        Self::outcome(sent)
    }
}

/// The settings of a server that is to be built. Port 0 asks for any free
/// port.
#[derive(Debug)]
pub struct LocalSendServerBuilder {
    pub alias: String,
    pub port: u16,
    pub save_dir: PathBuf,
    pub protocol: Protocol,
    pub pin: Option<String>,
    pub auto_accept: bool,
    pub accept_timeout: Duration,
    pub tls_certificate: Option<TlsCertificate>,
}

impl LocalSendServerBuilder {
    /// Sets the name that peers see.
    pub fn alias(self, alias: String) -> (res: Self)
        ensures
            res == (LocalSendServerBuilder { alias, ..self }),
    {
        let mut built = self;
        built.alias = alias;
        built
    }

    /// Sets the port.
    pub fn port(self, port: u16) -> (res: Self)
        ensures
            res == (LocalSendServerBuilder { port, ..self }),
    {
        let mut built = self;
        built.port = port;
        built
    }

    /// Sets the directory for received files.
    pub fn save_dir(self, dir: PathBuf) -> (res: Self)
        ensures
            res == (LocalSendServerBuilder { save_dir: dir, ..self }),
    {
        let mut built = self;
        built.save_dir = dir;
        built
    }

    /// Sets the protocol.
    pub fn protocol(self, protocol: Protocol) -> (res: Self)
        ensures
            res == (LocalSendServerBuilder { protocol, ..self }),
    {
        let mut built = self;
        built.protocol = protocol;
        built
    }

    /// Asks senders for a PIN.
    pub fn pin(self, pin: String) -> (res: Self)
        ensures
            res == (LocalSendServerBuilder { pin: Some(pin), ..self }),
    {
        let mut built = self;
        built.pin = Some(pin);
        built
    }

    /// Accepts every transfer without asking, or asks.
    pub fn auto_accept(self, yes: bool) -> (res: Self)
        ensures
            res == (LocalSendServerBuilder { auto_accept: yes, ..self }),
    {
        let mut built = self;
        built.auto_accept = yes;
        built
    }

    /// Sets how long a transfer waits for its answer.
    pub fn accept_timeout(self, d: Duration) -> (res: Self)
        ensures
            res == (LocalSendServerBuilder { accept_timeout: d, ..self }),
    {
        let mut built = self;
        built.accept_timeout = d;
        built
    }

    /// Sets the certificate to present.
    pub fn tls_certificate(self, certificate: TlsCertificate) -> (res: Self)
        ensures
            res == (LocalSendServerBuilder { tls_certificate: Some(certificate), ..self }),
    {
        let mut built = self;
        built.tls_certificate = Some(certificate);
        built
    }

    /// True when a certificate has to be made for the server.
    pub open spec fn lacks_certificate(self) -> bool {
        self.protocol == Protocol::Https && self.tls_certificate is None
    }

    /// True when a certificate has to be made for the server.
    pub fn needs_certificate(&self) -> (res: bool)
        ensures
            res == self.lacks_certificate(),
    {
        match self.protocol {
            Protocol::Https => self.tls_certificate.is_none(),
            Protocol::Http => false,
        }
    }

    /// The certificate that the server presents: over HTTPS the one that was
    /// set, or else the one that was made; none over HTTP.
    pub open spec fn certificate(self, made: Option<TlsCertificate>) -> Option<TlsCertificate> {
        match self.protocol {
            Protocol::Http => None,
            Protocol::Https => match self.tls_certificate {
                Some(set) => Some(set),
                None => made,
            },
        }
    }

    /// True for the server that these settings make. Over HTTPS its identity
    /// is the fingerprint of the certificate, over HTTP the given one.
    pub open spec fn builds(
        self,
        made: Option<TlsCertificate>,
        identity: Seq<char>,
        device_model: String,
        device_type: DeviceType,
        server: LocalSendServer,
    ) -> bool {
        &&& server.device.alias == self.alias
        &&& server.device.version@ == PROTOCOL_VERSION@
        &&& server.device.device_model == Some(device_model)
        &&& server.device.device_type == Some(device_type)
        &&& server.device.fingerprint@ == (match self.certificate(made) {
            Some(certificate) => certificate.fingerprint@,
            None => identity,
        })
        &&& server.device.port == self.port
        &&& server.device.protocol == self.protocol
        &&& !server.device.download
        &&& server.device.ip is None
        &&& server.save_dir == self.save_dir
        &&& server.https == (self.protocol == Protocol::Https)
        &&& server.tls_cert == self.certificate(made)
        &&& server.auto_accept == self.auto_accept
        &&& server.accept_timeout == self.accept_timeout
        &&& server.events_rx is None
        &&& server.pin == self.pin
        &&& server.state is None
    }

    /// Builds the server, with `identity` as its fingerprint over HTTP. A
    /// certificate is handed in where one had to be made.
    pub fn build_as(
        self,
        made: Option<TlsCertificate>,
        identity: String,
        device_model: String,
        device_type: DeviceType,
    ) -> (res: LocalSendServer)
        requires
            self.lacks_certificate() ==> made is Some,
        ensures
            self.builds(made, identity@, device_model, device_type, res),
            res.wf(),
    {
        let https = match self.protocol {
            Protocol::Https => true,
            Protocol::Http => false,
        };
        let certificate = if https {
            match self.tls_certificate {
                Some(set) => Some(set),
                None => made,
            }
        } else {
            None
        };
        let fingerprint = match &certificate {
            Some(cert) => cert.fingerprint.clone(),
            None => identity,
        };
        let device = DeviceInfo {
            alias: self.alias,
            version: PROTOCOL_VERSION.to_owned(),
            device_model: Some(device_model),
            device_type: Some(device_type),
            fingerprint,
            port: self.port,
            protocol: self.protocol,
            download: false,
            ip: None,
        };
        let mut server = LocalSendServer::from_parts(
            device,
            self.save_dir,
            https,
            self.pin,
            self.auto_accept,
            self.accept_timeout,
        );
        match certificate {
            Some(cert) => server.set_tls_certificate(cert),
            None => {},
        }
        server
    }

    /// Builds the server, with a random fingerprint over HTTP.
    pub fn build(
        self,
        made: Option<TlsCertificate>,
        device_model: String,
        device_type: DeviceType,
    ) -> (res: LocalSendServer)
        requires
            self.lacks_certificate() ==> made is Some,
        ensures
            exists|identity: String| #[trigger]
                drawn(identity) && uuid_shape(identity@) && self.builds(
                    made,
                    identity@,
                    device_model,
                    device_type,
                    res,
                ),
            res.wf(),
    {
        let identity = draw_uuid();
        self.build_as(made, identity, device_model, device_type)
    }
}

} // verus!
