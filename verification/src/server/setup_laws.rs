//! What becomes of the settings of a server.

use crate::client::client::LocalSendClient;
use crate::client::wire_laws::{leads_to_place, law_requests_go_to_the_peer};
use crate::error::LocalSendError;
use crate::outside::{drawn, linked, path_from, whole_seconds};
use crate::protocol::{
    DeviceInfo, DeviceType, FileId, Protocol, SessionId, TlsCertificate, Token,
};
use crate::server::events::ServerEvent;
use crate::server::server::{LocalSendServer, LocalSendServerBuilder};
use crate::server::state::ServerState;
use crate::text_laws::{lemma_decimal_is_a_numeral, numeral};
use std::path::PathBuf;
use std::time::Duration;
use tokio::sync::mpsc;
use vstd::prelude::*;

verus! {

/// What a server is when nothing else is said: on the default port, over plain
/// HTTP, without a PIN, asking before it accepts, for a minute.
pub proof fn law_defaults(builder: LocalSendServerBuilder)
    requires
        call_ensures(LocalSendServer::builder, (), builder),
    ensures
        builder.alias@ == "LocalSend-Rust"@,
        builder.port == 53317,
        builder.save_dir == path_from("./downloads"@),
        builder.protocol == Protocol::Http,
        builder.pin is None,
        !builder.auto_accept,
        builder.accept_timeout == whole_seconds(60),
        builder.tls_certificate is None,
{
}

/// What is set is kept, and nothing else changes with it.
pub proof fn law_settings_are_kept(
    builder: LocalSendServerBuilder,
    alias: String,
    port: u16,
    dir: PathBuf,
    protocol: Protocol,
    pin: String,
    yes: bool,
    wait: Duration,
    certificate: TlsCertificate,
    built: Seq<LocalSendServerBuilder>,
)
    requires
        call_ensures(LocalSendServerBuilder::alias, (builder, alias), built[0]),
        call_ensures(LocalSendServerBuilder::port, (built[0], port), built[1]),
        call_ensures(LocalSendServerBuilder::save_dir, (built[1], dir), built[2]),
        call_ensures(LocalSendServerBuilder::protocol, (built[2], protocol), built[3]),
        call_ensures(LocalSendServerBuilder::pin, (built[3], pin), built[4]),
        call_ensures(LocalSendServerBuilder::auto_accept, (built[4], yes), built[5]),
        call_ensures(LocalSendServerBuilder::accept_timeout, (built[5], wait), built[6]),
        call_ensures(LocalSendServerBuilder::tls_certificate, (built[6], certificate), built[7]),
    ensures
        built[0] == (LocalSendServerBuilder { alias, ..builder }),
        built[1] == (LocalSendServerBuilder { port, ..built[0] }),
        built[2] == (LocalSendServerBuilder { save_dir: dir, ..built[1] }),
        built[3] == (LocalSendServerBuilder { protocol, ..built[2] }),
        built[4] == (LocalSendServerBuilder { pin: Some(pin), ..built[3] }),
        built[5] == (LocalSendServerBuilder { auto_accept: yes, ..built[4] }),
        built[6] == (LocalSendServerBuilder { accept_timeout: wait, ..built[5] }),
        built[7] == (LocalSendServerBuilder {
            alias,
            port,
            save_dir: dir,
            protocol,
            pin: Some(pin),
            auto_accept: yes,
            accept_timeout: wait,
            tls_certificate: Some(certificate),
        }),
{
}

/// A server is what its settings say. Over HTTPS it shows the certificate that
/// was set, or else the one that was made for it, and that one's fingerprint is
/// its identity; over HTTP it shows none and goes by the given identity. A
/// certificate has to be made exactly where HTTPS is asked for and none is set.
/// It does not listen yet.
pub proof fn law_servers_are_what_was_set(
    builder: LocalSendServerBuilder,
    made: Option<TlsCertificate>,
    identity: String,
    model: String,
    kind: DeviceType,
    needed: bool,
    server: LocalSendServer,
    still_needed: bool,
)
    requires
        call_ensures(LocalSendServerBuilder::needs_certificate, (&builder,), needed),
        needed ==> made is Some,
        call_ensures(
            LocalSendServerBuilder::build_as,
            (builder, made, identity, model, kind),
            server,
        ),
        call_ensures(LocalSendServer::needs_certificate, (&server,), still_needed),
    ensures
        needed <==> builder.protocol == Protocol::Https && builder.tls_certificate is None,
        !still_needed,
        server.device.alias == builder.alias,
        server.device.version@ == "2.1"@,
        server.device.device_model == Some(model),
        server.device.device_type == Some(kind),
        server.device.port == builder.port,
        server.device.protocol == builder.protocol,
        !server.device.download,
        server.device.ip is None,
        server.save_dir == builder.save_dir,
        server.https <==> builder.protocol == Protocol::Https,
        server.auto_accept == builder.auto_accept,
        server.accept_timeout == builder.accept_timeout,
        server.pin == builder.pin,
        server.state is None,
        server.events_rx is None,
        builder.protocol == Protocol::Http ==> server.tls_cert is None && server.device.fingerprint@
            == identity@,
        builder.protocol == Protocol::Https && builder.tls_certificate is Some ==> server.tls_cert
            == builder.tls_certificate && server.device.fingerprint@
            == builder.tls_certificate->0.fingerprint@,
        builder.protocol == Protocol::Https && builder.tls_certificate is None ==> server.tls_cert
            == made && server.device.fingerprint@ == made->0.fingerprint@,
{
}

/// Over plain HTTP a server goes by an identity that was drawn for it.
pub proof fn law_plain_servers_have_a_drawn_identity(
    builder: LocalSendServerBuilder,
    made: Option<TlsCertificate>,
    model: String,
    kind: DeviceType,
    server: LocalSendServer,
)
    requires
        call_ensures(LocalSendServerBuilder::build, (builder, made, model, kind), server),
        builder.protocol == Protocol::Https ==> builder.tls_certificate is Some || made is Some,
    ensures
        builder.protocol == Protocol::Http ==> exists|identity: String| #[trigger]
            drawn(identity) && server.device.fingerprint@ == identity@,
        builder.protocol == Protocol::Https ==> server.tls_cert is Some
            && server.device.fingerprint@ == server.tls_cert->0.fingerprint@,
        server.device.alias == builder.alias,
        server.device.port == builder.port,
        server.device.protocol == builder.protocol,
        server.https <==> builder.protocol == Protocol::Https,
        server.pin == builder.pin,
        server.auto_accept == builder.auto_accept,
        server.save_dir == builder.save_dir,
        server.accept_timeout == builder.accept_timeout,
        server.state is None,
{
}

/// A server starts with nothing: it announces the port that it got, and its
/// state has its own settings, no session, no share and no events yet taken.
/// Everything else stays as it was set.
pub proof fn law_servers_start_with_nothing(server: &mut LocalSendServer, port: u16)
    requires
        call_ensures(LocalSendServer::started, (server, port), ()),
    ensures
        *final(server) == (LocalSendServer {
            device: DeviceInfo { port, ..old(server).device },
            state: final(server).state,
            ..*old(server)
        }),
        final(server).state matches Some(state) && {
            &&& state.device == final(server).device
            &&& state.current_session is None
            &&& state.web_share is None
            &&& state.save_dir == old(server).save_dir
            &&& state.auto_accept == old(server).auto_accept
            &&& state.accept_timeout == old(server).accept_timeout
        },
{
}

/// The address to listen on is every interface, and the port that was asked for.
pub proof fn law_servers_listen_on_their_port(
    server: LocalSendServer,
    address: String,
    port: u16,
    device: &DeviceInfo,
    auto: bool,
)
    requires
        call_ensures(LocalSendServer::listen_address, (&server,), address),
        call_ensures(LocalSendServer::port, (&server,), port),
        call_ensures(LocalSendServer::device, (&server,), device),
        call_ensures(LocalSendServer::auto_accept, (&server,), auto),
    ensures
        exists|digits: Seq<char>| #[trigger]
            numeral(digits, server.device.port as int) && address@ == "0.0.0.0:"@ + digits,
        port == server.device.port,
        *device == server.device,
        auto == server.auto_accept,
{
    lemma_decimal_is_a_numeral(server.device.port as nat);
    assert(numeral(crate::text::decimal(server.device.port as nat), server.device.port as int));
}

/// A server is reached where it listens: whoever learns of it, and where it is,
/// asks it over the protocol that it serves and on the port that it got.
pub proof fn law_servers_are_reached_where_they_listen(
    builder: LocalSendServerBuilder,
    made: Option<TlsCertificate>,
    identity: String,
    model: String,
    kind: DeviceType,
    server: LocalSendServer,
    running: &mut LocalSendServer,
    port: u16,
    device: &DeviceInfo,
    address: String,
    pin: Option<&str>,
    session_id: SessionId,
    file_id: FileId,
    token: Token,
    register: Result<String, LocalSendError>,
    offer: Result<String, LocalSendError>,
    upload: Result<String, LocalSendError>,
)
    requires
        builder.protocol == Protocol::Https ==> builder.tls_certificate is Some || made is Some,
        call_ensures(
            LocalSendServerBuilder::build_as,
            (builder, made, identity, model, kind),
            server,
        ),
        *old(running) == server,
        call_ensures(LocalSendServer::started, (running, port), ()),
        call_ensures(LocalSendServer::device, (&*final(running),), device),
        ({
            let target = DeviceInfo { ip: Some(address), ..*device };
            &&& call_ensures(LocalSendClient::register_url, (&target,), register)
            &&& call_ensures(LocalSendClient::prepare_upload_url, (&target, pin), offer)
            &&& call_ensures(
                LocalSendClient::upload_url,
                (&target, &session_id, &file_id, &token),
                upload,
            )
        }),
    ensures
        register is Ok && leads_to_place(
            register->Ok_0@,
            if final(running).https {
                Protocol::Https
            } else {
                Protocol::Http
            },
            address@,
            port,
            "/api/localsend/v2/register"@,
        ),
        final(running).https == (builder.protocol == Protocol::Https),
        offer is Ok,
        upload is Ok,
{
    let target = DeviceInfo { ip: Some(address), ..*device };
    law_requests_go_to_the_peer(
        target,
        pin,
        session_id,
        file_id,
        token,
        register,
        offer,
        upload,
    );
}

/// Auto-accept is set for the server and for what runs, and nothing else changes
/// with it; a certificate is set and nothing else changes.
pub proof fn law_settings_of_a_running_server(
    server: &mut LocalSendServer,
    yes: bool,
    other: &mut LocalSendServer,
    certificate: TlsCertificate,
)
    requires
        call_ensures(LocalSendServer::set_auto_accept, (server, yes), ()),
        call_ensures(LocalSendServer::set_tls_certificate, (other, certificate), ()),
    ensures
        final(server).auto_accept == yes,
        old(server).state is Some ==> final(server).state is Some
            && final(server).state->0.auto_accept == yes,
        *final(server) == (LocalSendServer {
            auto_accept: yes,
            state: if old(server).state is Some {
                Some(ServerState { auto_accept: yes, ..old(server).state->0 })
            } else {
                None
            },
            ..*old(server)
        }),
        *final(other) == (LocalSendServer { tls_cert: Some(certificate), ..*old(other) }),
{
}

/// The events of a start can be taken once: the first to ask gets the end of the
/// channel whose other end sends them, and the next gets nothing.
pub proof fn law_events_go_to_the_first_who_asks(
    server: &mut LocalSendServer,
    sender: mpsc::Sender<ServerEvent>,
    first: &mut LocalSendServer,
    got: Option<mpsc::Receiver<ServerEvent>>,
    second: &mut LocalSendServer,
    left: Option<mpsc::Receiver<ServerEvent>>,
)
    requires
        call_ensures(LocalSendServer::open_events, (server,), sender),
        old(first).events_rx == final(server).events_rx,
        call_ensures(LocalSendServer::take_events, (first,), got),
        old(second).events_rx == final(first).events_rx,
        call_ensures(LocalSendServer::take_events, (second,), left),
    ensures
        got is Some && linked(64, sender, got->0),
        left is None,
        *final(first) == (LocalSendServer { events_rx: None, ..*old(first) }),
        *final(server) == (LocalSendServer {
            events_rx: final(server).events_rx,
            ..*old(server)
        }),
{
}

/// A server made of its parts has them, and has not started.
pub proof fn law_servers_have_their_parts(
    device: DeviceInfo,
    save_dir: PathBuf,
    https: bool,
    pin: Option<String>,
    auto_accept: bool,
    accept_timeout: Duration,
    server: LocalSendServer,
)
    requires
        call_ensures(
            LocalSendServer::from_parts,
            (device, save_dir, https, pin, auto_accept, accept_timeout),
            server,
        ),
    ensures
        server.device == device,
        server.save_dir == save_dir,
        server.https == https,
        server.pin == pin,
        server.auto_accept == auto_accept,
        server.accept_timeout == accept_timeout,
        server.tls_cert is None && server.events_rx is None && server.state is None,
{
}

} // verus!
