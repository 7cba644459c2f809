//! The `receive` command: a server on the command line.

use crate::outside::{reads_as, shown, whole_seconds};
use crate::protocol::{clone_text, Protocol};
use crate::server::events::{answered, PendingRequest, ServerEvent, TransferDecision};
use crate::server::server::{LocalSendServer, LocalSendServerBuilder};
use crate::text::{decimal, decimal_text, opt_text};
use std::path::PathBuf;
use vstd::prelude::*;
use vstd::string::*;

verus! {

/// The arguments of the command.
#[derive(Debug)]
pub struct ReceiveCommand {
    pub directory: PathBuf,
    pub port: u16,
    pub pin: Option<String>,
    pub auto_accept: bool,
    /// Plain HTTP instead of HTTPS, for peers that speak nothing else.
    pub no_https: bool,
}

/// What is left to do about an event, besides telling of it.
#[derive(Debug)]
pub enum ReceiveAction {
    Nothing,
    /// Ask the user, then go on with [`confirmed`].
    Confirm(PendingRequest),
}

/// A text if it is to be said.
pub open spec fn said(line: Seq<char>, when: bool) -> Seq<Seq<char>> {
    if when {
        seq![line]
    } else {
        Seq::empty()
    }
}

/// The lines as sequences of characters.
pub open spec fn lines(list: Seq<String>) -> Seq<Seq<char>> {
    list.map_values(|line: String| line@)
}

impl ReceiveCommand {
    /// The protocol that the server speaks: HTTPS unless it was turned off.
    pub open spec fn chosen_protocol(self) -> Protocol {
        if self.no_https {
            Protocol::Http
        } else {
            Protocol::Https
        }
    }

    /// The protocol that the server speaks.
    pub fn protocol(&self) -> (res: Protocol)
        ensures
            res == self.chosen_protocol(),
    {
        if self.no_https {
            Protocol::Http
        } else {
            Protocol::Https
        }
    }

    /// The lines that tell of the start; `directory` is the text of the
    /// directory, and `created` says that it is new.
    pub open spec fn opening(self, directory: Seq<char>, created: bool) -> Seq<Seq<char>> {
        said("Created download directory: "@ + directory, created) + seq![
            "Starting LocalSend server on port "@ + decimal(self.port as nat),
            "Save directory: "@ + directory,
        ] + (match self.pin {
            Some(pin) => seq!["PIN required: "@ + pin@],
            None => Seq::empty(),
        }) + said(
            "Auto-accept mode ENABLED - files will be accepted without confirmation!"@,
            self.auto_accept,
        ) + seq![
            "Transport: "@ + (if self.no_https {
                "HTTP"@
            } else {
                "HTTPS"@
            }),
        ]
    }

    /// The lines that tell of the start; `directory` is the text of the
    /// directory.
    pub fn banner_as(&self, directory: &str, created: bool) -> (res: Vec<String>)
        ensures
            lines(res@) == self.opening(directory@, created),
    {
        let mut out: Vec<String> = Vec::new();
        if created {
            out.push("Created download directory: ".to_owned().concat(directory));
        }
        out.push(
            "Starting LocalSend server on port ".to_owned().concat(
                decimal_text(self.port as u64).as_str(),
            ),
        );
        out.push("Save directory: ".to_owned().concat(directory));
        match &self.pin {
            Some(pin) => {
                out.push("PIN required: ".to_owned().concat(pin.as_str()));
            },
            None => {},
        }
        if self.auto_accept {
            out.push(
                "Auto-accept mode ENABLED - files will be accepted without confirmation!".to_owned(),
            );
        }
        let transport = if self.no_https {
            "HTTP"
        } else {
            "HTTPS"
        };
        out.push("Transport: ".to_owned().concat(transport));
        assert(lines(out@) =~= self.opening(directory@, created));
        out
    }

    /// The lines that tell of the start; `created` says that the directory is
    /// new.
    pub fn banner(&self, created: bool) -> (res: Vec<String>)
        ensures
            exists|text: String| #[trigger]
                reads_as(self.directory, text) && lines(res@) == self.opening(text@, created),
    {
        let text = shown(&self.directory);
        self.banner_as(text.as_str(), created)
    }

    /// The server that the arguments ask for.
    pub fn server_builder(&self) -> (res: LocalSendServerBuilder)
        ensures
            res.alias@ == "LocalSend-Rust"@,
            res.port == self.port,
            res.save_dir == self.directory,
            res.protocol == self.chosen_protocol(),
            res.pin == self.pin,
            res.auto_accept == self.auto_accept,
            res.accept_timeout == whole_seconds(60),
            res.tls_certificate is None,
    {
        let builder = LocalSendServer::builder().alias("LocalSend-Rust".to_owned()).port(
            self.port,
        ).save_dir(self.directory.clone()).protocol(self.protocol()).auto_accept(self.auto_accept);
        match clone_text(&self.pin) {
            Some(pin) => builder.pin(pin),
            None => builder,
        }
    }
}

/// What is told of an event. `path` is the text of the path of a received file.
pub open spec fn told(event: ServerEvent, path: Seq<char>) -> Option<Seq<char>> {
    match event {
        ServerEvent::TransferRequest(request) => Some(
            "Incoming transfer from '"@ + request.from().alias@ + "' ("@ + decimal(
                request.offered()@.dom().len(),
            ) + " file(s))"@,
        ),
        ServerEvent::TextReceived { session_id, text, sender_alias } => Some(
            "Message from "@ + sender_alias@ + ": "@ + text@,
        ),
        ServerEvent::FileReceived {
            session_id,
            file_id,
            file_name,
            path: _,
            size,
            sender_alias,
            message_text,
        } => Some(
            "Received '"@ + file_name@ + "' ("@ + decimal(size as nat) + " bytes) from "@
                + sender_alias@ + " -> "@ + path,
        ),
        ServerEvent::SessionDone { session_id } => Some(
            "Session "@ + session_id@ + " complete"@,
        ),
        _ => None,
    }
}

/// What is told of an event. `path` is the text of the path of a received file.
pub fn event_line_as(event: &ServerEvent, path: &str) -> (res: Option<String>)
    ensures
        opt_text(res) == told(*event, path@),
{
    match event {
        ServerEvent::TransferRequest(request) => {
            let n = request.files().len();
            Some(
                "Incoming transfer from '".to_owned().concat(
                    request.sender().alias.as_str(),
                ).concat("' (").concat(decimal_text(n as u64).as_str()).concat(" file(s))"),
            )
        },
        ServerEvent::TextReceived { session_id: _, text, sender_alias } => Some(
            "Message from ".to_owned().concat(sender_alias.as_str()).concat(": ").concat(
                text.as_str(),
            ),
        ),
        ServerEvent::FileReceived {
            session_id: _,
            file_id: _,
            file_name,
            path: _,
            size,
            sender_alias,
            message_text: _,
        } => Some(
            "Received '".to_owned().concat(file_name.as_str()).concat("' (").concat(
                decimal_text(*size).as_str(),
            ).concat(" bytes) from ").concat(sender_alias.as_str()).concat(" -> ").concat(path),
        ),
        ServerEvent::SessionDone { session_id } => Some(
            "Session ".to_owned().concat(session_id.as_str()).concat(" complete"),
        ),
        _ => None,
    }
}

/// What is told of an event; a received file is told with its path.
pub fn event_line(event: &ServerEvent) -> (res: Option<String>)
    ensures
        event matches ServerEvent::FileReceived { path, .. } ==> exists|text: String| #[trigger]
            reads_as(*path, text) && opt_text(res) == told(*event, text@),
        !(event is FileReceived) ==> forall|text: Seq<char>|
            opt_text(res) == #[trigger] told(*event, text),
{
    match event {
        ServerEvent::FileReceived { path, .. } => {
            let text = shown(path);
            event_line_as(event, text.as_str())
        },
        _ => event_line_as(event, ""),
    }
}

/// Deals with an event: a transfer is accepted at once or is to be asked about,
/// and nothing else needs an answer.
pub fn event_action(event: ServerEvent, auto_accept: bool) -> (res: ReceiveAction)
    ensures
        match event {
            ServerEvent::TransferRequest(request) => if auto_accept {
                res is Nothing && answered(request.channel(), TransferDecision::Accept)
            } else {
                res == ReceiveAction::Confirm(request)
            },
            _ => res is Nothing,
        },
{
    match event {
        ServerEvent::TransferRequest(request) => {
            if auto_accept {
                request.accept();
                ReceiveAction::Nothing
            } else {
                ReceiveAction::Confirm(request)
            }
        },
        _ => ReceiveAction::Nothing,
    }
}

/// Answers a transfer that the user was asked about; `answer` is absent where
/// the user could not be asked, which declines.
pub fn confirmed(request: PendingRequest, answer: Option<bool>)
    ensures
        answered(
            request.channel(),
            if answer == Some(true) {
                TransferDecision::Accept
            } else {
                TransferDecision::Decline
            },
        ),
{
    match answer {
        Some(accept) => {
            if accept {
                request.accept();
            } else {
                request.decline();
            }
        },
        None => request.decline(),
    }
}

} // verus!
