//! What the `receive` command tells, asks and answers.

use crate::cli::receive::{
    confirmed, event_action, event_line, event_line_as, lines, told, ReceiveAction, ReceiveCommand,
};
use crate::id_map::IdMap;
use crate::outside::{reads_as, whole_seconds};
use crate::protocol::{DeviceInfo, FileMetadata, Protocol};
use crate::server::events::{answered, PendingRequest, ServerEvent, TransferDecision};
use crate::server::server::LocalSendServerBuilder;
use crate::text_laws::{lemma_decimal_is_a_numeral, numeral};
use vstd::prelude::*;

verus! {

/// The server of the command is what its arguments say: its directory, its port
/// and its PIN, over HTTPS unless that was turned off, and accepting without a
/// question only where that was asked for.
pub proof fn law_the_command_sets_its_server_up(
    command: ReceiveCommand,
    protocol: Protocol,
    builder: LocalSendServerBuilder,
)
    requires
        call_ensures(ReceiveCommand::protocol, (&command,), protocol),
        call_ensures(ReceiveCommand::server_builder, (&command,), builder),
    ensures
        protocol == Protocol::Http <==> command.no_https,
        builder.protocol == protocol,
        builder.alias@ == "LocalSend-Rust"@,
        builder.port == command.port,
        builder.save_dir == command.directory,
        builder.pin == command.pin,
        builder.auto_accept == command.auto_accept,
        builder.accept_timeout == whole_seconds(60),
        builder.tls_certificate is None,
{
}

/// True when these lines tell of the start: a new directory, the port, the
/// directory, the PIN where there is one, a warning where nobody will be asked,
/// and the transport.
pub open spec fn tells_the_start(
    res: Seq<String>,
    command: ReceiveCommand,
    directory: Seq<char>,
    created: bool,
) -> bool {
    let a = if created {
        1int
    } else {
        0
    };
    let b = a + 2 + (if command.pin is Some {
        1int
    } else {
        0
    });
    let c = b + (if command.auto_accept {
        1int
    } else {
        0
    });
    &&& res.len() == c + 1
    &&& created ==> res[0]@ == "Created download directory: "@ + directory
    &&& exists|digits: Seq<char>| #[trigger]
        numeral(digits, command.port as int) && res[a]@ == "Starting LocalSend server on port "@
            + digits
    &&& res[a + 1]@ == "Save directory: "@ + directory
    &&& command.pin is Some ==> res[a + 2]@ == "PIN required: "@ + command.pin->0@
    &&& command.auto_accept ==> res[b]@
        == "Auto-accept mode ENABLED - files will be accepted without confirmation!"@
    &&& res[c]@ == (if command.no_https {
        "Transport: HTTP"@
    } else {
        "Transport: HTTPS"@
    })
}

proof fn lemma_opening(
    res: Seq<String>,
    command: ReceiveCommand,
    directory: Seq<char>,
    created: bool,
)
    requires
        lines(res) == command.opening(directory, created),
    ensures
        tells_the_start(res, command, directory, created),
{
    let all = lines(res);
    assert(all.len() == res.len());
    assert forall|i: int| 0 <= i < res.len() implies #[trigger] all[i] == res[i]@ by {}
    let a = if created {
        1int
    } else {
        0
    };
    let b = a + 2 + (if command.pin is Some {
        1int
    } else {
        0
    });
    let c = b + (if command.auto_accept {
        1int
    } else {
        0
    });
    assert(all.len() == c + 1);
    lemma_decimal_is_a_numeral(command.port as nat);
    assert(numeral(crate::text::decimal(command.port as nat), command.port as int));
    assert(all[0] == res[0]@);
    assert(all[a] == res[a]@);
    assert(all[a + 1] == res[a + 1]@);
    assert(all[a + 2] == res[a + 2]@);
    assert(all[b] == res[b]@);
    assert(all[c] == res[c]@);
    reveal_strlit("Transport: ");
    reveal_strlit("HTTP");
    reveal_strlit("HTTPS");
    reveal_strlit("Transport: HTTP");
    reveal_strlit("Transport: HTTPS");
    assert("Transport: "@ + "HTTP"@ =~= "Transport: HTTP"@);
    assert("Transport: "@ + "HTTPS"@ =~= "Transport: HTTPS"@);
}

/// The start is told line by line, with the directory as its path reads.
pub proof fn law_the_start_is_told(
    command: ReceiveCommand,
    directory: &str,
    created: bool,
    given: Vec<String>,
    res: Vec<String>,
)
    requires
        call_ensures(ReceiveCommand::banner_as, (&command, directory, created), given),
        call_ensures(ReceiveCommand::banner, (&command, created), res),
    ensures
        tells_the_start(given@, command, directory@, created),
        exists|text: String| #[trigger]
            reads_as(command.directory, text) && tells_the_start(res@, command, text@, created),
{
    lemma_opening(given@, command, directory@, created);
    let text = choose|text: String| #[trigger]
        reads_as(command.directory, text) && lines(res@) == command.opening(text@, created);
    lemma_opening(res@, command, text@, created);
    assert(reads_as(command.directory, text));
}

/// What is told of an event: who offers how many files, who sends which text,
/// which file came from whom and where it lies, and which session is over. What
/// browsers do is not told.
pub proof fn law_events_are_told(
    event: ServerEvent,
    path: &str,
    res: Option<String>,
    from: &DeviceInfo,
    offered: &IdMap<FileMetadata>,
    count: usize,
)
    requires
        call_ensures(event_line_as, (&event, path), res),
        event is TransferRequest ==> call_ensures(
            PendingRequest::sender,
            (&event->TransferRequest_0,),
            from,
        ) && call_ensures(PendingRequest::files, (&event->TransferRequest_0,), offered)
            && call_ensures(IdMap::<FileMetadata>::len, (offered,), count),
    ensures
        event is TransferRequest ==> res is Some && exists|digits: Seq<char>| #[trigger]
            numeral(digits, count as int) && res->0@ == "Incoming transfer from '"@ + from.alias@
                + "' ("@ + digits + " file(s))"@,
        event matches ServerEvent::TextReceived { session_id, text, sender_alias } ==> res is Some
            && res->0@ == "Message from "@ + sender_alias@ + ": "@ + text@,
        event matches ServerEvent::FileReceived {
            session_id,
            file_id,
            file_name,
            path: at,
            size,
            sender_alias,
            message_text,
        } ==> res is Some && exists|digits: Seq<char>| #[trigger]
            numeral(digits, size as int) && res->0@ == "Received '"@ + file_name@ + "' ("@ + digits
                + " bytes) from "@ + sender_alias@ + " -> "@ + path@,
        event matches ServerEvent::SessionDone { session_id } ==> res is Some && res->0@
            == "Session "@ + session_id.text@ + " complete"@,
        event is WebShareRequest || event is WebShareDownloadProgress || event
            is WebShareSessionDone ==> res is None,
{
    if event is TransferRequest {
        lemma_decimal_is_a_numeral(count as nat);
        assert(numeral(crate::text::decimal(count as nat), count as int));
    }
    if let ServerEvent::FileReceived {
        session_id,
        file_id,
        file_name,
        path: at,
        size,
        sender_alias,
        message_text,
    } = event {
        lemma_decimal_is_a_numeral(size as nat);
        assert(numeral(crate::text::decimal(size as nat), size as int));
    }
}

/// A received file is told with its path as it reads; what is told of any other
/// event has no path in it.
pub proof fn law_paths_are_told(
    event: ServerEvent,
    line: Option<String>,
    path: &str,
    other: Option<String>,
)
    requires
        call_ensures(event_line, (&event,), line),
        call_ensures(event_line_as, (&event, path), other),
    ensures
        !(event is FileReceived) ==> line is Some == other is Some && (line is Some ==> line->0@
            == other->0@),
        event matches ServerEvent::FileReceived {
            session_id,
            file_id,
            file_name,
            path: at,
            size,
            sender_alias,
            message_text,
        } ==> line is Some && exists|text: String, digits: Seq<char>| #[trigger]
            reads_as(at, text) && #[trigger] numeral(digits, size as int) && line->0@
                == "Received '"@ + file_name@ + "' ("@ + digits + " bytes) from "@ + sender_alias@
                + " -> "@ + text@,
        event matches ServerEvent::TextReceived { session_id, text, sender_alias } ==> line is Some
            && line->0@ == "Message from "@ + sender_alias@ + ": "@ + text@,
        event matches ServerEvent::SessionDone { session_id } ==> line is Some && line->0@
            == "Session "@ + session_id.text@ + " complete"@,
{
    if let ServerEvent::FileReceived {
        session_id,
        file_id,
        file_name,
        path: at,
        size,
        sender_alias,
        message_text,
    } = event {
        lemma_decimal_is_a_numeral(size as nat);
        let text = choose|text: String| #[trigger]
            reads_as(at, text) && crate::text::opt_text(line) == told(event, text@);
        assert(reads_as(at, text) && numeral(crate::text::decimal(size as nat), size as int));
    } else {
        assert(crate::text::opt_text(line) == told(event, path@));
    }
}

/// A transfer is accepted at once where nobody is to be asked, and otherwise
/// handed on to be asked about; it is then accepted on a yes, and declined on a
/// no and where nobody could be asked. Nothing else calls for an answer.
pub proof fn law_transfers_are_answered(
    event: ServerEvent,
    auto_accept: bool,
    action: ReceiveAction,
    request: PendingRequest,
    answer: Option<bool>,
)
    requires
        call_ensures(event_action, (event, auto_accept), action),
        call_ensures(confirmed, (request, answer), ()),
    ensures
        event matches ServerEvent::TransferRequest(asked) ==> {
            &&& auto_accept ==> action is Nothing && answered(
                asked.channel(),
                TransferDecision::Accept,
            )
            &&& !auto_accept ==> action is Confirm && action->Confirm_0 == asked
        },
        !(event is TransferRequest) ==> action is Nothing,
        answer == Some(true) ==> answered(request.channel(), TransferDecision::Accept),
        answer != Some(true) ==> answered(request.channel(), TransferDecision::Decline),
{
}

} // verus!
