//! What comes in from outside, and what the interface makes of it.

use crate::error::LocalSendError;
use crate::id_map::IdMap;
use crate::outside::{
    ends_in, guessed_mime, input_cursor, input_text, path_from, time_shape, told_by_clock,
    whole_seconds, TIME_FORMAT,
};
use crate::protocol::{
    DeviceInfo, DeviceType, FileId, FileMetadata, PrepareUploadResponse, Protocol, ReceivedFile,
    Token,
};
use crate::server::events::{answered, PendingRequest, ServerEvent, TransferDecision};
use crate::server::server::LocalSendServerBuilder;
use crate::text::opt_text;
use crate::text_laws::{lemma_decimal_is_a_numeral, numeral};
use crate::tui::app::{App, Effect};
use crate::tui::dialog_laws::{asking, dialog_of};
use crate::tui::input::KeyCode;
use crate::tui::key_laws::{
    choosing, law_enter_looks_at_the_path, law_enter_sends_the_message,
    law_files_go_to_the_device_under_the_cursor, law_keys_write_the_message,
    law_keys_write_the_path, law_texts_go_to_the_device_under_the_cursor, lemma_agree, same_device,
    same_file_screen, same_line, same_peers, same_status, same_text_screen, same_words, says,
    sends_text, writing,
};
use crate::tui::popup::{file_view, ConfirmView, MessageLevel, PopupView};
use crate::tui::screens::{Screen, SendFileStage, SendTextStage};
use crate::tui::send::{
    file_offer, file_upload, send_update_from_result, single_offer, text_offer, text_upload,
    FileProbe, SendKind, SendUpdate,
};
use crate::tui::steps::{leads_to, replied};
use vstd::prelude::*;
use vstd::utf8::encode_utf8;

verus! {

/// A report counts only for the attempt that it names. Progress moves the gauge
/// of the file screen, never beyond all of it. The end of a send clears its own
/// screen and says what came of it. A receiver that asks for a PIN ends the
/// attempt and lets its send wait. The other screen and everything else stay as
/// they are.
pub proof fn law_reports_count_for_their_attempt(app: &mut App, update: SendUpdate)
    requires
        call_ensures(App::on_send_update, (app, update), ()),
    ensures
        final(app).dirty,
        update matches SendUpdate::Progress { generation, sent, total } ==> {
            &&& same_text_screen(final(app).send_text, old(app).send_text)
            &&& same_status(*final(app), *old(app))
            &&& final(app).pending_pin_kind == old(app).pending_pin_kind
            &&& generation != old(app).send_generation ==> same_file_screen(
                final(app).send_file,
                old(app).send_file,
            )
            &&& generation == old(app).send_generation ==> {
                &&& final(app).send_file.total == total
                &&& final(app).send_file.sent == (if sent < total {
                    sent
                } else {
                    total
                })
                &&& final(app).send_file.is_sending == old(app).send_file.is_sending
                &&& final(app).send_file.stage == old(app).send_file.stage
                &&& same_line(final(app).send_file.input, old(app).send_file.input)
                &&& final(app).send_file.selected_device == old(app).send_file.selected_device
                &&& same_words(final(app).send_file.current_file, old(app).send_file.current_file)
            }
        },
        update matches SendUpdate::Finished { generation, kind, label, error } ==> {
            let counts = generation == old(app).send_generation;
            &&& final(app).pending_pin_kind == old(app).pending_pin_kind
            &&& !counts || kind == SendKind::File ==> same_text_screen(
                final(app).send_text,
                old(app).send_text,
            )
            &&& !counts || kind == SendKind::Text ==> same_file_screen(
                final(app).send_file,
                old(app).send_file,
            )
            &&& !counts ==> same_status(*final(app), *old(app))
            &&& counts && error is None ==> says(
                *final(app),
                "✓ Sent "@ + label@,
                MessageLevel::Success,
            )
            &&& counts && error is Some ==> says(
                *final(app),
                "✗ Send failed: "@ + error->0@,
                MessageLevel::Error,
            )
            &&& counts && kind == SendKind::Text ==> {
                &&& !final(app).send_text.is_sending
                &&& final(app).send_text.stage == SendTextStage::SelectDevice
                &&& final(app).send_text.selected_device is None
                &&& input_text(final(app).send_text.input).len() == 0
                &&& final(app).send_text.selected == old(app).send_text.selected
            }
            &&& counts && kind == SendKind::File ==> {
                &&& !final(app).send_file.is_sending
                &&& final(app).send_file.stage == SendFileStage::SelectDevice
                &&& final(app).send_file.selected_device is None
                &&& input_text(final(app).send_file.input).len() == 0
                &&& final(app).send_file.sent == 0 && final(app).send_file.total == 0
                &&& final(app).send_file.current_file is None
                &&& final(app).send_file.selected == old(app).send_file.selected
            }
        },
        update matches SendUpdate::NeedsPin { generation, kind } ==> {
            let counts = generation == old(app).send_generation;
            &&& final(app).pending_pin_kind == (if counts {
                Some(kind)
            } else {
                old(app).pending_pin_kind
            })
            &&& counts ==> says(*final(app), "PIN required by receiver"@, MessageLevel::Info)
            &&& !counts ==> same_status(*final(app), *old(app))
            &&& final(app).send_text.is_sending == (old(app).send_text.is_sending && !(counts
                && kind == SendKind::Text))
            &&& final(app).send_file.is_sending == (old(app).send_file.is_sending && !(counts
                && kind == SendKind::File))
            &&& final(app).send_text.stage == old(app).send_text.stage
            &&& final(app).send_file.stage == old(app).send_file.stage
            &&& same_line(final(app).send_text.input, old(app).send_text.input)
            &&& same_line(final(app).send_file.input, old(app).send_file.input)
            &&& final(app).send_text.selected_device == old(app).send_text.selected_device
            &&& final(app).send_file.selected_device == old(app).send_file.selected_device
        },
        same_device(*final(app), *old(app)),
        same_peers(*final(app), *old(app)),
        final(app).popup is Some == old(app).popup is Some,
        final(app).screen == old(app).screen,
        final(app).send_generation == old(app).send_generation,
        final(app).should_quit == old(app).should_quit,
{
    assert(final(app)@.send_text == final(app).send_text@);
    assert(final(app)@.send_file == final(app).send_file@);
    assert(final(app)@.popup == old(app)@.popup);
}

/// The result of a send is reported for its attempt: success, a receiver that
/// asks for a PIN, or a failure with its reason.
pub proof fn law_results_are_reported(
    generation: u64,
    kind: SendKind,
    label: String,
    result: Result<(), LocalSendError>,
    reason: String,
    update: SendUpdate,
)
    requires
        call_ensures(send_update_from_result, (generation, kind, label, result), update),
        result is Err ==> call_ensures(LocalSendError::message, (&result->Err_0,), reason),
    ensures
        result is Ok ==> update == (SendUpdate::Finished { generation, kind, label, error: None }),
        result is Err && result->Err_0 is InvalidPin ==> update == (SendUpdate::NeedsPin {
            generation,
            kind,
        }),
        result is Err && !(result->Err_0 is InvalidPin) ==> (update matches SendUpdate::Finished {
            generation: g,
            kind: k,
            label: l,
            error: Some(words),
        } && g == generation && k == kind && l == label && words@ == reason@),
{
}

/// Failures read as what they are.
pub proof fn law_failures_read_as_what_they_are(error: LocalSendError, words: String)
    requires
        call_ensures(LocalSendError::message, (&error,), words),
    ensures
        error matches LocalSendError::Network { message } ==> words@ == "Network error: "@
            + message@,
        error matches LocalSendError::Rejected { status } ==> exists|digits: Seq<char>| #[trigger]
            numeral(digits, status as int) && words@ == "Rejected by receiver (status "@ + digits
                + ")"@,
        error matches LocalSendError::HttpFailed { status, message } ==> exists|
            digits: Seq<char>,
        | #[trigger]
            numeral(digits, status as int) && words@ == message@ + " (status "@ + digits + ")"@,
        error is InvalidPin ==> words@ == "Invalid PIN"@,
        error is SessionBlocked ==> words@ == "Receiver is busy with another session"@,
        error is RateLimited ==> words@ == "Too many PIN attempts"@,
        error matches LocalSendError::InvalidState { message } ==> words@ == "Invalid state: "@
            + message@,
        error matches LocalSendError::Other { message } ==> words@ == message@,
{
    if let LocalSendError::Rejected { status } = error {
        lemma_decimal_is_a_numeral(status as nat);
        assert(numeral(crate::text::decimal(status as nat), status as int));
    }
    if let LocalSendError::HttpFailed { status, message } = error {
        lemma_decimal_is_a_numeral(status as nat);
        assert(numeral(crate::text::decimal(status as nat), status as int));
    }
}

/// A text is offered as a small text file whose preview is all of it; a file
/// under its name, with its size, its hash and the type that its name suggests.
/// An offer of one file is that file under its identifier.
pub proof fn law_offers_describe_what_is_sent(
    id: FileId,
    message: &str,
    text: FileMetadata,
    name: String,
    size: u64,
    sha256: Option<String>,
    file: FileMetadata,
    single: IdMap<FileMetadata>,
    k: Seq<char>,
)
    requires
        call_ensures(text_offer, (id, message), text),
        call_ensures(file_offer, (id, name, size, sha256), file),
        call_ensures(single_offer, (&file,), single),
    ensures
        text.id == id && text.file_name@ == "message.txt"@ && text.file_type@ == "text/plain"@,
        text.size == encode_utf8(message@).len(),
        text.preview is Some && text.preview->0@ == message@,
        text.sha256 is None && text.metadata is None,
        file.id == id && file.file_name == name && file.size == size && file.sha256 == sha256,
        file.file_type@ == guessed_mime(name@),
        file.preview is None && file.metadata is None,
        single@.contains_key(k) <==> k == id.text@,
        single@[id.text@] == file,
{
}

/// A file is uploaded with the token that the receiver issued for it, and one
/// without a token was declined. A text is uploaded only where there is a
/// session and a token for it.
pub proof fn law_uploads_use_the_issued_token(
    response: PrepareUploadResponse,
    id: FileId,
    text: Option<Token>,
    file: Result<Token, LocalSendError>,
)
    requires
        call_ensures(text_upload, (&response, &id), text),
        call_ensures(file_upload, (&response, &id), file),
    ensures
        ({
            let issued = response.files@.contains_key(id.text@);
            &&& file is Ok <==> issued
            &&& issued ==> file->Ok_0 == response.files@[id.text@]
            &&& !issued ==> (file matches Err(LocalSendError::Other { message }) && message@
                == "receiver declined the file (no upload token was issued)"@)
            &&& text is Some <==> issued && response.session_id.text@.len() > 0
            &&& text is Some ==> text->0 == response.files@[id.text@]
        }),
{
}

/// A received file is noted last in the inbox, as it was announced and with its
/// time. A text is shown with its sender, and the end of a session is told.
/// What browsers do is not shown. None of these touches a dialog.
pub proof fn law_events_are_shown(app: &mut App, event: ServerEvent, time: String)
    requires
        call_ensures(App::on_server_event_at, (app, event, time), ()),
        !(event is TransferRequest),
    ensures
        final(app).dirty,
        event matches ServerEvent::FileReceived {
            session_id,
            file_id,
            file_name,
            path,
            size,
            sender_alias,
            message_text,
        } ==> {
            &&& final(app).received_files@.len() == old(app).received_files@.len() + 1
            &&& final(app).received_files@.drop_last() == old(app).received_files@
            &&& final(app).received_files@.last() == (ReceivedFile {
                file_name,
                size,
                sender: sender_alias,
                time,
                path,
                message_text,
            })
        },
        !(event is FileReceived) ==> final(app).received_files@ == old(app).received_files@,
        event matches ServerEvent::TextReceived { session_id, text, sender_alias } ==> says(
            *final(app),
            "Message from "@ + sender_alias@ + ": "@ + text@,
            MessageLevel::Success,
        ),
        event is SessionDone ==> says(*final(app), "✓ Transfer complete"@, MessageLevel::Success),
        !(event is TextReceived) && !(event is SessionDone) ==> same_status(
            *final(app),
            *old(app),
        ),
        final(app).popup is Some == old(app).popup is Some,
        final(app)@.popup == old(app)@.popup,
        same_text_screen(final(app).send_text, old(app).send_text),
        same_file_screen(final(app).send_file, old(app).send_file),
        same_peers(*final(app), *old(app)),
        final(app).device_info == old(app).device_info,
        final(app).pending_pin_kind == old(app).pending_pin_kind,
        final(app).send_generation == old(app).send_generation,
        final(app).screen == old(app).screen,
{
    assert(final(app)@.send_text == final(app).send_text@);
    assert(final(app)@.send_file == final(app).send_file@);
    if event is FileReceived {
        assert(final(app).received_files@.drop_last() =~= old(app).received_files@);
    }
}

/// An incoming transfer is shown where no dialog is up, or only the prompt for a
/// PIN, whose send still waits. Under any other dialog it is declined, and that
/// dialog stays.
pub proof fn law_transfers_are_shown_or_declined(
    app: &mut App,
    request: PendingRequest,
    offered: &IdMap<FileMetadata>,
    time: String,
)
    requires
        call_ensures(
            App::on_server_event_at,
            (app, ServerEvent::TransferRequest(request), time),
            (),
        ),
        call_ensures(PendingRequest::files, (&request,), offered),
    ensures
        ({
            let free = old(app).popup is None || old(app).popup->0 is PinEntry;
            &&& free ==> {
                &&& asking(*final(app))
                &&& dialog_of(*final(app)).request == request
                &&& dialog_of(*final(app)).cursor == 0
                &&& dialog_of(*final(app)).files@.len() == offered.keys().len()
                &&& forall|i: int|
                    0 <= i < offered.keys().len() ==> (#[trigger] dialog_of(
                        *final(app),
                    ).files@[i]).id.text@ == offered.keys()[i]
                &&& dialog_of(*final(app)).selected@.len() == offered.keys().len()
                &&& forall|i: int|
                    0 <= i < offered.keys().len() ==> #[trigger] dialog_of(
                        *final(app),
                    ).selected@[i]
            }
            &&& !free ==> {
                &&& answered(request.channel(), TransferDecision::Decline)
                &&& final(app)@.popup == old(app)@.popup
            }
        }),
        final(app).pending_pin_kind == old(app).pending_pin_kind,
        final(app).send_generation == old(app).send_generation,
        final(app).received_files@ == old(app).received_files@,
        same_status(*final(app), *old(app)),
        same_text_screen(final(app).send_text, old(app).send_text),
        same_file_screen(final(app).send_file, old(app).send_file),
{
    assert(final(app)@.send_text == final(app).send_text@);
    assert(final(app)@.send_file == final(app).send_file@);
    if old(app).popup is Some {
        assert(old(app)@.popup == Some(old(app).popup->0@));
    }
    if old(app).popup is None || old(app).popup->0 is PinEntry {
        let shown = ConfirmView::of(request);
        assert(final(app)@.popup == Some(PopupView::TransferConfirm(shown)));
        assert(final(app).popup is Some);
        assert(final(app)@.popup == Some(final(app).popup->0@));
        let dialog = dialog_of(*final(app));
        assert(dialog@ == shown);
        assert(dialog@.files.len() == dialog.files@.len());
        assert forall|i: int| 0 <= i < offered.keys().len() implies (
        #[trigger] dialog.files@[i]).id.text@ == offered.keys()[i] by {
            assert(dialog@.files[i] == file_view(dialog.files@[i]));
            assert(shown.files[i].0 == offered.keys()[i]);
        }
        assert forall|i: int| 0 <= i < offered.keys().len() implies #[trigger] dialog.selected@[i] by {
            assert(dialog@.selected[i]);
        }
    } else {
        assert(replied(request.channel(), crate::tui::popup::DecisionView::Decline));
        let value = choose|value: TransferDecision|
            value@ == crate::tui::popup::DecisionView::Decline && #[trigger] answered(
                request.channel(),
                value,
            );
        assert(value == TransferDecision::Decline);
    }
}

/// A received file is noted with what the clock tells, written as a date and a
/// time.
pub proof fn law_received_files_have_their_time(app: &mut App, event: ServerEvent)
    requires
        call_ensures(App::on_server_event, (app, event), ()),
        event is FileReceived,
    ensures
        final(app).received_files@.len() == old(app).received_files@.len() + 1,
        ({
            let row = final(app).received_files@.last();
            &&& told_by_clock(TIME_FORMAT, row.time)
            &&& time_shape(row.time@)
            &&& row.file_name == event->FileReceived_file_name
            &&& row.path == event->FileReceived_path
            &&& row.size == event->FileReceived_size
            &&& row.sender == event->FileReceived_sender_alias
        }),
{
}

/// A device that announces itself is added to the end of the list, unless it is
/// this one, or one with its fingerprint or with its address and port is there.
pub proof fn law_new_peers_are_listed(app: &mut App, device: DeviceInfo)
    requires
        call_ensures(App::on_discovered, (app, device), ()),
    ensures
        ({
            let this = device.fingerprint@ == old(app).device_info.fingerprint@;
            let there = exists|i: int|
                0 <= i < old(app).devices@.len() && {
                    let known = #[trigger] old(app).devices@[i];
                    known.fingerprint@ == device.fingerprint@ || same_words(known.ip, device.ip)
                        && known.port == device.port
                };
            &&& this || there ==> final(app).devices@ == old(app).devices@
            &&& !this && !there ==> final(app).devices@ == old(app).devices@.push(device)
        }),
        same_text_screen(final(app).send_text, old(app).send_text),
        same_file_screen(final(app).send_file, old(app).send_file),
        same_device(*final(app), *old(app)),
{
    assert(final(app)@.send_text == final(app).send_text@);
    assert(final(app)@.send_file == final(app).send_file@);
    let devices = old(app).devices@;
    assert forall|i: int| 0 <= i < devices.len() implies crate::tui::steps::same_peer(
        #[trigger] devices[i],
        device,
    ) == (devices[i].fingerprint@ == device.fingerprint@ || same_words(devices[i].ip, device.ip)
        && devices[i].port == device.port) by {}
    if exists|i: int|
        0 <= i < devices.len() && crate::tui::steps::same_peer(#[trigger] devices[i], device) {
        let i = choose|i: int|
            0 <= i < devices.len() && crate::tui::steps::same_peer(#[trigger] devices[i], device);
        assert(devices[i].fingerprint@ == device.fingerprint@ || same_words(
            devices[i].ip,
            device.ip,
        ) && devices[i].port == device.port);
    }
}

/// A search goes on until something is found or its time is over. The count that
/// is shown follows the list, and a frame is due where it changed, while a search
/// goes on and when it ends.
pub proof fn law_searches_are_shown(
    app: App,
    now: u64,
    scanning: bool,
    counted: &mut App,
    framed: &mut App,
)
    requires
        call_ensures(App::is_scanning, (&app, now), scanning),
        *old(counted) == app,
        call_ensures(App::refresh_device_count, (counted, now), ()),
        *old(framed) == app,
        call_ensures(App::prepare_frame, (framed, now), ()),
    ensures
        scanning <==> app.last_device_count == 0 && now < app.scan_deadline,
        final(counted).last_device_count == app.devices@.len(),
        ({
            let still = app.devices@.len() == 0 && now < app.scan_deadline;
            &&& final(counted).was_scanning == still
            &&& final(counted).dirty <==> app.dirty || app.last_device_count != app.devices@.len()
                || still || still != app.was_scanning
        }),
        final(framed).send_text.scanning == scanning,
        final(framed).send_file.scanning == scanning,
{
    assert(final(framed)@.send_text == final(framed).send_text@);
    assert(final(framed)@.send_file == final(framed).send_file@);
}

/// The status bar names this device, counts the others, tells the port, and
/// ends with the message, if there is one.
pub proof fn law_the_status_bar_tells(app: &mut App, texts: Vec<String>)
    requires
        call_ensures(App::status_bar, (app,), texts),
    ensures
        texts@.len() == (if old(app).status_message is Some {
            7int
        } else {
            5
        }),
        texts@[0]@ == "📲 "@ + old(app).device_info.alias@,
        texts@[1]@ == " | "@,
        exists|digits: Seq<char>| #[trigger]
            numeral(digits, old(app).devices@.len() as int) && texts@[2]@ == "📱 "@ + digits
                + " devices "@,
        texts@[3]@ == "| "@,
        exists|digits: Seq<char>| #[trigger]
            numeral(digits, old(app).port as int) && texts@[4]@ == "🟢 Listening on "@ + digits
                + " "@,
        old(app).status_message is Some ==> texts@[5]@ == "| "@ && texts@[6]@ == (old(
            app,
        ).status_message->0).0@,
        final(app).last_device_count == old(app).devices@.len(),
{
    let shown = texts@.map_values(|t: String| t@);
    assert(shown == old(app)@.bar());
    assert(shown.len() == texts@.len());
    assert(shown[0] == texts@[0]@);
    assert(shown[1] == texts@[1]@);
    assert(shown[2] == texts@[2]@);
    assert(shown[3] == texts@[3]@);
    assert(shown[4] == texts@[4]@);
    if old(app).status_message is Some {
        assert(shown[5] == texts@[5]@);
        assert(shown[6] == texts@[6]@);
    }
    lemma_decimal_is_a_numeral(old(app).devices@.len());
    lemma_decimal_is_a_numeral(old(app).port as nat);
    assert(numeral(crate::text::decimal(old(app).devices@.len()), old(app).devices@.len() as int));
    assert(numeral(crate::text::decimal(old(app).port as nat), old(app).port as int));
}

/// An application starts on the screen for texts, for its device, with nothing
/// found, nothing received, nothing written and no dialog, and searches for
/// three seconds.
pub proof fn law_applications_start_with_nothing(
    device: DeviceInfo,
    pin: Option<String>,
    auto_accept: bool,
    now: u64,
    app: App,
)
    requires
        call_ensures(App::with_device, (device, pin, auto_accept, now), app),
    ensures
        !app.should_quit,
        app.screen == Screen::SendText,
        app.device_info == device,
        app.port == device.port,
        app.https <==> device.protocol == Protocol::Https,
        app.save_dir == path_from("./downloads"@),
        same_words(app.pin, pin),
        app.initial_auto_accept == auto_accept && app.settings.auto_accept == auto_accept,
        app.settings.device_info == device && app.settings.save_dir@ == "./downloads"@,
        app.devices@.len() == 0 && app.received_files@.len() == 0 && app.last_device_count == 0,
        app.popup is None && app.status_message is None && app.pending_pin_kind is None,
        app.send_generation == 0,
        app.receive.selected == 0,
        app.send_text.stage == SendTextStage::SelectDevice && app.send_text.selected == 0
            && app.send_text.selected_device is None && !app.send_text.is_sending
            && !app.send_text.refresh && input_text(app.send_text.input).len() == 0
            && input_cursor(app.send_text.input) == 0,
        app.send_file.stage == SendFileStage::SelectDevice && app.send_file.selected == 0
            && app.send_file.selected_device is None && !app.send_file.is_sending
            && !app.send_file.refresh && input_text(app.send_file.input).len() == 0
            && input_cursor(app.send_file.input) == 0 && app.send_file.current_file is None,
        now + 3000 <= u64::MAX ==> app.scan_deadline == now + 3000,
        now + 3000 > u64::MAX ==> app.scan_deadline == u64::MAX,
        app.dirty && app.was_scanning,
{
    assert(app@.send_text == app.send_text@);
    assert(app@.send_file == app.send_file@);
}

/// An application takes its port, its protocol and its alias as they were
/// given.
pub proof fn law_applications_are_what_was_asked(
    port: u16,
    alias: Option<String>,
    https: bool,
    pin: Option<String>,
    auto_accept: bool,
    model: String,
    now: u64,
    app: App,
    builder: LocalSendServerBuilder,
)
    requires
        call_ensures(App::new, (port, alias, https, pin, auto_accept, model, now), app),
        call_ensures(App::server_builder, (&app,), builder),
    ensures
        app.device_info.port == port && app.port == port && builder.port == port,
        app.https == https,
        app.device_info.protocol == (if https {
            Protocol::Https
        } else {
            Protocol::Http
        }),
        builder.protocol == app.device_info.protocol,
        alias is Some ==> app.device_info.alias == alias->0,
        builder.alias == app.device_info.alias,
        app.device_info.version@ == "2.1"@,
        app.device_info.device_model == Some(model),
        app.device_info.device_type == Some(DeviceType::Desktop),
        !app.device_info.download && app.device_info.ip is None,
        same_words(app.pin, pin) && same_words(builder.pin, pin),
        app.initial_auto_accept == auto_accept && builder.auto_accept == auto_accept,
        builder.save_dir == path_from("./downloads"@),
        builder.accept_timeout == whole_seconds(60),
        builder.tls_certificate is None,
{
}

/// What came of showing a file is told, and nothing else changes.
pub proof fn law_showing_a_file_is_told(app: &mut App, failure: Option<String>)
    requires
        call_ensures(App::revealed, (app, failure), ()),
    ensures
        failure is None ==> says(*final(app), "Revealed in file manager"@, MessageLevel::Info),
        failure is Some ==> says(
            *final(app),
            "Could not reveal: "@ + failure->0@,
            MessageLevel::Error,
        ),
        same_text_screen(final(app).send_text, old(app).send_text),
        same_file_screen(final(app).send_file, old(app).send_file),
        same_device(*final(app), *old(app)),
        same_peers(*final(app), *old(app)),
{
    assert(final(app)@.send_text == final(app).send_text@);
    assert(final(app)@.send_file == final(app).send_file@);
}

/// True when the keys choose the device under the cursor, write the text and
/// finish it.
pub open spec fn choose_and_write(keys: Seq<KeyCode>, text: Seq<char>) -> bool {
    &&& keys.len() == text.len() + 2
    &&& keys[0] == KeyCode::Enter
    &&& keys[keys.len() - 1] == KeyCode::Enter
    &&& forall|i: int, j: int|
        #![trigger keys[j], text[i]]
        0 <= i < text.len() && j == i + 1 ==> keys[j] == KeyCode::Char(text[i])
    &&& forall|i: int| 0 <= i < text.len() ==> #[trigger] text[i] != 'q'
}

proof fn lemma_writing_to_a_device(
    calls: Seq<&mut App>,
    keys: Seq<KeyCode>,
    times: Seq<u64>,
    results: Seq<(Effect, bool)>,
    text: Seq<char>,
    n: int,
)
    requires
        choose_and_write(keys, text),
        calls.len() == keys.len(),
        forall|j: int|
            0 <= j < calls.len() ==> call_ensures(
                App::handle_key,
                (#[trigger] calls[j], keys[j], times[j]),
                results[j],
            ),
        forall|j: int, k: int|
            #![trigger calls[j], calls[k]]
            0 <= j && k == j + 1 && k < calls.len() ==> *calls[k] == *final(calls[j]),
        choosing(*calls[0], Screen::SendText),
        calls[0].send_text.selected < calls[0].devices@.len(),
        input_text(calls[0].send_text.input).len() == 0,
        input_cursor(calls[0].send_text.input) == 0,
        1 <= n <= text.len() + 1,
    ensures
        writing(*calls[n], Screen::SendText),
        calls[n].send_text.selected_device == Some(
            calls[0].devices@[calls[0].send_text.selected as int],
        ),
        input_text(calls[n].send_text.input) == text.take(n - 1),
        input_cursor(calls[n].send_text.input) == n - 1,
        calls[n].send_text.is_sending == calls[0].send_text.is_sending,
        calls[n].device_info == calls[0].device_info,
        calls[n].send_generation == calls[0].send_generation,
    decreases n,
{
    if n == 1 {
        assert(call_ensures(App::handle_key, (calls[0], keys[0], times[0]), results[0]));
        law_texts_go_to_the_device_under_the_cursor(calls[0], keys[0], times[0], results[0]);
        assert(*calls[1] == *final(calls[0]));
        assert(input_text(calls[1].send_text.input) =~= text.take(0));
    } else {
        lemma_writing_to_a_device(calls, keys, times, results, text, n - 1);
        let c = text[n - 2];
        assert(keys[n - 1] == KeyCode::Char(c));
        assert(call_ensures(
            App::handle_key,
            (calls[n - 1], keys[n - 1], times[n - 1]),
            results[n - 1],
        ));
        law_keys_write_the_message(calls[n - 1], keys[n - 1], times[n - 1], results[n - 1]);
        assert(*calls[n] == *final(calls[n - 1]));
        assert(text.take(n - 2).insert(n - 2, c) =~= text.take(n - 1));
    }
}

/// What is written to a device goes to that device: with the cursor on a device
/// of the list, `Enter`, any characters but `q` and `Enter` again send just
/// these characters to just that device.
pub proof fn law_messages_go_where_they_were_written_to(
    calls: Seq<&mut App>,
    keys: Seq<KeyCode>,
    times: Seq<u64>,
    results: Seq<(Effect, bool)>,
    text: Seq<char>,
)
    requires
        choose_and_write(keys, text),
        text.len() > 0,
        calls.len() == keys.len(),
        forall|j: int|
            0 <= j < calls.len() ==> call_ensures(
                App::handle_key,
                (#[trigger] calls[j], keys[j], times[j]),
                results[j],
            ),
        forall|j: int, k: int|
            #![trigger calls[j], calls[k]]
            0 <= j && k == j + 1 && k < calls.len() ==> *calls[k] == *final(calls[j]),
        choosing(*calls[0], Screen::SendText),
        calls[0].send_text.selected < calls[0].devices@.len(),
        input_text(calls[0].send_text.input).len() == 0,
        input_cursor(calls[0].send_text.input) == 0,
        !calls[0].send_text.is_sending,
    ensures
        ({
            let last = results[keys.len() - 1].0;
            &&& last is Send
            &&& sends_text(
                last->Send_0,
                *calls[0],
                calls[0].devices@[calls[0].send_text.selected as int],
                text,
                None,
            )
        }),
{
    let n = keys.len() - 1;
    lemma_writing_to_a_device(calls, keys, times, results, text, n);
    assert(text.take(text.len() as int) =~= text);
    assert(call_ensures(App::handle_key, (calls[n], keys[n], times[n]), results[n]));
    law_enter_sends_the_message(calls[n], times[n], results[n]);
}

proof fn lemma_writing_a_path(
    calls: Seq<&mut App>,
    keys: Seq<KeyCode>,
    times: Seq<u64>,
    results: Seq<(Effect, bool)>,
    text: Seq<char>,
    n: int,
)
    requires
        choose_and_write(keys, text),
        calls.len() == keys.len(),
        forall|j: int|
            0 <= j < calls.len() ==> call_ensures(
                App::handle_key,
                (#[trigger] calls[j], keys[j], times[j]),
                results[j],
            ),
        forall|j: int, k: int|
            #![trigger calls[j], calls[k]]
            0 <= j && k == j + 1 && k < calls.len() ==> *calls[k] == *final(calls[j]),
        choosing(*calls[0], Screen::SendFile),
        calls[0].send_file.selected < calls[0].devices@.len(),
        input_text(calls[0].send_file.input).len() == 0,
        input_cursor(calls[0].send_file.input) == 0,
        !calls[0].send_file.is_sending,
        1 <= n <= text.len() + 1,
    ensures
        writing(*calls[n], Screen::SendFile),
        calls[n].send_file.selected_device == Some(
            calls[0].devices@[calls[0].send_file.selected as int],
        ),
        input_text(calls[n].send_file.input) == text.take(n - 1),
        input_cursor(calls[n].send_file.input) == n - 1,
        !calls[n].send_file.is_sending,
    decreases n,
{
    if n == 1 {
        assert(call_ensures(App::handle_key, (calls[0], keys[0], times[0]), results[0]));
        law_files_go_to_the_device_under_the_cursor(calls[0], keys[0], times[0], results[0]);
        assert(*calls[1] == *final(calls[0]));
        assert(input_text(calls[1].send_file.input) =~= text.take(0));
    } else {
        lemma_writing_a_path(calls, keys, times, results, text, n - 1);
        let c = text[n - 2];
        assert(keys[n - 1] == KeyCode::Char(c));
        assert(call_ensures(
            App::handle_key,
            (calls[n - 1], keys[n - 1], times[n - 1]),
            results[n - 1],
        ));
        law_keys_write_the_path(calls[n - 1], keys[n - 1], times[n - 1], results[n - 1]);
        assert(*calls[n] == *final(calls[n - 1]));
        assert(text.take(n - 2).insert(n - 2, c) =~= text.take(n - 1));
    }
}

/// And the file that is named goes to that device: with the cursor on a device
/// of the list, `Enter`, the characters of a path but no `q`, and `Enter` again
/// look at just that path for just that device.
pub proof fn law_paths_are_looked_at_for_the_device(
    calls: Seq<&mut App>,
    keys: Seq<KeyCode>,
    times: Seq<u64>,
    results: Seq<(Effect, bool)>,
    text: Seq<char>,
)
    requires
        choose_and_write(keys, text),
        text.len() > 0,
        calls.len() == keys.len(),
        forall|j: int|
            0 <= j < calls.len() ==> call_ensures(
                App::handle_key,
                (#[trigger] calls[j], keys[j], times[j]),
                results[j],
            ),
        forall|j: int, k: int|
            #![trigger calls[j], calls[k]]
            0 <= j && k == j + 1 && k < calls.len() ==> *calls[k] == *final(calls[j]),
        choosing(*calls[0], Screen::SendFile),
        calls[0].send_file.selected < calls[0].devices@.len(),
        input_text(calls[0].send_file.input).len() == 0,
        input_cursor(calls[0].send_file.input) == 0,
        !calls[0].send_file.is_sending,
    ensures
        ({
            let last = results[keys.len() - 1].0;
            &&& last is Probe
            &&& last->Probe_0.target == calls[0].devices@[calls[0].send_file.selected as int]
            &&& last->Probe_0.path == path_from(text)
            &&& last->Probe_0.pin is None
        }),
{
    let n = keys.len() - 1;
    lemma_writing_a_path(calls, keys, times, results, text, n);
    assert(text.take(text.len() as int) =~= text);
    assert(call_ensures(App::handle_key, (calls[n], keys[n], times[n]), results[n]));
    law_enter_looks_at_the_path(calls[n], times[n], results[n]);
}

/// An event that is no received file is taken in as it would be at any time.
pub proof fn law_other_events_need_no_time(
    app: &mut App,
    event: ServerEvent,
    timed: &mut App,
    time: String,
)
    requires
        call_ensures(App::on_server_event, (app, event), ()),
        !(event is FileReceived),
        *old(timed) == *old(app),
        call_ensures(App::on_server_event_at, (timed, event, time), ()),
    ensures
        final(app)@ == final(timed)@,
        same_status(*final(app), *final(timed)),
        same_text_screen(final(app).send_text, final(timed).send_text),
        same_file_screen(final(app).send_file, final(timed).send_file),
        same_device(*final(app), *final(timed)),
        same_peers(*final(app), *final(timed)),
        final(app).popup is Some == final(timed).popup is Some,
        final(app).pending_pin_kind == final(timed).pending_pin_kind,
        final(app).dirty == final(timed).dirty,
{
    let next = old(app)@.server_event(event, time);
    assert(leads_to(next, *final(timed), Effect::Nothing));
    assert(leads_to(next, *final(app), Effect::Nothing));
    assert(final(app)@ == final(timed)@);
    lemma_agree(*final(app), *final(timed));
}

/// A file is sent under the last part of its path, to the device that it was
/// looked at for.
pub proof fn law_files_are_sent_under_their_name(
    app: &mut App,
    probe: FileProbe,
    there: bool,
    effect: Effect,
)
    requires
        call_ensures(App::file_probed, (app, probe, there), effect),
    ensures
        !there ==> effect is Nothing && says(*final(app), "File not found"@, MessageLevel::Error)
            && final(app).send_generation == old(app).send_generation,
        there ==> {
            &&& effect is Send
            &&& effect->Send_0.target == probe.target
            &&& same_words(effect->Send_0.pin, probe.pin)
            &&& effect->Send_0.payload is File
            &&& effect->Send_0.payload->path == probe.path
            &&& exists|name: Option<String>| #[trigger]
                ends_in(probe.path, name) && effect->Send_0.payload->label@ == (if name is Some {
                    name->0@
                } else {
                    "file"@
                })
            &&& final(app).send_file.is_sending
            &&& final(app).send_generation == effect->Send_0.generation
        },
{
    assert(final(app)@.send_file == final(app).send_file@);
    if there {
        let name = choose|name: Option<String>| #[trigger]
            ends_in(probe.path, name) && leads_to(
                old(app)@.probed(probe@, true, opt_text(name)),
                *final(app),
                effect,
            );
        assert(ends_in(probe.path, name));
        assert(effect@ == old(app)@.probed(probe@, true, opt_text(name)).1);
        assert(effect is Send);
        assert(effect@->Send_0 == effect->Send_0@);
    } else {
        let next = old(app)@.probed(probe@, false, None);
        assert(leads_to(next, *final(app), effect));
    }
}

} // verus!
