//! What holds of the interface as a whole.

use crate::outside::{arrives, handed, joined, path_from};
use crate::protocol::DeviceInfo;
use crate::server::events::{answered, PendingRequest, ServerEvent, TransferDecision};
use crate::tui::app::{App, Effect};
use crate::tui::input::{edited, empty_line, EditKey, InputView, KeyCode};
use crate::tui::popup::{picked, ConfirmView, DecisionView, PopupView};
use crate::tui::screens::{Screen, SendFileStage, SendTextStage};
use crate::tui::send::{JobView, PayloadView, SendKind, SendUpdate};
use crate::tui::steps::{
    leads_to, next_generation, replied, same_peer, AppView, EffectView, ProbeView,
};
use tokio::sync::oneshot;
use vstd::prelude::*;

verus! {

/// A report of an earlier send changes nothing, whatever it says.
pub proof fn law_stale_reports_are_ignored(app: AppView, update: SendUpdate)
    requires
        update.attempt() != app.generation,
    ensures
        app.send_update(update) == (AppView { dirty: true, ..app }),
{
}

/// A send that is left with `Esc` is cancelled: its screen is free again, and
/// none of its reports counts any more.
pub proof fn law_cancelled_sends_are_forgotten(app: AppView, now: u64, update: SendUpdate)
    requires
        app.popup is None,
        app.in_input(),
        app.screen == Screen::SendText ==> app.send_text.is_sending,
        app.screen == Screen::SendFile ==> app.send_file.is_sending,
        update.attempt() == app.generation,
    ensures
        ({
            let after = app.key(KeyCode::Esc, now).0;
            &&& !after.in_input()
            &&& app.screen == Screen::SendText ==> !after.send_text.is_sending
            &&& app.screen == Screen::SendFile ==> !after.send_file.is_sending
            &&& after.send_update(update) == (AppView { dirty: true, ..after })
        }),
{
}

/// A send that starts has a generation of its own, so that its reports count
/// and those of the send before do not.
pub proof fn law_new_sends_supersede(
    app: AppView,
    pin: Option<Seq<char>>,
    probe: ProbeView,
    there: bool,
    name: Option<Seq<char>>,
)
    ensures
        app.text_send(pin).1 matches EffectView::Send(job) ==> job.generation != app.generation
            && app.text_send(pin).0.generation == job.generation,
        app.probed(probe, there, name).1 matches EffectView::Send(job) ==> job.generation
            != app.generation && app.probed(probe, there, name).0.generation == job.generation,
{
}

/// While a send is in flight, `Enter` does not start another one.
pub proof fn law_one_send_at_a_time(app: AppView, now: u64)
    requires
        app.popup is None,
        app.in_input(),
        app.screen == Screen::SendText ==> app.send_text.is_sending,
        app.screen == Screen::SendFile ==> app.send_file.is_sending,
    ensures
        app.key(KeyCode::Enter, now).1 == EffectView::Nothing,
        app.key(KeyCode::Enter, now).0.generation == app.generation,
{
}

/// The prompt for a PIN opens when a send waits for one and no dialog is up.
/// It never takes the place of another dialog, and never comes unasked.
pub proof fn law_pin_prompt_waits_its_turn(app: AppView)
    ensures
        app.popup is Some ==> app.pin_prompted() == app,
        app.pending_pin is None ==> app.pin_prompted() == app,
        app.popup is None && app.pending_pin is Some ==> app.pin_prompted().popup == Some(
            PopupView::PinEntry(empty_line()),
        ),
        app.pin_prompted().pending_pin == app.pending_pin,
{
}

/// An incoming transfer is shown when no dialog is up or only the prompt for a
/// PIN is; the send that waits for the PIN still waits, and once the transfer
/// is answered its prompt is back.
pub proof fn law_transfers_preempt_the_pin_prompt(
    app: AppView,
    request: PendingRequest,
    time: String,
    key: KeyCode,
)
    requires
        app.popup is None || app.popup->0 is PinEntry,
        ConfirmView::of(request).decision(key) is Some,
    ensures
        ({
            let (shown, effect) = app.server_event(ServerEvent::TransferRequest(request), time);
            let (answered, reply) = shown.popup_key(key);
            &&& effect == EffectView::Nothing
            &&& shown.popup == Some(PopupView::TransferConfirm(ConfirmView::of(request)))
            &&& shown.pending_pin == app.pending_pin
            &&& reply is Reply
            &&& answered.pending_pin == app.pending_pin
            &&& app.pending_pin is Some ==> answered.pin_prompted().popup == Some(
                PopupView::PinEntry(empty_line()),
            )
        }),
{
}

/// A transfer that comes while any other dialog is up is declined, and the
/// dialog stays.
pub proof fn law_transfers_wait_for_no_other_dialog(
    app: AppView,
    request: PendingRequest,
    time: String,
)
    requires
        app.popup is Some,
        !(app.popup->0 is PinEntry),
    ensures
        app.server_event(ServerEvent::TransferRequest(request), time) == (
            AppView { dirty: true, ..app },
            EffectView::Reply(DecisionView::Decline, request.channel()),
        ),
{
}

/// A shown transfer is answered exactly once: a key either leaves it in its
/// dialog without an answer, or closes the dialog and answers it.
pub proof fn law_transfers_are_answered_once(app: AppView, dialog: ConfirmView, key: KeyCode)
    requires
        app.popup == Some(PopupView::TransferConfirm(dialog)),
    ensures
        ({
            let (after, effect) = app.popup_key(key);
            if dialog.decision(key) is Some {
                &&& after.popup is None
                &&& effect == EffectView::Reply(
                    (dialog.decision(key)->0).0,
                    dialog.request.channel(),
                )
            } else {
                &&& effect == EffectView::Nothing
                &&& after.popup matches Some(PopupView::TransferConfirm(next))
                &&& next.request == dialog.request
                &&& next.files == dialog.files
            }
        }),
{
}

/// The key that decides over a shown transfer answers the request that waits:
/// its decision, and no other, was handed to the channel on which the request
/// waits.
pub proof fn law_keys_answer_the_waiting_request(
    app: AppView,
    dialog: ConfirmView,
    key: KeyCode,
    receiver: oneshot::Receiver<TransferDecision>,
    after: App,
    left: Effect,
)
    requires
        app.popup == Some(PopupView::TransferConfirm(dialog)),
        dialog.decision(key) is Some,
        joined(dialog.request.channel(), receiver),
        leads_to(app.popup_key(key), after, left),
    ensures
        exists|decision: TransferDecision, sent: Result<(), TransferDecision>|
            decision@ == (dialog.decision(key)->0).0 && #[trigger] arrives(
                receiver,
                decision,
                sent,
            ),
{
    let channel = dialog.request.channel();
    assert(replied(channel, (dialog.decision(key)->0).0));
    let decision = choose|value: TransferDecision|
        value@ == (dialog.decision(key)->0).0 && #[trigger] answered(channel, value);
    let sent = choose|sent: Result<(), TransferDecision>| #[trigger]
        handed(channel, decision, sent);
    assert(joined(channel, receiver) && handed(channel, decision, sent));
    assert(arrives(receiver, decision, sent));
}

/// True when `id` is that of a selected file.
pub open spec fn is_selected(
    files: Seq<(Seq<char>, Seq<char>, u64)>,
    selected: Seq<bool>,
    id: Seq<char>,
) -> bool {
    exists|i: int|
        0 <= i < files.len() && i < selected.len() && selected[i] && (#[trigger] files[i]).0 == id
}

pub(crate) proof fn lemma_picked(files: Seq<(Seq<char>, Seq<char>, u64)>, selected: Seq<bool>)
    ensures
        picked(files, selected).len() <= files.len(),
        (selected.len() >= files.len() && forall|i: int|
            0 <= i < files.len() ==> #[trigger] selected[i]) ==> picked(files, selected).len()
            == files.len(),
        picked(files, selected).len() == files.len() ==> forall|i: int|
            0 <= i < files.len() ==> i < selected.len() && #[trigger] selected[i],
        (forall|i: int| 0 <= i < files.len() && i < selected.len() ==> !#[trigger] selected[i])
            ==> picked(files, selected).len() == 0,
        forall|k: int|
            0 <= k < picked(files, selected).len() ==> is_selected(
                files,
                selected,
                #[trigger] picked(files, selected)[k],
            ),
        forall|i: int|
            0 <= i < files.len() && i < selected.len() && selected[i] ==> picked(
                files,
                selected,
            ).contains((#[trigger] files[i]).0),
    decreases files.len(),
{
    if files.len() > 0 {
        let short = files.drop_last();
        lemma_picked(short, selected);
        let all = picked(files, selected);
        let some = picked(short, selected);
        assert forall|k: int| 0 <= k < all.len() implies is_selected(
            files,
            selected,
            #[trigger] all[k],
        ) by {
            if k < some.len() {
                assert(is_selected(short, selected, some[k]));
                let i = choose|i: int|
                    0 <= i < short.len() && i < selected.len() && selected[i] && (
                    #[trigger] short[i]).0 == some[k];
                assert(files[i].0 == all[k]);
            } else {
                assert(files[files.len() - 1].0 == all[k]);
            }
        }
        assert forall|i: int|
            0 <= i < files.len() && i < selected.len() && selected[i] implies all.contains(
            (#[trigger] files[i]).0,
        ) by {
            if i < short.len() {
                assert(some.contains(short[i].0));
                let k = choose|k: int| 0 <= k < some.len() && some[k] == short[i].0;
                assert(all[k] == files[i].0);
            } else {
                assert(all[all.len() - 1] == files[i].0);
            }
        }
    }
}

/// `Enter` in the dialog accepts what is selected: everything where all is,
/// nothing where nothing is, and otherwise the selected files and no others.
pub proof fn law_enter_accepts_the_selection(dialog: ConfirmView)
    requires
        dialog.wf(),
    ensures
        dialog.all_selected() && dialog.files.len() > 0 ==> (dialog.decision(KeyCode::Enter)->0).0
            == DecisionView::Accept,
        (forall|i: int| 0 <= i < dialog.selected.len() ==> !#[trigger] dialog.selected[i]) ==> (
        dialog.decision(KeyCode::Enter)->0).0 == DecisionView::Decline,
        (dialog.decision(KeyCode::Enter)->0).0 matches DecisionView::AcceptFiles(ids) ==> {
            &&& !dialog.all_selected()
            &&& forall|k: int|
                0 <= k < ids.len() ==> is_selected(
                    dialog.files,
                    dialog.selected,
                    #[trigger] ids[k],
                )
            &&& forall|i: int|
                0 <= i < dialog.files.len() && dialog.selected[i] ==> ids.contains(
                    (#[trigger] dialog.files[i]).0,
                )
        },
{
    lemma_picked(dialog.files, dialog.selected);
}

/// A new dialog has everything selected, so that `Enter` accepts it all.
pub proof fn law_new_dialogs_accept_all(request: PendingRequest)
    requires
        request.offered().keys().len() > 0,
    ensures
        ConfirmView::of(request).decision(KeyCode::Enter) == Some(
            (DecisionView::Accept, None::<Seq<char>>),
        ),
        ConfirmView::of(request).decision(KeyCode::Char('y')) == Some(
            (DecisionView::Accept, None::<Seq<char>>),
        ),
        (ConfirmView::of(request).decision(KeyCode::Esc)->0).0 == DecisionView::Decline,
{
    let dialog = ConfirmView::of(request);
    lemma_picked(dialog.files, dialog.selected);
}

/// Selecting a file twice changes nothing, and neither does selecting all and
/// then none where all was selected.
pub proof fn law_selection_toggles(dialog: ConfirmView)
    ensures
        dialog.toggled().toggled() == dialog,
        dialog.all_selected() && dialog.selected.len() > 0 ==> dialog.all_toggled().all_toggled()
            == dialog,
        !dialog.all_selected() ==> dialog.all_toggled().all_selected(),
{
    assert(dialog.toggled().toggled().selected =~= dialog.selected);
    if dialog.all_selected() && dialog.selected.len() > 0 {
        let none = dialog.all_toggled();
        assert(!none.selected[0]);
        assert(!none.all_selected());
        assert(none.all_toggled().selected =~= dialog.selected);
    }
}

/// The tabs go round: to the right and back is where it was, and so is four
/// times to the right.
pub proof fn law_tabs_go_round(app: AppView, now: u64, later: u64)
    requires
        app.popup is None,
        !app.in_input(),
    ensures
        app.screen.after().after().after().after() == app.screen,
        ({
            let right = app.key(KeyCode::Right, now).0;
            !right.in_input() ==> right.key(KeyCode::Left, later).0 == app
        }),
        ({
            let left = app.key(KeyCode::Left, now).0;
            !left.in_input() ==> left.key(KeyCode::Tab, later).0 == app
        }),
{
}

/// `q` quits, unless a dialog is up: no key in a dialog quits.
pub proof fn law_quit(app: AppView, key: KeyCode, now: u64)
    ensures
        app.popup is None ==> app.key(KeyCode::Char('q'), now).0.should_quit,
        app.popup is Some ==> app.key(key, now).0.should_quit == app.should_quit,
{
}

/// Auto-accept turned on and off again is what it was, and the server is told
/// each time.
pub proof fn law_auto_accept_toggles(app: AppView, now: u64, later: u64)
    requires
        app.popup is None,
        app.screen == Screen::Settings,
    ensures
        ({
            let (once, first, _) = app.key(KeyCode::Enter, now);
            let (twice, second, _) = once.key(KeyCode::Char(' '), later);
            &&& first == EffectView::SetAutoAccept(!app.settings.auto_accept)
            &&& second == EffectView::SetAutoAccept(app.settings.auto_accept)
            &&& twice.settings == app.settings
        }),
{
}

/// The state after the characters of `text` were typed.
pub open spec fn after_typing(app: AppView, text: Seq<char>, now: u64) -> AppView
    decreases text.len(),
{
    if text.len() == 0 {
        app
    } else {
        after_typing(app, text.drop_last(), now).key(KeyCode::Char(text.last()), now).0
    }
}

proof fn lemma_typed_at_end(text: Seq<char>, c: char)
    ensures
        edited(InputView { text, cursor: text.len() }, EditKey::Char(c)) == (InputView {
            text: text.push(c),
            cursor: text.len() + 1,
        }),
{
    assert(text.insert(text.len() as int, c) =~= text.push(c));
}

proof fn lemma_typing_a_message(app: AppView, text: Seq<char>, now: u64)
    requires
        app.popup is None,
        app.screen == Screen::SendText,
        app.send_text.stage == SendTextStage::EnterMessage,
        app.send_text.input == empty_line(),
        forall|i: int| 0 <= i < text.len() ==> #[trigger] text[i] != 'q',
    ensures
        ({
            let after = after_typing(app, text, now);
            &&& after.popup is None
            &&& after.screen == Screen::SendText
            &&& after.send_text.stage == SendTextStage::EnterMessage
            &&& after.send_text.input == (InputView { text, cursor: text.len() })
            &&& after.send_text.is_sending == app.send_text.is_sending
            &&& after.send_text.selected_device == app.send_text.selected_device
            &&& after.generation == app.generation
            &&& after.device_info == app.device_info
        }),
    decreases text.len(),
{
    if text.len() > 0 {
        let short = text.drop_last();
        assert forall|i: int| 0 <= i < short.len() implies #[trigger] short[i] != 'q' by {
            assert(short[i] == text[i]);
        }
        lemma_typing_a_message(app, short, now);
        lemma_typed_at_end(short, text.last());
        assert(short.push(text.last()) =~= text);
        assert(text[text.len() - 1] != 'q');
    } else {
        assert(text =~= Seq::empty());
    }
}

/// What is typed is what is sent: a message of any characters but `q`, which
/// quits, goes to the chosen device as it was typed.
pub proof fn law_typed_messages_are_sent(app: AppView, text: Seq<char>, now: u64)
    requires
        app.popup is None,
        app.screen == Screen::SendText,
        app.send_text.stage == SendTextStage::EnterMessage,
        app.send_text.input == empty_line(),
        !app.send_text.is_sending,
        app.send_text.selected_device is Some,
        text.len() > 0,
        forall|i: int| 0 <= i < text.len() ==> #[trigger] text[i] != 'q',
    ensures
        after_typing(app, text, now).key(KeyCode::Enter, now).1 == EffectView::Send(
            JobView {
                generation: next_generation(app.generation),
                device: app.device_info,
                target: app.send_text.selected_device->0,
                pin: None,
                payload: PayloadView::Text(text),
            },
        ),
{
    lemma_typing_a_message(app, text, now);
}

proof fn lemma_typing_a_path(app: AppView, text: Seq<char>, now: u64)
    requires
        app.popup is None,
        app.screen == Screen::SendFile,
        app.send_file.stage == SendFileStage::EnterFilePath,
        app.send_file.input == empty_line(),
        !app.send_file.is_sending,
        forall|i: int| 0 <= i < text.len() ==> #[trigger] text[i] != 'q',
    ensures
        ({
            let after = after_typing(app, text, now);
            &&& after.popup is None
            &&& after.screen == Screen::SendFile
            &&& after.send_file.stage == SendFileStage::EnterFilePath
            &&& after.send_file.input == (InputView { text, cursor: text.len() })
            &&& !after.send_file.is_sending
            &&& after.send_file.selected_device == app.send_file.selected_device
        }),
    decreases text.len(),
{
    if text.len() > 0 {
        let short = text.drop_last();
        assert forall|i: int| 0 <= i < short.len() implies #[trigger] short[i] != 'q' by {
            assert(short[i] == text[i]);
        }
        lemma_typing_a_path(app, short, now);
        lemma_typed_at_end(short, text.last());
        assert(short.push(text.last()) =~= text);
        assert(text[text.len() - 1] != 'q');
    } else {
        assert(text =~= Seq::empty());
    }
}

/// The path that is typed is the one that is looked at: of any characters but
/// `q`, which quits, it is taken as it was typed.
pub proof fn law_typed_paths_are_looked_at(app: AppView, text: Seq<char>, now: u64)
    requires
        app.popup is None,
        app.screen == Screen::SendFile,
        app.send_file.stage == SendFileStage::EnterFilePath,
        app.send_file.input == empty_line(),
        !app.send_file.is_sending,
        app.send_file.selected_device is Some,
        text.len() > 0,
        forall|i: int| 0 <= i < text.len() ==> #[trigger] text[i] != 'q',
    ensures
        after_typing(app, text, now).key(KeyCode::Enter, now).1 == EffectView::Probe(
            ProbeView {
                target: app.send_file.selected_device->0,
                path: path_from(text),
                pin: None,
            },
        ),
{
    lemma_typing_a_path(app, text, now);
}

proof fn lemma_typing_a_pin(app: AppView, pin: Seq<char>, now: u64)
    requires
        app.popup == Some(PopupView::PinEntry(empty_line())),
    ensures
        after_typing(app, pin, now) == (AppView {
            popup: Some(PopupView::PinEntry(InputView { text: pin, cursor: pin.len() })),
            ..app
        }),
    decreases pin.len(),
{
    if pin.len() > 0 {
        let short = pin.drop_last();
        lemma_typing_a_pin(app, short, now);
        lemma_typed_at_end(short, pin.last());
        assert(short.push(pin.last()) =~= pin);
    } else {
        assert(pin =~= Seq::empty());
    }
}

/// A receiver that asks for a PIN gets it: the user is prompted, and the same
/// send is tried again with what is typed. A text goes again to the same
/// device, a file is looked at again under the same path.
pub proof fn law_pin_is_sent_with_the_same_send(
    app: AppView,
    kind: SendKind,
    pin: Seq<char>,
    now: u64,
)
    requires
        app.popup is None,
        pin.len() > 0,
        kind == SendKind::Text ==> app.send_text.selected_device is Some
            && app.send_text.input.text.len() > 0,
        kind == SendKind::File ==> app.send_file.selected_device is Some
            && app.send_file.input.text.len() > 0,
    ensures
        ({
            let asked = app.send_update(SendUpdate::NeedsPin { generation: app.generation, kind });
            let prompted = asked.pin_prompted();
            let (after, effect, _) = after_typing(prompted, pin, now).key(KeyCode::Enter, now);
            &&& prompted.popup == Some(PopupView::PinEntry(empty_line()))
            &&& after.popup is None
            &&& after.pending_pin is None
            &&& kind == SendKind::Text ==> effect == app.text_send(Some(pin)).1
            &&& kind == SendKind::Text ==> effect is Send
            &&& kind == SendKind::File ==> effect == app.file_send(Some(pin))
            &&& kind == SendKind::File ==> effect is Probe
        }),
{
    let asked = app.send_update(SendUpdate::NeedsPin { generation: app.generation, kind });
    let prompted = asked.pin_prompted();
    lemma_typing_a_pin(prompted, pin, now);
}

/// No peer stands twice in the list of devices, by fingerprint or by address,
/// and this device does not stand in it.
pub open spec fn distinct_peers(app: AppView) -> bool {
    &&& forall|i: int|
        0 <= i < app.devices.len() ==> (#[trigger] app.devices[i]).fingerprint@
            != app.device_info.fingerprint@
    &&& forall|i: int, j: int|
        0 <= i < j < app.devices.len() ==> !same_peer(
            #[trigger] app.devices[i],
            #[trigger] app.devices[j],
        )
}

/// A discovered device never makes the list ambiguous, and a new search starts
/// with an empty list.
pub proof fn law_devices_stay_distinct(app: AppView, device: DeviceInfo, now: u64)
    requires
        distinct_peers(app),
    ensures
        distinct_peers(app.discovered(device)),
        distinct_peers(app.refreshed(now)),
        app.discovered(device).discovered(device) == app.discovered(device),
{
    let after = app.discovered(device);
    if after != app {
        assert(after.devices[after.devices.len() - 1] == device);
        assert(same_peer(after.devices[after.devices.len() - 1], device));
        assert forall|i: int, j: int| 0 <= i < j < after.devices.len() implies !same_peer(
            #[trigger] after.devices[i],
            #[trigger] after.devices[j],
        ) by {
            if j == after.devices.len() - 1 {
                assert(!same_peer(app.devices[i], device));
            } else {
                assert(!same_peer(app.devices[i], app.devices[j]));
            }
        }
        assert forall|i: int| 0 <= i < after.devices.len() implies (
        #[trigger] after.devices[i]).fingerprint@ != after.device_info.fingerprint@ by {
            if i < app.devices.len() {
                assert(app.devices[i].fingerprint@ != app.device_info.fingerprint@);
            }
        }
    }
}

/// `r` on a list of devices starts a new search: the list is empty, the search
/// is shown as going on, and the device announces itself.
pub proof fn law_refresh_starts_a_search(app: AppView, now: u64)
    requires
        app.popup is None,
        app.screen == Screen::SendText || app.screen == Screen::SendFile,
        !app.in_input(),
        now < u64::MAX,
    ensures
        ({
            let (after, _, announce) = app.key(KeyCode::Char('r'), now);
            &&& announce
            &&& after.devices.len() == 0
            &&& after.scanning(now)
            &&& !after.refresh_asked()
        }),
{
}

/// The gauge never shows more than all of a file.
pub proof fn law_gauge_is_bounded(app: AppView, update: SendUpdate)
    requires
        app.send_file.sent <= app.send_file.total,
    ensures
        app.send_update(update).send_file.sent <= app.send_update(update).send_file.total,
{
}

/// A finished send leaves its screen ready for the next one.
pub proof fn law_finished_sends_free_the_screen(
    app: AppView,
    kind: SendKind,
    label: String,
    error: Option<String>,
)
    ensures
        ({
            let after = app.send_update(
                SendUpdate::Finished { generation: app.generation, kind, label, error },
            );
            &&& kind == SendKind::Text ==> !after.send_text.is_sending && after.send_text.stage
                == SendTextStage::SelectDevice && after.send_text.input == empty_line()
            &&& kind == SendKind::File ==> !after.send_file.is_sending && after.send_file.stage
                == SendFileStage::SelectDevice && after.send_file.input == empty_line()
        }),
{
}

} // verus!
