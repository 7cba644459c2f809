//! What the dialogs show, and what their keys do.

use crate::id_map::IdMap;
use crate::outside::{input_cursor, input_text, path_from};
use crate::protocol::{FileId, FileMetadata, PrepareUploadRequest, PrepareUploadResponse};
use crate::server::events::{answered, PendingRequest, ServerEvent, TransferDecision};
use crate::server::handlers::PrepareUploadReply;
use crate::server::state::ServerState;
use crate::server::transfer_laws::{law_answers_open_what_they_accept, said_yes};
use crate::text_laws::{lemma_decimal_is_a_numeral, numeral};
use crate::tui::app::{App, Effect};
use crate::tui::input::KeyCode;
use crate::tui::key_laws::{
    following, lemma_agree, moves, same_device, same_file_screen, same_line, same_peers,
    same_status, same_text_screen, says, sends_text, types,
};
use crate::tui::laws::lemma_picked;
use crate::tui::popup::{
    file_view, id_views, picked, ConfirmFile, ConfirmState, ConfirmView, DecisionView, MessageLevel,
    Popup, PopupView,
};
use crate::tui::send::SendKind;
use crate::tui::steps::{replied, AppView, EffectView};
use vstd::prelude::*;

verus! {

/// True when two lists of the dialog show the same files.
pub open spec fn same_files(a: Seq<ConfirmFile>, b: Seq<ConfirmFile>) -> bool {
    a.len() == b.len() && forall|i: int|
        0 <= i < a.len() ==> (#[trigger] a[i]).id.text@ == b[i].id.text@ && a[i].file_name@
            == b[i].file_name@ && a[i].size == b[i].size
}

/// A new dialog shows every offered file with its name and its size, all of them
/// selected, with the cursor on the first.
pub proof fn law_dialogs_show_the_whole_offer(
    request: PendingRequest,
    offered: &IdMap<FileMetadata>,
    dialog: ConfirmState,
    popup: Popup,
)
    requires
        call_ensures(PendingRequest::files, (&request,), offered),
        call_ensures(ConfirmState::new, (request,), dialog),
        call_ensures(Popup::confirm, (request,), popup),
    ensures
        dialog.request == request,
        dialog.cursor == 0,
        dialog.files@.len() == offered.keys().len(),
        dialog.selected@.len() == dialog.files@.len(),
        forall|i: int|
            0 <= i < dialog.files@.len() ==> {
                &&& (#[trigger] dialog.files@[i]).id.text@ == offered.keys()[i]
                &&& dialog.files@[i].file_name@ == offered@[offered.keys()[i]].file_name@
                &&& dialog.files@[i].size == offered@[offered.keys()[i]].size
            },
        forall|i: int| 0 <= i < dialog.selected@.len() ==> #[trigger] dialog.selected@[i],
        popup is TransferConfirm,
        popup->TransferConfirm_0.request == request,
        same_files(popup->TransferConfirm_0.files@, dialog.files@),
        popup->TransferConfirm_0.selected@ == dialog.selected@,
        popup->TransferConfirm_0.cursor == 0,
{
    let shown = dialog@;
    assert(shown == ConfirmView::of(request));
    assert(shown.files.len() == dialog.files@.len());
    assert forall|i: int| 0 <= i < dialog.files@.len() implies file_view(
        #[trigger] dialog.files@[i],
    ) == ConfirmView::of(request).files[i] by {
        assert(shown.files[i] == file_view(dialog.files@[i]));
    }
    assert forall|i: int| 0 <= i < dialog.selected@.len() implies #[trigger] dialog.selected@[i] by {
        assert(shown.selected[i]);
    }
    let other = popup->TransferConfirm_0;
    assert(popup@->TransferConfirm_0 == other@);
    assert(other@.files.len() == other.files@.len());
    assert forall|i: int| 0 <= i < other.files@.len() implies file_view(#[trigger] other.files@[i])
        == file_view(dialog.files@[i]) by {
        assert(other@.files[i] == file_view(other.files@[i]));
        assert(shown.files[i] == file_view(dialog.files@[i]));
    }
}

/// The dialog on top of the application.
pub open spec fn dialog_of(app: App) -> ConfirmState {
    app.popup->0->TransferConfirm_0
}

/// True when a transfer is asked about.
pub open spec fn asking(app: App) -> bool {
    app.popup is Some && app.popup->0 is TransferConfirm
}

/// True when the file at place `i` of the dialog is selected.
pub open spec fn ticked(dialog: ConfirmState, i: int) -> bool {
    0 <= i < dialog.selected@.len() && dialog.selected@[i]
}

/// True for the keys that decide over a transfer.
pub open spec fn decides(key: KeyCode) -> bool {
    ||| key == KeyCode::Enter
    ||| key == KeyCode::Esc
    ||| key == KeyCode::Char('y')
    ||| key == KeyCode::Char('Y')
    ||| key == KeyCode::Char('n')
    ||| key == KeyCode::Char('N')
}

proof fn lemma_dialog_view(app: App)
    requires
        asking(app),
    ensures
        app@.popup == Some(PopupView::TransferConfirm(dialog_of(app)@)),
        dialog_of(app)@.files.len() == dialog_of(app).files@.len(),
        forall|i: int|
            0 <= i < dialog_of(app).files@.len() ==> #[trigger] dialog_of(app)@.files[i]
                == file_view(dialog_of(app).files@[i]),
{
}

/// The keys that do not decide keep the transfer in its dialog, unanswered: the
/// arrows move the cursor, a space turns the selection of the file under it and
/// of no other, and `a` selects everything, or nothing where everything was.
pub proof fn law_selections_are_made_one_by_one(app: &mut App, key: KeyCode, res: Effect)
    requires
        call_ensures(App::handle_popup_key, (app, key), res),
        asking(*old(app)),
        !decides(key),
    ensures
        res is Nothing,
        asking(*final(app)),
        dialog_of(*final(app)).request == dialog_of(*old(app)).request,
        same_files(dialog_of(*final(app)).files@, dialog_of(*old(app)).files@),
        moves(
            key,
            dialog_of(*old(app)).cursor as int,
            dialog_of(*old(app)).files@.len() as int,
            dialog_of(*final(app)).cursor as int,
        ),
        dialog_of(*final(app)).selected@.len() == dialog_of(*old(app)).selected@.len(),
        forall|i: int|
            0 <= i < dialog_of(*old(app)).selected@.len() ==> ticked(dialog_of(*final(app)), i) == (
            if key == KeyCode::Char(' ') && i == dialog_of(*old(app)).cursor {
                !#[trigger] ticked(dialog_of(*old(app)), i)
            } else if key == KeyCode::Char('a') || key == KeyCode::Char('A') {
                exists|j: int|
                    0 <= j < dialog_of(*old(app)).selected@.len() && !#[trigger] ticked(
                        dialog_of(*old(app)),
                        j,
                    )
            } else {
                ticked(dialog_of(*old(app)), i)
            }),
        same_text_screen(final(app).send_text, old(app).send_text),
        same_file_screen(final(app).send_file, old(app).send_file),
        same_device(*final(app), *old(app)),
        same_peers(*final(app), *old(app)),
        same_status(*final(app), *old(app)),
        final(app).screen == old(app).screen,
        final(app).send_generation == old(app).send_generation,
        final(app).pending_pin_kind == old(app).pending_pin_kind,
        final(app).should_quit == old(app).should_quit,
{
    assert(final(app)@.send_text == final(app).send_text@);
    assert(final(app)@.send_file == final(app).send_file@);
    let before = dialog_of(*old(app));
    lemma_dialog_view(*old(app));
    assert(before@.decision(key) is None);
    let moved = before@.moved(key);
    assert(final(app)@.popup == Some(PopupView::TransferConfirm(moved)));
    assert(asking(*final(app)));
    lemma_dialog_view(*final(app));
    let after = dialog_of(*final(app));
    assert(after@ == moved);
    assert forall|i: int| 0 <= i < after.files@.len() implies file_view(#[trigger] after.files@[i])
        == file_view(before.files@[i]) by {
        assert(after@.files[i] == file_view(after.files@[i]));
        assert(before@.files[i] == file_view(before.files@[i]));
    }
    if key == KeyCode::Char('a') || key == KeyCode::Char('A') {
        if exists|j: int| 0 <= j < before.selected@.len() && !#[trigger] ticked(before, j) {
            let j = choose|j: int| 0 <= j < before.selected@.len() && !#[trigger] ticked(before, j);
            assert(!before@.selected[j]);
            assert(!before@.all_selected());
        } else {
            assert forall|j: int| 0 <= j < before@.selected.len() implies #[trigger] before@.selected[j] by {
                assert(ticked(before, j));
            }
            assert(before@.all_selected());
        }
    }
}

/// How many of the first `n` ticks are set.
pub open spec fn ticks(selected: Seq<bool>, n: int) -> int
    decreases n,
{
    if n <= 0 {
        0
    } else if n <= selected.len() && selected[n - 1] {
        ticks(selected, n - 1) + 1
    } else {
        ticks(selected, n - 1)
    }
}

/// True when `ids` names each ticked file once, in the order of the dialog.
pub open spec fn lists_the_ticked(dialog: ConfirmState, ids: Seq<FileId>) -> bool {
    &&& ids.len() == ticks(dialog.selected@, dialog.files@.len() as int)
    &&& forall|i: int|
        0 <= i < dialog.files@.len() && #[trigger] ticked(dialog, i) ==> {
            let place = ticks(dialog.selected@, i);
            0 <= place < ids.len() && ids[place].text@ == dialog.files@[i].id.text@
        }
}

spec fn in_its_place(
    files: Seq<(Seq<char>, Seq<char>, u64)>,
    selected: Seq<bool>,
    i: int,
) -> bool {
    let place = ticks(selected, i);
    0 <= place < picked(files, selected).len() && picked(files, selected)[place] == files[i].0
}

proof fn lemma_ticks(files: Seq<(Seq<char>, Seq<char>, u64)>, selected: Seq<bool>)
    ensures
        picked(files, selected).len() == ticks(selected, files.len() as int),
        forall|i: int|
            0 <= i < files.len() && i < selected.len() && selected[i] ==> #[trigger] in_its_place(
                files,
                selected,
                i,
            ),
    decreases files.len(),
{
    if files.len() > 0 {
        let short = files.drop_last();
        lemma_ticks(short, selected);
        assert forall|i: int|
            0 <= i < files.len() && i < selected.len() && selected[i] implies #[trigger] in_its_place(
            files,
            selected,
            i,
        ) by {
            if i < short.len() {
                assert(in_its_place(short, selected, i));
                assert(short[i] == files[i]);
            } else {
                assert(picked(files, selected) == picked(short, selected).push(files.last().0));
            }
        }
    }
}

/// Where `ids` reads as the choice of the dialog, it lists the ticked files.
pub(crate) proof fn lemma_choice(dialog: ConfirmState, ids: Seq<FileId>)
    requires
        id_views(ids) == dialog@.choice(),
    ensures
        lists_the_ticked(dialog, ids),
{
    let view = dialog@;
    lemma_ticks(view.files, view.selected);
    assert(view.files.len() == dialog.files@.len());
    assert(id_views(ids).len() == ids.len());
    assert forall|i: int| 0 <= i < dialog.files@.len() && #[trigger] ticked(dialog, i) implies {
        let place = ticks(dialog.selected@, i);
        0 <= place < ids.len() && ids[place].text@ == dialog.files@[i].id.text@
    } by {
        assert(in_its_place(view.files, view.selected, i));
        assert(view.files[i] == file_view(dialog.files@[i]));
        let place = ticks(dialog.selected@, i);
        assert(id_views(ids)[place] == ids[place]@);
    }
}

/// True when the decision says yes to the ticked files of the dialog, and to
/// nothing else of it.
pub open spec fn takes_the_ticked(dialog: ConfirmState, decision: TransferDecision) -> bool {
    forall|i: int|
        0 <= i < dialog.files@.len() ==> (said_yes(
            Some(decision),
            (#[trigger] dialog.files@[i]).id.text@,
        ) <==> exists|j: int|
            0 <= j < dialog.files@.len() && #[trigger] ticked(dialog, j)
                && dialog.files@[j].id.text@ == dialog.files@[i].id.text@)
}

/// The keys that decide take the dialog down and answer the waiting transfer, on
/// its own channel. `Enter` says yes to the files that are ticked and to no
/// others; with none of them ticked it declines, as `n` and `Esc` do; with all of
/// them it accepts everything, as `y` does.
pub proof fn law_keys_decide_over_the_transfer(app: &mut App, key: KeyCode, res: Effect)
    requires
        call_ensures(App::handle_popup_key, (app, key), res),
        asking(*old(app)),
        decides(key),
        dialog_of(*old(app)).selected@.len() == dialog_of(*old(app)).files@.len(),
    ensures
        res is Nothing,
        final(app).popup is None,
        ({
            let dialog = dialog_of(*old(app));
            let channel = dialog.request.channel();
            let all = dialog.files@.len() > 0 && forall|i: int|
                0 <= i < dialog.files@.len() ==> #[trigger] ticked(dialog, i);
            let none = forall|i: int| 0 <= i < dialog.files@.len() ==> !#[trigger] ticked(dialog, i);
            let yes = key == KeyCode::Char('y') || key == KeyCode::Char('Y') || key
                == KeyCode::Enter && all;
            let no = key == KeyCode::Char('n') || key == KeyCode::Char('N') || key == KeyCode::Esc
                || key == KeyCode::Enter && none;
            &&& yes ==> answered(channel, TransferDecision::Accept) && same_status(
                *final(app),
                *old(app),
            )
            &&& no ==> answered(channel, TransferDecision::Decline) && says(
                *final(app),
                "Transfer declined"@,
                MessageLevel::Info,
            )
            &&& !yes && !no ==> exists|ids: Vec<FileId>|
                {
                    &&& #[trigger] answered(channel, TransferDecision::AcceptFiles(ids))
                    &&& takes_the_ticked(dialog, TransferDecision::AcceptFiles(ids))
                    &&& forall|j: int|
                        0 <= j < ids@.len() ==> exists|i: int|
                            0 <= i < dialog.files@.len() && #[trigger] ticked(dialog, i)
                                && dialog.files@[i].id.text@ == (#[trigger] ids@[j]).text@
                    &&& exists|digits: Seq<char>| #[trigger]
                        numeral(digits, ids@.len() as int) && says(
                            *final(app),
                            "Accepting "@ + digits + " file(s)"@,
                            MessageLevel::Info,
                        )
                }
        }),
        final(app).send_generation == old(app).send_generation,
        final(app).pending_pin_kind == old(app).pending_pin_kind,
        final(app).should_quit == old(app).should_quit,
        same_text_screen(final(app).send_text, old(app).send_text),
        same_file_screen(final(app).send_file, old(app).send_file),
        same_device(*final(app), *old(app)),
        same_peers(*final(app), *old(app)),
        final(app).screen == old(app).screen,
{
    let dialog = dialog_of(*old(app));
    let channel = dialog.request.channel();
    lemma_dialog_view(*old(app));
    let view = dialog@;
    lemma_picked(view.files, view.selected);
    let choice = view.choice();
    let all = dialog.files@.len() > 0 && forall|i: int|
        0 <= i < dialog.files@.len() ==> #[trigger] ticked(dialog, i);
    let none = forall|i: int| 0 <= i < dialog.files@.len() ==> !#[trigger] ticked(dialog, i);
    if all {
        assert forall|i: int| 0 <= i < view.files.len() implies #[trigger] view.selected[i] by {
            assert(ticked(dialog, i));
        }
        assert(choice.len() == view.files.len());
    }
    if none {
        assert forall|i: int| 0 <= i < view.files.len() && i < view.selected.len() implies !(
        #[trigger] view.selected[i]) by {
            assert(!ticked(dialog, i));
        }
        assert(choice.len() == 0);
    } else {
        let i = choose|i: int| 0 <= i < dialog.files@.len() && #[trigger] ticked(dialog, i);
        assert(view.selected[i]);
        assert(choice.contains(view.files[i].0));
        assert(choice.len() > 0);
    }
    if !all && dialog.files@.len() > 0 {
        let i = choose|i: int| 0 <= i < dialog.files@.len() && !#[trigger] ticked(dialog, i);
        assert(!view.selected[i]);
        assert(choice.len() != view.files.len());
    }
    assert(view.decision(key) is Some);
    let decided = (view.decision(key)->0).0;
    assert(replied(channel, decided));
    let value = choose|value: TransferDecision|
        value@ == decided && #[trigger] answered(channel, value);
    assert(value@ == decided && answered(channel, value));
    assert(final(app)@.send_text == final(app).send_text@);
    assert(final(app)@.send_file == final(app).send_file@);
    if value is AcceptFiles {
        let ids = value->AcceptFiles_0;
        assert(id_views(ids@) == choice);
        assert(ids@.len() == choice.len());
        assert forall|j: int| 0 <= j < ids@.len() implies (#[trigger] ids@[j]).text@ == choice[j] by {
            assert(id_views(ids@)[j] == ids@[j]@);
        }
        assert forall|j: int| 0 <= j < ids@.len() implies exists|i: int|
            0 <= i < dialog.files@.len() && #[trigger] ticked(dialog, i)
                && dialog.files@[i].id.text@ == (#[trigger] ids@[j]).text@ by {
            assert(crate::tui::laws::is_selected(view.files, view.selected, choice[j]));
            let i = choose|i: int|
                0 <= i < view.files.len() && i < view.selected.len() && view.selected[i] && (
                #[trigger] view.files[i]).0 == choice[j];
            assert(view.files[i] == file_view(dialog.files@[i]));
            assert(ticked(dialog, i));
        }
        assert forall|i: int| 0 <= i < dialog.files@.len() implies (said_yes(
            Some(value),
            (#[trigger] dialog.files@[i]).id.text@,
        ) <==> exists|j: int|
            0 <= j < dialog.files@.len() && #[trigger] ticked(dialog, j)
                && dialog.files@[j].id.text@ == dialog.files@[i].id.text@) by {
            let id = dialog.files@[i].id.text@;
            if said_yes(Some(value), id) {
                let j = choose|j: int| 0 <= j < ids@.len() && (#[trigger] ids@[j]).text@ == id;
                let k = choose|k: int|
                    0 <= k < dialog.files@.len() && #[trigger] ticked(dialog, k)
                        && dialog.files@[k].id.text@ == ids@[j].text@;
                assert(ticked(dialog, k));
            }
            if exists|j: int|
                0 <= j < dialog.files@.len() && #[trigger] ticked(dialog, j)
                    && dialog.files@[j].id.text@ == id {
                let j = choose|j: int|
                    0 <= j < dialog.files@.len() && #[trigger] ticked(dialog, j)
                        && dialog.files@[j].id.text@ == id;
                assert(view.selected[j]);
                assert(view.files[j] == file_view(dialog.files@[j]));
                assert(choice.contains(view.files[j].0));
                let k = choose|k: int| 0 <= k < choice.len() && choice[k] == view.files[j].0;
                assert(ids@[k].text@ == id);
            }
        }
        assert(takes_the_ticked(dialog, value));
        lemma_decimal_is_a_numeral(choice.len());
        assert(numeral(crate::text::decimal(choice.len()), ids@.len() as int));
        assert(answered(channel, TransferDecision::AcceptFiles(ids)));
    }
}

/// What is ticked is what is received: where `Enter` decides over some of the
/// files, the sender gets tokens for the ticked ones and for no others.
pub proof fn law_ticked_files_get_their_tokens(
    dialog: ConfirmState,
    decision: TransferDecision,
    state: &mut ServerState,
    request: PrepareUploadRequest,
    now: u64,
    response: PrepareUploadResponse,
    told: Vec<ServerEvent>,
    i: int,
)
    requires
        takes_the_ticked(dialog, decision),
        request.files@.dom().finite(),
        0 <= i < dialog.files@.len(),
        request.files@.contains_key(dialog.files@[i].id.text@),
        call_ensures(
            ServerState::finish_prepare_upload,
            (state, &request, Some(decision), now),
            (PrepareUploadReply::Session(response), told),
        ),
    ensures
        response.files@.contains_key(dialog.files@[i].id.text@) <==> exists|j: int|
            0 <= j < dialog.files@.len() && #[trigger] ticked(dialog, j)
                && dialog.files@[j].id.text@ == dialog.files@[i].id.text@,
{
    law_answers_open_what_they_accept(
        state,
        request,
        Some(decision),
        now,
        PrepareUploadReply::Session(response),
        told,
    );
    let k = dialog.files@[i].id.text@;
    assert(response.files@.contains_key(k) == (request.files@.contains_key(k) && said_yes(
        Some(decision),
        k,
    )));
}

/// Where `Enter` accepts some of the files, it names each ticked file once, in
/// the order of the dialog.
pub proof fn law_enter_names_the_ticked(app: &mut App, res: Effect)
    requires
        call_ensures(App::handle_popup_key, (app, KeyCode::Enter), res),
        asking(*old(app)),
        ({
            let dialog = dialog_of(*old(app));
            let n = ticks(dialog.selected@, dialog.files@.len() as int);
            0 < n < dialog.files@.len()
        }),
    ensures
        exists|ids: Vec<FileId>| #[trigger]
            answered(
                dialog_of(*old(app)).request.channel(),
                TransferDecision::AcceptFiles(ids),
            ) && lists_the_ticked(dialog_of(*old(app)), ids@),
{
    let dialog = dialog_of(*old(app));
    let channel = dialog.request.channel();
    lemma_dialog_view(*old(app));
    let view = dialog@;
    lemma_ticks(view.files, view.selected);
    assert(view.files.len() == dialog.files@.len());
    let decided = (view.decision(KeyCode::Enter)->0).0;
    assert(decided == DecisionView::AcceptFiles(view.choice()));
    assert(replied(channel, decided));
    let value = choose|value: TransferDecision|
        value@ == decided && #[trigger] answered(channel, value);
    assert(value@ == decided && answered(channel, value));
    assert(value is AcceptFiles);
    let ids = value->AcceptFiles_0;
    lemma_choice(dialog, ids@);
    assert(answered(channel, TransferDecision::AcceptFiles(ids)));
}

proof fn lemma_put_away(view: AppView, key: KeyCode)
    requires
        view.popup is None || view.popup->0 is Message || view.popup->0 is TransferProgress,
    ensures
        view.popup_key(key).1 == EffectView::Nothing,
        view.popup_key(key).0 == (AppView { popup: view.popup_key(key).0.popup, ..view }),
        view.popup is Some && view.popup->0 is Message && (key == KeyCode::Enter || key
            == KeyCode::Esc) ==> view.popup_key(key).0.popup is None,
        !(view.popup is Some && view.popup->0 is Message && (key == KeyCode::Enter || key
            == KeyCode::Esc)) ==> view.popup_key(key).0.popup == view.popup,
{
}

/// A message is put away with `Enter` or `Esc` and with no other key, and
/// progress stays whatever is pressed; neither does anything else.
pub proof fn law_messages_are_put_away(app: &mut App, key: KeyCode, res: Effect)
    requires
        call_ensures(App::handle_popup_key, (app, key), res),
        old(app).popup is None || old(app).popup->0 is Message || old(app).popup->0
            is TransferProgress,
    ensures
        res is Nothing,
        old(app).popup is None ==> final(app).popup is None,
        old(app).popup is Some && old(app).popup->0 is Message ==> {
            let away = key == KeyCode::Enter || key == KeyCode::Esc;
            &&& away ==> final(app).popup is None
            &&& !away ==> final(app).popup is Some && final(app).popup->0 is Message
                && final(app).popup->0->text@ == old(app).popup->0->text@
        },
        old(app).popup is Some && old(app).popup->0 is TransferProgress ==> final(app).popup is Some
            && final(app).popup->0 is TransferProgress,
        same_text_screen(final(app).send_text, old(app).send_text),
        same_file_screen(final(app).send_file, old(app).send_file),
        same_device(*final(app), *old(app)),
        same_peers(*final(app), *old(app)),
        same_status(*final(app), *old(app)),
        final(app).pending_pin_kind == old(app).pending_pin_kind,
        final(app).send_generation == old(app).send_generation,
{
    lemma_put_away(old(app)@, key);
    assert(final(app)@ == old(app)@.popup_key(key).0);
    assert(res@ == old(app)@.popup_key(key).1);
    lemma_agree(*final(app), *old(app));
    if final(app).popup is Some {
        assert(final(app)@.popup == Some(final(app).popup->0@));
    }
    if old(app).popup is Some {
        assert(old(app)@.popup == Some(old(app).popup->0@));
    }
}

/// True when the prompt for a PIN is up.
pub open spec fn prompting(app: App) -> bool {
    app.popup is Some && app.popup->0 is PinEntry
}

/// In the prompt for a PIN every key but `Enter` and `Esc` edits what is typed,
/// and does nothing else.
pub proof fn law_keys_write_the_pin(app: &mut App, key: KeyCode, res: Effect)
    requires
        call_ensures(App::handle_popup_key, (app, key), res),
        prompting(*old(app)),
        key != KeyCode::Enter && key != KeyCode::Esc,
    ensures
        res is Nothing,
        prompting(*final(app)),
        types(old(app).popup->0->input, key, final(app).popup->0->input),
        same_text_screen(final(app).send_text, old(app).send_text),
        same_file_screen(final(app).send_file, old(app).send_file),
        same_device(*final(app), *old(app)),
        same_peers(*final(app), *old(app)),
        same_status(*final(app), *old(app)),
        final(app).pending_pin_kind == old(app).pending_pin_kind,
        final(app).send_generation == old(app).send_generation,
        final(app).screen == old(app).screen,
        final(app).should_quit == old(app).should_quit,
{
    assert(final(app)@.send_text == final(app).send_text@);
    assert(final(app)@.send_file == final(app).send_file@);
    assert(old(app)@.popup == Some(old(app).popup->0@));
    assert(final(app).popup is Some);
    assert(final(app)@.popup == Some(final(app).popup->0@));
}

/// `Esc` in the prompt gives the send up, and so does `Enter` with nothing
/// typed.
pub proof fn law_sends_are_given_up_in_the_prompt(app: &mut App, key: KeyCode, res: Effect)
    requires
        call_ensures(App::handle_popup_key, (app, key), res),
        prompting(*old(app)),
        key == KeyCode::Esc || key == KeyCode::Enter && input_text(
            old(app).popup->0->input,
        ).len() == 0,
    ensures
        res is Nothing,
        final(app).popup is None,
        final(app).pending_pin_kind is None,
        key == KeyCode::Esc ==> following(old(app).send_generation, final(app).send_generation)
            && says(*final(app), "Send cancelled"@, MessageLevel::Info),
        key == KeyCode::Enter ==> final(app).send_generation == old(app).send_generation && says(
            *final(app),
            "Send cancelled (no PIN)"@,
            MessageLevel::Info,
        ),
        same_text_screen(final(app).send_text, old(app).send_text),
        same_file_screen(final(app).send_file, old(app).send_file),
        same_device(*final(app), *old(app)),
        same_peers(*final(app), *old(app)),
        final(app).screen == old(app).screen,
        final(app).should_quit == old(app).should_quit,
{
    assert(final(app)@.send_text == final(app).send_text@);
    assert(final(app)@.send_file == final(app).send_file@);
    assert(old(app)@.popup == Some(old(app).popup->0@));
}

/// `Enter` with a PIN tries the send that waits again with that PIN: the same
/// message to the same device, or another look at the same path for it.
pub proof fn law_the_pin_goes_with_the_send(app: &mut App, res: Effect)
    requires
        call_ensures(App::handle_popup_key, (app, KeyCode::Enter), res),
        prompting(*old(app)),
        input_text(old(app).popup->0->input).len() > 0,
        old(app).pending_pin_kind == Some(SendKind::Text) ==> old(
            app,
        ).send_text.selected_device is Some && input_text(old(app).send_text.input).len() > 0,
        old(app).pending_pin_kind == Some(SendKind::File) ==> old(
            app,
        ).send_file.selected_device is Some && input_text(old(app).send_file.input).len() > 0,
    ensures
        final(app).popup is None,
        final(app).pending_pin_kind is None,
        old(app).pending_pin_kind == Some(SendKind::Text) ==> res is Send && sends_text(
            res->Send_0,
            *old(app),
            old(app).send_text.selected_device->0,
            input_text(old(app).send_text.input),
            Some(input_text(old(app).popup->0->input)),
        ) && final(app).send_text.is_sending && final(app).send_generation
            == res->Send_0.generation,
        old(app).pending_pin_kind == Some(SendKind::File) ==> {
            &&& res is Probe
            &&& res->Probe_0.target == old(app).send_file.selected_device->0
            &&& res->Probe_0.path == path_from(input_text(old(app).send_file.input))
            &&& res->Probe_0.pin is Some
            &&& res->Probe_0.pin->0@ == input_text(old(app).popup->0->input)
        },
        old(app).pending_pin_kind is None ==> res is Nothing,
        old(app).pending_pin_kind == Some(SendKind::Text) ==> says(
            *final(app),
            "Sending message..."@,
            MessageLevel::Info,
        ),
        old(app).pending_pin_kind != Some(SendKind::Text) ==> same_text_screen(
            final(app).send_text,
            old(app).send_text,
        ) && same_status(*final(app), *old(app)) && final(app).send_generation
            == old(app).send_generation,
        same_line(final(app).send_text.input, old(app).send_text.input),
        final(app).send_text.selected_device == old(app).send_text.selected_device,
        final(app).send_text.stage == old(app).send_text.stage,
        same_file_screen(final(app).send_file, old(app).send_file),
        same_device(*final(app), *old(app)),
        same_peers(*final(app), *old(app)),
        final(app).screen == old(app).screen,
        final(app).should_quit == old(app).should_quit,
{
    assert(old(app)@.popup == Some(old(app).popup->0@));
    assert(final(app)@.send_text == final(app).send_text@);
    assert(final(app)@.send_file == final(app).send_file@);
    if res is Send {
        assert(res@->Send_0 == res->Send_0@);
    }
    if res is Probe {
        assert(res@->Probe_0 == res->Probe_0@);
    }
}

/// The prompt for a PIN opens where a send waits for one and nothing else is up;
/// otherwise nothing changes.
pub proof fn law_the_prompt_waits_for_its_turn(app: &mut App)
    requires
        call_ensures(App::maybe_open_pin_prompt, (app,), ()),
    ensures
        old(app).pending_pin_kind is Some && old(app).popup is None ==> {
            &&& prompting(*final(app))
            &&& input_text(final(app).popup->0->input).len() == 0
            &&& input_cursor(final(app).popup->0->input) == 0
            &&& final(app).dirty
        },
        old(app).pending_pin_kind is None || old(app).popup is Some ==> final(app)@ == old(app)@
            && final(app).popup is Some == old(app).popup is Some,
        final(app).pending_pin_kind == old(app).pending_pin_kind,
        same_text_screen(final(app).send_text, old(app).send_text),
        same_file_screen(final(app).send_file, old(app).send_file),
        same_device(*final(app), *old(app)),
        same_peers(*final(app), *old(app)),
        same_status(*final(app), *old(app)),
        final(app).send_generation == old(app).send_generation,
{
    assert(final(app)@.send_text == final(app).send_text@);
    assert(final(app)@.send_file == final(app).send_file@);
    if final(app).popup is Some {
        assert(final(app)@.popup == Some(final(app).popup->0@));
    }
}

/// While a dialog is up the keys are for it alone.
pub proof fn law_dialogs_take_the_keys(
    app: &mut App,
    key: KeyCode,
    now: u64,
    res: (Effect, bool),
    direct: &mut App,
    same: Effect,
)
    requires
        call_ensures(App::handle_key, (app, key, now), res),
        old(app).popup is Some,
        *old(direct) == *old(app),
        call_ensures(App::handle_popup_key, (direct, key), same),
    ensures
        !res.1,
        res.0@ == same@,
        final(app)@ == final(direct)@,
        final(app).popup is Some == final(direct).popup is Some,
        same_status(*final(app), *final(direct)),
        same_text_screen(final(app).send_text, final(direct).send_text),
        same_file_screen(final(app).send_file, final(direct).send_file),
        same_device(*final(app), *final(direct)),
        same_peers(*final(app), *final(direct)),
        final(app).screen == final(direct).screen,
        final(app).pending_pin_kind == final(direct).pending_pin_kind,
        final(app).send_generation == final(direct).send_generation,
        final(app).should_quit == final(direct).should_quit,
{
    assert(final(app)@.send_text == final(app).send_text@);
    assert(final(app)@.send_file == final(app).send_file@);
    assert(final(direct)@.send_text == final(direct).send_text@);
    assert(final(direct)@.send_file == final(direct).send_file@);
}

} // verus!
