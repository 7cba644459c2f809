//! What the parts of the screens do by themselves.

use crate::outside::input_text;
use crate::protocol::{DeviceInfo, FileId, ReceivedFile};
use crate::tui::dialog_laws::{lemma_choice, lists_the_ticked, same_files};
use crate::tui::input::{line, KeyCode};
use crate::tui::key_laws::{moves, same_file_screen, same_text_screen, types};
use crate::tui::popup::{file_view, ConfirmState};
use crate::tui::screens::{
    ReceiveScreen, SendFileScreen, SendFileStage, SendTextScreen, SendTextStage,
};
use std::path::PathBuf;
use vstd::prelude::*;

verus! {

/// The cursor of the screen for texts moves one device up or down and stops at
/// the ends; nothing else changes.
pub proof fn law_text_cursors_move(
    up: &mut SendTextScreen,
    down: &mut SendTextScreen,
    devices: usize,
)
    requires
        call_ensures(SendTextScreen::previous_device, (up,), ()),
        call_ensures(SendTextScreen::next_device, (down, devices), ()),
    ensures
        moves(KeyCode::Up, old(up).selected as int, 0, final(up).selected as int),
        moves(
            KeyCode::Down,
            old(down).selected as int,
            devices as int,
            final(down).selected as int,
        ),
        same_text_screen(
            SendTextScreen { selected: old(up).selected, ..*final(up) },
            *old(up),
        ),
        same_text_screen(
            SendTextScreen { selected: old(down).selected, ..*final(down) },
            *old(down),
        ),
{
}

/// And so on the screen for files.
pub proof fn law_file_cursors_move(
    up: &mut SendFileScreen,
    down: &mut SendFileScreen,
    devices: usize,
)
    requires
        call_ensures(SendFileScreen::previous_device, (up,), ()),
        call_ensures(SendFileScreen::next_device, (down, devices), ()),
    ensures
        moves(KeyCode::Up, old(up).selected as int, 0, final(up).selected as int),
        moves(
            KeyCode::Down,
            old(down).selected as int,
            devices as int,
            final(down).selected as int,
        ),
        same_file_screen(
            SendFileScreen { selected: old(up).selected, ..*final(up) },
            *old(up),
        ),
        same_file_screen(
            SendFileScreen { selected: old(down).selected, ..*final(down) },
            *old(down),
        ),
{
}

/// The screen for texts chooses the device under its cursor, whichever row that
/// is, and where there is none it stays as it is.
pub proof fn law_the_text_screen_chooses(screen: &mut SendTextScreen, devices: Vec<DeviceInfo>)
    requires
        call_ensures(SendTextScreen::select_current_device, (screen, &devices), ()),
    ensures
        old(screen).selected < devices@.len() ==> {
            &&& final(screen).stage == SendTextStage::EnterMessage
            &&& final(screen).selected_device == Some(devices@[old(screen).selected as int])
        },
        old(screen).selected >= devices@.len() ==> {
            &&& final(screen).stage == old(screen).stage
            &&& final(screen).selected_device == old(screen).selected_device
        },
        same_text_screen(
            SendTextScreen {
                stage: old(screen).stage,
                selected_device: old(screen).selected_device,
                ..*final(screen)
            },
            *old(screen),
        ),
{
}

/// The screen for files chooses the device under its cursor, whichever row that
/// is, and where there is none it stays as it is.
pub proof fn law_the_file_screen_chooses(screen: &mut SendFileScreen, devices: Vec<DeviceInfo>)
    requires
        call_ensures(SendFileScreen::select_current_device, (screen, &devices), ()),
    ensures
        old(screen).selected < devices@.len() ==> {
            &&& final(screen).stage == SendFileStage::EnterFilePath
            &&& final(screen).selected_device == Some(devices@[old(screen).selected as int])
        },
        old(screen).selected >= devices@.len() ==> {
            &&& final(screen).stage == old(screen).stage
            &&& final(screen).selected_device == old(screen).selected_device
        },
        same_file_screen(
            SendFileScreen {
                stage: old(screen).stage,
                selected_device: old(screen).selected_device,
                ..*final(screen)
            },
            *old(screen),
        ),
{
}

/// A search that is asked for is handed on once.
pub proof fn law_searches_are_asked_for_once(
    text: &mut SendTextScreen,
    text_next: &mut SendTextScreen,
    text_asked: bool,
    file: &mut SendFileScreen,
    file_next: &mut SendFileScreen,
    file_asked: bool,
)
    requires
        call_ensures(SendTextScreen::request_refresh, (text,), ()),
        call_ensures(SendTextScreen::consume_refresh, (text_next,), text_asked),
        call_ensures(SendFileScreen::request_refresh, (file,), ()),
        call_ensures(SendFileScreen::consume_refresh, (file_next,), file_asked),
    ensures
        final(text).refresh && final(file).refresh,
        text_asked == old(text_next).refresh && !final(text_next).refresh,
        file_asked == old(file_next).refresh && !final(file_next).refresh,
        same_text_screen(SendTextScreen { refresh: old(text).refresh, ..*final(text) }, *old(text)),
        same_text_screen(
            SendTextScreen { refresh: old(text_next).refresh, ..*final(text_next) },
            *old(text_next),
        ),
        same_file_screen(SendFileScreen { refresh: old(file).refresh, ..*final(file) }, *old(file)),
        same_file_screen(
            SendFileScreen { refresh: old(file_next).refresh, ..*final(file_next) },
            *old(file_next),
        ),
{
}

/// What is typed on a screen goes into its line and nowhere else.
pub proof fn law_lines_are_typed(text: &mut SendTextScreen, file: &mut SendFileScreen, key: KeyCode)
    requires
        call_ensures(SendTextScreen::type_key, (text, key), ()),
        call_ensures(SendFileScreen::type_key, (file, key), ()),
    ensures
        types(old(text).input, key, final(text).input),
        types(old(file).input, key, final(file).input),
        same_text_screen(SendTextScreen { input: old(text).input, ..*final(text) }, *old(text)),
        same_file_screen(SendFileScreen { input: old(file).input, ..*final(file) }, *old(file)),
{
    assert(final(text)@.input == line(final(text).input));
    assert(final(file)@.input == line(final(file).input));
}

/// What is read from a screen is what stands in its line.
pub proof fn law_lines_are_read(
    text: SendTextScreen,
    file: SendFileScreen,
    message: String,
    path: String,
)
    requires
        call_ensures(SendTextScreen::message, (&text,), message),
        call_ensures(SendFileScreen::file_path, (&file,), path),
    ensures
        message@ == input_text(text.input),
        path@ == input_text(file.input),
{
}

/// A cleared screen is back at the list, with nothing typed, chosen or under
/// way; the cursor stays.
pub proof fn law_cleared_screens_are_at_the_list(
    text: &mut SendTextScreen,
    file: &mut SendFileScreen,
)
    requires
        call_ensures(SendTextScreen::clear, (text,), ()),
        call_ensures(SendFileScreen::clear, (file,), ()),
    ensures
        final(text).stage == SendTextStage::SelectDevice,
        input_text(final(text).input).len() == 0,
        final(text).selected_device is None,
        !final(text).is_sending,
        final(text).selected == old(text).selected,
        final(text).scanning == old(text).scanning,
        final(text).refresh == old(text).refresh,
        final(file).stage == SendFileStage::SelectDevice,
        input_text(final(file).input).len() == 0,
        final(file).selected_device is None,
        !final(file).is_sending,
        final(file).sent == 0 && final(file).total == 0,
        final(file).current_file is None,
        final(file).selected == old(file).selected,
        final(file).scanning == old(file).scanning,
        final(file).refresh == old(file).refresh,
{
    assert(final(file)@.current_file is None);
}

/// The gauge shows what was sent, and never more than there is.
pub proof fn law_the_gauge_shows_what_was_sent(screen: &mut SendFileScreen, sent: u64, total: u64)
    requires
        call_ensures(SendFileScreen::set_progress, (screen, sent, total), ()),
    ensures
        final(screen).total == total,
        sent <= total ==> final(screen).sent == sent,
        sent > total ==> final(screen).sent == total,
        same_file_screen(
            SendFileScreen { sent: old(screen).sent, total: old(screen).total, ..*final(screen) },
            *old(screen),
        ),
{
}

/// The inbox has the path of the file under its cursor, which moves one row up
/// or down and stops at the ends.
pub proof fn law_the_inbox_has_the_file_under_its_cursor(
    inbox: ReceiveScreen,
    files: Vec<ReceivedFile>,
    path: Option<PathBuf>,
    up: &mut ReceiveScreen,
    down: &mut ReceiveScreen,
    rows: usize,
)
    requires
        call_ensures(ReceiveScreen::selected_path, (&inbox, &files), path),
        call_ensures(ReceiveScreen::previous, (up,), ()),
        call_ensures(ReceiveScreen::next, (down, rows), ()),
    ensures
        inbox.selected < files@.len() ==> path == Some(files@[inbox.selected as int].path),
        inbox.selected >= files@.len() ==> path is None,
        moves(KeyCode::Up, old(up).selected as int, 0, final(up).selected as int),
        moves(KeyCode::Down, old(down).selected as int, rows as int, final(down).selected as int),
{
}

proof fn lemma_same_files(before: ConfirmState, after: ConfirmState)
    requires
        after@.files == before@.files,
    ensures
        same_files(after.files@, before.files@),
{
    assert(after@.files.len() == after.files@.len());
    assert(before@.files.len() == before.files@.len());
    assert forall|i: int| 0 <= i < before.files@.len() implies (#[trigger] after.files@[i]).id.text@
        == before.files@[i].id.text@ && after.files@[i].file_name@ == before.files@[i].file_name@
        && after.files@[i].size == before.files@[i].size by {
        assert(after@.files[i] == file_view(after.files@[i]));
        assert(before@.files[i] == file_view(before.files@[i]));
    }
}

/// In the dialog over a transfer the cursor moves one file up or down and stops
/// at the ends, and no file and no tick changes.
pub proof fn law_dialog_cursors_move(up: &mut ConfirmState, down: &mut ConfirmState)
    requires
        call_ensures(ConfirmState::move_up, (up,), ()),
        call_ensures(ConfirmState::move_down, (down,), ()),
    ensures
        moves(KeyCode::Up, old(up).cursor as int, 0, final(up).cursor as int),
        moves(
            KeyCode::Down,
            old(down).cursor as int,
            old(down).files@.len() as int,
            final(down).cursor as int,
        ),
        final(up).selected@ == old(up).selected@,
        final(down).selected@ == old(down).selected@,
        same_files(final(up).files@, old(up).files@),
        same_files(final(down).files@, old(down).files@),
        final(up).request == old(up).request,
        final(down).request == old(down).request,
{
    lemma_same_files(*old(up), *final(up));
    lemma_same_files(*old(down), *final(down));
    assert(old(down)@.files.len() == old(down).files@.len());
}

/// The tick under the cursor is turned over and no other; or all of them are
/// set, or taken away where all were set.
pub proof fn law_ticks_are_turned(one: &mut ConfirmState, all: &mut ConfirmState)
    requires
        call_ensures(ConfirmState::toggle, (one,), ()),
        call_ensures(ConfirmState::toggle_all, (all,), ()),
    ensures
        final(one).selected@.len() == old(one).selected@.len(),
        forall|i: int|
            0 <= i < old(one).selected@.len() ==> #[trigger] final(one).selected@[i] == (if i
                == old(one).cursor {
                !old(one).selected@[i]
            } else {
                old(one).selected@[i]
            }),
        final(one).cursor == old(one).cursor,
        same_files(final(one).files@, old(one).files@),
        final(all).selected@.len() == old(all).selected@.len(),
        (forall|j: int| 0 <= j < old(all).selected@.len() ==> #[trigger] old(all).selected@[j])
            ==> forall|i: int|
            0 <= i < old(all).selected@.len() ==> !(#[trigger] final(all).selected@[i]),
        (exists|j: int| 0 <= j < old(all).selected@.len() && !(#[trigger] old(all).selected@[j]))
            ==> forall|i: int|
            0 <= i < old(all).selected@.len() ==> #[trigger] final(all).selected@[i],
        final(all).cursor == old(all).cursor,
        same_files(final(all).files@, old(all).files@),
        final(one).request == old(one).request,
        final(all).request == old(all).request,
{
    lemma_same_files(*old(one), *final(one));
    lemma_same_files(*old(all), *final(all));
    assert(final(one)@.selected == final(one).selected@);
    assert(final(all)@.selected == final(all).selected@);
    assert(old(all)@.selected == old(all).selected@);
}

/// The identifiers of the dialog's choice are those of its ticked files, each
/// once and in their order.
pub proof fn law_the_choice_is_what_is_ticked(dialog: ConfirmState, ids: Vec<FileId>)
    requires
        call_ensures(ConfirmState::selected_ids, (&dialog,), ids),
    ensures
        lists_the_ticked(dialog, ids@),
{
    lemma_choice(dialog, ids@);
}

} // verus!
