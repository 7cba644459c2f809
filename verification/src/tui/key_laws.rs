//! What each key does, on every screen.

use crate::outside::{input_cursor, input_text, path_from, step_back, step_forward};
use crate::protocol::DeviceInfo;
use crate::tui::app::{App, Effect};
use crate::tui::input::{type_key, typed, KeyCode};
use crate::tui::popup::MessageLevel;
use crate::tui::screens::{Screen, SendFileScreen, SendFileStage, SendTextScreen, SendTextStage};
use crate::tui::send::{FileProbe, SendJob};
use crate::tui::steps::{AppView, EffectView};
use tui_input::Input;
use vstd::prelude::*;

verus! {

/// True when two lines hold the same characters, with the cursor at the same
/// place.
pub open spec fn same_line(a: Input, b: Input) -> bool {
    input_text(a) == input_text(b) && input_cursor(a) == input_cursor(b)
}

/// True when both texts are absent, or hold the same characters.
pub open spec fn same_words(a: Option<String>, b: Option<String>) -> bool {
    a is Some == b is Some && (a is Some ==> a->0@ == b->0@)
}

/// True when the screens that send a text show the same.
pub open spec fn same_text_screen(a: SendTextScreen, b: SendTextScreen) -> bool {
    &&& a.stage == b.stage
    &&& same_line(a.input, b.input)
    &&& a.selected == b.selected
    &&& a.selected_device == b.selected_device
    &&& a.is_sending == b.is_sending
    &&& a.scanning == b.scanning
    &&& a.refresh == b.refresh
}

/// True when the screens that send a file show the same.
pub open spec fn same_file_screen(a: SendFileScreen, b: SendFileScreen) -> bool {
    &&& a.stage == b.stage
    &&& same_line(a.input, b.input)
    &&& a.selected == b.selected
    &&& a.selected_device == b.selected_device
    &&& a.is_sending == b.is_sending
    &&& a.sent == b.sent
    &&& a.total == b.total
    &&& same_words(a.current_file, b.current_file)
    &&& a.scanning == b.scanning
    &&& a.refresh == b.refresh
}

/// True when this device and what it received are the same.
pub open spec fn same_device(a: App, b: App) -> bool {
    &&& a.device_info == b.device_info
    &&& a.port == b.port
    &&& a.https == b.https
    &&& a.save_dir == b.save_dir
    &&& same_words(a.pin, b.pin)
    &&& a.initial_auto_accept == b.initial_auto_accept
    &&& a.received_files@ == b.received_files@
}

/// True when the peers that were found are the same, and the search for them.
pub open spec fn same_peers(a: App, b: App) -> bool {
    &&& a.devices@ == b.devices@
    &&& a.last_device_count == b.last_device_count
    &&& a.scan_deadline == b.scan_deadline
    &&& a.was_scanning == b.was_scanning
}

/// True when the status bar shows this.
pub open spec fn says(app: App, words: Seq<char>, level: MessageLevel) -> bool {
    app.status_message matches Some((text, shown)) && text@ == words && shown == level
}

/// True when the status bar shows the same.
pub open spec fn same_status(a: App, b: App) -> bool {
    &&& a.status_message is Some == b.status_message is Some
    &&& a.status_message is Some ==> says(
        b,
        (a.status_message->0).0@,
        (a.status_message->0).1,
    )
}

/// True when a key acts on the list of devices of this screen.
pub open spec fn choosing(app: App, screen: Screen) -> bool {
    &&& app.popup is None
    &&& app.screen == screen
    &&& screen == Screen::SendText ==> app.send_text.stage == SendTextStage::SelectDevice
    &&& screen == Screen::SendFile ==> app.send_file.stage == SendFileStage::SelectDevice
    &&& !app.send_text.refresh
    &&& !app.send_file.refresh
}

/// True when a key goes into the line of this screen.
pub open spec fn writing(app: App, screen: Screen) -> bool {
    &&& app.popup is None
    &&& app.screen == screen
    &&& screen == Screen::SendText ==> app.send_text.stage == SendTextStage::EnterMessage
    &&& screen == Screen::SendFile ==> app.send_file.stage == SendFileStage::EnterFilePath
    &&& !app.send_text.refresh
    &&& !app.send_file.refresh
}

/// True when the key means one up in a list.
pub open spec fn up_key(key: KeyCode) -> bool {
    key == KeyCode::Up || key == KeyCode::Char('k')
}

/// True when the key means one down in a list.
pub open spec fn down_key(key: KeyCode) -> bool {
    key == KeyCode::Down || key == KeyCode::Char('j')
}

/// True when `to` is where a key moves the cursor from `from` in a list of
/// `len`: one up or one down, but not beyond the ends.
pub open spec fn moves(key: KeyCode, from: int, len: int, to: int) -> bool {
    &&& up_key(key) ==> to == (if from == 0 {
        0
    } else {
        from - 1
    })
    &&& down_key(key) ==> to == (if from + 1 >= len {
        from
    } else {
        from + 1
    })
    &&& !up_key(key) && !down_key(key) ==> to == from
}

/// Where the views agree, the screens show the same, and this device, its peers
/// and the status bar are the same.
pub(crate) proof fn lemma_agree(a: App, b: App)
    ensures
        a@.send_text == b@.send_text ==> same_text_screen(a.send_text, b.send_text),
        a@.send_file == b@.send_file ==> same_file_screen(a.send_file, b.send_file),
        a@.status == b@.status ==> same_status(a, b),
        ({
            &&& a@.device_info == b@.device_info
            &&& a@.port == b@.port
            &&& a@.https == b@.https
            &&& a@.save_dir == b@.save_dir
            &&& a@.pin == b@.pin
            &&& a@.initial_auto_accept == b@.initial_auto_accept
            &&& a@.received_files == b@.received_files
        }) ==> same_device(a, b),
        ({
            &&& a@.devices == b@.devices
            &&& a@.last_device_count == b@.last_device_count
            &&& a@.scan_deadline == b@.scan_deadline
            &&& a@.was_scanning == b@.was_scanning
        }) ==> same_peers(a, b),
{
    assert(a@.send_text == a.send_text@);
    assert(b@.send_text == b.send_text@);
    assert(a@.send_file == a.send_file@);
    assert(b@.send_file == b.send_file@);
}

/// In the list of devices on the screen for texts, the arrows move the cursor,
/// and `Enter` chooses the device under it, whichever that is, and goes on to
/// the message. Where there is no device under it nothing is chosen.
pub proof fn law_texts_go_to_the_device_under_the_cursor(
    app: &mut App,
    key: KeyCode,
    now: u64,
    res: (Effect, bool),
)
    requires
        call_ensures(App::handle_key, (app, key, now), res),
        choosing(*old(app), Screen::SendText),
        up_key(key) || down_key(key) || key == KeyCode::Enter,
    ensures
        res.0 is Nothing && !res.1,
        moves(
            key,
            old(app).send_text.selected as int,
            old(app).devices@.len() as int,
            final(app).send_text.selected as int,
        ),
        key == KeyCode::Enter && old(app).send_text.selected < old(app).devices@.len() ==> {
            &&& final(app).send_text.stage == SendTextStage::EnterMessage
            &&& final(app).send_text.selected_device == Some(
                old(app).devices@[old(app).send_text.selected as int],
            )
        },
        key != KeyCode::Enter || old(app).send_text.selected >= old(app).devices@.len() ==> {
            &&& final(app).send_text.stage == SendTextStage::SelectDevice
            &&& final(app).send_text.selected_device == old(app).send_text.selected_device
        },
        same_line(final(app).send_text.input, old(app).send_text.input),
        final(app).send_text.is_sending == old(app).send_text.is_sending,
        same_file_screen(final(app).send_file, old(app).send_file),
        same_device(*final(app), *old(app)),
        same_peers(*final(app), *old(app)),
        same_status(*final(app), *old(app)),
        final(app).popup is None,
        final(app).screen == Screen::SendText,
        final(app).send_generation == old(app).send_generation,
        final(app).pending_pin_kind == old(app).pending_pin_kind,
        final(app).should_quit == old(app).should_quit,
        !final(app).send_text.refresh && !final(app).send_file.refresh,
{
    let before = old(app)@;
    let after = final(app)@;
    assert(after.send_text == final(app).send_text@);
    assert(after.send_file == final(app).send_file@);
}

/// And so on the screen for files.
pub proof fn law_files_go_to_the_device_under_the_cursor(
    app: &mut App,
    key: KeyCode,
    now: u64,
    res: (Effect, bool),
)
    requires
        call_ensures(App::handle_key, (app, key, now), res),
        choosing(*old(app), Screen::SendFile),
        up_key(key) || down_key(key) || key == KeyCode::Enter,
    ensures
        res.0 is Nothing && !res.1,
        moves(
            key,
            old(app).send_file.selected as int,
            old(app).devices@.len() as int,
            final(app).send_file.selected as int,
        ),
        key == KeyCode::Enter && old(app).send_file.selected < old(app).devices@.len() ==> {
            &&& final(app).send_file.stage == SendFileStage::EnterFilePath
            &&& final(app).send_file.selected_device == Some(
                old(app).devices@[old(app).send_file.selected as int],
            )
        },
        key != KeyCode::Enter || old(app).send_file.selected >= old(app).devices@.len() ==> {
            &&& final(app).send_file.stage == SendFileStage::SelectDevice
            &&& final(app).send_file.selected_device == old(app).send_file.selected_device
        },
        same_line(final(app).send_file.input, old(app).send_file.input),
        final(app).send_file.is_sending == old(app).send_file.is_sending,
        same_text_screen(final(app).send_text, old(app).send_text),
        same_device(*final(app), *old(app)),
        same_peers(*final(app), *old(app)),
        same_status(*final(app), *old(app)),
        final(app).popup is None,
        final(app).screen == Screen::SendFile,
        final(app).send_generation == old(app).send_generation,
        final(app).pending_pin_kind == old(app).pending_pin_kind,
        final(app).should_quit == old(app).should_quit,
        !final(app).send_text.refresh && !final(app).send_file.refresh,
{
    assert(final(app)@.send_text == final(app).send_text@);
    assert(final(app)@.send_file == final(app).send_file@);
}

/// A key edits the line that it goes into: a character is put in at the cursor,
/// `Left` and `Right` move the cursor by a grapheme, `Home` and `End` to an end,
/// `Backspace` and `Delete` take out a grapheme on their side of it. Any other
/// key leaves the line alone.
pub proof fn law_keys_edit_the_line(input: &mut Input, key: KeyCode)
    requires
        call_ensures(type_key, (input, key), ()),
    ensures
        ({
            let text = input_text(*old(input));
            let cursor = input_cursor(*old(input));
            let back = (cursor - step_back(text, cursor)) as nat;
            let ahead = cursor + step_forward(text, cursor);
            let new_text = input_text(*final(input));
            let new_cursor = input_cursor(*final(input));
            match key {
                KeyCode::Char(c) => new_text == text.insert(cursor as int, c) && new_cursor
                    == cursor + 1,
                KeyCode::Left => new_text == text && new_cursor == back,
                KeyCode::Right => new_text == text && new_cursor == ahead,
                KeyCode::Home => new_text == text && new_cursor == 0,
                KeyCode::End => new_text == text && new_cursor == text.len(),
                KeyCode::Backspace => new_text == text.take(back as int) + text.skip(cursor as int)
                    && new_cursor == back,
                KeyCode::Delete => new_text == text.take(cursor as int) + text.skip(ahead as int)
                    && new_cursor == cursor,
                _ => new_text == text && new_cursor == cursor,
            }
        }),
{
}

/// True when a key takes the line from `before` to `after` as typing does.
pub open spec fn types(before: Input, key: KeyCode, after: Input) -> bool {
    let text = input_text(before);
    let cursor = input_cursor(before);
    match key {
        KeyCode::Char(c) => input_text(after) == text.insert(cursor as int, c) && input_cursor(
            after,
        ) == cursor + 1,
        KeyCode::Left => input_text(after) == text && input_cursor(after) == (cursor - step_back(
            text,
            cursor,
        )) as nat,
        KeyCode::Right => input_text(after) == text && input_cursor(after) == cursor + step_forward(
            text,
            cursor,
        ),
        KeyCode::Home => input_text(after) == text && input_cursor(after) == 0,
        KeyCode::End => input_text(after) == text && input_cursor(after) == text.len(),
        KeyCode::Backspace => {
            let start = (cursor - step_back(text, cursor)) as nat;
            input_text(after) == text.take(start as int) + text.skip(cursor as int) && input_cursor(
                after,
            ) == start
        },
        KeyCode::Delete => input_text(after) == text.take(cursor as int) + text.skip(
            (cursor + step_forward(text, cursor)) as int,
        ) && input_cursor(after) == cursor,
        _ => same_line(before, after),
    }
}

/// While a message is written every key but `q`, `Enter` and `Esc` edits it, and
/// does nothing else.
pub proof fn law_keys_write_the_message(app: &mut App, key: KeyCode, now: u64, res: (Effect, bool))
    requires
        call_ensures(App::handle_key, (app, key, now), res),
        writing(*old(app), Screen::SendText),
        key != KeyCode::Char('q') && key != KeyCode::Enter && key != KeyCode::Esc,
    ensures
        res.0 is Nothing && !res.1,
        types(old(app).send_text.input, key, final(app).send_text.input),
        writing(*final(app), Screen::SendText),
        final(app).send_text.selected == old(app).send_text.selected,
        final(app).send_text.selected_device == old(app).send_text.selected_device,
        final(app).send_text.is_sending == old(app).send_text.is_sending,
        same_file_screen(final(app).send_file, old(app).send_file),
        same_device(*final(app), *old(app)),
        same_peers(*final(app), *old(app)),
        same_status(*final(app), *old(app)),
        final(app).send_generation == old(app).send_generation,
        final(app).pending_pin_kind == old(app).pending_pin_kind,
        final(app).should_quit == old(app).should_quit,
{
    assert(final(app)@.send_text == final(app).send_text@);
    assert(final(app)@.send_file == final(app).send_file@);
    assert(final(app)@.send_text.input == typed(old(app)@.send_text.input, key));
}

/// While a path is written every key but `q`, `Enter` and `Esc` edits it, and
/// does nothing else; while a file is on its way it does nothing at all.
pub proof fn law_keys_write_the_path(app: &mut App, key: KeyCode, now: u64, res: (Effect, bool))
    requires
        call_ensures(App::handle_key, (app, key, now), res),
        writing(*old(app), Screen::SendFile),
        key != KeyCode::Char('q') && key != KeyCode::Enter && key != KeyCode::Esc,
    ensures
        res.0 is Nothing && !res.1,
        !old(app).send_file.is_sending ==> types(
            old(app).send_file.input,
            key,
            final(app).send_file.input,
        ),
        old(app).send_file.is_sending ==> same_line(
            final(app).send_file.input,
            old(app).send_file.input,
        ),
        writing(*final(app), Screen::SendFile),
        final(app).send_file.selected == old(app).send_file.selected,
        final(app).send_file.selected_device == old(app).send_file.selected_device,
        final(app).send_file.is_sending == old(app).send_file.is_sending,
        final(app).send_file.sent == old(app).send_file.sent,
        final(app).send_file.total == old(app).send_file.total,
        same_text_screen(final(app).send_text, old(app).send_text),
        same_device(*final(app), *old(app)),
        same_peers(*final(app), *old(app)),
        same_status(*final(app), *old(app)),
        final(app).send_generation == old(app).send_generation,
        final(app).pending_pin_kind == old(app).pending_pin_kind,
        final(app).should_quit == old(app).should_quit,
{
    assert(final(app)@.send_text == final(app).send_text@);
    assert(final(app)@.send_file == final(app).send_file@);
    if !old(app).send_file.is_sending {
        assert(final(app)@.send_file.input == typed(old(app)@.send_file.input, key));
    }
}

/// The generation after `g`; after the last comes the first.
pub open spec fn following(g: u64, next: u64) -> bool {
    next == g + 1 || g == u64::MAX && next == 0
}

/// `Enter` sends the message that is written to the chosen device, from this
/// device and without a PIN, as an attempt of its own; the screen then waits for
/// it. Without a device, without a message, or while one is on its way, it does
/// nothing.
pub proof fn law_enter_sends_the_message(app: &mut App, now: u64, res: (Effect, bool))
    requires
        call_ensures(App::handle_key, (app, KeyCode::Enter, now), res),
        writing(*old(app), Screen::SendText),
    ensures
        ({
            let ready = !old(app).send_text.is_sending && old(app).send_text.selected_device is Some
                && input_text(old(app).send_text.input).len() > 0;
            &&& !res.1
            &&& ready ==> {
                &&& res.0 is Send
                &&& sends_text(
                    res.0->Send_0,
                    *old(app),
                    old(app).send_text.selected_device->0,
                    input_text(old(app).send_text.input),
                    None,
                )
                &&& final(app).send_text.is_sending
                &&& final(app).send_generation == res.0->Send_0.generation
                &&& says(*final(app), "Sending message..."@, MessageLevel::Info)
            }
            &&& !ready ==> {
                &&& res.0 is Nothing
                &&& final(app).send_text.is_sending == old(app).send_text.is_sending
                &&& final(app).send_generation == old(app).send_generation
                &&& same_status(*final(app), *old(app))
            }
        }),
        writing(*final(app), Screen::SendText),
        final(app).send_text.selected == old(app).send_text.selected,
        same_line(final(app).send_text.input, old(app).send_text.input),
        final(app).send_text.selected_device == old(app).send_text.selected_device,
        same_file_screen(final(app).send_file, old(app).send_file),
        same_device(*final(app), *old(app)),
        same_peers(*final(app), *old(app)),
        final(app).pending_pin_kind == old(app).pending_pin_kind,
        final(app).should_quit == old(app).should_quit,
{
    assert(final(app)@.send_text == final(app).send_text@);
    assert(final(app)@.send_file == final(app).send_file@);
    if res.0 is Send {
        assert(res.0@->Send_0 == res.0->Send_0@);
    }
}

/// True when the job sends this text to `target`, from the device of the
/// application, as the attempt after its last.
pub open spec fn sends_text(
    job: SendJob,
    app: App,
    target: DeviceInfo,
    text: Seq<char>,
    pin: Option<Seq<char>>,
) -> bool {
    &&& job.target == target
    &&& job.device == app.device_info
    &&& following(app.send_generation, job.generation)
    &&& job.pin is Some == pin is Some
    &&& pin is Some ==> job.pin->0@ == pin->0
    &&& job.payload is Text
    &&& job.payload->message@ == text
}

/// `Enter` looks at the path that is written, for the chosen device and without
/// a PIN. Without a device, without a path, or while a file is on its way, it
/// does nothing.
pub proof fn law_enter_looks_at_the_path(app: &mut App, now: u64, res: (Effect, bool))
    requires
        call_ensures(App::handle_key, (app, KeyCode::Enter, now), res),
        writing(*old(app), Screen::SendFile),
    ensures
        ({
            let ready = !old(app).send_file.is_sending && old(app).send_file.selected_device is Some
                && input_text(old(app).send_file.input).len() > 0;
            &&& !res.1
            &&& ready ==> {
                &&& res.0 is Probe
                &&& res.0->Probe_0.target == old(app).send_file.selected_device->0
                &&& res.0->Probe_0.path == path_from(input_text(old(app).send_file.input))
                &&& res.0->Probe_0.pin is None
            }
            &&& !ready ==> res.0 is Nothing
        }),
        writing(*final(app), Screen::SendFile),
        same_file_screen(final(app).send_file, old(app).send_file),
        same_text_screen(final(app).send_text, old(app).send_text),
        same_device(*final(app), *old(app)),
        same_peers(*final(app), *old(app)),
        same_status(*final(app), *old(app)),
        final(app).send_generation == old(app).send_generation,
        final(app).pending_pin_kind == old(app).pending_pin_kind,
        final(app).should_quit == old(app).should_quit,
{
    assert(final(app)@.send_text == final(app).send_text@);
    assert(final(app)@.send_file == final(app).send_file@);
    if res.0 is Probe {
        assert(res.0@->Probe_0 == res.0->Probe_0@);
    }
}

/// What was looked at and is there is sent to the device that it was looked at
/// for, with the PIN that it was looked at with, under the last part of its path
/// or else as `file`; the gauge starts anew. What is not there is not sent.
pub proof fn law_files_that_are_there_are_sent(
    app: &mut App,
    probe: FileProbe,
    there: bool,
    name: Option<String>,
    effect: Effect,
)
    requires
        call_ensures(App::file_probed_as, (app, probe, there, name), effect),
    ensures
        ({
            let label = if name is Some {
                name->0@
            } else {
                "file"@
            };
            &&& there ==> {
                &&& effect is Send
                &&& effect->Send_0.target == probe.target
                &&& effect->Send_0.device == old(app).device_info
                &&& same_words(effect->Send_0.pin, probe.pin)
                &&& following(old(app).send_generation, effect->Send_0.generation)
                &&& final(app).send_generation == effect->Send_0.generation
                &&& effect->Send_0.payload is File
                &&& effect->Send_0.payload->path == probe.path
                &&& effect->Send_0.payload->label@ == label
                &&& final(app).send_file.is_sending
                &&& final(app).send_file.sent == 0 && final(app).send_file.total == 0
                &&& final(app).send_file.current_file is Some
                &&& final(app).send_file.current_file->0@ == label
                &&& says(*final(app), "Sending "@ + label + "..."@, MessageLevel::Info)
            }
            &&& !there ==> {
                &&& effect is Nothing
                &&& final(app).send_generation == old(app).send_generation
                &&& same_file_screen(final(app).send_file, old(app).send_file)
                &&& says(*final(app), "File not found"@, MessageLevel::Error)
            }
        }),
        final(app).send_file.stage == old(app).send_file.stage,
        same_line(final(app).send_file.input, old(app).send_file.input),
        final(app).send_file.selected_device == old(app).send_file.selected_device,
        same_text_screen(final(app).send_text, old(app).send_text),
        same_device(*final(app), *old(app)),
        same_peers(*final(app), *old(app)),
        final(app).screen == old(app).screen,
        final(app).pending_pin_kind == old(app).pending_pin_kind,
        final(app).should_quit == old(app).should_quit,
{
    assert(final(app)@.send_text == final(app).send_text@);
    assert(final(app)@.send_file == final(app).send_file@);
    if effect is Send {
        assert(effect@->Send_0 == effect->Send_0@);
    }
}

/// `Esc` leaves the line for the list of devices. A send that was on its way is
/// cancelled: the screen no longer waits, and its reports are those of an
/// attempt that is over. The path is thrown away, the message is kept.
pub proof fn law_esc_leaves_the_line(app: &mut App, now: u64, res: (Effect, bool))
    requires
        call_ensures(App::handle_key, (app, KeyCode::Esc, now), res),
        writing(*old(app), Screen::SendText) || writing(*old(app), Screen::SendFile),
        old(app).screen == Screen::SendText || old(app).screen == Screen::SendFile,
    ensures
        res.0 is Nothing && !res.1,
        choosing(*final(app), old(app).screen),
        ({
            let text = old(app).screen == Screen::SendText;
            let sending = if text {
                old(app).send_text.is_sending
            } else {
                old(app).send_file.is_sending
            };
            &&& sending ==> following(old(app).send_generation, final(app).send_generation)
                && says(*final(app), "Send cancelled"@, MessageLevel::Info)
            &&& !sending ==> final(app).send_generation == old(app).send_generation && same_status(
                *final(app),
                *old(app),
            )
            &&& text ==> !final(app).send_text.is_sending && same_line(
                final(app).send_text.input,
                old(app).send_text.input,
            ) && final(app).send_text.selected == old(app).send_text.selected
                && final(app).send_text.selected_device == old(app).send_text.selected_device && same_file_screen(final(app).send_file, old(app).send_file)
            &&& !text ==> !final(app).send_file.is_sending && input_text(
                final(app).send_file.input,
            ).len() == 0 && final(app).send_file.selected == old(app).send_file.selected
                && final(app).send_file.selected_device is None && same_text_screen(
                final(app).send_text,
                old(app).send_text,
            )
        }),
        same_device(*final(app), *old(app)),
        same_peers(*final(app), *old(app)),
        final(app).pending_pin_kind == old(app).pending_pin_kind,
        final(app).should_quit == old(app).should_quit,
{
    assert(final(app)@.send_text == final(app).send_text@);
    assert(final(app)@.send_file == final(app).send_file@);
}

/// `q` quits, unless a dialog is up, and changes nothing else.
pub proof fn law_q_quits(app: &mut App, now: u64, res: (Effect, bool))
    requires
        call_ensures(App::handle_key, (app, KeyCode::Char('q'), now), res),
        old(app).popup is None,
    ensures
        final(app).should_quit,
        res.0 is Nothing && !res.1,
        final(app).screen == old(app).screen,
        final(app).popup is None,
        same_text_screen(final(app).send_text, old(app).send_text),
        same_file_screen(final(app).send_file, old(app).send_file),
        same_device(*final(app), *old(app)),
        same_peers(*final(app), *old(app)),
        same_status(*final(app), *old(app)),
        final(app).pending_pin_kind == old(app).pending_pin_kind,
        final(app).send_generation == old(app).send_generation,
{
    assert(final(app)@.send_text == final(app).send_text@);
    assert(final(app)@.send_file == final(app).send_file@);
}

proof fn lemma_screen_key(view: AppView, key: KeyCode)
    ensures
        view.screen_key(key).0.should_quit == view.should_quit,
        view.screen_key(key).0.screen == view.screen,
{
    match view.screen {
        Screen::SendText => {
            assert(view.text_key(key).0.should_quit == view.should_quit);
            assert(view.text_key(key).0.screen == view.screen);
        },
        Screen::SendFile => {
            assert(view.file_key(key).0.should_quit == view.should_quit);
            assert(view.file_key(key).0.screen == view.screen);
        },
        Screen::Receive => {
            assert(view.inbox_key(key).0.should_quit == view.should_quit);
        },
        Screen::Settings => {
            assert(view.settings_key(key).0.should_quit == view.should_quit);
        },
    }
}

proof fn lemma_popup_key(view: AppView, key: KeyCode)
    ensures
        view.popup_key(key).0.should_quit == view.should_quit,
        view.popup_key(key).0.screen == view.screen,
{
}

proof fn lemma_key(view: AppView, key: KeyCode, now: u64)
    requires
        key != KeyCode::Char('q') || view.popup is Some,
    ensures
        view.key(key, now).0.should_quit == view.should_quit,
        view.popup is None && view.in_input() ==> view.key(key, now).0.screen == view.screen,
{
    lemma_popup_key(view, key);
    lemma_screen_key(view, key);
    lemma_screen_key(view.say("Press q to quit"@, MessageLevel::Info), key);
}

/// No other key quits, and no key in a dialog does.
pub proof fn law_only_q_quits(app: &mut App, key: KeyCode, now: u64, res: (Effect, bool))
    requires
        call_ensures(App::handle_key, (app, key, now), res),
        key != KeyCode::Char('q') || old(app).popup is Some,
    ensures
        final(app).should_quit == old(app).should_quit,
{
    lemma_key(old(app)@, key, now);
    assert(final(app)@ == old(app)@.key(key, now).0);
}

/// The place of a tab, from the left.
pub open spec fn position(screen: Screen) -> int {
    match screen {
        Screen::SendText => 0,
        Screen::SendFile => 1,
        Screen::Receive => 2,
        Screen::Settings => 3,
    }
}

proof fn lemma_tab(view: AppView, key: KeyCode, now: u64)
    requires
        view.popup is None,
        !view.in_input(),
        key == KeyCode::Right || key == KeyCode::Tab || key == KeyCode::Left,
    ensures
        view.key(key, now).1 == EffectView::Nothing,
        !view.key(key, now).2,
        view.key(key, now).0 == (AppView { screen: view.key(key, now).0.screen, ..view }),
        position(view.key(key, now).0.screen) == (position(view.screen) + (if key == KeyCode::Left {
            3int
        } else {
            1
        })) % 4,
{
}

/// Outside of a line the tabs turn, in this order and round: texts, files,
/// inbox, settings. Within one they stay.
pub proof fn law_tabs_turn(app: &mut App, key: KeyCode, now: u64, res: (Effect, bool))
    requires
        call_ensures(App::handle_key, (app, key, now), res),
        old(app).popup is None,
        key == KeyCode::Right || key == KeyCode::Tab || key == KeyCode::Left,
    ensures
        ({
            let in_line = old(app).screen == Screen::SendText && old(app).send_text.stage
                == SendTextStage::EnterMessage || old(app).screen == Screen::SendFile
                && old(app).send_file.stage == SendFileStage::EnterFilePath;
            &&& in_line ==> final(app).screen == old(app).screen
            &&& !in_line ==> position(final(app).screen) == (position(old(app).screen) + (if key
                == KeyCode::Left {
                3int
            } else {
                1
            })) % 4
            &&& !in_line ==> {
                &&& res.0 is Nothing && !res.1
                &&& final(app).popup is None
                &&& same_text_screen(final(app).send_text, old(app).send_text)
                &&& same_file_screen(final(app).send_file, old(app).send_file)
                &&& same_device(*final(app), *old(app))
                &&& same_peers(*final(app), *old(app))
                &&& same_status(*final(app), *old(app))
                &&& final(app).settings == old(app).settings
                &&& final(app).pending_pin_kind == old(app).pending_pin_kind
                &&& final(app).send_generation == old(app).send_generation
            }
        }),
{
    let before = old(app)@;
    assert(before.popup is None);
    lemma_key(before, key, now);
    if !before.in_input() {
        lemma_tab(before, key, now);
    }
    assert(final(app)@.screen == before.key(key, now).0.screen);
    assert(final(app)@ == before.key(key, now).0);
    lemma_agree(*final(app), *old(app));
}

/// In the inbox the arrows move the cursor, and `Enter` shows the file under it,
/// if there is one.
pub proof fn law_the_inbox_shows_the_file_under_the_cursor(
    app: &mut App,
    key: KeyCode,
    now: u64,
    res: (Effect, bool),
)
    requires
        call_ensures(App::handle_key, (app, key, now), res),
        old(app).popup is None,
        old(app).screen == Screen::Receive,
        up_key(key) || down_key(key) || key == KeyCode::Enter,
    ensures
        ({
            let row = old(app).receive.selected;
            let files = old(app).received_files@;
            &&& moves(key, row as int, files.len() as int, final(app).receive.selected as int)
            &&& key == KeyCode::Enter && row < files.len() ==> res.0 is Reveal && res.0->Reveal_0
                == files[row as int].path
            &&& key != KeyCode::Enter || row >= files.len() ==> res.0 is Nothing
        }),
        !old(app).send_text.refresh && !old(app).send_file.refresh ==> {
            &&& !res.1
            &&& same_text_screen(final(app).send_text, old(app).send_text)
            &&& same_file_screen(final(app).send_file, old(app).send_file)
            &&& same_peers(*final(app), *old(app))
            &&& same_status(*final(app), *old(app))
        },
        same_device(*final(app), *old(app)),
        final(app).settings == old(app).settings,
        final(app).popup is None,
        final(app).screen == Screen::Receive,
        final(app).pending_pin_kind == old(app).pending_pin_kind,
        final(app).send_generation == old(app).send_generation,
{
    assert(final(app)@.send_text == final(app).send_text@);
    assert(final(app)@.send_file == final(app).send_file@);
}

proof fn lemma_settings(view: AppView, key: KeyCode, now: u64)
    requires
        view.popup is None,
        view.screen == Screen::Settings,
    ensures
        ({
            let turns = key == KeyCode::Char(' ') || key == KeyCode::Enter || key == KeyCode::Char(
                'a',
            ) || key == KeyCode::Char('A');
            let (next, effect, searches) = view.key(key, now);
            &&& turns ==> effect == EffectView::SetAutoAccept(!view.settings.auto_accept)
            &&& !turns ==> effect == EffectView::Nothing
            &&& turns ==> next.settings.auto_accept == !view.settings.auto_accept
            &&& !turns ==> next.settings.auto_accept == view.settings.auto_accept
            &&& next.settings.device_info == view.settings.device_info
            &&& next.settings.save_dir == view.settings.save_dir
            &&& next.device_info == view.device_info
            &&& next.port == view.port
            &&& next.https == view.https
            &&& next.save_dir == view.save_dir
            &&& next.pin == view.pin
            &&& next.initial_auto_accept == view.initial_auto_accept
            &&& next.received_files == view.received_files
            &&& next.popup == view.popup
            &&& next.inbox_row == view.inbox_row
            &&& next.pending_pin == view.pending_pin
            &&& next.generation == view.generation
            &&& !view.refresh_asked() ==> {
                &&& !searches
                &&& next.send_text == view.send_text
                &&& next.send_file == view.send_file
                &&& next.devices == view.devices
                &&& next.last_device_count == view.last_device_count
                &&& next.scan_deadline == view.scan_deadline
                &&& next.was_scanning == view.was_scanning
                &&& turns ==> next.status == Some(
                    (
                        if next.settings.auto_accept {
                            "Auto-accept ON"@
                        } else {
                            "Auto-accept OFF"@
                        },
                        MessageLevel::Info,
                    ),
                )
            }
        }),
{
    reveal_strlit("Auto-accept ");
    reveal_strlit("ON");
    reveal_strlit("OFF");
    reveal_strlit("Auto-accept ON");
    reveal_strlit("Auto-accept OFF");
    assert("Auto-accept "@ + "ON"@ =~= "Auto-accept ON"@);
    assert("Auto-accept "@ + "OFF"@ =~= "Auto-accept OFF"@);
}

/// In the settings a space, `Enter` and `a` turn auto-accept over, tell the
/// server and say so; no other key but those of the tabs does anything there.
pub proof fn law_settings_turn_auto_accept(
    app: &mut App,
    key: KeyCode,
    now: u64,
    res: (Effect, bool),
)
    requires
        call_ensures(App::handle_key, (app, key, now), res),
        old(app).popup is None,
        old(app).screen == Screen::Settings,
    ensures
        ({
            let turns = key == KeyCode::Char(' ') || key == KeyCode::Enter || key == KeyCode::Char(
                'a',
            ) || key == KeyCode::Char('A');
            let yes = final(app).settings.auto_accept;
            &&& turns ==> yes == !old(app).settings.auto_accept && res.0 is SetAutoAccept
                && res.0->SetAutoAccept_0 == yes
            &&& !turns ==> yes == old(app).settings.auto_accept && res.0 is Nothing
            &&& turns && !old(app).send_text.refresh && !old(app).send_file.refresh ==> says(
                *final(app),
                if yes {
                    "Auto-accept ON"@
                } else {
                    "Auto-accept OFF"@
                },
                MessageLevel::Info,
            )
        }),
        final(app).settings.device_info == old(app).settings.device_info,
        final(app).settings.save_dir == old(app).settings.save_dir,
        !old(app).send_text.refresh && !old(app).send_file.refresh ==> {
            &&& !res.1
            &&& same_text_screen(final(app).send_text, old(app).send_text)
            &&& same_file_screen(final(app).send_file, old(app).send_file)
            &&& same_peers(*final(app), *old(app))
        },
        same_device(*final(app), *old(app)),
        final(app).popup is None,
        final(app).receive.selected == old(app).receive.selected,
        final(app).pending_pin_kind == old(app).pending_pin_kind,
        final(app).send_generation == old(app).send_generation,
{
    lemma_settings(old(app)@, key, now);
    assert(final(app)@ == old(app)@.key(key, now).0);
    assert(res.0@ == old(app)@.key(key, now).1);
    lemma_agree(*final(app), *old(app));
}

/// `r` in a list of devices starts a new search: the list is empty, the search
/// goes on for three seconds, and this device announces itself.
pub proof fn law_r_searches_anew(app: &mut App, key: KeyCode, now: u64, res: (Effect, bool))
    requires
        call_ensures(App::handle_key, (app, key, now), res),
        choosing(*old(app), Screen::SendText) || choosing(*old(app), Screen::SendFile),
        old(app).screen == Screen::SendText || old(app).screen == Screen::SendFile,
        key == KeyCode::Char('r') || key == KeyCode::Char('R'),
    ensures
        res.0 is Nothing && res.1,
        final(app).devices@.len() == 0,
        final(app).last_device_count == 0,
        now + 3000 <= u64::MAX ==> final(app).scan_deadline == now + 3000,
        now + 3000 > u64::MAX ==> final(app).scan_deadline == u64::MAX,
        says(*final(app), "Refreshing devices..."@, MessageLevel::Info),
        !final(app).send_text.refresh && !final(app).send_file.refresh,
        final(app).send_text.stage == old(app).send_text.stage,
        final(app).send_file.stage == old(app).send_file.stage,
        final(app).send_text.selected_device == old(app).send_text.selected_device,
        final(app).send_file.selected_device == old(app).send_file.selected_device,
        same_line(final(app).send_text.input, old(app).send_text.input),
        same_line(final(app).send_file.input, old(app).send_file.input),
        final(app).send_text.selected == old(app).send_text.selected,
        final(app).send_file.selected == old(app).send_file.selected,
        final(app).send_text.is_sending == old(app).send_text.is_sending,
        final(app).send_file.is_sending == old(app).send_file.is_sending,
        final(app).popup is None,
        final(app).screen == old(app).screen,
        final(app).pending_pin_kind == old(app).pending_pin_kind,
        final(app).send_generation == old(app).send_generation,
        same_device(*final(app), *old(app)),
{
    assert(final(app)@.send_text == final(app).send_text@);
    assert(final(app)@.send_file == final(app).send_file@);
}

/// True when the key has nothing to do on a screen outside of a line, but for
/// what `Esc` says.
pub open spec fn idle_key(screen: Screen, key: KeyCode) -> bool {
    let lists = screen == Screen::SendText || screen == Screen::SendFile;
    &&& key != KeyCode::Char('q')
    &&& key != KeyCode::Right && key != KeyCode::Tab && key != KeyCode::Left
    &&& screen != Screen::Settings ==> !up_key(key) && !down_key(key) && key != KeyCode::Enter
    &&& screen == Screen::Settings ==> key != KeyCode::Char(' ') && key != KeyCode::Enter && key
        != KeyCode::Char('a') && key != KeyCode::Char('A')
    &&& lists ==> key != KeyCode::Char('r') && key != KeyCode::Char('R')
}

proof fn lemma_idle(view: AppView, key: KeyCode, now: u64)
    requires
        view.popup is None,
        !view.in_input(),
        !view.refresh_asked(),
        idle_key(view.screen, key),
    ensures
        view.key(key, now).0 == (if key == KeyCode::Esc {
            view.say("Press q to quit"@, MessageLevel::Info)
        } else {
            view
        }),
        view.key(key, now).1 == EffectView::Nothing,
        !view.key(key, now).2,
{
}

/// Any other key does nothing there; `Esc` says how to quit.
pub proof fn law_other_keys_do_nothing(app: &mut App, key: KeyCode, now: u64, res: (Effect, bool))
    requires
        call_ensures(App::handle_key, (app, key, now), res),
        choosing(*old(app), old(app).screen),
        idle_key(old(app).screen, key),
    ensures
        res.0 is Nothing && !res.1,
        key == KeyCode::Esc ==> says(*final(app), "Press q to quit"@, MessageLevel::Info),
        key != KeyCode::Esc ==> same_status(*final(app), *old(app)),
        final(app).screen == old(app).screen,
        final(app).popup is None,
        same_text_screen(final(app).send_text, old(app).send_text),
        same_file_screen(final(app).send_file, old(app).send_file),
        same_device(*final(app), *old(app)),
        same_peers(*final(app), *old(app)),
        final(app).receive.selected == old(app).receive.selected,
        final(app).settings == old(app).settings,
        final(app).pending_pin_kind == old(app).pending_pin_kind,
        final(app).send_generation == old(app).send_generation,
        final(app).should_quit == old(app).should_quit,
{
    lemma_idle(old(app)@, key, now);
    assert(final(app)@ == old(app)@.key(key, now).0);
    assert(res.0@ == old(app)@.key(key, now).1);
    lemma_agree(*final(app), *old(app));
}

/// The tabs stand and are named in this order.
pub proof fn law_tabs_are_named(screen: Screen, place: usize, title: &str, next: Screen, last: Screen)
    requires
        call_ensures(Screen::index, (screen,), place),
        call_ensures(Screen::title, (screen,), title),
        call_ensures(Screen::next, (screen,), next),
        call_ensures(Screen::previous, (screen,), last),
    ensures
        place == position(screen),
        position(next) == (position(screen) + 1) % 4,
        position(last) == (position(screen) + 3) % 4,
        title@ == (if place == 0 {
            "📝 Text"@
        } else if place == 1 {
            "📁 File"@
        } else if place == 2 {
            "📥 Inbox"@
        } else {
            "⚙️ Settings"@
        }),
{
}

} // verus!
