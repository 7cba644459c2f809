//! What the library takes from other crates and from std without proof.
//!
//! Every contract in this file is believed, not proved. Each item names the
//! function that it calls and says what is claimed of it.

use crate::tui::input::{edited, EditKey, InputView};
use ratatui::crossterm::event::{Event, KeyCode as TerminalKey, KeyEvent, KeyModifiers};
use std::path::PathBuf;
use std::time::Duration;
use tokio::sync::{mpsc, oneshot};
use tui_input::backend::crossterm::EventHandler;
use tui_input::Input;
use vstd::prelude::*;

verus! {

/// `tokio::sync::oneshot::Sender`, the sending half of a channel for one value.
#[verifier::external_type_specification]
#[verifier::external_body]
#[verifier::reject_recursive_types(T)]
pub struct ExOneshotSender<T>(oneshot::Sender<T>);

/// `tokio::sync::oneshot::Receiver`, the receiving half of that channel.
#[verifier::external_type_specification]
#[verifier::external_body]
#[verifier::reject_recursive_types(T)]
pub struct ExOneshotReceiver<T>(oneshot::Receiver<T>);

/// `tokio::sync::oneshot::error::RecvError`, what a waiting receiver gets when
/// the sender is dropped.
#[verifier::external_type_specification]
#[verifier::external_body]
pub struct ExOneshotRecvError(oneshot::error::RecvError);

/// `tokio::sync::mpsc::Sender`, the sending half of a channel for many values.
#[verifier::external_type_specification]
#[verifier::external_body]
#[verifier::reject_recursive_types(T)]
pub struct ExMpscSender<T>(mpsc::Sender<T>);

/// `tokio::sync::mpsc::Receiver`, the receiving half of that channel.
#[verifier::external_type_specification]
#[verifier::external_body]
#[verifier::reject_recursive_types(T)]
pub struct ExMpscReceiver<T>(mpsc::Receiver<T>);

/// `std::path::PathBuf`, carried through unread.
#[verifier::external_type_specification]
#[verifier::external_body]
pub struct ExPathBuf(PathBuf);

/// `tokio::sync::oneshot::channel` makes a fresh channel. Nothing is claimed
/// of its two halves: they are carried to whoever answers and whoever waits.
pub assume_specification<T>[ oneshot::channel::<T> ]() -> (res: (
    oneshot::Sender<T>,
    oneshot::Receiver<T>,
));

/// `oneshot::Sender::send` hands `t` to the receiver; where the receiver is
/// gone the same value comes back as the error. Whether the receiver is still
/// there depends on the waiting task, so nothing is claimed of it.
pub assume_specification<T>[ oneshot::Sender::<T>::send ](
    sender: oneshot::Sender<T>,
    t: T,
) -> (res: Result<(), T>)
    ensures
        res matches Err(back) ==> back == t,
;

/// True when the two halves came of one `oneshot::channel`, so that what is
/// handed to the one arrives at the other.
pub open spec fn joined<T>(sender: oneshot::Sender<T>, receiver: oneshot::Receiver<T>) -> bool {
    call_ensures(oneshot::channel::<T>, (), (sender, receiver))
}

/// True when `sent` came of handing `value` to `sender`: it is what
/// `oneshot::Sender::send` returned for these two.
pub open spec fn handed<T>(sender: oneshot::Sender<T>, value: T, sent: Result<(), T>) -> bool {
    call_ensures(oneshot::Sender::<T>::send, (sender, value), sent)
}

/// True when `value` was handed to the channel on which `receiver` waits, and
/// `sent` came of it.
pub open spec fn arrives<T>(receiver: oneshot::Receiver<T>, value: T, sent: Result<(), T>) -> bool {
    exists|sender: oneshot::Sender<T>| #[trigger]
        joined(sender, receiver) && handed(sender, value, sent)
}

/// `tokio::sync::mpsc::channel` makes a fresh channel that buffers up to
/// `buffer` values. It panics on a buffer of 0 and on one beyond the permits of
/// tokio's semaphore, an eighth of `usize::MAX`; both are left out. Nothing is
/// claimed of its two halves.
pub assume_specification<T>[ mpsc::channel::<T> ](buffer: usize) -> (res: (
    mpsc::Sender<T>,
    mpsc::Receiver<T>,
))
    requires
        0 < buffer <= usize::MAX / 8,
;

/// True when the two halves came of one `mpsc::channel` with this buffer, so
/// that what is sent on the one comes out of the other.
pub open spec fn linked<T>(
    buffer: usize,
    sender: mpsc::Sender<T>,
    receiver: mpsc::Receiver<T>,
) -> bool {
    call_ensures(mpsc::channel::<T>, (buffer,), (sender, receiver))
}

/// The path that `PathBuf::from` makes of a text.
pub uninterp spec fn path_from(text: Seq<char>) -> PathBuf;

/// `PathBuf::from(text)`: the path is a function of the text.
#[verifier::external_body]
pub(crate) fn path(text: &str) -> (res: PathBuf)
    ensures
        res == path_from(text@),
{
    PathBuf::from(text)
}

/// `PathBuf::clone` gives an equal path.
pub assume_specification[ <PathBuf as Clone>::clone ](p: &PathBuf) -> (res: PathBuf)
    ensures
        res == *p,
;

/// `Path::file_name`: the last part of a path, as text in which the replacement
/// character stands for what is not Unicode; there is none where the path ends
/// in `..` or has no parts. How a text falls into parts is up to the machine, so
/// nothing is claimed of the name.
#[verifier::external_body]
fn file_name(path: &PathBuf) -> (res: Option<String>) {
    match path.file_name() {
        Some(name) => Some(name.to_string_lossy().into_owned()),
        None => None,
    }
}

/// True when `name` is what `Path::file_name` returned for `path`.
pub closed spec fn ends_in(path: PathBuf, name: Option<String>) -> bool {
    call_ensures(file_name, (&path,), name)
}

/// The last part of a path.
pub(crate) fn last_part(path: &PathBuf) -> (res: Option<String>)
    ensures
        ends_in(*path, res),
{
    file_name(path)
}

/// `Path::display`, written out: the text of a path for people to read. What
/// stands for a part that is not Unicode is up to the machine, so nothing is
/// claimed of the text.
#[verifier::external_body]
fn display(path: &PathBuf) -> (res: String) {
    path.display().to_string()
}

/// True when `text` is what `Path::display` wrote for `path`.
pub closed spec fn reads_as(path: PathBuf, text: String) -> bool {
    call_ensures(display, (&path,), text)
}

/// The text of a path for people to read.
pub(crate) fn shown(path: &PathBuf) -> (res: String)
    ensures
        reads_as(*path, res),
{
    display(path)
}

/// The span of time that `Duration::from_secs` makes of a number of seconds.
pub uninterp spec fn whole_seconds(secs: u64) -> Duration;

/// `Duration::from_secs(secs)`: the span is a function of the seconds.
#[verifier::external_body]
pub(crate) fn seconds(secs: u64) -> (res: Duration)
    ensures
        res == whole_seconds(secs),
{
    Duration::from_secs(secs)
}

/// The shape of a hyphenated UUID of random bits: 36 characters, lower case
/// hexadecimal digits with hyphens after the 8th, 12th, 16th and 20th digit. The
/// 13th digit is the version, 4, and the 17th the variant, from 8 to b.
pub open spec fn uuid_shape(s: Seq<char>) -> bool {
    &&& s.len() == 36
    &&& forall|i: int| 0 <= i < 36 ==> (if i == 8 || i == 13 || i == 18 || i == 23 {
        #[trigger] s[i] == '-'
    } else {
        '0' <= s[i] <= '9' || 'a' <= s[i] <= 'f'
    })
    &&& s[14] == '4'
    &&& s[19] == '8' || s[19] == '9' || s[19] == 'a' || s[19] == 'b'
}

/// `Uuid::new_v4().to_string()`: a random UUID in its hyphenated lower case
/// form. Which one comes is chance, so only the shape is claimed. It panics where
/// the machine has no random bits to give.
#[verifier::external_body]
fn random_uuid() -> (res: String)
    ensures
        uuid_shape(res@),
{
    uuid::Uuid::new_v4().to_string()
}

/// True when `text` is what a draw of a random UUID returned.
pub closed spec fn drawn(text: String) -> bool {
    call_ensures(random_uuid, (), text)
}

/// Draws a random UUID.
pub(crate) fn draw_uuid() -> (res: String)
    ensures
        drawn(res),
        uuid_shape(res@),
{
    random_uuid()
}

/// The media type that `mime_guess` gives for a file name.
pub uninterp spec fn guessed_mime(name: Seq<char>) -> Seq<char>;

/// `mime_guess::from_path(name).first_or_octet_stream()` as text: a lookup of
/// the name's extension in a table built into the crate. It touches no disk,
/// so the result is a function of the name.
#[verifier::external_body]
pub(crate) fn guess_mime(name: &str) -> (res: String)
    ensures
        res@ == guessed_mime(name@),
{
    mime_guess::from_path(name).first_or_octet_stream().to_string()
}

/// How a time is written.
pub const TIME_FORMAT: &'static str = "%Y-%m-%d %H:%M:%S";

/// True for a decimal digit.
pub open spec fn digit(c: char) -> bool {
    '0' <= c <= '9'
}

/// The shape of a date and a time, such as `2024-01-31 23:59:59`. A year has
/// four digits or more, and one beyond them starts with its sign.
pub open spec fn time_shape(s: Seq<char>) -> bool {
    let year = s.len() - 15;
    &&& year >= 4
    &&& forall|i: int|
        0 <= i < year ==> digit(#[trigger] s[i]) || i == 0 && (s[i] == '+' || s[i] == '-')
    &&& s[year] == '-' && digit(s[year + 1]) && digit(s[year + 2])
    &&& s[year + 3] == '-' && digit(s[year + 4]) && digit(s[year + 5])
    &&& s[year + 6] == ' ' && digit(s[year + 7]) && digit(s[year + 8])
    &&& s[year + 9] == ':' && digit(s[year + 10]) && digit(s[year + 11])
    &&& s[year + 12] == ':' && digit(s[year + 13]) && digit(s[year + 14])
}

/// `chrono::Local::now().format(format)`, written out, for the format of a date
/// and a time. The clock and the time zone decide which time it is, so only the
/// shape is claimed. A clock before 1970 makes it panic.
#[verifier::external_body]
fn local_time(format: &str) -> (res: String)
    requires
        format@ == TIME_FORMAT@,
    ensures
        time_shape(res@),
{
    chrono::Local::now().format(format).to_string()
}

/// True when `text` is what the local clock told, written in this format.
pub closed spec fn told_by_clock(format: &str, text: String) -> bool {
    call_ensures(local_time, (format,), text)
}

/// Reads the local clock.
pub(crate) fn read_clock() -> (res: String)
    ensures
        told_by_clock(TIME_FORMAT, res),
        time_shape(res@),
{
    local_time(TIME_FORMAT)
}

/// `tui_input::Input`, a line of text with a cursor.
#[verifier::external_type_specification]
#[verifier::external_body]
pub struct ExInput(Input);

/// The characters that a line holds.
pub uninterp spec fn input_text(input: Input) -> Seq<char>;

/// The number of characters before the cursor of a line.
pub uninterp spec fn input_cursor(input: Input) -> nat;

/// The number of characters by which `tui_input` steps back from a place in a
/// text: what lies between the place and the boundary of a grapheme before it.
pub uninterp spec fn step_back(text: Seq<char>, cursor: nat) -> nat;

/// The number of characters by which `tui_input` steps forward from a place in
/// a text: what lies between the place and the boundary of a grapheme after it.
pub uninterp spec fn step_forward(text: Seq<char>, cursor: nat) -> nat;

/// `Input::default()`: a line without characters, with the cursor at its
/// start.
#[verifier::external_body]
pub(crate) fn empty_input() -> (res: Input)
    ensures
        input_text(res) == Seq::<char>::empty(),
        input_cursor(res) == 0,
{
    Input::default()
}

/// `Input::value`, as an owned text: the characters of the line.
#[verifier::external_body]
pub(crate) fn input_value(input: &Input) -> (res: String)
    ensures
        res@ == input_text(*input),
{
    input.value().to_owned()
}

/// `Input::handle_event` with one of the keys that edit a line, pressed alone.
/// A character is inserted at the cursor, `Home` and `End` move the cursor to
/// an end of the line, and the other keys move over or delete one grapheme.
/// How many characters a grapheme has is decided by the Unicode tables of
/// `unicode-segmentation`: it is at least one where there is a character on
/// that side of the cursor, and never more than there are. The cursor of a line
/// is never behind its last character, and stays so.
#[verifier::external_body]
pub(crate) fn press(input: &mut Input, key: EditKey)
    ensures
        (InputView { text: input_text(*final(input)), cursor: input_cursor(*final(input)) })
            == edited(
            InputView { text: input_text(*old(input)), cursor: input_cursor(*old(input)) },
            key,
        ),
        input_cursor(*old(input)) <= input_text(*old(input)).len() ==> input_cursor(*final(input))
            <= input_text(*final(input)).len(),
        (key is Left || key is Backspace) && 0 < input_cursor(*old(input)) <= input_text(
            *old(input),
        ).len() ==> 1 <= step_back(input_text(*old(input)), input_cursor(*old(input)))
            <= input_cursor(*old(input)),
        (key is Left || key is Backspace) && input_cursor(*old(input)) == 0 ==> step_back(
            input_text(*old(input)),
            0,
        ) == 0,
        (key is Right || key is Delete) && input_cursor(*old(input)) < input_text(*old(input)).len()
            ==> 1 <= step_forward(input_text(*old(input)), input_cursor(*old(input)))
            <= input_text(*old(input)).len() - input_cursor(*old(input)),
        (key is Right || key is Delete) && input_cursor(*old(input)) == input_text(
            *old(input),
        ).len() ==> step_forward(input_text(*old(input)), input_cursor(*old(input))) == 0,
{
    let code = match key {
        EditKey::Char(c) => TerminalKey::Char(c),
        EditKey::Left => TerminalKey::Left,
        EditKey::Right => TerminalKey::Right,
        EditKey::Home => TerminalKey::Home,
        EditKey::End => TerminalKey::End,
        EditKey::Backspace => TerminalKey::Backspace,
        EditKey::Delete => TerminalKey::Delete,
    };
    input.handle_event(&Event::Key(KeyEvent::new(code, KeyModifiers::NONE)));
}

} // verus!
