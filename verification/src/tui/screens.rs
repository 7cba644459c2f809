//! The screens behind the tabs.

use crate::outside::{empty_input, input_value};
use crate::protocol::{DeviceInfo, ReceivedFile};
use crate::tui::input::{empty_line, line, type_key, typed, InputView, KeyCode};
use crate::text::opt_text;
use std::path::PathBuf;
use tui_input::Input;
use vstd::prelude::*;

verus! {

/// The tabs, from left to right.
#[derive(Debug, Clone, Copy, PartialEq, Eq, Structural)]
pub enum Screen {
    SendText,
    SendFile,
    Receive,
    Settings,
}

/// What the sender of a text does.
#[derive(Debug, Clone, Copy, PartialEq, Eq, Structural)]
pub enum SendTextStage {
    SelectDevice,
    EnterMessage,
}

/// What the sender of a file does.
#[derive(Debug, Clone, Copy, PartialEq, Eq, Structural)]
pub enum SendFileStage {
    SelectDevice,
    EnterFilePath,
}

impl Screen {
    /// The place of the tab, from the left.
    pub open spec fn place(self) -> nat {
        match self {
            Screen::SendText => 0,
            Screen::SendFile => 1,
            Screen::Receive => 2,
            Screen::Settings => 3,
        }
    }

    /// The place of the tab, from the left.
    pub fn index(self) -> (res: usize)
        ensures
            res == self.place(),
    {
        match self {
            Screen::SendText => 0,
            Screen::SendFile => 1,
            Screen::Receive => 2,
            Screen::Settings => 3,
        }
    }

    /// The tab to the right; after the last comes the first.
    pub open spec fn after(self) -> Screen {
        match self {
            Screen::SendText => Screen::SendFile,
            Screen::SendFile => Screen::Receive,
            Screen::Receive => Screen::Settings,
            Screen::Settings => Screen::SendText,
        }
    }

    /// The tab to the right.
    pub fn next(self) -> (res: Screen)
        ensures
            res == self.after(),
            res.place() == (self.place() + 1) % 4,
    {
        match self {
            Screen::SendText => Screen::SendFile,
            Screen::SendFile => Screen::Receive,
            Screen::Receive => Screen::Settings,
            Screen::Settings => Screen::SendText,
        }
    }

    /// The tab to the left; before the first comes the last.
    pub open spec fn before(self) -> Screen {
        match self {
            Screen::SendText => Screen::Settings,
            Screen::SendFile => Screen::SendText,
            Screen::Receive => Screen::SendFile,
            Screen::Settings => Screen::Receive,
        }
    }

    /// The tab to the left.
    pub fn previous(self) -> (res: Screen)
        ensures
            res == self.before(),
            res.place() == (self.place() + 3) % 4,
    {
        match self {
            Screen::SendText => Screen::Settings,
            Screen::SendFile => Screen::SendText,
            Screen::Receive => Screen::SendFile,
            Screen::Settings => Screen::Receive,
        }
    }

    /// The title of the tab.
    pub fn title(self) -> (res: &'static str)
        ensures
            res@ == (match self {
                Screen::SendText => "📝 Text"@,
                Screen::SendFile => "📁 File"@,
                Screen::Receive => "📥 Inbox"@,
                Screen::Settings => "⚙️ Settings"@,
            }),
    {
        match self {
            Screen::SendText => "📝 Text",
            Screen::SendFile => "📁 File",
            Screen::Receive => "📥 Inbox",
            Screen::Settings => "⚙️ Settings",
        }
    }
}

/// One up in a list of any length; at the top it stays.
pub open spec fn one_up(place: nat) -> nat {
    if place > 0 {
        (place - 1) as nat
    } else {
        place
    }
}

/// One down in a list of `len`; at the bottom it stays.
pub open spec fn one_down(place: nat, len: nat) -> nat {
    if place + 1 < len {
        place + 1
    } else {
        place
    }
}

fn go_up(place: usize) -> (res: usize)
    ensures
        res == one_up(place as nat),
{
    if place > 0 {
        place - 1
    } else {
        place
    }
}

fn go_down(place: usize, len: usize) -> (res: usize)
    ensures
        res == one_down(place as nat, len as nat),
{
    if len > 0 && place < len - 1 {
        place + 1
    } else {
        place
    }
}

/// The screen that sends a text.
#[derive(Debug)]
pub struct SendTextScreen {
    pub stage: SendTextStage,
    pub input: Input,
    pub selected: usize,
    pub selected_device: Option<DeviceInfo>,
    pub is_sending: bool,
    pub scanning: bool,
    pub refresh: bool,
}

/// What it holds.
#[verifier::ext_equal]
pub struct SendTextView {
    pub stage: SendTextStage,
    pub input: InputView,
    pub selected: nat,
    pub selected_device: Option<DeviceInfo>,
    pub is_sending: bool,
    pub scanning: bool,
    pub refresh: bool,
}

impl View for SendTextScreen {
    type V = SendTextView;

    open spec fn view(&self) -> SendTextView {
        SendTextView {
            stage: self.stage,
            input: line(self.input),
            selected: self.selected as nat,
            selected_device: self.selected_device,
            is_sending: self.is_sending,
            scanning: self.scanning,
            refresh: self.refresh,
        }
    }
}

impl SendTextView {
    /// The screen at the start.
    pub open spec fn fresh() -> SendTextView {
        SendTextView {
            stage: SendTextStage::SelectDevice,
            input: empty_line(),
            selected: 0,
            selected_device: None,
            is_sending: false,
            scanning: false,
            refresh: false,
        }
    }

    /// The screen after a send: back to the devices, with nothing typed.
    pub open spec fn cleared(self) -> SendTextView {
        SendTextView {
            stage: SendTextStage::SelectDevice,
            input: empty_line(),
            selected_device: None,
            is_sending: false,
            ..self
        }
    }

    /// The screen once the device under the cursor is chosen.
    pub open spec fn device_chosen(self, devices: Seq<DeviceInfo>) -> SendTextView {
        if self.selected < devices.len() {
            SendTextView {
                stage: SendTextStage::EnterMessage,
                selected_device: Some(devices[self.selected as int]),
                ..self
            }
        } else {
            self
        }
    }
}

impl SendTextScreen {
    /// The screen at the start.
    pub fn new() -> (res: Self)
        ensures
            res@ == SendTextView::fresh(),
    {
        SendTextScreen {
            stage: SendTextStage::SelectDevice,
            input: empty_input(),
            selected: 0,
            selected_device: None,
            is_sending: false,
            scanning: false,
            refresh: false,
        }
    }

    /// Moves the cursor one device up.
    pub fn previous_device(&mut self)
        ensures
            final(self)@ == (SendTextView { selected: one_up(old(self)@.selected), ..old(self)@ }),
    {
        self.selected = go_up(self.selected);
    }

    /// Moves the cursor one device down.
    pub fn next_device(&mut self, devices: usize)
        ensures
            final(self)@ == (SendTextView {
                selected: one_down(old(self)@.selected, devices as nat),
                ..old(self)@
            }),
    {
        self.selected = go_down(self.selected, devices);
    }

    /// Chooses the device under the cursor and goes on to the message.
    pub fn select_current_device(&mut self, devices: &Vec<DeviceInfo>)
        ensures
            final(self)@ == old(self)@.device_chosen(devices@),
    {
        if self.selected < devices.len() {
            self.selected_device = Some(devices[self.selected].clone());
            self.stage = SendTextStage::EnterMessage;
        }
    }

    /// Asks for a new search.
    pub fn request_refresh(&mut self)
        ensures
            final(self)@ == (SendTextView { refresh: true, ..old(self)@ }),
    {
        self.refresh = true;
    }

    /// True when a new search was asked for; it is asked for no longer.
    pub fn consume_refresh(&mut self) -> (res: bool)
        ensures
            res == old(self)@.refresh,
            final(self)@ == (SendTextView { refresh: false, ..old(self)@ }),
    {
        let asked = self.refresh;
        self.refresh = false;
        asked
    }

    /// The message as it is typed.
    pub fn message(&self) -> (res: String)
        ensures
            res@ == self@.input.text,
    {
        input_value(&self.input)
    }

    /// Types a key into the message.
    pub fn type_key(&mut self, key: KeyCode)
        ensures
            final(self)@ == (SendTextView { input: typed(old(self)@.input, key), ..old(self)@ }),
    {
        type_key(&mut self.input, key);
    }

    /// Goes back to the devices, with nothing typed.
    pub fn clear(&mut self)
        ensures
            final(self)@ == old(self)@.cleared(),
    {
        self.stage = SendTextStage::SelectDevice;
        self.input = empty_input();
        self.selected_device = None;
        self.is_sending = false;
    }
}

/// The screen that sends a file.
#[derive(Debug)]
pub struct SendFileScreen {
    pub stage: SendFileStage,
    pub input: Input,
    pub selected: usize,
    pub selected_device: Option<DeviceInfo>,
    pub is_sending: bool,
    /// Bytes that are sent, never more than `total`.
    pub sent: u64,
    /// Bytes to send; 0 while nothing is known.
    pub total: u64,
    pub current_file: Option<String>,
    pub scanning: bool,
    pub refresh: bool,
}

/// What it holds.
#[verifier::ext_equal]
pub struct SendFileView {
    pub stage: SendFileStage,
    pub input: InputView,
    pub selected: nat,
    pub selected_device: Option<DeviceInfo>,
    pub is_sending: bool,
    pub sent: u64,
    pub total: u64,
    pub current_file: Option<Seq<char>>,
    pub scanning: bool,
    pub refresh: bool,
}

impl View for SendFileScreen {
    type V = SendFileView;

    open spec fn view(&self) -> SendFileView {
        SendFileView {
            stage: self.stage,
            input: line(self.input),
            selected: self.selected as nat,
            selected_device: self.selected_device,
            is_sending: self.is_sending,
            sent: self.sent,
            total: self.total,
            current_file: opt_text(self.current_file),
            scanning: self.scanning,
            refresh: self.refresh,
        }
    }
}

impl SendFileView {
    /// The screen at the start.
    pub open spec fn fresh() -> SendFileView {
        SendFileView {
            stage: SendFileStage::SelectDevice,
            input: empty_line(),
            selected: 0,
            selected_device: None,
            is_sending: false,
            sent: 0,
            total: 0,
            current_file: None,
            scanning: false,
            refresh: false,
        }
    }

    /// The screen after a send: back to the devices, with nothing typed.
    pub open spec fn cleared(self) -> SendFileView {
        SendFileView {
            stage: SendFileStage::SelectDevice,
            input: empty_line(),
            selected_device: None,
            is_sending: false,
            sent: 0,
            total: 0,
            current_file: None,
            ..self
        }
    }

    /// The screen once the device under the cursor is chosen.
    pub open spec fn device_chosen(self, devices: Seq<DeviceInfo>) -> SendFileView {
        if self.selected < devices.len() {
            SendFileView {
                stage: SendFileStage::EnterFilePath,
                selected_device: Some(devices[self.selected as int]),
                ..self
            }
        } else {
            self
        }
    }

    /// The screen with the gauge at `sent` of `total`, and full beyond that.
    pub open spec fn progressed(self, sent: u64, total: u64) -> SendFileView {
        SendFileView {
            sent: if sent <= total {
                sent
            } else {
                total
            },
            total,
            ..self
        }
    }
}

impl SendFileScreen {
    /// The screen at the start.
    pub fn new() -> (res: Self)
        ensures
            res@ == SendFileView::fresh(),
    {
        SendFileScreen {
            stage: SendFileStage::SelectDevice,
            input: empty_input(),
            selected: 0,
            selected_device: None,
            is_sending: false,
            sent: 0,
            total: 0,
            current_file: None,
            scanning: false,
            refresh: false,
        }
    }

    /// Moves the cursor one device up.
    pub fn previous_device(&mut self)
        ensures
            final(self)@ == (SendFileView { selected: one_up(old(self)@.selected), ..old(self)@ }),
    {
        self.selected = go_up(self.selected);
    }

    /// Moves the cursor one device down.
    pub fn next_device(&mut self, devices: usize)
        ensures
            final(self)@ == (SendFileView {
                selected: one_down(old(self)@.selected, devices as nat),
                ..old(self)@
            }),
    {
        self.selected = go_down(self.selected, devices);
    }

    /// Chooses the device under the cursor and goes on to the path.
    pub fn select_current_device(&mut self, devices: &Vec<DeviceInfo>)
        ensures
            final(self)@ == old(self)@.device_chosen(devices@),
    {
        if self.selected < devices.len() {
            self.selected_device = Some(devices[self.selected].clone());
            self.stage = SendFileStage::EnterFilePath;
        }
    }

    /// Asks for a new search.
    pub fn request_refresh(&mut self)
        ensures
            final(self)@ == (SendFileView { refresh: true, ..old(self)@ }),
    {
        self.refresh = true;
    }

    /// True when a new search was asked for; it is asked for no longer.
    pub fn consume_refresh(&mut self) -> (res: bool)
        ensures
            res == old(self)@.refresh,
            final(self)@ == (SendFileView { refresh: false, ..old(self)@ }),
    {
        let asked = self.refresh;
        self.refresh = false;
        asked
    }

    /// The path as it is typed.
    pub fn file_path(&self) -> (res: String)
        ensures
            res@ == self@.input.text,
    {
        input_value(&self.input)
    }

    /// Types a key into the path.
    pub fn type_key(&mut self, key: KeyCode)
        ensures
            final(self)@ == (SendFileView { input: typed(old(self)@.input, key), ..old(self)@ }),
    {
        type_key(&mut self.input, key);
    }

    /// Sets the gauge.
    pub fn set_progress(&mut self, sent: u64, total: u64)
        ensures
            final(self)@ == old(self)@.progressed(sent, total),
    {
        self.sent = if sent <= total {
            sent
        } else {
            total
        };
        self.total = total;
    }

    /// Goes back to the devices, with nothing typed.
    pub fn clear(&mut self)
        ensures
            final(self)@ == old(self)@.cleared(),
    {
        self.stage = SendFileStage::SelectDevice;
        self.input = empty_input();
        self.selected_device = None;
        self.is_sending = false;
        self.sent = 0;
        self.total = 0;
        self.current_file = None;
    }
}

/// The inbox: the row that the cursor is on.
#[derive(Debug)]
pub struct ReceiveScreen {
    pub selected: usize,
}

/// The path of the file under the cursor, if there is a file.
pub open spec fn path_under(selected: nat, files: Seq<ReceivedFile>) -> Option<PathBuf> {
    if selected < files.len() {
        Some(files[selected as int].path)
    } else {
        None
    }
}

impl ReceiveScreen {
    /// The inbox at the start.
    pub fn new() -> (res: Self)
        ensures
            res.selected == 0,
    {
        ReceiveScreen { selected: 0 }
    }

    /// Moves the cursor one row up.
    pub fn previous(&mut self)
        ensures
            final(self).selected == one_up(old(self).selected as nat),
    {
        self.selected = go_up(self.selected);
    }

    /// Moves the cursor one row down.
    pub fn next(&mut self, files: usize)
        ensures
            final(self).selected == one_down(old(self).selected as nat, files as nat),
    {
        self.selected = go_down(self.selected, files);
    }

    /// The path of the file under the cursor.
    pub fn selected_path(&self, files: &Vec<ReceivedFile>) -> (res: Option<PathBuf>)
        ensures
            res == path_under(self.selected as nat, files@),
    {
        if self.selected < files.len() {
            Some(files[self.selected].path.clone())
        } else {
            None
        }
    }
}

/// The settings.
#[derive(Debug)]
pub struct SettingsScreen {
    pub device_info: DeviceInfo,
    pub save_dir: String,
    pub auto_accept: bool,
}

} // verus!
