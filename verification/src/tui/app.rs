//! The application: what it knows, and how it answers keys and events.

use crate::outside::{
    draw_uuid, drawn, empty_input, ends_in, handed, input_value, last_part, path, path_from,
    read_clock, time_shape, told_by_clock, uuid_shape, whole_seconds, TIME_FORMAT,
};
use crate::protocol::{
    clone_text, DeviceInfo, DeviceType, Protocol, ReceivedFile, PROTOCOL_VERSION,
};
use crate::server::events::{answered, PendingRequest, ServerEvent, TransferDecision};
use crate::server::server::{LocalSendServer, LocalSendServerBuilder};
use crate::text::{decimal_text, opt_text, same_text};
use crate::tui::input::{line, type_key, KeyCode};
use crate::tui::popup::{ConfirmState, MessageLevel, Popup};
use crate::tui::screens::{
    ReceiveScreen, Screen, SendFileScreen, SendFileStage, SendFileView, SendTextScreen,
    SendTextStage, SendTextView, SettingsScreen,
};
use crate::tui::send::{FileProbe, Payload, SendJob, SendKind, SendUpdate};
use crate::tui::steps::{
    at_any_time, becomes, deadline, leads_to, replied, same_peer, under_any_name, AppView,
};
use std::path::PathBuf;
use vstd::prelude::*;
use vstd::string::*;

verus! {

/// How long a search for devices is said to go on, in milliseconds.
pub const SCAN_TIME: u64 = 3000;

/// The state of the interface. Times are milliseconds on a clock that only
/// moves forward.
#[derive(Debug)]
pub struct App {
    pub should_quit: bool,
    pub screen: Screen,
    pub device_info: DeviceInfo,
    pub port: u16,
    pub https: bool,
    pub save_dir: PathBuf,
    /// The PIN that senders must present.
    pub pin: Option<String>,
    /// The auto-accept setting that the server starts with.
    pub initial_auto_accept: bool,
    pub devices: Vec<DeviceInfo>,
    pub received_files: Vec<ReceivedFile>,
    pub popup: Option<Popup>,
    pub send_text: SendTextScreen,
    pub send_file: SendFileScreen,
    pub receive: ReceiveScreen,
    pub settings: SettingsScreen,
    pub status_message: Option<(String, MessageLevel)>,
    /// Changes whenever a send starts or is cancelled; reports of another
    /// generation are ignored.
    pub send_generation: u64,
    /// The number of devices that was shown last.
    pub last_device_count: usize,
    /// When a search without a result is over.
    pub scan_deadline: u64,
    /// True when something has changed since the last frame.
    pub dirty: bool,
    /// The send that waits for a PIN.
    pub pending_pin_kind: Option<SendKind>,
    pub was_scanning: bool,
}

/// What a key leaves to do outside.
#[derive(Debug)]
pub enum Effect {
    Nothing,
    /// Run this send in the background.
    Send(SendJob),
    /// Look whether the file is there, then go on with [`App::file_probed`].
    Probe(FileProbe),
    /// Show the file in the file manager, then go on with [`App::revealed`].
    Reveal(PathBuf),
    /// Set auto-accept on the server.
    SetAutoAccept(bool),
}

fn deadline_after(now: u64) -> (res: u64)
    ensures
        res == deadline(now),
{
    if now <= u64::MAX - SCAN_TIME {
        now + SCAN_TIME
    } else {
        u64::MAX
    }
}

fn is_same_peer(known: &DeviceInfo, device: &DeviceInfo) -> (res: bool)
    ensures
        res == same_peer(*known, *device),
{
    if same_text(known.fingerprint.as_str(), device.fingerprint.as_str()) {
        return true;
    }
    let same_ip = match (&known.ip, &device.ip) {
        (Some(a), Some(b)) => same_text(a.as_str(), b.as_str()),
        (None, None) => true,
        _ => false,
    };
    same_ip && known.port == device.port
}

/// Answers a transfer.
fn send_answer(request: PendingRequest, decision: TransferDecision)
    ensures
        replied(request.channel(), decision@),
{
    let sent = request.answer(decision).deliver();
    assert(handed(request.channel(), decision, sent));
    assert(answered(request.channel(), decision));
}

/// The first four characters of a text.
fn first_four(text: &str) -> (res: String)
    requires
        text@.len() >= 4,
    ensures
        res@ == text@.take(4),
{
    let head = text.substring_char(0, 4).to_owned();
    assert(head@ =~= text@.take(4));
    head
}

impl App {
    /// True for an application that has just started.
    pub open spec fn is_fresh(view: AppView, device: DeviceInfo, now: u64) -> bool {
        &&& !view.should_quit
        &&& view.screen == Screen::SendText
        &&& view.device_info == device
        &&& view.port == device.port
        &&& view.https == (device.protocol == Protocol::Https)
        &&& view.save_dir == path_from("./downloads"@)
        &&& view.devices == Seq::<DeviceInfo>::empty()
        &&& view.received_files == Seq::<ReceivedFile>::empty()
        &&& view.popup is None
        &&& view.send_text == SendTextView::fresh()
        &&& view.send_file == SendFileView::fresh()
        &&& view.inbox_row == 0
        &&& view.settings.device_info == device
        &&& view.settings.save_dir@ == "./downloads"@
        &&& view.settings.auto_accept == view.initial_auto_accept
        &&& view.status is None
        &&& view.generation == 0
        &&& view.last_device_count == 0
        &&& view.scan_deadline == deadline(now)
        &&& view.dirty
        &&& view.pending_pin is None
        &&& view.was_scanning
    }

    /// An application for the given device.
    pub fn with_device(device: DeviceInfo, pin: Option<String>, auto_accept: bool, now: u64) -> (res:
        Self)
        ensures
            Self::is_fresh(res@, device, now),
            res@.pin == opt_text(pin),
            res@.initial_auto_accept == auto_accept,
    {
        let https = match device.protocol {
            Protocol::Https => true,
            Protocol::Http => false,
        };
        let settings = SettingsScreen {
            device_info: device.clone(),
            save_dir: "./downloads".to_owned(),
            auto_accept,
        };
        App {
            should_quit: false,
            screen: Screen::SendText,
            port: device.port,
            device_info: device,
            https,
            save_dir: path("./downloads"),
            pin,
            initial_auto_accept: auto_accept,
            devices: Vec::new(),
            received_files: Vec::new(),
            popup: None,
            send_text: SendTextScreen::new(),
            send_file: SendFileScreen::new(),
            receive: ReceiveScreen::new(),
            settings,
            status_message: None,
            send_generation: 0,
            last_device_count: 0,
            scan_deadline: deadline_after(now),
            dirty: true,
            pending_pin_kind: None,
            was_scanning: true,
        }
    }

    /// An application with a random fingerprint. Without an alias it gets one
    /// that ends in four random digits.
    pub fn new(
        port: u16,
        alias: Option<String>,
        https: bool,
        pin: Option<String>,
        auto_accept: bool,
        device_model: String,
        now: u64,
    ) -> (res: Self)
        ensures
            Self::is_fresh(res@, res@.device_info, now),
            res@.pin == opt_text(pin),
            res@.initial_auto_accept == auto_accept,
            match alias {
                Some(name) => res@.device_info.alias == name,
                None => exists|id: String| #[trigger]
                    drawn(id) && uuid_shape(id@) && res@.device_info.alias@ == "LocalSend-Rust-"@
                        + id@.take(4),
            },
            res@.device_info.version@ == PROTOCOL_VERSION@,
            res@.device_info.device_model == Some(device_model),
            res@.device_info.device_type == Some(DeviceType::Desktop),
            drawn(res@.device_info.fingerprint),
            uuid_shape(res@.device_info.fingerprint@),
            res@.device_info.port == port,
            res@.device_info.protocol == (if https {
                Protocol::Https
            } else {
                Protocol::Http
            }),
            !res@.device_info.download,
            res@.device_info.ip is None,
    {
        let name = match alias {
            Some(name) => name,
            None => {
                let id = draw_uuid();
                "LocalSend-Rust-".to_owned().concat(first_four(id.as_str()).as_str())
            },
        };
        let device = DeviceInfo {
            alias: name,
            version: PROTOCOL_VERSION.to_owned(),
            device_model: Some(device_model),
            device_type: Some(DeviceType::Desktop),
            fingerprint: draw_uuid(),
            port,
            protocol: if https {
                Protocol::Https
            } else {
                Protocol::Http
            },
            download: false,
            ip: None,
        };
        Self::with_device(device, pin, auto_accept, now)
    }

    /// Puts a message into the status bar.
    fn say(&mut self, text: String, level: MessageLevel)
        ensures
            becomes(old(self)@.say(text@, level), *final(self)),
    {
        self.status_message = Some((text, level));
    }

    /// Makes the reports of the last send stale.
    fn supersede(&mut self)
        ensures
            becomes(old(self)@.superseded(), *final(self)),
    {
        self.send_generation = self.send_generation.wrapping_add(1);
    }

    /// Opens the prompt for a PIN when a send waits for one and no dialog is up.
    /// It is called again and again, so that a prompt that had to wait behind a
    /// dialog appears as soon as that is gone.
    pub fn maybe_open_pin_prompt(&mut self)
        ensures
            final(self)@ == old(self)@.pin_prompted(),
    {
        if self.pending_pin_kind.is_some() && self.popup.is_none() {
            self.popup = Some(Popup::PinEntry { input: empty_input() });
            self.dirty = true;
        }
    }

    /// Adds a device that announces itself.
    pub fn on_discovered(&mut self, device: DeviceInfo)
        ensures
            final(self)@ == old(self)@.discovered(device),
    {
        if same_text(device.fingerprint.as_str(), self.device_info.fingerprint.as_str()) {
            return;
        }
        let mut i: usize = 0;
        while i < self.devices.len()
            invariant
                i <= self.devices.len(),
                self@ == old(self)@,
                forall|j: int| 0 <= j < i ==> !same_peer(#[trigger] self.devices@[j], device),
            decreases self.devices.len() - i,
        {
            if is_same_peer(&self.devices[i], &device) {
                assert(same_peer(self@.devices[i as int], device));
                return;
            }
            i = i + 1;
        }
        self.devices.push(device);
    }

    /// The server of this application.
    pub fn server_builder(&self) -> (res: LocalSendServerBuilder)
        ensures
            res.alias == self.device_info.alias,
            res.port == self.port,
            res.save_dir == self.save_dir,
            res.protocol == (if self.https {
                Protocol::Https
            } else {
                Protocol::Http
            }),
            res.pin == self.pin,
            res.auto_accept == self.initial_auto_accept,
            res.accept_timeout == whole_seconds(60),
            res.tls_certificate is None,
    {
        let protocol = if self.https {
            Protocol::Https
        } else {
            Protocol::Http
        };
        let builder = LocalSendServer::builder().alias(self.device_info.alias.clone()).port(
            self.port,
        ).save_dir(self.save_dir.clone()).protocol(protocol).auto_accept(self.initial_auto_accept);
        match clone_text(&self.pin) {
            Some(pin) => builder.pin(pin),
            None => builder,
        }
    }

    /// Takes in an event of the server that is no received file.
    fn on_passing_event(&mut self, event: ServerEvent)
        requires
            !(event is FileReceived),
        ensures
            at_any_time(old(self)@, event, *final(self)),
    {
        self.dirty = true;
        match event {
            ServerEvent::TransferRequest(request) => {
                let free = match &self.popup {
                    None => true,
                    Some(Popup::PinEntry { .. }) => true,
                    Some(_) => false,
                };
                if free {
                    self.popup = Some(Popup::confirm(request));
                } else {
                    send_answer(request, TransferDecision::Decline);
                }
            },
            ServerEvent::TextReceived { session_id: _, text, sender_alias } => {
                let message = "Message from ".to_owned().concat(sender_alias.as_str()).concat(
                    ": ",
                ).concat(text.as_str());
                self.say(message, MessageLevel::Success);
            },
            ServerEvent::SessionDone { session_id: _ } => {
                self.say("✓ Transfer complete".to_owned(), MessageLevel::Success);
            },
            _ => {},
        }
    }

    /// Takes in an event of the server that came at `time`.
    pub fn on_server_event_at(&mut self, event: ServerEvent, time: String)
        ensures
            leads_to(old(self)@.server_event(event, time), *final(self), Effect::Nothing),
    {
        match event {
            ServerEvent::FileReceived {
                session_id: _,
                file_id: _,
                file_name,
                path,
                size,
                sender_alias,
                message_text,
            } => {
                self.dirty = true;
                self.received_files.push(
                    ReceivedFile {
                        file_name,
                        size,
                        sender: sender_alias,
                        time,
                        path,
                        message_text,
                    },
                );
            },
            other => self.on_passing_event(other),
        }
    }

    /// Takes in an event of the server. A received file is noted with the
    /// local time; for any other event the clock is not read, and none matters.
    pub fn on_server_event(&mut self, event: ServerEvent)
        ensures
            event is FileReceived ==> exists|time: String| #[trigger]
                told_by_clock(TIME_FORMAT, time) && time_shape(time@) && leads_to(
                    old(self)@.server_event(event, time),
                    *final(self),
                    Effect::Nothing,
                ),
            !(event is FileReceived) ==> at_any_time(old(self)@, event, *final(self)),
    {
        let is_file = match &event {
            ServerEvent::FileReceived { .. } => true,
            _ => false,
        };
        if is_file {
            let time = read_clock();
            self.on_server_event_at(event, time)
        } else {
            self.on_passing_event(event)
        }
    }

    fn finish_send(&mut self, kind: SendKind, label: &str, error: Option<String>)
        ensures
            becomes(old(self)@.finished(kind, label@, opt_text(error)), *final(self)),
    {
        match kind {
            SendKind::File => self.send_file.clear(),
            SendKind::Text => self.send_text.clear(),
        }
        match error {
            None => self.say("✓ Sent ".to_owned().concat(label), MessageLevel::Success),
            Some(reason) => self.say(
                "✗ Send failed: ".to_owned().concat(reason.as_str()),
                MessageLevel::Error,
            ),
        }
    }

    fn ask_for_pin(&mut self, kind: SendKind)
        ensures
            becomes(old(self)@.needs_pin(kind), *final(self)),
    {
        match kind {
            SendKind::File => {
                self.send_file.is_sending = false;
            },
            SendKind::Text => {
                self.send_text.is_sending = false;
            },
        }
        self.pending_pin_kind = Some(kind);
        self.say("PIN required by receiver".to_owned(), MessageLevel::Info);
    }

    /// Takes in a report of a send in the background.
    pub fn on_send_update(&mut self, update: SendUpdate)
        ensures
            becomes(old(self)@.send_update(update), *final(self)),
    {
        self.dirty = true;
        match update {
            SendUpdate::Progress { generation, sent, total } => {
                if generation == self.send_generation {
                    self.send_file.set_progress(sent, total);
                }
            },
            SendUpdate::Finished { generation, kind, label, error } => {
                if generation == self.send_generation {
                    self.finish_send(kind, label.as_str(), error);
                }
            },
            SendUpdate::NeedsPin { generation, kind } => {
                if generation == self.send_generation {
                    self.ask_for_pin(kind);
                }
            },
        }
    }

    /// True while a search goes on and nothing has been found.
    pub fn is_scanning(&self, now: u64) -> (res: bool)
        ensures
            res == self@.scanning(now),
    {
        self.last_device_count == 0 && now < self.scan_deadline
    }

    /// Brings the count of devices up to date and says whether a frame is due.
    pub fn refresh_device_count(&mut self, now: u64)
        ensures
            final(self)@ == old(self)@.counted(now),
    {
        let count = self.devices.len();
        if count != self.last_device_count {
            self.last_device_count = count;
            self.dirty = true;
        }
        let scanning = self.is_scanning(now);
        if scanning || scanning != self.was_scanning {
            self.dirty = true;
        }
        self.was_scanning = scanning;
    }

    /// Starts to send the text, if there is a device and a text.
    fn spawn_text_send(&mut self, pin: Option<String>) -> (res: Effect)
        ensures
            leads_to(old(self)@.text_send(opt_text(pin)), *final(self), res),
    {
        let target = match &self.send_text.selected_device {
            Some(target) => target.clone(),
            None => {
                return Effect::Nothing;
            },
        };
        let message = self.send_text.message();
        if message.as_str().is_empty() {
            return Effect::Nothing;
        }
        self.supersede();
        self.send_text.is_sending = true;
        self.say("Sending message...".to_owned(), MessageLevel::Info);
        Effect::Send(
            SendJob {
                generation: self.send_generation,
                device: self.device_info.clone(),
                target,
                pin,
                payload: Payload::Text { message },
            },
        )
    }

    /// Starts to send the file, if there is a device and a path: first the path
    /// is looked at.
    fn spawn_file_send(&self, pin: Option<String>) -> (res: Effect)
        ensures
            res@ == self@.file_send(opt_text(pin)),
    {
        let target = match &self.send_file.selected_device {
            Some(target) => target.clone(),
            None => {
                return Effect::Nothing;
            },
        };
        let file_path = self.send_file.file_path();
        if file_path.as_str().is_empty() {
            return Effect::Nothing;
        }
        Effect::Probe(FileProbe { target, path: path(file_path.as_str()), pin })
    }

    /// Goes on with a file that was looked at; `file_name` is the last part of
    /// its path, where there is one.
    pub fn file_probed_as(
        &mut self,
        probe: FileProbe,
        there: bool,
        file_name: Option<String>,
    ) -> (res: Effect)
        ensures
            leads_to(old(self)@.probed(probe@, there, opt_text(file_name)), *final(self), res),
    {
        if !there {
            self.say("File not found".to_owned(), MessageLevel::Error);
            return Effect::Nothing;
        }
        let label = match file_name {
            Some(name) => name,
            None => "file".to_owned(),
        };
        self.supersede();
        self.send_file.is_sending = true;
        self.send_file.sent = 0;
        self.send_file.total = 0;
        self.send_file.current_file = Some(label.clone());
        self.say("Sending ".to_owned().concat(label.as_str()).concat("..."), MessageLevel::Info);
        Effect::Send(
            SendJob {
                generation: self.send_generation,
                device: self.device_info.clone(),
                target: probe.target,
                pin: probe.pin,
                payload: Payload::File { path: probe.path, label },
            },
        )
    }

    /// Goes on with a file that was looked at. What is there is sent under the
    /// last part of its path.
    pub fn file_probed(&mut self, probe: FileProbe, there: bool) -> (res: Effect)
        ensures
            there ==> exists|name: Option<String>| #[trigger]
                ends_in(probe.path, name) && leads_to(
                    old(self)@.probed(probe@, true, opt_text(name)),
                    *final(self),
                    res,
                ),
            !there ==> under_any_name(old(self)@, probe@, *final(self), res),
    {
        if there {
            let name = last_part(&probe.path);
            self.file_probed_as(probe, true, name)
        } else {
            self.file_probed_as(probe, false, None)
        }
    }

    /// Tries the send that waits for a PIN again with it.
    fn retry_pending_send_with_pin(&mut self, pin: String) -> (res: Effect)
        ensures
            leads_to(old(self)@.retried(pin@), *final(self), res),
    {
        match self.pending_pin_kind.take() {
            Some(SendKind::File) => self.spawn_file_send(Some(pin)),
            Some(SendKind::Text) => self.spawn_text_send(Some(pin)),
            None => Effect::Nothing,
        }
    }

    fn handle_confirm_key(&mut self, state: ConfirmState, key: KeyCode) -> (res: Effect)
        ensures
            leads_to(old(self)@.confirm_key(state@, key), *final(self), res),
    {
        let mut state = state;
        match state.decide(key) {
            Some((decision, words)) => {
                match words {
                    Some(text) => self.say(text, MessageLevel::Info),
                    None => {},
                }
                send_answer(state.request, decision);
                Effect::Nothing
            },
            None => {
                state.handle_key(key);
                self.popup = Some(Popup::TransferConfirm(state));
                Effect::Nothing
            },
        }
    }

    fn handle_pin_key(&mut self, input: tui_input::Input, key: KeyCode) -> (res: Effect)
        ensures
            leads_to(old(self)@.pin_key(line(input), key), *final(self), res),
    {
        if key == KeyCode::Enter {
            let pin = input_value(&input);
            if pin.as_str().is_empty() {
                self.pending_pin_kind = None;
                self.say("Send cancelled (no PIN)".to_owned(), MessageLevel::Info);
                Effect::Nothing
            } else {
                self.retry_pending_send_with_pin(pin)
            }
        } else if key == KeyCode::Esc {
            self.pending_pin_kind = None;
            self.supersede();
            self.say("Send cancelled".to_owned(), MessageLevel::Info);
            Effect::Nothing
        } else {
            let mut input = input;
            type_key(&mut input, key);
            self.popup = Some(Popup::PinEntry { input });
            Effect::Nothing
        }
    }

    /// Takes in a key while a dialog is up.
    pub fn handle_popup_key(&mut self, key: KeyCode) -> (res: Effect)
        ensures
            leads_to(old(self)@.popup_key(key), *final(self), res),
    {
        match self.popup.take() {
            None => Effect::Nothing,
            Some(Popup::TransferConfirm(state)) => self.handle_confirm_key(state, key),
            Some(Popup::PinEntry { input }) => self.handle_pin_key(input, key),
            Some(Popup::Message { text, level }) => {
                if !(key == KeyCode::Enter || key == KeyCode::Esc) {
                    self.popup = Some(Popup::Message { text, level });
                }
                Effect::Nothing
            },
            Some(Popup::TransferProgress { label, sent, total }) => {
                self.popup = Some(Popup::TransferProgress { label, sent, total });
                Effect::Nothing
            },
        }
    }

    /// Takes in a key on the screen that sends a text.
    pub fn handle_send_text_key(&mut self, key: KeyCode) -> (res: Effect)
        ensures
            leads_to(old(self)@.text_key(key), *final(self), res),
    {
        match self.send_text.stage {
            SendTextStage::SelectDevice => {
                if key.is_up() {
                    self.send_text.previous_device();
                } else if key.is_down() {
                    self.send_text.next_device(self.devices.len());
                } else if key == KeyCode::Enter {
                    self.send_text.select_current_device(&self.devices);
                } else if key.is_letter('r', 'R') {
                    self.send_text.request_refresh();
                }
                Effect::Nothing
            },
            SendTextStage::EnterMessage => {
                if key == KeyCode::Esc {
                    if self.send_text.is_sending {
                        self.supersede();
                        self.send_text.is_sending = false;
                        self.say("Send cancelled".to_owned(), MessageLevel::Info);
                    }
                    self.send_text.stage = SendTextStage::SelectDevice;
                    Effect::Nothing
                } else if key == KeyCode::Enter {
                    if self.send_text.is_sending {
                        return Effect::Nothing;
                    }
                    self.spawn_text_send(None)
                } else {
                    self.send_text.type_key(key);
                    Effect::Nothing
                }
            },
        }
    }

    /// Takes in a key on the screen that sends a file.
    pub fn handle_send_file_key(&mut self, key: KeyCode) -> (res: Effect)
        ensures
            leads_to(old(self)@.file_key(key), *final(self), res),
    {
        match self.send_file.stage {
            SendFileStage::SelectDevice => {
                if key.is_up() {
                    self.send_file.previous_device();
                } else if key.is_down() {
                    self.send_file.next_device(self.devices.len());
                } else if key == KeyCode::Enter {
                    self.send_file.select_current_device(&self.devices);
                } else if key.is_letter('r', 'R') {
                    self.send_file.request_refresh();
                }
                Effect::Nothing
            },
            SendFileStage::EnterFilePath => {
                if key == KeyCode::Esc {
                    if self.send_file.is_sending {
                        self.supersede();
                        self.say("Send cancelled".to_owned(), MessageLevel::Info);
                    }
                    self.send_file.clear();
                    Effect::Nothing
                } else if key == KeyCode::Enter {
                    if self.send_file.is_sending {
                        return Effect::Nothing;
                    }
                    self.spawn_file_send(None)
                } else {
                    if !self.send_file.is_sending {
                        self.send_file.type_key(key);
                    }
                    Effect::Nothing
                }
            },
        }
    }

    /// Takes in a key in the inbox.
    pub fn handle_receive_key(&mut self, key: KeyCode) -> (res: Effect)
        ensures
            leads_to(old(self)@.inbox_key(key), *final(self), res),
    {
        if key.is_up() {
            self.receive.previous();
        } else if key.is_down() {
            self.receive.next(self.received_files.len());
        } else if key == KeyCode::Enter {
            return match self.receive.selected_path(&self.received_files) {
                Some(path) => Effect::Reveal(path),
                None => Effect::Nothing,
            };
        }
        Effect::Nothing
    }

    /// Tells whether the file manager could be opened; `failure` is the reason
    /// where it could not.
    pub fn revealed(&mut self, failure: Option<String>)
        ensures
            final(self)@ == (match failure {
                None => old(self)@.say("Revealed in file manager"@, MessageLevel::Info),
                Some(reason) => old(self)@.say(
                    "Could not reveal: "@ + reason@,
                    MessageLevel::Error,
                ),
            }),
    {
        match failure {
            None => self.say("Revealed in file manager".to_owned(), MessageLevel::Info),
            Some(reason) => self.say(
                "Could not reveal: ".to_owned().concat(reason.as_str()),
                MessageLevel::Error,
            ),
        }
    }

    /// Takes in a key in the settings.
    pub fn handle_settings_key(&mut self, key: KeyCode) -> (res: Effect)
        ensures
            leads_to(old(self)@.settings_key(key), *final(self), res),
    {
        if key == KeyCode::Char(' ') || key == KeyCode::Enter || key.is_letter('a', 'A') {
            let yes = !self.settings.auto_accept;
            self.settings.auto_accept = yes;
            let word = if yes {
                "ON"
            } else {
                "OFF"
            };
            self.say("Auto-accept ".to_owned().concat(word), MessageLevel::Info);
            Effect::SetAutoAccept(yes)
        } else {
            Effect::Nothing
        }
    }

    fn takes_input(&self) -> (res: bool)
        ensures
            res == self@.in_input(),
    {
        match self.screen {
            Screen::SendText => self.send_text.stage == SendTextStage::EnterMessage,
            Screen::SendFile => self.send_file.stage == SendFileStage::EnterFilePath,
            Screen::Receive => false,
            Screen::Settings => false,
        }
    }

    fn handle_screen_key(&mut self, key: KeyCode) -> (res: Effect)
        ensures
            leads_to(old(self)@.screen_key(key), *final(self), res),
    {
        match self.screen {
            Screen::SendText => self.handle_send_text_key(key),
            Screen::SendFile => self.handle_send_file_key(key),
            Screen::Receive => self.handle_receive_key(key),
            Screen::Settings => self.handle_settings_key(key),
        }
    }

    /// Starts a new search if one was asked for, and says whether it was.
    fn refresh(&mut self, now: u64) -> (res: bool)
        ensures
            becomes(old(self)@.refreshed(now), *final(self)),
            res == old(self)@.refresh_asked(),
    {
        let text_refresh = self.send_text.consume_refresh();
        let file_refresh = self.send_file.consume_refresh();
        let refresh = text_refresh || file_refresh;
        if refresh {
            self.devices = Vec::new();
            self.last_device_count = 0;
            self.scan_deadline = deadline_after(now);
            self.say("Refreshing devices...".to_owned(), MessageLevel::Info);
        }
        refresh
    }

    /// Takes in a key. The second part of the result says that the device has
    /// to announce itself again.
    pub fn handle_key(&mut self, key: KeyCode, now: u64) -> (res: (Effect, bool))
        ensures
            leads_to((old(self)@.key(key, now).0, old(self)@.key(key, now).1), *final(self), res.0),
            res.1 == old(self)@.key(key, now).2,
    {
        if self.popup.is_some() {
            return (self.handle_popup_key(key), false);
        }
        let in_input = self.takes_input();
        if key == KeyCode::Char('q') {
            self.should_quit = true;
            return (Effect::Nothing, false);
        }
        if key == KeyCode::Esc {
            if !in_input {
                self.say("Press q to quit".to_owned(), MessageLevel::Info);
            }
        } else if key == KeyCode::Right || key == KeyCode::Tab {
            if !in_input {
                self.screen = self.screen.next();
                return (Effect::Nothing, false);
            }
        } else if key == KeyCode::Left {
            if !in_input {
                self.screen = self.screen.previous();
                return (Effect::Nothing, false);
            }
        }
        let effect = self.handle_screen_key(key);
        (effect, self.refresh(now))
    }

    /// Tells the screens before a frame whether a search goes on.
    pub fn prepare_frame(&mut self, now: u64)
        ensures
            final(self)@ == (AppView {
                send_text: SendTextView {
                    scanning: old(self)@.scanning(now),
                    ..old(self)@.send_text
                },
                send_file: SendFileView {
                    scanning: old(self)@.scanning(now),
                    ..old(self)@.send_file
                },
                ..old(self)@
            }),
    {
        let scanning = self.is_scanning(now);
        self.send_file.scanning = scanning;
        self.send_text.scanning = scanning;
    }

    /// The texts of the status bar; the count of devices that is shown is the
    /// one to compare with next time. The last text is the message, if there is
    /// one.
    pub fn status_bar(&mut self) -> (res: Vec<String>)
        ensures
            res@.map_values(|t: String| t@) == old(self)@.bar(),
            final(self)@ == (AppView {
                last_device_count: old(self)@.devices.len(),
                ..old(self)@
            }),
    {
        self.last_device_count = self.devices.len();
        let mut texts: Vec<String> = Vec::new();
        texts.push("📲 ".to_owned().concat(self.device_info.alias.as_str()));
        texts.push(" | ".to_owned());
        texts.push(
            "📱 ".to_owned().concat(decimal_text(self.devices.len() as u64).as_str()).concat(
                " devices ",
            ),
        );
        texts.push("| ".to_owned());
        texts.push(
            "🟢 Listening on ".to_owned().concat(decimal_text(self.port as u64).as_str()).concat(
                " ",
            ),
        );
        match &self.status_message {
            Some((text, _)) => {
                texts.push("| ".to_owned());
                texts.push(text.clone());
            },
            None => {},
        }
        assert(texts@.map_values(|t: String| t@) =~= old(self)@.bar());
        texts
    }
}

} // verus!
