//! What the interface knows, and how keys and events change it.

use crate::outside::path_from;
use crate::protocol::{DeviceInfo, ReceivedFile};
use crate::server::events::{answered, ServerEvent, TransferDecision};
use crate::text::{decimal, opt_text};
use crate::tui::app::{App, Effect, SCAN_TIME};
use crate::tui::input::{empty_line, typed, InputView, KeyCode};
use crate::tui::popup::{ConfirmView, DecisionView, MessageLevel, Popup, PopupView};
use crate::tui::screens::{
    one_down, one_up, path_under, Screen, SendFileStage, SendFileView, SendTextStage, SendTextView,
    SettingsScreen,
};
use crate::tui::send::{FileProbe, JobView, PayloadView, SendKind, SendUpdate};
use std::path::PathBuf;
use tokio::sync::oneshot;
use vstd::prelude::*;

verus! {

/// What the state holds.
#[verifier::ext_equal]
pub struct AppView {
    pub should_quit: bool,
    pub screen: Screen,
    pub device_info: DeviceInfo,
    pub port: u16,
    pub https: bool,
    pub save_dir: PathBuf,
    pub pin: Option<Seq<char>>,
    pub initial_auto_accept: bool,
    pub devices: Seq<DeviceInfo>,
    pub received_files: Seq<ReceivedFile>,
    pub popup: Option<PopupView>,
    pub send_text: SendTextView,
    pub send_file: SendFileView,
    pub inbox_row: nat,
    pub settings: SettingsScreen,
    pub status: Option<(Seq<char>, MessageLevel)>,
    pub generation: u64,
    pub last_device_count: nat,
    pub scan_deadline: u64,
    pub dirty: bool,
    pub pending_pin: Option<SendKind>,
    pub was_scanning: bool,
}

/// What a key or an event does outside. An answer to a transfer is sent at
/// once; the rest is handed on.
#[verifier::ext_equal]
pub enum EffectView {
    Nothing,
    Reply(DecisionView, oneshot::Sender<TransferDecision>),
    Send(JobView),
    Probe(ProbeView),
    Reveal(PathBuf),
    SetAutoAccept(bool),
}

/// A path that is to be looked at.
#[verifier::ext_equal]
pub struct ProbeView {
    pub target: DeviceInfo,
    pub path: PathBuf,
    pub pin: Option<Seq<char>>,
}

impl View for FileProbe {
    type V = ProbeView;

    open spec fn view(&self) -> ProbeView {
        ProbeView { target: self.target, path: self.path, pin: opt_text(self.pin) }
    }
}

impl View for Effect {
    type V = EffectView;

    open spec fn view(&self) -> EffectView {
        match self {
            Effect::Nothing => EffectView::Nothing,
            Effect::Send(job) => EffectView::Send(job@),
            Effect::Probe(probe) => EffectView::Probe(probe@),
            Effect::Reveal(path) => EffectView::Reveal(*path),
            Effect::SetAutoAccept(yes) => EffectView::SetAutoAccept(*yes),
        }
    }
}

/// True when a decision with these characters was handed to `channel`.
pub open spec fn replied(
    channel: oneshot::Sender<TransferDecision>,
    decision: DecisionView,
) -> bool {
    exists|value: TransferDecision| value@ == decision && #[trigger] answered(channel, value)
}

/// True when what a step does outside was done or is handed on: an answer to a
/// transfer was sent, and anything else is left to do.
pub open spec fn performed(asked: EffectView, left: Effect) -> bool {
    match asked {
        EffectView::Reply(decision, channel) => left is Nothing && replied(channel, decision),
        _ => asked == left@,
    }
}

/// True when a step leads to this state, and what it does outside was done or
/// is handed on.
pub open spec fn leads_to(step: (AppView, EffectView), after: App, effect: Effect) -> bool {
    step.0 == after@ && performed(step.1, effect)
}

/// True when the state after the event is the same at whatever time it comes.
pub open spec fn at_any_time(before: AppView, event: ServerEvent, after: App) -> bool {
    forall|time: String|
        leads_to(#[trigger] before.server_event(event, time), after, Effect::Nothing)
}

/// True when a file that is not there is told of in the same way, whatever the
/// end of its path.
pub open spec fn under_any_name(
    before: AppView,
    probe: ProbeView,
    after: App,
    effect: Effect,
) -> bool {
    forall|name: Option<Seq<char>>|
        leads_to(#[trigger] before.probed(probe, false, name), after, effect)
}

/// True when the state is this one.
pub open spec fn becomes(view: AppView, after: App) -> bool {
    view == after@
}

/// What an optional dialog holds.
pub open spec fn popup_view(popup: Option<Popup>) -> Option<PopupView> {
    match popup {
        Some(p) => Some(p@),
        None => None,
    }
}

/// What an optional message holds.
pub open spec fn status_view(message: Option<(String, MessageLevel)>) -> Option<
    (Seq<char>, MessageLevel),
> {
    match message {
        Some((text, level)) => Some((text@, level)),
        None => None,
    }
}

impl View for App {
    type V = AppView;

    open spec fn view(&self) -> AppView {
        AppView {
            should_quit: self.should_quit,
            screen: self.screen,
            device_info: self.device_info,
            port: self.port,
            https: self.https,
            save_dir: self.save_dir,
            pin: opt_text(self.pin),
            initial_auto_accept: self.initial_auto_accept,
            devices: self.devices@,
            received_files: self.received_files@,
            popup: popup_view(self.popup),
            send_text: self.send_text@,
            send_file: self.send_file@,
            inbox_row: self.receive.selected as nat,
            settings: self.settings,
            status: status_view(self.status_message),
            generation: self.send_generation,
            last_device_count: self.last_device_count as nat,
            scan_deadline: self.scan_deadline,
            dirty: self.dirty,
            pending_pin: self.pending_pin_kind,
            was_scanning: self.was_scanning,
        }
    }
}

/// The generation after `generation`; after the last comes the first.
pub open spec fn next_generation(generation: u64) -> u64 {
    if generation == u64::MAX {
        0
    } else {
        (generation + 1) as u64
    }
}

/// The end of a search that starts at `now`.
pub open spec fn deadline(now: u64) -> u64 {
    if now <= u64::MAX - SCAN_TIME {
        (now + SCAN_TIME) as u64
    } else {
        u64::MAX
    }
}

/// True when `device` is the peer `known`, by its fingerprint or its address.
pub open spec fn same_peer(known: DeviceInfo, device: DeviceInfo) -> bool {
    ||| known.fingerprint@ == device.fingerprint@
    ||| opt_text(known.ip) == opt_text(device.ip) && known.port == device.port
}

impl AppView {
    /// The state with a message in the status bar.
    pub open spec fn say(self, text: Seq<char>, level: MessageLevel) -> AppView {
        AppView { status: Some((text, level)), ..self }
    }

    /// The state without a dialog.
    pub open spec fn closed(self) -> AppView {
        AppView { popup: None, ..self }
    }

    /// The state in which reports of the last send no longer count.
    pub open spec fn superseded(self) -> AppView {
        AppView { generation: next_generation(self.generation), ..self }
    }

    /// True when the keys go into a line of text.
    pub open spec fn in_input(self) -> bool {
        match self.screen {
            Screen::SendText => self.send_text.stage == SendTextStage::EnterMessage,
            Screen::SendFile => self.send_file.stage == SendFileStage::EnterFilePath,
            _ => false,
        }
    }

    /// True while a search goes on and nothing has been found.
    pub open spec fn scanning(self, now: u64) -> bool {
        self.last_device_count == 0 && now < self.scan_deadline
    }

    /// A prompt for the PIN of the receiver, once a send waits for it and no
    /// other dialog is up.
    pub open spec fn pin_prompted(self) -> AppView {
        if self.pending_pin is Some && self.popup is None {
            AppView { popup: Some(PopupView::PinEntry(empty_line())), dirty: true, ..self }
        } else {
            self
        }
    }

    /// A device that announces itself is added to the list, unless it is this
    /// one or is there already.
    pub open spec fn discovered(self, device: DeviceInfo) -> AppView {
        if device.fingerprint@ == self.device_info.fingerprint@ || exists|i: int|
            0 <= i < self.devices.len() && same_peer(#[trigger] self.devices[i], device) {
            self
        } else {
            AppView { devices: self.devices.push(device), ..self }
        }
    }

    /// An event of the server. An incoming transfer is shown, unless a dialog
    /// other than the prompt for a PIN is up: then it is declined.
    pub open spec fn server_event(self, event: ServerEvent, time: String) -> (AppView, EffectView) {
        let next = AppView { dirty: true, ..self };
        match event {
            ServerEvent::TransferRequest(request) => match self.popup {
                None | Some(PopupView::PinEntry(_)) => (
                    AppView {
                        popup: Some(PopupView::TransferConfirm(ConfirmView::of(request))),
                        ..next
                    },
                    EffectView::Nothing,
                ),
                Some(_) => (next, EffectView::Reply(DecisionView::Decline, request.channel())),
            },
            ServerEvent::TextReceived { session_id, text, sender_alias } => (
                next.say(
                    "Message from "@ + sender_alias@ + ": "@ + text@,
                    MessageLevel::Success,
                ),
                EffectView::Nothing,
            ),
            ServerEvent::FileReceived {
                session_id,
                file_id,
                file_name,
                path,
                size,
                sender_alias,
                message_text,
            } => (
                AppView {
                    received_files: self.received_files.push(
                        ReceivedFile {
                            file_name,
                            size,
                            sender: sender_alias,
                            time,
                            path,
                            message_text,
                        },
                    ),
                    ..next
                },
                EffectView::Nothing,
            ),
            ServerEvent::SessionDone { session_id } => (
                next.say("✓ Transfer complete"@, MessageLevel::Success),
                EffectView::Nothing,
            ),
            _ => (next, EffectView::Nothing),
        }
    }

    /// The end of a send: its screen is cleared, and the outcome is told.
    pub open spec fn finished(
        self,
        kind: SendKind,
        label: Seq<char>,
        error: Option<Seq<char>>,
    ) -> AppView {
        let done = match kind {
            SendKind::File => AppView { send_file: self.send_file.cleared(), ..self },
            SendKind::Text => AppView { send_text: self.send_text.cleared(), ..self },
        };
        match error {
            None => done.say("✓ Sent "@ + label, MessageLevel::Success),
            Some(reason) => done.say("✗ Send failed: "@ + reason, MessageLevel::Error),
        }
    }

    /// A receiver asks for a PIN: the attempt is over, and the send waits.
    pub open spec fn needs_pin(self, kind: SendKind) -> AppView {
        let idle = match kind {
            SendKind::File => AppView {
                send_file: SendFileView { is_sending: false, ..self.send_file },
                ..self
            },
            SendKind::Text => AppView {
                send_text: SendTextView { is_sending: false, ..self.send_text },
                ..self
            },
        };
        AppView { pending_pin: Some(kind), ..idle }.say(
            "PIN required by receiver"@,
            MessageLevel::Info,
        )
    }

    /// A report of a send in the background. One of another generation is
    /// ignored.
    pub open spec fn send_update(self, update: SendUpdate) -> AppView {
        let next = AppView { dirty: true, ..self };
        if update.attempt() != self.generation {
            next
        } else {
            match update {
                SendUpdate::Progress { generation, sent, total } => AppView {
                    send_file: self.send_file.progressed(sent, total),
                    ..next
                },
                SendUpdate::Finished { generation, kind, label, error } => next.finished(
                    kind,
                    label@,
                    opt_text(error),
                ),
                SendUpdate::NeedsPin { generation, kind } => next.needs_pin(kind),
            }
        }
    }

    /// The count of devices is brought up to date. A frame is due when it has
    /// changed, while a search goes on, and when it ends.
    pub open spec fn counted(self, now: u64) -> AppView {
        let seen = AppView { last_device_count: self.devices.len(), ..self };
        let scanning = seen.scanning(now);
        AppView {
            dirty: self.dirty || self.devices.len() != self.last_device_count || scanning
                || scanning != self.was_scanning,
            was_scanning: scanning,
            ..seen
        }
    }

    /// A text is sent to the chosen device, if there is one and a text.
    pub open spec fn text_send(self, pin: Option<Seq<char>>) -> (AppView, EffectView) {
        match self.send_text.selected_device {
            None => (self, EffectView::Nothing),
            Some(target) => if self.send_text.input.text.len() == 0 {
                (self, EffectView::Nothing)
            } else {
                (
                    AppView {
                        send_text: SendTextView { is_sending: true, ..self.send_text },
                        ..self.superseded()
                    }.say("Sending message..."@, MessageLevel::Info),
                    EffectView::Send(
                        JobView {
                            generation: next_generation(self.generation),
                            device: self.device_info,
                            target,
                            pin,
                            payload: PayloadView::Text(self.send_text.input.text),
                        },
                    ),
                )
            },
        }
    }

    /// Before a file is sent to the chosen device, its path is looked at.
    pub open spec fn file_send(self, pin: Option<Seq<char>>) -> EffectView {
        match self.send_file.selected_device {
            None => EffectView::Nothing,
            Some(target) => if self.send_file.input.text.len() == 0 {
                EffectView::Nothing
            } else {
                EffectView::Probe(
                    ProbeView { target, path: path_from(self.send_file.input.text), pin },
                )
            },
        }
    }

    /// A file that is there is sent; `name` is the last part of its path.
    pub open spec fn probed(
        self,
        probe: ProbeView,
        there: bool,
        name: Option<Seq<char>>,
    ) -> (AppView, EffectView) {
        if !there {
            (self.say("File not found"@, MessageLevel::Error), EffectView::Nothing)
        } else {
            let label = match name {
                Some(name) => name,
                None => "file"@,
            };
            (
                AppView {
                    send_file: SendFileView {
                        is_sending: true,
                        sent: 0,
                        total: 0,
                        current_file: Some(label),
                        ..self.send_file
                    },
                    ..self.superseded()
                }.say("Sending "@ + label + "..."@, MessageLevel::Info),
                EffectView::Send(
                    JobView {
                        generation: next_generation(self.generation),
                        device: self.device_info,
                        target: probe.target,
                        pin: probe.pin,
                        payload: PayloadView::File(probe.path, label),
                    },
                ),
            )
        }
    }

    /// The send that waits for a PIN is tried again with it.
    pub open spec fn retried(self, pin: Seq<char>) -> (AppView, EffectView) {
        let free = AppView { pending_pin: None, ..self };
        match self.pending_pin {
            Some(SendKind::File) => (free, free.file_send(Some(pin))),
            Some(SendKind::Text) => free.text_send(Some(pin)),
            None => (free, EffectView::Nothing),
        }
    }

    /// A key in the dialog over an incoming transfer, which was taken down. A
    /// key that decides answers the request; any other puts the dialog back.
    pub open spec fn confirm_key(self, dialog: ConfirmView, key: KeyCode) -> (AppView, EffectView) {
        match dialog.decision(key) {
            Some((decision, words)) => (
                match words {
                    Some(text) => self.say(text, MessageLevel::Info),
                    None => self,
                },
                EffectView::Reply(decision, dialog.request.channel()),
            ),
            None => (
                AppView { popup: Some(PopupView::TransferConfirm(dialog.moved(key))), ..self },
                EffectView::Nothing,
            ),
        }
    }

    /// A key in the prompt for a PIN, which was taken down: `Enter` tries the
    /// send again with what is typed, or gives it up where nothing is; `Esc`
    /// gives it up; any other key goes into the prompt.
    pub open spec fn pin_key(self, typed_pin: InputView, key: KeyCode) -> (AppView, EffectView) {
        if key == KeyCode::Enter {
            if typed_pin.text.len() == 0 {
                (
                    AppView { pending_pin: None, ..self }.say(
                        "Send cancelled (no PIN)"@,
                        MessageLevel::Info,
                    ),
                    EffectView::Nothing,
                )
            } else {
                self.retried(typed_pin.text)
            }
        } else if key == KeyCode::Esc {
            (
                AppView { pending_pin: None, ..self }.superseded().say(
                    "Send cancelled"@,
                    MessageLevel::Info,
                ),
                EffectView::Nothing,
            )
        } else {
            (
                AppView { popup: Some(PopupView::PinEntry(typed(typed_pin, key))), ..self },
                EffectView::Nothing,
            )
        }
    }

    /// A key while a dialog is up.
    pub open spec fn popup_key(self, key: KeyCode) -> (AppView, EffectView) {
        match self.popup {
            None => (self, EffectView::Nothing),
            Some(PopupView::TransferConfirm(dialog)) => self.closed().confirm_key(dialog, key),
            Some(PopupView::PinEntry(typed_pin)) => self.closed().pin_key(typed_pin, key),
            Some(PopupView::Message(_, _)) => if key == KeyCode::Enter || key == KeyCode::Esc {
                (self.closed(), EffectView::Nothing)
            } else {
                (self, EffectView::Nothing)
            },
            Some(PopupView::TransferProgress(_, _, _)) => (self, EffectView::Nothing),
        }
    }

    /// A key on the screen that sends a text.
    pub open spec fn text_key(self, key: KeyCode) -> (AppView, EffectView) {
        let screen = self.send_text;
        match screen.stage {
            SendTextStage::SelectDevice => {
                let next = if key.goes_up() {
                    SendTextView { selected: one_up(screen.selected), ..screen }
                } else if key.goes_down() {
                    SendTextView {
                        selected: one_down(screen.selected, self.devices.len()),
                        ..screen
                    }
                } else if key == KeyCode::Enter {
                    screen.device_chosen(self.devices)
                } else if key.letter('r', 'R') {
                    SendTextView { refresh: true, ..screen }
                } else {
                    screen
                };
                (AppView { send_text: next, ..self }, EffectView::Nothing)
            },
            SendTextStage::EnterMessage => if key == KeyCode::Esc {
                let left = SendTextView {
                    stage: SendTextStage::SelectDevice,
                    is_sending: false,
                    ..screen
                };
                if screen.is_sending {
                    (
                        AppView { send_text: left, ..self }.superseded().say(
                            "Send cancelled"@,
                            MessageLevel::Info,
                        ),
                        EffectView::Nothing,
                    )
                } else {
                    (AppView { send_text: left, ..self }, EffectView::Nothing)
                }
            } else if key == KeyCode::Enter {
                if screen.is_sending {
                    (self, EffectView::Nothing)
                } else {
                    self.text_send(None)
                }
            } else {
                (
                    AppView {
                        send_text: SendTextView { input: typed(screen.input, key), ..screen },
                        ..self
                    },
                    EffectView::Nothing,
                )
            },
        }
    }

    /// A key on the screen that sends a file.
    pub open spec fn file_key(self, key: KeyCode) -> (AppView, EffectView) {
        let screen = self.send_file;
        match screen.stage {
            SendFileStage::SelectDevice => {
                let next = if key.goes_up() {
                    SendFileView { selected: one_up(screen.selected), ..screen }
                } else if key.goes_down() {
                    SendFileView {
                        selected: one_down(screen.selected, self.devices.len()),
                        ..screen
                    }
                } else if key == KeyCode::Enter {
                    screen.device_chosen(self.devices)
                } else if key.letter('r', 'R') {
                    SendFileView { refresh: true, ..screen }
                } else {
                    screen
                };
                (AppView { send_file: next, ..self }, EffectView::Nothing)
            },
            SendFileStage::EnterFilePath => if key == KeyCode::Esc {
                let left = AppView { send_file: screen.cleared(), ..self };
                if screen.is_sending {
                    (
                        left.superseded().say("Send cancelled"@, MessageLevel::Info),
                        EffectView::Nothing,
                    )
                } else {
                    (left, EffectView::Nothing)
                }
            } else if screen.is_sending {
                (self, EffectView::Nothing)
            } else if key == KeyCode::Enter {
                (self, self.file_send(None))
            } else {
                (
                    AppView {
                        send_file: SendFileView { input: typed(screen.input, key), ..screen },
                        ..self
                    },
                    EffectView::Nothing,
                )
            },
        }
    }

    /// A key in the inbox.
    pub open spec fn inbox_key(self, key: KeyCode) -> (AppView, EffectView) {
        if key.goes_up() {
            (AppView { inbox_row: one_up(self.inbox_row), ..self }, EffectView::Nothing)
        } else if key.goes_down() {
            (
                AppView {
                    inbox_row: one_down(self.inbox_row, self.received_files.len()),
                    ..self
                },
                EffectView::Nothing,
            )
        } else if key == KeyCode::Enter {
            match path_under(self.inbox_row, self.received_files) {
                Some(path) => (self, EffectView::Reveal(path)),
                None => (self, EffectView::Nothing),
            }
        } else {
            (self, EffectView::Nothing)
        }
    }

    /// A key in the settings: auto-accept is turned on or off.
    pub open spec fn settings_key(self, key: KeyCode) -> (AppView, EffectView) {
        if key == KeyCode::Char(' ') || key == KeyCode::Enter || key.letter('a', 'A') {
            let yes = !self.settings.auto_accept;
            (
                AppView {
                    settings: SettingsScreen { auto_accept: yes, ..self.settings },
                    ..self
                }.say(
                    "Auto-accept "@ + (if yes {
                        "ON"@
                    } else {
                        "OFF"@
                    }),
                    MessageLevel::Info,
                ),
                EffectView::SetAutoAccept(yes),
            )
        } else {
            (self, EffectView::Nothing)
        }
    }

    /// A key on the screen that is up.
    pub open spec fn screen_key(self, key: KeyCode) -> (AppView, EffectView) {
        match self.screen {
            Screen::SendText => self.text_key(key),
            Screen::SendFile => self.file_key(key),
            Screen::Receive => self.inbox_key(key),
            Screen::Settings => self.settings_key(key),
        }
    }

    /// True when a new search was asked for.
    pub open spec fn refresh_asked(self) -> bool {
        self.send_text.refresh || self.send_file.refresh
    }

    /// A new search starts, if one was asked for.
    pub open spec fn refreshed(self, now: u64) -> AppView {
        if self.refresh_asked() {
            AppView {
                send_text: SendTextView { refresh: false, ..self.send_text },
                send_file: SendFileView { refresh: false, ..self.send_file },
                devices: Seq::empty(),
                last_device_count: 0,
                scan_deadline: deadline(now),
                ..self
            }.say("Refreshing devices..."@, MessageLevel::Info)
        } else {
            self
        }
    }

    /// A key. A dialog comes first; `q` quits; the tabs change unless the keys
    /// go into a line; everything else is for the screen. The last part says
    /// that the device has to announce itself.
    pub open spec fn key(self, key: KeyCode, now: u64) -> (AppView, EffectView, bool) {
        if self.popup is Some {
            let (next, effect) = self.popup_key(key);
            (next, effect, false)
        } else if key == KeyCode::Char('q') {
            (AppView { should_quit: true, ..self }, EffectView::Nothing, false)
        } else if (key == KeyCode::Right || key == KeyCode::Tab) && !self.in_input() {
            (AppView { screen: self.screen.after(), ..self }, EffectView::Nothing, false)
        } else if key == KeyCode::Left && !self.in_input() {
            (AppView { screen: self.screen.before(), ..self }, EffectView::Nothing, false)
        } else {
            let told = if key == KeyCode::Esc && !self.in_input() {
                self.say("Press q to quit"@, MessageLevel::Info)
            } else {
                self
            };
            let (next, effect) = told.screen_key(key);
            (next.refreshed(now), effect, next.refresh_asked())
        }
    }

    /// The texts of the status bar.
    pub open spec fn bar(self) -> Seq<Seq<char>> {
        seq![
            "📲 "@ + self.device_info.alias@,
            " | "@,
            "📱 "@ + decimal(self.devices.len()) + " devices "@,
            "| "@,
            "🟢 Listening on "@ + decimal(self.port as nat) + " "@,
        ] + (match self.status {
            Some((text, level)) => seq!["| "@, text],
            None => Seq::empty(),
        })
    }
}

} // verus!
