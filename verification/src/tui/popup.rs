//! What lies over the screen and takes the keys.

use crate::protocol::{FileId, FileMetadata};
use crate::server::events::{PendingRequest, TransferDecision};
use crate::text::{decimal, decimal_text, opt_text};
use crate::tui::input::{line, InputView, KeyCode};
use tui_input::Input;
use vstd::prelude::*;
use vstd::string::*;

verus! {

/// How a message is meant.
#[derive(Debug, Clone, Copy, PartialEq, Eq, Structural)]
pub enum MessageLevel {
    Success,
    Error,
    Info,
}

/// An offered file in the dialog.
#[derive(Debug)]
pub struct ConfirmFile {
    pub id: FileId,
    pub file_name: String,
    pub size: u64,
}

/// The dialog over an incoming transfer: the offered files, which of them are
/// selected, and the one that the cursor is on.
#[derive(Debug)]
pub struct ConfirmState {
    pub request: PendingRequest,
    pub files: Vec<ConfirmFile>,
    pub selected: Vec<bool>,
    pub cursor: usize,
}

/// What the dialog holds: each file by its identifier, its name and its size.
#[verifier::ext_equal]
pub struct ConfirmView {
    pub request: PendingRequest,
    pub files: Seq<(Seq<char>, Seq<char>, u64)>,
    pub selected: Seq<bool>,
    pub cursor: nat,
}

/// A dialog.
#[derive(Debug)]
pub enum Popup {
    /// An incoming transfer waits for its answer.
    TransferConfirm(ConfirmState),
    /// A send waits for the PIN of its receiver.
    PinEntry { input: Input },
    Message { text: String, level: MessageLevel },
    TransferProgress { label: String, sent: u64, total: u64 },
}

/// What a dialog holds.
#[verifier::ext_equal]
pub enum PopupView {
    TransferConfirm(ConfirmView),
    PinEntry(InputView),
    Message(Seq<char>, MessageLevel),
    TransferProgress(Seq<char>, u64, u64),
}

/// An answer to a transfer, as characters.
#[verifier::ext_equal]
pub enum DecisionView {
    Accept,
    AcceptFiles(Seq<Seq<char>>),
    Decline,
}

impl View for TransferDecision {
    type V = DecisionView;

    open spec fn view(&self) -> DecisionView {
        match self {
            TransferDecision::Accept => DecisionView::Accept,
            TransferDecision::AcceptFiles(ids) => DecisionView::AcceptFiles(id_views(ids@)),
            TransferDecision::Decline => DecisionView::Decline,
        }
    }
}

/// The identifiers of the selected files, in the order of the dialog.
pub open spec fn picked(files: Seq<(Seq<char>, Seq<char>, u64)>, selected: Seq<bool>) -> Seq<
    Seq<char>,
>
    decreases files.len(),
{
    if files.len() == 0 {
        Seq::empty()
    } else if files.len() <= selected.len() && selected[files.len() - 1] {
        picked(files.drop_last(), selected).push(files.last().0)
    } else {
        picked(files.drop_last(), selected)
    }
}

/// The identifiers as sequences of characters.
pub open spec fn id_views(ids: Seq<FileId>) -> Seq<Seq<char>> {
    ids.map_values(|id: FileId| id@)
}

/// What a file of the dialog holds.
pub open spec fn file_view(file: ConfirmFile) -> (Seq<char>, Seq<char>, u64) {
    (file.id@, file.file_name@, file.size)
}

impl ConfirmView {
    /// The dialog for a new request: every file is selected, and the cursor is
    /// on the first.
    pub open spec fn of(request: PendingRequest) -> ConfirmView {
        let keys = request.offered().keys();
        ConfirmView {
            request,
            files: Seq::new(
                keys.len(),
                |i: int|
                    (
                        keys[i],
                        request.offered()@[keys[i]].file_name@,
                        request.offered()@[keys[i]].size,
                    ),
            ),
            selected: Seq::new(keys.len(), |i: int| true),
            cursor: 0,
        }
    }

    /// Each file is selected or not.
    pub open spec fn wf(self) -> bool {
        self.selected.len() == self.files.len()
    }

    /// The cursor one file up; on the first it stays.
    pub open spec fn up(self) -> ConfirmView {
        if self.cursor > 0 {
            ConfirmView { cursor: (self.cursor - 1) as nat, ..self }
        } else {
            self
        }
    }

    /// The cursor one file down; on the last it stays.
    pub open spec fn down(self) -> ConfirmView {
        if self.cursor + 1 < self.files.len() {
            ConfirmView { cursor: self.cursor + 1, ..self }
        } else {
            self
        }
    }

    /// The file under the cursor changes between selected and not.
    pub open spec fn toggled(self) -> ConfirmView {
        if self.cursor < self.selected.len() {
            ConfirmView {
                selected: self.selected.update(
                    self.cursor as int,
                    !self.selected[self.cursor as int],
                ),
                ..self
            }
        } else {
            self
        }
    }

    /// True when every file is selected.
    pub open spec fn all_selected(self) -> bool {
        forall|i: int| 0 <= i < self.selected.len() ==> #[trigger] self.selected[i]
    }

    /// Nothing is selected if everything was, and everything if not.
    pub open spec fn all_toggled(self) -> ConfirmView {
        ConfirmView {
            selected: Seq::new(self.selected.len(), |i: int| !self.all_selected()),
            ..self
        }
    }

    /// The dialog after a key that does not decide.
    pub open spec fn moved(self, key: KeyCode) -> ConfirmView {
        if key.goes_up() {
            self.up()
        } else if key.goes_down() {
            self.down()
        } else if key == KeyCode::Char(' ') {
            self.toggled()
        } else if key.letter('a', 'A') {
            self.all_toggled()
        } else {
            self
        }
    }

    /// What a key decides, and what is said of it. `Enter` accepts the selected
    /// files, `y` accepts all of them, `n` and `Esc` decline.
    pub open spec fn decision(self, key: KeyCode) -> Option<(DecisionView, Option<Seq<char>>)> {
        let n = self.choice().len();
        if key.letter('n', 'N') || key == KeyCode::Esc || key == KeyCode::Enter && n == 0 {
            Some((DecisionView::Decline, Some("Transfer declined"@)))
        } else if key.letter('y', 'Y') || key == KeyCode::Enter && n == self.files.len() {
            Some((DecisionView::Accept, None))
        } else if key == KeyCode::Enter {
            Some(
                (
                    DecisionView::AcceptFiles(self.choice()),
                    Some("Accepting "@ + decimal(n) + " file(s)"@),
                ),
            )
        } else {
            None
        }
    }

    /// The identifiers of the selected files.
    pub open spec fn choice(self) -> Seq<Seq<char>> {
        picked(self.files, self.selected)
    }
}

impl View for ConfirmState {
    type V = ConfirmView;

    open spec fn view(&self) -> ConfirmView {
        ConfirmView {
            request: self.request,
            files: self.files@.map_values(|file: ConfirmFile| file_view(file)),
            selected: self.selected@,
            cursor: self.cursor as nat,
        }
    }
}

impl View for Popup {
    type V = PopupView;

    open spec fn view(&self) -> PopupView {
        match self {
            Popup::TransferConfirm(state) => PopupView::TransferConfirm(state@),
            Popup::PinEntry { input } => PopupView::PinEntry(line(*input)),
            Popup::Message { text, level } => PopupView::Message(text@, *level),
            Popup::TransferProgress { label, sent, total } => PopupView::TransferProgress(
                label@,
                *sent,
                *total,
            ),
        }
    }
}

proof fn lemma_picked_take(
    files: Seq<(Seq<char>, Seq<char>, u64)>,
    selected: Seq<bool>,
    i: int,
)
    requires
        0 <= i < files.len(),
    ensures
        picked(files.take(i + 1), selected) == (if i < selected.len() && selected[i] {
            picked(files.take(i), selected).push(files[i].0)
        } else {
            picked(files.take(i), selected)
        }),
{
    let more = files.take(i + 1);
    assert(more.drop_last() =~= files.take(i));
    assert(more.last() == files[i]);
}

impl ConfirmState {
    /// The dialog for a new request.
    pub fn new(request: PendingRequest) -> (res: Self)
        ensures
            res@ == ConfirmView::of(request),
            res@.wf(),
    {
        let mut files: Vec<ConfirmFile> = Vec::new();
        let mut selected: Vec<bool> = Vec::new();
        let offered = request.files();
        let n = offered.len();
        let mut i: usize = 0;
        while i < n
            invariant
                i <= n,
                n == offered.keys().len(),
                *offered == request.offered(),
                files@.len() == i,
                selected@.len() == i,
                forall|j: int| 0 <= j < i ==> #[trigger] selected@[j],
                forall|j: int|
                    0 <= j < i ==> file_view(#[trigger] files@[j])
                        == ConfirmView::of(request).files[j],
            decreases n - i,
        {
            let file: &FileMetadata = offered.value_at(i);
            files.push(
                ConfirmFile {
                    id: FileId { text: offered.key_at(i).clone() },
                    file_name: file.file_name.clone(),
                    size: file.size,
                },
            );
            selected.push(true);
            i = i + 1;
        }
        let res = ConfirmState { request, files, selected, cursor: 0 };
        assert(res@.files =~= ConfirmView::of(request).files);
        assert(res@.selected =~= ConfirmView::of(request).selected);
        res
    }

    /// Moves the cursor one file up.
    pub fn move_up(&mut self)
        ensures
            final(self)@ == old(self)@.up(),
    {
        if self.cursor > 0 {
            self.cursor = self.cursor - 1;
        }
    }

    /// Moves the cursor one file down.
    pub fn move_down(&mut self)
        ensures
            final(self)@ == old(self)@.down(),
    {
        if self.files.len() > 0 && self.cursor < self.files.len() - 1 {
            self.cursor = self.cursor + 1;
        }
    }

    /// Selects the file under the cursor, or no longer.
    pub fn toggle(&mut self)
        ensures
            final(self)@ == old(self)@.toggled(),
    {
        if self.cursor < self.selected.len() {
            let now = !self.selected[self.cursor];
            self.selected.set(self.cursor, now);
        }
    }

    /// Selects every file, or none if all were.
    pub fn toggle_all(&mut self)
        ensures
            final(self)@ == old(self)@.all_toggled(),
    {
        let ghost before = self@;
        let mut all = true;
        let mut i: usize = 0;
        while i < self.selected.len()
            invariant
                i <= self.selected.len(),
                self@ == before,
                all ==> (forall|j: int| 0 <= j < i ==> #[trigger] before.selected[j]),
                !all ==> (exists|j: int| 0 <= j < i && !#[trigger] before.selected[j]),
            decreases self.selected.len() - i,
        {
            if !self.selected[i] {
                all = false;
                assert(!before.selected[i as int]);
            }
            i = i + 1;
        }
        assert(all == before.all_selected());
        let n = self.selected.len();
        let mut selected: Vec<bool> = Vec::new();
        while selected.len() < n
            invariant
                selected.len() <= n,
                forall|j: int| 0 <= j < selected@.len() ==> #[trigger] selected@[j] == !all,
            decreases n - selected.len(),
        {
            selected.push(!all);
        }
        self.selected = selected;
        assert(self@.selected =~= before.all_toggled().selected);
    }

    /// The identifiers of the selected files.
    pub fn selected_ids(&self) -> (res: Vec<FileId>)
        ensures
            id_views(res@) == self@.choice(),
    {
        let ghost files = self@.files;
        let ghost selected = self@.selected;
        let mut ids: Vec<FileId> = Vec::new();
        let mut i: usize = 0;
        proof {
            assert(files.take(0) =~= Seq::empty());
            assert(id_views(ids@) =~= picked(files.take(0), selected));
        }
        while i < self.files.len()
            invariant
                i <= self.files.len(),
                files == self@.files,
                selected == self@.selected,
                id_views(ids@) == picked(files.take(i as int), selected),
            decreases self.files.len() - i,
        {
            let ghost before = ids@;
            proof {
                lemma_picked_take(files, selected, i as int);
            }
            if i < self.selected.len() && self.selected[i] {
                ids.push(self.files[i].id.clone());
                assert(id_views(ids@) =~= id_views(before).push(files[i as int].0));
            }
            i = i + 1;
        }
        assert(files.take(files.len() as int) =~= files);
        ids
    }
}

impl ConfirmState {
    /// Takes in a key that does not decide.
    pub fn handle_key(&mut self, key: KeyCode)
        ensures
            final(self)@ == old(self)@.moved(key),
    {
        if key.is_up() {
            self.move_up();
        } else if key.is_down() {
            self.move_down();
        } else if key == KeyCode::Char(' ') {
            self.toggle();
        } else if key.is_letter('a', 'A') {
            self.toggle_all();
        }
    }

    /// What a key decides, and what is to be said of it.
    pub fn decide(&self, key: KeyCode) -> (res: Option<(TransferDecision, Option<String>)>)
        ensures
            match res {
                Some((decision, words)) => self@.decision(key) == Some(
                    (decision@, opt_text(words)),
                ),
                None => self@.decision(key) is None,
            },
    {
        if key == KeyCode::Enter {
            let ids = self.selected_ids();
            assert(id_views(ids@).len() == ids@.len());
            if ids.len() == 0 {
                Some((TransferDecision::Decline, Some("Transfer declined".to_owned())))
            } else if ids.len() == self.files.len() {
                Some((TransferDecision::Accept, None))
            } else {
                let words = "Accepting ".to_owned().concat(
                    decimal_text(ids.len() as u64).as_str(),
                ).concat(" file(s)");
                Some((TransferDecision::AcceptFiles(ids), Some(words)))
            }
        } else if key.is_letter('y', 'Y') {
            Some((TransferDecision::Accept, None))
        } else if key.is_letter('n', 'N') || key == KeyCode::Esc {
            Some((TransferDecision::Decline, Some("Transfer declined".to_owned())))
        } else {
            None
        }
    }
}

impl Popup {
    /// The dialog over an incoming transfer.
    pub fn confirm(request: PendingRequest) -> (res: Self)
        ensures
            res@ == PopupView::TransferConfirm(ConfirmView::of(request)),
            ConfirmView::of(request).wf(),
    {
        Popup::TransferConfirm(ConfirmState::new(request))
    }
}

} // verus!
