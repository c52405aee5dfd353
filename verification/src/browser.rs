//! The browser's state and its transition function.
//!
//! `BrowserState::step` takes the state and an event and gives back the next
//! state and the effect that the shell has to perform. It does exactly what
//! `step_of` says; the shell does the reading, writing and drawing.

use crate::fileops::{
    create_directory_plan, create_plan, delete_plan, paste_plan, paste_target, rename_plan,
    Clipboard, FsOp,
};
use crate::history::NavigationHistory;
use crate::keys::{Action, InputKind, Key, KeyPress, PanelFocus, ACTION_COUNT};
use crate::laws::lemma_step_keeps_wf;
use crate::listing::{filter_entries, list_entries, Entry};
use crate::model::{
    actions_key, address_of, begin_delete, begin_input, begin_text, change, clip, commit,
    confirm_key, done, fail, failed, files_key, go_to, go_up, initial_state, inspected, key_step,
    launch, listed, look_at_address, open_selected, paste, perform, refresh, select_next,
    select_previous, selection, state_wf, stay, step_of, text_key, toggle_hidden, EffectView,
    EventView, FailureKind, FailureView, ModeView, PendingView, StateView,
};
use crate::path::{join, normalize_path, parent};
use crate::text::{copy_chars, to_chars, to_text};
use vstd::prelude::*;

verus! {

/// The mode that decides how keys are read.
#[derive(Debug, PartialEq, Eq)]
pub enum Mode {
    /// Keys are commands.
    Normal,
    /// The browser asks whether the selected entry is to go to the trash.
    ConfirmDelete,
    /// Keys are typed into a line of text. `cursor` counts the characters in
    /// front of the cursor.
    TextEntry { kind: InputKind, buffer: Vec<char>, cursor: usize },
}

impl DeepView for Mode {
    type V = ModeView;

    open spec fn deep_view(&self) -> ModeView {
        match self {
            Mode::Normal => ModeView::Normal,
            Mode::ConfirmDelete => ModeView::ConfirmDelete,
            Mode::TextEntry { kind, buffer, cursor } => ModeView::TextEntry {
                kind: *kind,
                buffer: buffer@,
                cursor: *cursor as int,
            },
        }
    }
}

impl View for Mode {
    type V = ModeView;

    open spec fn view(&self) -> ModeView {
        self.deep_view()
    }
}

/// The effect whose outcome the browser waits for.
#[derive(Debug, PartialEq, Eq)]
pub enum Pending {
    Idle,
    Refresh { filter: Option<String> },
    Navigate { path: String },
    AddressInspect { path: String },
    PasteInspect { to: String },
    Change { clears_clipboard: bool },
    Launch,
}

impl DeepView for Pending {
    type V = PendingView;

    open spec fn deep_view(&self) -> PendingView {
        match self {
            Pending::Idle => PendingView::Idle,
            Pending::Refresh { filter } => PendingView::Refresh { filter: filter.deep_view() },
            Pending::Navigate { path } => PendingView::Navigate { path: path@ },
            Pending::AddressInspect { path } => PendingView::AddressInspect { path: path@ },
            Pending::PasteInspect { to } => PendingView::PasteInspect { to: to@ },
            Pending::Change { clears_clipboard } => PendingView::Change {
                clears_clipboard: *clears_clipboard,
            },
            Pending::Launch => PendingView::Launch,
        }
    }
}

/// What happened: a key press, or the outcome of an effect.
#[derive(Debug, PartialEq, Eq)]
pub enum Event {
    /// A key was pressed.
    Key(KeyPress),
    /// A directory was read; `entries` are its raw entries in the order in
    /// which they were read.
    Listed { entries: Vec<Entry> },
    /// The source of a paste was looked at; `children` are its direct
    /// children where it is a directory. Of a child the name and whether it
    /// is a directory count.
    Inspected { is_dir: bool, children: Vec<Entry> },
    /// File operations, or the hand-over to an application, succeeded.
    Done,
    /// The outstanding effect failed.
    Failed { message: String },
}

impl DeepView for Event {
    type V = EventView;

    open spec fn deep_view(&self) -> EventView {
        match self {
            Event::Key(k) => EventView::Key(*k),
            Event::Listed { entries } => EventView::Listed { entries: entries.deep_view() },
            Event::Inspected { is_dir, children } => EventView::Inspected {
                is_dir: *is_dir,
                children: children.deep_view(),
            },
            Event::Done => EventView::Done,
            Event::Failed { message } => EventView::Failed { message: message@ },
        }
    }
}

impl View for Event {
    type V = EventView;

    open spec fn view(&self) -> EventView {
        self.deep_view()
    }
}

/// What the shell has to do next.
#[derive(Debug, PartialEq, Eq)]
pub enum Effect {
    /// Nothing but to wait for the next key.
    Wait,
    /// End the program.
    Quit,
    /// Read the directory and answer with `Listed` or `Failed`.
    ReadDirectory { path: String },
    /// Look at the entry and answer with `Inspected`, or with `Failed` where
    /// there is no such entry. The children of a directory are wanted only
    /// with `list_children`; where they cannot be read the answer is
    /// `Failed`.
    Inspect { path: String, list_children: bool },
    /// Carry the operations out in order, stop at the first failure, and
    /// answer with `Done` or `Failed`.
    Apply { ops: Vec<FsOp> },
    /// Hand the entry to its default application without waiting for it,
    /// and answer with `Done` or `Failed`.
    Open { path: String },
}

impl DeepView for Effect {
    type V = EffectView;

    open spec fn deep_view(&self) -> EffectView {
        match self {
            Effect::Wait => EffectView::Wait,
            Effect::Quit => EffectView::Quit,
            Effect::ReadDirectory { path } => EffectView::ReadDirectory { path: path@ },
            Effect::Inspect { path, list_children } => EffectView::Inspect {
                path: path@,
                list_children: *list_children,
            },
            Effect::Apply { ops } => EffectView::Apply { ops: ops.deep_view() },
            Effect::Open { path } => EffectView::Open { path: path@ },
        }
    }
}

impl View for Effect {
    type V = EffectView;

    open spec fn view(&self) -> EffectView {
        self.deep_view()
    }
}

/// A failure: what kind it is of, and the message that is shown.
#[derive(Debug, PartialEq, Eq)]
pub struct Failure {
    pub kind: FailureKind,
    pub message: String,
}

impl DeepView for Failure {
    type V = FailureView;

    open spec fn deep_view(&self) -> FailureView {
        FailureView { kind: self.kind, message: self.message@ }
    }
}

impl View for Failure {
    type V = FailureView;

    open spec fn view(&self) -> FailureView {
        self.deep_view()
    }
}

/// The state of the browser. It is made once, for the directory in which
/// the program starts, and changes only through `step`.
pub struct BrowserState {
    path: String,
    home: Option<String>,
    listing: Vec<Entry>,
    selected: usize,
    show_hidden: bool,
    clipboard: Option<Clipboard>,
    focus: PanelFocus,
    selected_action: usize,
    mode: Mode,
    error: Option<Failure>,
    history: NavigationHistory,
    pending: Pending,
}

impl View for BrowserState {
    type V = StateView;

    closed spec fn view(&self) -> StateView {
        StateView {
            path: self.path@,
            home: self.home.deep_view(),
            listing: self.listing.deep_view(),
            selected: self.selected as int,
            show_hidden: self.show_hidden,
            clipboard: self.clipboard.deep_view(),
            focus: self.focus,
            selected_action: self.selected_action as int,
            mode: self.mode.deep_view(),
            error: self.error.deep_view(),
            history: self.history@,
            pending: self.pending.deep_view(),
        }
    }
}

impl BrowserState {
    /// The invariant of the type.
    pub open spec fn wf(&self) -> bool {
        state_wf(self@)
    }

    /// The state in which the browser starts: in the directory `path`,
    /// whose raw entries are `entries`, with hidden entries shown, the first
    /// row selected, and `path` as the only entry of the history.
    pub fn new(path: String, home: Option<String>, entries: &Vec<Entry>) -> (s: BrowserState)
        ensures
            s.wf(),
            s@ == initial_state(path@, home.deep_view(), entries.deep_view()),
    {
        let mut history = NavigationHistory::new();
        history.push(path.clone());
        BrowserState {
            path,
            home,
            listing: list_entries(entries, true),
            selected: 0,
            show_hidden: true,
            clipboard: None,
            focus: PanelFocus::Files,
            selected_action: 0,
            mode: Mode::Normal,
            error: None,
            history,
            pending: Pending::Idle,
        }
    }

    /// Whether the invariant of the type holds. It does for every state
    /// that was made by `new` and `step`.
    pub fn is_valid(&self) -> (r: bool)
        ensures
            r == self.wf(),
    {
        let cursor_fits = match &self.mode {
            Mode::TextEntry { buffer, cursor, .. } => *cursor <= buffer.len(),
            _ => true,
        };
        let at_path = match self.history.current() {
            Some(p) => p == self.path,
            None => false,
        };
        let normal = match &self.mode {
            Mode::Normal => true,
            _ => false,
        };
        let settled = (self.focus == PanelFocus::Files || (normal && !self.is_waiting())) && (
        !self.is_waiting() || (normal && self.error.is_none()));
        (self.selected < self.listing.len() || self.selected == 0) && self.selected_action
            < ACTION_COUNT && cursor_fits && self.history.is_valid() && at_path && settled
    }

    /// The current directory.
    pub fn path(&self) -> (r: &String)
        ensures
            r@ == self@.path,
    {
        &self.path
    }

    /// What the file list shows.
    pub fn listing(&self) -> (r: &Vec<Entry>)
        ensures
            r.deep_view() == self@.listing,
    {
        &self.listing
    }

    /// The selected row of the file list.
    pub fn selected(&self) -> (r: usize)
        ensures
            r == self@.selected,
    {
        self.selected
    }

    /// Whether hidden entries are shown.
    pub fn show_hidden(&self) -> (r: bool)
        ensures
            r == self@.show_hidden,
    {
        self.show_hidden
    }

    /// The source of the next paste, if there is one.
    pub fn clipboard(&self) -> (r: Option<Clipboard>)
        ensures
            r.deep_view() == self@.clipboard,
    {
        match &self.clipboard {
            Some(c) => Some(c.clone()),
            None => None,
        }
    }

    /// The panel that the selection keys act on.
    pub fn focus(&self) -> (r: PanelFocus)
        ensures
            r == self@.focus,
    {
        self.focus
    }

    /// The selected row of the actions panel.
    pub fn selected_action(&self) -> (r: usize)
        ensures
            r == self@.selected_action,
    {
        self.selected_action
    }

    /// The mode that decides how keys are read.
    pub fn mode(&self) -> (r: &Mode)
        ensures
            r@ == self@.mode,
    {
        &self.mode
    }

    /// The text that is being typed, if a line of text is open.
    pub fn input(&self) -> (r: Option<String>)
        ensures
            r.deep_view() == match self@.mode {
                ModeView::TextEntry { buffer, .. } => Some(buffer),
                _ => None,
            },
    {
        match &self.mode {
            Mode::TextEntry { buffer, .. } => Some(to_text(buffer)),
            _ => None,
        }
    }

    /// What the address bar shows: the address that is being typed, or
    /// else the current directory.
    pub fn address(&self) -> (r: String)
        ensures
            r@ == address_of(self@),
    {
        match &self.mode {
            Mode::TextEntry { kind: InputKind::AddressEdit, buffer, .. } => to_text(buffer),
            _ => self.path.clone(),
        }
    }

    /// The failure that is on display, if there is one.
    pub fn error(&self) -> (r: Option<Failure>)
        ensures
            r.deep_view() == self@.error,
    {
        match &self.error {
            Some(f) => Some(Failure { kind: f.kind, message: f.message.clone() }),
            None => None,
        }
    }

    /// The visited directories.
    pub fn history(&self) -> (r: &NavigationHistory)
        ensures
            r@ == self@.history,
    {
        &self.history
    }

    /// Whether the browser waits for the outcome of an effect.
    pub fn is_waiting(&self) -> (r: bool)
        ensures
            r == !(self@.pending is Idle),
    {
        match &self.pending {
            Pending::Idle => false,
            _ => true,
        }
    }

    /// The entry in the selected row, if there is such a row.
    pub fn selected_entry(&self) -> (r: Option<Entry>)
        ensures
            r.deep_view() == selection(self@),
    {
        if self.selected < self.listing.len() {
            Some(self.listing[self.selected].clone())
        } else {
            None
        }
    }

    fn stay(self) -> (r: (BrowserState, Effect))
        ensures
            (r.0@, r.1@) == stay(self@),
    {
        (self, Effect::Wait)
    }

    fn select_next(self) -> (r: BrowserState)
        ensures
            r@ == select_next(self@),
    {
        if self.listing.len() > 0 && self.selected < self.listing.len() - 1 {
            BrowserState { selected: self.selected + 1, ..self }
        } else {
            self
        }
    }

    fn select_previous(self) -> (r: BrowserState)
        ensures
            r@ == select_previous(self@),
    {
        if self.selected > 0 {
            BrowserState { selected: self.selected - 1, ..self }
        } else {
            self
        }
    }

    fn go_to(self, path: String) -> (r: (BrowserState, Effect))
        ensures
            (r.0@, r.1@) == go_to(self@, path@),
    {
        let effect = Effect::ReadDirectory { path: path.clone() };
        (BrowserState { pending: Pending::Navigate { path }, ..self }, effect)
    }

    fn look_at_address(self, path: String) -> (r: (BrowserState, Effect))
        ensures
            (r.0@, r.1@) == look_at_address(self@, path@),
    {
        let effect = Effect::Inspect { path: path.clone(), list_children: false };
        (BrowserState { pending: Pending::AddressInspect { path }, ..self }, effect)
    }

    fn refresh(self, filter: Option<String>) -> (r: (BrowserState, Effect))
        ensures
            (r.0@, r.1@) == refresh(self@, filter.deep_view()),
    {
        let effect = Effect::ReadDirectory { path: self.path.clone() };
        (BrowserState { pending: Pending::Refresh { filter }, ..self }, effect)
    }

    fn change(self, ops: Vec<FsOp>) -> (r: (BrowserState, Effect))
        ensures
            (r.0@, r.1@) == change(self@, ops.deep_view()),
    {
        if ops.len() == 0 {
            self.stay()
        } else {
            (
                BrowserState { pending: Pending::Change { clears_clipboard: false }, ..self },
                Effect::Apply { ops },
            )
        }
    }

    fn launch(self, path: String) -> (r: (BrowserState, Effect))
        ensures
            (r.0@, r.1@) == launch(self@, path@),
    {
        (BrowserState { pending: Pending::Launch, ..self }, Effect::Open { path })
    }

    fn fail(self, message: String) -> (r: (BrowserState, Effect))
        ensures
            (r.0@, r.1@) == fail(self@, message@),
    {
        let failure = Failure { kind: FailureKind::InvalidInput, message };
        (BrowserState { error: Some(failure), ..self }, Effect::Wait)
    }

    fn go_up(self) -> (r: (BrowserState, Effect))
        ensures
            (r.0@, r.1@) == go_up(self@),
    {
        match parent(self.path.as_str()) {
            Some(p) => self.go_to(p),
            None => self.stay(),
        }
    }

    fn open_selected(self) -> (r: (BrowserState, Effect))
        ensures
            (r.0@, r.1@) == open_selected(self@),
    {
        match self.selected_entry() {
            Some(e) => if e.is_parent() {
                self.go_up()
            } else {
                let path = join(self.path.as_str(), e.name.as_str());
                if e.is_dir {
                    self.go_to(path)
                } else {
                    self.launch(path)
                }
            },
            None => self.stay(),
        }
    }

    fn clip(self, is_cut: bool) -> (r: BrowserState)
        ensures
            r@ == clip(self@, is_cut),
    {
        match self.selected_entry() {
            Some(e) => {
                let path = join(self.path.as_str(), e.name.as_str());
                BrowserState { clipboard: Some(Clipboard { path, is_cut }), ..self }
            },
            None => self,
        }
    }

    fn paste(self) -> (r: (BrowserState, Effect))
        ensures
            (r.0@, r.1@) == paste(self@),
    {
        match self.clipboard() {
            Some(c) => match paste_target(self.path.as_str(), c.path.as_str()) {
                Some(to) => (
                    BrowserState { pending: Pending::PasteInspect { to }, ..self },
                    Effect::Inspect { path: c.path, list_children: true },
                ),
                None => self.fail(String::from_str("Failed to get file name")),
            },
            None => self.stay(),
        }
    }

    fn begin_delete(self) -> (r: BrowserState)
        ensures
            r@ == begin_delete(self@),
    {
        BrowserState { mode: Mode::ConfirmDelete, ..self }
    }

    fn begin_text(self, kind: InputKind, text: &str) -> (r: BrowserState)
        ensures
            r@ == begin_text(self@, kind, text@),
    {
        let buffer = to_chars(text);
        let cursor = buffer.len();
        BrowserState { mode: Mode::TextEntry { kind, buffer, cursor }, ..self }
    }

    fn begin_input(self, kind: InputKind) -> (r: BrowserState)
        ensures
            r@ == begin_input(self@, kind),
    {
        match kind {
            InputKind::AddressEdit => {
                let text = self.path.clone();
                self.begin_text(kind, text.as_str())
            },
            InputKind::Rename | InputKind::Move => match self.selected_entry() {
                Some(e) => self.begin_text(kind, e.name.as_str()),
                None => {
                    let text = String::new();
                    self.begin_text(kind, text.as_str())
                },
            },
            _ => {
                let text = String::new();
                self.begin_text(kind, text.as_str())
            },
        }
    }

    fn toggle_hidden(self) -> (r: (BrowserState, Effect))
        ensures
            (r.0@, r.1@) == toggle_hidden(self@),
    {
        let flipped = BrowserState { show_hidden: !self.show_hidden, ..self };
        flipped.refresh(None)
    }

    fn perform(self, a: Action) -> (r: (BrowserState, Effect))
        ensures
            (r.0@, r.1@) == perform(self@, a),
    {
        match a {
            Action::Cut => self.clip(true).stay(),
            Action::Copy => self.clip(false).stay(),
            Action::Paste => self.paste(),
            Action::Delete => self.begin_delete().stay(),
            Action::Rename => self.begin_input(InputKind::Rename).stay(),
            Action::Create => self.begin_input(InputKind::Create).stay(),
            Action::CreateDirectory => self.begin_input(InputKind::CreateDirectory).stay(),
            Action::Move => self.begin_input(InputKind::Move).stay(),
            Action::Open => self.open_selected(),
            Action::ToggleHidden => self.toggle_hidden(),
        }
    }

    fn files_key(self, k: KeyPress) -> (r: (BrowserState, Effect))
        ensures
            (r.0@, r.1@) == files_key(self@, k),
    {
        match k.shortcut() {
            Some(a) => self.perform(a),
            None => match k.key {
                Key::Down | Key::Char('j') => self.select_next().stay(),
                Key::Up | Key::Char('k') => self.select_previous().stay(),
                Key::Enter => self.open_selected(),
                Key::Char('u') => self.go_up(),
                Key::Char('/') => self.begin_input(InputKind::AddressEdit).stay(),
                Key::Char('f') => self.begin_input(InputKind::Filter).stay(),
                Key::Right | Key::Char('l') => {
                    let focused = BrowserState { focus: PanelFocus::Actions, ..self };
                    focused.stay()
                },
                _ => self.stay(),
            },
        }
    }

    fn focus_files(self) -> (r: BrowserState)
        ensures
            r@ == (StateView { focus: PanelFocus::Files, ..self@ }),
    {
        BrowserState { focus: PanelFocus::Files, ..self }
    }

    fn actions_key(self, k: KeyPress) -> (r: (BrowserState, Effect))
        ensures
            (r.0@, r.1@) == actions_key(self@, k),
    {
        match k.key {
            Key::Up | Key::Char('k') => if self.selected_action > 0 {
                let moved = BrowserState { selected_action: self.selected_action - 1, ..self };
                moved.stay()
            } else {
                self.stay()
            },
            Key::Down | Key::Char('j') => if self.selected_action < ACTION_COUNT - 1 {
                let moved = BrowserState { selected_action: self.selected_action + 1, ..self };
                moved.stay()
            } else {
                self.stay()
            },
            Key::Left | Key::Char('h') | Key::Esc => self.focus_files().stay(),
            Key::Enter => match Action::at(self.selected_action) {
                Some(a) => {
                    let (t, effect) = self.perform(a);
                    (t.focus_files(), effect)
                },
                None => self.focus_files().stay(),
            },
            _ => self.stay(),
        }
    }

    fn normal(self) -> (r: BrowserState)
        ensures
            r@ == (StateView { mode: ModeView::Normal, ..self@ }),
    {
        BrowserState { mode: Mode::Normal, ..self }
    }

    fn confirm_key(self, k: KeyPress) -> (r: (BrowserState, Effect))
        ensures
            (r.0@, r.1@) == confirm_key(self@, k),
    {
        if k.key == Key::Char('y') {
            match self.selected_entry() {
                Some(e) => {
                    let ops = delete_plan(self.path.as_str(), e.name.as_str());
                    self.normal().change(ops)
                },
                None => self.normal().stay(),
            }
        } else {
            self.normal().stay()
        }
    }

    fn commit(self, kind: InputKind, buffer: &Vec<char>) -> (r: (BrowserState, Effect))
        ensures
            (r.0@, r.1@) == commit(self@, kind, buffer@),
    {
        let typed = to_text(buffer);
        match kind {
            InputKind::AddressEdit => {
                let resolved = match &self.home {
                    Some(h) => normalize_path(typed.as_str(), Some(h.as_str())),
                    None => normalize_path(typed.as_str(), None),
                };
                match resolved {
                    Ok(p) => {
                        let path = join(self.path.as_str(), p.as_str());
                        self.look_at_address(path)
                    },
                    Err(_) => self.stay(),
                }
            },
            InputKind::Create => {
                let ops = create_plan(self.path.as_str(), typed.as_str());
                self.change(ops)
            },
            InputKind::CreateDirectory => {
                let ops = create_directory_plan(self.path.as_str(), typed.as_str());
                self.change(ops)
            },
            InputKind::Rename | InputKind::Move => match self.selected_entry() {
                Some(e) => {
                    let ops = rename_plan(self.path.as_str(), e.name.as_str(), typed.as_str());
                    self.change(ops)
                },
                None => self.stay(),
            },
            InputKind::Filter => self.refresh(Some(typed)),
        }
    }

    fn text_key(self, kind: InputKind, buffer: Vec<char>, cursor: usize, k: KeyPress) -> (r: (
        BrowserState,
        Effect,
    ))
        requires
            self@.mode == (ModeView::TextEntry { kind, buffer: buffer@, cursor: cursor as int }),
        ensures
            (r.0@, r.1@) == text_key(self@, kind, buffer@, cursor as int, k),
    {
        match k.key {
            Key::Char(c) => if cursor <= buffer.len() && buffer.len() < usize::MAX {
                let mut buffer = buffer;
                buffer.insert(cursor, c);
                let typed = BrowserState {
                    mode: Mode::TextEntry { kind, buffer, cursor: cursor + 1 },
                    ..self
                };
                typed.stay()
            } else {
                self.stay()
            },
            Key::Backspace => if 0 < cursor && cursor <= buffer.len() {
                let mut buffer = buffer;
                buffer.remove(cursor - 1);
                let typed = BrowserState {
                    mode: Mode::TextEntry { kind, buffer, cursor: cursor - 1 },
                    ..self
                };
                typed.stay()
            } else {
                self.stay()
            },
            Key::Enter => self.normal().commit(kind, &buffer),
            Key::Esc => if kind == InputKind::Filter {
                self.normal().refresh(None)
            } else {
                self.normal().stay()
            },
            _ => self.stay(),
        }
    }

    fn key_step(self, k: KeyPress) -> (r: (BrowserState, Effect))
        ensures
            (r.0@, r.1@) == key_step(self@, k),
    {
        if self.is_waiting() {
            self.stay()
        } else if self.error.is_some() {
            if k.key == Key::Enter || k.key == Key::Esc {
                let cleared = BrowserState { error: None, ..self };
                cleared.stay()
            } else {
                self.stay()
            }
        } else if k.key == Key::Char('q') {
            (self, Effect::Quit)
        } else {
            let (kind, buffer, cursor) = match &self.mode {
                Mode::Normal => {
                    return match self.focus {
                        PanelFocus::Files => self.files_key(k),
                        PanelFocus::Actions => self.actions_key(k),
                    };
                },
                Mode::ConfirmDelete => {
                    return self.confirm_key(k);
                },
                Mode::TextEntry { kind, buffer, cursor } => (*kind, copy_chars(buffer), *cursor),
            };
            self.text_key(kind, buffer, cursor, k)
        }
    }

    fn listed(self, entries: &Vec<Entry>) -> (r: (BrowserState, Effect))
        requires
            self.wf(),
        ensures
            (r.0@, r.1@) == listed(self@, entries.deep_view()),
    {
        match &self.pending {
            Pending::Refresh { filter } => {
                let full = list_entries(entries, self.show_hidden);
                let listing = match filter {
                    Some(needle) => filter_entries(&full, needle.as_str()),
                    None => full,
                };
                let next = BrowserState { listing, selected: 0, pending: Pending::Idle, ..self };
                next.stay()
            },
            Pending::Navigate { path } => {
                let full = list_entries(entries, self.show_hidden);
                let path = path.clone();
                let mut history = self.history;
                history.push(path.clone());
                let next = BrowserState {
                    path,
                    history,
                    listing: full,
                    selected: 0,
                    pending: Pending::Idle,
                    home: self.home,
                    show_hidden: self.show_hidden,
                    clipboard: self.clipboard,
                    focus: self.focus,
                    selected_action: self.selected_action,
                    mode: self.mode,
                    error: self.error,
                };
                next.stay()
            },
            _ => self.stay(),
        }
    }

    fn inspected(self, is_dir: bool, children: &Vec<Entry>) -> (r: (BrowserState, Effect))
        ensures
            (r.0@, r.1@) == inspected(self@, is_dir, children.deep_view()),
    {
        match &self.pending {
            Pending::PasteInspect { to } => match &self.clipboard {
                Some(c) => {
                    let ops = paste_plan(c.path.as_str(), to.as_str(), is_dir, children, c.is_cut);
                    let clears_clipboard = c.is_cut;
                    (
                        BrowserState { pending: Pending::Change { clears_clipboard }, ..self },
                        Effect::Apply { ops },
                    )
                },
                None => {
                    let next = BrowserState { pending: Pending::Idle, ..self };
                    next.stay()
                },
            },
            Pending::AddressInspect { path } => {
                if is_dir {
                    let path = path.clone();
                    self.go_to(path)
                } else {
                    let next = BrowserState { pending: Pending::Idle, ..self };
                    next.stay()
                }
            },
            _ => self.stay(),
        }
    }

    fn done(self) -> (r: (BrowserState, Effect))
        ensures
            (r.0@, r.1@) == done(self@),
    {
        match &self.pending {
            Pending::Change { clears_clipboard } => {
                if *clears_clipboard {
                    let emptied = BrowserState { clipboard: None, ..self };
                    emptied.refresh(None)
                } else {
                    self.refresh(None)
                }
            },
            Pending::Launch => {
                let next = BrowserState { pending: Pending::Idle, ..self };
                next.stay()
            },
            _ => self.stay(),
        }
    }

    fn failed(self, message: String) -> (r: (BrowserState, Effect))
        ensures
            (r.0@, r.1@) == failed(self@, message@),
    {
        match &self.pending {
            Pending::Idle => self.stay(),
            Pending::AddressInspect { .. } => {
                let next = BrowserState { pending: Pending::Idle, ..self };
                next.stay()
            },
            _ => {
                let failure = Failure { kind: FailureKind::IoFailure, message };
                let next = BrowserState { error: Some(failure), pending: Pending::Idle, ..self };
                next.stay()
            },
        }
    }

    /// Takes one event. The result is the next state and the effect that
    /// the shell has to perform before it hands in the next event; for
    /// `Effect::Wait` the next event is a key.
    pub fn step(self, event: Event) -> (r: (BrowserState, Effect))
        requires
            self.wf(),
        ensures
            r.0.wf(),
            r.0@ == step_of(self@, event@).0,
            r.1@ == step_of(self@, event@).1,
    {
        proof {
            lemma_step_keeps_wf(self@, event@);
        }
        match event {
            Event::Key(k) => self.key_step(k),
            Event::Listed { entries } => self.listed(&entries),
            Event::Inspected { is_dir, children } => self.inspected(is_dir, &children),
            Event::Done => self.done(),
            Event::Failed { message } => self.failed(message),
        }
    }
}

} // verus!
