//! The browser as a state machine, in mathematical terms.
//!
//! `step_of` says, for every state and every event, what the next state is
//! and which effect the shell has to perform. Events are key presses and the
//! outcomes of effects. While an effect is outstanding the machine waits for
//! its outcome and takes no keys.
//!
//! Delete, copy, cut, rename and move act on the entry in the selected row,
//! whichever it is, the parent pseudo-entry included. In an empty listing
//! there is no such row: the question whether to delete and the lines for a
//! new name or path open all the same, and their confirmation changes
//! nothing; copy and cut do nothing. Going up from the root does nothing:
//! there the pseudo-entry leads to the root itself.

use crate::fileops::{
    create_directory_plan_of, create_plan_of, delete_plan_of, paste_plan_of, paste_target_of,
    rename_plan_of, ClipboardView, FsOpView,
};
use crate::history::{current_of, history_wf, pushed, HistoryView};
use crate::keys::{
    action_at, shortcut_action, Action, InputKind, Key, KeyPress, PanelFocus, ACTION_COUNT,
};
use crate::listing::{filtered, listing_of, EntryView};
use crate::path::{dot_dot, joined, normalized, parent_of};
use vstd::prelude::*;

verus! {

/// The mode that decides how keys are read.
pub enum ModeView {
    /// Keys are commands.
    Normal,
    /// The browser asks whether the selected entry is to go to the trash.
    ConfirmDelete,
    /// Keys are typed into a line of text. `cursor` counts the characters in
    /// front of the cursor.
    TextEntry { kind: InputKind, buffer: Seq<char>, cursor: int },
}

/// The effect whose outcome the machine waits for.
pub enum PendingView {
    /// None: the machine takes keys.
    Idle,
    /// The current directory is being read again. Of the new listing only
    /// the entries whose names contain `filter` will be kept.
    Refresh { filter: Option<Seq<char>> },
    /// Another directory is being read, to go there.
    Navigate { path: Seq<char> },
    /// An address that was typed is being looked at: the browser goes there
    /// if it is a directory.
    AddressInspect { path: Seq<char> },
    /// The source of a paste is being looked at; `to` is the destination.
    PasteInspect { to: Seq<char> },
    /// File operations are being carried out. After a cut was pasted their
    /// success empties the clipboard.
    Change { clears_clipboard: bool },
    /// An entry is being handed to its default application.
    Launch,
}

/// What happened.
pub enum EventView {
    /// A key was pressed.
    Key(KeyPress),
    /// A directory was read; `entries` are its raw entries in the order in
    /// which they were read.
    Listed { entries: Seq<EntryView> },
    /// The source of a paste was looked at; `children` are its direct
    /// children where it is a directory.
    Inspected { is_dir: bool, children: Seq<EntryView> },
    /// File operations, or the hand-over to an application, succeeded.
    Done,
    /// The outstanding effect failed.
    Failed { message: Seq<char> },
}

/// What the shell has to do next.
pub enum EffectView {
    /// Nothing but to wait for the next key.
    Wait,
    /// End the program.
    Quit,
    /// Read the directory and answer with `Listed` or `Failed`.
    ReadDirectory { path: Seq<char> },
    /// Look at the entry and answer with `Inspected`, or with `Failed` where
    /// there is no such entry. The children of a directory are wanted only
    /// with `list_children`; where they cannot be read the answer is
    /// `Failed`.
    Inspect { path: Seq<char>, list_children: bool },
    /// Carry the operations out in order, stop at the first failure, and
    /// answer with `Done` or `Failed`.
    Apply { ops: Seq<FsOpView> },
    /// Hand the entry to its default application without waiting for it,
    /// and answer with `Done` or `Failed`.
    Open { path: Seq<char> },
}

/// The kinds of failure.
#[derive(Debug, Clone, Copy, PartialEq, Eq, Structural)]
pub enum FailureKind {
    /// The file system, the trash or an application refused an operation.
    IoFailure,
    /// What was asked for makes no sense, whatever the file system holds.
    InvalidInput,
}

/// A failure as contracts see it.
pub struct FailureView {
    pub kind: FailureKind,
    pub message: Seq<char>,
}

/// The state of the browser.
pub struct StateView {
    /// The current directory.
    pub path: Seq<char>,
    /// The home directory, if it is known.
    pub home: Option<Seq<char>>,
    /// What the file list shows.
    pub listing: Seq<EntryView>,
    /// The selected row of the file list.
    pub selected: int,
    pub show_hidden: bool,
    pub clipboard: Option<ClipboardView>,
    pub focus: PanelFocus,
    /// The selected row of the actions panel.
    pub selected_action: int,
    pub mode: ModeView,
    /// The failure that is on display. Until it is dismissed no key does
    /// anything else.
    pub error: Option<FailureView>,
    pub history: HistoryView,
    pub pending: PendingView,
}

/// What holds of every state that the browser reaches: the selections lie
/// within their lists, the cursor lies within the typed text, the current
/// directory is the current entry of the history, the actions panel has
/// the focus in normal mode only, and while an effect is outstanding the
/// browser is in normal mode with no failure on display.
pub open spec fn state_wf(s: StateView) -> bool {
    &&& 0 <= s.selected
    &&& s.selected < s.listing.len() || s.selected == 0
    &&& 0 <= s.selected_action < ACTION_COUNT
    &&& s.mode matches ModeView::TextEntry { buffer, cursor, .. } ==> 0 <= cursor <= buffer.len()
    &&& history_wf(s.history)
    &&& current_of(s.history) == Some(s.path)
    &&& s.focus == PanelFocus::Actions ==> s.mode is Normal && s.pending is Idle
    &&& !(s.pending is Idle) ==> s.mode is Normal && s.error is None
}

/// The message for a clipboard whose path has no last name.
pub open spec fn no_file_name_message() -> Seq<char> {
    "Failed to get file name"@
}

/// The state in which a browser starts in the directory `path`.
pub open spec fn initial_state(
    path: Seq<char>,
    home: Option<Seq<char>>,
    entries: Seq<EntryView>,
) -> StateView {
    StateView {
        path,
        home,
        listing: listing_of(entries, true),
        selected: 0,
        show_hidden: true,
        clipboard: None,
        focus: PanelFocus::Files,
        selected_action: 0,
        mode: ModeView::Normal,
        error: None,
        history: pushed(crate::history::empty_history(), path),
        pending: PendingView::Idle,
    }
}

/// The entry in the selected row, if there is such a row.
pub open spec fn selection(s: StateView) -> Option<EntryView> {
    if 0 <= s.selected < s.listing.len() {
        Some(s.listing[s.selected])
    } else {
        None
    }
}

/// What the address bar shows: the address that is being typed, or else
/// the current directory.
pub open spec fn address_of(s: StateView) -> Seq<char> {
    match s.mode {
        ModeView::TextEntry { kind: InputKind::AddressEdit, buffer, .. } => buffer,
        _ => s.path,
    }
}

/// Nothing changes and nothing is to be done.
pub open spec fn stay(s: StateView) -> (StateView, EffectView) {
    (s, EffectView::Wait)
}

/// The selection moves down by one row, unless it is on the last.
pub open spec fn select_next(s: StateView) -> StateView {
    if s.selected + 1 < s.listing.len() {
        StateView { selected: s.selected + 1, ..s }
    } else {
        s
    }
}

/// The selection moves up by one row, unless it is on the first.
pub open spec fn select_previous(s: StateView) -> StateView {
    if s.selected > 0 {
        StateView { selected: s.selected - 1, ..s }
    } else {
        s
    }
}

/// The directory at `path` is read, to go there.
pub open spec fn go_to(s: StateView, path: Seq<char>) -> (StateView, EffectView) {
    (
        StateView { pending: PendingView::Navigate { path }, ..s },
        EffectView::ReadDirectory { path },
    )
}

/// The address that was typed is looked at, to go there if it is a
/// directory.
pub open spec fn look_at_address(s: StateView, path: Seq<char>) -> (StateView, EffectView) {
    (
        StateView { pending: PendingView::AddressInspect { path }, ..s },
        EffectView::Inspect { path, list_children: false },
    )
}

/// The current directory is read again.
pub open spec fn refresh(s: StateView, filter: Option<Seq<char>>) -> (StateView, EffectView) {
    (
        StateView { pending: PendingView::Refresh { filter }, ..s },
        EffectView::ReadDirectory { path: s.path },
    )
}

/// The operations are handed to the shell; an empty plan is done already.
pub open spec fn change(s: StateView, ops: Seq<FsOpView>) -> (StateView, EffectView) {
    if ops.len() == 0 {
        stay(s)
    } else {
        (
            StateView { pending: PendingView::Change { clears_clipboard: false }, ..s },
            EffectView::Apply { ops },
        )
    }
}

/// The entry at `path` is handed to its default application.
pub open spec fn launch(s: StateView, path: Seq<char>) -> (StateView, EffectView) {
    (StateView { pending: PendingView::Launch, ..s }, EffectView::Open { path })
}

/// A command that makes no sense is answered by a failure on display.
pub open spec fn fail(s: StateView, message: Seq<char>) -> (StateView, EffectView) {
    (
        StateView {
            error: Some(FailureView { kind: FailureKind::InvalidInput, message }),
            ..s
        },
        EffectView::Wait,
    )
}

/// To the parent directory; at the root nothing happens.
pub open spec fn go_up(s: StateView) -> (StateView, EffectView) {
    match parent_of(s.path) {
        Some(p) => go_to(s, p),
        None => stay(s),
    }
}

/// The selected entry is opened: the pseudo-entry leads up, a directory is
/// entered, anything else goes to its default application.
pub open spec fn open_selected(s: StateView) -> (StateView, EffectView) {
    match selection(s) {
        Some(e) => if e.name == dot_dot() {
            go_up(s)
        } else if e.is_dir {
            go_to(s, joined(s.path, e.name))
        } else {
            launch(s, joined(s.path, e.name))
        },
        None => stay(s),
    }
}

/// The path of the selected entry is put on the clipboard. The file system
/// is not touched.
pub open spec fn clip(s: StateView, is_cut: bool) -> StateView {
    match selection(s) {
        Some(e) => StateView {
            clipboard: Some(ClipboardView { path: joined(s.path, e.name), is_cut }),
            ..s
        },
        None => s,
    }
}

/// The entry on the clipboard is pasted into the current directory: as a
/// first step its source is looked at. With an empty clipboard nothing
/// happens.
pub open spec fn paste(s: StateView) -> (StateView, EffectView) {
    match s.clipboard {
        Some(c) => match paste_target_of(s.path, c.path) {
            Some(to) => (
                StateView { pending: PendingView::PasteInspect { to }, ..s },
                EffectView::Inspect { path: c.path, list_children: true },
            ),
            None => fail(s, no_file_name_message()),
        },
        None => stay(s),
    }
}

/// The browser asks for confirmation before anything goes to the trash,
/// whatever the listing holds.
pub open spec fn begin_delete(s: StateView) -> StateView {
    StateView { mode: ModeView::ConfirmDelete, ..s }
}

/// A line of text is started with `text` in it and the cursor behind it.
pub open spec fn begin_text(s: StateView, kind: InputKind, text: Seq<char>) -> StateView {
    StateView { mode: ModeView::TextEntry { kind, buffer: text, cursor: text.len() as int }, ..s }
}

/// A line of text is started. The address starts as the current directory,
/// a new name or path as the name of the selected entry, and everything
/// else empty, a new name or path without a selected row too.
pub open spec fn begin_input(s: StateView, kind: InputKind) -> StateView {
    match kind {
        InputKind::AddressEdit => begin_text(s, kind, s.path),
        InputKind::Rename | InputKind::Move => match selection(s) {
            Some(e) => begin_text(s, kind, e.name),
            None => begin_text(s, kind, Seq::empty()),
        },
        _ => begin_text(s, kind, Seq::empty()),
    }
}

/// Hidden entries are shown if they were not, and the other way round; the
/// directory is read again.
pub open spec fn toggle_hidden(s: StateView) -> (StateView, EffectView) {
    refresh(StateView { show_hidden: !s.show_hidden, ..s }, None)
}

/// What an action does, from the file list and from the actions panel
/// alike.
pub open spec fn perform(s: StateView, a: Action) -> (StateView, EffectView) {
    match a {
        Action::Cut => stay(clip(s, true)),
        Action::Copy => stay(clip(s, false)),
        Action::Paste => paste(s),
        Action::Delete => stay(begin_delete(s)),
        Action::Rename => stay(begin_input(s, InputKind::Rename)),
        Action::Create => stay(begin_input(s, InputKind::Create)),
        Action::CreateDirectory => stay(begin_input(s, InputKind::CreateDirectory)),
        Action::Move => stay(begin_input(s, InputKind::Move)),
        Action::Open => open_selected(s),
        Action::ToggleHidden => toggle_hidden(s),
    }
}

/// A key in normal mode with the file list in focus.
pub open spec fn files_key(s: StateView, k: KeyPress) -> (StateView, EffectView) {
    match shortcut_action(k) {
        Some(a) => perform(s, a),
        None => match k.key {
            Key::Down | Key::Char('j') => stay(select_next(s)),
            Key::Up | Key::Char('k') => stay(select_previous(s)),
            Key::Enter => open_selected(s),
            Key::Char('u') => go_up(s),
            Key::Char('/') => stay(begin_input(s, InputKind::AddressEdit)),
            Key::Char('f') => stay(begin_input(s, InputKind::Filter)),
            Key::Right | Key::Char('l') => stay(StateView { focus: PanelFocus::Actions, ..s }),
            _ => stay(s),
        },
    }
}

/// A key in normal mode with the actions panel in focus.
pub open spec fn actions_key(s: StateView, k: KeyPress) -> (StateView, EffectView) {
    match k.key {
        Key::Up | Key::Char('k') => if s.selected_action > 0 {
            stay(StateView { selected_action: s.selected_action - 1, ..s })
        } else {
            stay(s)
        },
        Key::Down | Key::Char('j') => if s.selected_action + 1 < ACTION_COUNT {
            stay(StateView { selected_action: s.selected_action + 1, ..s })
        } else {
            stay(s)
        },
        Key::Left | Key::Char('h') | Key::Esc => stay(StateView { focus: PanelFocus::Files, ..s }),
        Key::Enter => match action_at(s.selected_action) {
            Some(a) => {
                let (t, effect) = perform(s, a);
                (StateView { focus: PanelFocus::Files, ..t }, effect)
            },
            None => stay(StateView { focus: PanelFocus::Files, ..s }),
        },
        _ => stay(s),
    }
}

/// A key while the browser asks for confirmation: `y` sends the selected
/// entry to the trash, every other key calls the delete off.
pub open spec fn confirm_key(s: StateView, k: KeyPress) -> (StateView, EffectView) {
    let normal = StateView { mode: ModeView::Normal, ..s };
    if k.key == Key::Char('y') {
        match selection(s) {
            Some(e) => change(normal, delete_plan_of(s.path, e.name)),
            None => stay(normal),
        }
    } else {
        stay(normal)
    }
}

/// What the typed line amounts to once Enter is pressed. `s` is back in
/// normal mode already.
pub open spec fn commit(s: StateView, kind: InputKind, buffer: Seq<char>) -> (
    StateView,
    EffectView,
) {
    match kind {
        InputKind::AddressEdit => match normalized(buffer, s.home) {
            Ok(p) => look_at_address(s, joined(s.path, p)),
            Err(_) => stay(s),
        },
        InputKind::Create => change(s, create_plan_of(s.path, buffer)),
        InputKind::CreateDirectory => change(s, create_directory_plan_of(s.path, buffer)),
        InputKind::Rename | InputKind::Move => match selection(s) {
            Some(e) => change(s, rename_plan_of(s.path, e.name, buffer)),
            None => stay(s),
        },
        InputKind::Filter => refresh(s, Some(buffer)),
    }
}

/// A key while a line of text is typed.
pub open spec fn text_key(
    s: StateView,
    kind: InputKind,
    buffer: Seq<char>,
    cursor: int,
    k: KeyPress,
) -> (StateView, EffectView) {
    let normal = StateView { mode: ModeView::Normal, ..s };
    match k.key {
        Key::Char(c) => if 0 <= cursor <= buffer.len() && buffer.len() < usize::MAX {
            stay(
                StateView {
                    mode: ModeView::TextEntry {
                        kind,
                        buffer: buffer.insert(cursor, c),
                        cursor: cursor + 1,
                    },
                    ..s
                },
            )
        } else {
            stay(s)
        },
        Key::Backspace => if 0 < cursor <= buffer.len() {
            stay(
                StateView {
                    mode: ModeView::TextEntry {
                        kind,
                        buffer: buffer.remove(cursor - 1),
                        cursor: cursor - 1,
                    },
                    ..s
                },
            )
        } else {
            stay(s)
        },
        Key::Enter => commit(normal, kind, buffer),
        Key::Esc => if kind == InputKind::Filter {
            refresh(normal, None)
        } else {
            stay(normal)
        },
        _ => stay(s),
    }
}

/// A key press. While an effect is outstanding keys are not taken. While a
/// failure is on display Enter and Escape dismiss it and no key does
/// anything else. Otherwise `q` quits, and every other key goes by the mode.
pub open spec fn key_step(s: StateView, k: KeyPress) -> (StateView, EffectView) {
    if !(s.pending is Idle) {
        stay(s)
    } else if s.error is Some {
        if k.key == Key::Enter || k.key == Key::Esc {
            stay(StateView { error: None, ..s })
        } else {
            stay(s)
        }
    } else if k.key == Key::Char('q') {
        (s, EffectView::Quit)
    } else {
        match s.mode {
            ModeView::Normal => match s.focus {
                PanelFocus::Files => files_key(s, k),
                PanelFocus::Actions => actions_key(s, k),
            },
            ModeView::ConfirmDelete => confirm_key(s, k),
            ModeView::TextEntry { kind, buffer, cursor } => text_key(s, kind, buffer, cursor, k),
        }
    }
}

/// A directory was read. The answer to a refresh becomes the listing; the
/// answer to a navigation also makes the directory the current one and adds
/// it to the history. The selection goes back to the first row.
pub open spec fn listed(s: StateView, entries: Seq<EntryView>) -> (StateView, EffectView) {
    let full = listing_of(entries, s.show_hidden);
    match s.pending {
        PendingView::Refresh { filter } => stay(
            StateView {
                listing: match filter {
                    Some(needle) => filtered(full, needle),
                    None => full,
                },
                selected: 0,
                pending: PendingView::Idle,
                ..s
            },
        ),
        PendingView::Navigate { path } => stay(
            StateView {
                path,
                history: pushed(s.history, path),
                listing: full,
                selected: 0,
                pending: PendingView::Idle,
                ..s
            },
        ),
        _ => stay(s),
    }
}

/// An entry was looked at. For the source of a paste the operations of the
/// paste go to the shell. For a typed address the directory is read if it
/// is one; an address that leads to anything else is dropped without a
/// failure.
pub open spec fn inspected(s: StateView, is_dir: bool, children: Seq<EntryView>) -> (
    StateView,
    EffectView,
) {
    match s.pending {
        PendingView::PasteInspect { to } => match s.clipboard {
            Some(c) => (
                StateView { pending: PendingView::Change { clears_clipboard: c.is_cut }, ..s },
                EffectView::Apply { ops: paste_plan_of(c.path, to, is_dir, children, c.is_cut) },
            ),
            None => stay(StateView { pending: PendingView::Idle, ..s }),
        },
        PendingView::AddressInspect { path } => if is_dir {
            go_to(s, path)
        } else {
            stay(StateView { pending: PendingView::Idle, ..s })
        },
        _ => stay(s),
    }
}

/// The outstanding effect succeeded. After file operations the directory is
/// read again, and the clipboard is emptied where a cut was pasted.
pub open spec fn done(s: StateView) -> (StateView, EffectView) {
    match s.pending {
        PendingView::Change { clears_clipboard } => refresh(
            StateView {
                clipboard: if clears_clipboard {
                    None
                } else {
                    s.clipboard
                },
                ..s
            },
            None,
        ),
        PendingView::Launch => stay(StateView { pending: PendingView::Idle, ..s }),
        _ => stay(s),
    }
}

/// The outstanding effect failed. The failure goes on display; nothing else
/// changes, the clipboard in particular. Only a typed address that leads to
/// nothing is dropped without a failure.
pub open spec fn failed(s: StateView, message: Seq<char>) -> (StateView, EffectView) {
    match s.pending {
        PendingView::Idle => stay(s),
        PendingView::AddressInspect { .. } => stay(
            StateView { pending: PendingView::Idle, ..s },
        ),
        _ => stay(
            StateView {
                error: Some(FailureView { kind: FailureKind::IoFailure, message }),
                pending: PendingView::Idle,
                ..s
            },
        ),
    }
}

/// The next state and the effect, for every state and every event.
pub open spec fn step_of(s: StateView, event: EventView) -> (StateView, EffectView) {
    match event {
        EventView::Key(k) => key_step(s, k),
        EventView::Listed { entries } => listed(s, entries),
        EventView::Inspected { is_dir, children } => inspected(s, is_dir, children),
        EventView::Done => done(s),
        EventView::Failed { message } => failed(s, message),
    }
}

} // verus!
