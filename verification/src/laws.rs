//! What holds of the browser in every state.
//!
//! Each law is stated over `step_of`, which is what `BrowserState::step`
//! computes.

use crate::fileops::{
    child_op, lemma_only_delete_uses_trash, lemma_paste_of_directory_is_shallow, paste_plan_of,
    removes_for_good, uses_trash, ClipboardView, FsOpView,
};
use crate::history::lemma_push_discards_forward;
use crate::keys::{
    lemma_rows_and_actions, row_of, shortcut_action, Action, InputKind, Key, KeyPress, PanelFocus,
};
use crate::listing::{
    filtered, is_listing, lemma_listing_is_ordered, listing_of, EntryView,
};
use crate::model::{
    key_step, perform, selection, state_wf, step_of, EffectView, EventView, FailureKind,
    FailureView, ModeView, PendingView, StateView,
};
use crate::path::{
    dot_dot, file_name_of, is_absolute, is_plain_name, is_tidy, joined, lemma_absolute_paths,
    lemma_joined_is_tidy, lemma_parent_of_joined, normalized, parent_of,
};
use vstd::prelude::*;

verus! {

/// The browser takes commands for the file list: nothing is outstanding,
/// no failure is on display, the mode is normal and the file list has the
/// focus.
pub open spec fn takes_commands(s: StateView) -> bool {
    &&& s.pending is Idle
    &&& s.error is None
    &&& s.mode is Normal
    &&& s.focus == PanelFocus::Files
}

/// The press of the character `c`.
pub open spec fn char_key(c: char, shift: bool) -> EventView {
    EventView::Key(KeyPress { key: Key::Char(c), shift })
}

/// The press of a key that is no character.
pub open spec fn plain_key(key: Key) -> EventView {
    EventView::Key(KeyPress { key, shift: false })
}

/// A key press leaves a valid state valid.
pub proof fn lemma_key_keeps_wf(s: StateView, k: KeyPress)
    requires
        state_wf(s),
    ensures
        state_wf(key_step(s, k).0),
{
    match s.mode {
        ModeView::TextEntry { kind, buffer, cursor } => {
            match k.key {
                Key::Char(c) => {
                    buffer.insert_ensures(cursor, c);
                },
                Key::Backspace => {
                    if 0 < cursor {
                        buffer.remove_ensures(cursor - 1);
                    }
                },
                _ => {},
            }
        },
        _ => {},
    }
}

/// No event leads from a valid state to an invalid one: whatever happens,
/// failures included, the selections stay within their lists, the cursor
/// within the typed text, and the current directory stays the current entry
/// of the history.
pub proof fn lemma_step_keeps_wf(s: StateView, event: EventView)
    requires
        state_wf(s),
    ensures
        state_wf(step_of(s, event).0),
{
    match event {
        EventView::Key(k) => {
            lemma_key_keeps_wf(s, k);
        },
        EventView::Listed { entries } => {
            match s.pending {
                PendingView::Navigate { path } => {
                    lemma_push_discards_forward(s.history, path);
                },
                _ => {},
            }
        },
        _ => {},
    }
}

/// The browser is in a directory with an absolute path, and on its way to
/// none but such.
pub open spec fn stays_absolute(s: StateView) -> bool {
    &&& is_absolute(s.path)
    &&& s.pending matches PendingView::Navigate { path } ==> is_absolute(path)
    &&& s.pending matches PendingView::AddressInspect { path } ==> is_absolute(path)
}

/// A browser that starts in a directory with an absolute path is never in
/// one with another, whatever is typed as an address or a destination.
pub proof fn lemma_path_stays_absolute(s: StateView, event: EventView)
    requires
        stays_absolute(s),
    ensures
        stays_absolute(step_of(s, event).0),
{
    lemma_absolute_paths(s.path, Seq::empty());
    match selection(s) {
        Some(e) => {
            lemma_absolute_paths(s.path, e.name);
        },
        None => {},
    }
    match s.mode {
        ModeView::TextEntry { buffer, .. } => {
            match normalized(buffer, s.home) {
                Ok(p) => {
                    lemma_absolute_paths(s.path, p);
                },
                Err(_) => {},
            }
        },
        _ => {},
    }
}

/// Whatever a directory holds, what the browser shows after it went there,
/// or read it again without a filter, is a listing: the parent pseudo-entry
/// first, then the four groups in order.
pub proof fn lemma_browser_shows_listings(s: StateView, entries: Seq<EntryView>)
    requires
        s.pending is Navigate || s.pending == (PendingView::Refresh { filter: None }),
    ensures
        is_listing(step_of(s, EventView::Listed { entries }).0.listing),
        step_of(s, EventView::Listed { entries }).0.listing == listing_of(entries, s.show_hidden),
        step_of(s, EventView::Listed { entries }).0.selected == 0,
{
    lemma_listing_is_ordered(entries, s.show_hidden);
}

/// Into a directory and out again: Enter on a directory of the listing goes
/// there and selects the parent pseudo-entry, and Enter on that leads back
/// to where the browser was.
pub proof fn lemma_enter_then_up(
    s: StateView,
    e: EntryView,
    inner: Seq<EntryView>,
    outer: Seq<EntryView>,
)
    requires
        takes_commands(s),
        is_tidy(s.path),
        selection(s) == Some(e),
        e.is_dir,
        is_plain_name(e.name),
    ensures
        ({
            let enter = plain_key(Key::Enter);
            let (s1, e1) = step_of(s, enter);
            let (s2, e2) = step_of(s1, EventView::Listed { entries: inner });
            let (s3, e3) = step_of(s2, enter);
            let (s4, e4) = step_of(s3, EventView::Listed { entries: outer });
            &&& e1 == (EffectView::ReadDirectory { path: joined(s.path, e.name) })
            &&& s2.path == joined(s.path, e.name)
            &&& s2.listing == listing_of(inner, s.show_hidden)
            &&& selection(s2) == Some(crate::listing::parent_entry())
            &&& e3 == (EffectView::ReadDirectory { path: s.path })
            &&& s4.path == s.path
            &&& s4.listing == listing_of(outer, s.show_hidden)
            &&& takes_commands(s4)
        }),
{
    lemma_parent_of_joined(s.path, e.name);
    assert(e.name != dot_dot());
}

/// Toggling the hidden entries twice shows what was shown before: with the
/// directory unchanged in between, the browser ends with the listing that
/// it would show had the key never been pressed, and with nothing else
/// changed.
pub proof fn lemma_toggle_twice(s: StateView, entries: Seq<EntryView>)
    requires
        takes_commands(s),
    ensures
        ({
            let toggle = char_key('H', true);
            let read = EventView::Listed { entries };
            let (s1, e1) = step_of(s, toggle);
            let (s2, e2) = step_of(s1, read);
            let (s3, e3) = step_of(s2, toggle);
            let (s4, e4) = step_of(s3, read);
            &&& e1 == (EffectView::ReadDirectory { path: s.path })
            &&& e3 == (EffectView::ReadDirectory { path: s.path })
            &&& e2 == EffectView::Wait
            &&& e4 == EffectView::Wait
            &&& s2.listing == listing_of(entries, !s.show_hidden)
            &&& s4 == (StateView { listing: listing_of(entries, s.show_hidden), selected: 0, ..s })
            &&& s.listing == listing_of(entries, s.show_hidden) && s.selected == 0 ==> s4 == s
        }),
{
}

/// Rename starts with the exact name of the selected entry in the line and
/// the cursor behind it. Enter on the unchanged name is a rename to the
/// same name: the browser is back where it was and the shell has nothing to
/// do.
pub proof fn lemma_rename_starts_with_name(s: StateView, e: EntryView, shift: bool)
    requires
        takes_commands(s),
        selection(s) == Some(e),
    ensures
        ({
            let (s1, e1) = step_of(s, char_key('r', shift));
            &&& e1 == EffectView::Wait
            &&& s1 == (StateView {
                mode: ModeView::TextEntry {
                    kind: InputKind::Rename,
                    buffer: e.name,
                    cursor: e.name.len() as int,
                },
                ..s
            })
            &&& step_of(s1, plain_key(Key::Enter)) == (s, EffectView::Wait)
        }),
{
}

/// Enter on a changed name asks for one rename, from the entry's path to
/// the typed name in the same directory, and the browser is back in normal
/// mode.
pub proof fn lemma_rename_commits(s: StateView, e: EntryView, buffer: Seq<char>, cursor: int)
    requires
        s.pending is Idle,
        s.error is None,
        s.mode == (ModeView::TextEntry { kind: InputKind::Rename, buffer, cursor }),
        selection(s) == Some(e),
        joined(s.path, buffer) != joined(s.path, e.name),
    ensures
        step_of(s, plain_key(Key::Enter)).1 == (EffectView::Apply {
            ops: seq![
                FsOpView::Rename { from: joined(s.path, e.name), to: joined(s.path, buffer) },
            ],
        }),
        step_of(s, plain_key(Key::Enter)).0.mode is Normal,
{
}

/// Escape throws the typed line away. The browser is back in normal mode
/// and nothing else has changed; the shell has nothing to do, except after
/// a filter, where it reads the directory again.
pub proof fn lemma_escape_cancels(s: StateView, kind: InputKind, buffer: Seq<char>, cursor: int)
    requires
        s.pending is Idle,
        s.error is None,
        s.mode == (ModeView::TextEntry { kind, buffer, cursor }),
    ensures
        ({
            let (s1, e1) = step_of(s, plain_key(Key::Esc));
            let normal = StateView { mode: ModeView::Normal, ..s };
            &&& kind != InputKind::Filter ==> s1 == normal && e1 == EffectView::Wait
            &&& kind == InputKind::Filter ==> s1 == (StateView {
                pending: PendingView::Refresh { filter: None },
                ..normal
            }) && e1 == (EffectView::ReadDirectory { path: s.path })
        }),
{
}

/// Enter on a filter keeps, of the directory as it is read anew, the
/// entries whose names contain the typed text, in their order, and selects
/// the first. Escape from a filter brings the whole listing back.
pub proof fn lemma_filter_and_restore(
    s: StateView,
    buffer: Seq<char>,
    cursor: int,
    entries: Seq<EntryView>,
)
    requires
        s.pending is Idle,
        s.error is None,
        s.mode == (ModeView::TextEntry { kind: InputKind::Filter, buffer, cursor }),
    ensures
        ({
            let read = EventView::Listed { entries };
            let (s1, e1) = step_of(s, plain_key(Key::Enter));
            let (s2, e2) = step_of(s1, read);
            let (c1, d1) = step_of(s, plain_key(Key::Esc));
            let (c2, d2) = step_of(c1, read);
            &&& e1 == (EffectView::ReadDirectory { path: s.path })
            &&& s2.listing == filtered(listing_of(entries, s.show_hidden), buffer)
            &&& s2.selected == 0
            &&& s2.mode is Normal
            &&& s2.pending is Idle
            &&& d1 == (EffectView::ReadDirectory { path: s.path })
            &&& c2.listing == listing_of(entries, s.show_hidden)
            &&& c2.mode is Normal
        }),
{
}

/// Nothing goes to the trash without confirmation: the only event that
/// asks the shell for it is the key `y` while the browser asks whether to
/// delete.
pub proof fn lemma_trash_needs_confirmation(s: StateView, event: EventView)
    requires
        step_of(s, event).1 matches EffectView::Apply { ops } && uses_trash(ops),
    ensures
        s.mode is ConfirmDelete,
        event matches EventView::Key(k) && k.key == Key::Char('y'),
{
    let dummy = Seq::<char>::empty();
    match event {
        EventView::Key(k) => {
            match s.mode {
                ModeView::TextEntry { kind, buffer, cursor } => {
                    match selection(StateView { mode: ModeView::Normal, ..s }) {
                        Some(e) => {
                            lemma_only_delete_uses_trash(
                                s.path,
                                e.name,
                                buffer,
                                dummy,
                                false,
                                Seq::empty(),
                                false,
                            );
                        },
                        None => {
                            lemma_only_delete_uses_trash(
                                s.path,
                                dummy,
                                buffer,
                                dummy,
                                false,
                                Seq::empty(),
                                false,
                            );
                        },
                    }
                },
                _ => {},
            }
        },
        EventView::Inspected { is_dir, children } => {
            match s.pending {
                PendingView::PasteInspect { to } => {
                    match s.clipboard {
                        Some(c) => {
                            lemma_only_delete_uses_trash(
                                c.path,
                                dummy,
                                dummy,
                                to,
                                is_dir,
                                children,
                                c.is_cut,
                            );
                        },
                        None => {},
                    }
                },
                _ => {},
            }
        },
        _ => {},
    }
}

/// Asking to delete deletes nothing. Whatever the listing holds and
/// whichever row is selected, if any, `d` and the delete key open the
/// question whether to delete and change nothing else; the shell has
/// nothing to do.
pub proof fn lemma_delete_asks_first(s: StateView, shift: bool)
    requires
        takes_commands(s),
    ensures
        step_of(s, char_key('d', shift)) == (
            StateView { mode: ModeView::ConfirmDelete, ..s },
            EffectView::Wait,
        ),
        step_of(s, plain_key(Key::Delete)) == step_of(s, char_key('d', shift)),
{
}

/// Without a selected row the confirmation of a delete, and of a new name
/// or path, changes nothing but the mode: the shell has nothing to do.
pub proof fn lemma_nothing_selected_nothing_done(s: StateView, kind: InputKind, buffer: Seq<char>)
    requires
        s.pending is Idle,
        s.error is None,
        selection(s) is None,
        kind == InputKind::Rename || kind == InputKind::Move,
    ensures
        s.mode is ConfirmDelete ==> step_of(s, char_key('y', false)) == (
            StateView { mode: ModeView::Normal, ..s },
            EffectView::Wait,
        ),
        s.mode == (ModeView::TextEntry { kind, buffer, cursor: buffer.len() as int })
            ==> step_of(s, plain_key(Key::Enter)) == (
            StateView { mode: ModeView::Normal, ..s },
            EffectView::Wait,
        ),
        takes_commands(s) ==> step_of(s, char_key('c', false)) == (s, EffectView::Wait)
            && step_of(s, char_key('x', false)) == (s, EffectView::Wait),
{
}

/// A typed address is looked at before the browser goes there. It is
/// dropped without a failure where it leads to nothing or to something
/// that is no directory. Where it leads to a directory the directory is
/// read, and a directory that cannot be read is a failure on display.
pub proof fn lemma_address_is_looked_at(
    s: StateView,
    buffer: Seq<char>,
    cursor: int,
    message: Seq<char>,
    children: Seq<EntryView>,
)
    requires
        s.pending is Idle,
        s.error is None,
        s.mode == (ModeView::TextEntry { kind: InputKind::AddressEdit, buffer, cursor }),
        normalized(buffer, s.home) is Ok,
    ensures
        ({
            let path = joined(s.path, normalized(buffer, s.home)->Ok_0);
            let normal = StateView { mode: ModeView::Normal, ..s };
            let (s1, e1) = step_of(s, plain_key(Key::Enter));
            let (gone, e2) = step_of(s1, EventView::Failed { message });
            let (other, e3) = step_of(s1, EventView::Inspected { is_dir: false, children });
            let (s4, e4) = step_of(s1, EventView::Inspected { is_dir: true, children });
            let (s5, e5) = step_of(s4, EventView::Failed { message });
            &&& e1 == (EffectView::Inspect { path, list_children: false })
            &&& gone == normal && e2 == EffectView::Wait
            &&& other == normal && e3 == EffectView::Wait
            &&& e4 == (EffectView::ReadDirectory { path })
            &&& s5 == (StateView {
                error: Some(FailureView { kind: FailureKind::IoFailure, message }),
                ..normal
            })
            &&& e5 == EffectView::Wait
        }),
{
}

/// While the browser asks whether to delete, `y` asks the shell to move
/// the selected entry to the trash, once; every other key calls the delete
/// off and changes nothing but the mode.
pub proof fn lemma_confirm_delete(s: StateView, e: EntryView, k: KeyPress)
    requires
        s.pending is Idle,
        s.error is None,
        s.mode is ConfirmDelete,
        selection(s) == Some(e),
        k.key != Key::Char('q'),
    ensures
        k.key == Key::Char('y') ==> step_of(s, EventView::Key(k)).1 == (EffectView::Apply {
            ops: seq![FsOpView::Trash { path: joined(s.path, e.name) }],
        }),
        k.key != Key::Char('y') ==> step_of(s, EventView::Key(k)) == (
            StateView { mode: ModeView::Normal, ..s },
            EffectView::Wait,
        ),
        step_of(s, EventView::Key(k)).0.mode is Normal,
{
}

/// Copy and cut put the path of the selected entry on the clipboard and
/// leave the file system alone.
pub proof fn lemma_copy_and_cut(s: StateView, e: EntryView, shift: bool)
    requires
        takes_commands(s),
        selection(s) == Some(e),
    ensures
        step_of(s, char_key('c', shift)) == (
            StateView {
                clipboard: Some(ClipboardView { path: joined(s.path, e.name), is_cut: false }),
                ..s
            },
            EffectView::Wait,
        ),
        step_of(s, char_key('x', shift)) == (
            StateView {
                clipboard: Some(ClipboardView { path: joined(s.path, e.name), is_cut: true }),
                ..s
            },
            EffectView::Wait,
        ),
{
}

/// The clipboard is emptied by one event only: the success of the file
/// operations of a paste after a cut. A failure never empties it.
pub proof fn lemma_clipboard_survives(s: StateView, event: EventView)
    requires
        s.clipboard is Some,
        step_of(s, event).0.clipboard is None,
    ensures
        event is Done,
        s.pending == (PendingView::Change { clears_clipboard: true }),
{
}

/// A failure changes nothing but the display of the failure and the end of
/// the wait: path, listing, selection, clipboard and history stay as they
/// were.
pub proof fn lemma_failure_keeps_state(s: StateView, message: Seq<char>)
    ensures
        ({
            let (t, effect) = step_of(s, EventView::Failed { message });
            &&& effect == EffectView::Wait
            &&& t == (StateView { error: t.error, pending: t.pending, ..s })
            &&& t.pending is Idle
            &&& s.pending is Idle ==> t == s
            &&& t.error != s.error ==> t.error == Some(
                FailureView { kind: FailureKind::IoFailure, message },
            )
        }),
{
}

/// While a failure is on display, Enter and Escape dismiss it and no key
/// does anything else: not even the key that quits.
pub proof fn lemma_error_blocks_keys(s: StateView, k: KeyPress)
    requires
        s.pending is Idle,
        s.error is Some,
    ensures
        step_of(s, EventView::Key(k)) == (
            if k.key == Key::Enter || k.key == Key::Esc {
                StateView { error: None, ..s }
            } else {
                s
            },
            EffectView::Wait,
        ),
{
}

/// Where no failure is on display and nothing is outstanding, `q` quits in
/// every mode.
pub proof fn lemma_quit_everywhere(s: StateView, shift: bool)
    requires
        s.pending is Idle,
        s.error is None,
    ensures
        step_of(s, char_key('q', shift)) == (s, EffectView::Quit),
{
}

/// While the browser waits for the outcome of an effect it takes no keys.
pub proof fn lemma_waiting_takes_no_keys(s: StateView, k: KeyPress)
    requires
        !(s.pending is Idle),
    ensures
        step_of(s, EventView::Key(k)) == (s, EffectView::Wait),
{
}

/// Enter on a row of the actions panel does what the key of that action
/// does from the file list, and the focus is back on the file list.
pub proof fn lemma_panel_acts_like_key(s: StateView, a: Action, k: KeyPress)
    requires
        takes_commands(s),
        shortcut_action(k) == Some(a),
    ensures
        step_of(
            StateView { focus: PanelFocus::Actions, selected_action: row_of(a), ..s },
            plain_key(Key::Enter),
        ) == ({
            let (t, effect) = step_of(s, EventView::Key(k));
            (StateView { selected_action: row_of(a), ..t }, effect)
        }),
{
    lemma_rows_and_actions(0, a);
    let on_panel = StateView { focus: PanelFocus::Actions, selected_action: row_of(a), ..s };
    let (t, effect) = perform(s, a);
    let (u, effect2) = perform(on_panel, a);
    assert(effect2 == effect);
    assert(StateView { focus: PanelFocus::Files, ..u } == StateView {
        selected_action: row_of(a),
        ..t
    });
}

/// A cut file that is pasted: the shell is asked to look at the source,
/// then to copy it under its own name into the current directory and to
/// remove it where it was, and once that has succeeded the clipboard is
/// empty and the directory is read again.
pub proof fn lemma_cut_and_paste_of_file(
    s: StateView,
    from_dir: Seq<char>,
    name: Seq<char>,
    children: Seq<EntryView>,
)
    requires
        takes_commands(s),
        is_plain_name(name),
        s.clipboard == Some(ClipboardView { path: joined(from_dir, name), is_cut: true }),
    ensures
        ({
            let (s1, e1) = step_of(s, char_key('p', false));
            let (s2, e2) = step_of(s1, EventView::Inspected { is_dir: false, children });
            let (s3, e3) = step_of(s2, EventView::Done);
            &&& e1 == (EffectView::Inspect { path: joined(from_dir, name), list_children: true })
            &&& e2 == (EffectView::Apply {
                ops: seq![
                    FsOpView::CopyFile { from: joined(from_dir, name), to: joined(s.path, name) },
                    FsOpView::RemoveFile { path: joined(from_dir, name) },
                ],
            })
            &&& s2.clipboard == s.clipboard
            &&& e3 == (EffectView::ReadDirectory { path: s.path })
            &&& s3.clipboard is None
        }),
{
    crate::fileops::lemma_paste_keeps_name(s.path, from_dir, name);
    crate::fileops::lemma_paste_of_file(joined(from_dir, name), joined(s.path, name), children);
}

/// A copied directory that is pasted: the shell is asked to create the
/// directory under its own name in the current directory and to bring its
/// direct children there, files by a copy and directories empty. No
/// directory is copied as a file and nothing below a child is named. Once
/// that has succeeded the directory is read again; the clipboard and the
/// source stay as they were.
pub proof fn lemma_copy_and_paste_of_directory(
    s: StateView,
    from_dir: Seq<char>,
    name: Seq<char>,
    children: Seq<EntryView>,
)
    requires
        takes_commands(s),
        is_plain_name(name),
        s.clipboard == Some(ClipboardView { path: joined(from_dir, name), is_cut: false }),
        forall|i: int| 0 <= i < children.len() ==> is_plain_name((#[trigger] children[i]).name),
    ensures
        ({
            let from = joined(from_dir, name);
            let to = joined(s.path, name);
            let (s1, e1) = step_of(s, char_key('p', false));
            let (s2, e2) = step_of(s1, EventView::Inspected { is_dir: true, children });
            let (s3, e3) = step_of(s2, EventView::Done);
            &&& e1 == (EffectView::Inspect { path: from, list_children: true })
            &&& e2 matches EffectView::Apply { ops }
            &&& ops.len() == children.len() + 1
            &&& ops[0] == (FsOpView::CreateDirAll { path: to })
            &&& forall|i: int|
                0 <= i < children.len() ==> #[trigger] ops[i + 1] == child_op(
                    from,
                    to,
                    children[i],
                ) && file_name_of(joined(to, children[i].name)) == Some(children[i].name)
                    && parent_of(joined(to, children[i].name)) == Some(to)
            &&& !removes_for_good(ops)
            &&& e3 == (EffectView::ReadDirectory { path: s.path })
            &&& s3.clipboard == s.clipboard
        }),
{
    let from = joined(from_dir, name);
    let to = joined(s.path, name);
    crate::fileops::lemma_paste_keeps_name(s.path, from_dir, name);
    lemma_joined_is_tidy(s.path, name);
    lemma_paste_of_directory_is_shallow(from, to, children, false);
    let ops = paste_plan_of(from, to, true, children, false);
    assert forall|i: int| 0 <= i < ops.len() implies !(#[trigger] ops[i] is RemoveFile
        || ops[i] is RemoveDirAll) by {
        crate::fileops::lemma_only_cut_removes(from, to, true, children, false, i);
    }
}

/// A paste asks for the operations of `paste_plan_of` and for no others,
/// whatever the source turns out to be.
pub proof fn lemma_paste_follows_plan(
    s: StateView,
    c: ClipboardView,
    to: Seq<char>,
    is_dir: bool,
    children: Seq<EntryView>,
)
    requires
        s.pending == (PendingView::PasteInspect { to }),
        s.clipboard == Some(c),
    ensures
        step_of(s, EventView::Inspected { is_dir, children }).1 == (EffectView::Apply {
            ops: paste_plan_of(c.path, to, is_dir, children, c.is_cut),
        }),
        step_of(s, EventView::Inspected { is_dir, children }).0.clipboard == s.clipboard,
{
}

} // verus!
