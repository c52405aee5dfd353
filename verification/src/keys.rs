//! Keys, panels, input kinds and the actions of the actions panel.

use vstd::prelude::*;

verus! {

/// A key, as far as the browser tells keys apart.
#[derive(Debug, Clone, Copy, PartialEq, Eq, Structural)]
pub enum Key {
    Char(char),
    Enter,
    Esc,
    Backspace,
    Delete,
    Up,
    Down,
    Left,
    Right,
    /// Any key that the browser has no use for.
    Other,
}

/// One key press.
#[derive(Debug, Clone, Copy, PartialEq, Eq, Structural)]
pub struct KeyPress {
    pub key: Key,
    /// Whether the shift key was held.
    pub shift: bool,
}

/// The panel that the selection keys act on.
#[derive(Debug, Clone, Copy, PartialEq, Eq, Structural)]
pub enum PanelFocus {
    Files,
    Actions,
}

/// What a line of typed text is for.
#[derive(Debug, Clone, Copy, PartialEq, Eq, Structural)]
pub enum InputKind {
    /// The path of a directory to go to.
    AddressEdit,
    /// The name of a file to create, or of a directory where it ends with a
    /// separator.
    Create,
    /// The new name of the selected entry.
    Rename,
    /// A text that the names in the listing have to contain.
    Filter,
    /// The path of a directory to create.
    CreateDirectory,
    /// The new path of the selected entry.
    Move,
}

/// An action of the actions panel. Each has a key that performs it from the
/// file list as well.
#[derive(Debug, Clone, Copy, PartialEq, Eq, Structural)]
pub enum Action {
    Cut,
    Copy,
    Paste,
    Delete,
    Rename,
    Create,
    CreateDirectory,
    Move,
    Open,
    ToggleHidden,
}

/// The number of actions in the panel.
pub const ACTION_COUNT: usize = 10;

/// The action in row `i` of the panel.
pub open spec fn action_at(i: int) -> Option<Action> {
    if i == 0 {
        Some(Action::Cut)
    } else if i == 1 {
        Some(Action::Copy)
    } else if i == 2 {
        Some(Action::Paste)
    } else if i == 3 {
        Some(Action::Delete)
    } else if i == 4 {
        Some(Action::Rename)
    } else if i == 5 {
        Some(Action::Create)
    } else if i == 6 {
        Some(Action::CreateDirectory)
    } else if i == 7 {
        Some(Action::Move)
    } else if i == 8 {
        Some(Action::Open)
    } else if i == 9 {
        Some(Action::ToggleHidden)
    } else {
        None
    }
}

/// The row of an action in the panel.
pub open spec fn row_of(a: Action) -> int {
    match a {
        Action::Cut => 0,
        Action::Copy => 1,
        Action::Paste => 2,
        Action::Delete => 3,
        Action::Rename => 4,
        Action::Create => 5,
        Action::CreateDirectory => 6,
        Action::Move => 7,
        Action::Open => 8,
        Action::ToggleHidden => 9,
    }
}

/// The action that a key performs from the file list, if it performs one.
/// Hidden entries are toggled by `H` together with the shift key.
pub open spec fn shortcut_action(k: KeyPress) -> Option<Action> {
    match k.key {
        Key::Char('x') => Some(Action::Cut),
        Key::Char('c') => Some(Action::Copy),
        Key::Char('p') => Some(Action::Paste),
        Key::Char('d') | Key::Delete => Some(Action::Delete),
        Key::Char('r') => Some(Action::Rename),
        Key::Char('n') => Some(Action::Create),
        Key::Char('+') => Some(Action::CreateDirectory),
        Key::Char('m') => Some(Action::Move),
        Key::Char('o') => Some(Action::Open),
        Key::Char('H') => if k.shift {
            Some(Action::ToggleHidden)
        } else {
            None
        },
        _ => None,
    }
}

/// The name of an action in the panel.
pub open spec fn label_of(a: Action) -> Seq<char> {
    match a {
        Action::Cut => "Cut"@,
        Action::Copy => "Copy"@,
        Action::Paste => "Paste"@,
        Action::Delete => "Delete"@,
        Action::Rename => "Rename"@,
        Action::Create => "Create"@,
        Action::CreateDirectory => "Create Directory"@,
        Action::Move => "Move"@,
        Action::Open => "Open"@,
        Action::ToggleHidden => "Toggle Hidden"@,
    }
}

/// The key of an action as the panel shows it.
pub open spec fn shortcut_label_of(a: Action) -> Seq<char> {
    match a {
        Action::Cut => "X"@,
        Action::Copy => "C"@,
        Action::Paste => "P"@,
        Action::Delete => "D"@,
        Action::Rename => "R"@,
        Action::Create => "N"@,
        Action::CreateDirectory => "+"@,
        Action::Move => "M"@,
        Action::Open => "O"@,
        Action::ToggleHidden => "Shift+H"@,
    }
}

/// The title of the line in which a text of this kind is typed.
pub open spec fn title_of(kind: InputKind) -> Seq<char> {
    match kind {
        InputKind::AddressEdit => "Address"@,
        InputKind::Create => "Create New"@,
        InputKind::Rename => "Rename"@,
        InputKind::Filter => "Filter"@,
        InputKind::CreateDirectory => "Create Directory"@,
        InputKind::Move => "Move"@,
    }
}

/// Every row of the panel holds an action, and that action is in that row.
pub proof fn lemma_rows_and_actions(i: int, a: Action)
    ensures
        0 <= row_of(a) < ACTION_COUNT,
        action_at(row_of(a)) == Some(a),
        0 <= i < ACTION_COUNT ==> action_at(i) is Some && row_of(action_at(i).unwrap()) == i,
        !(0 <= i < ACTION_COUNT) ==> action_at(i) is None,
{
}

impl KeyPress {
    /// A key pressed without the shift key.
    pub fn plain(key: Key) -> (k: KeyPress)
        ensures
            k == (KeyPress { key, shift: false }),
    {
        KeyPress { key, shift: false }
    }

    /// The action that this key performs from the file list, if any.
    pub fn shortcut(&self) -> (r: Option<Action>)
        ensures
            r == shortcut_action(*self),
    {
        match self.key {
            Key::Char('x') => Some(Action::Cut),
            Key::Char('c') => Some(Action::Copy),
            Key::Char('p') => Some(Action::Paste),
            Key::Char('d') | Key::Delete => Some(Action::Delete),
            Key::Char('r') => Some(Action::Rename),
            Key::Char('n') => Some(Action::Create),
            Key::Char('+') => Some(Action::CreateDirectory),
            Key::Char('m') => Some(Action::Move),
            Key::Char('o') => Some(Action::Open),
            Key::Char('H') => if self.shift {
                Some(Action::ToggleHidden)
            } else {
                None
            },
            _ => None,
        }
    }
}

impl InputKind {
    /// The title of the line in which a text of this kind is typed.
    pub fn title(self) -> (r: &'static str)
        ensures
            r@ == title_of(self),
    {
        match self {
            InputKind::AddressEdit => "Address",
            InputKind::Create => "Create New",
            InputKind::Rename => "Rename",
            InputKind::Filter => "Filter",
            InputKind::CreateDirectory => "Create Directory",
            InputKind::Move => "Move",
        }
    }
}

impl Action {
    /// The action in row `i` of the panel, if there is such a row.
    pub fn at(i: usize) -> (r: Option<Action>)
        ensures
            r == action_at(i as int),
    {
        if i == 0 {
            Some(Action::Cut)
        } else if i == 1 {
            Some(Action::Copy)
        } else if i == 2 {
            Some(Action::Paste)
        } else if i == 3 {
            Some(Action::Delete)
        } else if i == 4 {
            Some(Action::Rename)
        } else if i == 5 {
            Some(Action::Create)
        } else if i == 6 {
            Some(Action::CreateDirectory)
        } else if i == 7 {
            Some(Action::Move)
        } else if i == 8 {
            Some(Action::Open)
        } else if i == 9 {
            Some(Action::ToggleHidden)
        } else {
            None
        }
    }

    /// The row of the action in the panel.
    pub fn row(self) -> (i: usize)
        ensures
            i == row_of(self),
    {
        match self {
            Action::Cut => 0,
            Action::Copy => 1,
            Action::Paste => 2,
            Action::Delete => 3,
            Action::Rename => 4,
            Action::Create => 5,
            Action::CreateDirectory => 6,
            Action::Move => 7,
            Action::Open => 8,
            Action::ToggleHidden => 9,
        }
    }

    /// The name of the action in the panel.
    pub fn label(self) -> (r: &'static str)
        ensures
            r@ == label_of(self),
    {
        match self {
            Action::Cut => "Cut",
            Action::Copy => "Copy",
            Action::Paste => "Paste",
            Action::Delete => "Delete",
            Action::Rename => "Rename",
            Action::Create => "Create",
            Action::CreateDirectory => "Create Directory",
            Action::Move => "Move",
            Action::Open => "Open",
            Action::ToggleHidden => "Toggle Hidden",
        }
    }

    /// The key of the action as the panel shows it.
    pub fn shortcut_label(self) -> (r: &'static str)
        ensures
            r@ == shortcut_label_of(self),
    {
        match self {
            Action::Cut => "X",
            Action::Copy => "C",
            Action::Paste => "P",
            Action::Delete => "D",
            Action::Rename => "R",
            Action::Create => "N",
            Action::CreateDirectory => "+",
            Action::Move => "M",
            Action::Open => "O",
            Action::ToggleHidden => "Shift+H",
        }
    }
}

} // verus!
