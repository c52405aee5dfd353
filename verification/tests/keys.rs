use browser_core::keys::{Action, InputKind, Key, KeyPress, ACTION_COUNT};

fn press(c: char) -> KeyPress {
    KeyPress::plain(Key::Char(c))
}

#[test]
fn the_panel_has_ten_actions_in_order() {
    assert_eq!(ACTION_COUNT, 10);
    let expected = [
        (Action::Cut, "Cut", "X"),
        (Action::Copy, "Copy", "C"),
        (Action::Paste, "Paste", "P"),
        (Action::Delete, "Delete", "D"),
        (Action::Rename, "Rename", "R"),
        (Action::Create, "Create", "N"),
        (Action::CreateDirectory, "Create Directory", "+"),
        (Action::Move, "Move", "M"),
        (Action::Open, "Open", "O"),
        (Action::ToggleHidden, "Toggle Hidden", "Shift+H"),
    ];
    for (i, (action, label, shortcut)) in expected.iter().enumerate() {
        assert_eq!(Action::at(i), Some(*action));
        assert_eq!(action.row(), i);
        assert_eq!(action.label(), *label);
        assert_eq!(action.shortcut_label(), *shortcut);
    }
    assert_eq!(Action::at(10), None);
    assert_eq!(Action::at(usize::MAX), None);
}

#[test]
fn keys_that_perform_actions() {
    assert_eq!(press('x').shortcut(), Some(Action::Cut));
    assert_eq!(press('c').shortcut(), Some(Action::Copy));
    assert_eq!(press('p').shortcut(), Some(Action::Paste));
    assert_eq!(press('d').shortcut(), Some(Action::Delete));
    assert_eq!(KeyPress::plain(Key::Delete).shortcut(), Some(Action::Delete));
    assert_eq!(press('r').shortcut(), Some(Action::Rename));
    assert_eq!(press('n').shortcut(), Some(Action::Create));
    assert_eq!(press('+').shortcut(), Some(Action::CreateDirectory));
    assert_eq!(press('m').shortcut(), Some(Action::Move));
    assert_eq!(press('o').shortcut(), Some(Action::Open));
    assert_eq!(KeyPress { key: Key::Char('H'), shift: true }.shortcut(), Some(Action::ToggleHidden));
}

#[test]
fn keys_that_perform_no_action() {
    assert_eq!(press('H').shortcut(), None);
    assert_eq!(KeyPress { key: Key::Char('h'), shift: true }.shortcut(), None);
    assert_eq!(press('j').shortcut(), None);
    assert_eq!(press('X').shortcut(), None);
    assert_eq!(KeyPress::plain(Key::Enter).shortcut(), None);
    assert_eq!(KeyPress::plain(Key::Other).shortcut(), None);
}

#[test]
fn titles_of_the_input_lines() {
    assert_eq!(InputKind::AddressEdit.title(), "Address");
    assert_eq!(InputKind::Create.title(), "Create New");
    assert_eq!(InputKind::Rename.title(), "Rename");
    assert_eq!(InputKind::Filter.title(), "Filter");
    assert_eq!(InputKind::CreateDirectory.title(), "Create Directory");
    assert_eq!(InputKind::Move.title(), "Move");
}
