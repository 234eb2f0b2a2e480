//! Key-event dispatch: routes one input event to the focus controller or to
//! the active panel's handler and says whether the application should keep
//! running.
//!
//! The event pump delivers plain values of these types; the decision of what
//! each event does to the state lives here, fully specified, while the
//! terminal I/O around it stays outside the library.

use vstd::prelude::*;
use crate::focus::{Board, BoardState};
use crate::menu::{MenuState, MenuView};

verus! {

/// A key the dispatch distinguishes; every other key is `Other` and is
/// silently ignored.
#[derive(Clone, Copy, Debug, PartialEq, Eq, Structural)]
pub enum Key {
    Up,
    Down,
    Char(char),
    Other,
}

/// The modifier state of a key press: no modifier, exactly the control
/// modifier, or any other combination.
#[derive(Clone, Copy, Debug, PartialEq, Eq, Structural)]
pub enum Mods {
    Plain,
    Ctrl,
    Other,
}

/// One event from the input pump: a key press, or a tick emitted when the
/// polling window elapsed with no key available.
#[derive(Clone, Copy, Debug, PartialEq, Eq, Structural)]
pub enum InputEvent {
    Input(Key, Mods),
    Tick,
}

/// What the event loop should do after handling an event.
#[derive(Clone, Copy, Debug, PartialEq, Eq, Structural)]
pub enum Control {
    Continue,
    Quit,
}

/// The quit command: the control-modified quit character.
pub open spec fn is_quit(ev: InputEvent) -> bool {
    ev == InputEvent::Input(Key::Char('q'), Mods::Ctrl)
}

/// A downward navigation key: the down arrow or its unmodified letter
/// alias.
pub open spec fn is_down(ev: InputEvent) -> bool {
    ev == InputEvent::Input(Key::Down, Mods::Plain) || ev == InputEvent::Input(
        Key::Char('j'),
        Mods::Plain,
    )
}

/// An upward navigation key: the up arrow or its unmodified letter alias.
pub open spec fn is_up(ev: InputEvent) -> bool {
    ev == InputEvent::Input(Key::Up, Mods::Plain) || ev == InputEvent::Input(
        Key::Char('k'),
        Mods::Plain,
    )
}

/// The panel a focus command selects, if the event is one: one unmodified
/// character per panel.
pub open spec fn focus_request(ev: InputEvent) -> Option<Board> {
    if ev == InputEvent::Input(Key::Char('u'), Mods::Plain) {
        Some(Board::Main)
    } else if ev == InputEvent::Input(Key::Char('i'), Mods::Plain) {
        Some(Board::MenuInfo)
    } else if ev == InputEvent::Input(Key::Char('o'), Mods::Plain) {
        Some(Board::MenuSelect)
    } else {
        None
    }
}

/// What a downward navigation key does to the menu, given the active
/// panel: the list panel advances the selection, the detail panel scrolls
/// the selected item's text down, the diagram panel does nothing.
pub open spec fn down_effect(b: Board, m: MenuView) -> MenuView {
    match b {
        Board::MenuSelect => m.step_next(),
        Board::MenuInfo => m.step_scroll_down(m.selected.unwrap()),
        Board::Main => m,
    }
}

/// What an upward navigation key does to the menu, given the active panel.
pub open spec fn up_effect(b: Board, m: MenuView) -> MenuView {
    match b {
        Board::MenuSelect => m.step_previous(),
        Board::MenuInfo => m.step_scroll_up(m.selected.unwrap()),
        Board::Main => m,
    }
}

/// Handles one event against the focus controller and the menu, and
/// returns whether the loop goes on. The menu must be populated: the
/// detail panel scrolls at the selected index, so a live selection is a
/// precondition of dispatch. Focus commands never touch the menu;
/// navigation keys never touch the focus; the quit command and
/// unrecognized events touch neither.
pub fn handle_event(board: &mut BoardState, menu: &mut MenuState, ev: InputEvent) -> (c: Control)
    requires
        old(menu)@.wf(),
        old(menu)@.selected is Some,
    ensures
        final(menu)@.wf(),
        final(menu)@.selected is Some,
        c == (if is_quit(ev) {
            Control::Quit
        } else {
            Control::Continue
        }),
        is_quit(ev) ==> *final(board) == *old(board) && final(menu)@ == old(menu)@,
        is_down(ev) ==> *final(board) == *old(board) && final(menu)@ == down_effect(
            old(board).current_board,
            old(menu)@,
        ),
        is_up(ev) ==> *final(board) == *old(board) && final(menu)@ == up_effect(
            old(board).current_board,
            old(menu)@,
        ),
        focus_request(ev) is Some ==> final(board).current_board == focus_request(ev).unwrap()
            && final(menu)@ == old(menu)@,
        !is_quit(ev) && !is_down(ev) && !is_up(ev) && focus_request(ev) is None ==> *final(board)
            == *old(board) && final(menu)@ == old(menu)@,
{
    match ev {
        InputEvent::Input(Key::Char('q'), Mods::Ctrl) => Control::Quit,
        InputEvent::Input(Key::Down, Mods::Plain) | InputEvent::Input(
            Key::Char('j'),
            Mods::Plain,
        ) => {
            match board.current_board {
                Board::MenuSelect => menu.next(),
                Board::MenuInfo => {
                    let idx = menu.selected.unwrap();
                    menu.scroll_down(idx);
                },
                Board::Main => {},
            }
            Control::Continue
        },
        InputEvent::Input(Key::Up, Mods::Plain) | InputEvent::Input(
            Key::Char('k'),
            Mods::Plain,
        ) => {
            match board.current_board {
                Board::MenuSelect => menu.previous(),
                Board::MenuInfo => {
                    let idx = menu.selected.unwrap();
                    menu.scroll_up(idx);
                },
                Board::Main => {},
            }
            Control::Continue
        },
        InputEvent::Input(Key::Char('u'), Mods::Plain) => {
            board.select_board(Board::Main);
            Control::Continue
        },
        InputEvent::Input(Key::Char('i'), Mods::Plain) => {
            board.select_board(Board::MenuInfo);
            Control::Continue
        },
        InputEvent::Input(Key::Char('o'), Mods::Plain) => {
            board.select_board(Board::MenuSelect);
            Control::Continue
        },
        _ => Control::Continue,
    }
}

} // verus!
