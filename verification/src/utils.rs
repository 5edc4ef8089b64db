//! Small helpers for writing `update` functions.

use vstd::prelude::*;
use crate::command::{Command, Message, QuitMessage};
use crate::event::{KeyCode, KeyEvent, MODIFIER_CONTROL};

verus! {

/// Whether `input` is the letter `c` pressed with the control key and no
/// other modifier.
pub open spec fn ctrl_c(input: KeyEvent) -> bool {
    input.modifiers.bits == MODIFIER_CONTROL && input.code == KeyCode::Char('c')
}

/// Whether `input` is a key message that holds Ctrl+C.
pub open spec fn ctrl_c_msg<M>(input: Message<M>) -> bool {
    input matches Message::Key(key) && ctrl_c(key)
}

/// Wraps a value of the application's own as the result of a command.
pub fn some_box<M>(input: M) -> (result: Option<Message<M>>)
    ensures
        result == Some(Message::User(input)),
{
    Some(Message::User(input))
}

/// The result of a command that has nothing to report.
pub fn none_box<M>() -> (result: Option<Message<M>>)
    ensures
        result is None,
{
    None
}

/// Tells whether a key press is Ctrl+C.
pub fn is_ctrl_c(input: &KeyEvent) -> (b: bool)
    ensures
        b == ctrl_c(*input),
{
    if input.modifiers.bits != MODIFIER_CONTROL {
        return false;
    }
    match input.code {
        KeyCode::Char(c) => c == 'c',
        _ => false,
    }
}

/// Tells whether a message is a key press of Ctrl+C.
pub fn is_ctrl_c_msg<M>(input: &Message<M>) -> (b: bool)
    ensures
        b == ctrl_c_msg(*input),
{
    match input {
        Message::Key(key_event) => is_ctrl_c(key_event),
        _ => false,
    }
}

/// The command to return from `update` when the application should quit on
/// Ctrl+C: a command that yields the quit message if `msg` is Ctrl+C, and
/// nothing otherwise.
pub fn quit_if_ctrl_c<M>(msg: &Message<M>) -> (cmd: Option<Command<M>>)
    ensures
        ctrl_c_msg(*msg) ==> cmd == Some(Command::Ready(Message::<M>::Quit(QuitMessage))),
        !ctrl_c_msg(*msg) ==> cmd is None,
{
    if is_ctrl_c_msg(msg) {
        Some(Command::ready(Message::Quit(QuitMessage)))
    } else {
        None
    }
}

} // verus!
