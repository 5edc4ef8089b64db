//! A small runtime for terminal applications built on a state, update, view
//! cycle: messages change the application's state, and after each change the
//! view is rendered and the previous frame replaced.
//!
//! This library holds the rules of that cycle: the messages and commands, the
//! dispatch loop as a state machine, what a worker forwards for a command, and
//! the renderer that turns a view into a frame and says how much of the old
//! frame to erase. Reading the terminal, writing to it and running commands on
//! threads is left to the caller, who performs what each step asks for.

pub mod command;
pub mod component;
pub mod error;
pub mod event;
pub mod executor;
pub mod program;
pub mod render;
pub mod string_specs;
pub mod utils;
pub mod view_helper;

pub use command::{batch, quit, BatchMessage, Command, Message, QuitMessage, Task};
pub use error::Error;
pub use event::{
    KeyCode, KeyEvent, KeyModifiers, MouseButton, MouseEvent, MouseEventKind, ResizeEvent,
};
pub use program::{normalized_view, App, LoopState, Program, Startup, Step, TerminalOp};
