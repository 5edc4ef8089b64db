//! Messages, commands, and the two built-in messages that the dispatch loop
//! handles itself: quitting, and handing out a batch of commands.

use vstd::prelude::*;
use vstd::std_specs::iter::IteratorSpec;
use crate::event::{KeyEvent, MouseEvent, ResizeEvent};

verus! {

broadcast use {vstd::std_specs::vec::group_vec_axioms, vstd::std_specs::slice::axiom_spec_slice_iter};

/// The built-in message that ends the dispatch loop. It carries nothing.
#[derive(Debug, Clone, Copy, PartialEq, Eq, Structural)]
pub struct QuitMessage;

/// A unit of information delivered to the dispatch loop.
///
/// `Quit` and `Batch` are reserved for the loop and never reach the
/// application. Key, mouse and resize messages come from the terminal, and
/// `User` carries whatever the application defines for itself.
#[verifier::reject_recursive_types(M)]
pub enum Message<M> {
    Quit(QuitMessage),
    Batch(BatchMessage<M>),
    Key(KeyEvent),
    Mouse(MouseEvent),
    Resize(ResizeEvent),
    User(M),
}

impl<M> Message<M> {
    /// Whether the dispatch loop keeps this message for itself.
    pub open spec fn is_control(self) -> bool {
        self is Quit || self is Batch
    }
}

/// Work supplied by the application as a closure, to be run once, on a worker.
///
/// The closure is kept as a boxed `FnOnce() -> Option<Message<M>> + Send`,
/// a type that the verifier cannot look into, so a value of this type is
/// opaque: the library moves it around and never learns what it will yield.
#[verifier::external_body]
#[verifier::reject_recursive_types(M)]
pub struct Task<M> {
    work: Box<dyn FnOnce() -> Option<Message<M>> + Send + 'static>,
}

impl<M> Task<M> {
    /// Boxes `work` with `Box::new`. Nothing is claimed of the result.
    #[verifier::external_body]
    fn wrap<F>(work: F) -> Task<M> where F: FnOnce() -> Option<Message<M>> + Send + 'static
        requires
            call_requires(work, ()),
    {
        Task { work: Box::new(work) }
    }

    /// Calls the boxed closure through `FnOnce::call_once`. What it yields is
    /// up to the closure, so nothing is claimed of the result.
    #[verifier::external_body]
    fn call(self) -> Option<Message<M>> {
        (self.work)()
    }
}

/// A deferred unit of work that is run at most once and yields at most one
/// message.
#[verifier::reject_recursive_types(M)]
pub enum Command<M> {
    /// Work of the application's own, of which nothing is known until it has run.
    Deferred(Task<M>),
    /// A message that is already at hand: running the command yields it.
    Ready(Message<M>),
}

impl<M> Command<M> {
    /// What running this command yields, where that is known beforehand.
    pub open spec fn known_result(self) -> Option<Message<M>> {
        match self {
            Command::Deferred(_) => None,
            Command::Ready(msg) => Some(msg),
        }
    }

    /// A command that runs `work` when it is executed.
    pub fn new<F>(work: F) -> (cmd: Self) where F: FnOnce() -> Option<Message<M>> + Send + 'static
        requires
            call_requires(work, ()),
        ensures
            cmd is Deferred,
    {
        Command::Deferred(Task::wrap(work))
    }

    /// A command that yields `msg`.
    pub fn ready(msg: Message<M>) -> (cmd: Self)
        ensures
            cmd == Command::Ready(msg),
    {
        Command::Ready(msg)
    }

    /// Runs the command to completion, consuming it. A ready command yields
    /// its message; deferred work yields whatever it decides.
    pub fn run(self) -> (result: Option<Message<M>>)
        ensures
            self is Ready ==> result == self.known_result(),
    {
        match self {
            Command::Deferred(task) => task.call(),
            Command::Ready(msg) => Some(msg),
        }
    }
}

/// The message that asks the dispatch loop to stop.
pub fn quit<M>() -> (msg: Option<Message<M>>)
    ensures
        msg == Some(Message::<M>::Quit(QuitMessage)),
{
    Some(Message::Quit(QuitMessage))
}

/// The built-in message that holds an ordered list of commands, each of which
/// the dispatch loop hands to the command bus on its own.
#[verifier::reject_recursive_types(M)]
pub struct BatchMessage<M>(Vec<Command<M>>);

impl<M> View for BatchMessage<M> {
    type V = Seq<Command<M>>;

    closed spec fn view(&self) -> Seq<Command<M>> {
        self.0@
    }
}

impl<M> BatchMessage<M> {
    /// A batch of `commands`, in their order.
    pub fn new(commands: Vec<Command<M>>) -> (batch: Self)
        ensures
            batch@ == commands@,
    {
        BatchMessage(commands)
    }

    /// The number of commands in the batch.
    pub fn len(&self) -> (n: usize)
        ensures
            n == self@.len(),
    {
        self.0.len()
    }

    /// Whether the batch holds no command.
    pub fn is_empty(&self) -> (empty: bool)
        ensures
            empty == (self@.len() == 0),
    {
        self.0.len() == 0
    }

    /// The commands of the batch, in their order.
    pub fn commands(&self) -> (cmds: &[Command<M>])
        ensures
            cmds@ == self@,
    {
        self.0.as_slice()
    }

    /// An iterator over the commands of the batch, in their order.
    pub fn iter(&self) -> (iter: std::slice::Iter<'_, Command<M>>)
        ensures
            IteratorSpec::remaining(&iter) == self@.as_ref(),
    {
        self.0.as_slice().iter()
    }

    /// The commands of the batch, handed over in their order.
    pub fn into_commands(self) -> (cmds: Vec<Command<M>>)
        ensures
            cmds@ == self@,
    {
        self.0
    }
}

impl<M> IntoIterator for BatchMessage<M> {
    type Item = Command<M>;

    type IntoIter = std::vec::IntoIter<Command<M>>;

    /// An iterator that hands out the commands of the batch in their order.
    fn into_iter(self) -> (iter: Self::IntoIter)
        ensures
            IteratorSpec::remaining(&iter) == self@,
    {
        self.0.into_iter()
    }
}

/// A command that yields the batch of `cmds`: once the dispatch loop receives
/// that message, each of them is executed on its own.
pub fn batch<M>(cmds: Vec<Command<M>>) -> (cmd: Command<M>)
    ensures
        cmd.known_result() matches Some(Message::Batch(b)) && b@ == cmds@,
{
    Command::Ready(Message::Batch(BatchMessage::new(cmds)))
}

} // verus!
