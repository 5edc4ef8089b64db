//! The dispatch loop as a state machine: the application, the state of the
//! loop and the frame on screen, and for each incoming message the next state
//! and what the caller has to do for it.

use vstd::prelude::*;
use crate::command::{BatchMessage, Command, Message, QuitMessage};
use crate::error::Error;
use crate::executor::forwarded;
use crate::render::{normalize, normalize_text, terminated_lines, Frame, Renderer, Repaint};

verus! {

/// An application that the dispatch loop can run.
///
/// The four spec functions say what the application's operations do; each
/// implementation states them for itself and is held to them. The dispatch
/// loop is the only caller of `update`, and the state changes nowhere else.
pub trait App: Sized {
    /// The messages that the application defines for itself.
    type Msg;

    /// The text that the application shows in this state. Where an
    /// implementation does not state it, nothing is known of it.
    open spec fn view_spec(&self) -> Seq<char> {
        arbitrary()
    }

    /// Whether `cmd` is a command that `init` may return in this state; `init`
    /// may always return none. Where an implementation does not state it,
    /// `init` may return any command.
    open spec fn init_spec(&self, cmd: Option<Command<Self::Msg>>) -> bool {
        true
    }

    /// Whether `update` may go from this state to `next` on `msg`, returning
    /// `cmd`. Where an implementation does not state it, `update` may do
    /// anything.
    open spec fn update_spec(
        &self,
        msg: Message<Self::Msg>,
        next: Self,
        cmd: Option<Command<Self::Msg>>,
    ) -> bool {
        true
    }

    /// Whether `uninit` may go from this state to `next`; `uninit` may always
    /// leave the state as it is. Where an implementation does not state it,
    /// `uninit` may do anything.
    open spec fn uninit_spec(&self, next: Self) -> bool {
        true
    }

    /// Called once, before the first frame; may return a command to run.
    /// Unless an implementation says otherwise, it returns none.
    fn init(&self) -> (cmd: Option<Command<Self::Msg>>)
        ensures
            cmd is Some ==> self.init_spec(cmd),
    {
        None
    }

    /// Called once for each message that is neither of the built-in ones;
    /// changes the state, and may return a command to run.
    fn update(&mut self, msg: Message<Self::Msg>) -> (cmd: Option<Command<Self::Msg>>)
        requires
            !msg.is_control(),
        ensures
            old(self).update_spec(msg, *final(self), cmd),
    ;

    /// The text to show for the current state. The same state gives the same
    /// text, whenever and however often it is asked for.
    fn view(&self) -> (text: String)
        ensures
            text@ == self.view_spec(),
    ;

    /// Called once, when the loop has ended. Unless an implementation says
    /// otherwise, it does nothing.
    fn uninit(&mut self)
        ensures
            *final(self) == *old(self) || old(self).uninit_spec(*final(self)),
    {
    }
}

/// The frame to print for the application's current state.
pub fn normalized_view<A: App>(app: &A) -> (frame: String)
    ensures
        frame@ == normalize(app.view_spec()),
{
    let view = app.view();
    normalize_text(view.as_str())
}

/// One thing to ask of the terminal driver when the loop starts or ends.
#[derive(Debug, Clone, Copy, PartialEq, Eq, Structural)]
pub enum TerminalOp {
    EnterRawMode,
    HideCursor,
    EnableMouseCapture,
    DisableMouseCapture,
    ShowCursor,
    LeaveRawMode,
}

/// What is asked of the terminal before the first frame, in this order.
pub open spec fn startup_ops() -> Seq<TerminalOp> {
    seq![TerminalOp::EnterRawMode, TerminalOp::HideCursor, TerminalOp::EnableMouseCapture]
}

/// What is asked of the terminal once the loop has ended, in this order.
pub open spec fn shutdown_ops() -> Seq<TerminalOp> {
    seq![TerminalOp::DisableMouseCapture, TerminalOp::ShowCursor, TerminalOp::LeaveRawMode]
}

/// The terminal operations to perform before the loop starts.
pub fn startup_sequence() -> (ops: Vec<TerminalOp>)
    ensures
        ops@ == startup_ops(),
{
    let mut ops = Vec::new();
    ops.push(TerminalOp::EnterRawMode);
    ops.push(TerminalOp::HideCursor);
    ops.push(TerminalOp::EnableMouseCapture);
    ops
}

/// The terminal operations to perform after the loop has ended.
pub fn shutdown_sequence() -> (ops: Vec<TerminalOp>)
    ensures
        ops@ == shutdown_ops(),
{
    let mut ops = Vec::new();
    ops.push(TerminalOp::DisableMouseCapture);
    ops.push(TerminalOp::ShowCursor);
    ops.push(TerminalOp::LeaveRawMode);
    ops
}

/// What a teardown reports. Every operation of the teardown is attempted,
/// also after one of them has failed; `outcomes` holds how each ended, in
/// their order, and the report is the first failure among them, or success
/// where there is none.
pub fn teardown_outcome(outcomes: Vec<Result<(), Error>>) -> (r: Result<(), Error>)
    ensures
        (forall|i: int| 0 <= i < outcomes@.len() ==> outcomes@[i] is Ok) ==> r is Ok,
        forall|i: int|
            0 <= i < outcomes@.len() && outcomes@[i] is Err && (forall|j: int|
                0 <= j < i ==> outcomes@[j] is Ok) ==> r == outcomes@[i],
{
    let mut first: Result<(), Error> = Ok(());
    for outcome in it: outcomes
        invariant
            it.seq() == outcomes@,
            first is Ok ==> forall|j: int| 0 <= j < it.index() ==> outcomes@[j] is Ok,
            first is Err ==> exists|i: int|
                0 <= i < it.index() && first == outcomes@[i] && (forall|j: int|
                    0 <= j < i ==> outcomes@[j] is Ok),
    {
        match first {
            Ok(_) => {
                first = outcome;
            },
            Err(_) => {},
        }
    }
    first
}

/// The commands to push onto the command bus for what `init` or `update`
/// returned: the command, if there is one.
pub open spec fn submitted<M>(cmd: Option<Command<M>>) -> Seq<Command<M>> {
    match cmd {
        Some(c) => seq![c],
        None => Seq::empty(),
    }
}

/// The commands to push onto the command bus for what `init` or `update`
/// returned.
pub fn submit<M>(cmd: Option<Command<M>>) -> (commands: Vec<Command<M>>)
    ensures
        commands@ == submitted(cmd),
{
    let mut commands = Vec::new();
    if let Some(c) = cmd {
        commands.push(c);
    }
    commands
}

/// The state of the dispatch loop. `Terminated` is final.
#[derive(Debug, Clone, Copy, PartialEq, Eq, Structural)]
pub enum LoopState {
    Running,
    Terminated,
}

/// What the caller has to do after a transition of the loop.
#[verifier::reject_recursive_types(M)]
pub enum Step<M> {
    /// The loop goes on: push each of `commands` onto the command bus, in
    /// this order, then repaint.
    Continue { commands: Vec<Command<M>>, repaint: Repaint },
    /// The loop has ended with this transition, in which the application's
    /// `uninit` was called: perform `teardown` on the terminal and return.
    Halt { teardown: Vec<TerminalOp> },
    /// The loop had ended before: there is nothing to do.
    Idle,
}

/// An application whose run is about to begin: the operations that set up
/// the terminal have been handed out, and `init` has not run yet.
pub struct Startup<A: App> {
    app: A,
}

impl<A: App> Startup<A> {
    /// The application, as it was handed in.
    pub closed spec fn app(&self) -> A {
        self.app
    }
}

/// An application together with the state of its dispatch loop and the frame
/// that is on screen.
pub struct Program<A: App> {
    app: A,
    state: LoopState,
    renderer: Renderer,
}

impl<A: App> Program<A> {
    /// The application in its current state.
    pub closed spec fn app(&self) -> A {
        self.app
    }

    /// The state of the loop.
    pub closed spec fn state(&self) -> LoopState {
        self.state
    }

    /// The text of the frame that is on screen.
    pub closed spec fn screen(&self) -> Seq<char> {
        self.renderer@
    }

    /// Whether `repaint` replaces the frame of `self` by the frame for the
    /// view of `next`, which is then on screen.
    pub open spec fn repaints(self, next: Self, repaint: Repaint) -> bool {
        &&& repaint.erase == terminated_lines(self.screen())
        &&& repaint.text@ == normalize(next.app().view_spec())
        &&& next.screen() == repaint.text@
    }

    /// Whether the frame on screen is the frame for the application's view.
    pub open spec fn shows_view(self) -> bool {
        self.screen() == normalize(self.app().view_spec())
    }

    /// Whether a program that starts with `app` is `self`, with `step` to
    /// perform: `init` has been called, the command that it returned is
    /// submitted, and the first frame is printed on an empty screen.
    pub open spec fn starts(self, app: A, step: Step<A::Msg>) -> bool {
        &&& self.app() == app
        &&& self.state() is Running
        &&& self.screen() == normalize(app.view_spec())
        &&& step matches Step::Continue { commands, repaint }
        &&& exists|cmd: Option<Command<A::Msg>>|
            call_ensures(A::init, (&app,), cmd) && commands@ == #[trigger] submitted(cmd)
        &&& repaint.erase == 0
        &&& repaint.text@ == self.screen()
    }

    /// Whether the loop goes from `self` to `next` on `msg`, with `step` to
    /// perform.
    pub open spec fn dispatches(self, msg: Message<A::Msg>, next: Self, step: Step<A::Msg>) -> bool {
        if self.state() is Terminated {
            next == self && step is Idle
        } else {
            match msg {
                Message::Quit(_) => {
                    &&& next.state() is Terminated
                    &&& next.app() == self.app() || self.app().uninit_spec(next.app())
                    &&& next.screen() == self.screen()
                    &&& step matches Step::Halt { teardown }
                    &&& teardown@ == shutdown_ops()
                },
                Message::Batch(batch) => {
                    &&& next.state() is Running
                    &&& next.app() == self.app()
                    &&& step matches Step::Continue { commands, repaint }
                    &&& commands@ == batch@
                    &&& self.repaints(next, repaint)
                },
                _ => {
                    &&& next.state() is Running
                    &&& step matches Step::Continue { commands, repaint }
                    &&& exists|cmd: Option<Command<A::Msg>>| #[trigger]
                        self.app().update_spec(msg, next.app(), cmd) && commands@ == submitted(
                            cmd,
                        )
                    &&& self.repaints(next, repaint)
                },
            }
        }
    }

    /// The first step of a run: hands out the operations that set up the
    /// terminal, in their order, before anything of the application is
    /// called. The loop is started from the value that comes with them.
    pub fn prepare(app: A) -> (start: (Startup<A>, Vec<TerminalOp>))
        ensures
            start.0.app() == app,
            start.1@ == startup_ops(),
    {
        (Startup { app }, startup_sequence())
    }

    /// The second step of a run, after the terminal has been set up: runs
    /// `init`, and renders the first frame.
    pub fn initialize(startup: Startup<A>) -> (started: (Self, Step<A::Msg>))
        ensures
            started.0.starts(startup.app(), started.1),
    {
        let app = startup.app;
        let cmd = app.init();
        let commands = submit(cmd);
        let mut renderer = Renderer::new();
        let view = app.view();
        let repaint = renderer.render(view.as_str());
        assert(terminated_lines(Seq::<char>::empty()) == 0);
        let program = Program { app, state: LoopState::Running, renderer };
        (program, Step::Continue { commands, repaint })
    }

    /// One cycle of the loop for the message `msg`.
    ///
    /// A quit message ends the loop: `uninit` is called, which takes the
    /// application from the state it had to the state it has afterwards, and
    /// the terminal is to be restored. A batch has each of its commands submitted, and the
    /// application is not called. Any other message goes to `update`, whose
    /// command, if any, is submitted. Unless the loop ends, the view is
    /// rendered again. Once the loop has ended, nothing happens any more.
    pub fn dispatch(&mut self, msg: Message<A::Msg>) -> (step: Step<A::Msg>)
        ensures
            old(self).dispatches(msg, *final(self), step),
            old(self).state() is Running && msg is Quit ==> exists|r: &mut A|
                *r == old(self).app() && *final(r) == final(self).app() && #[trigger] call_ensures(
                    A::uninit,
                    (r,),
                    (),
                ),
    {
        match self.state {
            LoopState::Terminated => {
                return Step::Idle;
            },
            LoopState::Running => {},
        }
        match msg {
            Message::Quit(_) => {
                self.app.uninit();
                self.state = LoopState::Terminated;
                Step::Halt { teardown: shutdown_sequence() }
            },
            Message::Batch(batch) => {
                let commands = batch.into_commands();
                let repaint = self.repaint();
                Step::Continue { commands, repaint }
            },
            other => {
                let cmd = self.app.update(other);
                let commands = submit(cmd);
                let repaint = self.repaint();
                assert(old(self).app().update_spec(msg, self.app(), cmd));
                Step::Continue { commands, repaint }
            },
        }
    }

    /// Renders the view of the application's current state over the frame on
    /// screen.
    fn repaint(&mut self) -> (repaint: Repaint)
        ensures
            old(self).repaints(*final(self), repaint),
            final(self).app() == old(self).app(),
            final(self).state() == old(self).state(),
    {
        let view = self.app.view();
        self.renderer.render(view.as_str())
    }

    /// Ends the loop after a failure, as a quit message would: on a running
    /// loop `uninit` is called and the terminal is to be restored.
    pub fn abort(&mut self) -> (step: Step<A::Msg>)
        ensures
            old(self).dispatches(Message::Quit(QuitMessage), *final(self), step),
            old(self).state() is Running ==> exists|r: &mut A|
                *r == old(self).app() && *final(r) == final(self).app() && #[trigger] call_ensures(
                    A::uninit,
                    (r,),
                    (),
                ),
    {
        self.dispatch(Message::Quit(QuitMessage))
    }

    /// Whether the loop is still running.
    pub fn is_running(&self) -> (running: bool)
        ensures
            running == (self.state() is Running),
    {
        match self.state {
            LoopState::Running => true,
            LoopState::Terminated => false,
        }
    }

    /// The application in its current state.
    pub fn application(&self) -> (app: &A)
        ensures
            *app == self.app(),
    {
        &self.app
    }

    /// The frame that is on screen.
    pub fn frame(&self) -> (frame: &Frame)
        ensures
            frame@ == self.screen(),
    {
        self.renderer.frame()
    }

    /// Gives the application back.
    pub fn into_app(self) -> (app: A)
        ensures
            app == self.app(),
    {
        self.app
    }
}

/// A quit message ends a running loop within one cycle: the loop is
/// terminated, `uninit` has been called and has left the application as its
/// contract says, and the terminal is to be restored.
pub proof fn lemma_quit_terminates<A: App>(
    pre: Program<A>,
    quit: QuitMessage,
    next: Program<A>,
    step: Step<A::Msg>,
)
    requires
        pre.state() is Running,
        pre.dispatches(Message::Quit(quit), next, step),
        exists|r: &mut A|
            *r == pre.app() && *final(r) == next.app() && #[trigger] call_ensures(
                A::uninit,
                (r,),
                (),
            ),
    ensures
        next.state() is Terminated,
        next.app() == pre.app() || pre.app().uninit_spec(next.app()),
        step matches Step::Halt { teardown } && teardown@ == shutdown_ops(),
{
}

/// Once the loop has ended it stays as it is, whatever message comes: the
/// application is not called, nothing is submitted or printed, and the
/// teardown is not asked for again.
pub proof fn lemma_terminated_is_final<A: App>(
    pre: Program<A>,
    msg: Message<A::Msg>,
    next: Program<A>,
    step: Step<A::Msg>,
)
    requires
        pre.state() is Terminated,
        pre.dispatches(msg, next, step),
    ensures
        next == pre,
        step is Idle,
{
}

/// The teardown is asked for in the cycle that ends the loop, and in no
/// other; and a running loop ends on a quit message, and on no other.
pub proof fn lemma_teardown_with_termination<A: App>(
    pre: Program<A>,
    msg: Message<A::Msg>,
    next: Program<A>,
    step: Step<A::Msg>,
)
    requires
        pre.dispatches(msg, next, step),
    ensures
        step is Halt <==> pre.state() is Running && next.state() is Terminated,
        step is Halt <==> pre.state() is Running && msg is Quit,
{
}

/// After a quit message the teardown has been asked for once, and the next
/// message, whatever it is, finds nothing left to do.
pub proof fn lemma_teardown_once<A: App>(
    pre: Program<A>,
    quit: QuitMessage,
    ended: Program<A>,
    first: Step<A::Msg>,
    msg: Message<A::Msg>,
    last: Program<A>,
    second: Step<A::Msg>,
)
    requires
        pre.state() is Running,
        pre.dispatches(Message::Quit(quit), ended, first),
        ended.dispatches(msg, last, second),
    ensures
        first is Halt,
        second is Idle,
        last == ended,
{
}

/// A batch message has each of its commands submitted, in their order, and
/// leaves the application as it was.
pub proof fn lemma_batch_fans_out<A: App>(
    pre: Program<A>,
    batch: BatchMessage<A::Msg>,
    next: Program<A>,
    step: Step<A::Msg>,
)
    requires
        pre.state() is Running,
        pre.dispatches(Message::Batch(batch), next, step),
    ensures
        next.state() is Running,
        next.app() == pre.app(),
        step matches Step::Continue { commands, .. } && commands@ == batch@,
{
}

/// While the loop runs, the screen shows the application's view: after the
/// start, and after every cycle that goes on.
pub proof fn lemma_screen_shows_view<A: App>(
    app: A,
    started: Program<A>,
    first: Step<A::Msg>,
    pre: Program<A>,
    msg: Message<A::Msg>,
    next: Program<A>,
    step: Step<A::Msg>,
)
    requires
        started.starts(app, first),
        pre.state() is Running,
        pre.dispatches(msg, next, step),
    ensures
        started.shows_view(),
        next.state() is Running ==> next.shows_view(),
{
}

/// The command that `batch` makes goes round through the loop: what a worker
/// forwards for it is one batch message, and the loop then submits each
/// command of the batch.
pub proof fn lemma_batch_command_fans_out<A: App>(
    cmd: Command<A::Msg>,
    pre: Program<A>,
    next: Program<A>,
    step: Step<A::Msg>,
)
    requires
        pre.state() is Running,
        cmd.known_result() matches Some(Message::Batch(_)),
        pre.dispatches(forwarded(cmd.known_result())[0], next, step),
    ensures
        forwarded(cmd.known_result()).len() == 1,
        next.app() == pre.app(),
        cmd.known_result() matches Some(Message::Batch(batch)) && step matches Step::Continue {
            commands,
            ..
        } && commands@ == batch@,
{
}

/// The frame printed in a cycle that goes on is the frame for the
/// application's view after that cycle, and the lines erased before are the
/// lines of the frame that was on screen.
pub proof fn lemma_cycle_repaints<A: App>(
    pre: Program<A>,
    msg: Message<A::Msg>,
    next: Program<A>,
    step: Step<A::Msg>,
)
    requires
        pre.state() is Running,
        !(msg is Quit),
        pre.dispatches(msg, next, step),
    ensures
        step matches Step::Continue { repaint, .. } && pre.repaints(next, repaint),
{
}

} // verus!
