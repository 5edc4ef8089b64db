use rustea::command::{batch, BatchMessage, Command, Message, QuitMessage};
use rustea::event::{KeyCode, KeyEvent, KeyModifiers, ResizeEvent};
use rustea::executor::execute;
use rustea::error::Error;
use rustea::program::{
    normalized_view, shutdown_sequence, startup_sequence, teardown_outcome, App, Program, Step,
    TerminalOp,
};
use rustea::utils::{quit_if_ctrl_c, some_box};
use rustea::view_helper::input::Input;

struct Model {
    input: Input,
    updates: usize,
    uninits: usize,
    notes: Vec<String>,
}

impl Model {
    fn new() -> Self {
        Model { input: Input::new(), updates: 0, uninits: 0, notes: Vec::new() }
    }
}

impl App for Model {
    type Msg = String;

    fn init(&self) -> Option<Command<String>> {
        None
    }

    fn update(&mut self, msg: Message<String>) -> Option<Command<String>> {
        self.updates += 1;
        if let Some(cmd) = quit_if_ctrl_c(&msg) {
            return Some(cmd);
        }
        match msg {
            Message::Key(key_event) => self.input.on_key_event(key_event),
            Message::User(note) => {
                if note == "again" {
                    return Some(Command::new(|| some_box(String::from("done"))));
                }
                self.notes.push(note);
            }
            _ => (),
        }
        None
    }

    fn view(&self) -> String {
        format!("> {}", self.input.buffer())
    }

    fn uninit(&mut self) {
        self.uninits += 1;
    }
}

struct Greeter;

impl App for Greeter {
    type Msg = u8;

    fn init(&self) -> Option<Command<u8>> {
        Some(Command::new(|| some_box(1)))
    }

    fn update(&mut self, _msg: Message<u8>) -> Option<Command<u8>> {
        None
    }

    fn view(&self) -> String {
        String::from("hello\nworld\n")
    }

    fn uninit(&mut self) {}
}

struct Plain {
    seen: usize,
}

impl App for Plain {
    type Msg = u8;

    fn update(&mut self, _msg: Message<u8>) -> Option<Command<u8>> {
        self.seen += 1;
        None
    }

    fn view(&self) -> String {
        format!("seen {}", self.seen)
    }
}

fn start<A: App>(app: A) -> (Program<A>, Step<A::Msg>) {
    let (startup, _) = Program::prepare(app);
    Program::initialize(startup)
}

fn key(c: char) -> Message<String> {
    Message::Key(KeyEvent::new(KeyCode::Char(c), KeyModifiers::none()))
}

#[test]
fn terminal_is_set_up_and_restored_in_order() {
    assert_eq!(
        startup_sequence(),
        vec![TerminalOp::EnterRawMode, TerminalOp::HideCursor, TerminalOp::EnableMouseCapture]
    );
    assert_eq!(
        shutdown_sequence(),
        vec![TerminalOp::DisableMouseCapture, TerminalOp::ShowCursor, TerminalOp::LeaveRawMode]
    );
}

#[test]
fn normalized_view_of_an_application() {
    assert_eq!(normalized_view(&Model::new()), "> \r\n");
    assert_eq!(normalized_view(&Greeter), "hello\r\nworld\r\n");
}

#[test]
fn view_is_the_same_when_asked_twice() {
    let model = Model::new();
    assert_eq!(model.view(), model.view());
    assert_eq!(normalized_view(&model), normalized_view(&model));
}

#[test]
fn start_prints_the_first_frame() {
    let (program, step) = start(Model::new());
    assert!(program.is_running());
    match step {
        Step::Continue { commands, repaint } => {
            assert_eq!(commands.len(), 0);
            assert_eq!(repaint.erase, 0);
            assert_eq!(repaint.text, "> \r\n");
        }
        _ => panic!("the loop should go on"),
    }
    assert_eq!(program.frame().text(), "> \r\n");
    assert_eq!(program.application().updates, 0);
}

#[test]
fn start_submits_the_command_of_init() {
    let (program, step) = start(Greeter);
    assert!(program.is_running());
    match step {
        Step::Continue { commands, repaint } => {
            assert_eq!(commands.len(), 1);
            assert_eq!(repaint.erase, 0);
            assert_eq!(repaint.text, "hello\r\nworld\r\n");
            for cmd in commands {
                assert!(matches!(cmd.run(), Some(Message::User(1))));
            }
        }
        _ => panic!("the loop should go on"),
    }
}

#[test]
fn key_updates_the_input_and_quit_ends_the_loop() {
    let (mut program, _) = start(Model::new());
    assert_eq!(program.application().input.buffer(), "");
    assert_eq!(program.application().input.pos(), 0);

    match program.dispatch(key('a')) {
        Step::Continue { commands, repaint } => {
            assert_eq!(commands.len(), 0);
            assert_eq!(repaint.erase, 1);
            assert_eq!(repaint.text, "> a\r\n");
        }
        _ => panic!("the loop should go on"),
    }
    assert_eq!(program.application().input.buffer(), "a");
    assert_eq!(program.application().input.pos(), 1);
    assert_eq!(program.application().updates, 1);
    assert!(program.is_running());

    match program.dispatch(Message::Quit(QuitMessage)) {
        Step::Halt { teardown } => assert_eq!(teardown, shutdown_sequence()),
        _ => panic!("the loop should end"),
    }
    assert!(!program.is_running());
    assert_eq!(program.application().uninits, 1);
    assert_eq!(program.application().updates, 1);

    assert!(matches!(program.dispatch(Message::Quit(QuitMessage)), Step::Idle));
    assert!(matches!(program.dispatch(key('b')), Step::Idle));
    assert!(matches!(program.abort(), Step::Idle));
    let model = program.into_app();
    assert_eq!(model.uninits, 1);
    assert_eq!(model.updates, 1);
    assert_eq!(model.input.buffer(), "a");
}

#[test]
fn batch_submits_each_command_and_skips_update() {
    let (mut program, _) = start(Model::new());
    let cmds: Vec<Command<String>> = vec![
        Command::new(|| some_box(String::from("one"))),
        Command::new(|| None),
        Command::new(|| some_box(String::from("three"))),
    ];
    let step = program.dispatch(Message::Batch(BatchMessage::new(cmds)));
    assert_eq!(program.application().updates, 0);
    assert!(program.is_running());
    match step {
        Step::Continue { commands, repaint } => {
            assert_eq!(commands.len(), 3);
            assert_eq!(repaint.erase, 1);
            assert_eq!(repaint.text, "> \r\n");
            let mut seen = Vec::new();
            for cmd in commands {
                for msg in execute(cmd) {
                    match msg {
                        Message::User(text) => seen.push(text),
                        _ => panic!("a user message was expected"),
                    }
                }
            }
            assert_eq!(seen, vec![String::from("one"), String::from("three")]);
        }
        _ => panic!("the loop should go on"),
    }
}

#[test]
fn batch_command_goes_round_through_the_loop() {
    let (mut program, _) = start(Model::new());
    let cmd = batch(vec![
        Command::new(|| some_box(String::from("a"))),
        Command::new(|| some_box(String::from("b"))),
    ]);
    let mut messages = execute(cmd);
    assert_eq!(messages.len(), 1);
    match program.dispatch(messages.remove(0)) {
        Step::Continue { commands, .. } => assert_eq!(commands.len(), 2),
        _ => panic!("the loop should go on"),
    }
    assert_eq!(program.application().updates, 0);
}

#[test]
fn empty_batch_submits_nothing() {
    let (mut program, _) = start(Model::new());
    match program.dispatch(Message::Batch(BatchMessage::new(Vec::new()))) {
        Step::Continue { commands, repaint } => {
            assert_eq!(commands.len(), 0);
            assert_eq!(repaint.erase, 1);
        }
        _ => panic!("the loop should go on"),
    }
}

#[test]
fn update_command_is_submitted() {
    let (mut program, _) = start(Model::new());
    match program.dispatch(Message::User(String::from("again"))) {
        Step::Continue { commands, .. } => {
            assert_eq!(commands.len(), 1);
            for cmd in commands {
                match cmd.run() {
                    Some(Message::User(text)) => assert_eq!(text, "done"),
                    _ => panic!("a user message was expected"),
                }
            }
        }
        _ => panic!("the loop should go on"),
    }
    match program.dispatch(Message::User(String::from("note"))) {
        Step::Continue { commands, .. } => assert_eq!(commands.len(), 0),
        _ => panic!("the loop should go on"),
    }
    assert_eq!(program.application().notes, vec![String::from("note")]);
    assert_eq!(program.application().updates, 2);
}

#[test]
fn ctrl_c_leads_to_quit_within_the_loop() {
    let (mut program, _) = start(Model::new());
    let ctrl_c = Message::Key(KeyEvent::new(KeyCode::Char('c'), KeyModifiers::control()));
    let mut commands = match program.dispatch(ctrl_c) {
        Step::Continue { commands, .. } => commands,
        _ => panic!("the loop should go on"),
    };
    assert_eq!(commands.len(), 1);
    let mut messages = execute(commands.remove(0));
    assert_eq!(messages.len(), 1);
    assert!(matches!(program.dispatch(messages.remove(0)), Step::Halt { .. }));
    assert!(!program.is_running());
    assert_eq!(program.application().uninits, 1);
}

#[test]
fn resize_reaches_the_application() {
    let (mut program, _) = start(Model::new());
    let step = program.dispatch(Message::Resize(ResizeEvent(80, 24)));
    assert!(matches!(step, Step::Continue { .. }));
    assert_eq!(program.application().updates, 1);
}

#[test]
fn abort_ends_a_running_loop_once() {
    let (mut program, _) = start(Model::new());
    match program.abort() {
        Step::Halt { teardown } => assert_eq!(
            teardown,
            vec![TerminalOp::DisableMouseCapture, TerminalOp::ShowCursor, TerminalOp::LeaveRawMode]
        ),
        _ => panic!("the loop should end"),
    }
    assert!(!program.is_running());
    assert!(matches!(program.abort(), Step::Idle));
    assert_eq!(program.into_app().uninits, 1);
}

#[test]
fn frames_erase_what_was_printed_before() {
    let (mut program, first) = start(Greeter);
    match first {
        Step::Continue { repaint, .. } => assert_eq!(repaint.erase, 0),
        _ => panic!("the loop should go on"),
    }
    match program.dispatch(Message::User(0)) {
        Step::Continue { repaint, .. } => {
            assert_eq!(repaint.erase, 2);
            assert_eq!(repaint.text, "hello\r\nworld\r\n");
        }
        _ => panic!("the loop should go on"),
    }
}

#[test]
fn prepare_hands_out_the_startup_operations_first() {
    let (startup, ops) = Program::prepare(Greeter);
    assert_eq!(
        ops,
        vec![TerminalOp::EnterRawMode, TerminalOp::HideCursor, TerminalOp::EnableMouseCapture]
    );
    assert_eq!(ops, startup_sequence());
    let (program, step) = Program::initialize(startup);
    assert!(program.is_running());
    assert!(matches!(step, Step::Continue { .. }));
}

#[test]
fn init_gives_no_command_unless_the_application_says_so() {
    assert!(Plain { seen: 0 }.init().is_none());
    let (program, step) = start(Plain { seen: 0 });
    match step {
        Step::Continue { commands, repaint } => {
            assert_eq!(commands.len(), 0);
            assert_eq!(repaint.text, "seen 0\r\n");
        }
        _ => panic!("the loop should go on"),
    }
    assert_eq!(program.application().seen, 0);
}

#[test]
fn uninit_does_nothing_unless_the_application_says_so() {
    let mut plain = Plain { seen: 3 };
    plain.uninit();
    assert_eq!(plain.seen, 3);
    let (mut program, _) = start(Plain { seen: 0 });
    program.dispatch(Message::User(1));
    assert!(matches!(program.dispatch(Message::Quit(QuitMessage)), Step::Halt { .. }));
    assert_eq!(program.into_app().seen, 1);
}

#[test]
fn teardown_that_went_well_reports_success() {
    assert!(teardown_outcome(Vec::new()).is_ok());
    assert!(teardown_outcome(vec![Ok(()), Ok(()), Ok(())]).is_ok());
}

#[test]
fn teardown_reports_its_first_failure() {
    let outcomes = vec![
        Ok(()),
        Err(Error::send(String::from("first"))),
        Ok(()),
        Err(Error::recv(String::from("second"))),
    ];
    match teardown_outcome(outcomes) {
        Err(Error::SendRecv(detail)) => assert_eq!(detail, "first"),
        _ => panic!("the first failure was expected"),
    }
    let outcomes = vec![
        Err(Error::io(std::io::Error::new(std::io::ErrorKind::Other, "no tty"))),
        Err(Error::send(String::from("later"))),
    ];
    match teardown_outcome(outcomes) {
        Err(Error::Io(err)) => assert_eq!(err.to_string(), "no tty"),
        _ => panic!("the first failure was expected"),
    }
    let outcomes = vec![Ok(()), Ok(()), Err(Error::downcast("last"))];
    match teardown_outcome(outcomes) {
        Err(Error::Downcast(detail)) => assert_eq!(detail, "last"),
        _ => panic!("the first failure was expected"),
    }
}
