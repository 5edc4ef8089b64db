use rustea::command::{Command, Message, QuitMessage};
use rustea::error::{headed, Error};
use rustea::event::{
    KeyCode, KeyEvent, KeyModifiers, MouseButton, MouseEvent, MouseEventKind, ResizeEvent,
    MODIFIER_ALT, MODIFIER_CONTROL, MODIFIER_SHIFT,
};
use rustea::utils::{is_ctrl_c, is_ctrl_c_msg, none_box, quit_if_ctrl_c, some_box};

#[test]
fn ctrl_c_is_recognised() {
    let ev = KeyEvent::new(KeyCode::Char('c'), KeyModifiers::control());
    assert!(is_ctrl_c(&ev));
    assert!(is_ctrl_c_msg(&Message::<u8>::Key(ev)));
}

#[test]
fn other_keys_are_not_ctrl_c() {
    assert!(!is_ctrl_c(&KeyEvent::plain(KeyCode::Char('c'))));
    assert!(!is_ctrl_c(&KeyEvent::new(KeyCode::Char('d'), KeyModifiers::control())));
    assert!(!is_ctrl_c(&KeyEvent::new(KeyCode::Char('C'), KeyModifiers::control())));
    assert!(!is_ctrl_c(&KeyEvent::new(KeyCode::Enter, KeyModifiers::control())));
    let both = KeyModifiers::from_bits(MODIFIER_CONTROL | MODIFIER_SHIFT);
    assert!(!is_ctrl_c(&KeyEvent::new(KeyCode::Char('c'), both)));
    let alt = KeyModifiers::from_bits(MODIFIER_ALT);
    assert!(!is_ctrl_c(&KeyEvent::new(KeyCode::Char('c'), alt)));
}

#[test]
fn other_messages_are_not_ctrl_c() {
    assert!(!is_ctrl_c_msg(&Message::<u8>::Quit(QuitMessage)));
    assert!(!is_ctrl_c_msg(&Message::<u8>::User(3)));
    assert!(!is_ctrl_c_msg(&Message::<u8>::Resize(ResizeEvent(80, 24))));
    let click = MouseEvent {
        kind: MouseEventKind::Down(MouseButton::Left),
        column: 1,
        row: 2,
        modifiers: KeyModifiers::control(),
    };
    assert!(!is_ctrl_c_msg(&Message::<u8>::Mouse(click)));
    assert!(!is_ctrl_c_msg(&Message::<u8>::Key(KeyEvent::plain(KeyCode::Char('c')))));
}

#[test]
fn quit_if_ctrl_c_gives_the_quit_command() {
    let ev = KeyEvent::new(KeyCode::Char('c'), KeyModifiers::control());
    match quit_if_ctrl_c(&Message::<u8>::Key(ev)) {
        Some(cmd) => assert!(matches!(cmd.run(), Some(Message::Quit(_)))),
        None => panic!("a command was expected"),
    }
    assert!(quit_if_ctrl_c(&Message::<u8>::Key(KeyEvent::plain(KeyCode::Char('c')))).is_none());
    assert!(quit_if_ctrl_c(&Message::<u8>::User(1)).is_none());
}

#[test]
fn some_box_wraps_and_none_box_does_not() {
    assert!(matches!(some_box(11u8), Some(Message::User(11))));
    assert!(none_box::<u8>().is_none());
    let cmd: Command<u8> = Command::new(|| some_box(2));
    assert!(matches!(cmd.run(), Some(Message::User(2))));
}

#[test]
fn modifiers_keep_their_bits() {
    assert_eq!(KeyModifiers::none().bits, 0);
    assert_eq!(KeyModifiers::control().bits, 2);
    assert_eq!(KeyModifiers::from_bits(5).bits, 5);
    assert_eq!(MODIFIER_SHIFT, 1);
    assert_eq!(MODIFIER_CONTROL, 2);
    assert_eq!(MODIFIER_ALT, 4);
}

#[test]
fn send_and_recv_errors_are_described() {
    let e = Error::send(String::from("sending on a closed channel"));
    assert!(matches!(e, Error::SendRecv(_)));
    assert_eq!(e.to_string(), "Send/Recv error: sending on a closed channel");
    let e = Error::recv(String::from("receiving on a closed channel"));
    assert!(matches!(e, Error::SendRecv(_)));
    assert_eq!(e.to_string(), "Send/Recv error: receiving on a closed channel");
}

#[test]
fn downcast_error_is_described() {
    let e = Error::downcast("Unable to downcast msg (BatchMessage)");
    assert!(matches!(e, Error::Downcast(_)));
    assert_eq!(e.to_string(), "Downcast error: Unable to downcast msg (BatchMessage)");
}

#[test]
fn io_error_is_described() {
    let e = Error::io(std::io::Error::new(std::io::ErrorKind::Other, "terminal gone"));
    assert!(matches!(e, Error::Io(_)));
    assert_eq!(e.to_string(), "IO error: terminal gone");
    let e = Error::from(std::io::Error::new(std::io::ErrorKind::Other, "no tty"));
    assert!(matches!(e, Error::Io(_)));
    assert_eq!(e.to_string(), "IO error: no tty");
}

#[test]
fn heading_comes_before_detail() {
    assert_eq!(headed("IO error: ", "x"), "IO error: x");
    assert_eq!(headed("", ""), "");
    assert_eq!(headed("a", ""), "a");
}

#[test]
fn send_error_becomes_a_bus_failure() {
    let (tx, rx) = std::sync::mpsc::channel::<u8>();
    drop(rx);
    let err = tx.send(1).unwrap_err();
    let text = err.to_string();
    match Error::from(err) {
        Error::SendRecv(detail) => assert_eq!(detail, text),
        _ => panic!("a bus failure was expected"),
    }
    assert_eq!(
        Error::from(std::sync::mpsc::SendError(7u8)).to_string(),
        "Send/Recv error: sending on a closed channel"
    );
}

#[test]
fn recv_error_becomes_a_bus_failure() {
    let (tx, rx) = std::sync::mpsc::channel::<u8>();
    drop(tx);
    let err = rx.recv().unwrap_err();
    let text = err.to_string();
    match Error::from(err) {
        Error::SendRecv(detail) => assert_eq!(detail, text),
        _ => panic!("a bus failure was expected"),
    }
    assert_eq!(
        Error::from(std::sync::mpsc::RecvError).to_string(),
        "Send/Recv error: receiving on a closed channel"
    );
}
