use secure_websocket::chat::{
    classify_client_line, classify_console_line, client_name_from, command_for, delivers_to,
    forwards_to, is_name_request, leave_notice, parse_server_line, relay_from_client,
    server_message, status_due, ChatMessage, ClientInput, ConsoleCommand, ServerCommand,
    ServerLine,
};
use secure_websocket::noise::Frame;
use secure_websocket::registry::{Admission, ClientRegistry, ConsoleAction, PskStore};

fn s(x: &str) -> String {
    x.to_string()
}

#[test]
fn server_line_broadcast_and_targeted() {
    assert_eq!(parse_server_line("   "), ServerLine::Empty);
    assert_eq!(parse_server_line("  Welcome to the chat! "), ServerLine::Broadcast(s("Welcome to the chat!")));
    assert_eq!(
        parse_server_line("@Alice How are you?"),
        ServerLine::Targeted { name: s("Alice"), content: s("How are you?") }
    );
    assert_eq!(
        parse_server_line(" @Bob  two  spaces "),
        ServerLine::Targeted { name: s("Bob"), content: s(" two  spaces") }
    );
    assert_eq!(parse_server_line("@Alice"), ServerLine::InvalidFormat);
    assert_eq!(parse_server_line("@Alice   "), ServerLine::InvalidFormat);
    assert_eq!(parse_server_line("@ hi"), ServerLine::Targeted { name: s(""), content: s("hi") });
    assert_eq!(parse_server_line("mail me @home"), ServerLine::Broadcast(s("mail me @home")));
}

#[test]
fn server_commands_from_lines() {
    let cmd = command_for(&parse_server_line("@Bob hi")).unwrap();
    assert_eq!(cmd.target, Some(s("Bob")));
    assert_eq!(cmd.message.sender, "Server");
    assert_eq!(cmd.message.content, "hi");
    let all = command_for(&parse_server_line("hello")).unwrap();
    assert_eq!(all.target, None);
    assert_eq!(all.message.content, "hello");
    assert!(command_for(&ServerLine::Empty).is_none());
    assert!(command_for(&ServerLine::InvalidFormat).is_none());
}

#[test]
fn client_lines() {
    assert_eq!(classify_client_line("  \t"), ClientInput::Empty);
    assert_eq!(classify_client_line(" QUIT "), ClientInput::Quit);
    assert_eq!(classify_client_line("quit now"), ClientInput::Send(s("quit now")));
    assert_eq!(classify_client_line("  Hello everyone! "), ClientInput::Send(s("Hello everyone!")));
}

#[test]
fn console_lines() {
    assert_eq!(classify_console_line(""), ConsoleCommand::Empty);
    assert_eq!(classify_console_line("Quit"), ConsoleCommand::Quit);
    assert_eq!(classify_console_line(" sTaTuS "), ConsoleCommand::Status);
    assert_eq!(classify_console_line("status report"), ConsoleCommand::Send(s("status report")));
}

#[test]
fn status_every_tenth_message() {
    assert!(status_due(0));
    assert!(!status_due(9));
    assert!(status_due(10));
    assert!(status_due(120));
    assert!(!status_due(121));
}

#[test]
fn delivery_rules() {
    let from_alice = ChatMessage { sender: s("Alice"), content: s("hi") };
    assert!(!forwards_to(&from_alice, "Alice"));
    assert!(forwards_to(&from_alice, "Bob"));
    let to_bob = ServerCommand { target: Some(s("Bob")), message: server_message(s("x")) };
    assert!(delivers_to(&to_bob, "Bob"));
    assert!(!delivers_to(&to_bob, "Alice"));
    let to_all = ServerCommand { target: None, message: server_message(s("x")) };
    assert!(delivers_to(&to_all, "Alice"));
    assert!(delivers_to(&to_all, "Bob"));
}

#[test]
fn relayed_messages_carry_the_registered_name() {
    let claimed = ChatMessage { sender: s("Server"), content: s("I am the server") };
    let relayed = relay_from_client("Bob", claimed);
    assert_eq!(relayed.sender, "Bob");
    assert_eq!(relayed.content, "I am the server");
    let notice = leave_notice("Alice");
    assert_eq!(notice.sender, "Server");
    assert_eq!(notice.content, "Alice left the chat");
}

#[test]
fn name_exchange() {
    assert!(is_name_request(&Some(Frame::Text(s("NAME_REQUEST")))));
    assert!(!is_name_request(&Some(Frame::Text(s("name_request")))));
    assert!(!is_name_request(&Some(Frame::Binary(b"NAME_REQUEST".to_vec()))));
    assert!(!is_name_request(&None));
    assert_eq!(client_name_from(Some(Frame::Text(s("Alice")))), Some(s("Alice")));
    assert_eq!(client_name_from(Some(Frame::Close)), None);
    assert_eq!(client_name_from(None), None);
}

#[test]
fn registry_numbers_and_names() {
    let mut reg = ClientRegistry::new();
    assert!(!reg.has_name("Alice"));
    let a = reg.register(s("Alice"));
    let b = reg.register(s("Bob"));
    assert_eq!((a, b), (1, 2));
    assert!(reg.has_name("Alice"));
    assert!(reg.has_name("Bob"));
    assert!(!reg.has_name("Carol"));
    reg.unregister(a);
    assert!(!reg.has_name("Alice"));
    let c = reg.register(s("Alice"));
    assert_eq!(c, 3);
    assert!(reg.has_name("Alice"));
    reg.unregister(42);
    assert!(reg.has_name("Bob"));
}

#[test]
fn psk_store_read_after_write() {
    let mut store = PskStore::new();
    assert_eq!(store.get("Alice"), None);
    store.insert(s("Alice"), [1u8; 32]);
    store.insert(s("Bob"), [2u8; 32]);
    assert_eq!(store.get("Alice"), Some([1u8; 32]));
    assert_eq!(store.get("Bob"), Some([2u8; 32]));
    store.insert(s("Alice"), [3u8; 32]);
    assert_eq!(store.get("Alice"), Some([3u8; 32]));
    assert_eq!(store.get("Bob"), Some([2u8; 32]));
    assert_eq!(store.get("Carol"), None);
}

#[test]
fn connections_are_answered_by_name() {
    let mut store = PskStore::new();
    store.insert(s("Alice"), [5u8; 32]);
    assert_eq!(store.answer_connection(Some(Frame::Text(s("Alice")))), Admission::Admitted(s("Alice"), [5u8; 32]));
    assert_eq!(store.answer_connection(Some(Frame::Text(s("Mallory")))), Admission::UnknownClient(s("Mallory")));
    assert_eq!(store.answer_connection(Some(Frame::Binary(vec![1]))), Admission::NoName);
    assert_eq!(store.answer_connection(None), Admission::NoName);
}

#[test]
fn console_actions_depend_on_connected_clients() {
    let mut reg = ClientRegistry::new();
    reg.register(s("Alice"));
    assert!(matches!(reg.console_action("  "), ConsoleAction::Prompt));
    assert!(matches!(reg.console_action("@Alice"), ConsoleAction::ShowUsage));
    match reg.console_action("@Bob hello") {
        ConsoleAction::UnknownClient(name) => assert_eq!(name, "Bob"),
        other => panic!("unexpected {:?}", other),
    }
    match reg.console_action("@Alice hello there") {
        ConsoleAction::Send(cmd) => {
            assert_eq!(cmd.target, Some(s("Alice")));
            assert_eq!(cmd.message.sender, "Server");
            assert_eq!(cmd.message.content, "hello there");
        }
        other => panic!("unexpected {:?}", other),
    }
    match reg.console_action("Welcome!") {
        ConsoleAction::Send(cmd) => {
            assert_eq!(cmd.target, None);
            assert_eq!(cmd.message.content, "Welcome!");
        }
        other => panic!("unexpected {:?}", other),
    }
}
