use headsup_chat::command::{parse_command, Command};
use headsup_chat::supervisor::{BindOutcome, ErrorClass, ListenDecision, Role, Supervisor};
use headsup_chat::ui::{
    handle_input, handle_ui_command, help_lines, prompt_line, send_message, welcome_line,
    UiCommand,
};

#[test]
fn lines_parse_to_their_intents() {
    assert_eq!(parse_command(""), Command::Empty);
    assert_eq!(parse_command("hello there"), Command::Say("hello there".to_string()));
    assert_eq!(
        parse_command("/connect 127.0.0.1:3030"),
        Command::Connect { arg: Some("127.0.0.1:3030".to_string()) }
    );
    assert_eq!(
        parse_command("/open 127.0.0.1:3030"),
        Command::Connect { arg: Some("127.0.0.1:3030".to_string()) }
    );
    assert_eq!(parse_command("/connect"), Command::Connect { arg: None });
    assert_eq!(
        parse_command("/connect a b"),
        Command::Connect { arg: Some("a".to_string()) }
    );
    assert_eq!(parse_command("/close"), Command::CloseAll);
    assert_eq!(parse_command("/exit"), Command::Exit);
    assert_eq!(parse_command("/help"), Command::Help);
    assert_eq!(parse_command("/frobnicate"), Command::Unknown);
}

#[test]
fn help_and_welcome_text() {
    let h = help_lines();
    assert_eq!(h.len(), 5);
    assert_eq!(h[0], "");
    assert_eq!(
        h[1],
        "Type '/open {url}' or '/connect {url}' to connect to a server."
    );
    assert_eq!(h[2], "Type '/close' to close the current connection.");
    assert_eq!(h[3], "Type '/exit' or press ctrl-q to quit.");
    assert_eq!(h[4], "");
    assert_eq!(welcome_line(), "Welcome to HeadsUp chat!");
}

#[test]
fn prompt_follows_the_role() {
    assert_eq!(prompt_line(Role::Idle, None, None), "[ Disconnected ]> ");
    assert_eq!(
        prompt_line(Role::Listening, Some("127.0.0.1:3030"), None),
        "[ Listening on (127.0.0.1:3030) ]> "
    );
    assert_eq!(
        prompt_line(Role::ServerActive { clients: 2 }, None, None),
        "[ Connected as Server to 2 clients ]> "
    );
    assert_eq!(
        prompt_line(Role::ClientActive, None, Some("127.0.0.1:4040")),
        "[ Connected as Client to (127.0.0.1:4040) ]> "
    );
}

#[test]
fn sending_while_disconnected_is_refused() {
    let sup: Supervisor<u32> = Supervisor::new();
    let plan = send_message(&sup, "hi");
    assert_eq!(plan.display, "Cannot send message: 'hi'. Not connected.");
    assert!(!plan.to_all_clients);
    assert!(!plan.to_server);
    assert!(plan.ping.is_none());
}

#[test]
fn sending_as_client_echoes_and_pings() {
    let mut sup: Supervisor<u32> = Supervisor::new();
    sup.request_connect(Some("127.0.0.1:4040"));
    sup.on_connect_outcome(true);
    let plan = send_message(&sup, "hi");
    assert_eq!(plan.display, "{You (Client)}: hi");
    assert!(plan.to_server);
    assert!(!plan.to_all_clients);
    // Every outbound text send is followed by exactly one ping.
    let ping = plan.ping.expect("a ping must follow the send");
    assert!(matches!(
        headsup_chat::codec::decode(&ping),
        Some(headsup_chat::codec::Pingstamp::Ping(_))
    ));
}

#[test]
fn input_dispatches_to_the_supervisor() {
    let mut sup: Supervisor<u32> = Supervisor::new();
    let fx = handle_input(&mut sup, "/exit");
    assert!(sup.exit_requested());
    assert!(fx.lines.is_empty());

    let mut sup: Supervisor<u32> = Supervisor::new();
    let fx = handle_input(&mut sup, "/help");
    assert_eq!(fx.lines.len(), 5);

    let fx = handle_input(&mut sup, "/bogus");
    assert_eq!(fx.lines, vec!["Unknown command.".to_string()]);

    let fx = handle_input(&mut sup, "/close");
    assert_eq!(fx.lines, vec!["Not connected.".to_string()]);

    let fx = handle_input(&mut sup, "/connect");
    assert_eq!(fx.lines, vec!["Invalid client URL.".to_string()]);
    assert!(fx.dial.is_none());

    let fx = handle_input(&mut sup, "/connect 127.0.0.1:4040");
    assert_eq!(fx.lines, vec!["Connecting to: 127.0.0.1:4040...".to_string()]);
    let dial = fx.dial.expect("a dial must be requested");
    assert_eq!(dial.url, "127.0.0.1:4040");
    assert!(!dial.shutdown_listener);
}

// Scenario: the node starts as a server, two clients come and talk, then
// both leave again. The role follows every step, the first line is
// relayed to nobody, the second to the first client only, tagged with
// the sender's identity.
#[test]
fn serving_two_clients_end_to_end() {
    let mut sup: Supervisor<u32> = Supervisor::new();
    assert_eq!(
        sup.request_listen("127.0.0.1:3030".to_string()),
        ListenDecision::Bind("127.0.0.1:3030".to_string())
    );
    sup.on_listen_outcome(BindOutcome::Bound);
    assert_eq!(sup.role(), Role::Listening);

    // Client A connects.
    let r = handle_ui_command(
        &mut sup,
        UiCommand::ServerOpened { id: 1, handle: 10, peer: Some("10.0.0.1:50000".to_string()) },
    );
    assert_eq!(sup.role(), Role::ServerActive { clients: 1 });
    assert_eq!(r.lines, vec!["Server connected to: 10.0.0.1:50000".to_string()]);

    // A sends "hi": a message event is queued, and the relay reaches
    // zero other peers.
    let r = handle_ui_command(
        &mut sup,
        UiCommand::MessageRecvd { text: "hi".to_string(), sender: 1 },
    );
    assert_eq!(r.lines, vec!["{Client<1>}: hi".to_string()]);
    let (framed, targets) = r.relay.expect("serving: a relay is planned");
    assert_eq!(framed, "Client<1>: hi");
    assert!(targets.is_empty());

    // Client B connects.
    handle_ui_command(
        &mut sup,
        UiCommand::ServerOpened { id: 2, handle: 20, peer: None },
    );
    assert_eq!(sup.role(), Role::ServerActive { clients: 2 });

    // B sends "yo": relayed to A only, tagged with B's identity.
    let r = handle_ui_command(
        &mut sup,
        UiCommand::MessageRecvd { text: "yo".to_string(), sender: 2 },
    );
    let (framed, targets) = r.relay.expect("serving: a relay is planned");
    assert_eq!(framed, "Client<2>: yo");
    assert_eq!(targets, vec![1]);

    // A disconnects gracefully.
    let r = handle_ui_command(
        &mut sup,
        UiCommand::ServerClosed { id: 1, reason: "bye".to_string() },
    );
    assert_eq!(sup.role(), Role::ServerActive { clients: 1 });
    assert_eq!(r.lines, vec!["Client connection closed. bye".to_string()]);
    assert!(r.rebind.is_none());

    // B disconnects: back to listening.
    handle_ui_command(
        &mut sup,
        UiCommand::ServerClosed { id: 2, reason: String::new() },
    );
    assert_eq!(sup.role(), Role::Listening);
}

#[test]
fn pong_event_prints_the_round_trip() {
    let mut sup: Supervisor<u32> = Supervisor::new();
    let r = handle_ui_command(&mut sup, UiCommand::PongRecvd { elapsed_us: 2_000_123 });
    assert_eq!(r.lines, vec!["    Round-trip: 2.000123s".to_string()]);
}

// Scenario: the server process dies under a connected client. The error
// fires, there is no remembered bind address, and the node falls idle.
#[test]
fn client_error_event_falls_back_to_idle() {
    let mut sup: Supervisor<u32> = Supervisor::new();
    sup.request_connect(Some("127.0.0.1:9999"));
    sup.on_connect_outcome(true);
    assert_eq!(sup.role(), Role::ClientActive);
    let r = handle_ui_command(
        &mut sup,
        UiCommand::ClientError {
            id: 0,
            kind: ErrorClass::Other,
            detail: "connection reset".to_string(),
        },
    );
    assert_eq!(
        r.lines,
        vec!["The client has encountered an error: connection reset".to_string()]
    );
    assert!(r.rebind.is_none());
    assert_eq!(sup.role(), Role::Idle);
}

#[test]
fn listener_error_event_invalidates_an_unusable_address() {
    let mut sup: Supervisor<u32> = Supervisor::new();
    sup.request_listen("127.0.0.1:3030".to_string());
    sup.on_listen_outcome(BindOutcome::Bound);
    let r = handle_ui_command(
        &mut sup,
        UiCommand::ServerError {
            conn: None,
            kind: ErrorClass::AddressInUse,
            detail: "address in use".to_string(),
        },
    );
    assert_eq!(
        r.lines,
        vec!["The server has encountered an error: address in use".to_string()]
    );
    assert!(r.rebind.is_none());
    assert_eq!(sup.role(), Role::Idle);
    assert_eq!(
        sup.request_listen("127.0.0.1:3030".to_string()),
        ListenDecision::AddressInvalid
    );
}

#[test]
fn bad_connect_address_is_reported() {
    let mut sup: Supervisor<u32> = Supervisor::new();
    // "ws:" followed by this cannot parse as a URL.
    let fx = handle_input(&mut sup, "/connect //");
    assert_eq!(fx.lines, vec!["Invalid url: '//'".to_string()]);
    assert!(fx.dial.is_none());
    assert_eq!(sup.role(), Role::Idle);
}

#[test]
fn commands_are_recognized_by_prefix() {
    // Recognition is by prefix, so a command with trailing letters still
    // matches, as the grammar defines.
    assert_eq!(parse_command("/closeall"), Command::CloseAll);
    assert_eq!(parse_command("/exitnow"), Command::Exit);
    assert_eq!(parse_command("/openx y"), Command::Connect { arg: Some("y".to_string()) });
}

#[test]
fn say_returns_a_send_plan() {
    let mut sup: Supervisor<u32> = Supervisor::new();
    sup.request_connect(Some("127.0.0.1:4040"));
    sup.on_connect_outcome(true);
    let fx = handle_input(&mut sup, "hello");
    let plan = fx.send.expect("chat text must be sent");
    assert_eq!(plan.text, "hello");
    assert_eq!(plan.display, "{You (Client)}: hello");
    assert!(plan.to_server);
    assert!(plan.ping.is_some());
}
