use transport::bytes::{to_transport_bytes, FrameError, MessageState};
use transport::dispatch::{
    handle_incoming_bytes, handle_request, handle_terminal_bytes, handle_terminal_message, HandleAction, HandleEvent,
    Incoming, RequestHandling, Resolved, PING_SECONDS,
};
use transport::exchange::{forward_ws_channel, Exchange, ExchangeAction, ExchangeEvent, UserMessage, STREAM_EOF};
use transport::forwarding::{
    forward_execute_command_on_terminal_response, handle_terminal_forwarding, stdin_message, ForwardAction,
    ForwardEvent, ReceiverStream, ResponseAction, ResponseEvent, Sides, StdinMessage, StreamItem, TerminalForwarding,
    Token,
};
use transport::terminal::{
    container_command, default_command, default_container_shell, full_command, setup_execute_command_on_terminal,
    ConnectContainerExec, ConnectTerminal, CreateTerminal, DeleteAllTerminals, DeleteTerminal, DisconnectTerminal,
    ExecuteContainerExec, ExecuteTerminal, ListTerminals, StartStep, TerminalConfig, TerminalError, TerminalPlan,
    TerminalRecreateMode, END_OF_OUTPUT, START_OF_OUTPUT,
};
use transport::user::{
    check_user_valid, handle_container_terminal, stack_service_container, user_ws_login, ContainerTerminal,
    ContainerTerminalAction, ContainerTerminalEvent, FirstMessage, StackExecError, StackService, TerminalRequest,
    TerminalRequestAction, TerminalRequestEvent, UserError, UserLogin, UserLoginAction, UserLoginEvent,
    WsLoginMessage,
};
use uuid::Uuid;

fn id() -> Uuid {
    Uuid::from_u128(7)
}

fn framed(data: &[u8]) -> Vec<u8> {
    to_transport_bytes(data.to_vec(), id(), MessageState::Terminal)
}

const OPEN: TerminalConfig = TerminalConfig { disable_terminals: false, disable_container_exec: false };
const CLOSED: TerminalConfig = TerminalConfig { disable_terminals: true, disable_container_exec: true };

#[test]
fn defaults() {
    assert_eq!(default_command(), "bash");
    assert_eq!(default_container_shell(), "sh");
    assert_eq!(TerminalRecreateMode::default(), TerminalRecreateMode::Never);
}

#[test]
fn commands() {
    assert_eq!(container_command("web", "sh"), "docker exec -it web sh");
    assert_eq!(
        full_command("ls -l"),
        "printf '\n__KOMODO_START_OF_OUTPUT__\n\n'; ls -l; rc=$?; printf '\n__KOMODO_EXIT_CODE:%d\n__KOMODO_END_OF_OUTPUT__\n' \"$rc\"\n"
    );
}

#[test]
fn terminal_requests_are_planned() {
    assert!(matches!(ListTerminals {}.resolve(), TerminalPlan::List));
    assert!(matches!(DeleteAllTerminals {}.resolve(), TerminalPlan::DeleteAll));
    assert!(matches!(
        DeleteTerminal { terminal: "t".to_string() }.resolve(),
        TerminalPlan::Delete { terminal } if terminal == "t"
    ));
    assert!(matches!(
        DisconnectTerminal { id: id() }.resolve(),
        TerminalPlan::Disconnect { id: other } if other == id()
    ));
    let create = CreateTerminal {
        name: "t".to_string(),
        command: "bash".to_string(),
        recreate: TerminalRecreateMode::Always,
    };
    assert!(matches!(
        create.resolve(&OPEN),
        Ok(TerminalPlan::Create { name, command, recreate: TerminalRecreateMode::Always })
            if name == "t" && command == "bash"
    ));
    assert!(matches!(
        ConnectTerminal { terminal: "t".to_string() }.resolve(&OPEN),
        Ok(TerminalPlan::Connect { terminal }) if terminal == "t"
    ));
    let execute = ExecuteTerminal { terminal: "t".to_string(), command: "ls".to_string() };
    assert!(matches!(
        execute.resolve(&OPEN),
        Ok(TerminalPlan::Execute { terminal, input }) if terminal == "t" && input == full_command("ls")
    ));
    let connect = ConnectContainerExec { container: "web".to_string(), shell: "sh".to_string() };
    assert!(matches!(
        connect.resolve(&OPEN),
        Ok(TerminalPlan::CreateAndConnect { name, command, recreate: TerminalRecreateMode::DifferentCommand })
            if name == "web" && command == "docker exec -it web sh"
    ));
    let execute = ExecuteContainerExec {
        container: "web".to_string(),
        shell: "sh".to_string(),
        command: "ls".to_string(),
    };
    assert!(matches!(
        execute.resolve(&OPEN),
        Ok(TerminalPlan::CreateAndExecute { name, command, recreate: TerminalRecreateMode::DifferentCommand, input })
            if name == "web" && command == "docker exec -it web sh" && input == full_command("ls")
    ));
}

#[test]
fn disabled_terminals_are_refused() {
    let create = CreateTerminal {
        name: "t".to_string(),
        command: "bash".to_string(),
        recreate: TerminalRecreateMode::Never,
    };
    assert_eq!(create.resolve(&CLOSED).err(), Some(TerminalError::TerminalsDisabled));
    assert_eq!(
        ConnectTerminal { terminal: "t".to_string() }.resolve(&CLOSED).err(),
        Some(TerminalError::TerminalsDisabled)
    );
    assert_eq!(
        ExecuteTerminal { terminal: "t".to_string(), command: "ls".to_string() }.resolve(&CLOSED).err(),
        Some(TerminalError::TerminalsDisabled)
    );
    let connect = ConnectContainerExec { container: "a && b".to_string(), shell: "sh".to_string() };
    assert_eq!(connect.resolve(&CLOSED).err(), Some(TerminalError::ContainerExecDisabled));
    assert_eq!(TerminalError::TerminalsDisabled.status(), 403);
    assert_eq!(TerminalError::ContainerExecDisabled.status(), 500);
    assert_eq!(TerminalError::ForbiddenAnd.status(), 500);
}

#[test]
fn and_is_forbidden_in_container_names_and_shells() {
    let connect = ConnectContainerExec { container: "a && b".to_string(), shell: "sh".to_string() };
    assert_eq!(connect.resolve(&OPEN).err(), Some(TerminalError::ForbiddenAnd));
    let connect = ConnectContainerExec { container: "a".to_string(), shell: "sh&&".to_string() };
    assert_eq!(connect.resolve(&OPEN).err(), Some(TerminalError::ForbiddenAnd));
    let execute = ExecuteContainerExec {
        container: "&&".to_string(),
        shell: "sh".to_string(),
        command: "ls".to_string(),
    };
    assert_eq!(execute.resolve(&OPEN).err(), Some(TerminalError::ForbiddenAnd));
    // The command itself may hold it, and one '&' on each side is none.
    let execute = ExecuteContainerExec {
        container: "a&".to_string(),
        shell: "&b".to_string(),
        command: "ls && ls".to_string(),
    };
    match execute.resolve(&OPEN) {
        Ok(TerminalPlan::CreateAndExecute { command, .. }) => {
            assert_eq!(command, "docker exec -it a& &b");
            assert!(!command.contains("&&"));
        }
        _ => panic!(),
    }
}

#[test]
fn output_stands_between_the_sentinels() {
    let line = |text: &str| setup_execute_command_on_terminal(Ok(Some(text.to_string())));
    assert_eq!(line("prompt"), StartStep::Read);
    assert_eq!(line(START_OF_OUTPUT), StartStep::Started);
    assert_eq!(setup_execute_command_on_terminal(Ok(None)), StartStep::Terminated);
    assert_eq!(setup_execute_command_on_terminal(Err(())), StartStep::Failed);

    let respond = |event| forward_execute_command_on_terminal_response(id(), event);
    assert!(matches!(
        respond(ResponseEvent::Line(Some(Ok("hello".to_string())))),
        ResponseAction::Send(frame) if frame == framed(b"hello\n")
    ));
    assert!(matches!(
        respond(ResponseEvent::Line(Some(Ok(END_OF_OUTPUT.to_string())))),
        ResponseAction::End { frame, clean_up: false } if frame == framed(b"__KOMODO_END_OF_OUTPUT__")
    ));
    assert!(matches!(respond(ResponseEvent::Line(Some(Err(())))), ResponseAction::Stop));
    assert!(matches!(
        respond(ResponseEvent::Line(None)),
        ResponseAction::End { frame, clean_up: true } if frame == framed(b"__KOMODO_END_OF_OUTPUT__")
    ));
    assert!(matches!(respond(ResponseEvent::Sent(true)), ResponseAction::Read));
    assert!(matches!(respond(ResponseEvent::Sent(false)), ResponseAction::Stop));
}

#[test]
fn stdin_messages() {
    assert!(matches!(stdin_message(vec![0, 1, 2]), StdinMessage::Bytes(b) if b == vec![1, 2]));
    assert!(matches!(stdin_message(vec![0xff, 1, 2]), StdinMessage::Resize(b) if b == vec![1, 2]));
    assert!(matches!(stdin_message(vec![9, 1, 2]), StdinMessage::Bytes(b) if b == vec![9, 1, 2]));
    assert!(matches!(stdin_message(vec![]), StdinMessage::Bytes(b) if b.is_empty()));
}

fn step(forwarding: TerminalForwarding, event: ForwardEvent) -> (TerminalForwarding, ForwardAction) {
    handle_terminal_forwarding(forwarding, id(), event)
}

fn running() -> TerminalForwarding {
    let (forwarding, action) = step(
        TerminalForwarding::Start,
        ForwardEvent::Start { first: vec![], second: vec![] },
    );
    assert!(matches!(action, ForwardAction::Run));
    forwarding
}

#[test]
fn history_is_sent_first() {
    let (forwarding, action) =
        step(TerminalForwarding::Start, ForwardEvent::Start { first: vec![1], second: vec![2] });
    assert!(matches!(action, ForwardAction::SendHistory(frame) if frame == framed(&[1])));
    let (forwarding, action) = step(forwarding, ForwardEvent::HistorySent(true));
    assert!(matches!(action, ForwardAction::SendHistory(frame) if frame == framed(&[2])));
    let (_, action) = step(forwarding, ForwardEvent::HistorySent(true));
    assert!(matches!(action, ForwardAction::Run));

    let (forwarding, action) =
        step(TerminalForwarding::Start, ForwardEvent::Start { first: vec![], second: vec![2] });
    assert!(matches!(action, ForwardAction::SendHistory(frame) if frame == framed(&[2])));
    let (forwarding, action) = step(forwarding, ForwardEvent::HistorySent(false));
    assert!(matches!(action, ForwardAction::Abandon));
    assert!(matches!(forwarding, TerminalForwarding::Done));
}

#[test]
fn terminal_is_forwarded_both_ways() {
    let (forwarding, action) = step(running(), ForwardEvent::Received(Some(vec![0, b'l', b's'])));
    assert!(matches!(action, ForwardAction::Stdin(StdinMessage::Bytes(b)) if b == b"ls"));
    let (forwarding, action) = step(forwarding, ForwardEvent::StdinSent(true));
    assert!(matches!(action, ForwardAction::Receive));
    let (forwarding, action) = step(forwarding, ForwardEvent::Received(Some(vec![0xff, b'{'])));
    assert!(matches!(action, ForwardAction::Stdin(StdinMessage::Resize(b)) if b == b"{"));
    let (forwarding, action) = step(forwarding, ForwardEvent::NoDimensions);
    assert!(matches!(action, ForwardAction::Receive));
    let (forwarding, action) = step(forwarding, ForwardEvent::Stdout(Ok(b"out".to_vec())));
    assert!(matches!(action, ForwardAction::SendOutput(frame) if frame == framed(b"out")));
    let (forwarding, action) = step(forwarding, ForwardEvent::OutputSent(true));
    assert!(matches!(action, ForwardAction::ReadStdout));
    assert!(matches!(forwarding, TerminalForwarding::Running(_)));
}

#[test]
fn one_direction_stops_the_other() {
    // The channel ends.
    let (forwarding, action) = step(running(), ForwardEvent::Received(None));
    assert!(matches!(action, ForwardAction::Stop { cancel: Some(Token::Session), finish: false }));
    assert!(matches!(forwarding, TerminalForwarding::Running(Sides { session_cancelled: true, .. })));
    let (forwarding, action) = step(forwarding, ForwardEvent::WriteCancelled(Token::Session));
    assert!(matches!(action, ForwardAction::Stop { cancel: None, finish: true }));
    assert!(matches!(forwarding, TerminalForwarding::Done));

    // The terminal takes no input.
    let (forwarding, _) = step(running(), ForwardEvent::Received(Some(vec![1])));
    let (_, action) = step(forwarding, ForwardEvent::StdinSent(false));
    assert!(matches!(action, ForwardAction::Stop { cancel: Some(Token::Terminal), finish: false }));

    // The output cannot be sent.
    let (forwarding, _) = step(running(), ForwardEvent::Stdout(Ok(vec![1])));
    let (_, action) = step(forwarding, ForwardEvent::OutputSent(false));
    assert!(matches!(action, ForwardAction::Stop { cancel: Some(Token::Session), finish: false }));

    // The output cannot be read.
    let (forwarding, action) = step(running(), ForwardEvent::Stdout(Err("gone".to_string())));
    assert!(matches!(action, ForwardAction::SendOutput(frame) if frame == framed(b"ERROR: gone")));
    let (forwarding, action) = step(forwarding, ForwardEvent::OutputSent(true));
    assert!(matches!(action, ForwardAction::Stop { cancel: Some(Token::Terminal), finish: false }));
    let (_, action) = step(forwarding, ForwardEvent::ReadCancelled(Token::Terminal));
    assert!(matches!(action, ForwardAction::Stop { cancel: None, finish: true }));
}

#[test]
fn stream_of_a_response() {
    let stream = ReceiverStream { id: id() };
    assert!(matches!(stream.poll_next(Some(framed(b"line\n"))), StreamItem::Data(data) if data == b"line\n"));
    assert!(matches!(stream.poll_next(Some(vec![1])), StreamItem::Error(FrameError::TooShort)));
    assert!(matches!(
        stream.poll_next(Some(framed(END_OF_OUTPUT.as_bytes()))),
        StreamItem::End { remove } if remove == id()
    ));
    assert!(matches!(stream.poll_next(None), StreamItem::End { remove } if remove == id()));
    assert!(matches!(stream.poll_next(Some(framed(b""))), StreamItem::Data(data) if data.is_empty()));
}

/// What a stream gives of a command whose terminal prints `lines`, and whether it
/// closed.
fn streamed(lines: &[&str], exits: bool) -> (String, bool) {
    let stream = ReceiverStream { id: id() };
    let mut output = String::new();
    let mut lines: Vec<Option<String>> = lines.iter().map(|line| Some(line.to_string())).collect();
    if exits {
        lines.push(None);
    }
    for line in lines {
        let event = ResponseEvent::Line(line.map(Ok));
        let frame = match forward_execute_command_on_terminal_response(id(), event) {
            ResponseAction::Send(frame) | ResponseAction::End { frame, .. } => frame,
            _ => panic!(),
        };
        match stream.poll_next(Some(frame)) {
            StreamItem::Data(data) => output.push_str(&String::from_utf8(data).unwrap()),
            StreamItem::End { remove } => {
                assert_eq!(remove, id());
                return (output, true);
            }
            StreamItem::Error(_) => panic!(),
        }
    }
    (output, false)
}

#[test]
fn stream_closes_with_its_command() {
    assert_eq!(
        streamed(&["hello", "", "__KOMODO_EXIT_CODE:0", END_OF_OUTPUT], false),
        ("hello\n\n__KOMODO_EXIT_CODE:0\n".to_string(), true)
    );
    assert_eq!(streamed(&["hello"], false), ("hello\n".to_string(), false));
    // The terminal exits in the middle of the command.
    assert_eq!(streamed(&["hello"], true), ("hello\n".to_string(), true));
}

#[test]
fn exchange_with_a_user() {
    let exchange = Exchange::new();
    let (exchange, action) =
        forward_ws_channel(exchange, id(), ExchangeEvent::User(UserMessage::Binary(vec![0, 1])));
    let ExchangeAction::SendPeriphery(frame) = action else { panic!() };
    assert_eq!(frame, framed(&[0, 1]));
    // What was typed reaches the terminal.
    assert!(matches!(handle_terminal_message(true, frame), Some(StdinMessage::Bytes(b)) if b == vec![1]));
    let (exchange, action) = forward_ws_channel(exchange, id(), ExchangeEvent::PeripherySent(true));
    assert!(matches!(action, ExchangeAction::ReceiveUser));
    let (exchange, action) =
        forward_ws_channel(exchange, id(), ExchangeEvent::User(UserMessage::Text("é".to_string())));
    assert!(matches!(action, ExchangeAction::SendPeriphery(frame) if frame == framed("é".as_bytes())));
    let (exchange, _) = forward_ws_channel(exchange, id(), ExchangeEvent::PeripherySent(true));
    let (exchange, action) = forward_ws_channel(exchange, id(), ExchangeEvent::User(UserMessage::Other));
    assert!(matches!(action, ExchangeAction::ReceiveUser));
    let (exchange, action) = forward_ws_channel(exchange, id(), ExchangeEvent::Channel(Some(framed(b"out"))));
    assert!(matches!(action, ExchangeAction::SendUser(data) if data == b"out"));
    let (exchange, action) = forward_ws_channel(exchange, id(), ExchangeEvent::UserSent(true));
    assert!(matches!(action, ExchangeAction::ReceiveChannel));
    let (exchange, action) = forward_ws_channel(exchange, id(), ExchangeEvent::Channel(Some(vec![1])));
    assert!(matches!(action, ExchangeAction::ReceiveChannel));
    assert_eq!(exchange, Exchange::new());
}

#[test]
fn exchange_ends_with_a_disconnect() {
    for message in [UserMessage::Close, UserMessage::Failed, UserMessage::End] {
        let (exchange, action) = forward_ws_channel(Exchange::new(), id(), ExchangeEvent::User(message));
        assert!(matches!(action, ExchangeAction::Stop { cancel: true, disconnect: None }));
        let (_, action) = forward_ws_channel(exchange, id(), ExchangeEvent::ToUserCancelled);
        assert!(matches!(action, ExchangeAction::Stop { cancel: false, disconnect: Some(other) } if other == id()));
    }
    let (exchange, action) = forward_ws_channel(Exchange::new(), id(), ExchangeEvent::Channel(None));
    assert!(matches!(action, ExchangeAction::SendEof));
    assert_eq!(STREAM_EOF, "STREAM EOF");
    let (exchange, action) = forward_ws_channel(exchange, id(), ExchangeEvent::UserSent(true));
    assert!(matches!(action, ExchangeAction::Stop { cancel: true, disconnect: None }));
    let (_, action) = forward_ws_channel(exchange, id(), ExchangeEvent::ToPeripheryCancelled);
    assert!(matches!(action, ExchangeAction::Stop { cancel: false, disconnect: Some(_) }));
    let (exchange, _) =
        forward_ws_channel(Exchange::new(), id(), ExchangeEvent::User(UserMessage::Binary(vec![1])));
    let (_, action) = forward_ws_channel(exchange, id(), ExchangeEvent::PeripherySent(false));
    assert!(matches!(action, ExchangeAction::Stop { cancel: true, disconnect: None }));
}

#[test]
fn incoming_frames_are_sorted() {
    assert!(matches!(handle_incoming_bytes(vec![1; 16]), Incoming::Invalid));
    let request = to_transport_bytes(b"{}".to_vec(), id(), MessageState::Request);
    assert!(matches!(
        handle_incoming_bytes(request.clone()),
        Incoming::Request { id: other, bytes } if other == id() && bytes == request
    ));
    let terminal = framed(b"x");
    assert!(matches!(
        handle_incoming_bytes(terminal.clone()),
        Incoming::Terminal { id: other, bytes } if other == id() && bytes == terminal
    ));
    for state in [MessageState::Successful, MessageState::Failed, MessageState::InProgress] {
        assert!(matches!(handle_incoming_bytes(to_transport_bytes(vec![1], id(), state)), Incoming::Ignored));
    }
}

#[test]
fn requests_are_handled() {
    let handle = |handling, event| handle_request(handling, id(), event);
    let (start, resolving) = (RequestHandling::Start, RequestHandling::Resolving);
    let request = to_transport_bytes(b"{}".to_vec(), id(), MessageState::Request);
    let (handling, action) = handle(start, HandleEvent::Frame(request));
    assert!(matches!(action, HandleAction::Parse(data) if data == b"{}"));
    assert!(matches!(handle(handling, HandleEvent::Parsed(true)), (RequestHandling::Resolving, HandleAction::Resolve)));
    assert!(matches!(handle(handling, HandleEvent::Parsed(false)), (RequestHandling::Done, HandleAction::Drop)));
    let empty = to_transport_bytes(vec![], id(), MessageState::Request);
    assert!(matches!(handle(start, HandleEvent::Frame(empty)), (RequestHandling::Done, HandleAction::Drop)));
    assert!(matches!(handle(start, HandleEvent::Frame(vec![1])), (RequestHandling::Done, HandleAction::Drop)));
    assert!(matches!(
        handle(resolving, HandleEvent::Resolved(Resolved::Response(b"ok".to_vec()))),
        (RequestHandling::Done, HandleAction::Respond(frame))
            if frame == to_transport_bytes(b"ok".to_vec(), id(), MessageState::Successful)
    ));
    for resolved in [Resolved::Error(b"no".to_vec()), Resolved::Unserializable(b"no".to_vec())] {
        assert!(matches!(
            handle(resolving, HandleEvent::Resolved(resolved)),
            (RequestHandling::Done, HandleAction::Respond(frame))
                if frame == to_transport_bytes(b"no".to_vec(), id(), MessageState::Failed)
        ));
    }
    assert!(matches!(
        handle(resolving, HandleEvent::Ping),
        (RequestHandling::Resolving, HandleAction::SendPing(frame))
            if frame == to_transport_bytes(vec![], id(), MessageState::InProgress)
    ));
    assert_eq!(PING_SECONDS, 5);
}

#[test]
fn one_response_and_then_nothing() {
    let events = vec![
        HandleEvent::Frame(to_transport_bytes(b"{}".to_vec(), id(), MessageState::Request)),
        HandleEvent::Parsed(true),
        HandleEvent::Ping,
        HandleEvent::Ping,
        HandleEvent::Resolved(Resolved::Response(b"ok".to_vec())),
    ];
    let mut handling = RequestHandling::Start;
    let mut frames = Vec::new();
    for event in events {
        assert_ne!(handling, RequestHandling::Done);
        let (next, action) = handle_request(handling, id(), event);
        handling = next;
        if let HandleAction::SendPing(frame) | HandleAction::Respond(frame) = action {
            frames.push(frame);
        }
    }
    assert_eq!(handling, RequestHandling::Done);
    let ping = to_transport_bytes(vec![], id(), MessageState::InProgress);
    let response = to_transport_bytes(b"ok".to_vec(), id(), MessageState::Successful);
    assert_eq!(frames, vec![ping.clone(), ping, response]);
}

#[test]
fn terminal_messages() {
    assert!(matches!(
        handle_terminal_message(true, framed(&[0xff, 5])),
        Some(StdinMessage::Resize(b)) if b == vec![5]
    ));
    assert!(matches!(
        handle_terminal_message(true, framed(&[1, 5])),
        Some(StdinMessage::Bytes(b)) if b == vec![1, 5]
    ));
    assert!(handle_terminal_message(true, framed(&[])).is_none());
    assert!(handle_terminal_message(true, vec![1]).is_none());
    assert!(handle_terminal_message(false, framed(&[1])).is_none());
    assert_eq!(handle_terminal_bytes(true, framed(&[1, 5])), Some(vec![1, 5]));
    assert_eq!(handle_terminal_bytes(true, framed(&[])), Some(vec![]));
    assert_eq!(handle_terminal_bytes(true, vec![1]), None);
    assert_eq!(handle_terminal_bytes(false, framed(&[1])), None);
}

fn sent(action: UserLoginAction) -> String {
    match action {
        UserLoginAction::Send(text) => text,
        _ => panic!(),
    }
}

#[test]
fn users_log_in() {
    let (login, action) = user_ws_login::<u8>(
        UserLogin::Receiving,
        UserLoginEvent::Received(FirstMessage::Text("{..}".to_string())),
    );
    assert!(matches!(action, UserLoginAction::Parse(text) if text == "{..}"));
    let (login, action) =
        user_ws_login(login, UserLoginEvent::Parsed(Ok(WsLoginMessage::Jwt { jwt: "j".to_string() })));
    assert!(matches!(action, UserLoginAction::CheckJwt(jwt) if jwt == "j"));
    let (login, action) = user_ws_login(login, UserLoginEvent::Checked(Ok(5)));
    assert_eq!(sent(action), "LOGGED_IN");
    let (login, action) = user_ws_login(login, UserLoginEvent::Sent);
    assert!(matches!(action, UserLoginAction::Finish));
    assert!(matches!(login, UserLogin::Done(Some(5))));
}

#[test]
fn users_are_refused() {
    let first = |message| sent(user_ws_login::<u8>(UserLogin::Receiving, UserLoginEvent::Received(message)).1);
    assert_eq!(first(FirstMessage::Other("Ping".to_string())), "invalid login message: Ping");
    assert_eq!(first(FirstMessage::Failed("io".to_string())), "failed to get login message: io");
    assert_eq!(first(FirstMessage::End), "failed to get login message");
    let (login, action) = user_ws_login::<u8>(UserLogin::Parsing, UserLoginEvent::Parsed(Err("json".to_string())));
    assert_eq!(sent(action), "failed to parse login message: json");
    let (login, action) = user_ws_login(login, UserLoginEvent::Sent);
    assert!(matches!(action, UserLoginAction::Close));
    let (login, _) = user_ws_login(login, UserLoginEvent::Closed);
    assert!(matches!(login, UserLogin::Done(None)));
    let keys = WsLoginMessage::ApiKeys { key: "k".to_string(), secret: "s".to_string() };
    let (login, action) = user_ws_login::<u8>(UserLogin::Parsing, UserLoginEvent::Parsed(Ok(keys)));
    assert!(matches!(action, UserLoginAction::CheckKeys { key, secret } if key == "k" && secret == "s"));
    let (_, action) = user_ws_login(login, UserLoginEvent::Checked(Err("no".to_string())));
    assert_eq!(sent(action), "failed to authenticate user using api keys | no");
    let (_, action) = user_ws_login::<u8>(UserLogin::CheckingJwt, UserLoginEvent::Checked(Err("no".to_string())));
    assert_eq!(sent(action), "failed to authenticate user using jwt | no");
}

#[test]
fn users_must_be_enabled() {
    assert!(matches!(check_user_valid::<u8, u8>(Ok((1, true))), Ok(1)));
    assert!(matches!(check_user_valid::<u8, u8>(Ok((1, false))), Err(UserError::NotEnabled)));
    assert!(matches!(check_user_valid::<u8, u8>(Err(2)), Err(UserError::Lookup(2))));
}

#[test]
fn container_terminal_of_a_user() {
    let (state, action) =
        handle_container_terminal(ContainerTerminal::FindingPeriphery, ContainerTerminalEvent::Periphery(Ok(())));
    assert!(matches!(action, ContainerTerminalAction::Connect));
    let (done, action) = handle_container_terminal(state, ContainerTerminalEvent::Connected(Ok(id())));
    assert!(matches!(action, ContainerTerminalAction::Forward(other) if other == id()));
    assert_eq!(done, ContainerTerminal::Done);
    let (state, action) =
        handle_container_terminal(state, ContainerTerminalEvent::Connected(Err("no".to_string())));
    assert!(matches!(action, ContainerTerminalAction::Send(text) if text == "ERROR: no"));
    let (state, action) = handle_container_terminal(state, ContainerTerminalEvent::Sent);
    assert!(matches!(action, ContainerTerminalAction::Close));
    let (state, action) = handle_container_terminal(state, ContainerTerminalEvent::Closed);
    assert!(matches!(action, ContainerTerminalAction::Finish));
    assert_eq!(state, ContainerTerminal::Done);
    let (_, action) = handle_container_terminal(
        ContainerTerminal::FindingPeriphery,
        ContainerTerminalEvent::Periphery(Err("none".to_string())),
    );
    assert!(matches!(action, ContainerTerminalAction::Send(text) if text == "ERROR: none"));
}

#[test]
fn containers_of_services() {
    let service = |name: &str, container: Option<&str>| StackService {
        service: name.to_string(),
        container: container.map(|c| c.to_string()),
    };
    let services = vec![service("db", None), service("web", Some("web-1")), service("web", Some("web-2"))];
    assert_eq!(stack_service_container(Some(&services), "web"), Ok("web-1".to_string()));
    assert_eq!(stack_service_container(Some(&services), "db"), Err(StackExecError::NoContainer));
    assert_eq!(stack_service_container(Some(&services), "other"), Err(StackExecError::NoService));
    assert_eq!(stack_service_container(None, "web"), Err(StackExecError::NoStatus));
}

#[test]
fn terminal_requests_of_a_core() {
    let connect = TerminalRequest::ConnectTerminal;
    assert!(matches!(
        connect.step(TerminalRequestEvent::Connection(false)),
        TerminalRequestAction::NoConnection
    ));
    assert!(matches!(connect.step(TerminalRequestEvent::Connection(true)), TerminalRequestAction::Request));
    assert!(matches!(connect.step(TerminalRequestEvent::Response(None)), TerminalRequestAction::Failed));
    assert!(matches!(
        connect.step(TerminalRequestEvent::Response(Some(id()))),
        TerminalRequestAction::Open { id: other, len: 1024 } if other == id()
    ));
    assert!(matches!(
        TerminalRequest::ExecuteTerminal.step(TerminalRequestEvent::Response(Some(id()))),
        TerminalRequestAction::Open { len: 1000, .. }
    ));
}
