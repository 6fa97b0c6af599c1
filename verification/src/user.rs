//! What a core does for a user who connects: the login, and the way to a
//! terminal.

use vstd::prelude::*;
use crate::text;
use uuid::Uuid;

verus! {

/// What a user is told who logged in.
pub const LOGGED_IN: &'static str = "LOGGED_IN";

/// The message with which a user logs in.
pub enum WsLoginMessage {
    /// Login using a jwt
    Jwt { jwt: String },
    /// login using api keys
    ApiKeys { key: String, secret: String },
}

/// How far the login of a user is. `U` is a user.
pub enum UserLogin<U> {
    Receiving,
    Parsing,
    CheckingJwt,
    CheckingKeys,
    /// The user is told that the login succeeded.
    Accepting(U),
    /// The user is told why the login failed.
    Refusing,
    Closing,
    Done(Option<U>),
}

/// What came as the first message of a user.
pub enum FirstMessage {
    Text(String),
    /// Some other message, printed.
    Other(String),
    /// The error with which none could be received, printed.
    Failed(String),
    /// The socket ended.
    End,
}

/// What happened in the login of a user.
pub enum UserLoginEvent<U> {
    Received(FirstMessage),
    /// The message, or the error with which it could not be parsed, printed.
    Parsed(Result<WsLoginMessage, String>),
    /// The user, or the error with which they were not authenticated, printed.
    Checked(Result<U, String>),
    /// The message was sent, or could not be.
    Sent,
    Closed,
}

/// What is to be done next in the login of a user.
pub enum UserLoginAction {
    /// Parse the login message.
    Parse(String),
    /// Authenticate the user with a jwt.
    CheckJwt(String),
    /// Authenticate the user with api keys.
    CheckKeys { key: String, secret: String },
    /// Send a message.
    Send(String),
    /// Close the socket.
    Close,
    /// The login is over.
    Finish,
}

/// The contents of a `UserLoginAction`.
pub enum UserLoginActionView {
    Parse(Seq<char>),
    CheckJwt(Seq<char>),
    CheckKeys { key: Seq<char>, secret: Seq<char> },
    Send(Seq<char>),
    Close,
    Finish,
}

impl View for UserLoginAction {
    type V = UserLoginActionView;

    open spec fn view(&self) -> UserLoginActionView {
        match self {
            UserLoginAction::Parse(text) => UserLoginActionView::Parse(text@),
            UserLoginAction::CheckJwt(jwt) => UserLoginActionView::CheckJwt(jwt@),
            UserLoginAction::CheckKeys { key, secret } => UserLoginActionView::CheckKeys {
                key: key@,
                secret: secret@,
            },
            UserLoginAction::Send(text) => UserLoginActionView::Send(text@),
            UserLoginAction::Close => UserLoginActionView::Close,
            UserLoginAction::Finish => UserLoginActionView::Finish,
        }
    }
}

impl<U> UserLogin<U> {
    /// Whether the login waits for `event`.
    pub open spec fn expects(self, event: UserLoginEvent<U>) -> bool {
        match self {
            UserLogin::Receiving => event is Received,
            UserLogin::Parsing => event is Parsed,
            UserLogin::CheckingJwt => event is Checked,
            UserLogin::CheckingKeys => event is Checked,
            UserLogin::Accepting(_) => event is Sent,
            UserLogin::Refusing => event is Sent,
            UserLogin::Closing => event is Closed,
            UserLogin::Done(_) => false,
        }
    }
}

/// The user is told why the login failed.
pub open spec fn refused<U>(message: Seq<char>) -> (UserLogin<U>, UserLoginActionView) {
    (UserLogin::Refusing, UserLoginActionView::Send(message))
}

/// What becomes of the login of a user, and what is to be done.
pub open spec fn user_login_step<U>(login: UserLogin<U>, event: UserLoginEvent<U>) -> (
    UserLogin<U>,
    UserLoginActionView,
) {
    match event {
        UserLoginEvent::Received(FirstMessage::Text(text)) => (
            UserLogin::Parsing,
            UserLoginActionView::Parse(text@),
        ),
        UserLoginEvent::Received(FirstMessage::Other(message)) => refused("invalid login message: "@ + message@),
        UserLoginEvent::Received(FirstMessage::Failed(e)) => refused("failed to get login message: "@ + e@),
        UserLoginEvent::Received(FirstMessage::End) => refused("failed to get login message"@),
        UserLoginEvent::Parsed(Ok(WsLoginMessage::Jwt { jwt })) => (
            UserLogin::CheckingJwt,
            UserLoginActionView::CheckJwt(jwt@),
        ),
        UserLoginEvent::Parsed(Ok(WsLoginMessage::ApiKeys { key, secret })) => (
            UserLogin::CheckingKeys,
            UserLoginActionView::CheckKeys { key: key@, secret: secret@ },
        ),
        UserLoginEvent::Parsed(Err(e)) => refused("failed to parse login message: "@ + e@),
        UserLoginEvent::Checked(Ok(user)) => (UserLogin::Accepting(user), UserLoginActionView::Send(LOGGED_IN@)),
        UserLoginEvent::Checked(Err(e)) => if login is CheckingJwt {
            refused("failed to authenticate user using jwt | "@ + e@)
        } else {
            refused("failed to authenticate user using api keys | "@ + e@)
        },
        UserLoginEvent::Sent => match login {
            UserLogin::Accepting(user) => (UserLogin::Done(Some(user)), UserLoginActionView::Finish),
            _ => (UserLogin::Closing, UserLoginActionView::Close),
        },
        UserLoginEvent::Closed => (UserLogin::Done(None), UserLoginActionView::Finish),
    }
}

fn refuse<U>(text: &str, detail: &str) -> (r: (UserLogin<U>, UserLoginAction))
    ensures
        (r.0, r.1@) == refused::<U>(text@ + detail@),
{
    (UserLogin::Refusing, UserLoginAction::Send(text::concat(text, detail)))
}

/// Takes the login of a user one step further.
pub fn user_ws_login<U>(login: UserLogin<U>, event: UserLoginEvent<U>) -> (r: (UserLogin<U>, UserLoginAction))
    requires
        login.expects(event),
    ensures
        (r.0, r.1@) == user_login_step(login, event),
{
    match event {
        UserLoginEvent::Received(FirstMessage::Text(text)) => (UserLogin::Parsing, UserLoginAction::Parse(text)),
        UserLoginEvent::Received(FirstMessage::Other(message)) => refuse("invalid login message: ", message.as_str()),
        UserLoginEvent::Received(FirstMessage::Failed(e)) => refuse("failed to get login message: ", e.as_str()),
        UserLoginEvent::Received(FirstMessage::End) => (
            UserLogin::Refusing,
            UserLoginAction::Send("failed to get login message".to_owned()),
        ),
        UserLoginEvent::Parsed(Ok(WsLoginMessage::Jwt { jwt })) => (
            UserLogin::CheckingJwt,
            UserLoginAction::CheckJwt(jwt),
        ),
        UserLoginEvent::Parsed(Ok(WsLoginMessage::ApiKeys { key, secret })) => (
            UserLogin::CheckingKeys,
            UserLoginAction::CheckKeys { key, secret },
        ),
        UserLoginEvent::Parsed(Err(e)) => refuse("failed to parse login message: ", e.as_str()),
        UserLoginEvent::Checked(Ok(user)) => (
            UserLogin::Accepting(user),
            UserLoginAction::Send(LOGGED_IN.to_owned()),
        ),
        UserLoginEvent::Checked(Err(e)) => match login {
            UserLogin::CheckingJwt => refuse("failed to authenticate user using jwt | ", e.as_str()),
            _ => refuse("failed to authenticate user using api keys | ", e.as_str()),
        },
        UserLoginEvent::Sent => match login {
            UserLogin::Accepting(user) => (UserLogin::Done(Some(user)), UserLoginAction::Finish),
            _ => (UserLogin::Closing, UserLoginAction::Close),
        },
        UserLoginEvent::Closed => (UserLogin::Done(None), UserLoginAction::Finish),
    }
}

/// Only a user who was authenticated is logged in, and is told so; the socket of
/// any other is closed after they were told why.
pub proof fn law_only_authenticated_users_log_in<U>(login: UserLogin<U>, event: UserLoginEvent<U>)
    requires
        login.expects(event),
    ensures
        user_login_step(login, event).0 matches UserLogin::Done(Some(user)) ==> login == UserLogin::Accepting(user),
        user_login_step(login, event).0 matches UserLogin::Accepting(user) ==> event
            == UserLoginEvent::<U>::Checked(Ok(user)) && user_login_step(login, event).1
            == UserLoginActionView::Send(LOGGED_IN@),
        user_login_step(login, event).0 == UserLogin::<U>::Done(None) ==> login is Closing,
        user_login_step(login, event).0 is Closing ==> login is Refusing && user_login_step(login, event).1
            == UserLoginActionView::Close,
{
}

/// Why a user is not valid. `E` is an error.
pub enum UserError<E> {
    /// The user could not be found.
    Lookup(E),
    /// The user is not enabled.
    NotEnabled,
}

/// Whether a user may go on. `user` is the user with whether they are enabled,
/// if they could be found.
pub fn check_user_valid<U, E>(user: Result<(U, bool), E>) -> (r: Result<U, UserError<E>>)
    ensures
        match user {
            Ok((user, enabled)) => if enabled {
                r == Ok::<U, UserError<E>>(user)
            } else {
                r == Err::<U, UserError<E>>(UserError::NotEnabled)
            },
            Err(e) => r == Err::<U, UserError<E>>(UserError::Lookup(e)),
        },
{
    match user {
        Ok((user, enabled)) => {
            if !enabled {
                return Err(UserError::NotEnabled);
            }
            Ok(user)
        },
        Err(e) => Err(UserError::Lookup(e)),
    }
}

/// How far the way of a user to the terminal of a container is.
#[derive(Debug, Clone, Copy, PartialEq, Eq, Structural)]
pub enum ContainerTerminal {
    FindingPeriphery,
    Connecting,
    Refusing,
    Closing,
    Done,
}

/// What happened on the way to the terminal of a container.
pub enum ContainerTerminalEvent {
    /// The client of the periphery was found, or could not be.
    Periphery(Result<(), String>),
    /// The terminal was connected on a channel, or could not be.
    Connected(Result<Uuid, String>),
    /// The message was sent, or could not be.
    Sent,
    Closed,
}

/// What is to be done next on the way to the terminal of a container.
pub enum ContainerTerminalAction {
    /// Ask the periphery to connect the terminal.
    Connect,
    /// Send a message.
    Send(String),
    /// Close the socket.
    Close,
    /// Exchange messages with the channel.
    Forward(Uuid),
    /// Nothing more.
    Finish,
}

/// The contents of a `ContainerTerminalAction`.
pub enum ContainerTerminalActionView {
    Connect,
    Send(Seq<char>),
    Close,
    Forward(Uuid),
    Finish,
}

impl View for ContainerTerminalAction {
    type V = ContainerTerminalActionView;

    open spec fn view(&self) -> ContainerTerminalActionView {
        match self {
            ContainerTerminalAction::Connect => ContainerTerminalActionView::Connect,
            ContainerTerminalAction::Send(text) => ContainerTerminalActionView::Send(text@),
            ContainerTerminalAction::Close => ContainerTerminalActionView::Close,
            ContainerTerminalAction::Forward(id) => ContainerTerminalActionView::Forward(*id),
            ContainerTerminalAction::Finish => ContainerTerminalActionView::Finish,
        }
    }
}

impl ContainerTerminal {
    /// Whether `event` is waited for.
    pub open spec fn expects(self, event: ContainerTerminalEvent) -> bool {
        match self {
            ContainerTerminal::FindingPeriphery => event is Periphery,
            ContainerTerminal::Connecting => event is Connected,
            ContainerTerminal::Refusing => event is Sent,
            ContainerTerminal::Closing => event is Closed,
            ContainerTerminal::Done => false,
        }
    }
}

/// What becomes of the way to the terminal of a container, and what is to be
/// done.
pub open spec fn container_terminal_step(event: ContainerTerminalEvent) -> (
    ContainerTerminal,
    ContainerTerminalActionView,
) {
    match event {
        ContainerTerminalEvent::Periphery(Ok(())) => (
            ContainerTerminal::Connecting,
            ContainerTerminalActionView::Connect,
        ),
        ContainerTerminalEvent::Periphery(Err(e)) => (
            ContainerTerminal::Refusing,
            ContainerTerminalActionView::Send("ERROR: "@ + e@),
        ),
        ContainerTerminalEvent::Connected(Ok(id)) => (
            ContainerTerminal::Done,
            ContainerTerminalActionView::Forward(id),
        ),
        ContainerTerminalEvent::Connected(Err(e)) => (
            ContainerTerminal::Refusing,
            ContainerTerminalActionView::Send("ERROR: "@ + e@),
        ),
        ContainerTerminalEvent::Sent => (ContainerTerminal::Closing, ContainerTerminalActionView::Close),
        ContainerTerminalEvent::Closed => (ContainerTerminal::Done, ContainerTerminalActionView::Finish),
    }
}

/// Takes the way to the terminal of a container one step further.
pub fn handle_container_terminal(state: ContainerTerminal, event: ContainerTerminalEvent) -> (r: (
    ContainerTerminal,
    ContainerTerminalAction,
))
    requires
        state.expects(event),
    ensures
        (r.0, r.1@) == container_terminal_step(event),
{
    match event {
        ContainerTerminalEvent::Periphery(Ok(())) => (
            ContainerTerminal::Connecting,
            ContainerTerminalAction::Connect,
        ),
        ContainerTerminalEvent::Periphery(Err(e)) => (
            ContainerTerminal::Refusing,
            ContainerTerminalAction::Send(text::concat("ERROR: ", e.as_str())),
        ),
        ContainerTerminalEvent::Connected(Ok(id)) => (
            ContainerTerminal::Done,
            ContainerTerminalAction::Forward(id),
        ),
        ContainerTerminalEvent::Connected(Err(e)) => (
            ContainerTerminal::Refusing,
            ContainerTerminalAction::Send(text::concat("ERROR: ", e.as_str())),
        ),
        ContainerTerminalEvent::Sent => (ContainerTerminal::Closing, ContainerTerminalAction::Close),
        ContainerTerminalEvent::Closed => (ContainerTerminal::Done, ContainerTerminalAction::Finish),
    }
}

/// A service of a stack, with the name of its container, if it has one.
pub struct StackService {
    pub service: String,
    pub container: Option<String>,
}

/// Why no command can be executed in a service of a stack.
#[derive(Debug, Clone, Copy, PartialEq, Eq, Structural)]
pub enum StackExecError {
    /// Could not get stack status.
    NoStatus,
    /// Could not find service.
    NoService,
    /// Could not find service container.
    NoContainer,
}

/// Whether service number `i` is the first that is called `name`.
pub open spec fn is_first_service(services: Seq<StackService>, name: Seq<char>, i: int) -> bool {
    &&& 0 <= i < services.len()
    &&& services[i].service@ == name
    &&& forall|j: int| 0 <= j < i ==> (#[trigger] services[j]).service@ != name
}

/// The container of a service of a stack, whose status has `services`.
pub fn stack_service_container(services: Option<&Vec<StackService>>, name: &str) -> (r: Result<
    String,
    StackExecError,
>)
    ensures
        services is None ==> r == Err::<String, StackExecError>(StackExecError::NoStatus),
        services matches Some(services) ==> {
            &&& r == Err::<String, StackExecError>(StackExecError::NoService) <==> forall|i: int|
                0 <= i < services@.len() ==> (#[trigger] services@[i]).service@ != name@
            &&& forall|i: int| #[trigger]
                is_first_service(services@, name@, i) ==> match services@[i].container {
                    Some(container) => r matches Ok(found) && found@ == container@,
                    None => r == Err::<String, StackExecError>(StackExecError::NoContainer),
                }
        },
{
    let list: &Vec<StackService> = match services {
        Some(list) => list,
        None => return Err(StackExecError::NoStatus),
    };
    let mut i: usize = 0;
    while i < list.len()
        invariant
            i <= list@.len(),
            services == Some(list),
            forall|j: int| 0 <= j < i ==> (#[trigger] list@[j]).service@ != name@,
        decreases list@.len() - i,
    {
        if text::same(list[i].service.as_str(), name) {
            proof {
                assert forall|k: int| #[trigger] is_first_service(list@, name@, k) implies k == i by {
                    if i < k {
                        assert(list@[i as int].service@ == name@);
                    }
                }
            }
            return match &list[i].container {
                Some(container) => Ok(container.as_str().to_owned()),
                None => Err(StackExecError::NoContainer),
            };
        }
        i = i + 1;
    }
    Err(StackExecError::NoService)
}

/// The requests with which a core gets at a terminal.
#[derive(Debug, Clone, Copy, PartialEq, Eq, Structural)]
pub enum TerminalRequest {
    ConnectTerminal,
    ConnectContainerExec,
    ExecuteTerminal,
    ExecuteContainerExec,
}

/// What happened to the request with which a core gets at a terminal.
#[derive(Debug, Clone, Copy)]
pub enum TerminalRequestEvent {
    /// Whether the server has a connection.
    Connection(bool),
    /// The channel that the periphery opened, if it did.
    Response(Option<Uuid>),
}

/// What is to be done next to get at a terminal.
#[derive(Debug, Clone, Copy)]
pub enum TerminalRequestAction {
    /// No connection found for server.
    NoConnection,
    /// Make the request.
    Request,
    /// The request failed.
    Failed,
    /// Open the channel `id`, which holds `len` messages.
    Open { id: Uuid, len: usize },
}

/// What is to be done to get at a terminal.
pub open spec fn terminal_request_step(request: TerminalRequest, event: TerminalRequestEvent) -> TerminalRequestAction {
    match event {
        TerminalRequestEvent::Connection(false) => TerminalRequestAction::NoConnection,
        TerminalRequestEvent::Connection(true) => TerminalRequestAction::Request,
        TerminalRequestEvent::Response(None) => TerminalRequestAction::Failed,
        TerminalRequestEvent::Response(Some(id)) => TerminalRequestAction::Open {
            id,
            len: if request == TerminalRequest::ConnectTerminal {
                1024
            } else {
                1000
            },
        },
    }
}

impl TerminalRequest {
    /// Gets at a terminal: the connection must be there before the request is
    /// made, and the channel that the periphery opened is opened here too.
    pub fn step(&self, event: TerminalRequestEvent) -> (r: TerminalRequestAction)
        ensures
            r == terminal_request_step(*self, event),
    {
        match event {
            TerminalRequestEvent::Connection(false) => TerminalRequestAction::NoConnection,
            TerminalRequestEvent::Connection(true) => TerminalRequestAction::Request,
            TerminalRequestEvent::Response(None) => TerminalRequestAction::Failed,
            TerminalRequestEvent::Response(Some(id)) => {
                let len: usize = match self {
                    TerminalRequest::ConnectTerminal => 1024,
                    _ => 1000,
                };
                TerminalRequestAction::Open { id, len }
            },
        }
    }
}

/// How the login of a user goes: the first text is parsed, as it came; the jwt
/// or the api keys in it are checked, as they came; a user who was
/// authenticated is told so and is then logged in.
pub proof fn law_users_are_checked_with_what_they_sent<U>(
    login: UserLogin<U>,
    text: String,
    jwt: String,
    key: String,
    secret: String,
    user: U,
)
    ensures
        user_login_step(login, UserLoginEvent::Received(FirstMessage::Text(text))) == (
            UserLogin::<U>::Parsing,
            UserLoginActionView::Parse(text@),
        ),
        user_login_step(login, UserLoginEvent::Parsed(Ok(WsLoginMessage::Jwt { jwt }))) == (
            UserLogin::<U>::CheckingJwt,
            UserLoginActionView::CheckJwt(jwt@),
        ),
        user_login_step(login, UserLoginEvent::Parsed(Ok(WsLoginMessage::ApiKeys { key, secret }))) == (
            UserLogin::<U>::CheckingKeys,
            (UserLoginActionView::CheckKeys { key: key@, secret: secret@ }),
        ),
        user_login_step(login, UserLoginEvent::Checked(Ok(user))) == (
            UserLogin::Accepting(user),
            UserLoginActionView::Send("LOGGED_IN"@),
        ),
        user_login_step(UserLogin::Accepting(user), UserLoginEvent::Sent) == (
            UserLogin::Done(Some(user)),
            UserLoginActionView::Finish,
        ),
{
}

/// A user who cannot log in is told why, in a text of its own for each reason
/// that ends in the error; then the socket is closed, and nobody is logged in.
pub proof fn law_users_are_told_why<U>(login: UserLogin<U>, message: String)
    ensures
        user_login_step(login, UserLoginEvent::Received(FirstMessage::Other(message))) == (
            UserLogin::<U>::Refusing,
            UserLoginActionView::Send("invalid login message: "@ + message@),
        ),
        user_login_step(login, UserLoginEvent::Received(FirstMessage::Failed(message))) == (
            UserLogin::<U>::Refusing,
            UserLoginActionView::Send("failed to get login message: "@ + message@),
        ),
        user_login_step(login, UserLoginEvent::Received(FirstMessage::End)) == (
            UserLogin::<U>::Refusing,
            UserLoginActionView::Send("failed to get login message"@),
        ),
        user_login_step(login, UserLoginEvent::Parsed(Err(message))) == (
            UserLogin::<U>::Refusing,
            UserLoginActionView::Send("failed to parse login message: "@ + message@),
        ),
        user_login_step(UserLogin::CheckingJwt, UserLoginEvent::Checked(Err::<U, String>(message))) == (
            UserLogin::<U>::Refusing,
            UserLoginActionView::Send("failed to authenticate user using jwt | "@ + message@),
        ),
        user_login_step(UserLogin::CheckingKeys, UserLoginEvent::Checked(Err::<U, String>(message))) == (
            UserLogin::<U>::Refusing,
            UserLoginActionView::Send("failed to authenticate user using api keys | "@ + message@),
        ),
        user_login_step(UserLogin::<U>::Refusing, UserLoginEvent::Sent) == (
            UserLogin::<U>::Closing,
            UserLoginActionView::Close,
        ),
        user_login_step(login, UserLoginEvent::Closed) == (UserLogin::<U>::Done(None), UserLoginActionView::Finish),
{
}

/// The way of a user to the terminal of a container: once the periphery was
/// found, the terminal is connected, and once it was, messages are exchanged on
/// its channel. An error on the way is told, and the socket is closed.
pub proof fn law_way_to_a_container_terminal(id: Uuid, e: String)
    ensures
        container_terminal_step(ContainerTerminalEvent::Periphery(Ok(()))) == (
            ContainerTerminal::Connecting,
            ContainerTerminalActionView::Connect,
        ),
        container_terminal_step(ContainerTerminalEvent::Connected(Ok(id))) == (
            ContainerTerminal::Done,
            ContainerTerminalActionView::Forward(id),
        ),
        container_terminal_step(ContainerTerminalEvent::Periphery(Err(e))) == (
            ContainerTerminal::Refusing,
            ContainerTerminalActionView::Send("ERROR: "@ + e@),
        ),
        container_terminal_step(ContainerTerminalEvent::Connected(Err(e))) == container_terminal_step(
            ContainerTerminalEvent::Periphery(Err(e)),
        ),
        container_terminal_step(ContainerTerminalEvent::Sent) == (
            ContainerTerminal::Closing,
            ContainerTerminalActionView::Close,
        ),
        container_terminal_step(ContainerTerminalEvent::Closed) == (
            ContainerTerminal::Done,
            ContainerTerminalActionView::Finish,
        ),
{
}

/// A core gets at a terminal on the channel that the periphery opened for it,
/// and on no other: a request is made where the server has a connection, and the
/// channel of the response is opened, with room for 1024 messages where a
/// terminal is connected and for 1000 otherwise.
pub proof fn law_core_opens_the_channel_of_the_periphery(request: TerminalRequest, id: Uuid)
    ensures
        terminal_request_step(request, TerminalRequestEvent::Connection(true)) == TerminalRequestAction::Request,
        terminal_request_step(request, TerminalRequestEvent::Connection(false)) == TerminalRequestAction::NoConnection,
        terminal_request_step(request, TerminalRequestEvent::Response(None)) == TerminalRequestAction::Failed,
        terminal_request_step(request, TerminalRequestEvent::Response(Some(id))) == (TerminalRequestAction::Open {
            id,
            len: if request is ConnectTerminal {
                1024usize
            } else {
                1000usize
            },
        }),
{
}

/// The first service of a name is the one before which none has that name; there
/// is at most one.
pub proof fn law_first_service_is_the_only_one(services: Seq<StackService>, name: Seq<char>, i: int, j: int)
    requires
        is_first_service(services, name, i),
    ensures
        0 <= i < services.len() && services[i].service@ == name,
        0 <= j < services.len() && services[j].service@ == name ==> i <= j,
        is_first_service(services, name, j) ==> i == j,
{
    if 0 <= j < i {
        assert(services[j].service@ != name);
    }
    if is_first_service(services, name, j) && i < j {
        assert(services[i].service@ != name);
    }
}

/// The contents of an action tell what it is, and hold all of it.
pub proof fn law_contents_of_a_login_action(action: UserLoginAction)
    ensures
        action is Parse <==> action@ is Parse,
        action is Parse ==> action@->Parse_0 == action->Parse_0@,
        action is CheckJwt <==> action@ is CheckJwt,
        action is CheckJwt ==> action@->CheckJwt_0 == action->CheckJwt_0@,
        action is CheckKeys <==> action@ is CheckKeys,
        action is CheckKeys ==> action@->CheckKeys_key == action->CheckKeys_key@,
        action is CheckKeys ==> action@->CheckKeys_secret == action->CheckKeys_secret@,
        action is Send <==> action@ is Send,
        action is Send ==> action@->Send_0 == action->Send_0@,
        action is Close <==> action@ is Close,
        action is Finish <==> action@ is Finish,
{
}

/// The contents of an action tell what it is, and hold all of it.
pub proof fn law_contents_of_a_terminal_action(action: ContainerTerminalAction)
    ensures
        action is Connect <==> action@ is Connect,
        action is Send <==> action@ is Send,
        action is Send ==> action@->Send_0 == action->Send_0@,
        action is Close <==> action@ is Close,
        action is Forward <==> action@ is Forward,
        action is Forward ==> action@->Forward_0 == action->Forward_0,
        action is Finish <==> action@ is Finish,
{
}

} // verus!
