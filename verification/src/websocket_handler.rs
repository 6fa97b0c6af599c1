//! The handler of a websocket: the login, and the session after it.

use vstd::prelude::*;
use crate::auth;
use crate::auth::LoginAction;
use crate::auth::LoginError;
use crate::auth::LoginEvent;
use crate::auth::LoginFlow;
use crate::auth::LoginView;
use crate::auth::PublicKeyValidator;
use crate::channel::BufferedReceiver;
use crate::connections::PeripheryConnection;
use crate::identifiers::ConnectionIdentifiers;
use crate::noise;
use crate::session;
use crate::session::CancelScope;
use crate::session::Session;
use crate::session::SessionAction;
use crate::session::SessionEvent;
use crate::session::SessionKind;
use crate::session::SessionPolicy;

verus! {

/// The handler of a websocket, which logs in with the flow `L`.
pub enum WebsocketHandler<L> {
    Login(L),
    Running(Session),
    /// The websocket is done with: after a session, or after a login that
    /// failed.
    Done(Option<LoginError>),
}

/// What happened to a websocket.
pub enum HandlerEvent {
    Login(LoginEvent),
    Session(SessionEvent),
}

/// What is to be done next with a websocket.
pub enum HandlerAction {
    /// Go on with the login.
    Login(LoginAction),
    /// The login succeeded: the connection is connected and has no error. Start
    /// both directions of the session.
    Begin,
    /// The login failed.
    Fail(LoginError),
    /// Go on with the session. When it is over, the connection is no longer
    /// connected.
    Session(SessionAction),
}

impl<L: LoginFlow> WebsocketHandler<L> {
    pub open spec fn wf(self, policy: SessionPolicy) -> bool {
        match self {
            WebsocketHandler::Login(flow) => flow.wf() && flow.outcome() is None,
            WebsocketHandler::Running(session) => session.wf(policy) && !session.over,
            WebsocketHandler::Done(_) => true,
        }
    }

    /// Whether the handler waits for `event`.
    pub open spec fn expects(self, event: HandlerEvent) -> bool {
        match (self, event) {
            (WebsocketHandler::Login(flow), HandlerEvent::Login(event)) => flow.expects(event),
            (WebsocketHandler::Running(session), HandlerEvent::Session(event)) => session.expects(event),
            _ => false,
        }
    }

    /// Whether the connection is connected.
    pub open spec fn is_connected(self) -> bool {
        self is Running
    }
}

/// Whether the handler may become `after`, and ask for `action`, when the login
/// flow became `next` and asks for `login_action`.
pub open spec fn login_stepped<L: LoginFlow>(
    next: L,
    login_action: LoginAction,
    after: WebsocketHandler<L>,
    action: HandlerAction,
) -> bool {
    match next.outcome() {
        None => after == WebsocketHandler::Login(next) && action == HandlerAction::Login(login_action),
        Some(None) => after == WebsocketHandler::<L>::Running(Session::fresh()) && action is Begin,
        Some(Some(e)) => after == WebsocketHandler::<L>::Done(Some(e)) && action == HandlerAction::Fail(e),
    }
}

/// Whether the handler may become `after`, and ask for `action`, on `event`.
/// `buffer` is the message that the buffered channel holds back.
pub open spec fn handler_step<L: LoginFlow>(
    before: WebsocketHandler<L>,
    policy: SessionPolicy,
    login: LoginView,
    buffer: Option<Vec<u8>>,
    event: HandlerEvent,
    after: WebsocketHandler<L>,
    action: HandlerAction,
) -> bool {
    match (before, event) {
        (WebsocketHandler::Login(flow), HandlerEvent::Login(event)) => exists|next: L, login_action: LoginAction|
            #[trigger] flow.step(login, event, next, login_action) && login_stepped(next, login_action, after, action),
        (WebsocketHandler::Running(session), HandlerEvent::Session(event)) => {
            let (next, session_action) = session::session_step(policy, session, buffer, event);
            &&& after == (if next.over {
                WebsocketHandler::<L>::Done(None)
            } else {
                WebsocketHandler::<L>::Running(next)
            })
            &&& action matches HandlerAction::Session(a)
            &&& a@ == session_action
        },
        _ => false,
    }
}

/// The message that the buffered channel holds back after `event`.
pub open spec fn handler_buffer(buffer: Option<Vec<u8>>, event: HandlerEvent) -> Option<Vec<u8>> {
    match event {
        HandlerEvent::Login(_) => buffer,
        HandlerEvent::Session(event) => session::next_buffer(buffer, event),
    }
}

impl<L: LoginFlow> WebsocketHandler<L> {
    /// The handler of a websocket on which nothing happened yet.
    pub fn new() -> (r: WebsocketHandler<L>)
        ensures
            r is Login,
            forall|policy: SessionPolicy| r.wf(policy),
            r.expects(HandlerEvent::Login(LoginEvent::Start)),
    {
        WebsocketHandler::Login(L::new())
    }

    /// Takes the handler one step further.
    pub fn handle<V: PublicKeyValidator>(
        self,
        policy: &SessionPolicy,
        connection_identifiers: &ConnectionIdentifiers<'_>,
        private_key: &str,
        public_key_validator: &V,
        write_receiver: &mut BufferedReceiver<Vec<u8>>,
        event: HandlerEvent,
    ) -> (r: (WebsocketHandler<L>, HandlerAction))
        requires
            self.wf(*policy),
            self.expects(event),
            noise::key_fits(private_key@),
            old(write_receiver)@ is Some && (event matches HandlerEvent::Session(e) && e is Next)
                ==> event->Session_0->Next_0 is None,
        ensures
            r.0.wf(*policy),
            handler_step(
                self,
                *policy,
                auth::login_view(*connection_identifiers, private_key@, *public_key_validator),
                old(write_receiver)@,
                event,
                r.0,
                r.1,
            ),
            final(write_receiver)@ == handler_buffer(old(write_receiver)@, event),
    {
        match (self, event) {
            (WebsocketHandler::Login(flow), HandlerEvent::Login(event)) => {
                let ghost login = auth::login_view(*connection_identifiers, private_key@, *public_key_validator);
                let ghost before = flow;
                let (next, action): (L, LoginAction) = flow.login(
                    connection_identifiers,
                    private_key,
                    public_key_validator,
                    event,
                );
                assert(before.step(login, event, next, action));
                match next.result() {
                    None => (WebsocketHandler::Login(next), HandlerAction::Login(action)),
                    Some(Ok(())) => (WebsocketHandler::Running(Session::new(policy)), HandlerAction::Begin),
                    Some(Err(e)) => (WebsocketHandler::Done(Some(e)), HandlerAction::Fail(e)),
                }
            },
            (WebsocketHandler::Running(session), HandlerEvent::Session(event)) => {
                let (next, action): (Session, SessionAction) = policy.handle(session, write_receiver, event);
                if next.over {
                    (WebsocketHandler::Done(None), HandlerAction::Session(action))
                } else {
                    (WebsocketHandler::Running(next), HandlerAction::Session(action))
                }
            },
            (handler, _) => (handler, HandlerAction::Begin),
        }
    }
}

/// A connection becomes connected only by a login that succeeded, and stays
/// connected until its session is over.
pub proof fn law_connected_means_logged_in<L: LoginFlow>(
    before: WebsocketHandler<L>,
    policy: SessionPolicy,
    login: LoginView,
    buffer: Option<Vec<u8>>,
    event: HandlerEvent,
    after: WebsocketHandler<L>,
    action: HandlerAction,
)
    requires
        before.wf(policy),
        handler_step(before, policy, login, buffer, event, after, action),
    ensures
        !before.is_connected() && after.is_connected() ==> exists|flow: L, e: LoginEvent, next: L, a: LoginAction|
            before == WebsocketHandler::Login(flow) && event == HandlerEvent::Login(e) && #[trigger] flow.step(
                login,
                e,
                next,
                a,
            ) && next.outcome() == Some(None::<LoginError>),
        before.is_connected() && !after.is_connected() ==> (action matches HandlerAction::Session(
            SessionAction::Stop { store, close, cancel, over },
        ) && over),
{
    if !before.is_connected() && after.is_connected() {
        let flow = before->Login_0;
        let e = event->Login_0;
        let (next, a) = choose|next: L, a: LoginAction| #[trigger]
            flow.step(login, e, next, a) && login_stepped(next, a, after, action);
        assert(flow.step(login, e, next, a) && next.outcome() == Some(None::<LoginError>));
    }
}

/// Whether `action` stores an error on the connection.
pub open spec fn stores_error(action: HandlerAction) -> bool {
    match action {
        HandlerAction::Session(SessionAction::Read { store }) => store is Some,
        HandlerAction::Session(SessionAction::Stop { store, .. }) => store is Some,
        _ => false,
    }
}

/// The state of a connection after its handler asked for `action`. `error` is
/// the error that it stores, where it stores one.
pub open spec fn connection_after<K, C, E>(
    connection: PeripheryConnection<K, C, E>,
    action: HandlerAction,
    error: Option<E>,
) -> PeripheryConnection<K, C, E> {
    let stored = if stores_error(action) {
        error
    } else {
        connection.error
    };
    match action {
        HandlerAction::Begin => PeripheryConnection { connected: true, error: None, ..connection },
        HandlerAction::Session(SessionAction::Stop { cancel, over, .. }) => PeripheryConnection {
            connected: connection.connected && !over,
            error: stored,
            cancelled: connection.cancelled || cancel == Some(CancelScope::Connection),
            ..connection
        },
        _ => PeripheryConnection { error: stored, ..connection },
    }
}

/// Brings the state of a connection up to what its handler asked for. `error`
/// is the error to store, where the action stores one.
pub fn update_connection<K, C, E>(
    connection: &mut PeripheryConnection<K, C, E>,
    action: &HandlerAction,
    error: Option<E>,
)
    requires
        stores_error(*action) ==> error is Some,
    ensures
        *final(connection) == connection_after(*old(connection), *action, error),
{
    match action {
        HandlerAction::Begin => {
            connection.set_connected(true);
            connection.clear_error();
        },
        HandlerAction::Session(SessionAction::Read { store }) => {
            if let (Some(_), Some(e)) = (store, error) {
                connection.set_error(e);
            }
        },
        HandlerAction::Session(SessionAction::Stop { store, cancel, over, .. }) => {
            if let (Some(_), Some(e)) = (store, error) {
                connection.set_error(e);
            }
            if let Some(CancelScope::Connection) = cancel {
                connection.cancel();
            }
            if *over {
                connection.set_connected(false);
            }
        },
        _ => {},
    }
}

/// Whether a websocket was handled from its login on as told: on each of
/// `events`, the handler asked for the action of the same number, and the
/// handler and the connection became those of the next number.
pub open spec fn is_run<L: LoginFlow, K, C, E>(
    policy: SessionPolicy,
    login: LoginView,
    handlers: Seq<WebsocketHandler<L>>,
    connections: Seq<PeripheryConnection<K, C, E>>,
    buffers: Seq<Option<Vec<u8>>>,
    events: Seq<HandlerEvent>,
    actions: Seq<HandlerAction>,
    errors: Seq<Option<E>>,
) -> bool {
    &&& handlers.len() == events.len() + 1 && connections.len() == events.len() + 1
    &&& buffers.len() == events.len() && actions.len() == events.len() && errors.len() == events.len()
    &&& handlers[0] is Login
    &&& forall|i: int| 0 <= i < handlers.len() ==> (#[trigger] handlers[i]).wf(policy)
    &&& forall|i: int| 0 <= i < events.len() ==> handlers[i].expects(#[trigger] events[i])
    &&& forall|i: int| 0 <= i < events.len() ==> handler_step(
        handlers[i],
        policy,
        login,
        buffers[i],
        #[trigger] events[i],
        handlers[i + 1],
        actions[i],
    )
    &&& forall|i: int| 0 <= i < events.len() ==> connections[i + 1] == connection_after(
        connections[i],
        #[trigger] actions[i],
        errors[i],
    )
}

/// What the handler of a websocket makes of a connection that was `before` when
/// it started.
pub open spec fn is_handled<L, K, C, E>(
    kind: SessionKind,
    before: PeripheryConnection<K, C, E>,
    handler: WebsocketHandler<L>,
    after: PeripheryConnection<K, C, E>,
) -> bool {
    match handler {
        WebsocketHandler::Login(_) => after == before,
        WebsocketHandler::Running(_) => after.connected && (before.cancelled ==> after.cancelled),
        WebsocketHandler::Done(Some(_)) => after == before,
        WebsocketHandler::Done(None) => {
            &&& !after.connected
            &&& after.cancelled == (before.cancelled || kind is ReconnectingClient || kind is PeripheryClient)
        },
    }
}

/// A login that failed leaves its connection as it was. After a session, the
/// connection is not connected, and that of a client is cancelled; a core and a
/// periphery cancel no connection.
pub proof fn law_connection_follows_its_websocket<L: LoginFlow, K, C, E>(
    kind: SessionKind,
    login: LoginView,
    handlers: Seq<WebsocketHandler<L>>,
    connections: Seq<PeripheryConnection<K, C, E>>,
    buffers: Seq<Option<Vec<u8>>>,
    events: Seq<HandlerEvent>,
    actions: Seq<HandlerAction>,
    errors: Seq<Option<E>>,
)
    requires
        is_run(session::policy_of(kind), login, handlers, connections, buffers, events, actions, errors),
    ensures
        is_handled(kind, connections[0], handlers.last(), connections.last()),
{
    lemma_connection_follows(kind, login, handlers, connections, buffers, events, actions, errors, events.len() as int);
}

proof fn lemma_connection_follows<L: LoginFlow, K, C, E>(
    kind: SessionKind,
    login: LoginView,
    handlers: Seq<WebsocketHandler<L>>,
    connections: Seq<PeripheryConnection<K, C, E>>,
    buffers: Seq<Option<Vec<u8>>>,
    events: Seq<HandlerEvent>,
    actions: Seq<HandlerAction>,
    errors: Seq<Option<E>>,
    n: int,
)
    requires
        is_run(session::policy_of(kind), login, handlers, connections, buffers, events, actions, errors),
        0 <= n <= events.len(),
    ensures
        is_handled(kind, connections[0], handlers[n], connections[n]),
        !(kind is ReconnectingClient || kind is PeripheryClient) ==> connections[n].cancelled
            == connections[0].cancelled,
    decreases n,
{
    if n > 0 {
        let i = n - 1;
        lemma_connection_follows(kind, login, handlers, connections, buffers, events, actions, errors, i);
        let event = events[i];
        let action = actions[i];
        assert(handlers[i].wf(session::policy_of(kind)));
        assert(connections[n] == connection_after(connections[i], action, errors[i]));
        match handlers[i] {
            WebsocketHandler::Login(flow) => {
                let (next, a) = choose|next: L, a: LoginAction| #[trigger]
                    flow.step(login, event->Login_0, next, a) && login_stepped(next, a, handlers[n], action);
                assert(login_stepped(next, a, handlers[n], action));
            },
            _ => {},
        }
    }
}

/// What the actions of a handler make of its connection: the start of a session
/// makes it connected and takes its error away; an error that is stored is its
/// error from then on; the end of the session makes it not connected; a direction
/// that cancels the connection makes it cancelled. Nothing else changes, and no
/// action on the socket changes anything.
pub proof fn law_actions_on_a_connection<K, C, E>(
    connection: PeripheryConnection<K, C, E>,
    action: HandlerAction,
    error: Option<E>,
    store: Option<session::SessionError>,
    close: bool,
    cancel: Option<CancelScope>,
    over: bool,
)
    ensures
        connection_after(connection, HandlerAction::Begin, error) == (PeripheryConnection {
            connected: true,
            error: None,
            ..connection
        }),
        connection_after(
            connection,
            HandlerAction::Session(SessionAction::Stop { store, close, cancel, over }),
            error,
        ) == (PeripheryConnection {
            connected: if over {
                false
            } else {
                connection.connected
            },
            error: if store is Some {
                error
            } else {
                connection.error
            },
            cancelled: if cancel == Some(CancelScope::Connection) {
                true
            } else {
                connection.cancelled
            },
            ..connection
        }),
        connection_after(connection, HandlerAction::Session(SessionAction::Read { store }), error) == (
        PeripheryConnection {
            error: if store is Some {
                error
            } else {
                connection.error
            },
            ..connection
        }),
        action is Login || action is Fail ==> connection_after(connection, action, error) == connection,
        action == HandlerAction::Session(SessionAction::Receive) ==> connection_after(connection, action, error)
            == connection,
        (action matches HandlerAction::Session(SessionAction::Send(_))) || (action matches HandlerAction::Session(
            SessionAction::Deliver(_),
        )) ==> connection_after(connection, action, error) == connection,
{
}

/// A handler first logs in, then runs one session, and is then done. It follows
/// its login flow step by step; where the login succeeded, it starts a session in
/// which nothing happened yet; where it failed, it fails with that error. It
/// follows its session step by step, and is done when the session is over. Only
/// the session touches the buffer.
pub proof fn law_handler_logs_in_then_runs<L: LoginFlow>(
    before: WebsocketHandler<L>,
    policy: SessionPolicy,
    login: LoginView,
    buffer: Option<Vec<u8>>,
    event: HandlerEvent,
    after: WebsocketHandler<L>,
    action: HandlerAction,
)
    requires
        handler_step(before, policy, login, buffer, event, after, action),
    ensures
        before is Login ==> event is Login && exists|next: L, a: LoginAction|
            {
                &&& #[trigger] before->Login_0.step(login, event->Login_0, next, a)
                &&& next.outcome() is None ==> after == WebsocketHandler::Login(next) && action
                    == HandlerAction::Login(a)
                &&& next.outcome() == Some(None::<LoginError>) ==> after == WebsocketHandler::<L>::Running(
                    Session {
                        write: session::WritePhase::Waiting,
                        read: session::ReadPhase::Waiting,
                        cancelled: false,
                        over: false,
                    },
                ) && action is Begin
                &&& next.outcome() matches Some(Some(e)) ==> after == WebsocketHandler::<L>::Done(Some(e)) && action
                    == HandlerAction::Fail(e)
            },
        before is Running ==> {
            let (next, asked) = session::session_step(policy, before->Running_0, buffer, event->Session_0);
            &&& event is Session
            &&& next.over ==> after == WebsocketHandler::<L>::Done(None)
            &&& !next.over ==> after == WebsocketHandler::<L>::Running(next)
            &&& action is Session
            &&& action->Session_0@ == asked
        },
        !(before is Done),
        event is Login ==> handler_buffer(buffer, event) == buffer,
        event matches HandlerEvent::Session(e) ==> handler_buffer(buffer, event) == session::next_buffer(buffer, e),
{
    if before is Login {
        let flow = before->Login_0;
        let (next, a) = choose|next: L, a: LoginAction| #[trigger]
            flow.step(login, event->Login_0, next, a) && login_stepped(next, a, after, action);
        assert(flow.step(login, event->Login_0, next, a));
    }
}

} // verus!
