//! The connections of a core to its peripheries.

use vstd::prelude::*;
use crate::address::fix_ws_address;
use crate::address;
use crate::auth::InvalidPublicKey;
use crate::auth::PublicKeyValidator;
use crate::text;
use crate::text_map::TextMap;

verus! {

/// The state of a connection. `L` is the link that bytes are sent on and that
/// is cancelled, `C` holds the channels that bytes from the periphery go to,
/// and `E` is an error.
pub struct PeripheryConnection<L, C, E> {
    /// Specify outbound connection address.
    /// Inbound connections have this as None
    pub address: Option<String>,
    /// Whether Periphery is currently connected.
    pub connected: bool,
    /// Stores latest connection error
    pub error: Option<E>,
    /// Whether the connection was cancelled.
    pub cancelled: bool,
    pub link: L,
    /// Must be maintained if new connection replaces old
    /// at the same server id.
    pub channels: C,
}

impl<L, C, E> PeripheryConnection<L, C, E> {
    pub fn new(address: Option<String>, link: L, channels: C) -> (r: PeripheryConnection<L, C, E>)
        ensures
            r == (PeripheryConnection::<L, C, E> {
                address,
                connected: false,
                error: None,
                cancelled: false,
                link,
                channels,
            }),
    {
        PeripheryConnection { address, connected: false, error: None, cancelled: false, link, channels }
    }

    pub fn set_connected(&mut self, connected: bool)
        ensures
            *final(self) == (PeripheryConnection { connected, ..*old(self) }),
    {
        self.connected = connected;
    }

    pub fn connected(&self) -> (r: bool)
        ensures
            r == self.connected,
    {
        self.connected
    }

    pub fn error(&self) -> (r: &Option<E>)
        ensures
            *r == self.error,
    {
        &self.error
    }

    pub fn set_error(&mut self, e: E)
        ensures
            *final(self) == (PeripheryConnection { error: Some(e), ..*old(self) }),
    {
        self.error = Some(e);
    }

    pub fn clear_error(&mut self)
        ensures
            *final(self) == (PeripheryConnection { error: None, ..*old(self) }),
    {
        self.error = None;
    }

    pub fn cancel(&mut self)
        ensures
            *final(self) == (PeripheryConnection { cancelled: true, ..*old(self) }),
    {
        self.cancelled = true;
    }

    /// One of the polls that a request makes before it gives up on a
    /// connection. `poll` counts them from 0.
    pub fn bail_if_not_connected(&self, poll: u8) -> (r: ConnectedPoll)
        ensures
            r == poll_outcome(self.connected, poll, self.error is Some),
    {
        if self.connected {
            return ConnectedPoll::Connected;
        }
        if poll < 2 {
            return ConnectedPoll::Sleep { seconds: 1 };
        }
        if self.error.is_some() {
            ConnectedPoll::StoredError
        } else {
            ConnectedPoll::NotConnected
        }
    }
}

/// What a poll of a connection comes to.
#[derive(Debug, Clone, Copy, PartialEq, Eq, Structural)]
pub enum ConnectedPoll {
    /// The periphery is connected.
    Connected,
    /// Sleep, then poll again.
    Sleep { seconds: u64 },
    /// Give up, with the error that the connection stores.
    StoredError,
    /// Give up: the server is not currently connected.
    NotConnected,
}

/// What poll number `poll` of a connection comes to.
pub open spec fn poll_outcome(connected: bool, poll: u8, has_error: bool) -> ConnectedPoll {
    if connected {
        ConnectedPoll::Connected
    } else if poll < 2 {
        ConnectedPoll::Sleep { seconds: 1 }
    } else if has_error {
        ConnectedPoll::StoredError
    } else {
        ConnectedPoll::NotConnected
    }
}

/// A request polls a connection at most three times, one second apart: it gives
/// up with the third poll that finds it not connected, and goes on with the
/// first that finds it connected.
pub proof fn law_three_polls(connected: Seq<bool>, has_error: bool)
    requires
        connected.len() == 3,
    ensures
        forall|i: int| 0 <= i < 3 ==> (#[trigger] connected[i] <==> poll_outcome(connected[i], i as u8, has_error)
            == ConnectedPoll::Connected),
        !connected[0] ==> poll_outcome(connected[0], 0, has_error) == (ConnectedPoll::Sleep { seconds: 1 }),
        !connected[1] ==> poll_outcome(connected[1], 1, has_error) == (ConnectedPoll::Sleep { seconds: 1 }),
        !connected[2] ==> poll_outcome(connected[2], 2, has_error) == (if has_error {
            ConnectedPoll::StoredError
        } else {
            ConnectedPoll::NotConnected
        }),
{
}

/// The connections of a core, by server id.
pub struct PeripheryConnections<L, C, E> {
    map: TextMap<PeripheryConnection<L, C, E>>,
}

impl<L, C, E> View for PeripheryConnections<L, C, E> {
    type V = Map<Seq<char>, PeripheryConnection<L, C, E>>;

    closed spec fn view(&self) -> Map<Seq<char>, PeripheryConnection<L, C, E>> {
        self.map@
    }
}

impl<L, C, E> PeripheryConnections<L, C, E> {
    pub closed spec fn wf(&self) -> bool {
        self.map.wf()
    }

    /// The server ids, in the order in which their connections came.
    pub closed spec fn key_seq(&self) -> Seq<Seq<char>> {
        self.map.key_seq()
    }

    pub fn new() -> (r: PeripheryConnections<L, C, E>)
        ensures
            r.wf(),
            r@ == Map::<Seq<char>, PeripheryConnection<L, C, E>>::empty(),
    {
        PeripheryConnections { map: TextMap::new() }
    }

    /// Starts a connection of `server_id`. One that it has already is cancelled:
    /// its link is given back, and its channels go over to the new connection, so
    /// that requests can handle disconnects while processing. Without one,
    /// `channels` are those of the new connection.
    pub fn insert(&mut self, server_id: String, address: Option<String>, link: L, channels: C) -> (r: Option<L>)
        requires
            old(self).wf(),
        ensures
            final(self).wf(),
            r == (if old(self)@.contains_key(server_id@) {
                Some(old(self)@[server_id@].link)
            } else {
                None
            }),
            final(self)@ == inserted(old(self)@, server_id@, address, link, channels),
    {
        let ghost before = self.map@;
        let existing: Option<PeripheryConnection<L, C, E>> = self.map.remove(server_id.as_str());
        let (cancelled, channels): (Option<L>, C) = match existing {
            Some(existing) => (Some(existing.link), existing.channels),
            None => (None, channels),
        };
        let ghost key = server_id@;
        let connection: PeripheryConnection<L, C, E> = PeripheryConnection::new(address, link, channels);
        let _ = self.map.insert(server_id, connection);
        assert(self.map@ =~= before.insert(key, connection));
        cancelled
    }

    pub fn get(&self, server_id: &str) -> (r: Option<&PeripheryConnection<L, C, E>>)
        requires
            self.wf(),
        ensures
            match r {
                Some(connection) => self@.contains_key(server_id@) && *connection == self@[server_id@],
                None => !self@.contains_key(server_id@),
            },
    {
        self.map.get(server_id)
    }

    /// Remove and cancel connection
    pub fn remove(&mut self, server_id: &str) -> (r: Option<PeripheryConnection<L, C, E>>)
        requires
            old(self).wf(),
        ensures
            final(self).wf(),
            final(self)@ == old(self)@.remove(server_id@),
            r == (if old(self)@.contains_key(server_id@) {
                Some(PeripheryConnection { cancelled: true, ..old(self)@[server_id@] })
            } else {
                None
            }),
    {
        match self.map.remove(server_id) {
            Some(connection) => {
                let mut connection = connection;
                connection.cancel();
                Some(connection)
            },
            None => None,
        }
    }

    /// Takes the state of a connection out, to be put back with `update`.
    pub fn take(&mut self, server_id: &str) -> (r: Option<PeripheryConnection<L, C, E>>)
        requires
            old(self).wf(),
        ensures
            final(self).wf(),
            final(self)@ == old(self)@.remove(server_id@),
            r == (if old(self)@.contains_key(server_id@) {
                Some(old(self)@[server_id@])
            } else {
                None
            }),
    {
        self.map.remove(server_id)
    }

    /// Puts the state of a connection in place, instead of the one that is there.
    pub fn update(&mut self, server_id: String, connection: PeripheryConnection<L, C, E>) -> (r: Option<
        PeripheryConnection<L, C, E>,
    >)
        requires
            old(self).wf(),
        ensures
            final(self).wf(),
            final(self)@ == old(self)@.insert(server_id@, connection),
            r == (if old(self)@.contains_key(server_id@) {
                Some(old(self)@[server_id@])
            } else {
                None
            }),
    {
        self.map.insert(server_id, connection)
    }

    pub fn get_keys(&self) -> (r: Vec<String>)
        requires
            self.wf(),
        ensures
            text::texts(r@) == self.key_seq(),
            self.key_seq().no_duplicates(),
            forall|key: Seq<char>| self.key_seq().contains(key) <==> #[trigger] self@.contains_key(key),
    {
        self.map.get_keys()
    }
}

/// The connections after one of `server_id` was started.
pub open spec fn inserted<L, C, E>(
    connections: Map<Seq<char>, PeripheryConnection<L, C, E>>,
    server_id: Seq<char>,
    address: Option<String>,
    link: L,
    channels: C,
) -> Map<Seq<char>, PeripheryConnection<L, C, E>> {
    connections.insert(
        server_id,
        PeripheryConnection {
            address,
            connected: false,
            error: None,
            cancelled: false,
            link,
            channels: if connections.contains_key(server_id) {
                connections[server_id].channels
            } else {
                channels
            },
        },
    )
}

/// Requests survive a reconnect: however often a connection is replaced, it has
/// the channels that it started with, and no other connection changes.
pub proof fn law_channels_survive_replacement<L, C, E>(
    connections: Map<Seq<char>, PeripheryConnection<L, C, E>>,
    server_id: Seq<char>,
    other: Seq<char>,
    address: Option<String>,
    link: L,
    channels: C,
    again_address: Option<String>,
    again_link: L,
    again_channels: C,
)
    requires
        other != server_id,
    ensures
        inserted(connections, server_id, address, link, channels)[server_id].channels == (if connections.contains_key(
            server_id,
        ) {
            connections[server_id].channels
        } else {
            channels
        }),
        inserted(
            inserted(connections, server_id, address, link, channels),
            server_id,
            again_address,
            again_link,
            again_channels,
        )[server_id].channels == inserted(connections, server_id, address, link, channels)[server_id].channels,
        inserted(connections, server_id, address, link, channels).contains_key(other) == connections.contains_key(
            other,
        ),
        inserted(connections, server_id, address, link, channels)[other] == connections[other],
{
}

/// Why a client of a periphery cannot be made.
#[derive(Debug, Clone, Copy, PartialEq, Eq, Structural)]
pub enum ClientError {
    /// Server address cannot be empty.
    EmptyAddress,
}

/// The address at which a client of a periphery connects.
pub fn client_address(address: &str) -> (r: Result<String, ClientError>)
    ensures
        if address@.len() == 0 {
            r == Err::<String, ClientError>(ClientError::EmptyAddress)
        } else {
            r matches Ok(fixed) && fixed@ == address::ws_address(address@)
        },
{
    if text::is_empty(address) {
        return Err(ClientError::EmptyAddress);
    }
    Ok(fix_ws_address(address))
}

/// Accepts the public key that a core expects of a periphery.
pub struct PeripheryPublicKeyValidator<'a> {
    /// If None, ignore public key.
    pub expected: Option<&'a str>,
}

impl<'a> PublicKeyValidator for PeripheryPublicKeyValidator<'a> {
    open spec fn accepts(&self, public_key: Seq<char>) -> bool {
        self.expected is Some ==> self.expected->0@ == public_key
    }

    fn validate(&self, public_key: String) -> (r: Result<(), InvalidPublicKey>) {
        match self.expected {
            Some(expected) => {
                if text::same(public_key.as_str(), expected) {
                    Ok(())
                } else {
                    Err(InvalidPublicKey)
                }
            },
            None => Ok(()),
        }
    }
}

/// Accepts the public key that a periphery expects of its core.
pub struct CorePublicKeyValidator<'a> {
    /// The configured public key of the core. If None, ignore public key.
    pub expected: Option<&'a str>,
}

impl<'a> PublicKeyValidator for CorePublicKeyValidator<'a> {
    open spec fn accepts(&self, public_key: Seq<char>) -> bool {
        self.expected is Some ==> self.expected->0@ == public_key
    }

    fn validate(&self, public_key: String) -> (r: Result<(), InvalidPublicKey>) {
        match self.expected {
            Some(expected) => {
                if text::same(public_key.as_str(), expected) {
                    Ok(())
                } else {
                    Err(InvalidPublicKey)
                }
            },
            None => Ok(()),
        }
    }
}

/// Accepts every public key.
pub struct AnyPublicKeyValidator;

impl PublicKeyValidator for AnyPublicKeyValidator {
    open spec fn accepts(&self, public_key: Seq<char>) -> bool {
        true
    }

    fn validate(&self, public_key: String) -> (r: Result<(), InvalidPublicKey>) {
        Ok(())
    }
}

/// A connection that is started is not connected yet, has no error, is not
/// cancelled, and has the address and the link that it was started with; no
/// other server has another connection for it.
pub proof fn law_started_connection_is_fresh<L, C, E>(
    connections: Map<Seq<char>, PeripheryConnection<L, C, E>>,
    server_id: Seq<char>,
    address: Option<String>,
    link: L,
    channels: C,
)
    ensures
        inserted(connections, server_id, address, link, channels).contains_key(server_id),
        !inserted(connections, server_id, address, link, channels)[server_id].connected,
        !inserted(connections, server_id, address, link, channels)[server_id].cancelled,
        inserted(connections, server_id, address, link, channels)[server_id].error is None,
        inserted(connections, server_id, address, link, channels)[server_id].address == address,
        inserted(connections, server_id, address, link, channels)[server_id].link == link,
        inserted(connections, server_id, address, link, channels).remove(server_id) == connections.remove(server_id),
{
    assert(inserted(connections, server_id, address, link, channels).remove(server_id) =~= connections.remove(
        server_id,
    ));
}

/// An end that expects a public key accepts that key and no other; an end that
/// expects none accepts every key.
pub proof fn law_expected_key_is_the_only_one<'a>(expected: &'a str, key: Seq<char>)
    ensures
        (PeripheryPublicKeyValidator { expected: Some(expected) }).accepts(key) <==> key == expected@,
        (PeripheryPublicKeyValidator { expected: None }).accepts(key),
        (CorePublicKeyValidator { expected: Some(expected) }).accepts(key) <==> key == expected@,
        (CorePublicKeyValidator { expected: None }).accepts(key),
        AnyPublicKeyValidator.accepts(key),
{
}

/// A request goes on with every poll that finds the connection connected, and
/// with no other; it polls again after the first two that do not, a second
/// later, and gives up with any later one, with the error that is stored if
/// there is one.
pub proof fn law_every_poll(connected: bool, poll: u8, has_error: bool)
    ensures
        poll_outcome(connected, poll, has_error) is Connected <==> connected,
        !connected && poll < 2 ==> poll_outcome(connected, poll, has_error) == (ConnectedPoll::Sleep { seconds: 1 }),
        !connected && poll >= 2 && has_error ==> poll_outcome(connected, poll, has_error)
            == ConnectedPoll::StoredError,
        !connected && poll >= 2 && !has_error ==> poll_outcome(connected, poll, has_error)
            == ConnectedPoll::NotConnected,
{
}

} // verus!
