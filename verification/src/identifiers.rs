//! What identifies a connection to both of its ends: the host, the query and
//! the `Sec-WebSocket-Accept` value of the websocket upgrade.

use vstd::prelude::*;
use vstd::string::StrSliceExecFns;
use axum::http::HeaderMap;
use crate::encoding;
use crate::encoding::base64_encode;

verus! {

/// `axum::http::HeaderMap`, opaque.
#[verifier::external_type_specification]
#[verifier::external_body]
#[verifier::reject_recursive_types(T)]
pub struct ExHeaderMap<T>(axum::http::HeaderMap<T>);

/// `axum::http::HeaderValue`, opaque.
#[verifier::external_type_specification]
#[verifier::external_body]
pub struct ExHeaderValue(axum::http::HeaderValue);

/// The headers that a map holds: for each name, in lower case, its values in
/// the order in which they came.
pub uninterp spec fn header_values(headers: HeaderMap) -> Map<Seq<char>, Seq<Seq<u8>>>;

/// The SHA-256 digest of `data`.
pub uninterp spec fn sha256_digest(data: Seq<u8>) -> Seq<u8>;

/// The SHA-1 digest of `data`.
pub uninterp spec fn sha1_digest(data: Seq<u8>) -> Seq<u8>;

/// Whether `name` is a header name in lower case, as the map keeps it.
pub open spec fn is_header_name(name: Seq<char>) -> bool {
    &&& 0 < name.len() <= 64
    &&& forall|i: int| 0 <= i < name.len() ==> {
        let c = #[trigger] name[i];
        'a' <= c <= 'z' || c == '-'
    }
}

/// `axum::http::HeaderMap::remove` removes a header with all of its values, and
/// gives the first of them.
#[verifier::external_body]
fn remove_header(headers: &mut HeaderMap, name: &str) -> (r: Option<Vec<u8>>)
    requires
        is_header_name(name@),
    ensures
        header_values(*final(headers)) == header_values(*old(headers)).remove(name@),
        r is Some <==> header_values(*old(headers)).contains_key(name@),
        r matches Some(value) ==> value@ == header_values(*old(headers))[name@][0],
{
    headers.remove(name).map(|value| value.as_bytes().to_vec())
}

/// `sha2::Sha256`, as one digest of all of `data`.
#[verifier::external_body]
fn sha256(data: &[u8]) -> (r: [u8; 32])
    ensures
        r@ == sha256_digest(data@),
{
    <sha2::Sha256 as sha2::Digest>::digest(data).into()
}

/// `sha1::Sha1`, as one digest of all of `data`.
#[verifier::external_body]
fn sha1(data: &[u8]) -> (r: [u8; 20])
    ensures
        r@ == sha1_digest(data@),
{
    <sha1::Sha1 as sha1::Digest>::digest(data).into()
}

/// What identifies a connection.
pub struct ConnectionIdentifiers<'a> {
    /// Server hostname
    pub host: &'a [u8],
    /// Query: `server=<SERVER>`
    pub query: &'a [u8],
    /// Sec-Websocket-Accept, unique for each connection
    pub accept: &'a [u8],
}

/// What the prologue of a handshake is the digest of.
pub open spec fn prologue_input(host: Seq<u8>, query: Seq<u8>, accept: Seq<u8>, nonce: Seq<u8>) -> Seq<u8> {
    let bar = vstd::utf8::encode_utf8("|"@);
    vstd::utf8::encode_utf8("noise-wss-v1|"@) + host + bar + query + bar + accept + bar + nonce
}

impl<'a> ConnectionIdentifiers<'a> {
    /// The prologue of the handshake on this connection.
    pub open spec fn prologue(&self, nonce: Seq<u8>) -> Seq<u8> {
        sha256_digest(prologue_input(self.host@, self.query@, self.accept@, nonce))
    }

    /// Digests the identifiers with the nonce that the server drew and sent to
    /// the client before the handshake.
    pub fn hash(&self, nonce: &[u8]) -> (r: [u8; 32])
        ensures
            r@ == self.prologue(nonce@),
    {
        let mut input: Vec<u8> = "noise-wss-v1|".as_bytes_vec();
        input.extend_from_slice(self.host);
        input.extend_from_slice("|".as_bytes());
        input.extend_from_slice(self.query);
        input.extend_from_slice("|".as_bytes());
        input.extend_from_slice(self.accept);
        input.extend_from_slice("|".as_bytes());
        input.extend_from_slice(nonce);
        assert(input@ =~= prologue_input(self.host@, self.query@, self.accept@, nonce@));
        sha256(input.as_slice())
    }
}

/// The `Sec-WebSocket-Accept` value of a `Sec-WebSocket-Key` value.
pub open spec fn accept_text(sec_websocket_key: Seq<u8>) -> Seq<char> {
    encoding::base64_text(
        sha1_digest(sec_websocket_key + vstd::utf8::encode_utf8("258EAFA5-E914-47DA-95CA-C5AB0DC85B11"@)),
    )
}

/// Computes the `Sec-WebSocket-Accept` value of a `Sec-WebSocket-Key` value.
pub fn compute_accept(sec_websocket_key: &[u8]) -> (r: String)
    ensures
        r@ == accept_text(sec_websocket_key@),
{
    let mut input: Vec<u8> = Vec::new();
    input.extend_from_slice(sec_websocket_key);
    input.extend_from_slice("258EAFA5-E914-47DA-95CA-C5AB0DC85B11".as_bytes());
    assert(input@ =~= sec_websocket_key@ + vstd::utf8::encode_utf8("258EAFA5-E914-47DA-95CA-C5AB0DC85B11"@));
    let digest: [u8; 20] = sha1(input.as_slice());
    base64_encode(&digest)
}

/// Why a websocket upgrade does not identify its connection.
#[derive(Debug, Clone, Copy, PartialEq, Eq, Structural)]
pub enum HeaderError {
    /// The headers name no host.
    NoHost,
    /// The headers do not contain Sec-Websocket-Key.
    NoKey,
}

/// The connection identifiers that the server side owns.
pub struct ServerHeaderIdentifiers {
    pub host: Vec<u8>,
    pub accept: String,
}

/// The host that the headers name: the forwarded one, if there is one.
pub open spec fn header_host(headers: Map<Seq<char>, Seq<Seq<u8>>>) -> Option<Seq<u8>> {
    if headers.contains_key("x-forwarded-host"@) {
        Some(headers["x-forwarded-host"@][0])
    } else if headers.contains_key("host"@) {
        Some(headers["host"@][0])
    } else {
        None
    }
}

impl ServerHeaderIdentifiers {
    /// Takes the identifiers out of the headers of a websocket upgrade.
    pub fn extract(headers: &mut HeaderMap) -> (r: Result<ServerHeaderIdentifiers, HeaderError>)
        ensures
            r matches Err(HeaderError::NoHost) <==> header_host(header_values(*old(headers))) is None,
            r matches Err(HeaderError::NoKey) <==> header_host(header_values(*old(headers))) is Some
                && !header_values(*old(headers)).contains_key("sec-websocket-key"@),
            r matches Ok(ids) ==> ids.host@ == header_host(header_values(*old(headers)))->0,
            r matches Ok(ids) ==> ids.accept@ == accept_text(
                header_values(*old(headers))["sec-websocket-key"@][0],
            ),
            header_values(*final(headers)) == (if r matches Err(HeaderError::NoHost) {
                header_values(*old(headers))
            } else {
                header_values(*old(headers)).remove("sec-websocket-key"@)
            }).remove("x-forwarded-host"@).remove("host"@),
    {
        proof {
            reveal_strlit("x-forwarded-host");
            reveal_strlit("host");
            reveal_strlit("sec-websocket-key");
            assert("x-forwarded-host"@ != "host"@) by {
                assert("x-forwarded-host"@.len() != "host"@.len());
            }
            assert("x-forwarded-host"@ != "sec-websocket-key"@) by {
                assert("x-forwarded-host"@.len() != "sec-websocket-key"@.len());
            }
            assert("host"@ != "sec-websocket-key"@) by {
                assert("host"@.len() != "sec-websocket-key"@.len());
            }
        }
        let ghost before = header_values(*headers);
        let forwarded: Option<Vec<u8>> = remove_header(headers, "x-forwarded-host");
        let direct: Option<Vec<u8>> = remove_header(headers, "host");
        let host: Vec<u8> = match forwarded {
            Some(host) => host,
            None => match direct {
                Some(host) => host,
                None => {
                    return Err(HeaderError::NoHost);
                },
            },
        };
        let key: Option<Vec<u8>> = remove_header(headers, "sec-websocket-key");
        assert(header_values(*headers) =~= before.remove("sec-websocket-key"@).remove("x-forwarded-host"@).remove(
            "host"@,
        ));
        match key {
            Some(key) => {
                let accept: String = compute_accept(key.as_slice());
                Ok(ServerHeaderIdentifiers { host, accept })
            },
            None => Err(HeaderError::NoKey),
        }
    }

    /// The identifiers of the connection, with the query that the server side
    /// expects of it.
    pub fn build<'a>(&'a self, query: &'a [u8]) -> (r: ConnectionIdentifiers<'a>)
        ensures
            r.host@ == self.host@,
            r.query@ == query@,
            r.accept@ == vstd::utf8::encode_utf8(self.accept@),
    {
        ConnectionIdentifiers {
            host: self.host.as_slice(),
            query,
            accept: self.accept.as_str().as_bytes(),
        }
    }
}

/// The `Sec-WebSocket-Accept` value that came with the response to an upgrade,
/// which is taken out of its headers.
pub fn take_accept(headers: &mut HeaderMap) -> (r: Option<Vec<u8>>)
    ensures
        header_values(*final(headers)) == header_values(*old(headers)).remove("sec-websocket-accept"@),
        r is Some <==> header_values(*old(headers)).contains_key("sec-websocket-accept"@),
        r matches Some(value) ==> value@ == header_values(*old(headers))["sec-websocket-accept"@][0],
{
    proof {
        reveal_strlit("sec-websocket-accept");
    }
    remove_header(headers, "sec-websocket-accept")
}

/// The prologue of a handshake is the digest of one text, in which the host, the
/// query, the accept value and the nonce stand one after the other, behind the
/// name of the protocol and parted by bars. So two ends have the same prologue
/// where they agree on all four.
pub proof fn law_prologue_binds_every_part(
    ids: ConnectionIdentifiers<'_>,
    nonce: Seq<u8>,
    input: Seq<u8>,
)
    requires
        input == vstd::utf8::encode_utf8("noise-wss-v1|"@) + ids.host@ + vstd::utf8::encode_utf8("|"@) + ids.query@
            + vstd::utf8::encode_utf8("|"@) + ids.accept@ + vstd::utf8::encode_utf8("|"@) + nonce,
    ensures
        ids.prologue(nonce) == sha256_digest(input),
        prologue_input(ids.host@, ids.query@, ids.accept@, nonce) == input,
{
}

/// Whoever knows all but one of the parts of a prologue can tell that part from
/// what is digested: no two nonces, and no two values of any other part, are
/// digested alike.
pub proof fn law_no_part_is_left_out(
    host: Seq<u8>,
    query: Seq<u8>,
    accept: Seq<u8>,
    nonce: Seq<u8>,
    other: Seq<u8>,
)
    ensures
        prologue_input(other, query, accept, nonce) == prologue_input(host, query, accept, nonce) ==> other == host,
        prologue_input(host, other, accept, nonce) == prologue_input(host, query, accept, nonce) ==> other == query,
        prologue_input(host, query, other, nonce) == prologue_input(host, query, accept, nonce) ==> other == accept,
        prologue_input(host, query, accept, other) == prologue_input(host, query, accept, nonce) ==> other == nonce,
{
    let name = vstd::utf8::encode_utf8("noise-wss-v1|"@);
    let bar = vstd::utf8::encode_utf8("|"@);
    lemma_middle(name, host, other, bar + query + bar + accept + bar + nonce);
    lemma_middle(name + host + bar, query, other, bar + accept + bar + nonce);
    lemma_middle(name + host + bar + query + bar, accept, other, bar + nonce);
    lemma_middle(name + host + bar + query + bar + accept + bar, nonce, other, Seq::empty());
    assert(prologue_input(host, query, accept, nonce) =~= name + host + (bar + query + bar + accept + bar + nonce));
    assert(prologue_input(other, query, accept, nonce) =~= name + other + (bar + query + bar + accept + bar + nonce));
    assert(prologue_input(host, query, accept, nonce) =~= name + host + bar + query + (bar + accept + bar + nonce));
    assert(prologue_input(host, other, accept, nonce) =~= name + host + bar + other + (bar + accept + bar + nonce));
    assert(prologue_input(host, query, accept, nonce) =~= name + host + bar + query + bar + accept + (bar + nonce));
    assert(prologue_input(host, query, other, nonce) =~= name + host + bar + query + bar + other + (bar + nonce));
    let none = Seq::<u8>::empty();
    assert(prologue_input(host, query, accept, nonce) =~= name + host + bar + query + bar + accept + bar + nonce + none);
    assert(prologue_input(host, query, accept, other) =~= name + host + bar + query + bar + accept + bar + other + none);
}

/// What stands between two texts can be told from the whole.
proof fn lemma_middle(before: Seq<u8>, a: Seq<u8>, b: Seq<u8>, after: Seq<u8>)
    ensures
        before + a + after == before + b + after ==> a == b,
{
    if before + a + after == before + b + after {
        let n = before.len() as int;
        assert((before + a + after).len() == (before + b + after).len());
        assert(a =~= (before + a + after).subrange(n, n + a.len()));
        assert(b =~= (before + b + after).subrange(n, n + b.len()));
    }
}

/// The accept value of a websocket key is the base64 text of the SHA-1 digest of
/// the key followed by the identifier of the websocket protocol.
pub proof fn law_accept_follows_the_protocol(key: Seq<u8>, input: Seq<u8>)
    requires
        input == key + vstd::utf8::encode_utf8("258EAFA5-E914-47DA-95CA-C5AB0DC85B11"@),
    ensures
        accept_text(key) == encoding::base64_text(sha1_digest(input)),
{
}

/// The forwarded host goes before the host: where it is there, the host makes no
/// difference; where it is not, the host is the one that counts.
pub proof fn law_forwarded_host_goes_first(headers: Map<Seq<char>, Seq<Seq<u8>>>, values: Seq<Seq<u8>>)
    ensures
        headers.contains_key("x-forwarded-host"@) ==> header_host(headers) == Some(headers["x-forwarded-host"@][0])
            && header_host(headers.insert("host"@, values)) == header_host(headers) && header_host(
            headers.remove("host"@),
        ) == header_host(headers),
        !headers.contains_key("x-forwarded-host"@) ==> header_host(headers.insert("host"@, values)) == Some(values[0])
            && header_host(headers.remove("host"@)) is None,
        header_host(headers) is None <==> !headers.contains_key("x-forwarded-host"@) && !headers.contains_key("host"@),
        header_host(headers.insert("x-forwarded-host"@, values)) == Some(values[0]),
{
    reveal_strlit("x-forwarded-host");
    reveal_strlit("host");
    assert("x-forwarded-host"@ != "host"@) by {
        assert("x-forwarded-host"@.len() != "host"@.len());
    }
}

} // verus!
