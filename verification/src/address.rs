//! Addresses of the ends of a connection.

use vstd::prelude::*;
use vstd::string::StrSliceExecFns;
use vstd::string::StringExecFns;
use url::Url;
use crate::encoding;
use crate::encoding::percent_encode;
use crate::text;

verus! {

/// `url::Url`, opaque.
#[verifier::external_type_specification]
#[verifier::external_body]
pub struct ExUrl(url::Url);

/// `url::ParseError`, opaque.
#[verifier::external_type_specification]
#[verifier::external_body]
pub struct ExParseError(url::ParseError);

/// The websocket address that `address` stands for.
pub open spec fn ws_address(address: Seq<char>) -> Seq<char> {
    if text::occurs_at(address, "ws://"@, 0) || text::occurs_at(address, "wss://"@, 0) {
        address
    } else if text::occurs_at(address, "http://"@, 0) {
        text::replaced(address, "http://"@, "ws://"@)
    } else if text::occurs_at(address, "https://"@, 0) {
        text::replaced(address, "https://"@, "wss://"@)
    } else {
        "wss://"@ + address
    }
}

/// Fixes websocket addresses:
/// - `server.domain` => `wss://server.domain`
/// - `http://server.domain` => `ws://server.domain`
/// - `https://server.domain` => `wss://server.domain`
pub fn fix_ws_address(address: &str) -> (r: String)
    ensures
        r@ == ws_address(address@),
{
    if text::starts_with(address, "ws://") || text::starts_with(address, "wss://") {
        return address.to_owned();
    }
    if text::starts_with(address, "http://") {
        proof {
            reveal_strlit("http://");
        }
        return text::replace(address, "http://", "ws://");
    }
    if text::starts_with(address, "https://") {
        proof {
            reveal_strlit("https://");
        }
        return text::replace(address, "https://", "wss://");
    }
    text::concat("wss://", address)
}

/// Every fixed address is a websocket address.
pub proof fn law_fixed_address_is_ws(address: Seq<char>)
    ensures
        text::occurs_at(ws_address(address), "ws://"@, 0) || text::occurs_at(ws_address(address), "wss://"@, 0),
{
    reveal_strlit("ws://");
    reveal_strlit("wss://");
    reveal_strlit("http://");
    reveal_strlit("https://");
    if text::occurs_at(address, "ws://"@, 0) || text::occurs_at(address, "wss://"@, 0) {
    } else if text::occurs_at(address, "http://"@, 0) {
        assert(ws_address(address).subrange(0, 5) =~= "ws://"@);
    } else if text::occurs_at(address, "https://"@, 0) {
        assert(ws_address(address).subrange(0, 6) =~= "wss://"@);
    } else {
        assert(ws_address(address).subrange(0, 6) =~= "wss://"@);
    }
}

/// Fixing a fixed address changes nothing.
pub proof fn law_fix_is_idempotent(address: Seq<char>)
    ensures
        ws_address(ws_address(address)) == ws_address(address),
{
    law_fixed_address_is_ws(address);
}

/// Whether a connection to `url` is made over TLS.
pub fn uses_tls(url: &str) -> (r: bool)
    ensures
        r == text::occurs_at(url@, "wss"@, 0),
{
    text::starts_with(url, "wss")
}

/// A connection is made over TLS unless its address is one of `ws` or `http`;
/// one with an `http` address is made without.
pub proof fn law_tls_follows_scheme(host: Seq<char>)
    ensures
        !text::occurs_at(host, "ws://"@, 0) && !text::occurs_at(host, "http://"@, 0) ==> text::occurs_at(
            ws_address(host),
            "wss"@,
            0,
        ),
        text::occurs_at(ws_address("https://"@ + host), "wss"@, 0),
        !text::occurs_at(ws_address("http://"@ + host), "wss"@, 0),
{
    reveal_strlit("ws://");
    reveal_strlit("wss://");
    reveal_strlit("wss");
    reveal_strlit("http://");
    reveal_strlit("https://");
    if !text::occurs_at(host, "ws://"@, 0) && !text::occurs_at(host, "http://"@, 0) {
        if text::occurs_at(host, "wss://"@, 0) {
            assert(host.subrange(0, 3) =~= host.subrange(0, 6).subrange(0, 3));
            assert(host.subrange(0, 3) =~= "wss"@);
        } else {
            assert(ws_address(host).subrange(0, 3) =~= "wss"@);
        }
    }
    let secure = "https://"@ + host;
    assert(secure[0] == 'h' && secure[4] == 's');
    assert(!text::occurs_at(secure, "ws://"@, 0)) by {
        assert(secure.subrange(0, 5)[0] == 'h');
    }
    assert(!text::occurs_at(secure, "wss://"@, 0)) by {
        if secure.len() >= 6 {
            assert(secure.subrange(0, 6)[0] == 'h');
        }
    }
    assert(!text::occurs_at(secure, "http://"@, 0)) by {
        assert(secure.subrange(0, 7)[4] == 's');
    }
    assert(secure.subrange(0, 8) =~= "https://"@);
    assert(ws_address(secure).subrange(0, 3) =~= "wss"@);
    let plain = "http://"@ + host;
    assert(plain[0] == 'h');
    assert(!text::occurs_at(plain, "ws://"@, 0)) by {
        assert(plain.subrange(0, 5)[0] == 'h');
    }
    assert(!text::occurs_at(plain, "wss://"@, 0)) by {
        assert(plain.subrange(0, 6)[0] == 'h');
    }
    assert(plain.subrange(0, 7) =~= "http://"@);
    assert(ws_address(plain)[2] == ':');
    assert(ws_address(plain).subrange(0, 3)[2] == ':');
}

/// The query with which a periphery presents itself as `server`.
pub open spec fn server_query_text(server: Seq<char>) -> Seq<char> {
    "server="@ + encoding::percent_text(vstd::utf8::encode_utf8(server))
}

/// The query with which a periphery presents itself as `server`.
pub fn server_query(server: &str) -> (r: String)
    ensures
        r@ == server_query_text(server@),
{
    text::concat("server=", percent_encode(server).as_str())
}

/// The address at which a core takes the connection of the periphery `connect_as`.
pub open spec fn core_endpoint_text(core_host: Seq<char>, connect_as: Seq<char>) -> Seq<char> {
    ws_address(core_host) + "/ws/periphery?"@ + server_query_text(connect_as)
}

/// The address at which a core takes the connection of the periphery `connect_as`.
pub fn core_endpoint(core_host: &str, connect_as: &str) -> (r: String)
    ensures
        r@ == core_endpoint_text(core_host@, connect_as@),
{
    text::concat3(
        fix_ws_address(core_host).as_str(),
        "/ws/periphery?",
        server_query(connect_as).as_str(),
    )
}

/// What `url::Url::parse` makes of a text, and `None` where it refuses it.
pub uninterp spec fn parsed_url(text: Seq<char>) -> Option<Url>;

/// The text of the host of a `url::Url`.
pub uninterp spec fn url_host_text(url: Url) -> Option<Seq<char>>;

/// The query of a `url::Url`.
pub uninterp spec fn url_query_text(url: Url) -> Option<Seq<char>>;

/// `url::Url::parse`: what it gives depends on the text alone.
#[verifier::external_body]
fn parse_url(text: &str) -> (r: Result<Url, url::ParseError>)
    ensures
        r is Ok <==> parsed_url(text@) is Some,
        r matches Ok(url) ==> parsed_url(text@) == Some(url),
{
    Url::parse(text)
}

/// `url::Url::host`, as text.
#[verifier::external_body]
fn url_host(url: &Url) -> (r: Option<String>)
    ensures
        r is Some <==> url_host_text(*url) is Some,
        r matches Some(host) ==> url_host_text(*url) == Some(host@),
{
    url.host().map(|host| host.to_string())
}

/// `url::Url::query`.
#[verifier::external_body]
fn url_query(url: &Url) -> (r: Option<String>)
    ensures
        r is Some <==> url_query_text(*url) is Some,
        r matches Some(query) ==> url_query_text(*url) == Some(query@),
{
    url.query().map(|query| query.to_string())
}

/// Why no connection can be made to an address.
#[derive(Debug, Clone, Copy, PartialEq, Eq, Structural)]
pub enum AddressError {
    /// The address is no url.
    InvalidUrl,
    /// The url has no host.
    NoHost,
    /// The url has no query.
    NoQuery,
}

/// The bytes of a part of a url, which must be there.
pub fn url_part(part: Option<String>, missing: AddressError) -> (r: Result<Vec<u8>, AddressError>)
    ensures
        match part {
            Some(text) => r matches Ok(bytes) && bytes@ == vstd::utf8::encode_utf8(text@),
            None => r == Err::<Vec<u8>, AddressError>(missing),
        },
{
    match part {
        Some(text) => Ok(text.as_str().as_bytes_vec()),
        None => Err(missing),
    }
}

/// What an end that connects out presents of its url: the host, and for a
/// periphery the query.
pub open spec fn host_result(address: Seq<char>, r: Result<Vec<u8>, AddressError>) -> bool {
    match parsed_url(address) {
        None => r == Err::<Vec<u8>, AddressError>(AddressError::InvalidUrl),
        Some(url) => match url_host_text(url) {
            None => r == Err::<Vec<u8>, AddressError>(AddressError::NoHost),
            Some(host) => r matches Ok(bytes) && bytes@ == vstd::utf8::encode_utf8(host),
        },
    }
}

/// Whether an address is a url with a host.
pub open spec fn has_host(address: Seq<char>) -> bool {
    &&& parsed_url(address) matches Some(url)
    &&& url_host_text(url) is Some
}

/// The host of the address of a server.
pub fn address_host(address: &str) -> (r: Result<Vec<u8>, AddressError>)
    ensures
        host_result(address@, r),
{
    match parse_url(address) {
        Ok(url) => url_part(url_host(&url), AddressError::NoHost),
        Err(_) => Err(AddressError::InvalidUrl),
    }
}

/// The host and the query of the address at which a core takes connections.
pub fn endpoint_identifiers(endpoint: &str) -> (r: Result<(Vec<u8>, Vec<u8>), AddressError>)
    ensures
        match parsed_url(endpoint@) {
            None => r == Err::<(Vec<u8>, Vec<u8>), AddressError>(AddressError::InvalidUrl),
            Some(url) => match (url_host_text(url), url_query_text(url)) {
                (None, _) => r == Err::<(Vec<u8>, Vec<u8>), AddressError>(AddressError::NoHost),
                (Some(_), None) => r == Err::<(Vec<u8>, Vec<u8>), AddressError>(AddressError::NoQuery),
                (Some(host), Some(query)) => r matches Ok((h, q)) && h@ == vstd::utf8::encode_utf8(host)
                    && q@ == vstd::utf8::encode_utf8(query),
            },
        },
{
    let url: Url = match parse_url(endpoint) {
        Ok(url) => url,
        Err(_) => return Err(AddressError::InvalidUrl),
    };
    let host: Vec<u8> = match url_part(url_host(&url), AddressError::NoHost) {
        Ok(host) => host,
        Err(e) => return Err(e),
    };
    let query: Vec<u8> = match url_part(url_query(&url), AddressError::NoQuery) {
        Ok(query) => query,
        Err(e) => return Err(e),
    };
    Ok((host, query))
}

/// What becomes of an address by its start: one of `ws` or `wss` stays, one of
/// `http` becomes one of `ws`, one of `https` one of `wss`, and one without any
/// of these gets `wss`. What follows the start stays as it is, unless the same
/// scheme stands in it again, which is replaced too.
pub proof fn law_only_the_scheme_changes(rest: Seq<char>)
    ensures
        ws_address("ws://"@ + rest) == "ws://"@ + rest,
        ws_address("wss://"@ + rest) == "wss://"@ + rest,
        ws_address("http://"@ + rest) == "ws://"@ + text::replaced(rest, "http://"@, "ws://"@),
        ws_address("https://"@ + rest) == "wss://"@ + text::replaced(rest, "https://"@, "wss://"@),
        !text::has_text(rest, "http://"@) ==> ws_address("http://"@ + rest) == "ws://"@ + rest,
        !text::has_text(rest, "https://"@) ==> ws_address("https://"@ + rest) == "wss://"@ + rest,
        !text::occurs_at(rest, "ws://"@, 0) && !text::occurs_at(rest, "wss://"@, 0) && !text::occurs_at(
            rest,
            "http://"@,
            0,
        ) && !text::occurs_at(rest, "https://"@, 0) ==> ws_address(rest) == "wss://"@ + rest,
{
    reveal_strlit("ws://");
    reveal_strlit("wss://");
    reveal_strlit("http://");
    reveal_strlit("https://");
    let none = Seq::<char>::empty();
    assert(("ws://"@ + rest).subrange(0, 5) =~= "ws://"@);
    assert(("wss://"@ + rest).subrange(0, 6) =~= "wss://"@);
    let plain = "http://"@ + rest;
    assert(plain =~= none + "http://"@ + rest);
    assert(plain.subrange(0, 7) =~= "http://"@);
    assert(!text::occurs_at(plain, "ws://"@, 0)) by {
        assert(plain.subrange(0, 5)[0] == 'h');
    }
    assert(!text::occurs_at(plain, "wss://"@, 0)) by {
        assert(plain.subrange(0, 6)[0] == 'h');
    }
    text::law_each_occurrence_is_replaced(none, "http://"@, "ws://"@, rest);
    assert(ws_address(plain) =~= "ws://"@ + text::replaced(rest, "http://"@, "ws://"@));
    let secure = "https://"@ + rest;
    assert(secure =~= none + "https://"@ + rest);
    assert(secure.subrange(0, 8) =~= "https://"@);
    assert(!text::occurs_at(secure, "ws://"@, 0)) by {
        assert(secure.subrange(0, 5)[0] == 'h');
    }
    assert(!text::occurs_at(secure, "wss://"@, 0)) by {
        assert(secure.subrange(0, 6)[0] == 'h');
    }
    assert(!text::occurs_at(secure, "http://"@, 0)) by {
        assert(secure.subrange(0, 7)[4] == 's');
    }
    text::law_each_occurrence_is_replaced(none, "https://"@, "wss://"@, rest);
    assert(ws_address(secure) =~= "wss://"@ + text::replaced(rest, "https://"@, "wss://"@));
}

/// A periphery connects to its core at the address of the core, followed by the
/// path for peripheries and by a query that holds nothing but its name, percent
/// encoded.
pub proof fn law_endpoint_names_the_periphery(core_host: Seq<char>, connect_as: Seq<char>)
    ensures
        core_endpoint_text(core_host, connect_as) == ws_address(core_host) + "/ws/periphery?server="@
            + encoding::percent_text(vstd::utf8::encode_utf8(connect_as)),
        server_query_text(connect_as) == "server="@ + encoding::percent_text(vstd::utf8::encode_utf8(connect_as)),
        core_endpoint_text(core_host, connect_as).skip(
            core_endpoint_text(core_host, connect_as).len() - server_query_text(connect_as).len(),
        ) == server_query_text(connect_as),
{
    reveal_strlit("/ws/periphery?server=");
    reveal_strlit("/ws/periphery?");
    reveal_strlit("server=");
    let endpoint = core_endpoint_text(core_host, connect_as);
    let query = server_query_text(connect_as);
    assert("/ws/periphery?server="@ =~= "/ws/periphery?"@ + "server="@);
    assert(endpoint =~= ws_address(core_host) + "/ws/periphery?server="@ + encoding::percent_text(
        vstd::utf8::encode_utf8(connect_as),
    ));
    assert(endpoint.skip(endpoint.len() - query.len()) =~= query);
}

/// The host of an address is that of the url that it is parsed as. An address
/// that is no url, and one whose url has no host, have none.
pub proof fn law_host_is_that_of_the_url(address: Seq<char>, r: Result<Vec<u8>, AddressError>)
    requires
        host_result(address, r),
    ensures
        r is Ok <==> parsed_url(address) is Some && url_host_text(parsed_url(address)->0) is Some,
        r is Ok ==> r->Ok_0@ == vstd::utf8::encode_utf8(url_host_text(parsed_url(address)->0)->0),
        r is Err ==> r->Err_0 == (if parsed_url(address) is None {
            AddressError::InvalidUrl
        } else {
            AddressError::NoHost
        }),
        has_host(address) <==> r is Ok,
{
}

} // verus!
