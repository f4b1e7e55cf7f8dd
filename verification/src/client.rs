use vstd::prelude::*;

use crate::config::ConnectionConfig;
use crate::types::Error;
use vstd::utf8::encode_utf8;
use http::header::{HeaderName, HeaderValue, InvalidHeaderName, InvalidHeaderValue};
use http::Request;
use tokio_tungstenite::tungstenite::client::IntoClientRequest;
use tokio_tungstenite::tungstenite::Error as WsError;

verus! {

/// An HTTP request of `http`; of it, the library reads its headers.
#[verifier::external_type_specification]
#[verifier::external_body]
#[verifier::reject_recursive_types(T)]
pub struct ExRequest<T>(Request<T>);

/// A parsed header name of `http`.
#[verifier::external_type_specification]
#[verifier::external_body]
pub struct ExHeaderName(HeaderName);

/// A parsed header value of `http`.
#[verifier::external_type_specification]
#[verifier::external_body]
pub struct ExHeaderValue(HeaderValue);

/// Whether `tungstenite` makes a client handshake request of this URL: it
/// does when the URL parses as a URI with a non-empty host.
pub uninterp spec fn accepts_client_url(url: Seq<char>) -> bool;

/// A character that may stand in a header name (an HTTP token character).
pub open spec fn is_token_char(c: char) -> bool {
    ||| ('a' <= c && c <= 'z')
    ||| ('A' <= c && c <= 'Z')
    ||| ('0' <= c && c <= '9')
    ||| c == '!' || c == '#' || c == '$' || c == '%' || c == '&' || c == '\'' || c == '*'
    ||| c == '+' || c == '-' || c == '.' || c == '^' || c == '_' || c == '`' || c == '|'
    ||| c == '~'
}

/// Whether `http` accepts `s` as a header name: one to 65535 token characters.
pub open spec fn is_header_name(s: Seq<char>) -> bool {
    &&& 1 <= s.len() <= 65535
    &&& forall|i: int| 0 <= i < s.len() ==> is_token_char(#[trigger] s[i])
}

/// Whether `http` accepts `s` as a header value: every byte of its UTF-8
/// form is a tab or at least a space, and none is DEL; so every character is
/// a tab, or a space or above, but not DEL.
pub open spec fn is_header_value(s: Seq<char>) -> bool {
    forall|i: int|
        0 <= i < s.len() ==> (#[trigger] s[i] == '\t' || (' ' <= s[i] && s[i] != '\x7f'))
}

/// The headers of a request: each name, in lower case, with its values in
/// order, each value as bytes.
pub uninterp spec fn request_headers(r: Request<()>) -> Map<Seq<char>, Seq<Seq<u8>>>;

/// The target of a request: its URI, as text.
pub uninterp spec fn request_target(r: Request<()>) -> Seq<char>;

/// The method of a request, as text.
pub uninterp spec fn request_method(r: Request<()>) -> Seq<char>;

/// What `tungstenite` reads from a URL it accepts for a client handshake:
/// the host (the URI's authority without user information) and the URI
/// itself, as text.
pub uninterp spec fn client_url_request(url: Seq<char>) -> (Seq<char>, Seq<char>);

/// The lower-case form of an ASCII letter; any other character unchanged.
pub open spec fn lower_char(c: char) -> char {
    if 'A' <= c && c <= 'Z' {
        ((c as u32) + 32) as char
    } else {
        c
    }
}

/// The key under which `http` stores a header name: the name in lower case.
pub open spec fn header_key(name: Seq<char>) -> Seq<char> {
    name.map_values(|c: char| lower_char(c))
}

/// The header names of a handshake request.
pub open spec fn handshake_names() -> Set<Seq<char>> {
    set!["host"@, "connection"@, "upgrade"@, "sec-websocket-version"@, "sec-websocket-key"@]
}

/// The headers of a handshake request that `tungstenite` makes of a URL
/// with this `host`: `Host`, `Connection: Upgrade`, `Upgrade: websocket`,
/// `Sec-WebSocket-Version: 13` and a key, one value each.
pub open spec fn is_handshake_headers(h: Map<Seq<char>, Seq<Seq<u8>>>, host: Seq<char>) -> bool {
    &&& h.dom() == handshake_names()
    &&& h["host"@] == seq![encode_utf8(host)]
    &&& h["connection"@] == seq![encode_utf8("Upgrade"@)]
    &&& h["upgrade"@] == seq![encode_utf8("websocket"@)]
    &&& h["sec-websocket-version"@] == seq![encode_utf8("13"@)]
    &&& h["sec-websocket-key"@].len() == 1
}

/// The headers `base` becomes when the pairs `hs` are set in order: each
/// sets its name to its single value, replacing any earlier values.
pub open spec fn with_headers(
    base: Map<Seq<char>, Seq<Seq<u8>>>,
    hs: Seq<(Seq<char>, Seq<char>)>,
) -> Map<Seq<char>, Seq<Seq<u8>>>
    decreases hs.len(),
{
    if hs.len() == 0 {
        base
    } else {
        with_headers(base, hs.drop_last()).insert(
            header_key(hs.last().0),
            seq![encode_utf8(hs.last().1)],
        )
    }
}

/// The keys that setting the pairs `hs` uses.
pub open spec fn header_names(hs: Seq<(Seq<char>, Seq<char>)>) -> Set<Seq<char>>
    decreases hs.len(),
{
    if hs.len() == 0 {
        Set::empty()
    } else {
        header_names(hs.drop_last()).insert(header_key(hs.last().0))
    }
}

/// Whether `http` accepts a pair as a header name and value.
pub open spec fn pair_valid(p: (Seq<char>, Seq<char>)) -> bool {
    is_header_name(p.0) && is_header_value(p.1)
}

/// Whether every header of `hs` that is set finds room: `http` can always
/// grow a header map that holds fewer than 6554 names, so it suffices that
/// before each accepted header the handshake names and the names set so far
/// are fewer than that.
pub open spec fn fits_header_map(hs: Seq<(Seq<char>, Seq<char>)>) -> bool {
    forall|i: int|
        #![trigger header_names(hs.take(i))]
        0 <= i < hs.len() && (forall|j: int| 0 <= j <= i ==> pair_valid(#[trigger] hs[j]))
            ==> handshake_names().union(header_names(hs.take(i))).len() < 6554
}

/// Which part of a header was refused.
#[derive(Debug, Clone, Copy, PartialEq, Eq)]
pub enum HeaderFault {
    Name,
    Value,
}

/// The fault of the first refused header, names checked before values.
pub open spec fn header_fault(hs: Seq<(Seq<char>, Seq<char>)>) -> Option<HeaderFault>
    decreases hs.len(),
{
    if hs.len() == 0 {
        None
    } else if !is_header_name(hs[0].0) {
        Some(HeaderFault::Name)
    } else if !is_header_value(hs[0].1) {
        Some(HeaderFault::Value)
    } else {
        header_fault(hs.drop_first())
    }
}

/// The text of a list of headers.
pub open spec fn header_texts(hs: Seq<(String, String)>) -> Seq<(Seq<char>, Seq<char>)> {
    hs.map_values(|p: (String, String)| (p.0@, p.1@))
}

/// The headers a configuration asks for; none without a configuration.
pub open spec fn requested_headers(config: Option<ConnectionConfig>) -> Seq<(Seq<char>, Seq<char>)> {
    match config {
        Some(c) => match c.headers {
            Some(hs) => header_texts(hs@),
            None => Seq::empty(),
        },
        None => Seq::empty(),
    }
}

/// Calls `IntoClientRequest::into_client_request` of `tungstenite` on a URL
/// string. Whether it succeeds is named by `accepts_client_url`; the request
/// it makes is a `GET` of the URL's URI with the handshake headers, the key
/// chosen at random.
#[verifier::external_body]
fn url_request(url: String) -> (r: Result<Request<()>, WsError>)
    ensures
        r is Ok <==> accepts_client_url(url@),
        r matches Ok(req) ==> {
            &&& is_handshake_headers(request_headers(req), client_url_request(url@).0)
            &&& request_target(req) == client_url_request(url@).1
            &&& request_method(req) == "GET"@
        },
{
    url.into_client_request()
}

/// Calls `HeaderName::from_str` of `http`, which succeeds exactly on valid names.
#[verifier::external_body]
fn parse_header_name(s: &str) -> (r: Result<HeaderName, InvalidHeaderName>)
    ensures
        r is Ok <==> is_header_name(s@),
{
    <HeaderName as std::str::FromStr>::from_str(s)
}

/// Calls `HeaderValue::from_str` of `http`, which succeeds exactly on valid values.
#[verifier::external_body]
fn parse_header_value(s: &str) -> (r: Result<HeaderValue, InvalidHeaderValue>)
    ensures
        r is Ok <==> is_header_value(s@),
{
    HeaderValue::from_str(s)
}

/// Calls `HeaderName::from_str` and `HeaderValue::from_str` on a valid name
/// and value, and `HeaderMap::try_insert` of `http` with them on the
/// request's headers. On success the name, in lower case, holds this single
/// value, whatever it held before. `try_insert` fails, changing nothing,
/// only when the map cannot grow, which needs 6554 names already in it.
/// Target and method are untouched.
#[verifier::external_body]
fn set_header(request: &mut Request<()>, name: &str, value: &str) -> (set: bool)
    requires
        is_header_name(name@),
        is_header_value(value@),
    ensures
        set ==> request_headers(*final(request)) == request_headers(*old(request)).insert(
            header_key(name@),
            seq![encode_utf8(value@)],
        ),
        !set ==> request_headers(*final(request)) == request_headers(*old(request)),
        !set ==> request_headers(*old(request)).dom().finite() ==> request_headers(
            *old(request),
        ).dom().len() >= 6554,
        request_target(*final(request)) == request_target(*old(request)),
        request_method(*final(request)) == request_method(*old(request)),
{
    let name = <HeaderName as std::str::FromStr>::from_str(name).unwrap();
    let value = HeaderValue::from_str(value).unwrap();
    request.headers_mut().try_insert(name, value).is_ok()
}

proof fn lemma_handshake_names_count()
    ensures
        handshake_names().finite(),
        handshake_names().len() == 5,
{
    reveal_strlit("host");
    reveal_strlit("connection");
    reveal_strlit("upgrade");
    reveal_strlit("sec-websocket-version");
    reveal_strlit("sec-websocket-key");
    assert("host"@.len() == 4);
    assert("connection"@.len() == 10);
    assert("upgrade"@.len() == 7);
    assert("sec-websocket-version"@.len() == 21);
    assert("sec-websocket-key"@.len() == 17);
    let e = Set::<Seq<char>>::empty();
    assert(e.len() == 0);
    assert(!e.contains("host"@));
    assert(!e.insert("host"@).contains("connection"@));
    assert(!e.insert("host"@).insert("connection"@).contains("upgrade"@));
    assert(!e.insert("host"@).insert("connection"@).insert("upgrade"@).contains(
        "sec-websocket-version"@,
    ));
    assert(!e.insert("host"@).insert("connection"@).insert("upgrade"@).insert(
        "sec-websocket-version"@,
    ).contains("sec-websocket-key"@));
}

proof fn lemma_with_headers_names(
    base: Map<Seq<char>, Seq<Seq<u8>>>,
    hs: Seq<(Seq<char>, Seq<char>)>,
)
    ensures
        with_headers(base, hs).dom() == base.dom().union(header_names(hs)),
        header_names(hs).finite(),
    decreases hs.len(),
{
    if hs.len() > 0 {
        lemma_with_headers_names(base, hs.drop_last());
        assert(with_headers(base, hs).dom() =~= base.dom().union(header_names(hs)));
    }
}

proof fn lemma_header_fault_step(hs: Seq<(Seq<char>, Seq<char>)>, i: int)
    requires
        0 <= i < hs.len(),
        is_header_name(hs[i].0),
        is_header_value(hs[i].1),
    ensures
        header_fault(hs.skip(i)) == header_fault(hs.skip(i + 1)),
{
    assert(hs.skip(i).drop_first() =~= hs.skip(i + 1));
}

/// Makes the client handshake request for `url`, with the configured headers
/// set on it in order. Fails with the URL's error when the URL is refused,
/// and else with the error of the first header whose name or value is
/// refused. Answers nothing (`None`) when `http`'s header map cannot take a
/// header, where `HeaderMap::insert` would panic; that happens only when
/// the configuration does not fit (`fits_header_map`).
pub fn client_request(url: String, config: &Option<ConnectionConfig>) -> (r: Option<
    Result<Request<()>, Error>,
>)
    ensures
        ({
            let hs = requested_headers(*config);
            let (host, target) = client_url_request(url@);
            &&& accepts_client_url(url@) && fits_header_map(hs) ==> r is Some
            &&& match r {
                None => accepts_client_url(url@) && !fits_header_map(hs),
                Some(Ok(req)) => {
                    &&& accepts_client_url(url@)
                    &&& header_fault(hs) is None
                    &&& request_target(req) == target
                    &&& request_method(req) == "GET"@
                    &&& exists|base: Map<Seq<char>, Seq<Seq<u8>>>|
                        #![trigger with_headers(base, hs)]
                        is_handshake_headers(base, host) && request_headers(req) == with_headers(
                            base,
                            hs,
                        )
                },
                Some(Err(Error::Websocket(_))) => !accepts_client_url(url@),
                Some(Err(Error::InvalidHeaderName(_))) => accepts_client_url(url@) && header_fault(
                    hs,
                ) == Some(HeaderFault::Name),
                Some(Err(Error::InvalidHeaderValue(_))) => accepts_client_url(url@) && header_fault(
                    hs,
                ) == Some(HeaderFault::Value),
                Some(Err(_)) => false,
            }
        }),
{
    let ghost url_text = url@;
    let mut request = match url_request(url) {
        Ok(request) => request,
        Err(e) => {
            return Some(Err(Error::Websocket(e)));
        },
    };
    let ghost base = request_headers(request);
    let ghost host = client_url_request(url_text).0;
    let ghost target = client_url_request(url_text).1;
    assert(with_headers(base, Seq::empty()) == base);
    let headers: &Vec<(String, String)> = match config {
        Some(c) => match &c.headers {
            Some(hs) => hs,
            None => {
                return Some(Ok(request));
            },
        },
        None => {
            return Some(Ok(request));
        },
    };
    let ghost hs = header_texts(headers@);
    assert(hs.skip(0) =~= hs);
    assert(hs.take(0) =~= Seq::empty());
    proof {
        lemma_handshake_names_count();
    }
    let mut i: usize = 0;
    while i < headers.len()
        invariant
            i <= headers.len(),
            hs == header_texts(headers@),
            hs.len() == headers@.len(),
            header_fault(hs) == header_fault(hs.skip(i as int)),
            hs == requested_headers(*config),
            accepts_client_url(url_text),
            url_text == url@,
            host == client_url_request(url_text).0,
            target == client_url_request(url_text).1,
            is_handshake_headers(base, host),
            handshake_names().finite(),
            handshake_names().len() == 5,
            request_headers(request) == with_headers(base, hs.take(i as int)),
            request_target(request) == target,
            request_method(request) == "GET"@,
            forall|j: int| 0 <= j < i ==> pair_valid(#[trigger] hs[j]),
        decreases headers.len() - i,
    {
        let (k, v) = &headers[i];
        assert(hs[i as int] == (k@, v@));
        if let Err(e) = parse_header_name(k.as_str()) {
            assert(hs.skip(i as int)[0] == hs[i as int]);
            return Some(Err(Error::InvalidHeaderName(e)));
        }
        if let Err(e) = parse_header_value(v.as_str()) {
            assert(hs.skip(i as int)[0] == hs[i as int]);
            return Some(Err(Error::InvalidHeaderValue(e)));
        }
        assert(pair_valid(hs[i as int]));
        proof {
            lemma_with_headers_names(base, hs.take(i as int));
        }
        if !set_header(&mut request, k.as_str(), v.as_str()) {
            assert(request_headers(request).dom() == handshake_names().union(
                header_names(hs.take(i as int)),
            ));
            assert(forall|j: int| 0 <= j <= i ==> pair_valid(#[trigger] hs[j]));
            assert(!(handshake_names().union(header_names(hs.take(i as int))).len() < 6554));
            assert(!fits_header_map(hs));
            return None;
        }
        proof {
            lemma_header_fault_step(hs, i as int);
            assert(hs.take(i + 1).drop_last() =~= hs.take(i as int));
            assert(hs.take(i + 1).last() == hs[i as int]);
        }
        i = i + 1;
    }
    assert(hs.skip(i as int).len() == 0);
    assert(hs.take(i as int) =~= hs);
    Some(Ok(request))
}

/// The headers set on a client's request are exactly those of its
/// configuration, name and value, in their order, whatever else the
/// configuration holds; without a header list or without a configuration
/// none are set.
pub proof fn lemma_requested_headers_are_configured(config: ConnectionConfig)
    ensures
        config.headers matches Some(hs) ==> {
            &&& requested_headers(Some(config)).len() == hs@.len()
            &&& forall|i: int|
                0 <= i < hs@.len() ==> #[trigger] requested_headers(Some(config))[i] == (
                    hs@[i].0@,
                    hs@[i].1@,
                )
        },
        config.headers is None ==> requested_headers(Some(config)).len() == 0,
        requested_headers(None).len() == 0,
{
}

} // verus!
