use vstd::prelude::*;

use crate::upgrade::accept_token_spec;
use crate::upgrade::compute_accept_token;
use vstd::string::StringSliceAdditionalSpecFns;

verus! {

/// Tells whether two byte strings hold the same bytes.
pub fn bytes_eq(a: &[u8], b: &[u8]) -> (r: bool)
    ensures
        r == (a@ == b@),
{
    if a.len() != b.len() {
        return false;
    }
    let mut i: usize = 0;
    while i < a.len()
        invariant
            a@.len() == b@.len(),
            i <= a@.len(),
            forall|k: int| 0 <= k < i ==> a@[k] == b@[k],
        decreases a@.len() - i,
    {
        if a[i] != b[i] {
            return false;
        }
        i = i + 1;
    }
    proof {
        assert(a@ =~= b@);
    }
    true
}

/// A byte folded to lower case when it is an ASCII capital, else unchanged.
pub open spec fn ascii_lower(c: u8) -> u8 {
    if 65 <= c && c <= 90 {
        (c + 32) as u8
    } else {
        c
    }
}

/// The whole byte string folded to ASCII lower case.
pub open spec fn lower_bytes(s: Seq<u8>) -> Seq<u8> {
    s.map_values(|c: u8| ascii_lower(c))
}

fn lower_byte(c: u8) -> (r: u8)
    ensures
        r == ascii_lower(c),
{
    if 65 <= c && c <= 90 {
        c + 32
    } else {
        c
    }
}

/// The token a Connection header must contain, in lower case.
pub open spec fn upgrade_token() -> Seq<u8> {
    "upgrade".spec_bytes()
}

/// Whether the needle stands in the haystack at position `i` once the
/// haystack is folded to ASCII lower case.
pub open spec fn token_at(hay: Seq<u8>, needle: Seq<u8>, i: int) -> bool {
    lower_bytes(hay).subrange(i, i + needle.len() as int) == needle
}

/// Whether the needle stands anywhere in the case-folded haystack.
pub open spec fn contains_token(hay: Seq<u8>, needle: Seq<u8>) -> bool {
    exists|i: int| 0 <= i && i + needle.len() <= hay.len() && token_at(hay, needle, i)
}

/// Whether a Connection header value contains `upgrade`, compared without
/// regard to ASCII case.
pub open spec fn connection_wants_upgrade(hay: Seq<u8>) -> bool {
    contains_token(hay, upgrade_token())
}

/// Looks for the needle in the haystack, folding the haystack to ASCII lower
/// case first; the needle is taken as already lower-case.
fn find_token(hay: &[u8], needle: &[u8]) -> (r: bool)
    ensures
        r == contains_token(hay@, needle@),
{
    let n = needle.len();
    if hay.len() < n {
        proof {
            if contains_token(hay@, needle@) {
                let k = choose|k: int|
                    0 <= k && k + needle@.len() <= hay@.len() && token_at(hay@, needle@, k);
                assert(false);
            }
        }
        return false;
    }
    if n == 0 {
        proof {
            assert(lower_bytes(hay@).subrange(0, 0) =~= needle@);
            assert(token_at(hay@, needle@, 0));
        }
        return true;
    }
    let limit = hay.len() - n;
    let mut i: usize = 0;
    while i <= limit
        invariant
            n == needle@.len(),
            n <= hay@.len(),
            limit == hay@.len() - n,
            hay@.len() <= usize::MAX,
            n >= 1,
            i <= limit + 1,
            forall|k: int| 0 <= k < i ==> !token_at(hay@, needle@, k),
        decreases limit + 1 - i,
    {
        let mut j: usize = 0;
        let mut all_match = true;
        while j < n
            invariant
                n == needle@.len(),
                i + n <= hay@.len(),
                i <= limit,
                limit == hay@.len() - n,
                hay@.len() <= usize::MAX,
                j <= n,
                all_match <==> (forall|t: int|
                    0 <= t < j ==> ascii_lower(hay@[i + t]) == needle@[t]),
            decreases n - j,
        {
            assert(i + j < hay@.len());
            if lower_byte(hay[i + j]) != needle[j] {
                all_match = false;
            }
            j = j + 1;
        }
        if all_match {
            proof {
                assert(lower_bytes(hay@).subrange(i as int, i + needle@.len() as int)
                    =~= needle@);
                assert(token_at(hay@, needle@, i as int));
            }
            return true;
        }
        proof {
            let t = choose|t: int| 0 <= t < n && ascii_lower(hay@[i + t]) != needle@[t];
            assert(lower_bytes(hay@).subrange(i as int, i + needle@.len() as int)[t]
                == ascii_lower(hay@[i + t]));
            assert(!token_at(hay@, needle@, i as int));
        }
        i = i + 1;
    }
    proof {
        if contains_token(hay@, needle@) {
            let k = choose|k: int|
                0 <= k && k + needle@.len() <= hay@.len() && token_at(hay@, needle@, k);
            assert(k < i);
            assert(false);
        }
    }
    false
}

/// Whether this header value asks to upgrade, compared without regard to
/// ASCII case.
pub fn header_contains_upgrade(value: &[u8]) -> (r: bool)
    ensures
        r == connection_wants_upgrade(value@),
{
    let needle: &[u8] = "upgrade".as_bytes();
    find_token(value, needle)
}

/// The parts of a decoded request the router reads: the path, and the three
/// headers that govern a WebSocket upgrade, each as the raw header bytes.
pub struct RequestHead {
    pub path: Vec<u8>,
    pub upgrade: Option<Vec<u8>>,
    pub connection: Option<Vec<u8>>,
    pub ws_key: Option<Vec<u8>>,
}

pub struct RequestHeadView {
    pub path: Seq<u8>,
    pub upgrade: Option<Seq<u8>>,
    pub connection: Option<Seq<u8>>,
    pub ws_key: Option<Seq<u8>>,
}

/// An optional header value, seen as its bytes.
pub open spec fn opt_bytes_view(o: Option<Vec<u8>>) -> Option<Seq<u8>> {
    match o {
        Some(v) => Some(v@),
        None => None,
    }
}

impl View for RequestHead {
    type V = RequestHeadView;

    open spec fn view(&self) -> RequestHeadView {
        RequestHeadView {
            path: self.path@,
            upgrade: opt_bytes_view(self.upgrade),
            connection: opt_bytes_view(self.connection),
            ws_key: opt_bytes_view(self.ws_key),
        }
    }
}

/// The exact value an Upgrade header must carry.
pub open spec fn websocket_token() -> Seq<u8> {
    "websocket".spec_bytes()
}

/// The designated path of the streaming response.
pub open spec fn stream_path() -> Seq<u8> {
    "/stream".spec_bytes()
}

/// Whether the request's headers ask for a WebSocket upgrade: an Upgrade
/// header equal to `websocket`, and a Connection header containing `upgrade`
/// without regard to ASCII case.
pub open spec fn upgrade_requested(h: RequestHeadView) -> bool {
    &&& h.upgrade == Some(websocket_token())
    &&& h.connection matches Some(c) && connection_wants_upgrade(c)
}

/// Whether the request carries a usable (present, non-empty) upgrade key.
pub open spec fn has_upgrade_key(h: RequestHeadView) -> bool {
    h.ws_key matches Some(k) && k.len() > 0
}

/// The client-supplied upgrade key, where one is present.
pub open spec fn upgrade_key(h: RequestHeadView) -> Seq<u8> {
    h.ws_key->Some_0
}

/// What the router decides for a request; the caller owes the client the
/// response this names.
pub enum RouteDecision {
    /// Answer 101 Switching Protocols carrying this accept token, then hand
    /// the transport to the session loop.
    Upgrade { accept: String },
    /// Answer 400: the headers ask for an upgrade but carry no usable key.
    BadUpgrade,
    /// Answer 200 with the chunked streaming body.
    Stream,
    /// Answer 200 with the fixed default body.
    Plain,
}

/// Routes a request on the HTTP/1.1 path. First match wins: a well-formed
/// upgrade request is upgraded; an upgrade request without a usable key is
/// refused; the streaming path streams; everything else gets the default
/// response.
pub fn route_http1(head: &RequestHead) -> (d: RouteDecision)
    ensures
        upgrade_requested(head@) && has_upgrade_key(head@) ==> (d matches RouteDecision::Upgrade {
            accept,
        } && accept@ == accept_token_spec(upgrade_key(head@))),
        upgrade_requested(head@) && !has_upgrade_key(head@) ==> d == RouteDecision::BadUpgrade,
        !upgrade_requested(head@) && head@.path == stream_path() ==> d == RouteDecision::Stream,
        !upgrade_requested(head@) && head@.path != stream_path() ==> d == RouteDecision::Plain,
{
    let up_ok = match &head.upgrade {
        Some(v) => bytes_eq(v.as_slice(), "websocket".as_bytes()),
        None => false,
    };
    let conn_ok = match &head.connection {
        Some(v) => header_contains_upgrade(v.as_slice()),
        None => false,
    };
    if up_ok && conn_ok {
        match &head.ws_key {
            Some(k) => {
                if k.len() > 0 {
                    let accept = compute_accept_token(k.as_slice());
                    RouteDecision::Upgrade { accept }
                } else {
                    RouteDecision::BadUpgrade
                }
            },
            None => RouteDecision::BadUpgrade,
        }
    } else if bytes_eq(head.path.as_slice(), "/stream".as_bytes()) {
        RouteDecision::Stream
    } else {
        RouteDecision::Plain
    }
}

/// Routes a request on the HTTP/2 path, where no WebSocket upgrade is
/// offered: the streaming path streams, everything else gets the default
/// response.
pub fn route_http2(head: &RequestHead) -> (d: RouteDecision)
    ensures
        head@.path == stream_path() ==> d == RouteDecision::Stream,
        head@.path != stream_path() ==> d == RouteDecision::Plain,
{
    if bytes_eq(head.path.as_slice(), "/stream".as_bytes()) {
        RouteDecision::Stream
    } else {
        RouteDecision::Plain
    }
}

/// The HTTP status each decision answers with.
pub open spec fn status_of(d: RouteDecision) -> int {
    match d {
        RouteDecision::Upgrade { .. } => 101,
        RouteDecision::BadUpgrade => 400,
        RouteDecision::Stream => 200,
        RouteDecision::Plain => 200,
    }
}

/// The status code owed for a routing decision.
pub fn decision_status(d: &RouteDecision) -> (s: u16)
    ensures
        s as int == status_of(*d),
{
    match d {
        RouteDecision::Upgrade { .. } => 101,
        RouteDecision::BadUpgrade => 400,
        RouteDecision::Stream => 200,
        RouteDecision::Plain => 200,
    }
}

/// Body of the default response on the HTTP/1.1 path.
pub fn default_body_http1() -> (r: String)
    ensures
        r@ == "Hello"@,
{
    "Hello".to_owned()
}

/// Body of the default response on the HTTP/2 path.
pub fn default_body_http2() -> (r: String)
    ensures
        r@ == "Hello from http2"@,
{
    "Hello from http2".to_owned()
}

/// Diagnostic body of the 400 answer to an upgrade request without a key.
pub fn missing_key_body() -> (r: String)
    ensures
        r@ == "Missing Sec-WebSocket-Key"@,
{
    "Missing Sec-WebSocket-Key".to_owned()
}

} // verus!
