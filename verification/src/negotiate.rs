use vstd::prelude::*;

use crate::router::bytes_eq;
use vstd::slice::slice_to_vec;
use vstd::string::StringSliceAdditionalSpecFns;

verus! {

/// The ALPN identifier of HTTP/2.
pub open spec fn h2_token() -> Seq<u8> {
    "h2".spec_bytes()
}

/// The ALPN identifier of HTTP/1.1.
pub open spec fn http11_token() -> Seq<u8> {
    "http/1.1".spec_bytes()
}

/// The fixed, ordered application-protocol preference list the secure
/// listener is configured with.
pub open spec fn server_preference() -> Seq<Seq<u8>> {
    seq![h2_token(), http11_token()]
}

/// A list of protocol identifiers, seen as byte sequences.
pub open spec fn offers_view(offers: Seq<Vec<u8>>) -> Seq<Seq<u8>> {
    offers.map_values(|v: Vec<u8>| v@)
}

/// The first entry of the preference list that the client also offered, if
/// any: protocol selection by the server's order of preference.
pub open spec fn first_match(prefs: Seq<Seq<u8>>, offers: Seq<Seq<u8>>) -> Option<Seq<u8>>
    decreases prefs.len(),
{
    if prefs.len() == 0 {
        None
    } else if offers.contains(prefs[0]) {
        Some(prefs[0])
    } else {
        first_match(prefs.drop_first(), offers)
    }
}

/// Whether some offer holds exactly these token bytes.
fn offers_contain(offers: &Vec<Vec<u8>>, token: &[u8]) -> (r: bool)
    ensures
        r == offers_view(offers@).contains(token@),
{
    let mut i: usize = 0;
    while i < offers.len()
        invariant
            i <= offers@.len(),
            forall|k: int| 0 <= k < i ==> offers_view(offers@)[k] != token@,
        decreases offers@.len() - i,
    {
        if bytes_eq(offers[i].as_slice(), token) {
            proof {
                assert(offers_view(offers@)[i as int] == token@);
            }
            return true;
        }
        i = i + 1;
    }
    proof {
        if offers_view(offers@).contains(token@) {
            let k = choose|k: int|
                0 <= k < offers_view(offers@).len() && offers_view(offers@)[k] == token@;
            assert(false);
        }
    }
    false
}

/// The protocol ALPN yields for these client offers against the fixed server
/// preference list: the server's most preferred protocol the client also
/// offered, or none when the two lists share nothing.
pub fn negotiate_alpn(offers: &Vec<Vec<u8>>) -> (r: Option<Vec<u8>>)
    ensures
        match r {
            Some(p) => first_match(server_preference(), offers_view(offers@)) == Some(p@),
            None => first_match(server_preference(), offers_view(offers@)) is None,
        },
{
    let h2: &[u8] = "h2".as_bytes();
    let http11: &[u8] = "http/1.1".as_bytes();
    if offers_contain(offers, h2) {
        proof {
            reveal_with_fuel(first_match, 3);
        }
        return Some(slice_to_vec(h2));
    }
    if offers_contain(offers, http11) {
        proof {
            reveal_with_fuel(first_match, 3);
            assert(server_preference().drop_first() =~= seq![http11_token()]);
        }
        return Some(slice_to_vec(http11));
    }
    proof {
        reveal_with_fuel(first_match, 3);
        assert(server_preference().drop_first() =~= seq![http11_token()]);
        assert(seq![http11_token()].drop_first() =~= Seq::<Seq<u8>>::empty());
    }
    None
}

/// Law: against the fixed preference list, a client that offers the older
/// protocol but not the newer one is served the older one, and a client that
/// offers neither is served nothing and the connection counts as failed.
pub proof fn lemma_alpn_server_preference(offers: Seq<Seq<u8>>)
    ensures
        !offers.contains(h2_token()) && offers.contains(http11_token()) ==> first_match(
            server_preference(),
            offers,
        ) == Some(http11_token()),
        !offers.contains(h2_token()) && !offers.contains(http11_token()) ==> first_match(
            server_preference(),
            offers,
        ) is None,
{
    reveal_with_fuel(first_match, 3);
    assert(server_preference().drop_first() =~= seq![http11_token()]);
    assert(seq![http11_token()].drop_first() =~= Seq::<Seq<u8>>::empty());
}

/// The application protocols this front end serves.
#[derive(Clone, Copy, Debug, PartialEq, Eq, Structural)]
pub enum Protocol {
    H2,
    Http11,
}

/// Where a secure connection stands, from the accept queue to an established
/// protocol or a failure.
#[derive(Clone, Copy, Debug, PartialEq, Eq, Structural)]
pub enum ConnState {
    Accepted,
    Negotiating,
    Established(Protocol),
    Failed,
}

/// The protocol engine owed for a negotiated ALPN value, if any.
pub open spec fn select_protocol_spec(alpn: Option<Seq<u8>>) -> Option<Protocol> {
    match alpn {
        None => None,
        Some(b) => if b == h2_token() {
            Some(Protocol::H2)
        } else if b == http11_token() {
            Some(Protocol::Http11)
        } else {
            None
        },
    }
}

/// An optional negotiated-protocol value, seen as its bytes.
pub open spec fn opt_alpn_view(alpn: Option<&Vec<u8>>) -> Option<Seq<u8>> {
    match alpn {
        Some(v) => Some(v@),
        None => None,
    }
}

/// Picks the protocol engine for the negotiated ALPN value: HTTP/2 for `h2`,
/// HTTP/1.1 for `http/1.1`, and none for anything else or for no value.
pub fn select_protocol(alpn: Option<&Vec<u8>>) -> (p: Option<Protocol>)
    ensures
        p == select_protocol_spec(opt_alpn_view(alpn)),
{
    match alpn {
        None => None,
        Some(v) => {
            if bytes_eq(v.as_slice(), "h2".as_bytes()) {
                Some(Protocol::H2)
            } else if bytes_eq(v.as_slice(), "http/1.1".as_bytes()) {
                Some(Protocol::Http11)
            } else {
                None
            }
        },
    }
}

/// What a finished TLS negotiation leaves the connection in.
pub open spec fn after_handshake_spec(outcome: Option<Option<Seq<u8>>>) -> ConnState {
    match outcome {
        None => ConnState::Failed,
        Some(alpn) => match select_protocol_spec(alpn) {
            Some(p) => ConnState::Established(p),
            None => ConnState::Failed,
        },
    }
}

/// A handshake outcome, seen as the negotiated bytes where it succeeded.
pub open spec fn outcome_view(outcome: Option<Option<&Vec<u8>>>) -> Option<Option<Seq<u8>>> {
    match outcome {
        None => None,
        Some(alpn) => Some(opt_alpn_view(alpn)),
    }
}

/// Decides a secure connection's fate after TLS negotiation: a failed
/// handshake fails the connection; a successful one is established on the
/// negotiated protocol; one that negotiated no servable protocol counts as
/// failed for application purposes and is closed.
pub fn after_handshake(outcome: Option<Option<&Vec<u8>>>) -> (s: ConnState)
    ensures
        s == after_handshake_spec(outcome_view(outcome)),
{
    match outcome {
        None => ConnState::Failed,
        Some(alpn) => match select_protocol(alpn) {
            Some(p) => ConnState::Established(p),
            None => ConnState::Failed,
        },
    }
}

/// Law: a connection is established exactly on a successful handshake whose
/// ALPN value names a servable protocol; every other outcome is failed.
pub proof fn lemma_established_iff_servable(outcome: Option<Option<Seq<u8>>>)
    ensures
        (after_handshake_spec(outcome) matches ConnState::Established(p)) <==> (
        outcome matches Some(alpn) && select_protocol_spec(alpn) is Some),
        after_handshake_spec(outcome) is Established || after_handshake_spec(outcome) is Failed,
{
}

} // verus!
