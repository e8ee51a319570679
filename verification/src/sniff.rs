//! Protocol sniffing: classify a freshly accepted connection as HTTP or
//! WebSocket from the opening bytes of its request, read with a
//! non-destructive peek so that the full request stays available for the
//! parser that is chosen afterwards.
//!
//! A request is routed to the WebSocket path exactly when its peeked bytes
//! contain `upgrade: websocket` or `upgrade:websocket`, compared
//! ASCII-case-insensitively; every other non-empty request is HTTP, and a
//! request of zero bytes stays unclassified and is rejected.
use vstd::prelude::*;

use crate::errors::ConnectionError;

verus! {

/// Number of bytes peeked from a new connection before classifying it.
pub const SNIFF_BUFFER_LEN: usize = 8192;

/// Bound, in seconds, on how long the sniffer waits for opening bytes.
pub const SNIFF_TIMEOUT_SECS: u64 = 5;

/// What the opening bytes of a connection were found to be.
#[derive(Clone, Copy, Debug, PartialEq, Eq, Structural)]
pub enum Classification {
    /// An ordinary HTTP request: answered with the viewer page, then closed.
    Http,
    /// A WebSocket upgrade request: handed to the frame pump.
    WebSocket,
    /// Zero bytes arrived; the connection is failed as an empty request.
    Unclassified,
}

/// ASCII lower-casing of one byte; bytes outside `A`..=`Z` are unchanged.
pub open spec fn lower_byte(b: u8) -> u8 {
    if 0x41 <= b && b <= 0x5a {
        (b + 0x20) as u8
    } else {
        b
    }
}

/// The pattern `pat` occurs in `data` at offset `i`, comparing `data`
/// ASCII-case-insensitively against the (lower-case) pattern.
pub open spec fn match_at(data: Seq<u8>, pat: Seq<u8>, i: int) -> bool {
    &&& 0 <= i
    &&& i + pat.len() <= data.len()
    &&& forall|j: int| 0 <= j < pat.len() ==> lower_byte(data[i + j]) == pat[j]
}

/// The pattern `pat` occurs somewhere in `data`, case-insensitively.
pub open spec fn contains_ci(data: Seq<u8>, pat: Seq<u8>) -> bool {
    exists|i: int| match_at(data, pat, i)
}

/// The bytes of `upgrade:`, lower case.
pub open spec fn upgrade_prefix() -> Seq<u8> {
    seq![0x75u8, 0x70, 0x67, 0x72, 0x61, 0x64, 0x65, 0x3a]
}

/// The bytes of `websocket`, lower case.
pub open spec fn websocket_token() -> Seq<u8> {
    seq![0x77u8, 0x65, 0x62, 0x73, 0x6f, 0x63, 0x6b, 0x65, 0x74]
}

/// The bytes of the upgrade header that triggers the WebSocket path:
/// `upgrade: websocket` when `spaced`, `upgrade:websocket` otherwise.
pub open spec fn upgrade_pattern(spaced: bool) -> Seq<u8> {
    if spaced {
        upgrade_prefix() + seq![0x20u8] + websocket_token()
    } else {
        upgrade_prefix() + websocket_token()
    }
}

/// The request asks for a WebSocket upgrade: it contains
/// `upgrade: websocket` or `upgrade:websocket` in any letter case.
pub open spec fn is_websocket_upgrade(data: Seq<u8>) -> bool {
    contains_ci(data, upgrade_pattern(true)) || contains_ci(data, upgrade_pattern(false))
}

/// How a connection with the given opening bytes is classified. The
/// classification is a function of the bytes alone: equal requests are
/// always routed the same way.
pub open spec fn classification_of(data: Seq<u8>) -> Classification {
    if data.len() == 0 {
        Classification::Unclassified
    } else if is_websocket_upgrade(data) {
        Classification::WebSocket
    } else {
        Classification::Http
    }
}

/// Executable ASCII lower-casing of one byte.
fn lower_byte_exec(b: u8) -> (r: u8)
    ensures
        r == lower_byte(b),
{
    if 0x41 <= b && b <= 0x5a {
        b + 0x20
    } else {
        b
    }
}

/// The upgrade header pattern as a vector: `upgrade: websocket` when
/// `spaced`, `upgrade:websocket` otherwise.
fn upgrade_pattern_vec(spaced: bool) -> (v: Vec<u8>)
    ensures
        v@ == upgrade_pattern(spaced),
{
    let mut v: Vec<u8> = Vec::new();
    v.push(0x75);
    v.push(0x70);
    v.push(0x67);
    v.push(0x72);
    v.push(0x61);
    v.push(0x64);
    v.push(0x65);
    v.push(0x3a);
    if spaced {
        v.push(0x20);
    }
    v.push(0x77);
    v.push(0x65);
    v.push(0x62);
    v.push(0x73);
    v.push(0x6f);
    v.push(0x63);
    v.push(0x6b);
    v.push(0x65);
    v.push(0x74);
    proof {
        assert(v@ =~= upgrade_pattern(spaced));
    }
    v
}

/// Whether `pat` occurs at offset `i` of `data`, case-insensitively.
fn match_at_exec(data: &[u8], pat: &[u8], i: usize) -> (r: bool)
    requires
        i + pat@.len() <= data@.len(),
    ensures
        r == match_at(data@, pat@, i as int),
{
    let n = data.len();
    let m = pat.len();
    let mut j: usize = 0;
    while j < m
        invariant
            n == data@.len(),
            m == pat@.len(),
            i + m <= n,
            0 <= j <= m,
            forall|k: int| 0 <= k < j ==> lower_byte(data@[i + k]) == pat@[k],
        decreases m - j,
    {
        if lower_byte_exec(data[i + j]) != pat[j] {
            return false;
        }
        j += 1;
    }
    true
}

/// Whether `pat` occurs anywhere in `data`, case-insensitively.
fn contains_ci_exec(data: &[u8], pat: &[u8]) -> (r: bool)
    ensures
        r == contains_ci(data@, pat@),
{
    let n = data.len();
    let m = pat.len();
    if m > n {
        proof {
            assert(forall|i: int| match_at(data@, pat@, i) ==> i + m <= n);
        }
        return false;
    }
    let mut i: usize = 0;
    while i <= n - m
        invariant
            n == data@.len(),
            m == pat@.len(),
            m <= n,
            0 <= i <= n - m + 1,
            forall|k: int| 0 <= k < i ==> !match_at(data@, pat@, k),
        decreases n + 1 - i,
    {
        if match_at_exec(data, pat, i) {
            return true;
        }
        i += 1;
    }
    proof {
        assert forall|k: int| !match_at(data@, pat@, k) by {
            if 0 <= k && k + m <= n {
                assert(k < i);
            }
        }
    }
    false
}

/// Classify the peeked opening bytes of a connection: zero bytes stay
/// unclassified, a request carrying an `upgrade: websocket` header (in any
/// letter case, with or without the space) is WebSocket, and every other
/// request is HTTP.
pub fn classify(data: &[u8]) -> (c: Classification)
    ensures
        c == classification_of(data@),
{
    if data.len() == 0 {
        return Classification::Unclassified;
    }
    let spaced = upgrade_pattern_vec(true);
    let plain = upgrade_pattern_vec(false);
    if contains_ci_exec(data, spaced.as_slice()) || contains_ci_exec(data, plain.as_slice()) {
        Classification::WebSocket
    } else {
        Classification::Http
    }
}

/// Decide the fate of a freshly accepted connection from its peeked bytes:
/// an empty request is rejected, and every other request is routed either
/// to the HTTP responder or to the WebSocket frame pump.
pub fn route_connection(peeked: &[u8]) -> (r: Result<Classification, ConnectionError>)
    ensures
        peeked@.len() == 0 <==> r == Result::<Classification, ConnectionError>::Err(
            ConnectionError::EmptyRequest,
        ),
        peeked@.len() > 0 ==> r == Result::<Classification, ConnectionError>::Ok(
            classification_of(peeked@),
        ),
{
    let c = classify(peeked);
    match c {
        Classification::Unclassified => Err(ConnectionError::EmptyRequest),
        _ => Ok(c),
    }
}

/// Lower-casing every byte of a request does not change how it is
/// classified: the sniff is ASCII-case-insensitive.
pub proof fn lemma_classification_case_insensitive(data: Seq<u8>)
    ensures
        classification_of(data.map_values(|b: u8| lower_byte(b))) == classification_of(data),
{
    let lowered = data.map_values(|b: u8| lower_byte(b));
    assert(lowered.len() == data.len());
    assert forall|p: Seq<u8>| contains_ci(lowered, p) == contains_ci(data, p) by {
        lemma_contains_ci_lower(data, p);
    }
}

/// Case folding is invisible to the case-insensitive search.
proof fn lemma_contains_ci_lower(data: Seq<u8>, pat: Seq<u8>)
    ensures
        contains_ci(data.map_values(|b: u8| lower_byte(b)), pat) == contains_ci(data, pat),
{
    let lowered = data.map_values(|b: u8| lower_byte(b));
    assert forall|i: int| match_at(lowered, pat, i) == match_at(data, pat, i) by {
        if 0 <= i && i + pat.len() <= data.len() {
            assert forall|j: int| 0 <= j < pat.len() implies lower_byte(
                #[trigger] lowered[i + j],
            ) == lower_byte(data[i + j]) by {
                assert(lowered[i + j] == lower_byte(data[i + j]));
            }
        }
    }
    if contains_ci(lowered, pat) {
        let i = choose|i: int| match_at(lowered, pat, i);
        assert(match_at(data, pat, i));
    }
    if contains_ci(data, pat) {
        let i = choose|i: int| match_at(data, pat, i);
        assert(match_at(lowered, pat, i));
    }
}

/// A non-empty request is always classified, and in exactly one way:
/// WebSocket when it carries the upgrade header, HTTP otherwise.
pub proof fn lemma_classification_total(data: Seq<u8>)
    requires
        data.len() > 0,
    ensures
        is_websocket_upgrade(data) ==> classification_of(data) == Classification::WebSocket,
        !is_websocket_upgrade(data) ==> classification_of(data) == Classification::Http,
        classification_of(data) != Classification::Unclassified,
{
}

} // verus!
