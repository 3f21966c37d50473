//! Building the core's data shapes from the plain values an adapter
//! extracts: header maps with case-normalized names, query maps parsed
//! from the raw query string, request fingerprints, and the fixed
//! responses the middleware answers with.
use vstd::prelude::*;

use crate::cache_key::CacheKey;
use crate::kv::{KvMap, apply_pairs, pairs_views};
use crate::remote::{AppGuardHttpRequest, AppGuardHttpResponse, AppGuardTcpInfo};

verus! {

/// The ASCII lowercase of one character: letters `A` to `Z` map to their
/// lowercase counterparts, every other character is unchanged.
pub open spec fn ascii_lower_char(c: char) -> char {
    match c {
        'A' => 'a',
        'B' => 'b',
        'C' => 'c',
        'D' => 'd',
        'E' => 'e',
        'F' => 'f',
        'G' => 'g',
        'H' => 'h',
        'I' => 'i',
        'J' => 'j',
        'K' => 'k',
        'L' => 'l',
        'M' => 'm',
        'N' => 'n',
        'O' => 'o',
        'P' => 'p',
        'Q' => 'q',
        'R' => 'r',
        'S' => 's',
        'T' => 't',
        'U' => 'u',
        'V' => 'v',
        'W' => 'w',
        'X' => 'x',
        'Y' => 'y',
        'Z' => 'z',
        _ => c,
    }
}

/// The ASCII lowercase of a character sequence, character by character.
pub open spec fn ascii_lower(s: Seq<char>) -> Seq<char> {
    s.map_values(|c: char| ascii_lower_char(c))
}

/// Relies on str::to_ascii_lowercase: each character is mapped to its
/// ASCII lowercase equivalent, non-ASCII characters are unchanged.
#[verifier::external_body]
fn ascii_lowercase(s: &str) -> (r: String)
    ensures
        r@ == ascii_lower(s@),
{
    s.to_ascii_lowercase()
}

/// The `(key, value)` pairs that parsing a raw query string yields, in
/// the order they appear in the string.
pub uninterp spec fn query_pairs_of(s: Seq<char>) -> Seq<(Seq<char>, Seq<char>)>;

/// Relies on qstring's QString: parsing a raw query string (with or
/// without a leading question mark) into its `(key, value)` pairs; the
/// result depends on the string alone, and an empty string yields no
/// pairs. The input must be ASCII: the parser slices the string one
/// byte at a time and panics on a multibyte character, so non-ASCII
/// inputs are excluded here.
#[verifier::external_body]
fn parse_query_string(raw: &str) -> (r: Vec<(String, String)>)
    requires
        raw.is_ascii(),
    ensures
        pairs_views(r@) == query_pairs_of(raw@),
        raw@.len() == 0 ==> r@.len() == 0,
{
    qstring::QString::from(raw).into_pairs()
}

/// The map a raw query string denotes: its pairs in order, later
/// occurrences of a key winning.
pub open spec fn query_map_of(s: Seq<char>) -> Map<Seq<char>, Seq<char>> {
    apply_pairs(Map::empty(), query_pairs_of(s))
}

/// Parses a raw query string into a query map.
///
/// The raw query must be ASCII, as an HTTP request target is on the
/// wire; an adapter that cannot guarantee this tests `is_ascii` before
/// calling.
pub fn build_query_map(raw_query: &str) -> (m: KvMap)
    requires
        raw_query.is_ascii(),
    ensures
        m@ == query_map_of(raw_query@),
{
    let pairs = parse_query_string(raw_query);
    let mut m = KvMap::new();
    let n = pairs.len();
    let mut idx: usize = 0;
    while idx < n
        invariant
            n == pairs@.len(),
            idx <= n,
            m@ == apply_pairs(Map::empty(), pairs_views(pairs@).take(idx as int)),
        decreases n - idx,
    {
        let key = pairs[idx].0.clone();
        let value = pairs[idx].1.clone();
        proof {
            let pv = pairs_views(pairs@);
            assert(pv.take(idx + 1).drop_last() =~= pv.take(idx as int));
            assert(pv.take(idx + 1).last() == (key@, value@));
        }
        m.insert(key, value);
        idx += 1;
    }
    proof {
        assert(pairs_views(pairs@).take(n as int) =~= pairs_views(pairs@));
    }
    m
}

/// The header map a pair list denotes: names ASCII-lowercased, later
/// occurrences of a name winning.
pub open spec fn headers_map_of(pairs: Seq<(Seq<char>, Seq<char>)>) -> Map<Seq<char>, Seq<char>> {
    apply_pairs(
        Map::empty(),
        pairs.map_values(|p: (Seq<char>, Seq<char>)| (ascii_lower(p.0), p.1)),
    )
}

/// Builds the header map from extracted header pairs, lowercasing each
/// name so lookups are case-insensitive.
pub fn convert_headers(headers: &Vec<(String, String)>) -> (m: KvMap)
    ensures
        m@ == headers_map_of(pairs_views(headers@)),
{
    let ghost lowered = pairs_views(headers@).map_values(
        |p: (Seq<char>, Seq<char>)| (ascii_lower(p.0), p.1),
    );
    let mut m = KvMap::new();
    let n = headers.len();
    let mut idx: usize = 0;
    while idx < n
        invariant
            n == headers@.len(),
            idx <= n,
            lowered == pairs_views(headers@).map_values(
                |p: (Seq<char>, Seq<char>)| (ascii_lower(p.0), p.1),
            ),
            m@ == apply_pairs(Map::empty(), lowered.take(idx as int)),
        decreases n - idx,
    {
        let key = ascii_lowercase(headers[idx].0.as_str());
        let value = headers[idx].1.clone();
        proof {
            assert(lowered.take(idx + 1).drop_last() =~= lowered.take(idx as int));
            assert(lowered.take(idx + 1).last() == (key@, value@));
        }
        m.insert(key, value);
        idx += 1;
    }
    proof {
        assert(lowered.take(n as int) =~= lowered);
    }
    m
}

/// Builds the fingerprint of a request from the plain values an adapter
/// extracted: path, method, raw query string, header pairs, body, and
/// source address. The raw query must be ASCII, as on the wire.
pub fn to_cache_key(
    original_url: String,
    method: String,
    raw_query: &str,
    headers: &Vec<(String, String)>,
    body: String,
    source_ip: String,
) -> (k: CacheKey)
    requires
        raw_query.is_ascii(),
    ensures
        k.original_url@ == original_url@,
        k.method@ == method@,
        k.query@ == query_map_of(raw_query@),
        k.headers@ == headers_map_of(pairs_views(headers@)),
        k.body@ == body@,
        k.source_ip@ == source_ip@,
{
    CacheKey {
        original_url,
        method,
        query: build_query_map(raw_query),
        headers: convert_headers(headers),
        body,
        source_ip,
    }
}

/// Builds the request descriptor handed to the decision service. The
/// raw query must be ASCII, as on the wire.
pub fn to_appguard_http_request(
    token: String,
    original_url: String,
    method: String,
    raw_query: &str,
    headers: &Vec<(String, String)>,
    body: Option<String>,
    tcp_info: Option<AppGuardTcpInfo>,
) -> (r: AppGuardHttpRequest)
    requires
        raw_query.is_ascii(),
    ensures
        r.token@ == token@,
        r.original_url@ == original_url@,
        r.method@ == method@,
        r.query@ == query_map_of(raw_query@),
        r.headers@ == headers_map_of(pairs_views(headers@)),
        r.body == body,
        r.tcp_info == tcp_info,
{
    AppGuardHttpRequest {
        token,
        original_url,
        headers: convert_headers(headers),
        method,
        body,
        query: build_query_map(raw_query),
        tcp_info,
    }
}

/// Builds the response descriptor handed to the decision service.
pub fn to_appguard_http_response(
    token: String,
    code: u32,
    headers: &Vec<(String, String)>,
    tcp_info: Option<AppGuardTcpInfo>,
) -> (r: AppGuardHttpResponse)
    ensures
        r.token@ == token@,
        r.code == code,
        r.headers@ == headers_map_of(pairs_views(headers@)),
        r.tcp_info == tcp_info,
{
    AppGuardHttpResponse { token, code, headers: convert_headers(headers), tcp_info }
}

/// A response the middleware answers with in place of the handler's.
pub struct PlainResponse {
    pub code: u16,
    pub body: String,
}

/// The answer to a denied request.
pub fn unauthorized_response() -> (r: PlainResponse)
    ensures
        r.code == 401,
        r.body@ == "Unauthorized"@,
{
    PlainResponse { code: 401, body: "Unauthorized".to_owned() }
}

/// The answer to a request whose remote check failed (not a timeout).
pub fn internal_server_error_response() -> (r: PlainResponse)
    ensures
        r.code == 500,
        r.body@ == "Internal server error"@,
{
    PlainResponse { code: 500, body: "Internal server error".to_owned() }
}

} // verus!
