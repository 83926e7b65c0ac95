use vstd::prelude::*;
use vstd::string::*;
use crate::error::{Error, ErrorModel, ProtocolError, ProtocolErrorModel};
use crate::parse::{
    find_byte, find_pattern, first_byte_from, first_match_from, matches_at,
};
use crate::wire::headers_model;

verus! {

/// Whether `s` begins with `p`, character for character.
pub open spec fn seq_starts_with(s: Seq<char>, p: Seq<char>) -> bool {
    p.len() <= s.len() && (forall|k: int| 0 <= k < p.len() ==> s[k] == p[k])
}

/// A base server address this layer accepts: one that names one of the two
/// web schemes.  Anything else is a malformed base address and the request
/// is never built.
pub open spec fn valid_base(s: Seq<char>) -> bool {
    seq_starts_with(s, "http://"@) || seq_starts_with(s, "https://"@)
}

/// Whether the string slice begins with the given prefix.
fn has_prefix(s: &str, p: &str) -> (b: bool)
    ensures
        b == seq_starts_with(s@, p@),
{
    let s_len: usize = s.unicode_len();
    let p_len: usize = p.unicode_len();
    if p_len > s_len {
        return false;
    }
    let mut i: usize = 0;
    while i < p_len
        invariant
            s_len == s@.len(),
            p_len == p@.len(),
            p_len <= s_len,
            i <= p_len,
            forall|k: int| 0 <= k < i ==> s@[k] == p@[k],
        decreases p_len - i,
    {
        if s.get_char(i) != p.get_char(i) {
            return false;
        }
        i = i + 1;
    }
    true
}

/// Joins the base server address and a path into the request URL, failing
/// exactly when the base address is malformed.
pub fn build_url(base: &str, path: &str) -> (r: Option<String>)
    ensures
        match r {
            Some(u) => valid_base(base@) && u@ == base@ + path@,
            None => !valid_base(base@),
        },
{
    if has_prefix(base, "http://") || has_prefix(base, "https://") {
        Some(String::from_str(base).concat(path))
    } else {
        None
    }
}

/// The header pairs carrying the optional access token: a single bearer
/// authorization header when a token is supplied, none otherwise.
pub open spec fn spec_auth_headers(token: Option<Seq<char>>) -> Seq<(Seq<char>, Seq<char>)> {
    match token {
        Some(t) => seq![("authorization"@, "Bearer "@ + t)],
        None => Seq::empty(),
    }
}

/// The view of an optional string slice.
pub open spec fn opt_view(t: Option<&str>) -> Option<Seq<char>> {
    match t {
        Some(s) => Some(s@),
        None => None,
    }
}

/// Builds the header collection carrying the optional access token.
pub fn auth_header_vec(access_token: Option<&str>) -> (r: Vec<(String, String)>)
    ensures
        headers_model(r@) == spec_auth_headers(opt_view(access_token)),
{
    let mut headers: Vec<(String, String)> = Vec::new();
    match access_token {
        Some(t) => {
            let name = String::from_str("authorization");
            let value = String::from_str("Bearer ").concat(t);
            headers.push((name, value));
            proof {
                assert(headers_model(headers@) =~= spec_auth_headers(opt_view(access_token)));
            }
        },
        None => {
            proof {
                assert(headers_model(headers@) =~= spec_auth_headers(opt_view(access_token)));
            }
        },
    }
    headers
}

/// The bytes of the error envelope's code field key, quote to opening
/// quote, in the compact form servers send it.
pub open spec fn errcode_key() -> Seq<u8> {
    seq![34u8, 101u8, 114u8, 114u8, 99u8, 111u8, 100u8, 101u8, 34u8, 58u8, 34u8]
}

/// Builds [`errcode_key`] as a byte vector.
fn errcode_key_vec() -> (r: Vec<u8>)
    ensures
        r@ == errcode_key(),
{
    let mut p: Vec<u8> = Vec::new();
    p.push(34);
    p.push(101);
    p.push(114);
    p.push(114);
    p.push(99);
    p.push(111);
    p.push(100);
    p.push(101);
    p.push(34);
    p.push(58);
    p.push(34);
    proof {
        assert(p@ =~= errcode_key());
    }
    p
}

/// The server-supplied error code inside a body, if the body holds a
/// recognizable error envelope: the bytes between the code field's opening
/// and closing quotes.
pub open spec fn spec_errcode(body: Seq<u8>) -> Option<Seq<u8>> {
    match first_match_from(body, errcode_key(), 0) {
        None => None,
        Some(i) => {
            let start = i + errcode_key().len();
            match first_byte_from(body, 34u8, start) {
                None => None,
                Some(j) => Some(body.subrange(start, j)),
            }
        },
    }
}

/// A found occurrence lies at or after the scan start and the pattern
/// indeed occurs there.
pub proof fn lemma_first_match_found(hay: Seq<u8>, pat: Seq<u8>, i: int, j: int)
    requires
        0 <= i,
        1 <= pat.len(),
        first_match_from(hay, pat, i) == Some(j),
    ensures
        i <= j,
        matches_at(hay, pat, j),
    decreases hay.len() - i,
{
    if i + pat.len() <= hay.len() && !matches_at(hay, pat, i) {
        lemma_first_match_found(hay, pat, i + 1, j);
    }
}

/// A found byte lies at or after the scan start, within the sequence.
proof fn lemma_first_byte_found(hay: Seq<u8>, b: u8, i: int, j: int)
    requires
        0 <= i,
        first_byte_from(hay, b, i) == Some(j),
    ensures
        i <= j < hay.len(),
    decreases hay.len() - i,
{
    if i < hay.len() && hay[i] != b {
        lemma_first_byte_found(hay, b, i + 1, j);
    }
}

/// An owned copy of the byte range `from .. to` of a slice.
pub fn bytes_range(s: &[u8], from: usize, to: usize) -> (r: Vec<u8>)
    requires
        from <= to <= s@.len(),
    ensures
        r@ == s@.subrange(from as int, to as int),
{
    let mut out: Vec<u8> = Vec::new();
    let mut i: usize = from;
    while i < to
        invariant
            from <= i <= to <= s@.len(),
            out@ == s@.subrange(from as int, i as int),
        decreases to - i,
    {
        out.push(s[i]);
        proof {
            assert(out@ =~= s@.subrange(from as int, i as int + 1));
        }
        i = i + 1;
    }
    out
}

/// Reads the server-supplied error code out of a body holding an error
/// envelope, exactly as [`spec_errcode`] describes it.
pub fn extract_errcode(body: &[u8]) -> (r: Option<Vec<u8>>)
    ensures
        match r {
            Some(code) => spec_errcode(body@) == Some(code@),
            None => spec_errcode(body@) is None,
        },
{
    let body_len: usize = body.len();
    let key = errcode_key_vec();
    match find_pattern(body, key.as_slice()) {
        None => None,
        Some(i) => {
            proof {
                lemma_first_match_found(body@, errcode_key(), 0, i as int);
                assert(body@.len() == body_len as int);
            }
            let start: usize = i + key.len();
            match find_byte(body, 34, start) {
                None => None,
                Some(j) => {
                    proof {
                        lemma_first_byte_found(body@, 34u8, start as int, j as int);
                    }
                    Some(bytes_range(body, start, j))
                },
            }
        },
    }
}

/// How a response that does not decode as success is classified: a
/// recognized error envelope becomes a protocol error carrying the status
/// and the server's error code; anything else is a decode failure.
pub open spec fn spec_failure(status: u16, body: Seq<u8>) -> ErrorModel {
    match spec_errcode(body) {
        Some(code) => ErrorModel::Protocol(ProtocolErrorModel { status: status, errcode: code }),
        None => ErrorModel::ResponseDecode,
    }
}

/// Classifies a response that did not decode as success, exactly as
/// [`spec_failure`] describes it.
pub fn decode_failure(status: u16, body: &[u8]) -> (e: Error)
    ensures
        e@ == spec_failure(status, body@),
{
    match extract_errcode(body) {
        Some(code) => Error::Protocol(ProtocolError { status: status, errcode: code }),
        None => Error::ResponseDecode,
    }
}

} // verus!
