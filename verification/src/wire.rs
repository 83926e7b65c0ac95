use vstd::prelude::*;
use vstd::string::*;

verus! {

/// The HTTP methods the dispatch layer distinguishes.  Content-type
/// normalization applies exactly to the mutating methods.
#[derive(Debug, Clone, Copy, PartialEq, Eq, Structural)]
pub enum Method {
    Get,
    Post,
    Put,
    Delete,
}

impl Method {
    /// Whether the method is one of the mutating methods whose requests get a
    /// forced JSON content-type.
    pub open spec fn spec_is_mutating(self) -> bool {
        self == Method::Post || self == Method::Put || self == Method::Delete
    }

    /// Executable twin of [`Method::spec_is_mutating`].
    pub fn is_mutating(self) -> (b: bool)
        ensures
            b == self.spec_is_mutating(),
    {
        match self {
            Method::Post | Method::Put | Method::Delete => true,
            Method::Get => false,
        }
    }
}

/// The header collection as contracts speak of it: a sequence of
/// (name, value) pairs of character sequences, in order.
pub open spec fn headers_model(h: Seq<(String, String)>) -> Seq<(Seq<char>, Seq<char>)> {
    Seq::new(h.len(), |i: int| (h[i].0@, h[i].1@))
}

/// The canonical header name under which the body's media type travels.
/// Header names are carried lowercase throughout this layer.
pub open spec fn content_type_name() -> Seq<char> {
    "content-type"@
}

/// The JSON media type forced onto mutating requests.
pub open spec fn json_media_type() -> Seq<char> {
    "application/json"@
}

/// The value of the last header with the given name, if any: the value that
/// wins when a header is set several times.
pub open spec fn header_value(h: Seq<(Seq<char>, Seq<char>)>, name: Seq<char>) -> Option<
    Seq<char>,
>
    decreases h.len(),
{
    if h.len() == 0 {
        None
    } else if h.last().0 == name {
        Some(h.last().1)
    } else {
        header_value(h.drop_last(), name)
    }
}

/// The header sequence with every pair of the given name removed, order of
/// the rest kept.
pub open spec fn strip_header(h: Seq<(Seq<char>, Seq<char>)>, name: Seq<char>) -> Seq<
    (Seq<char>, Seq<char>),
>
    decreases h.len(),
{
    if h.len() == 0 {
        Seq::empty()
    } else {
        let rest = strip_header(h.drop_last(), name);
        if h.last().0 == name {
            rest
        } else {
            rest.push(h.last())
        }
    }
}

/// The header sequence after content-type normalization: every previous
/// content-type pair removed and exactly one JSON content-type appended.
pub open spec fn normalized_headers(h: Seq<(Seq<char>, Seq<char>)>) -> Seq<
    (Seq<char>, Seq<char>),
> {
    strip_header(h, content_type_name()).push((content_type_name(), json_media_type()))
}

/// A raw wire request: method, URL, headers and body bytes.  It carries no
/// identity of its own; correlation is the caller's responsibility.
#[derive(Debug)]
pub struct WireRequest {
    pub method: Method,
    pub url: String,
    pub headers: Vec<(String, String)>,
    pub body: Vec<u8>,
}

/// The mathematical model of a [`WireRequest`].
pub ghost struct ReqModel {
    pub method: Method,
    pub url: Seq<char>,
    pub headers: Seq<(Seq<char>, Seq<char>)>,
    pub body: Seq<u8>,
}

impl View for WireRequest {
    type V = ReqModel;

    open spec fn view(&self) -> ReqModel {
        ReqModel {
            method: self.method,
            url: self.url@,
            headers: headers_model(self.headers@),
            body: self.body@,
        }
    }
}

/// What a transport implementation hands back: the status code, the header
/// entries as the transport yielded them (an entry whose name failed the
/// transport's well-formedness check carries no name), and the fully
/// buffered body.
#[derive(Debug)]
pub struct RawResponse {
    pub status: u16,
    pub headers: Vec<(Option<String>, String)>,
    pub body: Vec<u8>,
}

/// The mathematical model of a [`RawResponse`]'s header entries.
pub open spec fn raw_headers_model(h: Seq<(Option<String>, String)>) -> Seq<
    (Option<Seq<char>>, Seq<char>),
> {
    Seq::new(
        h.len(),
        |i: int| (
            match h[i].0 {
                Some(n) => Some(n@),
                None => None,
            },
            h[i].1@,
        ),
    )
}

/// The mathematical model of a [`RawResponse`].
pub ghost struct RawModel {
    pub status: u16,
    pub headers: Seq<(Option<Seq<char>>, Seq<char>)>,
    pub body: Seq<u8>,
}

impl View for RawResponse {
    type V = RawModel;

    open spec fn view(&self) -> RawModel {
        RawModel {
            status: self.status,
            headers: raw_headers_model(self.headers@),
            body: self.body@,
        }
    }
}

/// The canonical wire response: status code, well-formed headers and body
/// bytes.
#[derive(Debug)]
pub struct WireResponse {
    pub status: u16,
    pub headers: Vec<(String, String)>,
    pub body: Vec<u8>,
}

/// The mathematical model of a [`WireResponse`].
pub ghost struct RespModel {
    pub status: u16,
    pub headers: Seq<(Seq<char>, Seq<char>)>,
    pub body: Seq<u8>,
}

impl View for WireResponse {
    type V = RespModel;

    open spec fn view(&self) -> RespModel {
        RespModel {
            status: self.status,
            headers: headers_model(self.headers@),
            body: self.body@,
        }
    }
}

/// The canonical header collection of a raw response: exactly the named
/// entries, in order, the nameless ones silently dropped.
pub open spec fn canonical_headers(entries: Seq<(Option<Seq<char>>, Seq<char>)>) -> Seq<
    (Seq<char>, Seq<char>),
>
    decreases entries.len(),
{
    if entries.len() == 0 {
        Seq::empty()
    } else {
        let rest = canonical_headers(entries.drop_last());
        match entries.last().0 {
            Some(n) => rest.push((n, entries.last().1)),
            None => rest,
        }
    }
}

/// The model of a wire request after content-type normalization: a
/// mutating request gets its headers normalized, any other request is left
/// untouched.
pub open spec fn normalize_model(m: ReqModel) -> ReqModel {
    if m.method.spec_is_mutating() {
        ReqModel {
            method: m.method,
            url: m.url,
            headers: normalized_headers(m.headers),
            body: m.body,
        }
    } else {
        m
    }
}

/// Normalizes the headers of a wire request in place: for a mutating method
/// the content-type header is forced to the JSON media type, overriding
/// whatever the operation-specific builder set; for any other method the
/// headers are left untouched.  Method, URL and body never change.
pub fn normalize_headers(request: &mut WireRequest)
    ensures
        final(request)@.method == old(request)@.method,
        final(request)@.url == old(request)@.url,
        final(request)@.body == old(request)@.body,
        old(request)@.method.spec_is_mutating() ==> final(request)@.headers == normalized_headers(
            old(request)@.headers,
        ),
        !old(request)@.method.spec_is_mutating() ==> final(request)@.headers == old(
            request,
        )@.headers,
{
    if request.method.is_mutating() {
        let ghost orig: Seq<(Seq<char>, Seq<char>)> = request@.headers;
        let mut kept: Vec<(String, String)> = Vec::new();
        let mut i: usize = 0;
        while i < request.headers.len()
            invariant
                i <= request.headers.len(),
                orig == headers_model(request.headers@),
                headers_model(kept@) == strip_header(orig.subrange(0, i as int), content_type_name()),
            decreases request.headers.len() - i,
        {
            let ghost prefix = orig.subrange(0, i as int);
            let pair = &request.headers[i];
            let keep = !str_eq_content_type(pair.0.as_str());
            if keep {
                let name = pair.0.clone();
                let value = pair.1.clone();
                kept.push((name, value));
            }
            proof {
                let longer = orig.subrange(0, i as int + 1);
                assert(longer.drop_last() =~= prefix);
                assert(longer.last() == orig[i as int]);
                assert(headers_model(kept@) =~= strip_header(longer, content_type_name()));
            }
            i = i + 1;
        }
        proof {
            assert(orig.subrange(0, orig.len() as int) =~= orig);
        }
        let name = String::from_str("content-type");
        let value = String::from_str("application/json");
        kept.push((name, value));
        proof {
            assert(headers_model(kept@) =~= normalized_headers(orig));
        }
        request.headers = kept;
    }
}

/// Whether the string equals the canonical content-type header name.
fn str_eq_content_type(s: &str) -> (b: bool)
    ensures
        b == (s@ == content_type_name()),
{
    str_eq(s, "content-type")
}

/// Character-for-character equality of two string slices.
fn str_eq(a: &str, b: &str) -> (r: bool)
    ensures
        r == (a@ == b@),
{
    let a_len: usize = a.unicode_len();
    let b_len: usize = b.unicode_len();
    if a_len != b_len {
        return false;
    }
    let mut i: usize = 0;
    while i < a_len
        invariant
            a_len == a@.len(),
            b_len == b@.len(),
            a_len == b_len,
            i <= a_len,
            forall|j: int| 0 <= j < i ==> a@[j] == b@[j],
        decreases a_len - i,
    {
        if a.get_char(i) != b.get_char(i) {
            return false;
        }
        i = i + 1;
    }
    proof {
        assert(a@ =~= b@);
    }
    true
}

/// Converts a raw transport response into the canonical wire response shape:
/// the status code is preserved, the header entries are flattened into the
/// canonical collection (nameless entries silently dropped, since a
/// malformed header is not recoverable at this layer and header loss is
/// non-fatal to body-based decoding), and the body is carried over whole.
pub fn response_to_http_response(response: RawResponse) -> (r: WireResponse)
    ensures
        r@.status == response@.status,
        r@.body == response@.body,
        r@.headers == canonical_headers(response@.headers),
{
    let ghost orig: Seq<(Option<Seq<char>>, Seq<char>)> = response@.headers;
    let mut headers: Vec<(String, String)> = Vec::new();
    let mut i: usize = 0;
    while i < response.headers.len()
        invariant
            i <= response.headers.len(),
            orig == raw_headers_model(response.headers@),
            headers_model(headers@) == canonical_headers(orig.subrange(0, i as int)),
        decreases response.headers.len() - i,
    {
        let ghost prefix = orig.subrange(0, i as int);
        let entry = &response.headers[i];
        if let Some(name) = &entry.0 {
            let name = name.clone();
            let value = entry.1.clone();
            headers.push((name, value));
        }
        proof {
            let longer = orig.subrange(0, i as int + 1);
            assert(longer.drop_last() =~= prefix);
            assert(longer.last() == orig[i as int]);
            assert(headers_model(headers@) =~= canonical_headers(longer));
        }
        i = i + 1;
    }
    proof {
        assert(orig.subrange(0, orig.len() as int) =~= orig);
    }
    WireResponse { status: response.status, headers, body: response.body }
}

/// After normalization of a mutating request the content-type header is
/// exactly the JSON media type, and every header of another name answers as
/// it did before.
pub proof fn lemma_normalized_content_type(h: Seq<(Seq<char>, Seq<char>)>)
    ensures
        header_value(normalized_headers(h), content_type_name()) == Some(json_media_type()),
        forall|n: Seq<char>|
            n != content_type_name() ==> #[trigger] header_value(normalized_headers(h), n)
                == header_value(h, n),
{
    let ct = content_type_name();
    let out = normalized_headers(h);
    assert(out.last() == (ct, json_media_type()));
    assert forall|n: Seq<char>| n != ct implies #[trigger] header_value(out, n) == header_value(
        h,
        n,
    ) by {
        assert(out.drop_last() =~= strip_header(h, ct));
        lemma_strip_header_other(h, ct, n);
    }
}

/// Removing every header of one name leaves every other name's answer
/// unchanged.
proof fn lemma_strip_header_other(h: Seq<(Seq<char>, Seq<char>)>, name: Seq<char>, n: Seq<char>)
    requires
        n != name,
    ensures
        header_value(strip_header(h, name), n) == header_value(h, n),
    decreases h.len(),
{
    if h.len() > 0 {
        lemma_strip_header_other(h.drop_last(), name, n);
        let rest = strip_header(h.drop_last(), name);
        if h.last().0 == name {
        } else {
            assert(strip_header(h, name) == rest.push(h.last()));
            assert(rest.push(h.last()).drop_last() =~= rest);
        }
    }
}

} // verus!
