//! Building authenticated requests against the versioned REST
//! namespaces.
//!
//! A built request is a plain value: a method, a fully-formed URL, the
//! three headers that every call carries, and the body, if the method
//! carries one. A transport takes it from there.
use vstd::prelude::*;
use vstd::string::*;

use crate::error::ClientError;
use crate::json::{json_to_text, opt_str_view, spec_print_json, Json, JsonV};

verus! {

/// The version of the REST API that paths are built against.
pub const SLURM_API_VERSION: &'static str = "v0.0.38";

/// The fixed path prefix of the controller namespace.
pub const SLURM_PREFIX: &'static str = "slurm/v0.0.38/";

/// The fixed path prefix of the accounting namespace.
pub const SLURMDB_PREFIX: &'static str = "slurmdb/v0.0.38/";

/// The header carrying the user name.
pub const SLURM_USER_HEADER: &'static str = "x-slurm-user-name";

/// The header carrying the token.
pub const SLURM_TOKEN_HEADER: &'static str = "x-slurm-user-token";

/// The content-type header name.
pub const CONTENT_TYPE_HEADER: &'static str = "content-type";

/// The content type of every request of this client.
pub const CONTENT_TYPE_JSON: &'static str = "application/json";

/// An HTTP method.
#[derive(Debug, Clone, Copy, PartialEq, Eq, Structural)]
pub enum Method {
    Get,
    Post,
    Put,
    Delete,
    Patch,
    Head,
}

impl Method {
    /// Whether a request with this method carries a body: GET and
    /// DELETE requests never do.
    pub open spec fn spec_carries_body(self) -> bool {
        !(self is Get || self is Delete)
    }

    /// Whether a request with this method carries a body.
    pub fn carries_body(&self) -> (r: bool)
        ensures
            r == self.spec_carries_body(),
    {
        match self {
            Method::Get => false,
            Method::Delete => false,
            _ => true,
        }
    }

    /// The method's name on the wire.
    pub open spec fn spec_name(self) -> Seq<char> {
        match self {
            Method::Get => "GET"@,
            Method::Post => "POST"@,
            Method::Put => "PUT"@,
            Method::Delete => "DELETE"@,
            Method::Patch => "PATCH"@,
            Method::Head => "HEAD"@,
        }
    }

    /// The method's name on the wire.
    pub fn name(&self) -> (r: &'static str)
        ensures
            r@ == self.spec_name(),
    {
        match self {
            Method::Get => "GET",
            Method::Post => "POST",
            Method::Put => "PUT",
            Method::Delete => "DELETE",
            Method::Patch => "PATCH",
            Method::Head => "HEAD",
        }
    }
}

/// Whether `c` may stand in an HTTP header value: horizontal tab, or
/// any character other than the remaining ASCII controls. Every byte of
/// a character outside ASCII is at least 128, which HTTP accepts in a
/// value, so only ASCII controls are excluded.
pub open spec fn valid_header_char(c: char) -> bool {
    c == '\t' || (c as u32 >= 32 && c as u32 != 127)
}

/// Whether every character of `s` may stand in an HTTP header value.
pub open spec fn valid_header_value(s: Seq<char>) -> bool {
    forall|i: int| 0 <= i < s.len() ==> valid_header_char(s[i])
}

/// Decide whether `s` may stand in an HTTP header value.
pub fn check_header_value(s: &str) -> (r: bool)
    ensures
        r == valid_header_value(s@),
{
    let n = s.unicode_len();
    let mut i: usize = 0;
    while i < n
        invariant
            i <= n,
            n == s@.len(),
            forall|k: int| 0 <= k < i ==> valid_header_char(s@[k]),
        decreases n - i,
    {
        let c = s.get_char(i);
        if !(c == '\t' || (c as u32 >= 32 && c as u32 != 127)) {
            return false;
        }
        i = i + 1;
    }
    true
}

/// The characters standing for a sequence of ASCII bytes.
pub open spec fn byte_chars(b: Seq<u8>) -> Seq<char> {
    Seq::new(b.len(), |i: int| b[i] as char)
}

/// The bytes that encode `c` on the wire, by the standard one-to-four
/// byte scheme for a Unicode scalar value.
pub open spec fn spec_utf8_bytes(c: char) -> Seq<u8> {
    let cp = c as u32;
    if cp < 0x80 {
        seq![cp as u8]
    } else if cp < 0x800 {
        seq![(0xC0 + cp / 0x40) as u8, (0x80 + cp % 0x40) as u8]
    } else if cp < 0x10000 {
        seq![
            (0xE0 + cp / 0x1000) as u8,
            (0x80 + (cp / 0x40) % 0x40) as u8,
            (0x80 + cp % 0x40) as u8,
        ]
    } else {
        seq![
            (0xF0 + cp / 0x40000) as u8,
            (0x80 + (cp / 0x1000) % 0x40) as u8,
            (0x80 + (cp / 0x40) % 0x40) as u8,
            (0x80 + cp % 0x40) as u8,
        ]
    }
}

/// The bytes that encode `c`.
fn utf8_bytes(c: char) -> (r: Vec<u8>)
    ensures
        r@ == spec_utf8_bytes(c),
{
    let cp = c as u32;
    let mut out: Vec<u8> = Vec::new();
    if cp < 0x80 {
        out.push(cp as u8);
    } else if cp < 0x800 {
        out.push((0xC0 + cp / 0x40) as u8);
        out.push((0x80 + cp % 0x40) as u8);
    } else if cp < 0x10000 {
        out.push((0xE0 + cp / 0x1000) as u8);
        out.push((0x80 + (cp / 0x40) % 0x40) as u8);
        out.push((0x80 + cp % 0x40) as u8);
    } else {
        out.push((0xF0 + cp / 0x40000) as u8);
        out.push((0x80 + (cp / 0x1000) % 0x40) as u8);
        out.push((0x80 + (cp / 0x40) % 0x40) as u8);
        out.push((0x80 + cp % 0x40) as u8);
    }
    proof {
        assert(out@ =~= spec_utf8_bytes(c));
    }
    out
}

/// Whether `c` passes through a form-urlencoded query untouched:
/// letters, digits, and `*`, `-`, `.`, `_`.
pub open spec fn query_unreserved(c: char) -> bool {
    ('a' <= c && c <= 'z') || ('A' <= c && c <= 'Z') || ('0' <= c && c <= '9') || c == '*' || c
        == '-' || c == '.' || c == '_'
}

/// The upper-case hexadecimal digit of a value below sixteen.
pub open spec fn spec_hex_char(n: u8) -> char
    recommends
        n < 16,
{
    if n < 10 {
        (n + 48) as char
    } else {
        (n + 55) as char
    }
}

/// The three characters that a byte percent-encodes to.
pub open spec fn spec_encode_byte(b: u8) -> Seq<char> {
    seq!['%', spec_hex_char(b / 16), spec_hex_char(b % 16)]
}

/// The percent-encoding of a sequence of bytes.
pub open spec fn spec_encode_bytes(bs: Seq<u8>) -> Seq<char>
    decreases bs.len(),
{
    if bs.len() == 0 {
        Seq::empty()
    } else {
        spec_encode_bytes(bs.drop_last()) + spec_encode_byte(bs.last())
    }
}

/// The characters that one character of a query key or value encodes
/// to: unreserved characters stand for themselves, a space becomes a
/// plus sign, everything else has its bytes percent-encoded.
pub open spec fn spec_encode_query_char(c: char) -> Seq<char> {
    if query_unreserved(c) {
        seq![c]
    } else if c == ' ' {
        seq!['+']
    } else {
        spec_encode_bytes(spec_utf8_bytes(c))
    }
}

/// The form-urlencoding of one query key or value.
pub open spec fn spec_encode_query_str(s: Seq<char>) -> Seq<char>
    decreases s.len(),
{
    if s.len() == 0 {
        Seq::empty()
    } else {
        spec_encode_query_str(s.drop_last()) + spec_encode_query_char(s.last())
    }
}

/// The characters of each pair of `v`.
pub open spec fn pairs_view(v: Seq<(String, String)>) -> Seq<(Seq<char>, Seq<char>)>
    decreases v.len(),
{
    if v.len() == 0 {
        Seq::empty()
    } else {
        pairs_view(v.drop_last()).push((v.last().0@, v.last().1@))
    }
}

/// The query string that a list of pairs encodes to: `k=v` joined by
/// `&`, each key and value form-urlencoded.
pub open spec fn spec_query_string(q: Seq<(Seq<char>, Seq<char>)>) -> Seq<char>
    decreases q.len(),
{
    if q.len() == 0 {
        Seq::empty()
    } else {
        spec_query_string(q.drop_last()) + (if q.len() == 1 {
            Seq::empty()
        } else {
            seq!['&']
        }) + spec_encode_query_str(q.last().0) + seq!['='] + spec_encode_query_str(q.last().1)
    }
}

/// Relies on `String::from_utf8`: bytes below 128 are their own
/// one-byte encoding, so turning ASCII bytes into a string keeps each
/// byte as the character of its code, and cannot fail.
#[verifier::external_body]
fn ascii_bytes_to_string(v: &Vec<u8>) -> (r: String)
    requires
        forall|i: int| 0 <= i < v@.len() ==> v@[i] < 128,
    ensures
        r@ == byte_chars(v@),
{
    String::from_utf8(v.clone()).unwrap_or_default()
}

/// Appending one byte appends its character.
proof fn lemma_byte_chars_push(b: Seq<u8>, x: u8)
    ensures
        byte_chars(b.push(x)) =~= byte_chars(b).push(x as char),
{
}

/// Append the form-urlencoding of `s` to `out`, keeping the output
/// ASCII.
fn encode_query_str_into(s: &str, out: &mut Vec<u8>)
    requires
        forall|i: int| 0 <= i < old(out)@.len() ==> old(out)@[i] < 128,
    ensures
        forall|i: int| 0 <= i < final(out)@.len() ==> final(out)@[i] < 128,
        byte_chars(final(out)@) == byte_chars(old(out)@) + spec_encode_query_str(s@),
{
    let n = s.unicode_len();
    let mut i: usize = 0;
    proof {
        assert(byte_chars(out@) + spec_encode_query_str(s@.take(0)) =~= byte_chars(out@));
    }
    while i < n
        invariant
            i <= n,
            n == s@.len(),
            forall|k: int| 0 <= k < out@.len() ==> out@[k] < 128,
            byte_chars(out@) == byte_chars(old(out)@) + spec_encode_query_str(s@.take(i as int)),
        decreases n - i,
    {
        let c = s.get_char(i);
        let ghost pre = out@;
        if (('a' <= c && c <= 'z') || ('A' <= c && c <= 'Z') || ('0' <= c && c <= '9') || c == '*'
            || c == '-' || c == '.' || c == '_') {
            out.push(c as u8);
            proof {
                lemma_byte_chars_push(pre, c as u8);
                assert((c as u8) as char == c);
                assert(byte_chars(out@) =~= byte_chars(pre) + spec_encode_query_char(c));
            }
        } else if c == ' ' {
            out.push(43);
            proof {
                lemma_byte_chars_push(pre, 43);
                assert(43u8 as char == '+');
                assert(byte_chars(out@) =~= byte_chars(pre) + spec_encode_query_char(c));
            }
        } else {
            let bs = utf8_bytes(c);
            let mut k: usize = 0;
            proof {
                assert(spec_encode_bytes(bs@.take(0)) =~= Seq::<char>::empty());
                assert(byte_chars(out@) =~= byte_chars(pre) + spec_encode_bytes(bs@.take(0)));
            }
            while k < bs.len()
                invariant
                    k <= bs@.len(),
                    bs@ == spec_utf8_bytes(c),
                    forall|t: int| 0 <= t < out@.len() ==> out@[t] < 128,
                    byte_chars(out@) == byte_chars(pre) + spec_encode_bytes(bs@.take(k as int)),
                decreases bs@.len() - k,
            {
                let b = bs[k];
                let ghost mid = out@;
                out.push(37);
                out.push(hex_char(b / 16));
                out.push(hex_char(b % 16));
                proof {
                    lemma_byte_chars_push(mid, 37);
                    lemma_byte_chars_push(mid.push(37), (spec_hex_char(b / 16)) as u8);
                    lemma_byte_chars_push(
                        mid.push(37).push((spec_hex_char(b / 16)) as u8),
                        (spec_hex_char(b % 16)) as u8,
                    );
                    assert(37u8 as char == '%');
                    assert(bs@.take(k as int + 1).drop_last() =~= bs@.take(k as int));
                    assert(byte_chars(out@) =~= byte_chars(pre) + spec_encode_bytes(
                        bs@.take(k as int + 1),
                    ));
                }
                k = k + 1;
            }
            proof {
                assert(bs@.take(bs@.len() as int) =~= bs@);
                assert(byte_chars(out@) =~= byte_chars(pre) + spec_encode_query_char(c));
            }
        }
        i = i + 1;
        proof {
            assert(s@.take(i as int).drop_last() =~= s@.take(i as int - 1));
            assert(s@.take(i as int).last() == s@[i as int - 1]);
        }
    }
    proof {
        assert(s@.take(n as int) =~= s@);
    }
}

/// The upper-case hexadecimal digit of a value below sixteen.
fn hex_char(n: u8) -> (r: u8)
    requires
        n < 16,
    ensures
        r as char == spec_hex_char(n),
        r < 128,
{
    if n < 10 {
        n + 48
    } else {
        n + 55
    }
}

/// Build the query string of a list of pairs.
pub fn build_query_string(q: &Vec<(String, String)>) -> (r: String)
    ensures
        r@ == spec_query_string(pairs_view(q@)),
{
    let mut out: Vec<u8> = Vec::new();
    let mut i: usize = 0;
    proof {
        assert(spec_query_string(pairs_view(q@.take(0))) =~= Seq::<char>::empty());
        assert(byte_chars(out@) =~= Seq::<char>::empty());
    }
    while i < q.len()
        invariant
            i <= q@.len(),
            forall|k: int| 0 <= k < out@.len() ==> out@[k] < 128,
            byte_chars(out@) == spec_query_string(pairs_view(q@.take(i as int))),
        decreases q@.len() - i,
    {
        if i > 0 {
            let ghost pre = out@;
            out.push(38);
            proof {
                lemma_byte_chars_push(pre, 38);
                assert(38u8 as char == '&');
            }
        }
        encode_query_str_into(q[i].0.as_str(), &mut out);
        let ghost pre_eq = out@;
        out.push(61);
        proof {
            lemma_byte_chars_push(pre_eq, 61);
            assert(61u8 as char == '=');
        }
        encode_query_str_into(q[i].1.as_str(), &mut out);
        i = i + 1;
        proof {
            lemma_pairs_view_elts(q@);
            lemma_pairs_view_elts(q@.take(i as int));
            assert(q@.take(i as int).drop_last() =~= q@.take(i as int - 1));
            assert(pairs_view(q@.take(i as int)).drop_last() =~= pairs_view(
                q@.take(i as int - 1),
            ));
            assert(byte_chars(out@) =~= spec_query_string(pairs_view(q@.take(i as int))));
        }
    }
    proof {
        assert(q@.take(q@.len() as int) =~= q@);
    }
    ascii_bytes_to_string(&out)
}

/// The length and elementwise shape of `pairs_view`.
pub proof fn lemma_pairs_view_elts(v: Seq<(String, String)>)
    ensures
        pairs_view(v).len() == v.len(),
        forall|i: int|
            0 <= i < v.len() ==> #[trigger] pairs_view(v)[i] == (v[i].0@, v[i].1@),
    decreases v.len(),
{
    if v.len() > 0 {
        lemma_pairs_view_elts(v.drop_last());
    }
}

/// A fully-formed request, ready for a transport to carry out.
#[derive(Debug, Clone, PartialEq)]
pub struct BuiltRequest {
    pub method: Method,
    pub url: String,
    pub headers: Vec<(String, String)>,
    pub body: Option<String>,
}

/// The model of [`BuiltRequest`].
pub struct BuiltRequestV {
    pub method: Method,
    pub url: Seq<char>,
    pub headers: Seq<(Seq<char>, Seq<char>)>,
    pub body: Option<Seq<char>>,
}

impl View for BuiltRequest {
    type V = BuiltRequestV;

    open spec fn view(&self) -> BuiltRequestV {
        BuiltRequestV {
            method: self.method,
            url: self.url@,
            headers: pairs_view(self.headers@),
            body: opt_str_view(self.body),
        }
    }
}

/// What a query adds to a URL: nothing when there is none or it is
/// empty, a question mark and the encoded pairs otherwise.
pub open spec fn spec_query_suffix(query: Option<Seq<(Seq<char>, Seq<char>)>>) -> Seq<char> {
    match query {
        Option::None => Seq::empty(),
        Option::Some(q) => if q.len() == 0 {
            Seq::empty()
        } else {
            seq!['?'] + spec_query_string(q)
        },
    }
}

/// The one request that given credentials, endpoint, namespace prefix,
/// method, path, body and query determine: the URL is their
/// concatenation, the three headers carry the user name, the token and
/// the content type, and the body is attached only for methods that
/// carry one.
pub open spec fn spec_built_request(
    user: Seq<char>,
    token: Seq<char>,
    endpoint: Seq<char>,
    prefix: Seq<char>,
    method: Method,
    path: Seq<char>,
    body: JsonV,
    query: Option<Seq<(Seq<char>, Seq<char>)>>,
) -> BuiltRequestV {
    BuiltRequestV {
        method,
        url: endpoint + prefix + path + spec_query_suffix(query),
        headers: seq![
            (SLURM_USER_HEADER@, user),
            (SLURM_TOKEN_HEADER@, token),
            (CONTENT_TYPE_HEADER@, CONTENT_TYPE_JSON@),
        ],
        body: if method.spec_carries_body() {
            Some(spec_print_json(body))
        } else {
            None
        },
    }
}

/// Build a request from its parts. It fails exactly when the user name
/// or the token cannot stand in an HTTP header value.
pub fn build_request(
    user: &str,
    token: &str,
    endpoint: &str,
    prefix: &str,
    method: Method,
    path: &str,
    body: &Json,
    query: Option<&Vec<(String, String)>>,
) -> (r: Result<BuiltRequest, ClientError>)
    ensures
        r is Ok <==> valid_header_value(user@) && valid_header_value(token@),
        match r {
            Ok(br) => br@ == spec_built_request(
                user@,
                token@,
                endpoint@,
                prefix@,
                method,
                path@,
                body@,
                match query {
                    Option::Some(q) => Some(pairs_view(q@)),
                    Option::None => None,
                },
            ),
            Err(e) => e == ClientError::InvalidHeaderValue,
        },
{
    if !check_header_value(user) {
        return Err(ClientError::InvalidHeaderValue);
    }
    if !check_header_value(token) {
        return Err(ClientError::InvalidHeaderValue);
    }
    let mut url = String::new();
    url.append(endpoint);
    url.append(prefix);
    url.append(path);
    match query {
        None => {},
        Some(q) => {
            proof {
                lemma_pairs_view_elts(q@);
            }
            if q.len() > 0 {
                url.append("?");
                let qs = build_query_string(q);
                url.append(qs.as_str());
                proof {
                    reveal_strlit("?");
                    assert("?"@ =~= seq!['?']);
                }
            }
        },
    }
    let ghost qv: Option<Seq<(Seq<char>, Seq<char>)>> = match query {
        Option::Some(q) => Some(pairs_view(q@)),
        Option::None => None,
    };
    proof {
        assert(url@ =~= endpoint@ + prefix@ + path@ + spec_query_suffix(qv));
    }
    let mut headers: Vec<(String, String)> = Vec::new();
    headers.push((SLURM_USER_HEADER.to_owned(), user.to_owned()));
    headers.push((SLURM_TOKEN_HEADER.to_owned(), token.to_owned()));
    headers.push((CONTENT_TYPE_HEADER.to_owned(), CONTENT_TYPE_JSON.to_owned()));
    proof {
        lemma_pairs_view_elts(headers@);
        assert(pairs_view(headers@) =~= seq![
            (SLURM_USER_HEADER@, user@),
            (SLURM_TOKEN_HEADER@, token@),
            (CONTENT_TYPE_HEADER@, CONTENT_TYPE_JSON@),
        ]);
    }
    let body_text = if method.carries_body() {
        Some(json_to_text(body))
    } else {
        None
    };
    Ok(BuiltRequest { method, url, headers, body: body_text })
}

/// Request building is idempotent: the built request is a function of
/// the credentials, endpoint, prefix, method, path, body and query
/// alone, so building twice from the same parts gives identical URLs,
/// header sets and bodies.
pub proof fn lemma_request_building_idempotent(
    r1: BuiltRequestV,
    r2: BuiltRequestV,
    user: Seq<char>,
    token: Seq<char>,
    endpoint: Seq<char>,
    prefix: Seq<char>,
    method: Method,
    path: Seq<char>,
    body: JsonV,
    query: Option<Seq<(Seq<char>, Seq<char>)>>,
)
    requires
        r1 == spec_built_request(user, token, endpoint, prefix, method, path, body, query),
        r2 == spec_built_request(user, token, endpoint, prefix, method, path, body, query),
    ensures
        r1 == r2,
{
}

/// Every URL a client builds begins with its endpoint followed by the
/// fixed namespace prefix; the endpoint-specific path only ever comes
/// after them.
pub proof fn lemma_request_url_prefixed(
    user: Seq<char>,
    token: Seq<char>,
    endpoint: Seq<char>,
    prefix: Seq<char>,
    method: Method,
    path: Seq<char>,
    body: JsonV,
    query: Option<Seq<(Seq<char>, Seq<char>)>>,
)
    ensures
        spec_built_request(user, token, endpoint, prefix, method, path, body, query).url.take(
            endpoint.len() + prefix.len() as int,
        ) == endpoint + prefix,
{
    assert((endpoint + prefix + path + spec_query_suffix(query)).take(
        endpoint.len() + prefix.len() as int,
    ) =~= endpoint + prefix);
}

/// GET and DELETE requests never carry a body, even when one is
/// supplied to the builder; requests of every other method carry the
/// supplied document, printed as JSON text.
pub proof fn lemma_body_only_when_carried(
    user: Seq<char>,
    token: Seq<char>,
    endpoint: Seq<char>,
    prefix: Seq<char>,
    method: Method,
    path: Seq<char>,
    body: JsonV,
    query: Option<Seq<(Seq<char>, Seq<char>)>>,
)
    ensures
        (method is Get || method is Delete) ==> spec_built_request(
            user,
            token,
            endpoint,
            prefix,
            method,
            path,
            body,
            query,
        ).body is None,
        !(method is Get || method is Delete) ==> spec_built_request(
            user,
            token,
            endpoint,
            prefix,
            method,
            path,
            body,
            query,
        ).body == Some(spec_print_json(body)),
{
}

} // verus!
