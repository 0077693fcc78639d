//! The request side of the message layer: the method, version and resource
//! tags, the request value, and the lenient line-oriented parser that builds
//! a request from raw text.
//!
//! Parsing never rejects unrecognized tokens: an unknown method or version
//! falls back to its `Uninitialized` sentinel. The one hard error is a line
//! that looks like a request line (it contains `HTTP`) but has fewer than
//! three whitespace-separated tokens.

use vstd::prelude::*;
use crate::headers::{Headers, spec_insert};
use crate::text::{
    contains_seq, find_char_from, find_from, occurs_at, skip_ws, skip_ws_from, str_eq_str,
    token_end, ws_from, lemma_find_from,
};

verus! {

/// The request method: the two recognized tokens, and a sentinel for every
/// other token.
#[derive(Debug, PartialEq, Eq, Structural, Clone, Copy)]
pub enum HttpMethod {
    Get,
    Post,
    Uninitialized,
}

/// The protocol version: the one recognized token, and a sentinel for every
/// other token.
#[derive(Debug, PartialEq, Eq, Structural, Clone, Copy)]
pub enum HttpVersion {
    V1_1,
    Uninitialized,
}

/// The requested resource. A wrapped path string is the only kind of
/// resource; the wrapper leaves room for other kinds.
#[derive(Debug, PartialEq)]
pub enum Resource {
    Path(String),
}

impl View for Resource {
    type V = Seq<char>;

    open spec fn view(&self) -> Seq<char> {
        match self {
            Resource::Path(p) => p@,
        }
    }
}

/// The error of [`HttpRequest::from`]: a request line held fewer than three
/// whitespace-separated tokens.
#[derive(Debug, PartialEq, Eq, Structural, Clone, Copy)]
pub enum ParseError {
    MalformedRequestLine,
}

/// The mathematical value of a request: its tags, its path and body as
/// character sequences, and its headers as key/value pairs.
pub struct RequestModel {
    pub method: HttpMethod,
    pub version: HttpVersion,
    pub path: Seq<char>,
    pub headers: Seq<(Seq<char>, Seq<char>)>,
    pub body: Seq<char>,
}

/// A parsed request.
pub struct HttpRequest {
    pub method: HttpMethod,
    pub resource: Resource,
    pub version: HttpVersion,
    pub headers: Headers,
    pub msg_body: String,
}

impl View for HttpRequest {
    type V = RequestModel;

    open spec fn view(&self) -> RequestModel {
        RequestModel {
            method: self.method,
            version: self.version,
            path: self.resource@,
            headers: self.headers@,
            body: self.msg_body@,
        }
    }
}

/// What [`HttpMethod::from`] maps a token to.
pub open spec fn spec_method_from(t: Seq<char>) -> HttpMethod {
    if t == "Get"@ {
        HttpMethod::Get
    } else if t == "Post"@ {
        HttpMethod::Post
    } else {
        HttpMethod::Uninitialized
    }
}

impl HttpMethod {
    /// Maps the token `"Get"` to `Get` and `"Post"` to `Post`; every other
    /// token maps to the `Uninitialized` sentinel.
    pub fn from(value: &str) -> (m: HttpMethod)
        ensures
            m == spec_method_from(value@),
    {
        if str_eq_str(value, "Get") {
            HttpMethod::Get
        } else if str_eq_str(value, "Post") {
            HttpMethod::Post
        } else {
            HttpMethod::Uninitialized
        }
    }
}

/// What [`HttpVersion::from`] maps a token to.
pub open spec fn spec_version_from(t: Seq<char>) -> HttpVersion {
    if t == "HTTP/1.1"@ {
        HttpVersion::V1_1
    } else {
        HttpVersion::Uninitialized
    }
}

impl HttpVersion {
    /// Maps the one literal `"HTTP/1.1"` to `V1_1`; every other token maps to
    /// the `Uninitialized` sentinel.
    pub fn from(value: &str) -> (v: HttpVersion)
        ensures
            v == spec_version_from(value@),
    {
        if str_eq_str(value, "HTTP/1.1") {
            HttpVersion::V1_1
        } else {
            HttpVersion::Uninitialized
        }
    }
}

/// The first three whitespace-separated tokens of a request line, or the
/// parse error when the line has fewer than three.
pub open spec fn spec_req_line(l: Seq<char>) -> Result<
    (Seq<char>, Seq<char>, Seq<char>),
    ParseError,
> {
    let i0 = skip_ws_from(l, 0);
    let e0 = ws_from(l, i0);
    let i1 = skip_ws_from(l, e0);
    let e1 = ws_from(l, i1);
    let i2 = skip_ws_from(l, e1);
    let e2 = ws_from(l, i2);
    if i0 < l.len() && i1 < l.len() && i2 < l.len() {
        Ok((l.subrange(i0, e0), l.subrange(i1, e1), l.subrange(i2, e2)))
    } else {
        Err(ParseError::MalformedRequestLine)
    }
}

/// Splits a request line on whitespace into method, resource and version.
/// Tokens past the third are ignored; fewer than three tokens is the parse
/// error.
pub fn process_req_line(s: &str) -> (r: Result<(HttpMethod, Resource, HttpVersion), ParseError>)
    ensures
        match (r, spec_req_line(s@)) {
            (Ok(t), Ok(toks)) => t.0 == spec_method_from(toks.0) && t.1@ == toks.1 && t.2
                == spec_version_from(toks.2),
            (Err(e1), Err(e2)) => e1 == e2,
            _ => false,
        },
{
    let n = s.unicode_len();
    let i0 = skip_ws(s, 0);
    let e0 = token_end(s, i0);
    let i1 = skip_ws(s, e0);
    let e1 = token_end(s, i1);
    let i2 = skip_ws(s, e1);
    let e2 = token_end(s, i2);
    if i0 < n && i1 < n && i2 < n {
        let method = HttpMethod::from(s.substring_char(i0, e0));
        let resource = Resource::Path(s.substring_char(i1, e1).to_owned());
        let version = HttpVersion::from(s.substring_char(i2, e2));
        Ok((method, resource, version))
    } else {
        Err(ParseError::MalformedRequestLine)
    }
}

/// The key and value of a header line: the characters before the first `:`,
/// and the characters between the first `:` and the following `:` or the end
/// of the line. A line without `:` is all key, with an empty value.
pub open spec fn spec_header_kv(l: Seq<char>) -> (Seq<char>, Seq<char>) {
    let p = find_from(l, 0, ':');
    if p == l.len() {
        (l, Seq::empty())
    } else {
        (l.subrange(0, p), l.subrange(p + 1, find_from(l, p + 1, ':')))
    }
}

/// Splits a header line at its first `:` into a key and a value; what follows
/// a second `:` is dropped.
pub fn proces_header_line(s: &str) -> (r: (String, String))
    ensures
        r.0@ == spec_header_kv(s@).0,
        r.1@ == spec_header_kv(s@).1,
{
    let n = s.unicode_len();
    let p = find_char_from(s, 0, ':');
    if p == n {
        (s.to_owned(), String::new())
    } else {
        let q = find_char_from(s, p + 1, ':');
        (s.substring_char(0, p).to_owned(), s.substring_char(p + 1, q).to_owned())
    }
}

/// Whether the line holds the substring `HTTP`, which marks it as the
/// request line.
pub fn contains_http(s: &str) -> (b: bool)
    ensures
        b == contains_seq(s@, "HTTP"@),
{
    proof {
        reveal_strlit("HTTP");
    }
    let n = s.unicode_len();
    if n < 4 {
        return false;
    }
    let mut k: usize = 0;
    while k <= n - 4
        invariant
            n >= 4,
            k <= n - 3,
            n == s@.len(),
            "HTTP"@.len() == 4,
            forall|j: int| 0 <= j < k ==> !occurs_at(s@, "HTTP"@, j),
        decreases n - k,
    {
        if s.get_char(k) == 'H' && s.get_char(k + 1) == 'T' && s.get_char(k + 2) == 'T'
            && s.get_char(k + 3) == 'P' {
            proof {
                reveal_strlit("HTTP");
                assert(s@.subrange(k as int, k as int + 4) =~= "HTTP"@);
                assert(occurs_at(s@, "HTTP"@, k as int));
            }
            return true;
        }
        proof {
            reveal_strlit("HTTP");
            assert(!occurs_at(s@, "HTTP"@, k as int)) by {
                if occurs_at(s@, "HTTP"@, k as int) {
                    assert(s@.subrange(k as int, k as int + 4)[0] == "HTTP"@[0]);
                    assert(s@.subrange(k as int, k as int + 4)[1] == "HTTP"@[1]);
                    assert(s@.subrange(k as int, k as int + 4)[2] == "HTTP"@[2]);
                    assert(s@.subrange(k as int, k as int + 4)[3] == "HTTP"@[3]);
                }
            }
        }
        k = k + 1;
    }
    proof {
        assert(!contains_seq(s@, "HTTP"@)) by {
            if contains_seq(s@, "HTTP"@) {
                let j = choose|j: int| occurs_at(s@, "HTTP"@, j);
                assert(0 <= j < k);
            }
        }
    }
    false
}

/// The parser state before any line is processed: both tags at their
/// defaults, an empty path, no headers and an empty body.
pub open spec fn spec_default_model() -> RequestModel {
    RequestModel {
        method: HttpMethod::Uninitialized,
        version: HttpVersion::V1_1,
        path: Seq::empty(),
        headers: Seq::empty(),
        body: Seq::empty(),
    }
}

/// One parsing step: a line holding `HTTP` is the request line and sets the
/// three tags; otherwise a line holding `:` enters a header; an empty line is
/// skipped; any other line overwrites the body, so the last such line wins.
pub open spec fn spec_step(st: RequestModel, l: Seq<char>) -> Result<RequestModel, ParseError> {
    if contains_seq(l, "HTTP"@) {
        match spec_req_line(l) {
            Ok(toks) => Ok(
                RequestModel {
                    method: spec_method_from(toks.0),
                    path: toks.1,
                    version: spec_version_from(toks.2),
                    ..st
                },
            ),
            Err(e) => Err(e),
        }
    } else if find_from(l, 0, ':') < l.len() {
        Ok(
            RequestModel {
                headers: spec_insert(st.headers, spec_header_kv(l).0, spec_header_kv(l).1),
                ..st
            },
        )
    } else if l.len() == 0 {
        Ok(st)
    } else {
        Ok(RequestModel { body: l, ..st })
    }
}

/// The line starting at `pos` whose terminating newline sits at `j` (or that
/// runs to the end of the text when `j` is the length): the newline is no
/// part of it, and a `\r` directly before the newline is stripped.
pub open spec fn line_at(s: Seq<char>, pos: int, j: int) -> Seq<char> {
    if j == s.len() {
        s.subrange(pos, j)
    } else if j > pos && s[j - 1] == '\r' {
        s.subrange(pos, j - 1)
    } else {
        s.subrange(pos, j)
    }
}

/// Folds [`spec_step`] over the lines of `s` from position `pos` on,
/// starting in state `st`.
pub open spec fn spec_parse_from(s: Seq<char>, pos: int, st: RequestModel) -> Result<
    RequestModel,
    ParseError,
>
    decreases s.len() - pos,
    via spec_parse_from_decreases
{
    if !(0 <= pos < s.len()) {
        Ok(st)
    } else {
        let j = find_from(s, pos, '\n');
        match spec_step(st, line_at(s, pos, j)) {
            Ok(st2) => spec_parse_from(
                s,
                if j == s.len() {
                    j
                } else {
                    j + 1
                },
                st2,
            ),
            Err(e) => Err(e),
        }
    }
}

#[via_fn]
proof fn spec_parse_from_decreases(s: Seq<char>, pos: int, st: RequestModel) {
    if 0 <= pos < s.len() {
        lemma_find_from(s, pos, '\n');
    }
}

/// What parsing a whole raw text yields: the fold of [`spec_step`] over its
/// lines, from the default state.
pub open spec fn spec_parse(s: Seq<char>) -> Result<RequestModel, ParseError> {
    spec_parse_from(s, 0, spec_default_model())
}

impl HttpRequest {
    /// The headers of a well-formed request hold no duplicate key.
    pub open spec fn wf(&self) -> bool {
        self.headers.wf()
    }

    /// Builds a request from raw text, one line at a time: the request line
    /// sets method, resource and version, header lines fill the header
    /// mapping, and the last non-empty ordinary line becomes the body.
    /// The one rejected input is a request line with fewer than three tokens.
    pub fn from(raw: &str) -> (r: Result<HttpRequest, ParseError>)
        ensures
            match r {
                Ok(req) => spec_parse(raw@) == Ok::<RequestModel, ParseError>(req@) && req.wf(),
                Err(e) => spec_parse(raw@) == Err::<RequestModel, ParseError>(e),
            },
    {
        let n = raw.unicode_len();
        let mut pos: usize = 0;
        let mut method = HttpMethod::Uninitialized;
        let mut version = HttpVersion::V1_1;
        let mut resource = Resource::Path(String::new());
        let mut headers = Headers::new();
        let mut msg_body = String::new();
        proof {
            assert(resource@ =~= spec_default_model().path);
            assert(msg_body@ =~= spec_default_model().body);
        }
        while pos < n
            invariant
                pos <= n,
                n == raw@.len(),
                headers.wf(),
                spec_parse(raw@) == spec_parse_from(
                    raw@,
                    pos as int,
                    (RequestModel {
                        method: method,
                        version: version,
                        path: resource@,
                        headers: headers@,
                        body: msg_body@,
                    }),
                ),
            decreases n - pos,
        {
            let ghost st = RequestModel {
                method: method,
                version: version,
                path: resource@,
                headers: headers@,
                body: msg_body@,
            };
            let j = find_char_from(raw, pos, '\n');
            let line: &str;
            let next_pos: usize;
            if j == n {
                line = raw.substring_char(pos, n);
                next_pos = n;
            } else if j > pos && raw.get_char(j - 1) == '\r' {
                line = raw.substring_char(pos, j - 1);
                next_pos = j + 1;
            } else {
                line = raw.substring_char(pos, j);
                next_pos = j + 1;
            }
            proof {
                assert(line@ == line_at(raw@, pos as int, j as int));
            }
            if contains_http(line) {
                match process_req_line(line) {
                    Ok((m, res, v)) => {
                        method = m;
                        resource = res;
                        version = v;
                    },
                    Err(e) => {
                        return Err(e);
                    },
                }
            } else {
                let llen = line.unicode_len();
                let p = find_char_from(line, 0, ':');
                if p < llen {
                    let (k, v) = proces_header_line(line);
                    headers.insert(k, v);
                } else if llen == 0 {
                } else {
                    msg_body = line.to_owned();
                }
            }
            pos = next_pos;
        }
        let req = HttpRequest { method, resource, version, headers, msg_body };
        Ok(req)
    }
}

} // verus!
