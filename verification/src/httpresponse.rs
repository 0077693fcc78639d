//! The response side of the message layer: building a response from a status
//! code, optional headers and an optional body, and rendering it to its exact
//! wire text.
//!
//! The wire text of a response is
//! `<version> <status_code> <status_text>\r\n<header-lines>Content-Length: <n>\r\n\r\n<body>`
//! with one `<key>:<value>\r\n` line per header entry, in entry order, and
//! `<n>` the byte length of the body in decimal. Headers are kept in
//! insertion order, so rendering the same value twice gives identical text.

use vstd::prelude::*;
use vstd::utf8::encode_utf8;
use crate::headers::Headers;
use crate::text::str_eq_str;

verus! {

/// The mathematical value of a response: its string fields as character
/// sequences, and its optional headers as key/value pairs in entry order.
pub struct ResponseModel {
    pub version: Seq<char>,
    pub status_code: Seq<char>,
    pub status_text: Seq<char>,
    pub headers: Option<Seq<(Seq<char>, Seq<char>)>>,
    pub body: Option<Seq<char>>,
}

/// A response under construction or ready to be rendered. The status text is
/// always derived from the status code, never supplied by a caller.
pub struct HttpResponse {
    version: String,
    status_code: String,
    status_text: String,
    headers: Option<Headers>,
    body: Option<String>,
}

impl View for HttpResponse {
    type V = ResponseModel;

    closed spec fn view(&self) -> ResponseModel {
        ResponseModel {
            version: self.version@,
            status_code: self.status_code@,
            status_text: self.status_text@,
            headers: match self.headers {
                Some(h) => Some(h@),
                None => None,
            },
            body: match self.body {
                Some(b) => Some(b@),
                None => None,
            },
        }
    }
}

/// The status text that a status code is mapped to. Every code without an
/// entry in the fixed table falls back to `not found`.
pub open spec fn spec_status_text(code: Seq<char>) -> Seq<char> {
    if code == "200"@ {
        "ok"@
    } else if code == "400"@ {
        "400 Bad Request"@
    } else if code == "404"@ {
        "not found"@
    } else if code == "500"@ {
        "500 Internal Server Error"@
    } else {
        "not found"@
    }
}

/// The header entries a response is rendered with: what the caller supplied,
/// or none.
pub open spec fn spec_header_entries(m: ResponseModel) -> Seq<(Seq<char>, Seq<char>)> {
    match m.headers {
        Some(es) => es,
        None => Seq::empty(),
    }
}

/// The body a response is rendered with: an absent body renders as empty.
pub open spec fn spec_body_chars(m: ResponseModel) -> Seq<char> {
    match m.body {
        Some(b) => b,
        None => Seq::empty(),
    }
}

/// One `<key>:<value>\r\n` line per header entry, in entry order.
pub open spec fn spec_header_lines(entries: Seq<(Seq<char>, Seq<char>)>) -> Seq<char>
    decreases entries.len(),
{
    if entries.len() == 0 {
        Seq::empty()
    } else {
        spec_header_lines(entries.drop_last()) + entries.last().0 + ":"@ + entries.last().1
            + "\r\n"@
    }
}

/// The digit character of `d`.
pub open spec fn digit_char(d: nat) -> char {
    if d == 0 {
        '0'
    } else if d == 1 {
        '1'
    } else if d == 2 {
        '2'
    } else if d == 3 {
        '3'
    } else if d == 4 {
        '4'
    } else if d == 5 {
        '5'
    } else if d == 6 {
        '6'
    } else if d == 7 {
        '7'
    } else if d == 8 {
        '8'
    } else {
        '9'
    }
}

/// The decimal numeral of `n`, most significant digit first, without leading
/// zeros (except for `n == 0` itself).
pub open spec fn spec_decimal(n: nat) -> Seq<char>
    decreases n,
{
    if n < 10 {
        seq![digit_char(n)]
    } else {
        spec_decimal(n / 10).push(digit_char(n % 10))
    }
}

/// The byte length of the rendered body: the length of its UTF-8 encoding.
pub open spec fn spec_content_length(m: ResponseModel) -> nat {
    encode_utf8(spec_body_chars(m)).len()
}

/// The exact wire text of a response.
pub open spec fn spec_serialize(m: ResponseModel) -> Seq<char> {
    m.version + " "@ + m.status_code + " "@ + m.status_text + "\r\n"@ + spec_header_lines(
        spec_header_entries(m),
    ) + "Content-Length: "@ + spec_decimal(spec_content_length(m)) + "\r\n\r\n"@ + spec_body_chars(
        m,
    )
}

/// Rendering is a function of the response value alone: any two renderings of
/// the same value are identical, character for character.
pub proof fn lemma_serialize_repeatable(m: ResponseModel, first: Seq<char>, second: Seq<char>)
    requires
        first == spec_serialize(m),
        second == spec_serialize(m),
    ensures
        first == second,
{
}

/// The digit string of `d`.
fn digit_str(d: usize) -> (r: &'static str)
    requires
        d < 10,
    ensures
        r@ == seq![digit_char(d as nat)],
{
    proof {
        reveal_strlit("0");
        reveal_strlit("1");
        reveal_strlit("2");
        reveal_strlit("3");
        reveal_strlit("4");
        reveal_strlit("5");
        reveal_strlit("6");
        reveal_strlit("7");
        reveal_strlit("8");
        reveal_strlit("9");
    }
    let r = if d == 0 {
        "0"
    } else if d == 1 {
        "1"
    } else if d == 2 {
        "2"
    } else if d == 3 {
        "3"
    } else if d == 4 {
        "4"
    } else if d == 5 {
        "5"
    } else if d == 6 {
        "6"
    } else if d == 7 {
        "7"
    } else if d == 8 {
        "8"
    } else {
        "9"
    };
    proof {
        assert(r@ =~= seq![digit_char(d as nat)]);
    }
    r
}

/// Renders `n` as its decimal numeral.
fn usize_decimal(n: usize) -> (r: String)
    ensures
        r@ == spec_decimal(n as nat),
    decreases n,
{
    if n < 10 {
        digit_str(n).to_owned()
    } else {
        let mut s = usize_decimal(n / 10);
        s.append(digit_str(n % 10));
        proof {
            assert(spec_decimal(n as nat / 10).push(digit_char(n as nat % 10)) =~= spec_decimal(
                n as nat / 10,
            ) + seq![digit_char(n as nat % 10)]);
        }
        s
    }
}

impl HttpResponse {
    /// The headers of a well-formed response hold no duplicate key.
    pub closed spec fn wf(&self) -> bool {
        match self.headers {
            Some(h) => h.wf(),
            None => true,
        }
    }

    /// Builds a response. The version is fixed, the status code is taken
    /// verbatim, the status text is derived from the code, absent headers
    /// default to a single `Content-Type: text/html` entry (supplied headers,
    /// even empty ones, are taken verbatim), and the body is stored as given.
    pub fn new(status_code: &str, headers: Option<Headers>, body: Option<String>) -> (r:
        HttpResponse)
        requires
            match headers {
                Some(h) => h.wf(),
                None => true,
            },
        ensures
            r.wf(),
            r@.version == "http/1.1"@,
            r@.status_code == status_code@,
            r@.status_text == spec_status_text(status_code@),
            r@.headers == match headers {
                Some(h) => Some(h@),
                None => Some(seq![("Content-Type"@, "text/html"@)]),
            },
            r@.body == match body {
                Some(b) => Some(b@),
                None => None::<Seq<char>>,
            },
    {
        let status_text = if str_eq_str(status_code, "200") {
            String::from_str("ok")
        } else if str_eq_str(status_code, "400") {
            String::from_str("400 Bad Request")
        } else if str_eq_str(status_code, "404") {
            String::from_str("not found")
        } else if str_eq_str(status_code, "500") {
            String::from_str("500 Internal Server Error")
        } else {
            String::from_str("not found")
        };
        let headers = match headers {
            None => {
                let mut h = Headers::new();
                h.insert(String::from_str("Content-Type"), String::from_str("text/html"));
                proof {
                    assert(h@ =~= seq![("Content-Type"@, "text/html"@)]);
                }
                Some(h)
            },
            Some(h) => Some(h),
        };
        HttpResponse {
            version: String::from_str("http/1.1"),
            status_code: status_code.to_owned(),
            status_text,
            headers,
            body,
        }
    }

    /// The fixed protocol version of every built response.
    pub fn version(&self) -> (r: &str)
        ensures
            r@ == self@.version,
    {
        self.version.as_str()
    }

    /// The status code, as given to [`HttpResponse::new`].
    pub fn status_code(&self) -> (r: &str)
        ensures
            r@ == self@.status_code,
    {
        self.status_code.as_str()
    }

    /// The status text derived from the status code.
    pub fn status_text(&self) -> (r: &str)
        ensures
            r@ == self@.status_text,
    {
        self.status_text.as_str()
    }

    /// The rendered header lines, one `<key>:<value>\r\n` per entry, in entry
    /// order.
    pub fn headers(&self) -> (r: String)
        ensures
            r@ == spec_header_lines(spec_header_entries(self@)),
    {
        let mut s = String::new();
        match &self.headers {
            None => {
                proof {
                    assert(s@ =~= spec_header_lines(spec_header_entries(self@)));
                }
            },
            Some(h) => {
                let n = h.len();
                let mut i: usize = 0;
                proof {
                    assert(h@.take(0) =~= Seq::<(Seq<char>, Seq<char>)>::empty());
                }
                while i < n
                    invariant
                        i <= n,
                        n == h@.len(),
                        s@ == spec_header_lines(h@.take(i as int)),
                    decreases n - i,
                {
                    s.append(h.key_at(i).as_str());
                    s.append(":");
                    s.append(h.value_at(i).as_str());
                    s.append("\r\n");
                    proof {
                        assert(h@.take(i + 1).drop_last() =~= h@.take(i as int));
                        assert(h@.take(i + 1).last() == h@[i as int]);
                    }
                    i = i + 1;
                }
                proof {
                    assert(h@.take(n as int) =~= h@);
                }
            },
        }
        s
    }

    /// The body, or the empty string when the body is absent.
    pub fn body(&self) -> (r: &str)
        ensures
            r@ == spec_body_chars(self@),
    {
        match &self.body {
            None => {
                proof {
                    reveal_strlit("");
                    assert(""@ =~= Seq::<char>::empty());
                }
                ""
            },
            Some(b) => b.as_str(),
        }
    }

    /// Renders the response to its exact wire text.
    pub fn serialize(&self) -> (r: String)
        ensures
            r@ == spec_serialize(self@),
    {
        let mut s = String::new();
        s.append(self.version.as_str());
        s.append(" ");
        s.append(self.status_code.as_str());
        s.append(" ");
        s.append(self.status_text.as_str());
        s.append("\r\n");
        let lines = self.headers();
        s.append(lines.as_str());
        s.append("Content-Length: ");
        let content_length: usize = match &self.body {
            None => 0,
            Some(b) => b.as_str().as_bytes().len(),
        };
        proof {
            broadcast use vstd::slice::axiom_spec_len;

            assert(content_length as nat == spec_content_length(self@));
        }
        let numeral = usize_decimal(content_length);
        s.append(numeral.as_str());
        s.append("\r\n\r\n");
        match &self.body {
            None => {},
            Some(b) => {
                s.append(b.as_str());
            },
        }
        proof {
            assert(s@ =~= spec_serialize(self@));
        }
        s
    }

    /// Renders the response and hands the text to the sink.
    ///
    /// A failure reported by the sink is passed on to the caller, never
    /// swallowed.
    pub fn send_response<W: std::io::Write>(&self, write_stream: &mut W) -> (r: Result<
        (),
        std::io::Error,
    >) {
        let text = self.serialize();
        write_str_to(write_stream, text.as_str())
    }
}

impl Default for HttpResponse {
    /// The response every build starts from: version `http/1.1`, status
    /// `200 ok`, no headers and no body.
    fn default() -> (r: HttpResponse)
        ensures
            r@.version == "http/1.1"@,
            r@.status_code == "200"@,
            r@.status_text == "ok"@,
            r@.headers is None,
            r@.body is None,
            r.wf(),
    {
        HttpResponse {
            version: String::from_str("http/1.1"),
            status_code: String::from_str("200"),
            status_text: String::from_str("ok"),
            headers: None,
            body: None,
        }
    }
}

#[verifier::external_type_specification]
#[verifier::external_body]
pub struct ExIoError(std::io::Error);

/// Relies on `std::io::Write::write_all`: it writes the whole byte sequence
/// to the sink, or returns the sink's error. Nothing is promised of the
/// outcome; the sink alone decides it.
#[verifier::external_body]
fn write_str_to<W: std::io::Write>(write_stream: &mut W, s: &str) -> (r: Result<
    (),
    std::io::Error,
>) {
    write_stream.write_all(s.as_bytes())
}

} // verus!
