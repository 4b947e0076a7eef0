//! Requests as plain values: method, address, payload, and the request
//! written out as a curl command.

use vstd::prelude::*;
use vstd::string::*;
use crate::text::{escape, escape_text, trim_end, trim_end_matches, trim_start, trim_start_matches};

verus! {

/// The HTTP method of a request.
#[derive(Debug, Clone, Copy, PartialEq, Eq, Structural)]
pub enum HttpMethod {
    Get,
    Post,
    Put,
    Delete,
}

impl HttpMethod {
    /// The method in upper case.
    pub open spec fn spec_text(&self) -> Seq<char> {
        match self {
            HttpMethod::Get => "GET"@,
            HttpMethod::Post => "POST"@,
            HttpMethod::Put => "PUT"@,
            HttpMethod::Delete => "DELETE"@,
        }
    }

    /// The method in upper case, as HTTP writes it.
    pub fn to_text(&self) -> (r: String)
        ensures
            r@ == self.spec_text(),
    {
        match self {
            HttpMethod::Get => String::from_str("GET"),
            HttpMethod::Post => String::from_str("POST"),
            HttpMethod::Put => String::from_str("PUT"),
            HttpMethod::Delete => String::from_str("DELETE"),
        }
    }
}

/// The payload of a request. Fields are name and value, in the order in
/// which they were set; files are path and field name.
#[derive(Debug)]
pub enum NetworkTask {
    /// No payload.
    RequestPlain,
    /// The fields of a JSON object.
    RequestJson(Vec<(String, String)>),
    /// Query parameters.
    RequestParameters(Vec<(String, String)>),
    /// The fields of a multipart form.
    RequestMultipart(Vec<(String, String)>),
    /// The fields of a multipart form, and files to upload with it.
    RequestMultipartWithFiles(Vec<(String, String)>, Vec<(String, String)>),
}

/// Appends a field.
pub fn push_field(fields: &mut Vec<(String, String)>, name: &str, value: String)
    ensures
        final(fields)@.len() == old(fields)@.len() + 1,
        final(fields)@.drop_last() == old(fields)@,
        final(fields)@.last().0@ == name@,
        final(fields)@.last().1 == value,
{
    fields.push((String::from_str(name), value));
    proof {
        assert(fields@.drop_last() =~= old(fields)@);
    }
}

/// The address of a request: base and path with exactly one slash between.
pub open spec fn spec_request_url(base_url: Seq<char>, path: Seq<char>) -> Seq<char> {
    trim_end(base_url, '/') + "/"@ + trim_start(path, '/')
}

/// Joins base address and path with exactly one slash between.
pub fn request_url(base_url: &str, path: &str) -> (r: String)
    ensures
        r@ == spec_request_url(base_url@, path@),
{
    let mut r = trim_end_matches(base_url, '/');
    r.append("/");
    r.append(trim_start_matches(path, '/').as_str());
    r
}

/// The body of a request, as far as a log can show it.
#[derive(Debug)]
pub enum CurlBody {
    /// A body that is text.
    Text(String),
    /// A body that is not text.
    Binary(Vec<u8>),
    /// A body that cannot be read, such as a stream.
    Unknown,
}

/// The quote characters, which a shell word must not hold bare.
pub open spec fn quote_chars() -> Seq<char> {
    seq!['\'', '"']
}

/// The upper-case hexadecimal digit for `d`, `0 <= d < 16`.
pub open spec fn hex_digit(d: int) -> char {
    seq!['0', '1', '2', '3', '4', '5', '6', '7', '8', '9', 'A', 'B', 'C', 'D', 'E', 'F'][d]
}

/// A byte as two upper-case hexadecimal digits.
pub open spec fn hex_byte(b: u8) -> Seq<char> {
    seq![hex_digit(b as int / 16), hex_digit(b as int % 16)]
}

/// The first `n` bytes in hexadecimal, with single spaces between.
pub open spec fn hex_dump(bytes: Seq<u8>, n: int) -> Seq<char>
    decreases n,
{
    if n <= 0 {
        Seq::empty()
    } else if n == 1 {
        hex_byte(bytes[0])
    } else {
        hex_dump(bytes, n - 1) + " "@ + hex_byte(bytes[n - 1])
    }
}

/// How many bytes of a binary body are shown.
pub const SHOWN_BYTES: usize = 50;

/// The body as the command shows it.
pub open spec fn spec_body_text(body: CurlBody) -> Seq<char> {
    match body {
        CurlBody::Text(t) => escape_text(t@, quote_chars()),
        CurlBody::Binary(b) => "Binary Data (\""@ + hex_dump(
            b@,
            if b@.len() < SHOWN_BYTES {
                b@.len() as int
            } else {
                SHOWN_BYTES as int
            },
        ) + "\")"@,
        CurlBody::Unknown => "Unknown Content"@,
    }
}

/// The header options of the command for the first `n` headers.
pub open spec fn spec_header_options(headers: Seq<(String, String)>, n: int) -> Seq<char>
    decreases n,
{
    if n <= 0 {
        Seq::empty()
    } else {
        spec_header_options(headers, n - 1) + "-H \""@ + headers[n - 1].0@ + ": "@ + escape_text(
            headers[n - 1].1@,
            quote_chars(),
        ) + "\" "@
    }
}

/// The data option of the command: none for no body or an empty one.
pub open spec fn spec_data_option(body: Option<CurlBody>) -> Seq<char> {
    match body {
        Some(b) => if spec_body_text(b).len() == 0 {
            Seq::empty()
        } else {
            " -d '"@ + spec_body_text(b) + "'"@
        },
        None => Seq::empty(),
    }
}

/// The request as a curl command.
pub open spec fn spec_curl(
    method: Seq<char>,
    url: Seq<char>,
    headers: Seq<(String, String)>,
    body: Option<CurlBody>,
) -> Seq<char> {
    "curl -X "@ + method + " '"@ + url + "' "@ + spec_header_options(
        headers,
        headers.len() as int,
    ) + spec_data_option(body)
}

fn quotes() -> (r: Vec<char>)
    ensures
        r@ == quote_chars(),
{
    let mut r: Vec<char> = Vec::new();
    r.push('\'');
    r.push('"');
    proof {
        assert(r@ =~= quote_chars());
    }
    r
}

fn hex_char(d: u8) -> (r: char)
    requires
        d < 16,
    ensures
        r == hex_digit(d as int),
{
    match d {
        0 => '0',
        1 => '1',
        2 => '2',
        3 => '3',
        4 => '4',
        5 => '5',
        6 => '6',
        7 => '7',
        8 => '8',
        9 => '9',
        10 => 'A',
        11 => 'B',
        12 => 'C',
        13 => 'D',
        14 => 'E',
        _ => 'F',
    }
}

fn push_hex(out: &mut String, b: u8)
    ensures
        final(out)@ == old(out)@ + hex_byte(b),
{
    crate::text::push_char(out, hex_char(b / 16));
    crate::text::push_char(out, hex_char(b % 16));
    proof {
        assert(out@ =~= old(out)@ + hex_byte(b));
    }
}

/// Logs requests as curl commands.
#[derive(Debug, Clone, Copy)]
pub struct CurlPlugin;

impl CurlPlugin {
    /// The body as the command shows it: text with its quotes escaped,
    /// the first bytes of binary data in hexadecimal, or a remark.
    pub fn body_text(body: &CurlBody) -> (r: String)
        ensures
            r@ == spec_body_text(*body),
    {
        match body {
            CurlBody::Text(t) => {
                let q = quotes();
                escape(t.as_str(), &q)
            },
            CurlBody::Binary(b) => {
                let n: usize = if b.len() < SHOWN_BYTES {
                    b.len()
                } else {
                    SHOWN_BYTES
                };
                let mut out = String::from_str("Binary Data (\"");
                let ghost head = out@;
                let mut i: usize = 0;
                while i < n
                    invariant
                        n <= b@.len(),
                        i <= n,
                        out@ == head + hex_dump(b@, i as int),
                    decreases n - i,
                {
                    if i > 0 {
                        out.append(" ");
                    }
                    push_hex(&mut out, b[i]);
                    proof {
                        assert(out@ =~= head + hex_dump(b@, i + 1));
                    }
                    i = i + 1;
                }
                out.append("\")");
                out
            },
            CurlBody::Unknown => String::from_str("Unknown Content"),
        }
    }

    /// The request as a curl command that repeats it.
    pub fn request_to_curl(
        method: &str,
        url: &str,
        headers: &Vec<(String, String)>,
        body: &Option<CurlBody>,
    ) -> (r: String)
        ensures
            r@ == spec_curl(method@, url@, headers@, *body),
    {
        let q = quotes();
        let mut r = String::from_str("curl -X ");
        r.append(method);
        r.append(" '");
        r.append(url);
        r.append("' ");
        let ghost head = r@;
        let n: usize = headers.len();
        let mut i: usize = 0;
        proof {
            assert(r@ =~= head + spec_header_options(headers@, 0));
        }
        while i < n
            invariant
                n == headers@.len(),
                i <= n,
                q@ == quote_chars(),
                r@ == head + spec_header_options(headers@, i as int),
            decreases n - i,
        {
            r.append("-H \"");
            r.append(headers[i].0.as_str());
            r.append(": ");
            r.append(escape(headers[i].1.as_str(), &q).as_str());
            r.append("\" ");
            proof {
                assert(r@ =~= head + spec_header_options(headers@, i + 1));
            }
            i = i + 1;
        }
        match body {
            Some(b) => {
                let text = Self::body_text(b);
                if !text.as_str().is_empty() {
                    r.append(" -d '");
                    r.append(text.as_str());
                    r.append("'");
                    proof {
                        assert(r@ =~= head + spec_header_options(headers@, n as int) + (" -d '"@
                            + spec_body_text(*b) + "'"@));
                    }
                } else {
                    proof {
                        assert(r@ =~= head + spec_header_options(headers@, n as int)
                            + Seq::<char>::empty());
                    }
                }
            },
            None => {
                proof {
                    assert(r@ =~= head + spec_header_options(headers@, n as int)
                        + Seq::<char>::empty());
                }
            },
        }
        r
    }

    /// The log line for a request about to be sent.
    pub fn on_request(curl: &str) -> (r: String)
        ensures
            r@ == "Sending request: "@ + curl@,
    {
        crate::text::join2("Sending request: ", curl)
    }

    /// The log line for a response.
    pub fn on_response(status: &str) -> (r: String)
        ensures
            r@ == "Received response: "@ + status@,
    {
        crate::text::join2("Received response: ", status)
    }

    /// The log line for a failed request.
    pub fn on_error(error: &str) -> (r: String)
        ensures
            r@ == "Request occurred Error: "@ + error@,
    {
        crate::text::join2("Request occurred Error: ", error)
    }
}

} // verus!
