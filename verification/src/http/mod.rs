//! The in-memory representation of an HTTP response and its wire
//! serialization.
//!
//! File content is read from disk only at serialization time, by the
//! host program; a failed read degrades the whole response to a
//! not-found message that wraps the read error.

use vstd::prelude::*;
use vstd::string::*;

verus! {

/// Message meant to be sent over HTTP.
pub struct Message {
    /// The HTTP response variant
    pub variant: Variant,
    /// The contents of the response
    pub content: Content,
}

/// The HTTP response variant.
#[derive(Clone, Copy, PartialEq, Eq, Structural, Debug)]
pub enum Variant {
    /// 200 OK
    Okay,
    /// 503 Service Unavailable
    ServiceUnavailable,
    /// 404 Not Found
    NotFound,
    /// 500 Internal Server Error
    InternalServerError,
}

/// The possible contents of an HTTP response.
pub enum Content {
    /// A file to be read at serialization time, named by this path
    File(String),
    /// Generic text
    Text(String),
    /// A value already serialized into JSON
    Struct(String),
    /// Raw bytes, written with a fixed header and no text coercion
    RawBytes(Vec<u8>),
    /// Nothing: a header-only response
    Empty,
}

impl Message {
    /// Returns a new message.
    pub fn new(variant: Variant, content: Content) -> (m: Self)
        ensures
            m.variant == variant,
            m.content == content,
    {
        Message { variant, content }
    }

    /// An internal server error wrapping the text of `e`.
    pub fn internal_server_error(e: String) -> (m: Self)
        ensures
            m.variant == Variant::InternalServerError,
            m.content matches Content::Text(t) && t == e,
    {
        Message::new(Variant::InternalServerError, Content::Text(e))
    }

    /// The path of the file this message needs read at serialization
    /// time, if its content is a file.
    pub fn file_name(&self) -> (r: Option<String>)
        ensures
            match self.content {
                Content::File(n) => r matches Some(m) && m@ == n@,
                _ => r is None,
            },
    {
        match &self.content {
            Content::File(n) => Some(n.clone()),
            _ => None,
        }
    }

    /// Serializes the message, given the outcome of reading its file
    /// when its content names one: status line, one header line, body.
    /// A failed file read degrades the whole response to a not-found
    /// message wrapping the read error.
    pub fn to_http_string(&self, file: Option<Result<String, String>>) -> (r: String)
        requires
            (self.content is File) <==> (file is Some),
        ensures
            r@ == spec_render(*self, spec_file_view(file)),
    {
        if let Content::File(_) = &self.content {
            match file {
                Some(Ok(text)) => {
                    let mut r = status_line(self.variant);
                    r.append("\r\n");
                    r.append(text.as_str());
                    proof {
                        assert(r@ =~= spec_render(*self, spec_file_view(Some(Ok(text)))));
                    }
                    r
                },
                Some(Err(e)) => {
                    let mut r = String::from_str(
                        "HTTP/1.1 404 NOT FOUND \r\n Content-Type: text/plain\r\n ",
                    );
                    r.append(e.as_str());
                    r
                },
                None => String::new(),
            }
        } else {
            let mut r = status_line(self.variant);
            match &self.content {
                Content::File(_) => {},
                Content::Text(t) => {
                    r.append("Content-Type: text/plain\r\n");
                    r.append(t.as_str());
                },
                Content::Struct(t) => {
                    r.append("\r\n");
                    r.append(t.as_str());
                },
                Content::RawBytes(_) => {
                    r.append("\r\n");
                    r.append("RawBytes is not meant to be displayed ᓚᘏᗢ");
                },
                Content::Empty => {
                    r.append("\r\n");
                },
            }
            proof {
                assert(r@ =~= spec_render(*self, spec_file_view(file)));
            }
            r
        }
    }

    /// The wire bytes of a raw-payload response: a fixed header
    /// concatenated directly with the payload.
    pub fn raw_bytes_response(&self) -> (r: Vec<u8>)
        requires
            self.content is RawBytes,
        ensures
            r@ == "HTTP/1.1 200 OK\r\n\r\n".spec_bytes() + self.content->RawBytes_0@,
    {
        let header: &str = "HTTP/1.1 200 OK\r\n\r\n";
        let mut v = header.as_bytes_vec();
        match &self.content {
            Content::RawBytes(bytes) => {
                let mut i: usize = 0;
                while i < bytes.len()
                    invariant
                        i <= bytes@.len(),
                        v@ == header.spec_bytes() + bytes@.take(i as int),
                    decreases bytes@.len() - i,
                {
                    v.push(bytes[i]);
                    proof {
                        assert(v@ =~= header.spec_bytes() + bytes@.take(i + 1));
                    }
                    i += 1;
                }
                proof {
                    assert(bytes@.take(bytes@.len() as int) =~= bytes@);
                }
                v
            },
            _ => v,
        }
    }
}

impl Default for Message {
    /// An OK message with no content.
    fn default() -> (m: Self)
        ensures
            m.variant == Variant::Okay,
            m.content is Empty,
    {
        Message { variant: Variant::Okay, content: Content::Empty }
    }
}

/// The status line emitted for each response variant.
pub open spec fn spec_status_line(v: Variant) -> Seq<char> {
    match v {
        Variant::Okay => "HTTP/1.1 200 OK\r\n"@,
        Variant::ServiceUnavailable => "HTTP/1.1 503 Service Unavailable\r\n"@,
        Variant::NotFound => "HTTP/1.1 404 NOT FOUND\r\n"@,
        Variant::InternalServerError => "500 Internal Server Error\r\n"@,
    }
}

/// The status line for a response variant.
pub fn status_line(v: Variant) -> (r: String)
    ensures
        r@ == spec_status_line(v),
{
    match v {
        Variant::Okay => String::from_str("HTTP/1.1 200 OK\r\n"),
        Variant::ServiceUnavailable => String::from_str("HTTP/1.1 503 Service Unavailable\r\n"),
        Variant::NotFound => String::from_str("HTTP/1.1 404 NOT FOUND\r\n"),
        Variant::InternalServerError => String::from_str("500 Internal Server Error\r\n"),
    }
}

/// The single header line: a content type for plain text, otherwise just
/// the blank-line terminator.
pub open spec fn spec_header_line(c: Content) -> Seq<char> {
    if c is Text {
        "Content-Type: text/plain\r\n"@
    } else {
        "\r\n"@
    }
}

/// The body text of a response, given the file text when the content
/// names a file.
pub open spec fn spec_body(c: Content, file: Option<Result<Seq<char>, Seq<char>>>) -> Seq<char> {
    match c {
        Content::File(_) => match file {
            Some(Ok(t)) => t,
            _ => Seq::empty(),
        },
        Content::Text(t) => t@,
        Content::Struct(t) => t@,
        Content::RawBytes(_) => "RawBytes is not meant to be displayed ᓚᘏᗢ"@,
        Content::Empty => Seq::empty(),
    }
}

/// The full text serialization of a message.  A failed file read turns
/// the whole response into a not-found message wrapping the error.
pub open spec fn spec_render(
    m: Message,
    file: Option<Result<Seq<char>, Seq<char>>>,
) -> Seq<char> {
    if m.content is File {
        match file {
            Option::Some(Result::Err(e)) => "HTTP/1.1 404 NOT FOUND \r\n Content-Type: text/plain\r\n "@
                + e,
            _ => spec_status_line(m.variant) + spec_header_line(m.content) + spec_body(
                m.content,
                file,
            ),
        }
    } else {
        spec_status_line(m.variant) + spec_header_line(m.content) + spec_body(m.content, file)
    }
}

/// The views of a file-read outcome.
pub open spec fn spec_file_view(file: Option<Result<String, String>>) -> Option<
    Result<Seq<char>, Seq<char>>,
> {
    match file {
        Option::None => Option::None,
        Option::Some(Result::Ok(t)) => Option::Some(Result::Ok(t@)),
        Option::Some(Result::Err(e)) => Option::Some(Result::Err(e@)),
    }
}

} // verus!
