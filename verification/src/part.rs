//! One field of a form: its two header values and the source of its payload.

use crate::wire::utf8;
use vstd::prelude::*;
use vstd::string::*;

verus! {

/// The source of a part's payload. `S` is the handle of a synchronous byte
/// reader, `A` that of an asynchronous one. A part owns its handle and only
/// carries it: the bytes are read by whoever drives the body.
pub enum Inner<S, A> {
    /// A synchronous reader, such as an open file, and the number of bytes
    /// that it is expected to yield, where that is known. The number is
    /// advisory: the payload ends where the reader does.
    Read(S, Option<u64>),
    /// An asynchronous reader.
    AsyncRead(A),
    /// A text, sent as its UTF-8 encoding.
    Text(String),
}

/// The source of a part's payload, with a text taken by its characters.
pub enum Payload<S, A> {
    Read(S, Option<u64>),
    AsyncRead(A),
    Text(Seq<char>),
}

impl<S, A> Payload<S, A> {
    /// The content type of a part that names none: `text/plain` for a text,
    /// `application/octet-stream` for what a reader yields.
    pub open spec fn default_content_type(self) -> Seq<char> {
        match self {
            Payload::Text(_) => "text/plain"@,
            _ => "application/octet-stream"@,
        }
    }

    /// The number of payload bytes, as far as it is known before reading.
    pub open spec fn len(self) -> Option<u64> {
        match self {
            Payload::Read(_, len) => len,
            Payload::AsyncRead(_) => None,
            Payload::Text(text) => Some(utf8(text).len() as u64),
        }
    }
}

impl<S, A> View for Inner<S, A> {
    type V = Payload<S, A>;

    open spec fn view(&self) -> Payload<S, A> {
        match *self {
            Inner::Read(read, len) => Payload::Read(read, len),
            Inner::AsyncRead(read) => Payload::AsyncRead(read),
            Inner::Text(text) => Payload::Text(text@),
        }
    }
}

/// `mime::TEXT_PLAIN`, rendered by `Mime`'s `Display`. The constant is built
/// from the literal `text/plain`, and `Display` prints that source text.
#[verifier::external_body]
fn text_plain() -> (mime: String)
    ensures
        mime@ == "text/plain"@,
{
    mime::TEXT_PLAIN.to_string()
}

/// `mime::APPLICATION_OCTET_STREAM`, rendered by `Mime`'s `Display`. The
/// constant is built from the literal `application/octet-stream`, and
/// `Display` prints that source text.
#[verifier::external_body]
fn application_octet_stream() -> (mime: String)
    ensures
        mime@ == "application/octet-stream"@,
{
    mime::APPLICATION_OCTET_STREAM.to_string()
}

impl<S, A> Inner<S, A> {
    /// Returns the default Content-Type header value as described in
    /// section 4.4 of RFC 7578.
    pub fn default_content_type(&self) -> (mime: String)
        ensures
            mime@ == self@.default_content_type(),
    {
        match self {
            Inner::Read(_, _) => application_octet_stream(),
            Inner::AsyncRead(_) => application_octet_stream(),
            Inner::Text(_) => text_plain(),
        }
    }

    /// Returns the length of the payload, where it is known before reading.
    pub fn len(&self) -> (len: Option<u64>)
        ensures
            len == self@.len(),
    {
        match self {
            Inner::Read(_, len) => *len,
            Inner::AsyncRead(_) => None,
            Inner::Text(text) => Some(text.as_str().as_bytes().len() as u64),
        }
    }
}

/// The value of a part's `content-disposition` header: the disposition type
/// `form-data`, the field's name and, for a file, its filename.
pub open spec fn disposition(name: Seq<char>, filename: Option<Seq<char>>) -> Seq<char> {
    let named = "form-data; name=\""@ + name + "\""@;
    match filename {
        Some(filename) => named + "; filename=\""@ + filename + "\""@,
        None => named,
    }
}

/// The characters of an optional text.
pub open spec fn text_of(text: Option<&str>) -> Option<Seq<char>> {
    match text {
        Some(text) => Some(text@),
        None => None,
    }
}

/// One part of a body delimited by a boundary line.
pub struct Part<S, A> {
    inner: Inner<S, A>,
    /// The value of the part's `content-type` header.
    content_type: String,
    /// The value of the part's `content-disposition` header.
    content_disposition: String,
}

/// What a part is: its payload source and its two header values.
pub struct PartView<S, A> {
    pub payload: Payload<S, A>,
    pub content_type: Seq<char>,
    pub content_disposition: Seq<char>,
}

impl<S, A> PartView<S, A> {
    /// Whether the disposition is that of a form field: it names the field
    /// and, at most, a file.
    pub open spec fn names_a_field(self) -> bool {
        exists|name: Seq<char>, filename: Option<Seq<char>>|
            self.content_disposition == #[trigger] disposition(name, filename)
    }
}

impl<S, A> View for Part<S, A> {
    type V = PartView<S, A>;

    closed spec fn view(&self) -> PartView<S, A> {
        PartView {
            payload: self.inner@,
            content_type: self.content_type@,
            content_disposition: self.content_disposition@,
        }
    }
}

impl<S, A> Part<S, A> {
    /// Every part names its field.
    #[verifier::type_invariant]
    spec fn well_formed(self) -> bool {
        self@.names_a_field()
    }

    /// Builds a part for the field `name`. The content type is `mime`, or
    /// the default of the payload's kind where none is given. The
    /// disposition always names the field, and names the file if and only
    /// if `filename` is given.
    pub fn new(inner: Inner<S, A>, name: &str, mime: Option<&str>, filename: Option<&str>) -> (part:
        Part<S, A>)
        ensures
            part@ == (PartView {
                payload: inner@,
                content_type: match mime {
                    Some(mime) => mime@,
                    None => inner@.default_content_type(),
                },
                content_disposition: disposition(name@, text_of(filename)),
            }),
            part@.names_a_field(),
    {
        let mut content_disposition = String::from_str("form-data; name=\"");
        content_disposition.append(name);
        content_disposition.append("\"");
        if let Some(filename) = filename {
            content_disposition.append("; filename=\"");
            content_disposition.append(filename);
            content_disposition.append("\"");
        }
        let content_type = match mime {
            Some(mime) => String::from_str(mime),
            None => inner.default_content_type(),
        };
        assert(content_disposition@ == disposition(name@, text_of(filename)));
        Part { inner, content_type, content_disposition }
    }

    /// The value of the `content-type` header.
    pub fn content_type(&self) -> (value: &str)
        ensures
            value@ == self@.content_type,
    {
        self.content_type.as_str()
    }

    /// The value of the `content-disposition` header.
    pub fn content_disposition(&self) -> (value: &str)
        ensures
            value@ == self@.content_disposition,
            self@.names_a_field(),
    {
        proof {
            use_type_invariant(self);
        }
        self.content_disposition.as_str()
    }

    /// The number of payload bytes, where it is known before reading.
    pub fn len(&self) -> (len: Option<u64>)
        ensures
            len == self@.payload.len(),
    {
        self.inner.len()
    }

    /// Gives up the part for its payload source.
    pub fn into_inner(self) -> (inner: Inner<S, A>)
        ensures
            inner@ == self@.payload,
    {
        self.inner
    }
}

} // verus!
