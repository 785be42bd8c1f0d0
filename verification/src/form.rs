//! The builder of a form.

use crate::body::{Body, BodyView};
use crate::boundary::{
    is_alphanumeric_text, BoundaryGenerator, RandomAsciiGenerator, RANDOM_BOUNDARY_LEN,
};
use crate::part::{disposition, Inner, Part, PartView, Payload};
use crate::wire::utf8;
use http::request::{Builder, Request};
use http::Error as HttpError;
use vstd::prelude::*;
use vstd::string::*;

verus! {

/// What a form needs to know of a file that was opened for it. The fields
/// are taken from the file's path and from its metadata.
pub struct FileInfo {
    /// The last component of the path, which becomes the part's filename.
    pub file_name: String,
    /// The extension of the path, without the dot, if it has one.
    pub extension: Option<String>,
    /// Whether the path leads to a regular file.
    pub is_file: bool,
    /// The length of the file in bytes.
    pub len: u64,
}

/// Why a file was not added to a form.
#[derive(Debug, PartialEq, Eq)]
pub enum FileError {
    /// The path leads to a directory or to something else that has no
    /// content to send.
    NotAFile,
}

impl FileError {
    /// What went wrong, in words.
    pub fn description(&self) -> (text: &'static str)
        ensures
            text@ == "expected a file not directory"@,
    {
        "expected a file not directory"
    }
}

/// The media type that `mime_guess` has on record for a file extension, if
/// it has one.
pub uninterp spec fn guessed_media_type(extension: Seq<char>) -> Option<Seq<char>>;

/// `mime_guess::from_ext(extension).first()`, the media type rendered by
/// `Mime`'s `Display`. The guess is looked up in a table that is part of the
/// crate, by the extension alone and without regard to case; no disk is
/// touched.
#[verifier::external_body]
fn guess_media_type(extension: &str) -> (mime: Option<String>)
    ensures
        match mime {
            Some(mime) => guessed_media_type(extension@) == Some(mime@),
            None => guessed_media_type(extension@) is None,
        },
{
    mime_guess::from_ext(extension).first().map(|mime| mime.to_string())
}

/// The content type of a file part for which the caller names none: what
/// the extension suggests, and the binary default where it suggests nothing
/// or is missing.
pub open spec fn file_content_type(extension: Option<String>) -> Seq<char> {
    match extension {
        Some(extension) => match guessed_media_type(extension@) {
            Some(mime) => mime,
            None => "application/octet-stream"@,
        },
        None => "application/octet-stream"@,
    }
}

#[verifier::external_type_specification]
#[verifier::external_body]
pub struct ExBuilder(Builder);

#[verifier::external_type_specification]
#[verifier::external_body]
#[verifier::reject_recursive_types(T)]
pub struct ExRequest<T>(Request<T>);

#[verifier::external_type_specification]
#[verifier::external_body]
pub struct ExHttpError(HttpError);

/// Whether a byte may stand in the value of a header: the tab, the space
/// and whatever is neither a control character nor the delete character.
pub open spec fn is_header_value_byte(byte: u8) -> bool {
    byte >= 32 && byte != 127 || byte == 9
}

/// Whether a text, as UTF-8, may stand as the value of a header.
pub open spec fn is_header_value(text: Seq<char>) -> bool {
    forall|i: int| 0 <= i < utf8(text).len() ==> is_header_value_byte(#[trigger] utf8(text)[i])
}

/// Whether the builder gives a request when it is handed the value for the
/// `content-type` header and then a body.
pub uninterp spec fn builds_request(req: Builder, content_type: Seq<char>) -> bool;

/// `Builder::header` for the header `http::header::CONTENT_TYPE`, and
/// `Builder::body` on what it gives. Whether a request comes back is
/// decided by the builder and the value, never by the body: the builder
/// turns the value into a `HeaderValue`, which fails for a byte that no
/// header value can hold, and from then on holds that error; `body` gives
/// the request exactly where the builder holds no error. A builder that
/// comes with an error, or with as many headers as it can take, fails as
/// well.
#[verifier::external_body]
fn request_with<B>(req: Builder, content_type: &str, body: B) -> (request: Result<
    Request<B>,
    HttpError,
>)
    ensures
        request is Ok <==> builds_request(req, content_type@),
        !is_header_value(content_type@) ==> request is Err,
{
    req.header(&http::header::CONTENT_TYPE, content_type).body(body)
}

/// Implements the multipart/form-data media type as described by RFC 7578.
///
/// A form is a boundary and the parts that were added to it, in the order
/// in which they were added. Names may repeat.
pub struct Form<S, A> {
    parts: Vec<Part<S, A>>,
    /// The boundary as described by section 4.1 of RFC 7578.
    boundary: String,
}

/// What a form is: its boundary and its parts, the first added first.
pub struct FormView<S, A> {
    pub boundary: Seq<char>,
    pub parts: Seq<PartView<S, A>>,
}

impl<S, A> FormView<S, A> {
    /// The value of the `content-type` header of a request that carries
    /// the form.
    pub open spec fn content_type(self) -> Seq<char> {
        "multipart/form-data; boundary="@ + self.boundary
    }

    /// The form with one more part at its end.
    pub open spec fn with(self, part: PartView<S, A>) -> FormView<S, A> {
        FormView { boundary: self.boundary, parts: self.parts.push(part) }
    }
}

impl<S, A> View for Form<S, A> {
    type V = FormView<S, A>;

    closed spec fn view(&self) -> FormView<S, A> {
        FormView {
            boundary: self.boundary@,
            parts: self.parts@.map_values(|part: Part<S, A>| part@),
        }
    }
}

impl<S, A> Form<S, A> {
    /// Creates a form without parts under the given boundary.
    pub fn with_boundary(boundary: String) -> (form: Form<S, A>)
        ensures
            form@ == (FormView::<S, A> { boundary: boundary@, parts: Seq::empty() }),
    {
        let form = Form { parts: Vec::new(), boundary };
        assert(form@.parts =~= Seq::empty());
        form
    }

    /// Creates a new form with the specified boundary generator function.
    /// The generator is called once, and the boundary is what it returned.
    pub fn new<G>() -> (form: Form<S, A>) where G: BoundaryGenerator
        ensures
            exists|boundary: String|
                call_ensures(G::generate_boundary, (), boundary) && form@ == (FormView::<S, A> {
                    boundary: boundary@,
                    parts: Seq::empty(),
                }),
    {
        Form::with_boundary(G::generate_boundary())
    }

    /// Appends a part.
    fn push(&mut self, part: Part<S, A>)
        ensures
            final(self)@ == old(self)@.with(part@),
    {
        self.parts.push(part);
        assert(self@.parts =~= old(self)@.parts.push(part@));
    }

    /// Adds a text part to the Form.
    pub fn add_text(&mut self, name: &str, text: &str)
        ensures
            final(self)@ == old(self)@.with(
                PartView {
                    payload: Payload::Text(text@),
                    content_type: "text/plain"@,
                    content_disposition: disposition(name@, None),
                },
            ),
    {
        self.push(Part::new(Inner::Text(String::from_str(text)), name, None, None))
    }

    /// Adds a readable part to the Form.
    pub fn add_reader(&mut self, name: &str, read: S)
        ensures
            final(self)@ == old(self)@.with(
                PartView {
                    payload: Payload::Read(read, None),
                    content_type: "application/octet-stream"@,
                    content_disposition: disposition(name@, None),
                },
            ),
    {
        self.push(Part::new(Inner::Read(read, None), name, None, None))
    }

    /// Adds an asynchronously readable part to the Form.
    pub fn add_async_reader(&mut self, name: &str, read: A)
        ensures
            final(self)@ == old(self)@.with(
                PartView {
                    payload: Payload::AsyncRead(read),
                    content_type: "application/octet-stream"@,
                    content_disposition: disposition(name@, None),
                },
            ),
    {
        self.push(Part::new(Inner::AsyncRead(read), name, None, None))
    }

    /// Adds a file, and attempts to derive the mime type.
    ///
    /// The file was opened by the caller, who hands over its handle and
    /// what the path and the metadata say of it. What is not a regular file
    /// is refused and the form stays as it is. Otherwise the part gets the
    /// content type that the extension suggests, or the binary default, the
    /// file's length and as filename the name of the file.
    pub fn add_file(&mut self, name: &str, info: &FileInfo, file: S) -> (result: Result<
        (),
        FileError,
    >)
        ensures
            match result {
                Ok(()) => info.is_file && final(self)@ == old(self)@.with(
                    PartView {
                        payload: Payload::Read(file, Some(info.len)),
                        content_type: file_content_type(info.extension),
                        content_disposition: disposition(name@, Some(info.file_name@)),
                    },
                ),
                Err(error) => !info.is_file && error == FileError::NotAFile && final(self)@ == old(
                    self,
                )@,
            },
    {
        self._add_file(name, info, file, None)
    }

    /// Adds a file with the specified mime type to the form. Nothing is
    /// derived from the extension.
    pub fn add_file_with_mime(&mut self, name: &str, info: &FileInfo, file: S, mime: &str) -> (result:
        Result<(), FileError>)
        ensures
            match result {
                Ok(()) => info.is_file && final(self)@ == old(self)@.with(
                    PartView {
                        payload: Payload::Read(file, Some(info.len)),
                        content_type: mime@,
                        content_disposition: disposition(name@, Some(info.file_name@)),
                    },
                ),
                Err(error) => !info.is_file && error == FileError::NotAFile && final(self)@ == old(
                    self,
                )@,
            },
    {
        self._add_file(name, info, file, Some(mime))
    }

    /// Adds a file part to the form, with the given mime type or, where
    /// none is given, with the one that the extension suggests. `add_file`
    /// and `add_file_with_mime` are this function with and without a mime
    /// type.
    pub fn _add_file(&mut self, name: &str, info: &FileInfo, file: S, mime: Option<&str>) -> (result:
        Result<(), FileError>)
        ensures
            match result {
                Ok(()) => info.is_file && final(self)@ == old(self)@.with(
                    PartView {
                        payload: Payload::Read(file, Some(info.len)),
                        content_type: match mime {
                            Some(mime) => mime@,
                            None => file_content_type(info.extension),
                        },
                        content_disposition: disposition(name@, Some(info.file_name@)),
                    },
                ),
                Err(error) => !info.is_file && error == FileError::NotAFile && final(self)@ == old(
                    self,
                )@,
            },
    {
        // What is not a file can't be uploaded because there is no content.
        if !info.is_file {
            return Err(FileError::NotAFile);
        }
        let inner = Inner::Read(file, Some(info.len));
        let filename = Some(info.file_name.as_str());
        let part = match mime {
            Some(mime) => Part::new(inner, name, Some(mime), filename),
            None => {
                let guess = match &info.extension {
                    Some(extension) => guess_media_type(extension.as_str()),
                    None => None,
                };
                match &guess {
                    Some(mime) => Part::new(inner, name, Some(mime.as_str()), filename),
                    None => Part::new(inner, name, None, filename),
                }
            },
        };
        self.push(part);
        Ok(())
    }

    /// Adds a readable part to the Form as a file.
    pub fn add_reader_file(&mut self, name: &str, read: S, filename: &str)
        ensures
            final(self)@ == old(self)@.with(
                PartView {
                    payload: Payload::Read(read, None),
                    content_type: "application/octet-stream"@,
                    content_disposition: disposition(name@, Some(filename@)),
                },
            ),
    {
        self.push(Part::new(Inner::Read(read, None), name, None, Some(filename)))
    }

    /// Adds an asynchronously readable part to the Form as a file.
    pub fn add_async_reader_file(&mut self, name: &str, read: A, filename: &str)
        ensures
            final(self)@ == old(self)@.with(
                PartView {
                    payload: Payload::AsyncRead(read),
                    content_type: "application/octet-stream"@,
                    content_disposition: disposition(name@, Some(filename@)),
                },
            ),
    {
        self.push(Part::new(Inner::AsyncRead(read), name, None, Some(filename)))
    }

    /// Adds a readable part to the Form as a file with a specified mime.
    pub fn add_reader_file_with_mime(&mut self, name: &str, read: S, filename: &str, mime: &str)
        ensures
            final(self)@ == old(self)@.with(
                PartView {
                    payload: Payload::Read(read, None),
                    content_type: mime@,
                    content_disposition: disposition(name@, Some(filename@)),
                },
            ),
    {
        self.push(Part::new(Inner::Read(read, None), name, Some(mime), Some(filename)))
    }

    /// Adds an asynchronously readable part to the Form as a file with a
    /// specified mime.
    pub fn add_async_reader_file_with_mime(
        &mut self,
        name: &str,
        read: A,
        filename: &str,
        mime: &str,
    )
        ensures
            final(self)@ == old(self)@.with(
                PartView {
                    payload: Payload::AsyncRead(read),
                    content_type: mime@,
                    content_disposition: disposition(name@, Some(filename@)),
                },
            ),
    {
        self.push(Part::new(Inner::AsyncRead(read), name, Some(mime), Some(filename)))
    }

    /// Returns the value for the `content-type` header of a request that
    /// carries this form.
    pub fn content_type(&self) -> (value: String)
        ensures
            value@ == self@.content_type(),
    {
        let mut value = String::from_str("multipart/form-data; boundary=");
        value.append(self.boundary.as_str());
        value
    }

    /// Gives up the form for what a request needs of it: the value of the
    /// `content-type` header, and the body.
    pub fn into_request_parts(self) -> (parts: (String, Body<S, A>))
        ensures
            parts.0@ == self@.content_type(),
            parts.1@ == BodyView::start(self@),
    {
        let content_type = self.content_type();
        (content_type, Body::from(self))
    }

    /// Updates a request instance with the multipart Content-Type header
    /// and the payload data.
    ///
    /// The request is built by the builder that was handed in, from the
    /// header value of `content_type` and the body of this form. Whether
    /// it is built is the builder's answer to that header value. It is not
    /// built where the boundary holds a byte that no header value can hold,
    /// such as a line break.
    pub fn set_body<B>(self, req: Builder) -> (request: Result<Request<B>, HttpError>) where
        B: From<Body<S, A>>,
        ensures
            request is Ok <==> builds_request(req, self@.content_type()),
            !is_header_value(self@.content_type()) ==> request is Err,
    {
        self.set_body_convert::<B, B>(req)
    }

    /// Updates a request instance with the multipart Content-Type header
    /// and the payload data.
    ///
    /// Allows converting body into an intermediate type. The request fails
    /// on the same forms as with `set_body`.
    pub fn set_body_convert<B, I>(self, req: Builder) -> (request: Result<
        Request<B>,
        HttpError,
    >) where I: From<Body<S, A>> + Into<B>,
        ensures
            request is Ok <==> builds_request(req, self@.content_type()),
            !is_header_value(self@.content_type()) ==> request is Err,
    {
        let (content_type, body) = self.into_request_parts();
        request_with(req, content_type.as_str(), I::from(body).into())
    }

    /// Gives up the form for its parts and its boundary.
    pub fn into_parts(self) -> (parts: (Vec<Part<S, A>>, String))
        ensures
            parts.0@.map_values(|part: Part<S, A>| part@) == self@.parts,
            parts.1@ == self@.boundary,
    {
        (self.parts, self.boundary)
    }
}

impl<S, A> Default for Form<S, A> {
    /// Creates a new form with the default boundary generator.
    fn default() -> (form: Form<S, A>)
        ensures
            form@.parts == Seq::<PartView<S, A>>::empty(),
            form@.boundary.len() == RANDOM_BOUNDARY_LEN,
            is_alphanumeric_text(form@.boundary),
    {
        Form::new::<RandomAsciiGenerator>()
    }
}

} // verus!
