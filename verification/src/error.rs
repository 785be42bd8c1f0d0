//! The failures that a body reports to its consumer.

use vstd::prelude::*;
use vstd::string::*;

verus! {

#[verifier::external_type_specification]
#[verifier::external_body]
pub struct ExIoError(std::io::Error);

/// Why the encoding of a body stopped before its end. Each kind carries the
/// I/O error that caused it.
#[derive(Debug)]
pub enum Error {
    /// The headers of a part could not be written.
    HeaderWrite(std::io::Error),
    /// A boundary line could not be written.
    BoundaryWrite(std::io::Error),
    /// The payload source of a part failed while it was read.
    ContentRead(std::io::Error),
}

impl Error {
    /// The I/O error inside.
    pub open spec fn source(self) -> std::io::Error {
        match self {
            Error::HeaderWrite(e) => e,
            Error::BoundaryWrite(e) => e,
            Error::ContentRead(e) => e,
        }
    }

    /// What went wrong, without the cause.
    pub open spec fn description_text(self) -> Seq<char> {
        match self {
            Error::HeaderWrite(_) => "Error writing headers"@,
            Error::BoundaryWrite(_) => "Error writing boundary"@,
            Error::ContentRead(_) => "Error reading content"@,
        }
    }

    /// The full message for a cause that reads `detail`.
    pub open spec fn message(self, detail: Seq<char>) -> Seq<char> {
        self.description_text() + ": "@ + detail
    }

    /// A short description of the kind of failure.
    pub fn description(&self) -> (text: &'static str)
        ensures
            text@ == self.description_text(),
    {
        match self {
            Error::HeaderWrite(_) => "Error writing headers",
            Error::BoundaryWrite(_) => "Error writing boundary",
            Error::ContentRead(_) => "Error reading content",
        }
    }

    /// The I/O error that caused the failure.
    pub fn cause(&self) -> (cause: &std::io::Error)
        ensures
            *cause == self.source(),
    {
        match self {
            Error::HeaderWrite(e) => e,
            Error::BoundaryWrite(e) => e,
            Error::ContentRead(e) => e,
        }
    }

    /// Gives up the kind and keeps the I/O error.
    pub fn into_io(self) -> (cause: std::io::Error)
        ensures
            cause == self.source(),
    {
        match self {
            Error::HeaderWrite(e) => e,
            Error::BoundaryWrite(e) => e,
            Error::ContentRead(e) => e,
        }
    }

    /// The description, a colon and the given rendering of the cause.
    pub fn describe(&self, detail: &str) -> (text: String)
        ensures
            text@ == self.message(detail@),
    {
        let mut text = String::from_str(self.description());
        text.append(": ");
        text.append(detail);
        text
    }

    /// The message of this error: its description, a colon and the cause as
    /// the I/O error displays itself.
    pub fn to_string(&self) -> (text: String)
        ensures
            exists|detail: String|
                to_string_from_display_ensures::<std::io::Error>(&self.source(), detail)
                    && text@ == self.message(detail@),
    {
        let detail = self.cause().to_string();
        self.describe(detail.as_str())
    }
}

} // verus!
