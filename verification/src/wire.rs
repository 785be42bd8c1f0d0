//! The byte layout of a `multipart/form-data` body.

use vstd::prelude::*;
use vstd::string::*;
use vstd::utf8::encode_utf8;

verus! {

/// A carriage return and a line feed.
pub open spec fn crlf() -> Seq<u8> {
    seq![13u8, 10u8]
}

/// The two hyphens that open every boundary line and close the last one.
pub open spec fn dashes() -> Seq<u8> {
    seq![45u8, 45u8]
}

/// The colon and space between a header's name and its value.
pub open spec fn separator() -> Seq<u8> {
    seq![58u8, 32u8]
}

/// The UTF-8 encoding of a text.
pub open spec fn utf8(text: Seq<char>) -> Seq<u8> {
    encode_utf8(text)
}

/// `--<boundary>`: the delimiter that opens a part, without its line end.
pub open spec fn boundary_line(boundary: Seq<char>) -> Seq<u8> {
    dashes() + utf8(boundary)
}

/// `--<boundary>--`: the delimiter that closes the body, without its line end.
pub open spec fn final_boundary_line(boundary: Seq<char>) -> Seq<u8> {
    boundary_line(boundary) + dashes()
}

/// `<name>: <value>` and the line end.
pub open spec fn header_line(name: Seq<char>, value: Seq<char>) -> Seq<u8> {
    utf8(name) + separator() + utf8(value) + crlf()
}

/// The end of the boundary line, the two header lines of a part and the
/// blank line after them.
pub open spec fn headers(content_type: Seq<char>, content_disposition: Seq<char>) -> Seq<u8> {
    crlf() + header_line("content-type"@, content_type) + header_line(
        "content-disposition"@,
        content_disposition,
    ) + crlf()
}

/// Everything that precedes the payload of a part.
pub open spec fn part_head(
    boundary: Seq<char>,
    content_type: Seq<char>,
    content_disposition: Seq<char>,
) -> Seq<u8> {
    boundary_line(boundary) + headers(content_type, content_disposition)
}

/// Everything that follows the payload of a part: the line end and, after
/// the last part, the closing delimiter with its own line end.
pub open spec fn part_tail(boundary: Seq<char>, last: bool) -> Seq<u8> {
    if last {
        crlf() + final_boundary_line(boundary) + crlf()
    } else {
        crlf()
    }
}

/// One part as it goes on the wire: its two header values and its payload.
pub struct Section {
    pub content_type: Seq<char>,
    pub content_disposition: Seq<char>,
    pub payload: Seq<u8>,
}

/// The whole body for the given parts, in order. A form without parts
/// encodes to nothing at all, not even a closing delimiter.
pub open spec fn wire_format(boundary: Seq<char>, parts: Seq<Section>) -> Seq<u8>
    decreases parts.len(),
{
    if parts.len() == 0 {
        Seq::empty()
    } else {
        part_head(boundary, parts[0].content_type, parts[0].content_disposition)
            + parts[0].payload + part_tail(boundary, parts.len() == 1) + wire_format(
            boundary,
            parts.drop_first(),
        )
    }
}

/// Writes a CRLF.
pub fn write_crlf(buf: &mut Vec<u8>)
    ensures
        final(buf)@ == old(buf)@ + crlf(),
{
    buf.push(13u8);
    buf.push(10u8);
}

/// Writes a text as UTF-8.
pub fn write_text(buf: &mut Vec<u8>, text: &str)
    ensures
        final(buf)@ == old(buf)@ + utf8(text@),
{
    buf.extend_from_slice(text.as_bytes());
}

/// Writes the colon and space that follow a header's name.
fn write_separator(buf: &mut Vec<u8>)
    ensures
        final(buf)@ == old(buf)@ + separator(),
{
    buf.push(58u8);
    buf.push(32u8);
}

/// The name of `http::header::CONTENT_TYPE`, as `HeaderName::as_str` gives
/// it: the name of a standard header in lower case, here `content-type`.
#[verifier::external_body]
fn content_type_name() -> (name: String)
    ensures
        name@ == "content-type"@,
{
    http::header::CONTENT_TYPE.as_str().to_owned()
}

/// The name of `http::header::CONTENT_DISPOSITION`, as `HeaderName::as_str`
/// gives it: the name of a standard header in lower case, here
/// `content-disposition`.
#[verifier::external_body]
fn content_disposition_name() -> (name: String)
    ensures
        name@ == "content-disposition"@,
{
    http::header::CONTENT_DISPOSITION.as_str().to_owned()
}

/// Writes the delimiter that opens a part, as section 4.1 of RFC 7578 asks:
/// two hyphens and the boundary.
pub fn write_boundary(buf: &mut Vec<u8>, boundary: &str)
    ensures
        final(buf)@ == old(buf)@ + boundary_line(boundary@),
{
    buf.push(45u8);
    buf.push(45u8);
    write_text(buf, boundary);
}

/// Writes the delimiter that closes the body, as section 5.1 of RFC 2046
/// asks: the boundary between two pairs of hyphens.
pub fn write_final_boundary(buf: &mut Vec<u8>, boundary: &str)
    ensures
        final(buf)@ == old(buf)@ + final_boundary_line(boundary@),
{
    write_boundary(buf, boundary);
    buf.push(45u8);
    buf.push(45u8);
}

/// Writes the end of the boundary line, the Content-Type and the
/// Content-Disposition header of a part, and the blank line after them.
pub fn write_headers(buf: &mut Vec<u8>, content_type: &str, content_disposition: &str)
    ensures
        final(buf)@ == old(buf)@ + headers(content_type@, content_disposition@),
{
    write_crlf(buf);
    write_text(buf, content_type_name().as_str());
    write_separator(buf);
    write_text(buf, content_type);
    write_crlf(buf);
    write_text(buf, content_disposition_name().as_str());
    write_separator(buf);
    write_text(buf, content_disposition);
    write_crlf(buf);
    write_crlf(buf);
}

} // verus!
