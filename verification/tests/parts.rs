use multipart_rfc7578::client::Error;
use multipart_rfc7578::part::{Inner, Part};
use multipart_rfc7578::wire::{
    write_boundary, write_crlf, write_final_boundary, write_headers, write_text,
};
use std::io::{Error as IoError, ErrorKind};

type TestInner = Inner<Vec<u8>, u32>;
type TestPart = Part<Vec<u8>, u32>;

#[test]
fn write_crlf_appends_two_bytes() {
    let mut buf = b"ab".to_vec();
    write_crlf(&mut buf);
    assert_eq!(buf, b"ab\r\n");
    write_crlf(&mut buf);
    assert_eq!(buf, [0x61, 0x62, 13, 10, 13, 10]);
}

#[test]
fn write_text_appends_utf8() {
    let mut buf = vec![1u8];
    write_text(&mut buf, "\u{e9}x");
    assert_eq!(buf, [1, 0xc3, 0xa9, 0x78]);
}

#[test]
fn write_boundary_puts_two_hyphens_first() {
    let mut buf = Vec::new();
    write_boundary(&mut buf, "boundary");
    assert_eq!(buf, b"--boundary");
}

#[test]
fn write_final_boundary_puts_hyphens_on_both_sides() {
    let mut buf = b">".to_vec();
    write_final_boundary(&mut buf, "boundary");
    assert_eq!(buf, b">--boundary--");
}

#[test]
fn write_headers_writes_both_headers_in_lower_case() {
    let mut buf = b"--B".to_vec();
    write_headers(&mut buf, "text/plain", "form-data; name=\"n\"");
    assert_eq!(
        String::from_utf8(buf).unwrap(),
        "--B\r\ncontent-type: text/plain\r\ncontent-disposition: form-data; name=\"n\"\r\n\r\n"
    );
}

#[test]
fn default_content_type_depends_on_the_kind() {
    assert_eq!(TestInner::Text("t".to_string()).default_content_type(), "text/plain");
    assert_eq!(TestInner::Read(vec![], None).default_content_type(), "application/octet-stream");
    assert_eq!(TestInner::Read(vec![], Some(3)).default_content_type(), "application/octet-stream");
    assert_eq!(TestInner::AsyncRead(1).default_content_type(), "application/octet-stream");
}

#[test]
fn length_is_known_for_texts_and_declared_for_readers() {
    assert_eq!(TestInner::Text("".to_string()).len(), Some(0));
    assert_eq!(TestInner::Text("h\u{e9}llo".to_string()).len(), Some(6));
    assert_eq!(TestInner::Read(vec![1, 2], None).len(), None);
    assert_eq!(TestInner::Read(vec![1, 2], Some(99)).len(), Some(99));
    assert_eq!(TestInner::AsyncRead(0).len(), None);
}

#[test]
fn part_names_the_field_and_the_file() {
    let part = TestPart::new(Inner::Text("v".to_string()), "field", None, None);
    assert_eq!(part.content_disposition(), "form-data; name=\"field\"");
    assert_eq!(part.content_type(), "text/plain");
    assert_eq!(part.len(), Some(1));

    let part = TestPart::new(Inner::Read(vec![7], Some(1)), "field", None, Some("a.bin"));
    assert_eq!(part.content_disposition(), "form-data; name=\"field\"; filename=\"a.bin\"");
    assert_eq!(part.content_type(), "application/octet-stream");
    assert_eq!(part.len(), Some(1));

    let part = TestPart::new(Inner::AsyncRead(5), "", Some("image/png"), Some(""));
    assert_eq!(part.content_disposition(), "form-data; name=\"\"; filename=\"\"");
    assert_eq!(part.content_type(), "image/png");
    assert_eq!(part.len(), None);
}

#[test]
fn part_gives_its_source_back() {
    let part = TestPart::new(Inner::Read(vec![1, 2, 3], Some(3)), "f", None, None);
    match part.into_inner() {
        Inner::Read(read, len) => {
            assert_eq!(read, vec![1, 2, 3]);
            assert_eq!(len, Some(3));
        }
        _ => panic!("the source keeps its kind"),
    }
    let part = TestPart::new(Inner::Text("abc".to_string()), "f", Some("text/html"), None);
    assert!(matches!(part.into_inner(), Inner::Text(text) if text == "abc"));
    let part = TestPart::new(Inner::AsyncRead(9), "f", None, None);
    assert!(matches!(part.into_inner(), Inner::AsyncRead(9)));
}

#[test]
fn error_describes_its_kind() {
    let io = || IoError::new(ErrorKind::Other, "disk on fire");
    assert_eq!(Error::HeaderWrite(io()).description(), "Error writing headers");
    assert_eq!(Error::BoundaryWrite(io()).description(), "Error writing boundary");
    assert_eq!(Error::ContentRead(io()).description(), "Error reading content");
}

#[test]
fn error_message_names_kind_and_cause() {
    let io = || IoError::new(ErrorKind::Other, "disk on fire");
    assert_eq!(Error::HeaderWrite(io()).to_string(), "Error writing headers: disk on fire");
    assert_eq!(Error::BoundaryWrite(io()).to_string(), "Error writing boundary: disk on fire");
    assert_eq!(Error::ContentRead(io()).to_string(), "Error reading content: disk on fire");
    assert_eq!(Error::ContentRead(io()).describe("x"), "Error reading content: x");
    assert_eq!(Error::HeaderWrite(io()).describe(""), "Error writing headers: ");
}

#[test]
fn error_keeps_its_cause() {
    let error = Error::ContentRead(IoError::new(ErrorKind::BrokenPipe, "gone"));
    assert_eq!(error.cause().kind(), ErrorKind::BrokenPipe);
    let io = error.into_io();
    assert_eq!(io.kind(), ErrorKind::BrokenPipe);
    assert_eq!(io.to_string(), "gone");
    let io = Error::HeaderWrite(IoError::new(ErrorKind::NotFound, "a")).into_io();
    assert_eq!(io.kind(), ErrorKind::NotFound);
    let io = Error::BoundaryWrite(IoError::new(ErrorKind::TimedOut, "b")).into_io();
    assert_eq!(io.kind(), ErrorKind::TimedOut);
}
