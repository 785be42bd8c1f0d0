use multipart_rfc7578::boundary::{
    boundary_from, BoundaryGenerator, RandomAsciiGenerator, RANDOM_BOUNDARY_LEN,
};
use multipart_rfc7578::client::multipart::Form;
use std::io::Cursor;

type TestForm = Form<Cursor<&'static str>, Cursor<&'static str>>;

#[test]
fn generate_random_boundary_not_empty() {
    assert!(RandomAsciiGenerator::generate_boundary().len() > 0);
}

#[test]
fn generate_random_boundary_different_each_time() {
    assert!(
        RandomAsciiGenerator::generate_boundary() != RandomAsciiGenerator::generate_boundary()
    );
}

#[test]
fn random_boundary_is_six_ascii_letters_or_digits() {
    for _ in 0..200 {
        let boundary = RandomAsciiGenerator::generate_boundary();
        assert_eq!(boundary.len(), 6);
        assert_eq!(boundary.chars().count(), RANDOM_BOUNDARY_LEN);
        assert!(boundary.chars().all(|c| c.is_ascii_alphanumeric()));
    }
}

#[test]
fn random_boundaries_are_not_all_made_of_one_character() {
    let mut seen = std::collections::BTreeSet::new();
    for _ in 0..50 {
        for c in RandomAsciiGenerator::generate_boundary().chars() {
            seen.insert(c);
        }
    }
    assert!(seen.len() > 10);
}

#[test]
fn default_form_has_a_random_boundary_and_no_parts() {
    let form = TestForm::default();
    let header = form.content_type();
    let boundary = header.strip_prefix("multipart/form-data; boundary=").unwrap();
    assert_eq!(boundary.len(), 6);
    assert!(boundary.chars().all(|c| c.is_ascii_alphanumeric()));
    let (parts, kept) = form.into_parts();
    assert!(parts.is_empty());
    assert_eq!(kept, boundary);
}

struct TestGenerator;

impl BoundaryGenerator for TestGenerator {
    fn generate_boundary() -> String {
        "test".to_string()
    }
}

#[test]
fn custom_generator_decides_the_boundary() {
    let form = TestForm::new::<TestGenerator>();
    assert_eq!(form.content_type(), "multipart/form-data; boundary=test");
}

#[test]
fn with_boundary_keeps_the_boundary_as_given() {
    let form = TestForm::with_boundary("a b\u{e9}".to_string());
    assert_eq!(form.content_type(), "multipart/form-data; boundary=a b\u{e9}");
    let (parts, boundary) = form.into_parts();
    assert_eq!(parts.len(), 0);
    assert_eq!(boundary, "a b\u{e9}");
}

#[test]
fn boundary_is_made_of_the_bytes_that_were_drawn() {
    assert_eq!(boundary_from(&vec![]), "");
    assert_eq!(boundary_from(&vec![b'a', b'Z', b'0', b'9', b'q', b'Q']), "aZ09qQ");
    assert_eq!(boundary_from(&vec![b'x'; 3]), "xxx");
    assert_eq!(boundary_from(&vec![0x41, 0xe9, 0x00]), "A\u{e9}\u{0}");
    assert_ne!(boundary_from(&vec![b'a', b'b']), boundary_from(&vec![b'b', b'a']));
}

static CALLS: std::sync::atomic::AtomicUsize = std::sync::atomic::AtomicUsize::new(0);

struct CountingGenerator;

impl BoundaryGenerator for CountingGenerator {
    fn generate_boundary() -> String {
        let n = CALLS.fetch_add(1, std::sync::atomic::Ordering::SeqCst);
        format!("call{}", n)
    }
}

#[test]
fn new_calls_the_generator_once_and_keeps_what_it_returned() {
    let first = TestForm::new::<CountingGenerator>();
    let second = TestForm::new::<CountingGenerator>();
    assert_eq!(first.content_type(), "multipart/form-data; boundary=call0");
    assert_eq!(second.content_type(), "multipart/form-data; boundary=call1");
    assert_eq!(CALLS.load(std::sync::atomic::Ordering::SeqCst), 2);
}
