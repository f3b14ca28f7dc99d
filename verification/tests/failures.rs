use person_record::error::PersonError;
use std::io::{Error, ErrorKind};

fn not_utf8() -> std::string::FromUtf8Error {
    String::from_utf8(vec![0xFF, 0xFE]).unwrap_err()
}

#[test]
fn malformed_text_has_a_fixed_message() {
    assert_eq!(PersonError::Parse.message(), "invalid person format");
}

#[test]
fn failed_read_says_its_cause() {
    let failure = PersonError::Io(Error::new(ErrorKind::NotFound, "no such file"));
    assert_eq!(failure.message(), "cannot read file: no such file");
    let failure = PersonError::Io(Error::new(ErrorKind::PermissionDenied, "keep out"));
    assert_eq!(failure.message(), "cannot read file: keep out");
}

#[test]
fn failed_read_shows_the_cause_as_the_platform_does() {
    let shown = Error::from(ErrorKind::UnexpectedEof).to_string();
    let failure = PersonError::Io(Error::from(ErrorKind::UnexpectedEof));
    assert_eq!(failure.message(), format!("cannot read file: {}", shown));
}

#[test]
fn failed_decoding_says_its_cause() {
    let failure = PersonError::Utf8(not_utf8());
    assert_eq!(failure.message(), format!("not a valid string: {}", not_utf8()));
    assert!(failure.message().len() > "not a valid string: ".len());
}

#[test]
fn labels_are_fixed() {
    assert_eq!(PersonError::Io(Error::from(ErrorKind::NotFound)).label(), "cannot read file: ");
    assert_eq!(PersonError::Utf8(not_utf8()).label(), "not a valid string: ");
    assert_eq!(PersonError::Parse.label(), "invalid person format");
}

#[test]
fn every_message_begins_with_its_label() {
    let failures = vec![
        PersonError::Io(Error::new(ErrorKind::Other, "x")),
        PersonError::Utf8(not_utf8()),
        PersonError::Parse,
    ];
    for failure in failures {
        assert!(failure.message().starts_with(failure.label()));
    }
}

#[test]
fn failed_read_owns_its_cause() {
    let failure = PersonError::Io(Error::new(ErrorKind::NotFound, "gone"));
    let cause = failure.read_cause().unwrap();
    assert_eq!(cause.kind(), ErrorKind::NotFound);
    assert_eq!(cause.to_string(), "gone");
    assert!(failure.decode_cause().is_none());
}

#[test]
fn failed_decoding_owns_its_cause() {
    let failure = PersonError::Utf8(not_utf8());
    let cause = failure.decode_cause().unwrap();
    assert_eq!(cause, &not_utf8());
    assert_eq!(cause.as_bytes(), &[0xFF, 0xFE]);
    assert_eq!(cause.utf8_error().valid_up_to(), 0);
    assert!(failure.read_cause().is_none());
}

#[test]
fn malformed_text_has_no_cause() {
    assert!(PersonError::Parse.read_cause().is_none());
    assert!(PersonError::Parse.decode_cause().is_none());
}

#[test]
fn a_read_error_converts_to_a_failed_read() {
    let failure = PersonError::from(Error::new(ErrorKind::NotFound, "gone"));
    assert!(matches!(failure, PersonError::Io(_)));
    assert_eq!(failure.read_cause().unwrap().to_string(), "gone");
    let failure: PersonError = Error::from(ErrorKind::TimedOut).into();
    assert_eq!(failure.read_cause().unwrap().kind(), ErrorKind::TimedOut);
}

#[test]
fn a_decoding_error_converts_to_a_failed_decoding() {
    let failure = PersonError::from(not_utf8());
    assert!(matches!(failure, PersonError::Utf8(_)));
    assert_eq!(failure.decode_cause().unwrap(), &not_utf8());
}
