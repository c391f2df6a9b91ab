use cimpl::cimpl_error::Error;
use cimpl::LastError;

#[derive(Debug)]
enum TestError {
    Parse(String),
    Validate,
}

impl std::fmt::Display for TestError {
    fn fmt(&self, f: &mut std::fmt::Formatter) -> std::fmt::Result {
        match self {
            TestError::Parse(s) => f.write_str(&format!("parse failed: {}", s)),
            TestError::Validate => f.write_str("validation failed"),
        }
    }
}

impl std::error::Error for TestError {}

#[derive(Debug)]
struct Boundary(Error);

impl std::fmt::Display for Boundary {
    fn fmt(&self, f: &mut std::fmt::Formatter) -> std::fmt::Result {
        f.write_str(&self.0.to_string())
    }
}

impl std::error::Error for Boundary {}

#[test]
fn test_error_creation() {
    let err = Error::new("TestError", "test message");
    assert_eq!(err.message(), "TestError: test message");
    assert_eq!(err.variant(), Some("TestError"));
    assert_eq!(err.details(), Some("test message"));
}

#[test]
fn test_null_parameter_error() {
    let err = Error::null_parameter("input_ptr");
    assert_eq!(err.variant(), Some("NullParameter"));
    assert!(err.message().contains("NullParameter"));
    assert!(err.details().unwrap().contains("input_ptr"));
}

#[test]
fn test_string_too_long_error() {
    let err = Error::string_too_long("name");
    assert_eq!(err.variant(), Some("StringTooLong"));
    assert!(err.details().unwrap().contains("name"));
}

#[test]
fn test_untracked_pointer_error() {
    let err = Error::untracked_pointer(0xdeadbeef);
    assert_eq!(err.variant(), Some("UntrackedPointer"));
    assert!(err.details().unwrap().contains("0xdeadbeef"));
}

#[test]
fn test_wrong_pointer_type_error() {
    let err = Error::wrong_pointer_type(0x12345678);
    assert_eq!(err.variant(), Some("WrongPointerType"));
    assert!(err.details().unwrap().contains("0x12345678"));
}

#[test]
fn test_mutex_poisoned_error() {
    let err = Error::mutex_poisoned();
    assert_eq!(err.variant(), Some("MutexPoisoned"));
    assert!(err.details().unwrap().contains("thread panic"));
}

#[test]
fn test_invalid_buffer_size_error() {
    let err = Error::invalid_buffer_size(1000, "data");
    assert_eq!(err.variant(), Some("InvalidBufferSize"));
    assert!(err.details().unwrap().contains("1000"));
    assert!(err.details().unwrap().contains("data"));
}

#[test]
fn test_other_error() {
    let err = Error::other("custom message");
    assert_eq!(err.variant(), Some("Other"));
    assert_eq!(err.details(), Some("custom message"));
}

#[test]
fn test_from_error() {
    let test_err = TestError::Parse("bad input".to_string());
    let err = Error::from_error(test_err);

    assert_eq!(err.variant(), Some("Parse"));
    assert!(err.details().unwrap().contains("parse failed"));

    let test_err2 = TestError::Validate;
    let err2 = Error::from_error(test_err2);

    assert_eq!(err2.variant(), Some("Validate"));
    assert!(err2.details().unwrap().contains("validation failed"));
}

#[test]
fn test_last_error_storage() {
    let mut slot = LastError::new();
    let err = Error::new("TestError", "test message");
    err.set_last(&mut slot);

    let msg = Error::last_message(&slot);
    assert_eq!(msg, Some("TestError: test message".to_string()));
}

#[test]
fn test_last_error_none() {
    let mut slot = LastError::new();
    Error::take_last(&mut slot);

    assert_eq!(Error::last_message(&slot), None);
}

#[test]
fn test_take_last_clears_error() {
    let mut slot = LastError::new();
    Error::new("Temporary", "temp").set_last(&mut slot);

    let err = Error::take_last(&mut slot);
    assert!(err.is_some());
    assert_eq!(err.unwrap().variant(), Some("Temporary"));

    assert_eq!(Error::last_message(&slot), None);
}

#[test]
fn test_display_trait() {
    let err = Error::new("DisplayTest", "test message");
    let displayed = err.to_string();
    assert_eq!(displayed, "DisplayTest: test message");
}

#[test]
fn test_debug_trait() {
    let err = Error::new("DebugTest", "test message");
    let debugged = format!("{:?}", err);
    assert!(debugged.contains("DebugTest: test message"));
}

#[test]
fn test_error_trait() {
    let err = Error::new("TraitTest", "test");
    let boxed: Box<dyn std::error::Error> = Box::new(Boundary(err));
    assert_eq!(boxed.to_string(), "TraitTest: test");
}

#[test]
fn test_error_overwrite() {
    let mut slot = LastError::new();
    Error::new("First", "first message").set_last(&mut slot);

    Error::new("Second", "second message").set_last(&mut slot);

    let msg = Error::last_message(&slot).unwrap();
    assert!(msg.contains("Second"));
    assert!(msg.contains("second message"));
}

#[test]
fn test_variant_and_details_extraction() {
    let err = Error::new("MyError", "something went wrong");

    assert_eq!(err.variant(), Some("MyError"));
    assert_eq!(err.details(), Some("something went wrong"));
    assert_eq!(err.message(), "MyError: something went wrong");
}

#[test]
fn test_variant_with_colon_in_details() {
    let err = Error::new("IoError", "file not found: /path/to/file");

    assert_eq!(err.variant(), Some("IoError"));
    assert_eq!(err.details(), Some("file not found: /path/to/file"));
}

#[test]
fn empty_variant_name_and_unknown_fallback() {
    let err = Error::new("", "x");
    assert_eq!(err.message(), ": x");
    assert_eq!(err.variant(), Some(""));
    let plain = Error::from_texts("", "");
    assert_eq!(plain.message(), "Unknown: ");
}

#[test]
fn exact_hex_and_decimal_details() {
    assert_eq!(Error::untracked_pointer(0).message(), "UntrackedPointer: 0x0");
    assert_eq!(Error::wrong_pointer_type(0xABCDEF).message(), "WrongPointerType: 0xabcdef");
    assert_eq!(
        Error::untracked_pointer(u64::MAX).message(),
        "UntrackedPointer: 0xffffffffffffffff"
    );
    assert_eq!(Error::invalid_buffer_size(0, "buf").message(), "InvalidBufferSize: 0 for 'buf'");
    assert_eq!(Error::mutex_poisoned().message(), "MutexPoisoned: thread panic detected");
}

#[test]
fn variant_read_from_debug_rendering() {
    assert_eq!(Error::from_texts("  Io { kind: 2 }", "d").message(), "Io: d");
    assert_eq!(Error::from_texts("Parse(\"x\")", "d").message(), "Parse: d");
    assert_eq!(Error::from_texts("Plain", "d").message(), "Plain: d");
    assert_eq!(Error::from_texts(" \t(1)", "d").message(), "Unknown: d");
    assert_eq!(Error::from_texts("\u{3000}Wide\u{a0}", "d").message(), "Wide: d");
}

#[test]
fn last_message_of_empty_slot_is_none() {
    let slot: LastError<Error> = LastError::new();
    assert_eq!(Error::last_message(&slot), None);
}
