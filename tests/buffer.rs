use cimpl::buffer::check_buffer;
use cimpl::buffer::is_safe_buffer_size;
use cimpl::Error;

#[test]
fn buffer_sizes() {
    assert!(!is_safe_buffer_size(0, 0x1000));
    assert!(is_safe_buffer_size(1, 0x1000));
    assert!(is_safe_buffer_size(isize::MAX as usize, 0));
    assert!(!is_safe_buffer_size(isize::MAX as usize + 1, 0));
    assert!(!is_safe_buffer_size(16, usize::MAX - 8));
    assert!(is_safe_buffer_size(8, usize::MAX - 8));
}

#[test]
fn buffer_check_errors() {
    match check_buffer(0, 4, "data") {
        Err(Error::NullParameter(name)) => assert_eq!(name, "data"),
        _ => panic!("null buffer must be refused"),
    }
    match check_buffer(0x1000, 0, "data") {
        Err(e) => {
            assert_eq!(e.code_as_i32(), 5);
            assert_eq!(e.to_string(), "Other: Buffer size 0 is invalid for parameter 'data'");
        }
        Ok(()) => panic!("empty buffer must be refused"),
    }
    assert!(check_buffer(0x1000, 12, "data").is_ok());
}
