use zmq2::bytes_to_string;
use zmq2::sockopt::{bool_from_raw, bool_to_raw, get_bytes, get_string, more_from_raw};

#[test]
fn get_bytes_truncates_to_reported_size() {
    assert_eq!(get_bytes(vec![1, 2, 3, 4, 5], 3), vec![1, 2, 3]);
    assert_eq!(get_bytes(vec![1, 2, 3], 0), Vec::<u8>::new());
    assert_eq!(get_bytes(vec![1, 2, 3], 3), vec![1, 2, 3]);
    assert_eq!(get_bytes(vec![1, 2, 3], 7), vec![1, 2, 3]);
}

#[test]
fn get_string_removes_nul_byte() {
    assert_eq!(get_string(b"tcp://x\0".to_vec(), true), Ok("tcp://x".to_string()));
    assert_eq!(get_string(b"id".to_vec(), false), Ok("id".to_string()));
    assert_eq!(get_string(b"id".to_vec(), true), Ok("i".to_string()));
    assert_eq!(get_string(Vec::new(), true), Ok(String::new()));
}

#[test]
fn get_string_returns_bytes_when_not_utf8() {
    assert_eq!(get_string(vec![0xfe, 0x41, 0], true), Err(vec![0xfe, 0x41]));
    assert_eq!(get_string(vec![0xfe], false), Err(vec![0xfe]));
}

#[test]
fn bytes_to_string_cases() {
    assert_eq!(bytes_to_string(b"hello".to_vec()), Ok("hello".to_string()));
    assert_eq!(bytes_to_string(vec![0xc3, 0xa9]), Ok("é".to_string()));
    assert_eq!(bytes_to_string(vec![0xc3]), Err(vec![0xc3]));
}

#[test]
fn boolean_options() {
    assert!(bool_from_raw(1));
    assert!(!bool_from_raw(0));
    assert!(!bool_from_raw(2));
    assert!(!bool_from_raw(-1));
    assert_eq!(bool_to_raw(true), 1);
    assert_eq!(bool_to_raw(false), 0);
    assert!(more_from_raw(1));
    assert!(!more_from_raw(0));
    assert!(!more_from_raw(256));
}
