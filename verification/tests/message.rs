use std::collections::hash_map::DefaultHasher;
use std::hash::{Hash, Hasher};
use zmq2::{message_property, Message};

#[test]
fn new_message_has_no_bytes() {
    let m = Message::new();
    assert_eq!(m.len(), 0);
    assert!(!m.is_empty());
    assert!(!m.get_more());
    assert_eq!(m.as_bytes(), &[] as &[u8]);
    assert_eq!(Message::default().len(), 0);
    assert!(!Message::default().is_empty());
}

#[test]
fn with_size_is_zeroed() {
    let m = Message::with_size(5);
    assert_eq!(m.len(), 5);
    assert_eq!(m.to_bytes(), vec![0u8; 5]);
    let c = Message::with_capacity(3);
    assert_eq!(c.as_bytes(), &[0u8, 0, 0]);
}

#[test]
fn from_slice_copies() {
    let data = b"hello".to_vec();
    let m = Message::from_slice(&data);
    assert_eq!(m.as_bytes(), b"hello");
    assert_eq!(m.to_bytes(), data);
    assert_eq!(m.as_str(), Some("hello"));
    assert!(m.is_empty());
}

#[test]
fn from_vec_keeps_bytes() {
    let m = Message::from(vec![1u8, 2, 3]);
    assert_eq!(m.as_bytes(), &[1u8, 2, 3]);
    assert!(!m.get_more());
}

#[test]
fn as_str_rejects_invalid_utf8() {
    let m = Message::from_slice(&[0xffu8, 0x61]);
    assert_eq!(m.as_str(), None);
    let ok = Message::from_slice("héllo".as_bytes());
    assert_eq!(ok.as_str(), Some("héllo"));
}

#[test]
fn received_frame_keeps_more_flag() {
    let m = Message::from_msg(b"part".to_vec(), true);
    assert!(m.get_more());
    assert_eq!(m.as_bytes(), b"part");
    let last = Message::from_msg(Vec::new(), false);
    assert!(!last.get_more());
}

#[test]
fn equality_compares_bytes_only() {
    let a = Message::from_msg(b"abc".to_vec(), true);
    let b = Message::from_slice(b"abc");
    assert!(a == b);
    assert!(Message::from_slice(b"abc") != Message::from_slice(b"abd"));
    assert!(Message::from_slice(b"abc") != Message::from_slice(b"ab"));
}

#[test]
fn clone_copies_bytes_and_clears_more() {
    let a = Message::from_msg(b"xyz".to_vec(), true);
    let c = a.clone();
    assert_eq!(c.as_bytes(), b"xyz");
    assert!(!c.get_more());
    assert!(a == c);
}

#[test]
fn bytes_can_be_written_in_place() {
    let mut m = Message::with_size(3);
    m.as_mut_bytes()[1] = 7;
    assert_eq!(m.as_bytes(), &[0u8, 7, 0]);
}

#[test]
fn from_text_and_slices() {
    let s = String::from("abc");
    assert_eq!(Message::from(&s).as_bytes(), b"abc");
    assert_eq!(Message::from("héllo").as_bytes(), "héllo".as_bytes());
    let bytes: &[u8] = &[9, 8];
    assert_eq!(Message::from(bytes).as_bytes(), &[9u8, 8]);
    assert!(!Message::from("x").get_more());
}

#[test]
fn frames_order_by_bytes() {
    let a = Message::from_slice(b"abc");
    let b = Message::from_slice(b"abd");
    let p = Message::from_slice(b"ab");
    let e = Message::new();
    assert!(a < b);
    assert!(b > a);
    assert!(p < a);
    assert!(e < p);
    assert_eq!(a.partial_cmp(&Message::from_msg(b"abc".to_vec(), true)), Some(std::cmp::Ordering::Equal));
    assert_eq!(b.partial_cmp(&a), Some(std::cmp::Ordering::Greater));
    assert!(Message::from_slice(&[0xff]) > Message::from_slice(&[0x01, 0x02]));
}

#[test]
fn to_string_of_text() {
    assert_eq!(Message::from_slice(b"text").to_string(), "text".to_string());
    assert_eq!(Message::new().to_string(), String::new());
}

#[test]
fn from_boxed_slice() {
    let b: Box<[u8]> = vec![4u8, 5, 6].into_boxed_slice();
    let m = Message::from(b);
    assert_eq!(m.as_bytes(), &[4u8, 5, 6]);
    let empty: Box<[u8]> = Vec::new().into_boxed_slice();
    assert_eq!(Message::from(empty).len(), 0);
}

fn hash_of(m: &Message) -> u64 {
    let mut s = DefaultHasher::new();
    m.hash(&mut s);
    s.finish()
}

#[test]
fn hash_follows_bytes() {
    let a = Message::from_msg(b"abc".to_vec(), true);
    let b = Message::from_slice(b"abc");
    assert_eq!(hash_of(&a), hash_of(&b));
    let mut s = DefaultHasher::new();
    b"abc"[..].hash(&mut s);
    assert_eq!(hash_of(&b), s.finish());
}

#[test]
fn property_values() {
    assert_eq!(message_property(Some(b"tcp".as_slice())), Some("tcp"));
    assert_eq!(message_property(Some(&[0xffu8][..])), None);
    assert_eq!(message_property(None), None);
    assert_eq!(message_property(Some(&[][..])), Some(""));
}

#[test]
fn debug_shows_the_bytes() {
    assert_eq!(format!("{:?}", Message::from_slice(&[1u8, 2, 3])), "[1, 2, 3]");
    assert_eq!(format!("{:?}", Message::from_msg(Vec::new(), true)), "[]");
}
