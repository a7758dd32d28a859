use vstd::prelude::*;
use vstd::utf8::{decode_utf8, valid_utf8};

use crate::text::bytes_to_string;

verus! {

/// The bytes of an option value: libzmq wrote `size` bytes into the buffer
/// `value` and reported that size.
pub fn get_bytes(value: Vec<u8>, size: usize) -> (res: Vec<u8>)
    ensures
        size <= value@.len() ==> res@ == value@.take(size as int),
        size > value@.len() ==> res@ == value@,
{
    let mut value = value;
    value.truncate(size);
    value
}

/// The option value `value` with its trailing nul byte removed where
/// `remove_nulbyte` asks for it.
pub open spec fn option_text_bytes(value: Seq<u8>, remove_nulbyte: bool) -> Seq<u8> {
    if remove_nulbyte && value.len() > 0 {
        value.drop_last()
    } else {
        value
    }
}

/// A text option value: the bytes, less the trailing nul byte where
/// `remove_nulbyte` is set, as a `String` where they are valid UTF-8, else
/// the bytes themselves.
pub fn get_string(value: Vec<u8>, remove_nulbyte: bool) -> (res: Result<String, Vec<u8>>)
    ensures
        res is Ok <==> valid_utf8(option_text_bytes(value@, remove_nulbyte)),
        res matches Ok(s) ==> s@ == decode_utf8(option_text_bytes(value@, remove_nulbyte)),
        res matches Err(b) ==> b@ == option_text_bytes(value@, remove_nulbyte),
{
    let mut value = value;
    if remove_nulbyte {
        let _ = value.pop();
    }
    bytes_to_string(value)
}

/// Removing the nul byte takes exactly the last byte off a non-empty value,
/// whatever its length, so a value of one byte gives empty text; a value
/// read without removing the nul byte, or an empty one, is kept whole.
pub proof fn lemma_option_text_bytes(value: Seq<u8>, remove_nulbyte: bool)
    ensures
        remove_nulbyte && value.len() > 0 ==> option_text_bytes(value, remove_nulbyte).len() + 1
            == value.len() && option_text_bytes(value, remove_nulbyte).push(value.last()) == value,
        !remove_nulbyte || value.len() == 0 ==> option_text_bytes(value, remove_nulbyte) == value,
{
    if remove_nulbyte && value.len() > 0 {
        assert(value.drop_last().push(value.last()) =~= value);
    }
}

/// A boolean option as libzmq reports it: true exactly when the value is 1.
pub fn bool_from_raw(raw: i32) -> (b: bool)
    ensures
        b == (raw == 1),
{
    raw == 1
}

/// The value that sets a boolean option: 1 for true, 0 for false.
pub fn bool_to_raw(value: bool) -> (raw: i32)
    ensures
        raw == (if value { 1int } else { 0int }),
{
    if value {
        1
    } else {
        0
    }
}

/// The `ZMQ_RCVMORE` option as libzmq reports it: true exactly when the
/// value is 1.
pub fn more_from_raw(raw: i64) -> (b: bool)
    ensures
        b == (raw == 1),
{
    raw == 1
}

/// A boolean option reads back as it was written: the value that
/// `bool_to_raw` gives for `b` is one that `bool_from_raw` reads as `b`.
pub proof fn lemma_bool_option_roundtrip(b: bool)
    ensures
        ((if b { 1int } else { 0int }) == 1) == b,
{
}

} // verus!
