use std::string::FromUtf8Error;
use vstd::arithmetic::power::pow;
use vstd::prelude::*;
use vstd::slice::slice_to_vec;
use vstd::std_specs::convert::FromSpecImpl;
use vstd::string::StringSliceAdditionalSpecFns;
use vstd::utf8::encode_utf8;

use crate::text::{ascii_chars, lemma_ascii_utf8, string_from_utf8};

verus! {

/// The Z85 character for digit `d` (`0 <= d < 85`): the digits, the lower
/// case letters, the upper case letters and then `.-:+=^!/*?&<>()[]{}@%$#`.
pub open spec fn z85_char(d: int) -> u8 {
    if d < 10 {
        (48 + d) as u8
    } else if d < 36 {
        (97 + (d - 10)) as u8
    } else if d < 62 {
        (65 + (d - 36)) as u8
    } else {
        z85_punct(d)
    }
}

/// The Z85 characters for the digits 62 to 84.
pub open spec fn z85_punct(d: int) -> u8 {
    if d == 62 { 46 }        // '.'
    else if d == 63 { 45 }   // '-'
    else if d == 64 { 58 }   // ':'
    else if d == 65 { 43 }   // '+'
    else if d == 66 { 61 }   // '='
    else if d == 67 { 94 }   // '^'
    else if d == 68 { 33 }   // '!'
    else if d == 69 { 47 }   // '/'
    else if d == 70 { 42 }   // '*'
    else if d == 71 { 63 }   // '?'
    else if d == 72 { 38 }   // '&'
    else if d == 73 { 60 }   // '<'
    else if d == 74 { 62 }   // '>'
    else if d == 75 { 40 }   // '('
    else if d == 76 { 41 }   // ')'
    else if d == 77 { 91 }   // '['
    else if d == 78 { 93 }   // ']'
    else if d == 79 { 123 }  // '{'
    else if d == 80 { 125 }  // '}'
    else if d == 81 { 64 }   // '@'
    else if d == 82 { 37 }   // '%'
    else if d == 83 { 36 }   // '$'
    else { 35 }              // '#'
}

/// The digit that the byte `c` stands for in Z85, or `None` where `c` is
/// not in the Z85 alphabet (libzmq's decoding table).
#[verifier::opaque]
pub open spec fn z85_digit(c: u8) -> Option<int> {
    if 48 <= c <= 57 {
        Some(c - 48)
    } else if 97 <= c <= 122 {
        Some(c - 97 + 10)
    } else if 65 <= c <= 90 {
        Some(c - 65 + 36)
    } else if c == 46 { Some(62) }
    else if c == 45 { Some(63) }
    else if c == 58 { Some(64) }
    else if c == 43 { Some(65) }
    else if c == 61 { Some(66) }
    else if c == 94 { Some(67) }
    else if c == 33 { Some(68) }
    else if c == 47 { Some(69) }
    else if c == 42 { Some(70) }
    else if c == 63 { Some(71) }
    else if c == 38 { Some(72) }
    else if c == 60 { Some(73) }
    else if c == 62 { Some(74) }
    else if c == 40 { Some(75) }
    else if c == 41 { Some(76) }
    else if c == 91 { Some(77) }
    else if c == 93 { Some(78) }
    else if c == 123 { Some(79) }
    else if c == 125 { Some(80) }
    else if c == 64 { Some(81) }
    else if c == 37 { Some(82) }
    else if c == 36 { Some(83) }
    else if c == 35 { Some(84) }
    else { None }
}

/// The big-endian value of the first four bytes of `b`.
pub open spec fn word_value(b: Seq<u8>) -> int {
    b[0] * 16777216 + b[1] * 65536 + b[2] * 256 + b[3]
}

/// The four big-endian bytes of `v` (`0 <= v < 2^32`).
pub open spec fn word_bytes(v: int) -> Seq<u8> {
    seq![(v / 16777216 % 256) as u8, (v / 65536 % 256) as u8, (v / 256 % 256) as u8, (v % 256) as u8]
}

/// The five Z85 characters of `v`, most significant digit first.
#[verifier::opaque]
pub open spec fn chunk_chars(v: int) -> Seq<u8> {
    seq![
        z85_char(v / 52200625 % 85),
        z85_char(v / 614125 % 85),
        z85_char(v / 7225 % 85),
        z85_char(v / 85 % 85),
        z85_char(v % 85),
    ]
}

/// The Z85 encoding of `data`, four bytes to five characters; a trailing
/// group of fewer than four bytes is not encoded.
pub open spec fn z85_encode_bytes(data: Seq<u8>) -> Seq<u8>
    decreases data.len(),
{
    if data.len() < 4 {
        seq![]
    } else {
        chunk_chars(word_value(data)) + z85_encode_bytes(data.skip(4))
    }
}

/// The five characters of `s` are Z85 characters whose value fits in 32 bits.
pub open spec fn chunk_valid(s: Seq<u8>) -> bool {
    &&& z85_digit(s[0]) is Some
    &&& z85_digit(s[1]) is Some
    &&& z85_digit(s[2]) is Some
    &&& z85_digit(s[3]) is Some
    &&& z85_digit(s[4]) is Some
    &&& chunk_value(s) <= 0xffff_ffff
}

/// The base-85 value of the first five characters of `s`.
pub open spec fn chunk_value(s: Seq<u8>) -> int {
    z85_digit(s[0])->0 * 52200625 + z85_digit(s[1])->0 * 614125 + z85_digit(s[2])->0 * 7225
        + z85_digit(s[3])->0 * 85 + z85_digit(s[4])->0
}

/// What libzmq's decoder leaves in a zeroed buffer for the text `s`: the
/// bytes of each group of five characters, in order, up to the first group
/// that is not valid Z85; from that group on the buffer stays zero.
pub open spec fn z85_decode_bytes(s: Seq<u8>) -> Seq<u8>
    decreases s.len(),
{
    if s.len() < 5 {
        seq![]
    } else if chunk_valid(s) {
        word_bytes(chunk_value(s)) + z85_decode_bytes(s.skip(5))
    } else {
        Seq::new((s.len() / 5 * 4) as nat, |i: int| 0u8)
    }
}

/// Error of `z85_encode`.
#[derive(Debug)]
pub enum EncodeError {
    BadLength,
    FromUtf8Error(FromUtf8Error),
}

impl From<FromUtf8Error> for EncodeError {
    fn from(err: FromUtf8Error) -> (e: EncodeError)
        ensures
            e == EncodeError::FromUtf8Error(err),
    {
        EncodeError::FromUtf8Error(err)
    }
}

impl FromSpecImpl<FromUtf8Error> for EncodeError {
    open spec fn obeys_from_spec() -> bool {
        true
    }

    open spec fn from_spec(err: FromUtf8Error) -> EncodeError {
        EncodeError::FromUtf8Error(err)
    }
}

fn z85_char_exec(d: u32) -> (c: u8)
    requires
        d < 85,
    ensures
        c == z85_char(d as int),
{
    if d < 10 {
        (48 + d) as u8
    } else if d < 36 {
        (97 + (d - 10)) as u8
    } else if d < 62 {
        (65 + (d - 36)) as u8
    } else {
        match d {
            62 => 46,
            63 => 45,
            64 => 58,
            65 => 43,
            66 => 61,
            67 => 94,
            68 => 33,
            69 => 47,
            70 => 42,
            71 => 63,
            72 => 38,
            73 => 60,
            74 => 62,
            75 => 40,
            76 => 41,
            77 => 91,
            78 => 93,
            79 => 123,
            80 => 125,
            81 => 64,
            82 => 37,
            83 => 36,
            _ => 35,
        }
    }
}

proof fn lemma_z85_char_ascii(d: int)
    requires
        0 <= d < 85,
    ensures
        0 < z85_char(d) < 128,
{
}

/// One step of the encoding: the next four bytes give the next five characters.
proof fn lemma_encode_step(data: Seq<u8>, i: int)
    requires
        0 <= i,
        i + 4 <= data.len(),
    ensures
        z85_encode_bytes(data.skip(i)) == chunk_chars(word_value(data.skip(i)))
            + z85_encode_bytes(data.skip(i + 4)),
        word_value(data.skip(i)) == data[i] * 16777216 + data[i + 1] * 65536 + data[i + 2] * 256
            + data[i + 3],
{
    assert(data.skip(i).skip(4) =~= data.skip(i + 4));
}

proof fn lemma_chunk_chars_ascii(v: int)
    requires
        0 <= v,
    ensures
        chunk_chars(v).len() == 5,
        forall|j: int| 0 <= j < 5 ==> 0 < #[trigger] chunk_chars(v)[j] < 128,
{
    reveal(chunk_chars);
    lemma_z85_char_ascii(v / 52200625 % 85);
    lemma_z85_char_ascii(v / 614125 % 85);
    lemma_z85_char_ascii(v / 7225 % 85);
    lemma_z85_char_ascii(v / 85 % 85);
    lemma_z85_char_ascii(v % 85);
}

/// Append the five Z85 characters of `value` to `dest`.
fn push_chunk(dest: &mut Vec<u8>, value: u32)
    ensures
        final(dest)@ == old(dest)@ + chunk_chars(value as int),
{
    dest.push(z85_char_exec(value / 52200625 % 85));
    dest.push(z85_char_exec(value / 614125 % 85));
    dest.push(z85_char_exec(value / 7225 % 85));
    dest.push(z85_char_exec(value / 85 % 85));
    dest.push(z85_char_exec(value % 85));
    reveal(chunk_chars);
    assert(final(dest)@ =~= old(dest)@ + chunk_chars(value as int));
}

/// Encode `data` as Z85 text; its length must be a multiple of four.
#[verifier::spinoff_prover]
pub fn z85_encode(data: &[u8]) -> (res: Result<String, EncodeError>)
    ensures
        data@.len() % 4 != 0 <==> res matches Err(EncodeError::BadLength),
        data@.len() % 4 == 0 ==> (res matches Ok(s) && s@ == ascii_chars(z85_encode_bytes(data@))),
{
    if data.len() % 4 != 0 {
        return Err(EncodeError::BadLength);
    }
    let n = data.len();
    let mut dest: Vec<u8> = Vec::new();
    let mut i: usize = 0;
    assert(data@.skip(0) =~= data@);
    while i < n
        invariant
            n == data@.len(),
            n % 4 == 0,
            i % 4 == 0,
            i <= n,
            z85_encode_bytes(data@) == dest@ + z85_encode_bytes(data@.skip(i as int)),
            forall|j: int| 0 <= j < dest@.len() ==> 0 < #[trigger] dest@[j] < 128,
        decreases n - i,
    {
        proof {
            lemma_encode_step(data@, i as int);
        }
        let value: u32 = (data[i] as u32) * 16777216 + (data[i + 1] as u32) * 65536
            + (data[i + 2] as u32) * 256 + (data[i + 3] as u32);
        let ghost old_dest = dest@;
        proof {
            lemma_chunk_chars_ascii(value as int);
        }
        push_chunk(&mut dest, value);
        assert forall|j: int| 0 <= j < dest@.len() implies 0 < #[trigger] dest@[j] < 128 by {
            if j >= old_dest.len() {
                assert(dest@[j] == chunk_chars(value as int)[j - old_dest.len()]);
            }
        }
        assert(old_dest + (chunk_chars(value as int) + z85_encode_bytes(data@.skip(i + 4)))
            =~= dest@ + z85_encode_bytes(data@.skip(i + 4)));
        i = i + 4;
    }
    assert(data@.skip(n as int) =~= Seq::<u8>::empty());
    assert(dest@ =~= z85_encode_bytes(data@));
    proof {
        lemma_ascii_utf8(dest@);
    }
    match string_from_utf8(dest) {
        Ok(s) => Ok(s),
        Err(e) => Err(EncodeError::from(e)),
    }
}

/// The error that `CString::new` reports: the position of the first nul
/// byte and the bytes that were given.
#[derive(Debug)]
pub struct NulError {
    pub nul_position: usize,
    pub bytes: Vec<u8>,
}

/// Error of `z85_decode`.
#[derive(Debug)]
pub enum DecodeError {
    BadLength,
    NulError(NulError),
}

impl From<NulError> for DecodeError {
    fn from(err: NulError) -> (e: DecodeError)
        ensures
            e == DecodeError::NulError(err),
    {
        DecodeError::NulError(err)
    }
}

impl FromSpecImpl<NulError> for DecodeError {
    open spec fn obeys_from_spec() -> bool {
        true
    }

    open spec fn from_spec(err: NulError) -> DecodeError {
        DecodeError::NulError(err)
    }
}

fn z85_digit_exec(c: u8) -> (r: Option<u32>)
    ensures
        match r {
            Some(d) => z85_digit(c) == Some(d as int),
            None => z85_digit(c) is None,
        },
{
    reveal(z85_digit);
    if 48 <= c && c <= 57 {
        Some((c - 48) as u32)
    } else if 97 <= c && c <= 122 {
        Some((c - 97 + 10) as u32)
    } else if 65 <= c && c <= 90 {
        Some((c - 65 + 36) as u32)
    } else {
        match c {
            46 => Some(62),
            45 => Some(63),
            58 => Some(64),
            43 => Some(65),
            61 => Some(66),
            94 => Some(67),
            33 => Some(68),
            47 => Some(69),
            42 => Some(70),
            63 => Some(71),
            38 => Some(72),
            60 => Some(73),
            62 => Some(74),
            40 => Some(75),
            41 => Some(76),
            91 => Some(77),
            93 => Some(78),
            123 => Some(79),
            125 => Some(80),
            64 => Some(81),
            37 => Some(82),
            36 => Some(83),
            35 => Some(84),
            _ => None,
        }
    }
}

proof fn lemma_digit_range(c: u8)
    ensures
        z85_digit(c) matches Some(d) ==> 0 <= d < 85,
{
    reveal(z85_digit);
}

/// The value of the five characters of `s` from `i` on, where they are
/// valid Z85 with a value that fits in 32 bits.
fn decode_chunk(s: &[u8], i: usize) -> (r: Option<u32>)
    requires
        i + 5 <= s@.len(),
    ensures
        r is Some <==> chunk_valid(s@.skip(i as int)),
        r matches Some(v) ==> v == chunk_value(s@.skip(i as int)),
{
    let ghost t = s@.skip(i as int);
    assert(t[0] == s@[i as int] && t[1] == s@[i + 1] && t[2] == s@[i + 2] && t[3] == s@[i + 3]
        && t[4] == s@[i + 4]);
    let d0 = match z85_digit_exec(s[i]) { Some(d) => d, None => return None };
    let d1 = match z85_digit_exec(s[i + 1]) { Some(d) => d, None => return None };
    let d2 = match z85_digit_exec(s[i + 2]) { Some(d) => d, None => return None };
    let d3 = match z85_digit_exec(s[i + 3]) { Some(d) => d, None => return None };
    let d4 = match z85_digit_exec(s[i + 4]) { Some(d) => d, None => return None };
    proof {
        lemma_digit_range(s[i as int]);
        lemma_digit_range(s[i + 1]);
        lemma_digit_range(s[i + 2]);
        lemma_digit_range(s[i + 3]);
        lemma_digit_range(s[i + 4]);
    }
    let value: u64 = (d0 as u64) * 52200625 + (d1 as u64) * 614125 + (d2 as u64) * 7225
        + (d3 as u64) * 85 + (d4 as u64);
    if value > 0xffff_ffff {
        None
    } else {
        Some(value as u32)
    }
}

/// Append the four big-endian bytes of `v` to `dest`.
fn push_word(dest: &mut Vec<u8>, v: u32)
    ensures
        final(dest)@ == old(dest)@ + word_bytes(v as int),
{
    dest.push((v / 16777216 % 256) as u8);
    dest.push((v / 65536 % 256) as u8);
    dest.push((v / 256 % 256) as u8);
    dest.push((v % 256) as u8);
    assert(final(dest)@ =~= old(dest)@ + word_bytes(v as int));
}

/// Append `count` zero bytes to `dest`.
fn push_zeros(dest: &mut Vec<u8>, count: usize)
    ensures
        final(dest)@ == old(dest)@ + Seq::new(count as nat, |i: int| 0u8),
{
    let ghost start = dest@;
    let mut k: usize = 0;
    while k < count
        invariant
            k <= count,
            dest@ =~= start + Seq::new(k as nat, |i: int| 0u8),
        decreases count - k,
    {
        dest.push(0);
        k = k + 1;
    }
}

/// One step of the decoding, at a group of five characters.
proof fn lemma_decode_step(s: Seq<u8>, i: int)
    requires
        0 <= i,
        i + 5 <= s.len(),
    ensures
        chunk_valid(s.skip(i)) ==> z85_decode_bytes(s.skip(i)) == word_bytes(
            chunk_value(s.skip(i)),
        ) + z85_decode_bytes(s.skip(i + 5)),
        !chunk_valid(s.skip(i)) ==> z85_decode_bytes(s.skip(i)) == Seq::new(
            ((s.len() - i) / 5 * 4) as nat,
            |j: int| 0u8,
        ),
{
    assert(s.skip(i).skip(5) =~= s.skip(i + 5));
}

/// `pos` is the position of the first nul byte of `s`.
pub open spec fn first_nul(s: Seq<u8>, pos: int) -> bool {
    &&& 0 <= pos < s.len()
    &&& s[pos] == 0
    &&& forall|j: int| 0 <= j < pos ==> s[j] != 0
}

/// Decode Z85 text; its length must be a multiple of five and it must not
/// hold a nul byte. Where a group of five characters is not valid Z85, that
/// group and all that follow it decode to zero bytes.
pub fn z85_decode(data: &str) -> (res: Result<Vec<u8>, DecodeError>)
    ensures
        data.spec_bytes().len() % 5 != 0 <==> res matches Err(DecodeError::BadLength),
        res matches Err(DecodeError::NulError(e)) ==> first_nul(data.spec_bytes(), e.nul_position as int)
            && e.bytes@ == data.spec_bytes(),
        data.spec_bytes().len() % 5 == 0 && (exists|p: int| first_nul(data.spec_bytes(), p))
            ==> res matches Err(DecodeError::NulError(_)),
        data.spec_bytes().len() % 5 == 0 && !(exists|p: int| first_nul(data.spec_bytes(), p))
            ==> (res matches Ok(v) && v@ == z85_decode_bytes(data.spec_bytes())),
{
    let bytes = data.as_bytes();
    let n = bytes.len();
    if n % 5 != 0 {
        return Err(DecodeError::BadLength);
    }
    let mut k: usize = 0;
    while k < n
        invariant
            n == bytes@.len(),
            k <= n,
            n % 5 == 0,
            bytes@ == data.spec_bytes(),
            forall|j: int| 0 <= j < k ==> bytes@[j] != 0,
        decreases n - k,
    {
        if bytes[k] == 0 {
            assert(first_nul(bytes@, k as int));
            return Err(DecodeError::from(NulError { nul_position: k, bytes: slice_to_vec(bytes) }));
        }
        k = k + 1;
    }
    let mut dest: Vec<u8> = Vec::new();
    let mut i: usize = 0;
    assert(bytes@.skip(0) =~= bytes@);
    while i < n
        invariant
            n == bytes@.len(),
            n % 5 == 0,
            i % 5 == 0,
            i <= n,
            bytes@ == data.spec_bytes(),
            z85_decode_bytes(bytes@) == dest@ + z85_decode_bytes(bytes@.skip(i as int)),
        decreases n - i,
    {
        proof {
            lemma_decode_step(bytes@, i as int);
        }
        match decode_chunk(bytes, i) {
            Some(v) => {
                let ghost old_dest = dest@;
                push_word(&mut dest, v);
                assert(old_dest + (word_bytes(v as int) + z85_decode_bytes(bytes@.skip(i + 5)))
                    =~= dest@ + z85_decode_bytes(bytes@.skip(i + 5)));
                i = i + 5;
            },
            None => {
                push_zeros(&mut dest, (n - i) / 5 * 4);
                assert(bytes@.skip(n as int) =~= Seq::<u8>::empty());
                i = n;
            },
        }
    }
    assert(bytes@.skip(n as int) =~= Seq::<u8>::empty());
    assert(dest@ =~= z85_decode_bytes(bytes@));
    Ok(dest)
}

proof fn lemma_char_digit(d: int)
    requires
        0 <= d < 85,
    ensures
        z85_digit(z85_char(d)) == Some(d),
{
    reveal(z85_digit);
}

proof fn lemma_chunk_roundtrip(w: int)
    requires
        0 <= w <= 0xffff_ffff,
    ensures
        chunk_chars(w).len() == 5,
        chunk_valid(chunk_chars(w)),
        chunk_value(chunk_chars(w)) == w,
{
    reveal(chunk_chars);
    let c = chunk_chars(w);
    lemma_char_digit(w / 52200625 % 85);
    lemma_char_digit(w / 614125 % 85);
    lemma_char_digit(w / 7225 % 85);
    lemma_char_digit(w / 85 % 85);
    lemma_char_digit(w % 85);
    assert(w / 52200625 < 85);
    assert(w / 614125 == (w / 52200625) * 85 + w / 614125 % 85);
    assert(w / 7225 == (w / 614125) * 85 + w / 7225 % 85);
    assert(w / 85 == (w / 7225) * 85 + w / 85 % 85);
    assert(w == (w / 85) * 85 + w % 85);
}

proof fn lemma_word_roundtrip(data: Seq<u8>)
    requires
        data.len() >= 4,
    ensures
        0 <= word_value(data) <= 0xffff_ffff,
        word_bytes(word_value(data)) == data.take(4),
{
    let w = word_value(data);
    assert(w / 16777216 == data[0] as int);
    assert(w / 65536 == data[0] * 256 + data[1]);
    assert(w / 256 == data[0] * 65536 + data[1] * 256 + data[2]);
    assert(word_bytes(w) =~= data.take(4));
}

/// Decoding the Z85 text of bytes whose length is a multiple of four gives
/// those bytes back. The text is four fifths as long again, consists of
/// ASCII characters other than nul, and so is the UTF-8 encoding of the
/// characters that `z85_encode` returns for it.
pub proof fn lemma_z85_roundtrip(data: Seq<u8>)
    requires
        data.len() % 4 == 0,
    ensures
        z85_encode_bytes(data).len() == data.len() / 4 * 5,
        forall|i: int|
            0 <= i < z85_encode_bytes(data).len() ==> 0 < #[trigger] z85_encode_bytes(data)[i] < 128,
        encode_utf8(ascii_chars(z85_encode_bytes(data))) == z85_encode_bytes(data),
        z85_decode_bytes(z85_encode_bytes(data)) == data,
    decreases data.len(),
{
    let enc = z85_encode_bytes(data);
    if data.len() >= 4 {
        let w = word_value(data);
        let rest = data.skip(4);
        lemma_z85_roundtrip(rest);
        lemma_word_roundtrip(data);
        lemma_chunk_roundtrip(w);
        lemma_chunk_chars_ascii(w);
        let c = chunk_chars(w);
        assert(enc == c + z85_encode_bytes(rest));
        assert(enc.skip(5) =~= z85_encode_bytes(rest));
        assert(enc.take(5) =~= c);
        assert(chunk_valid(enc)) by {
            assert(enc[0] == c[0] && enc[1] == c[1] && enc[2] == c[2] && enc[3] == c[3]
                && enc[4] == c[4]);
        }
        assert(chunk_value(enc) == w) by {
            assert(enc[0] == c[0] && enc[1] == c[1] && enc[2] == c[2] && enc[3] == c[3]
                && enc[4] == c[4]);
        }
        assert(z85_decode_bytes(enc) == word_bytes(w) + z85_decode_bytes(enc.skip(5)));
        assert(data =~= data.take(4) + rest);
        assert forall|i: int| 0 <= i < enc.len() implies 0 < #[trigger] enc[i] < 128 by {
            if i >= 5 {
                assert(enc[i] == z85_encode_bytes(rest)[i - 5]);
            }
        }
    }
    lemma_ascii_utf8(enc);
}

/// Every group of five characters of `s` is valid Z85, and nothing is
/// left over.
pub open spec fn z85_text_valid(s: Seq<u8>) -> bool
    decreases s.len(),
{
    if s.len() < 5 {
        s.len() == 0
    } else {
        chunk_valid(s) && z85_text_valid(s.skip(5))
    }
}

proof fn lemma_digit_char(c: u8)
    requires
        z85_digit(c) is Some,
    ensures
        z85_char(z85_digit(c)->0) == c,
{
    reveal(z85_digit);
}

proof fn lemma_chunk_reencode(c: Seq<u8>)
    requires
        c.len() >= 5,
        chunk_valid(c),
    ensures
        chunk_chars(chunk_value(c)) == c.take(5),
{
    reveal(chunk_chars);
    lemma_digit_range(c[0]);
    lemma_digit_range(c[1]);
    lemma_digit_range(c[2]);
    lemma_digit_range(c[3]);
    lemma_digit_range(c[4]);
    lemma_digit_char(c[0]);
    lemma_digit_char(c[1]);
    lemma_digit_char(c[2]);
    lemma_digit_char(c[3]);
    lemma_digit_char(c[4]);
    let d0 = z85_digit(c[0])->0;
    let d1 = z85_digit(c[1])->0;
    let d2 = z85_digit(c[2])->0;
    let d3 = z85_digit(c[3])->0;
    let d4 = z85_digit(c[4])->0;
    let v = chunk_value(c);
    assert(v == 85 * (d0 * 614125 + d1 * 7225 + d2 * 85 + d3) + d4);
    assert(v == 7225 * (d0 * 7225 + d1 * 85 + d2) + (d3 * 85 + d4));
    assert(v == 614125 * (d0 * 85 + d1) + (d2 * 7225 + d3 * 85 + d4));
    assert(v == 52200625 * d0 + (d1 * 614125 + d2 * 7225 + d3 * 85 + d4));
    assert(v / 85 == d0 * 614125 + d1 * 7225 + d2 * 85 + d3);
    assert(v / 7225 == d0 * 7225 + d1 * 85 + d2);
    assert(v / 614125 == d0 * 85 + d1);
    assert(v / 52200625 == d0);
    assert(chunk_chars(v) =~= c.take(5));
}

proof fn lemma_word_reencode(v: int)
    requires
        0 <= v <= 0xffff_ffff,
    ensures
        word_bytes(v).len() == 4,
        word_value(word_bytes(v)) == v,
{
    let b = word_bytes(v);
    assert(v == (v / 256) * 256 + v % 256);
    assert(v / 256 == (v / 65536) * 256 + (v / 256) % 256);
    assert(v / 65536 == (v / 16777216) * 256 + (v / 65536) % 256);
    assert(v / 16777216 < 256);
}

/// Valid Z85 text decodes to four bytes for every five characters, and
/// encoding those bytes gives the text back.
#[verifier::spinoff_prover]
pub proof fn lemma_z85_reencode(s: Seq<u8>)
    requires
        z85_text_valid(s),
    ensures
        s.len() % 5 == 0,
        z85_decode_bytes(s).len() == s.len() / 5 * 4,
        z85_encode_bytes(z85_decode_bytes(s)) == s,
    decreases s.len(),
{
    if s.len() >= 5 {
        let rest = s.skip(5);
        lemma_z85_reencode(rest);
        let v = chunk_value(s);
        lemma_digit_range(s[0]);
        lemma_digit_range(s[1]);
        lemma_digit_range(s[2]);
        lemma_digit_range(s[3]);
        lemma_digit_range(s[4]);
        lemma_word_reencode(v);
        lemma_chunk_reencode(s);
        let dec = z85_decode_bytes(s);
        let wb = word_bytes(v);
        assert(dec == wb + z85_decode_bytes(rest));
        assert(dec.skip(4) =~= z85_decode_bytes(rest));
        assert(word_value(dec) == word_value(wb));
        assert(z85_encode_bytes(dec) == chunk_chars(word_value(dec)) + z85_encode_bytes(dec.skip(4)));
        assert(s =~= s.take(5) + rest);
    }
}

/// The Z85 alphabet and its decoding table are inverse: each of the 85
/// digits is decoded from its character, and each character that decodes
/// to a digit is that digit's character.
pub proof fn lemma_z85_alphabet(d: int, c: u8)
    ensures
        0 <= d < 85 ==> z85_digit(z85_char(d)) == Some(d),
        z85_digit(c) matches Some(e) ==> 0 <= e < 85 && z85_char(e) == c,
{
    if 0 <= d < 85 {
        lemma_char_digit(d);
    }
    if z85_digit(c) is Some {
        lemma_digit_range(c);
        lemma_digit_char(c);
    }
}

/// The standard Z85 alphabet: the character of each digit, digit 0 first.
pub open spec fn z85_alphabet() -> Seq<char> {
    seq!['0', '1', '2', '3', '4', '5', '6', '7', '8', '9', 'a', 'b', 'c', 'd', 'e', 'f', 'g', 'h', 'i', 'j', 'k', 'l', 'm', 'n', 'o', 'p', 'q', 'r', 's', 't', 'u', 'v', 'w', 'x', 'y', 'z', 'A', 'B', 'C', 'D', 'E', 'F', 'G', 'H', 'I', 'J', 'K', 'L', 'M', 'N', 'O', 'P', 'Q', 'R', 'S', 'T', 'U', 'V', 'W', 'X', 'Y', 'Z', '.', '-', ':', '+', '=', '^', '!', '/', '*', '?', '&', '<', '>', '(', ')', '[', ']', '{', '}', '@', '%', '$', '#']
}

/// Z85 writes each digit as the character at that position of the
/// standard alphabet, and reads each character of the alphabet back as its
/// position: digit 83 is `$`, digit 84 is `#`, `[` reads as 77 and `]` as 78.
pub proof fn lemma_z85_standard_alphabet()
    ensures
        z85_alphabet().len() == 85,
        forall|d: int| 0 <= d < 85 ==> #[trigger] z85_char(d) as int == z85_alphabet()[d] as int,
        forall|d: int| 0 <= d < 85 ==> #[trigger] z85_digit(z85_alphabet()[d] as u8) == Some(d),
{
    assert forall|d: int| 0 <= d < 85 implies #[trigger] z85_char(d) as int == z85_alphabet()[d] as int by {
        if d == 0 {
        } else if d == 1 {
        } else if d == 2 {
        } else if d == 3 {
        } else if d == 4 {
        } else if d == 5 {
        } else if d == 6 {
        } else if d == 7 {
        } else if d == 8 {
        } else if d == 9 {
        } else if d == 10 {
        } else if d == 11 {
        } else if d == 12 {
        } else if d == 13 {
        } else if d == 14 {
        } else if d == 15 {
        } else if d == 16 {
        } else if d == 17 {
        } else if d == 18 {
        } else if d == 19 {
        } else if d == 20 {
        } else if d == 21 {
        } else if d == 22 {
        } else if d == 23 {
        } else if d == 24 {
        } else if d == 25 {
        } else if d == 26 {
        } else if d == 27 {
        } else if d == 28 {
        } else if d == 29 {
        } else if d == 30 {
        } else if d == 31 {
        } else if d == 32 {
        } else if d == 33 {
        } else if d == 34 {
        } else if d == 35 {
        } else if d == 36 {
        } else if d == 37 {
        } else if d == 38 {
        } else if d == 39 {
        } else if d == 40 {
        } else if d == 41 {
        } else if d == 42 {
        } else if d == 43 {
        } else if d == 44 {
        } else if d == 45 {
        } else if d == 46 {
        } else if d == 47 {
        } else if d == 48 {
        } else if d == 49 {
        } else if d == 50 {
        } else if d == 51 {
        } else if d == 52 {
        } else if d == 53 {
        } else if d == 54 {
        } else if d == 55 {
        } else if d == 56 {
        } else if d == 57 {
        } else if d == 58 {
        } else if d == 59 {
        } else if d == 60 {
        } else if d == 61 {
        } else if d == 62 {
        } else if d == 63 {
        } else if d == 64 {
        } else if d == 65 {
        } else if d == 66 {
        } else if d == 67 {
        } else if d == 68 {
        } else if d == 69 {
        } else if d == 70 {
        } else if d == 71 {
        } else if d == 72 {
        } else if d == 73 {
        } else if d == 74 {
        } else if d == 75 {
        } else if d == 76 {
        } else if d == 77 {
        } else if d == 78 {
        } else if d == 79 {
        } else if d == 80 {
        } else if d == 81 {
        } else if d == 82 {
        } else if d == 83 {
        } else {
        }
    }
    assert forall|d: int| 0 <= d < 85 implies #[trigger] z85_digit(z85_alphabet()[d] as u8) == Some(d) by {
        assert(z85_char(d) as int == z85_alphabet()[d] as int);
        lemma_char_digit(d);
    }
}

proof fn lemma_encode_len(data: Seq<u8>)
    ensures
        z85_encode_bytes(data).len() == data.len() / 4 * 5,
    decreases data.len(),
{
    if data.len() >= 4 {
        lemma_encode_len(data.skip(4));
        reveal(chunk_chars);
    }
}

/// Z85 writes each group of four bytes, read as a big-endian 32-bit number,
/// as five base-85 digits, most significant first, each digit as its
/// character of the standard alphabet: character `j` of group `k` is the
/// alphabet's character for digit `j` of the value of bytes `4k` to `4k+3`.
pub proof fn lemma_z85_encode_digits(data: Seq<u8>, k: int, j: int)
    requires
        data.len() % 4 == 0,
        0 <= k < data.len() / 4,
        0 <= j < 5,
    ensures
        z85_encode_bytes(data).len() == data.len() / 4 * 5,
        z85_encode_bytes(data)[5 * k + j] as int == z85_alphabet()[(data[4 * k] * 16777216
            + data[4 * k + 1] * 65536 + data[4 * k + 2] * 256 + data[4 * k + 3]) / pow(
            85,
            (4 - j) as nat,
        ) % 85] as int,
    decreases k,
{
    lemma_encode_len(data);
    reveal(chunk_chars);
    if k == 0 {
        reveal_with_fuel(pow, 5);
        let w = word_value(data);
        let x = w / pow(85, (4 - j) as nat) % 85;
        lemma_z85_standard_alphabet();
        assert(z85_encode_bytes(data)[j] == chunk_chars(w)[j]);
        assert(z85_char(x) as int == z85_alphabet()[x] as int);
    } else {
        lemma_z85_encode_digits(data.skip(4), k - 1, j);
        assert(z85_encode_bytes(data)[5 * k + j] == z85_encode_bytes(data.skip(4))[5 * (k - 1) + j]);
    }
}

/// Decoding gives four bytes for every five characters, valid or not, and
/// where a group of five characters is not valid Z85 (a character outside
/// the alphabet, or a value beyond 32 bits), every byte from that group on
/// is zero, whatever the groups after it hold.
pub proof fn lemma_z85_decode_invalid_group(s: Seq<u8>, k: int)
    requires
        s.len() % 5 == 0,
        0 <= k < s.len() / 5,
        !chunk_valid(s.skip(5 * k)),
    ensures
        z85_decode_bytes(s).len() == s.len() / 5 * 4,
        forall|p: int| 4 * k <= p < s.len() / 5 * 4 ==> #[trigger] z85_decode_bytes(s)[p] == 0,
    decreases k,
{
    if k == 0 {
        assert(s.skip(0) =~= s);
    } else if !chunk_valid(s) {
    } else {
        assert(s.skip(5).skip(5 * (k - 1)) =~= s.skip(5 * k));
        lemma_z85_decode_invalid_group(s.skip(5), k - 1);
        let d = z85_decode_bytes(s);
        let w = word_bytes(chunk_value(s));
        assert(d == w + z85_decode_bytes(s.skip(5)));
        assert forall|p: int| 4 * k <= p < s.len() / 5 * 4 implies #[trigger] d[p] == 0 by {
            assert(d[p] == z85_decode_bytes(s.skip(5))[p - 4]);
        }
    }
}

} // verus!
