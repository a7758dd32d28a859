use vstd::prelude::*;
use vstd::slice::slice_to_vec;
use vstd::std_specs::cmp::PartialEqSpecImpl;
use vstd::std_specs::convert::FromSpecImpl;
use vstd::string::StringSliceAdditionalSpecFns;
use vstd::utf8::{decode_utf8, encode_utf8, valid_utf8};

use crate::text::str_from_utf8;

verus! {

/// A single message frame: its bytes, and the flag that tells whether more
/// frames of the same multipart message follow it.
///
/// A frame is created locally to be sent, or filled in from a frame that
/// was received. Multipart messages are sent and received as several
/// frames.
pub struct Message {
    data: Vec<u8>,
    more: bool,
}

impl View for Message {
    type V = Seq<u8>;

    closed spec fn view(&self) -> Seq<u8> {
        self.data@
    }
}

impl Message {
    /// The "more" flag of the frame.
    pub closed spec fn spec_more(&self) -> bool {
        self.more
    }

    /// An empty frame.
    pub fn new() -> (m: Message)
        ensures
            m@ == Seq::<u8>::empty(),
            !m.spec_more(),
    {
        Message { data: Vec::new(), more: false }
    }

    /// A frame as it was received: its bytes and its "more" flag.
    pub fn from_msg(data: Vec<u8>, more: bool) -> (m: Message)
        ensures
            m@ == data@,
            m.spec_more() == more,
    {
        Message { data, more }
    }

    /// A frame of `len` zero bytes.
    pub fn with_size(len: usize) -> (m: Message)
        ensures
            m@ == Seq::new(len as nat, |i: int| 0u8),
            !m.spec_more(),
    {
        let mut data: Vec<u8> = Vec::new();
        let mut k: usize = 0;
        while k < len
            invariant
                k <= len,
                data@ =~= Seq::new(k as nat, |i: int| 0u8),
            decreases len - k,
        {
            data.push(0);
            k = k + 1;
        }
        Message { data, more: false }
    }

    /// A frame of `len` zero bytes (the older name of `with_size`).
    pub fn with_capacity(len: usize) -> (m: Message)
        ensures
            m@ == Seq::new(len as nat, |i: int| 0u8),
            !m.spec_more(),
    {
        Message::with_size(len)
    }

    /// A frame holding a copy of `data`.
    pub fn from_slice(data: &[u8]) -> (m: Message)
        ensures
            m@ == data@,
            !m.spec_more(),
    {
        Message { data: slice_to_vec(data), more: false }
    }

    /// The number of bytes in the frame.
    pub fn len(&self) -> (n: usize)
        ensures
            n == self@.len(),
    {
        self.data.len()
    }

    /// `true` when at least one byte is stored in the frame.
    pub fn is_empty(&self) -> (b: bool)
        ensures
            b == (self@.len() >= 1),
    {
        self.data.len() != 0
    }

    /// The bytes of the frame.
    pub fn as_bytes(&self) -> (b: &[u8])
        ensures
            b@ == self@,
    {
        self.data.as_slice()
    }

    /// The bytes of the frame, to be written in place.
    pub fn as_mut_bytes(&mut self) -> (b: &mut [u8])
        ensures
            b@ == old(self)@,
            final(self)@ == final(b)@,
            final(self).spec_more() == old(self).spec_more(),
    {
        self.data.as_mut_slice()
    }

    /// A copy of the bytes of the frame.
    pub fn to_bytes(&self) -> (b: Vec<u8>)
        ensures
            b@ == self@,
    {
        slice_to_vec(self.data.as_slice())
    }

    /// The frame's bytes as text, where they are valid UTF-8.
    pub fn as_str(&self) -> (s: Option<&str>)
        ensures
            s is Some <==> valid_utf8(self@),
            s matches Some(t) ==> t@ == decode_utf8(self@),
    {
        match str_from_utf8(self.data.as_slice()) {
            Ok(t) => Some(t),
            Err(_) => None,
        }
    }

    /// The frame's bytes as a `String`; they must be valid UTF-8.
    pub fn to_string(&self) -> (s: String)
        requires
            valid_utf8(self@),
        ensures
            s@ == decode_utf8(self@),
    {
        let text = str_from_utf8(self.data.as_slice());
        text.unwrap().to_owned()
    }

    /// Whether more frames of the same multipart message follow this one.
    pub fn get_more(&self) -> (b: bool)
        ensures
            b == self.spec_more(),
    {
        self.more
    }
}

impl PartialEq for Message {
    fn eq(&self, other: &Message) -> (r: bool) {
        let n = self.data.len();
        if n != other.data.len() {
            return false;
        }
        let mut i: usize = 0;
        while i < n
            invariant
                n == self.data@.len(),
                n == other.data@.len(),
                i <= n,
                forall|j: int| 0 <= j < i ==> self.data@[j] == other.data@[j],
            decreases n - i,
        {
            if self.data[i] != other.data[i] {
                return false;
            }
            i = i + 1;
        }
        assert(self.data@ =~= other.data@);
        true
    }
}

impl PartialEqSpecImpl for Message {
    open spec fn obeys_eq_spec() -> bool {
        true
    }

    open spec fn eq_spec(&self, other: &Message) -> bool {
        self@ == other@
    }
}

impl Eq for Message {
}

impl Clone for Message {
    /// A new frame holding a copy of the bytes; its "more" flag is clear.
    fn clone(&self) -> (m: Message)
        ensures
            m@ == self@,
            !m.spec_more(),
    {
        Message::from_slice(self.data.as_slice())
    }
}

impl Default for Message {
    fn default() -> (m: Message)
        ensures
            m@ == Seq::<u8>::empty(),
            !m.spec_more(),
    {
        Message::new()
    }
}

impl From<Vec<u8>> for Message {
    /// A frame holding the given bytes, without copying them.
    fn from(data: Vec<u8>) -> (m: Message)
        ensures
            m@ == data@,
            !m.spec_more(),
    {
        Message { data, more: false }
    }
}

impl FromSpecImpl<Vec<u8>> for Message {
    open spec fn obeys_from_spec() -> bool {
        true
    }

    closed spec fn from_spec(v: Vec<u8>) -> Message {
        Message { data: v, more: false }
    }
}

impl<'a> From<&'a [u8]> for Message {
    /// A frame holding a copy of the bytes.
    fn from(data: &'a [u8]) -> (m: Message)
        ensures
            m@ == data@,
            !m.spec_more(),
    {
        Message::from_slice(data)
    }
}

impl<'a> FromSpecImpl<&'a [u8]> for Message {
    // The frame owns a fresh copy of the bytes, which no spec function can
    // name; `from` states its bytes and flag instead.
    open spec fn obeys_from_spec() -> bool {
        false
    }

    closed spec fn from_spec(v: &'a [u8]) -> Message {
        choose|m: Message| m@ == v@ && !m.more
    }
}

impl<'a> From<&'a str> for Message {
    /// A frame holding a copy of the UTF-8 bytes of the text.
    fn from(text: &'a str) -> (m: Message)
        ensures
            m@ == text.spec_bytes(),
            !m.spec_more(),
    {
        Message::from_slice(text.as_bytes())
    }
}

impl<'a> FromSpecImpl<&'a str> for Message {
    // As for byte slices, `from` states the frame's bytes and flag.
    open spec fn obeys_from_spec() -> bool {
        false
    }

    closed spec fn from_spec(v: &'a str) -> Message {
        choose|m: Message| m@ == v.spec_bytes() && !m.more
    }
}

impl<'a> From<&'a String> for Message {
    /// A frame holding a copy of the UTF-8 bytes of the text.
    fn from(text: &'a String) -> (m: Message)
        ensures
            m@ == encode_utf8(text@),
            !m.spec_more(),
    {
        Message::from_slice(text.as_str().as_bytes())
    }
}

impl<'a> FromSpecImpl<&'a String> for Message {
    // As for byte slices, `from` states the frame's bytes and flag.
    open spec fn obeys_from_spec() -> bool {
        false
    }

    closed spec fn from_spec(v: &'a String) -> Message {
        choose|m: Message| m@ == encode_utf8(v@) && !m.more
    }
}

/// -1, 0 or 1 as `a` comes before, equals or comes after `b` in
/// lexicographic order: the first differing byte decides, and a proper
/// prefix comes first.
pub open spec fn lex_rank(a: Seq<u8>, b: Seq<u8>) -> int
    decreases a.len(),
{
    if a.len() == 0 {
        if b.len() == 0 {
            0
        } else {
            -1
        }
    } else if b.len() == 0 {
        1
    } else if a[0] < b[0] {
        -1
    } else if a[0] > b[0] {
        1
    } else {
        lex_rank(a.drop_first(), b.drop_first())
    }
}

proof fn lemma_lex_rank_step(a: Seq<u8>, b: Seq<u8>, i: int)
    requires
        0 <= i < a.len(),
        i < b.len(),
        a[i] == b[i],
    ensures
        lex_rank(a.skip(i), b.skip(i)) == lex_rank(a.skip(i + 1), b.skip(i + 1)),
{
    assert(a.skip(i).drop_first() =~= a.skip(i + 1));
    assert(b.skip(i).drop_first() =~= b.skip(i + 1));
}

/// The lexicographic order of two byte strings, as `lex_rank`.
pub(crate) fn lex_rank_exec(a: &[u8], b: &[u8]) -> (r: i8)
    ensures
        r == lex_rank(a@, b@),
{
    let n = a.len();
    let m = b.len();
    let mut i: usize = 0;
    assert(a@.skip(0) =~= a@);
    assert(b@.skip(0) =~= b@);
    while i < n && i < m
        invariant
            n == a@.len(),
            m == b@.len(),
            i <= n,
            i <= m,
            lex_rank(a@, b@) == lex_rank(a@.skip(i as int), b@.skip(i as int)),
        decreases n - i,
    {
        if a[i] < b[i] {
            return -1;
        }
        if a[i] > b[i] {
            return 1;
        }
        proof {
            lemma_lex_rank_step(a@, b@, i as int);
        }
        i = i + 1;
    }
    if i < n {
        1
    } else if i < m {
        -1
    } else {
        0
    }
}

/// The order of frames agrees with their equality and is antisymmetric:
/// two frames compare equal exactly when their bytes are equal, and
/// swapping them reverses the outcome.
pub proof fn lemma_lex_rank_consistent(a: Seq<u8>, b: Seq<u8>)
    ensures
        (lex_rank(a, b) == 0) == (a == b),
        lex_rank(a, b) == -lex_rank(b, a),
        -1 <= lex_rank(a, b) <= 1,
    decreases a.len(),
{
    if a.len() > 0 && b.len() > 0 && a[0] == b[0] {
        lemma_lex_rank_consistent(a.drop_first(), b.drop_first());
        if a.drop_first() == b.drop_first() {
            assert(a =~= seq![a[0]] + a.drop_first());
            assert(b =~= seq![b[0]] + b.drop_first());
        }
    }
    if a.len() > 0 && b.len() > 0 && a[0] != b[0] {
        assert(a[0] != b[0]);
    }
    if a.len() == 0 && b.len() == 0 {
        assert(a =~= b);
    }
}

/// The order of frames is transitive: if `a` comes before `b` and `b`
/// before `c`, then `a` comes before `c`; the same holds where some of
/// them compare equal.
pub proof fn lemma_lex_rank_transitive(a: Seq<u8>, b: Seq<u8>, c: Seq<u8>)
    requires
        lex_rank(a, b) <= 0,
        lex_rank(b, c) <= 0,
    ensures
        lex_rank(a, c) <= 0,
        lex_rank(a, b) < 0 || lex_rank(b, c) < 0 ==> lex_rank(a, c) < 0,
    decreases a.len(),
{
    if a.len() > 0 && b.len() > 0 && c.len() > 0 && a[0] == b[0] && b[0] == c[0] {
        lemma_lex_rank_transitive(a.drop_first(), b.drop_first(), c.drop_first());
    }
}

/// Frames are ordered byte by byte, each byte taken as an unsigned number:
/// where two frames first differ at position `i`, the one with the smaller
/// byte there comes first, and a frame that is a proper prefix of another
/// comes before it.
pub proof fn lemma_lex_rank_bytewise(a: Seq<u8>, b: Seq<u8>, i: int)
    ensures
        0 <= i < a.len() && i < b.len() && a.take(i) == b.take(i) && a[i] < b[i] ==> lex_rank(a, b)
            == -1,
        a.len() < b.len() && a.is_prefix_of(b) ==> lex_rank(a, b) == -1,
    decreases a.len(),
{
    if 0 < i < a.len() && i < b.len() && a.take(i) == b.take(i) && a[i] < b[i] {
        assert(a[0] == a.take(i)[0] && b[0] == b.take(i)[0]);
        assert(a.drop_first().take(i - 1) =~= a.take(i).drop_first());
        assert(b.drop_first().take(i - 1) =~= b.take(i).drop_first());
        lemma_lex_rank_bytewise(a.drop_first(), b.drop_first(), i - 1);
    }
    if 0 < a.len() < b.len() && a.is_prefix_of(b) {
        assert(a[0] == b[0]);
        assert(a.drop_first().is_prefix_of(b.drop_first())) by {
            assert(a.drop_first() =~= b.drop_first().take(a.len() - 1));
        }
        lemma_lex_rank_bytewise(a.drop_first(), b.drop_first(), i - 1);
    }
}

/// The answer to a query for a metadata property of a received frame:
/// libzmq gives the value's bytes, or nothing where the frame has no such
/// property. A value that is not UTF-8 reads as absent, so a missing and a
/// non-UTF-8 value cannot be told apart.
pub fn message_property<'a>(value: Option<&'a [u8]>) -> (res: Option<&'a str>)
    ensures
        res is Some <==> (value matches Some(v) && valid_utf8(v@)),
        res matches Some(t) ==> t@ == decode_utf8(value->0@),
{
    match value {
        Some(v) => match str_from_utf8(v) {
            Ok(t) => Some(t),
            Err(_) => None,
        },
        None => None,
    }
}

impl From<Box<[u8]>> for Message {
    /// A frame holding the bytes of the boxed slice, without copying them.
    fn from(data: Box<[u8]>) -> (m: Message)
        ensures
            m@ == data@,
            !m.spec_more(),
    {
        Message { data: data.into_vec(), more: false }
    }
}

impl FromSpecImpl<Box<[u8]>> for Message {
    // As for byte slices, `from` states the frame's bytes and flag.
    open spec fn obeys_from_spec() -> bool {
        false
    }

    closed spec fn from_spec(v: Box<[u8]>) -> Message {
        choose|m: Message| m@ == v@ && !m.more
    }
}

/// `<[u8] as Hash>::hash` of std: feeds the bytes (with their length) to
/// the hasher. What the hasher's state becomes is the hasher's affair, so
/// nothing is stated of it.
#[verifier::external_body]
fn hash_bytes<H: core::hash::Hasher>(bytes: &[u8], state: &mut H) {
    core::hash::Hash::hash(bytes, state)
}

#[verifier::external_type_specification]
#[verifier::external_body]
pub struct ExFormatter<'a>(core::fmt::Formatter<'a>);

#[verifier::external_type_specification]
#[verifier::external_body]
pub struct ExFmtError(core::fmt::Error);

/// Writes the bytes as a list, with `write!` of std; what the formatter
/// makes of them is its own affair, so nothing is stated of it.
#[verifier::external_body]
fn write_bytes_debug(f: &mut core::fmt::Formatter<'_>, bytes: &[u8]) -> core::fmt::Result {
    write!(f, "{:?}", bytes)
}

impl core::fmt::Debug for Message {
    /// A frame shows as the list of its bytes.
    fn fmt(&self, f: &mut core::fmt::Formatter<'_>) -> core::fmt::Result {
        write_bytes_debug(f, self.data.as_slice())
    }
}

impl core::hash::Hash for Message {
    /// Frames hash by their bytes alone, as they compare.
    fn hash<H: core::hash::Hasher>(&self, state: &mut H) {
        hash_bytes(self.data.as_slice(), state);
    }
}

} // verus!
