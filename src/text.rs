use vstd::prelude::*;
use vstd::utf8::{decode_utf8, encode_utf8, valid_utf8};

verus! {

broadcast use vstd::utf8::encode_utf8_decode_utf8, vstd::utf8::encode_utf8_valid_utf8;

/// The capacity, in bytes, of a fixed-width text field.
pub const TEXT_CAPACITY: usize = 32;

/// The text held by a fixed-width field: the first `len` bytes, never the padding.
pub open spec fn stored_text(buf: [u8; 32], len: u8) -> Seq<u8> {
    buf@.subrange(0, len as int)
}

/// What `text_of` makes of stored bytes: their characters where they are
/// valid UTF-8, the empty string where they are not.
pub open spec fn text_of_spec(bytes: Seq<u8>) -> Seq<char> {
    if valid_utf8(bytes) {
        decode_utf8(bytes)
    } else {
        Seq::empty()
    }
}

/// Places `bytes` at the front of a zeroed fixed-width buffer.
pub fn fill_fixed(bytes: &[u8]) -> (r: [u8; 32])
    requires
        bytes@.len() <= TEXT_CAPACITY,
    ensures
        r@.subrange(0, bytes@.len() as int) == bytes@,
        forall|i: int| bytes@.len() <= i < 32 ==> r@[i] == 0,
{
    let mut buf = [0u8; 32];
    let n = bytes.len();
    let mut i: usize = 0;
    while i < n
        invariant
            n == bytes@.len(),
            n <= 32,
            0 <= i <= n,
            buf@.len() == 32,
            forall|j: int| 0 <= j < i ==> buf@[j] == bytes@[j],
            forall|j: int| n <= j < 32 ==> buf@[j] == 0,
        decreases n - i,
    {
        buf[i] = bytes[i];
        i = i + 1;
    }
    assert(buf@.subrange(0, n as int) =~= bytes@);
    buf
}

/// The stored bytes of a fixed-width field, without the padding.
pub fn read_fixed(buf: &[u8; 32], len: u8) -> (r: Vec<u8>)
    requires
        len as usize <= TEXT_CAPACITY,
    ensures
        r@ == stored_text(*buf, len),
{
    let n = len as usize;
    let mut r: Vec<u8> = Vec::new();
    let mut i: usize = 0;
    while i < n
        invariant
            n == len as usize,
            n <= 32,
            buf@.len() == 32,
            0 <= i <= n,
            r@ == buf@.subrange(0, i as int),
        decreases n - i,
    {
        r.push(buf[i]);
        assert(r@ =~= buf@.subrange(0, i + 1));
        i = i + 1;
    }
    r
}

/// Relies on `String::from_utf8`: it succeeds exactly on valid UTF-8, and then
/// holds the characters that the bytes encode.
#[verifier::external_body]
fn string_from_utf8(bytes: Vec<u8>) -> (r: Option<String>)
    ensures
        r is Some <==> valid_utf8(bytes@),
        r matches Some(s) ==> s@ == decode_utf8(bytes@),
{
    String::from_utf8(bytes).ok()
}

/// Decodes stored bytes as text, falling back to the empty string.
pub fn text_of(bytes: Vec<u8>) -> (r: String)
    ensures
        r@ == text_of_spec(bytes@),
{
    match string_from_utf8(bytes) {
        Some(s) => s,
        None => String::new(),
    }
}

/// Text written into a field reads back as the same text.
pub proof fn lemma_text_round_trip(s: Seq<char>)
    ensures
        text_of_spec(encode_utf8(s)) == s,
{
}

} // verus!
