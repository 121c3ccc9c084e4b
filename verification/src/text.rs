//! Text made from the bytes of a file: type tags, brands and names.
use vstd::prelude::*;
use vstd::utf8::*;

verus! {

/// True when every byte is a 7-bit ASCII code.
pub open spec fn is_ascii_bytes(bytes: Seq<u8>) -> bool {
    forall|i: int| 0 <= i < bytes.len() ==> #[trigger] bytes[i] < 0x80
}

/// The characters whose codes are the given bytes, one for one.
pub open spec fn ascii_text(bytes: Seq<u8>) -> Seq<char> {
    Seq::new(bytes.len(), |i: int| bytes[i] as char)
}

/// What `String::from_utf8_lossy` makes of a byte sequence: its UTF-8
/// decoding, with each malformed part replaced by U+FFFD.
pub uninterp spec fn utf8_lossy(bytes: Seq<u8>) -> Seq<char>;

/// Calls `String::from_utf8_lossy` and takes ownership of what it returns.
/// Believed, not proved: the result depends on the bytes alone, and bytes
/// that are valid UTF-8 come back as the string that consists of them.
#[verifier::external_body]
pub(crate) fn lossy_string(bytes: &[u8]) -> (text: String)
    ensures
        text@ == utf8_lossy(bytes@),
        valid_utf8(bytes@) ==> encode_utf8(text@) == bytes@,
{
    String::from_utf8_lossy(bytes).into_owned()
}

/// ASCII bytes are valid UTF-8, and the only text that they encode is the
/// one made of the characters with the same codes.
pub proof fn lemma_ascii_is_utf8(bytes: Seq<u8>)
    requires
        is_ascii_bytes(bytes),
    ensures
        valid_utf8(bytes),
        encode_utf8(ascii_text(bytes)) == bytes,
        forall|text: Seq<char>| encode_utf8(text) == bytes ==> text == ascii_text(bytes),
{
    let chars = ascii_text(bytes);
    assert(is_ascii_chars(chars));
    is_ascii_chars_encode_utf8(chars);
    assert(encode_utf8(chars) =~= bytes);
    encode_utf8_valid_utf8(chars);
    assert forall|text: Seq<char>| encode_utf8(text) == bytes implies text == chars by {
        encode_utf8_decode_utf8(text);
        encode_utf8_decode_utf8(chars);
    }
}

/// Tells whether every byte is a 7-bit ASCII code.
pub fn all_ascii(bytes: &[u8]) -> (ascii: bool)
    ensures
        ascii == is_ascii_bytes(bytes@),
{
    let mut i: usize = 0;
    while i < bytes.len()
        invariant
            i <= bytes.len(),
            forall|k: int| 0 <= k < i ==> #[trigger] bytes@[k] < 0x80,
        decreases bytes.len() - i,
    {
        if bytes[i] >= 0x80 {
            return false;
        }
        i = i + 1;
    }
    true
}

/// The text of a byte field: its bytes read as UTF-8, with U+FFFD for
/// each malformed part. ASCII bytes read as the characters with the same
/// codes.
pub fn bytes_to_text(bytes: &[u8]) -> (text: String)
    ensures
        text@ == utf8_lossy(bytes@),
        valid_utf8(bytes@) ==> encode_utf8(text@) == bytes@,
        is_ascii_bytes(bytes@) ==> text@ == ascii_text(bytes@),
{
    proof {
        if is_ascii_bytes(bytes@) {
            lemma_ascii_is_utf8(bytes@);
        }
    }
    lossy_string(bytes)
}

} // verus!
