//! Keys travel as bytes on the wire and as text in the backend: the
//! conversions between the two.
use vstd::prelude::*;
use vstd::utf8::*;

verus! {

/// What `String::from_utf8_lossy` makes of bytes that are not valid UTF-8:
/// their decoding with each invalid sequence replaced by U+FFFD.
pub uninterp spec fn lossy_utf8_invalid(bytes: Seq<u8>) -> Seq<char>;

/// The text that bytes read as: their UTF-8 decoding when they are valid,
/// else the lossy decoding.
pub open spec fn lossy_utf8(bytes: Seq<u8>) -> Seq<char> {
    if valid_utf8(bytes) {
        decode_utf8(bytes)
    } else {
        lossy_utf8_invalid(bytes)
    }
}

/// Calls `String::from_utf8_lossy` and takes the result as an owned `String`.
/// Claimed: valid UTF-8 decodes exactly, as the standard library documents
/// (it then borrows the input as a `str`); what invalid input gives is the
/// name `lossy_utf8_invalid`, left unstated beyond that.
#[verifier::external_body]
pub(crate) fn decode_lossy(bytes: &[u8]) -> (s: String)
    ensures
        valid_utf8(bytes@) ==> s@ == decode_utf8(bytes@),
        !valid_utf8(bytes@) ==> s@ == lossy_utf8_invalid(bytes@),
{
    String::from_utf8_lossy(bytes).into_owned()
}

/// Whether every byte is ASCII.
pub open spec fn is_ascii_bytes(bytes: Seq<u8>) -> bool {
    forall|i: int| 0 <= i < bytes.len() ==> bytes[i] < 128
}

/// ASCII bytes read as text, one character per byte.
pub open spec fn ascii_text(bytes: Seq<u8>) -> Seq<char> {
    bytes.map_values(|b: u8| b as char)
}

/// ASCII bytes are valid UTF-8 and read as themselves.
pub proof fn lemma_ascii_reads_as_itself(bytes: Seq<u8>)
    requires
        is_ascii_bytes(bytes),
    ensures
        lossy_utf8(bytes) == ascii_text(bytes),
{
    let chars = ascii_text(bytes);
    assert forall|i: int| 0 <= i < chars.len() implies '\0' <= #[trigger] chars[i] <= '\u{7f}' by {
        assert(bytes[i] < 128);
    }
    assert(is_ascii_chars(chars));
    is_ascii_chars_encode_utf8(chars);
    assert forall|i: int| 0 <= i < bytes.len() implies encode_utf8(chars)[i] == bytes[i] by {
        let b = bytes[i];
        assert(chars[i] == b as char);
        assert((b as char) as u8 == b);
    }
    assert(encode_utf8(chars) =~= bytes);
    encode_utf8_valid_utf8(chars);
    encode_utf8_decode_utf8(chars);
}

} // verus!
