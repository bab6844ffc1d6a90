//! Tolerant decoding of received payloads for logging: invalid UTF-8 is
//! never an error, it is repaired by lossy substitution.
use vstd::prelude::*;

verus! {

/// The text that lossy UTF-8 decoding gives for a byte sequence. The
/// decoding depends on the bytes alone, so this names its result rather
/// than restating the UTF-8 repair rules.
pub uninterp spec fn lossy_text_of(bytes: Seq<u8>) -> Seq<char>;

/// Relies on `String::from_utf8_lossy`: decodes the bytes, replacing
/// invalid UTF-8 sequences, and depends on the bytes alone; an empty
/// input gives an empty text.
#[verifier::external_body]
fn from_utf8_lossy_owned(bytes: &Vec<u8>) -> (r: String)
    ensures
        r@ == lossy_text_of(bytes@),
        bytes@.len() == 0 ==> r@.len() == 0,
{
    String::from_utf8_lossy(bytes.as_slice()).into_owned()
}

/// Decodes a received payload for logging. Never fails: invalid UTF-8 is
/// repaired by lossy substitution.
pub fn decoded_text(payload: &Vec<u8>) -> (r: String)
    ensures
        r@ == lossy_text_of(payload@),
{
    from_utf8_lossy_owned(payload)
}

/// Lossy decode idempotence: decoding a byte sequence is a pure function
/// of the bytes, so any two decodes of equal byte sequences give equal
/// text.
pub proof fn lemma_lossy_decode_deterministic(
    a: Seq<u8>,
    b: Seq<u8>,
    first: Seq<char>,
    second: Seq<char>,
)
    requires
        a == b,
        first == lossy_text_of(a),
        second == lossy_text_of(b),
    ensures
        first == second,
{
}

} // verus!
