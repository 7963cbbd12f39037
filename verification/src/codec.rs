//! Base64 (standard alphabet, padded), through the `base64` crate.

use vstd::prelude::*;
use base64::Engine;

verus! {

/// `base64::DecodeError`, carried through inside [`crate::error::GradiumError::InvalidAudio`].
#[verifier::external_type_specification]
#[verifier::external_body]
pub struct ExDecodeError(base64::DecodeError);

/// The text that `base64::engine::general_purpose::STANDARD.encode` makes of some bytes.
pub uninterp spec fn base64_encoded(bytes: Seq<u8>) -> Seq<char>;

/// The bytes that `base64::engine::general_purpose::STANDARD.decode` reads from
/// the UTF-8 bytes of a text, or `None` where it reports an error.
pub uninterp spec fn base64_decoded(text: Seq<char>) -> Option<Seq<u8>>;

/// Whether the padded base64 text of `len` bytes has a length that fits in
/// `usize`.
pub open spec fn base64_len_fits(len: nat) -> bool {
    &&& (len / 3) * 4 <= usize::MAX
    &&& len % 3 != 0 ==> (len / 3) * 4 + 4 <= usize::MAX
}

/// Encodes bytes with `STANDARD.encode`. The contract claims that the text is
/// fixed by the bytes (the name [`base64_encoded`]) and that `STANDARD.decode`
/// reads the bytes back from it (the engine writes canonical padded base64,
/// which its decoder accepts). The crate panics where the length of the
/// output overflows `usize`, which `requires` rules out.
#[verifier::external_body]
pub(crate) fn encode_base64(bytes: &[u8]) -> (s: String)
    requires
        base64_len_fits(bytes@.len()),
    ensures
        s@ == base64_encoded(bytes@),
        base64_decoded(s@) == Some(bytes@),
{
    base64::engine::general_purpose::STANDARD.encode(bytes)
}

/// Decodes the UTF-8 bytes of a text with `STANDARD.decode`. The contract
/// claims that success and the bytes are fixed by the text (the name
/// [`base64_decoded`]), that an error comes exactly where that name has no
/// bytes, and that the engine, which requires canonical padding and no
/// trailing bits, accepts exactly the encodings that `STANDARD.encode`
/// writes: decoded bytes encode back to the text, and the encoding of any
/// bytes (of a length the encoder handles) decodes to those bytes.
#[verifier::external_body]
pub(crate) fn decode_base64(text: &str) -> (r: Result<Vec<u8>, base64::DecodeError>)
    ensures
        r is Ok <==> base64_decoded(text@) is Some,
        r matches Ok(v) ==> base64_decoded(text@) == Some(v@),
        r matches Ok(v) ==> base64_encoded(v@) == text@,
        r is Err ==> forall|b: Seq<u8>|
            base64_len_fits(b.len()) ==> #[trigger] base64_encoded(b) != text@,
        r matches Ok(v) ==> forall|b: Seq<u8>|
            base64_len_fits(b.len()) && #[trigger] base64_encoded(b) == text@ ==> b == v@,
{
    base64::engine::general_purpose::STANDARD.decode(text)
}

} // verus!
