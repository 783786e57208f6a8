//! Calls into other crates and into the standard library. Nothing here is proved:
//! each contract says what is taken for granted of the call.

use base64::engine::general_purpose::STANDARD;
use base64::Engine;
use rand::distributions::{Alphanumeric, DistString};
use rand::RngCore;
use vstd::prelude::*;
use vstd::utf8::{decode_utf8, valid_utf8};

verus! {

/// The error of a base64 decoder. Nothing is read from it.
#[verifier::external_type_specification]
#[verifier::external_body]
pub struct ExDecodeError(base64::DecodeError);

/// What `STANDARD.decode` of `base64` makes of a text; `None` where it fails.
pub uninterp spec fn base64_decoded(text: Seq<char>) -> Option<Seq<u8>>;

/// What `STANDARD.encode` of `base64` makes of 32 bytes.
pub uninterp spec fn base64_encoded(bytes: Seq<u8>) -> Seq<char>;

/// Whether `c` is a digit or a letter of the ASCII range.
pub open spec fn is_alphanumeric(c: char) -> bool {
    ('0' <= c <= '9') || ('A' <= c <= 'Z') || ('a' <= c <= 'z')
}

/// Whether `c` can stand in base64 text: its alphabet is the ASCII letters and
/// digits, `+` and `/`, and `=` pads the end.
pub open spec fn is_base64(c: char) -> bool {
    is_alphanumeric(c) || c == '+' || c == '/' || c == '='
}

/// Decodes base64 text by `Engine::decode` of the `STANDARD` engine of `base64`:
/// whether it succeeds, and with which bytes, is decided by the text alone.
#[verifier::external_body]
pub(crate) fn base64_decode(text: &str) -> (r: Result<Vec<u8>, base64::DecodeError>)
    ensures
        match r {
            Ok(bytes) => base64_decoded(text@) == Some(bytes@),
            Err(_) => base64_decoded(text@) is None,
        },
{
    STANDARD.decode(text)
}

/// Encodes a key by `Engine::encode` of the `STANDARD` engine of `base64`: the text
/// is decided by the bytes alone, has four characters for each three bytes begun,
/// all of the base64 alphabet or padding, and decodes to the bytes.
#[verifier::external_body]
pub(crate) fn base64_encode(bytes: &[u8; 32]) -> (text: String)
    ensures
        text@ == base64_encoded(bytes@),
        text@.len() == 44,
        forall|i: int| 0 <= i < text@.len() ==> is_base64(#[trigger] text@[i]),
        base64_decoded(text@) == Some(bytes@),
{
    STANDARD.encode(bytes)
}

/// A random text by `DistString::sample_string` of `rand`, over its `Alphanumeric`
/// distribution and the generator of the thread: `len` ASCII letters and digits.
/// Which ones is up to chance.
#[verifier::external_body]
pub(crate) fn random_alphanumeric(len: usize) -> (text: String)
    requires
        len <= isize::MAX as usize,
    ensures
        text@.len() == len,
        forall|i: int| 0 <= i < text@.len() ==> is_alphanumeric(#[trigger] text@[i]),
{
    Alphanumeric.sample_string(&mut rand::thread_rng(), len)
}

/// A random key by `RngCore::fill_bytes` of `rand`, from the generator of the
/// thread. Its bytes are up to chance.
#[verifier::external_body]
pub(crate) fn random_key() -> (key: [u8; 32]) {
    let mut key = [0u8; 32];
    rand::thread_rng().fill_bytes(&mut key);
    key
}

/// The mark of an extended-length Windows path.
pub open spec fn verbatim_prefix() -> Seq<char> {
    seq!['\\', '\\', '?', '\\']
}

/// Whether a path has the mark of an extended-length path, with a drive behind it: an
/// ASCII letter and a colon.
pub open spec fn is_verbatim_disk(path: Seq<char>) -> bool {
    &&& verbatim_prefix().is_prefix_of(path)
    &&& path.len() >= 6
    &&& ('A' <= path[4] <= 'Z') || ('a' <= path[4] <= 'z')
    &&& path[5] == ':'
}

/// A path in its plain form, by `simplified` of `dunce`. On Windows the extended-length
/// mark goes where the path has it, with a drive behind it, and means the same without it.
/// In all other cases, and on every other platform, the path stays as it is. Which of the
/// two holds of a path with the mark and a drive is left unsaid: it differs by platform.
#[verifier::external_body]
pub(crate) fn dunce_simplified(path: &str) -> (plain: String)
    ensures
        plain@ == path@ || (is_verbatim_disk(path@) && plain@ == path@.skip(4)),
{
    dunce::simplified(std::path::Path::new(path)).to_string_lossy().into_owned()
}

/// What `String::from_utf8_lossy` makes of bytes.
pub uninterp spec fn utf8_lossy(bytes: Seq<u8>) -> Seq<char>;

/// Bytes as text, by `String::from_utf8_lossy` of the standard library: the text is
/// decided by the bytes alone, and is what they encode where they are valid UTF-8.
#[verifier::external_body]
pub(crate) fn text_from_utf8_lossy(bytes: &[u8]) -> (text: String)
    ensures
        text@ == utf8_lossy(bytes@),
        valid_utf8(bytes@) ==> text@ == decode_utf8(bytes@),
{
    String::from_utf8_lossy(bytes).into_owned()
}

/// What the standard library's `Debug` makes of a text: the text between double
/// quotes, with escapes.
pub uninterp spec fn debug_quoted(text: Seq<char>) -> Seq<char>;

/// A text as the `{:?}` of the standard library's `format` shows it, which is
/// decided by the text alone.
#[verifier::external_body]
pub(crate) fn quote(text: &str) -> (quoted: String)
    ensures
        quoted@ == debug_quoted(text@),
{
    format!("{:?}", text)
}

/// Appends one character (`String::push` of the standard library): the text
/// afterwards is the text before with the character at its end.
pub assume_specification[ String::push ](s: &mut String, c: char)
    ensures
        final(s)@ == old(s)@.push(c),
;

} // verus!
