//! Calls into other crates, and into the parts of the standard library that carry no contract of
//! their own. What is said here of their results is taken on trust.

use base64::engine::general_purpose::STANDARD;
use base64::Engine as _;
use vstd::prelude::*;
use vstd::utf8::*;

use crate::text;

verus! {

/// The standard, padded base64 text of some bytes.
pub uninterp spec fn base64_text(bytes: Seq<u8>) -> Seq<char>;

/// What standard, padded base64 makes of a text: the bytes, or the words of its complaint.
pub uninterp spec fn base64_bytes(text: Seq<char>) -> Result<Seq<u8>, Seq<char>>;

/// `base64::Engine::encode` of the `STANDARD` engine. Its result is a function of the bytes, and
/// decoding it gives the bytes back.
#[verifier::external_body]
pub(crate) fn base64_encode(bytes: &[u8]) -> (text: String)
    ensures
        text@ == base64_text(bytes@),
        base64_bytes(text@) is Ok,
        base64_bytes(text@)->Ok_0 == bytes@,
{
    STANDARD.encode(bytes)
}

/// `base64::Engine::decode` of the `STANDARD` engine, its error rendered as text. Its result is a
/// function of the text.
#[verifier::external_body]
pub(crate) fn base64_decode(text: &str) -> (r: Result<Vec<u8>, String>)
    ensures
        base64_bytes(text@) == (match r {
            Ok(bytes) => Ok(bytes@),
            Err(complaint) => Err(complaint@),
        }),
{
    STANDARD.decode(text).map_err(|e| e.to_string())
}

/// What a text says as a UUID: its 128 bits, or the words of the parser's complaint.
pub uninterp spec fn uuid_value(text: Seq<char>) -> Result<u128, Seq<char>>;

/// `uuid::Uuid::parse_str`, the UUID taken as its 128 bits and the error rendered as text. Its
/// result is a function of the text.
#[verifier::external_body]
pub(crate) fn uuid_parse(text: &str) -> (r: Result<u128, String>)
    ensures
        uuid_value(text@) == (match r {
            Ok(bits) => Ok(bits),
            Err(complaint) => Err(complaint@),
        }),
{
    uuid::Uuid::parse_str(text).map(|u| u.as_u128()).map_err(|e| e.to_string())
}

/// The lower-case hexadecimal digit that writes `d`.
pub open spec fn hex_char(d: int) -> char {
    if d < 10 {
        (d + '0' as int) as char
    } else {
        (d - 10 + 'a' as int) as char
    }
}

/// The hexadecimal digit of `bits` that has `below` digits to its right.
pub open spec fn nibble(bits: u128, below: nat) -> int {
    (bits as int / vstd::arithmetic::power::pow(16, below)) % 16
}

/// The hyphenated writing of a UUID: groups of eight, four, four, four and twelve lower-case
/// hexadecimal digits.
pub open spec fn uuid_text(bits: u128) -> Seq<char> {
    let group = |lo: int, hi: int| Seq::new((hi - lo) as nat, |i: int| hex_char(nibble(bits, (31 - lo - i) as nat)));
    group(0, 8) + seq!['-'] + group(8, 12) + seq!['-'] + group(12, 16) + seq!['-'] + group(16, 20) + seq!['-'] + group(20, 32)
}

/// The `Display` text of `uuid::Uuid`: the hyphenated writing of its 128 bits, which
/// `Uuid::parse_str` reads back.
#[verifier::external_body]
pub(crate) fn uuid_display(bits: u128) -> (text: String)
    ensures
        text@ == uuid_text(bits),
        uuid_value(text@) is Ok,
        uuid_value(text@)->Ok_0 == bits,
{
    uuid::Uuid::from_u128(bits).to_string()
}

/// `dunce::simplified`: hands the path back as it is, or, on Windows, without a leading `\\?\`.
/// Which of the two depends on the platform and on whether the shorter path is safe to use.
#[verifier::external_body]
pub(crate) fn simplified(path: &str) -> (r: String)
    ensures
        r@ == path@ || ("\\\\?\\"@.is_prefix_of(path@) && r@ == path@.skip(4)),
{
    dunce::simplified(std::path::Path::new(path)).to_string_lossy().into_owned()
}

/// The width, the height and the RGBA bytes of an image encoded as PNG, if it can be decoded.
pub uninterp spec fn png_rgba(encoded: Seq<u8>) -> Option<(u32, u32, Seq<u8>)>;

/// `image::load_from_memory_with_format` for PNG, the image turned into RGBA with eight bits per
/// channel. The format is fixed, so no registered detector or decoder has a say: the result is a
/// function of the encoded bytes.
#[verifier::external_body]
pub(crate) fn load_png(encoded: &[u8]) -> (r: Option<(u32, u32, Vec<u8>)>)
    ensures
        png_rgba(encoded@) == (match r {
            Some((width, height, rgba)) => Some((width, height, rgba@)),
            None => None,
        }),
{
    let image = image::load_from_memory_with_format(encoded, image::ImageFormat::Png).ok()?.into_rgba8();
    Some((image.width(), image.height(), image.into_raw()))
}

/// The upper-case form of a text, as Unicode defines it.
pub uninterp spec fn unicode_upper(text: Seq<char>) -> Seq<char>;

/// `str::to_uppercase`: a function of the text, which on ASCII text maps each letter on its own.
#[verifier::external_body]
pub(crate) fn to_uppercase(text: &str) -> (r: String)
    ensures
        r@ == unicode_upper(text@),
        is_ascii_chars(text@) ==> r@ == text@.map_values(|c: char| text::ascii_upper(c)),
{
    text.to_uppercase()
}

/// The upper-case form of a text, letter by letter where it is ASCII.
pub open spec fn upper(text: Seq<char>) -> Seq<char> {
    if is_ascii_chars(text) {
        text.map_values(|c: char| text::ascii_upper(c))
    } else {
        unicode_upper(text)
    }
}

/// Puts a text into upper case.
pub fn uppercase(text: &str) -> (r: String)
    ensures
        r@ == upper(text@),
{
    to_uppercase(text)
}

/// The text of some bytes read as UTF-8, with what is not UTF-8 replaced.
pub uninterp spec fn lossy_text(bytes: Seq<u8>) -> Seq<char>;

/// `String::from_utf8_lossy`: a function of the bytes, which on valid UTF-8 is the text that they
/// encode.
#[verifier::external_body]
pub(crate) fn from_utf8_lossy(bytes: &[u8]) -> (text: String)
    ensures
        text@ == lossy_text(bytes@),
        valid_utf8(bytes@) ==> text@ == decode_utf8(bytes@),
{
    String::from_utf8_lossy(bytes).into_owned()
}

/// The text of some bytes: what they encode where they are valid UTF-8, else the lossy reading.
pub open spec fn text_of(bytes: Seq<u8>) -> Seq<char> {
    if valid_utf8(bytes) {
        decode_utf8(bytes)
    } else {
        lossy_text(bytes)
    }
}

/// Reads bytes as text.
pub fn decode_text(bytes: &[u8]) -> (text: String)
    ensures
        text@ == text_of(bytes@),
{
    from_utf8_lossy(bytes)
}

/// The quoted and escaped form of a text that Rust's `{:?}` writes.
pub uninterp spec fn debug_text(text: Seq<char>) -> Seq<char>;

/// The `Debug` form of a `str`: a function of the text.
#[verifier::external_body]
pub(crate) fn debug_str(text: &str) -> (r: String)
    ensures
        r@ == debug_text(text@),
{
    format!("{text:?}")
}

/// Text that was written as UTF-8 is read back as it was.
pub proof fn text_is_read_back(written: Seq<char>)
    ensures
        text_of(encode_utf8(written)) == written,
{
    encode_utf8_valid_utf8(written);
    encode_utf8_decode_utf8(written);
}

/// ASCII text is put into upper case letter by letter, and any other text as Unicode has it.
pub proof fn upper_case_is_ascii_or_unicode(text: Seq<char>, i: int)
    ensures
        upper(text).len() == text.len() || !is_ascii_chars(text),
        is_ascii_chars(text) && 0 <= i < text.len() ==> upper(text)[i] as int == text[i] as int - if 97 <= text[i] as int <= 122 {
            32int
        } else {
            0int
        },
        !is_ascii_chars(text) ==> upper(text) == unicode_upper(text),
{
}

/// Bytes that are no UTF-8 are read as the lossy reading has it.
pub proof fn other_bytes_are_read_lossily(bytes: Seq<u8>)
    requires
        !valid_utf8(bytes),
    ensures
        text_of(bytes) == lossy_text(bytes),
{
}

} // verus!
