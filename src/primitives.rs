//! The outside building blocks that the rest of the library calls: the AES
//! block function, MD5, hex and base64 codecs, little-endian integers and
//! lossy UTF-8 decoding. Each is a thin wrapper whose contract states what
//! the outside function documents; the results that would take pages to
//! write out (a cipher, a digest, a base64 decoding) are named.
use base64::Engine;
use byteorder::ByteOrder;
use vstd::prelude::*;
use vstd::utf8::*;

verus! {

/// What AES-128 makes of one 16-byte block under a 16-byte key.
pub uninterp spec fn aes128_encrypt_block_of(key: Seq<u8>, block: Seq<u8>) -> Seq<u8>;

/// What the inverse AES-128 block function makes of one 16-byte block.
pub uninterp spec fn aes128_decrypt_block_of(key: Seq<u8>, block: Seq<u8>) -> Seq<u8>;

/// The MD5 digest of a byte string.
pub uninterp spec fn md5_of(data: Seq<u8>) -> Seq<u8>;

/// The bytes that standard (padded) base64 decoding yields, or `None` where
/// the input is not valid standard base64.
pub uninterp spec fn base64_decoded_of(input: Seq<u8>) -> Option<Seq<u8>>;

/// The text that lossy UTF-8 decoding makes of a byte string.
pub uninterp spec fn utf8_lossy_of(bytes: Seq<u8>) -> Seq<char>;

/// Lower-case hexadecimal digit of a value below 16.
pub open spec fn hex_digit(n: u8) -> char {
    seq!['0', '1', '2', '3', '4', '5', '6', '7', '8', '9', 'a', 'b', 'c', 'd', 'e', 'f'][n as int]
}

/// Lower-case hexadecimal text of a byte string: two digits per byte, high nibble first.
pub open spec fn hex_chars(b: Seq<u8>) -> Seq<char> {
    Seq::new(
        2 * b.len(),
        |i: int|
            if i % 2 == 0 {
                hex_digit(b[i / 2] / 16)
            } else {
                hex_digit(b[i / 2] % 16)
            },
    )
}

/// Whether a byte is an ASCII hexadecimal digit of either case.
pub open spec fn is_hex_byte(c: u8) -> bool {
    (0x30 <= c <= 0x39) || (0x61 <= c <= 0x66) || (0x41 <= c <= 0x46)
}

/// The value of an ASCII hexadecimal digit.
pub open spec fn hex_value(c: u8) -> int {
    if 0x30 <= c <= 0x39 {
        c - 0x30
    } else if 0x61 <= c <= 0x66 {
        c - 0x61 + 10
    } else {
        c - 0x41 + 10
    }
}

/// Hex text that decodes: an even number of hexadecimal digits.
pub open spec fn is_hex_text(src: Seq<u8>) -> bool {
    src.len() % 2 == 0 && forall|i: int| 0 <= i < src.len() ==> is_hex_byte(#[trigger] src[i])
}

/// The bytes that hex text stands for, two digits per byte.
pub open spec fn hex_decoded(src: Seq<u8>) -> Seq<u8> {
    Seq::new(src.len() / 2, |i: int| (hex_value(src[2 * i]) * 16 + hex_value(src[2 * i + 1])) as u8)
}

/// The unsigned integer that four bytes encode, least significant first.
pub open spec fn le_u32(b: Seq<u8>) -> u32 {
    (b[0] as int + 256 * b[1] as int + 65536 * b[2] as int + 16777216 * b[3] as int) as u32
}

#[verifier::external_type_specification]
#[verifier::external_body]
pub struct ExHexError(faster_hex::Error);

#[verifier::external_type_specification]
#[verifier::external_body]
pub struct ExBase64DecodeError(base64::DecodeError);

/// Relies on libaes's `Cipher::cbc_encrypt` with padding switched off: over
/// one block and a zero IV it is the AES-128 block function, and the
/// inverse block function gives the block back.
#[verifier::external_body]
pub(crate) fn aes128_encrypt_block(key: &[u8; 16], block: &[u8]) -> (r: Vec<u8>)
    requires
        block@.len() == 16,
    ensures
        r@ == aes128_encrypt_block_of(key@, block@),
        r@.len() == 16,
        aes128_decrypt_block_of(key@, r@) == block@,
{
    let mut cipher = libaes::Cipher::new_128(key);
    cipher.set_auto_padding(false);
    cipher.cbc_encrypt(&[0u8; 16], block)
}

/// Relies on libaes's `Cipher::cbc_decrypt` with padding switched off: over
/// one block and a zero IV it is the inverse AES-128 block function.
#[verifier::external_body]
pub(crate) fn aes128_decrypt_block(key: &[u8; 16], block: &[u8]) -> (r: Vec<u8>)
    requires
        block@.len() == 16,
    ensures
        r@ == aes128_decrypt_block_of(key@, block@),
        r@.len() == 16,
{
    let mut cipher = libaes::Cipher::new_128(key);
    cipher.set_auto_padding(false);
    cipher.cbc_decrypt(&[0u8; 16], block)
}

/// Relies on `md5::compute`: the 16-byte MD5 digest of `data`.
#[verifier::external_body]
pub(crate) fn md5_digest(data: &[u8]) -> (r: [u8; 16])
    ensures
        r@ == md5_of(data@),
{
    md5::compute(data).0
}

/// Relies on `faster_hex::hex_string`: two lower-case hex digits per byte.
#[verifier::external_body]
pub(crate) fn hex_string(src: &[u8]) -> (r: String)
    ensures
        r@ == hex_chars(src@),
{
    faster_hex::hex_string(src)
}

/// Relies on `faster_hex::hex_decode` into a buffer of half the input's
/// length: it succeeds exactly on an even number of hex digits of either
/// case and then writes the bytes they stand for.
#[verifier::external_body]
pub(crate) fn hex_decode(src: &[u8]) -> (r: Result<Vec<u8>, faster_hex::Error>)
    ensures
        r is Ok <==> is_hex_text(src@),
        r is Ok ==> r->Ok_0@ == hex_decoded(src@),
{
    let mut dst = vec![0u8; src.len() / 2];
    faster_hex::hex_decode(src, &mut dst).map(|_| dst)
}

/// Relies on the `decode` of base64's standard engine (padded alphabet).
#[verifier::external_body]
pub(crate) fn base64_decode(input: &[u8]) -> (r: Result<Vec<u8>, base64::DecodeError>)
    ensures
        r is Ok <==> base64_decoded_of(input@) is Some,
        r is Ok ==> base64_decoded_of(input@) == Some(r->Ok_0@),
{
    base64::engine::general_purpose::STANDARD.decode(input)
}

/// Relies on byteorder's `LittleEndian::read_u32`, which reads the first
/// four bytes of `buf`.
#[verifier::external_body]
pub(crate) fn read_u32_le(buf: &[u8]) -> (r: u32)
    requires
        buf@.len() >= 4,
    ensures
        r == le_u32(buf@),
{
    byteorder::LittleEndian::read_u32(buf)
}

/// Relies on `String::from_utf8_lossy`: valid UTF-8 comes back as the text
/// it encodes; other input has its invalid sequences replaced.
#[verifier::external_body]
pub(crate) fn utf8_lossy(bytes: &[u8]) -> (r: String)
    ensures
        r@ == utf8_lossy_of(bytes@),
        valid_utf8(bytes@) ==> r@ == decode_utf8(bytes@),
{
    String::from_utf8_lossy(bytes).into_owned()
}

} // verus!
