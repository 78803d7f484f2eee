//! Request cryptography of the remote track API: bodies are signed with an
//! MD5 digest, encrypted with a fixed AES-128 key in ECB mode and sent as
//! lower-case hex; responses that are not plain JSON are decrypted with the
//! same key.
use crate::ecb::{ecb_decrypt, ecb_decrypt_spec, ecb_encrypt, ecb_encrypt_spec};
use crate::primitives::{
    hex_chars, hex_decode, hex_decoded, hex_digit, hex_string, hex_value, is_hex_byte,
    is_hex_text, md5_digest, md5_of, utf8_lossy, utf8_lossy_of,
};
use vstd::prelude::*;
use vstd::slice::slice_to_vec;
use vstd::string::*;
use vstd::utf8::*;

verus! {

/// The fixed key of the request cipher (the ASCII text `e82ckenh8dichen8`).
pub open spec fn eapi_key_spec() -> Seq<u8> {
    seq![
        0x65u8, 0x38, 0x32, 0x63, 0x6b, 0x65, 0x6e, 0x68, 0x38, 0x64, 0x69, 0x63, 0x68, 0x65, 0x6e,
        0x38,
    ]
}

fn eapi_key() -> (r: [u8; 16])
    ensures
        r@ == eapi_key_spec(),
{
    let r = [
        0x65u8, 0x38, 0x32, 0x63, 0x6b, 0x65, 0x6e, 0x68, 0x38, 0x64, 0x69, 0x63, 0x68, 0x65, 0x6e,
        0x38,
    ];
    assert(r@ =~= eapi_key_spec());
    r
}

/// The text whose MD5 digest signs a request.
pub open spec fn eapi_digest_input(url: Seq<char>, data: Seq<char>) -> Seq<char> {
    "nobody"@ + url + "use"@ + data + "md5forencrypt"@
}

/// The signed plaintext of a request: path, separator, body, separator and
/// the hex digest of [`eapi_digest_input`].
pub open spec fn eapi_request_plaintext(url: Seq<char>, data: Seq<char>) -> Seq<char> {
    url + "-36cd479b6b5-"@ + data + "-36cd479b6b5-"@ + hex_chars(
        md5_of(encode_utf8(eapi_digest_input(url, data))),
    )
}

/// The encrypted request: the signed plaintext under the fixed key.
pub open spec fn eapi_request_ciphertext(url: Seq<char>, data: Seq<char>) -> Seq<u8> {
    ecb_encrypt_spec(eapi_key_spec(), encode_utf8(eapi_request_plaintext(url, data)))
}

/// The text that [`eapi_decrypt`] makes of a response body.
pub open spec fn eapi_decrypt_spec(data: Seq<u8>) -> Seq<char> {
    utf8_lossy_of(ecb_decrypt_spec(eapi_key_spec(), data))
}

/// A hex-decoding failure of [`tauri_eapi_decrypt`].
#[derive(Clone, Copy, Debug, PartialEq, Eq, Structural)]
pub enum HexError {
    /// An odd number of digits; holds the number of digits that would have been used.
    InvalidLength(usize),
    /// A byte that is not a hexadecimal digit.
    InvalidChar,
}

/// Encrypts the UTF-8 bytes of `data` under the fixed key; decrypting the
/// result gives those bytes back.
pub fn eapi_encrypt(data: &str) -> (r: Vec<u8>)
    ensures
        r@ == ecb_encrypt_spec(eapi_key_spec(), data.spec_bytes()),
        r@.len() == 16 * (data.spec_bytes().len() / 16 + 1),
        ecb_decrypt_spec(eapi_key_spec(), r@) == data.spec_bytes(),
{
    let key = eapi_key();
    ecb_encrypt(&key, data.as_bytes())
}

/// [`eapi_encrypt`] as lower-case hex text; hex-decoding and decrypting the
/// result gives the bytes of `data` back.
pub fn tauri_eapi_encrypt(data: &str) -> (r: String)
    ensures
        r@ == hex_chars(ecb_encrypt_spec(eapi_key_spec(), data.spec_bytes())),
        r@.len() == 32 * (data.spec_bytes().len() / 16 + 1),
        is_hex_text(encode_utf8(r@)),
        ecb_decrypt_spec(eapi_key_spec(), hex_decoded(encode_utf8(r@))) == data.spec_bytes(),
{
    let enc = eapi_encrypt(data);
    let r = hex_string(enc.as_slice());
    proof {
        lemma_hex_round_trip(enc@);
    }
    r
}

proof fn lemma_hex_digit(n: u8)
    requires
        n < 16,
    ensures
        is_hex_byte(hex_digit(n) as u8),
        hex_value(hex_digit(n) as u8) == n,
        '\0' <= hex_digit(n) <= '\u{7f}',
{
    if n == 0 {} else if n == 1 {} else if n == 2 {} else if n == 3 {} else if n == 4 {
    } else if n == 5 {} else if n == 6 {} else if n == 7 {} else if n == 8 {} else if n == 9 {
    } else if n == 10 {} else if n == 11 {} else if n == 12 {} else if n == 13 {
    } else if n == 14 {} else {}
}

/// Hex text is ASCII, and decoding its bytes gives the encoded bytes back.
pub proof fn lemma_hex_round_trip(b: Seq<u8>)
    ensures
        is_ascii_chars(hex_chars(b)),
        is_hex_text(encode_utf8(hex_chars(b))),
        hex_decoded(encode_utf8(hex_chars(b))) == b,
{
    let h = hex_chars(b);
    assert forall|i: int| 0 <= i < h.len() implies '\0' <= #[trigger] h[i] <= '\u{7f}'
        && is_hex_byte(h[i] as u8) && hex_value(h[i] as u8) == if i % 2 == 0 {
        b[i / 2] / 16
    } else {
        b[i / 2] % 16
    } by {
        lemma_hex_digit(b[i / 2] / 16);
        lemma_hex_digit(b[i / 2] % 16);
    }
    is_ascii_chars_encode_utf8(h);
    let e = encode_utf8(h);
    assert forall|i: int| 0 <= i < e.len() implies is_hex_byte(#[trigger] e[i]) by {
        assert(h[i] as u8 == e[i]);
    }
    let d = hex_decoded(e);
    assert forall|i: int| 0 <= i < b.len() implies d[i] == b[i] by {
        assert(h[2 * i] as u8 == e[2 * i]);
        assert(h[2 * i + 1] as u8 == e[2 * i + 1]);
        assert((2 * i) / 2 == i);
        assert((2 * i + 1) / 2 == i);
        let x = b[i];
        assert((x / 16) * 16 + x % 16 == x);
    }
    assert(d =~= b);
}

/// Signs and encrypts a request body for the API path `url`: the result is
/// the hex text of the encrypted signed plaintext. Hex-decoding and
/// decrypting it gives back the plaintext, which holds `url`, `data` and the
/// digest of `"nobody" + url + "use" + data + "md5forencrypt"`.
pub fn eapi_encrypt_for_request(url: &str, data: &str) -> (r: String)
    ensures
        r@ == hex_chars(eapi_request_ciphertext(url@, data@)),
        r@.len() == 32 * ((url.spec_bytes().len() + data.spec_bytes().len() + 58) / 16 + 1),
        is_hex_text(encode_utf8(r@)),
        ecb_decrypt_spec(eapi_key_spec(), hex_decoded(encode_utf8(r@))) == encode_utf8(
            eapi_request_plaintext(url@, data@),
        ),
{
    let mut msg = String::from_str("nobody");
    msg.append(url);
    msg.append("use");
    msg.append(data);
    msg.append("md5forencrypt");
    let hash = md5_digest(msg.as_str().as_bytes());
    let hash_hex = hex_string(hash.as_slice());
    let mut text = String::from_str(url);
    text.append("-36cd479b6b5-");
    text.append(data);
    text.append("-36cd479b6b5-");
    text.append(hash_hex.as_str());
    assert(text@ == eapi_request_plaintext(url@, data@));
    let key = eapi_key();
    let enc = ecb_encrypt(&key, text.as_str().as_bytes());
    let r = hex_string(enc.as_slice());
    proof {
        lemma_hex_round_trip(enc@);
        lemma_hex_round_trip(hash@);
        reveal_strlit("-36cd479b6b5-");
        let sep = "-36cd479b6b5-"@;
        assert(is_ascii_chars(sep));
        is_ascii_chars_encode_utf8(sep);
        is_ascii_chars_encode_utf8(hash_hex@);
        lemma_encode_utf8_concat(url@, sep);
        lemma_encode_utf8_concat(url@ + sep, data@);
        lemma_encode_utf8_concat(url@ + sep + data@, sep);
        lemma_encode_utf8_concat(url@ + sep + data@ + sep, hash_hex@);
    }
    r
}

proof fn lemma_encode_utf8_concat(a: Seq<char>, b: Seq<char>)
    ensures
        encode_utf8(a + b) == encode_utf8(a) + encode_utf8(b),
    decreases a.len(),
{
    if a.len() == 0 {
        assert(a + b =~= b);
        assert(encode_utf8(a) + encode_utf8(b) =~= encode_utf8(b));
    } else {
        assert((a + b).drop_first() =~= a.drop_first() + b);
        assert((a + b)[0] == a[0]);
        lemma_encode_utf8_concat(a.drop_first(), b);
        assert(encode_utf8(a + b) =~= encode_utf8(a) + encode_utf8(b));
    }
}

/// Decrypts a response body with the fixed key and reads it as UTF-8,
/// lossily; decrypted bytes that are valid UTF-8 give exactly their text.
pub fn eapi_decrypt(data: &[u8]) -> (r: String)
    ensures
        r@ == eapi_decrypt_spec(data@),
        valid_utf8(ecb_decrypt_spec(eapi_key_spec(), data@)) ==> r@ == decode_utf8(
            ecb_decrypt_spec(eapi_key_spec(), data@),
        ),
{
    let key = eapi_key();
    let dec = ecb_decrypt(&key, data);
    utf8_lossy(dec.as_slice())
}

/// Hex-decodes `data` and decrypts it with [`eapi_decrypt`]; empty text
/// decrypts to empty text.
pub fn tauri_eapi_decrypt(data: &str) -> (r: Result<String, HexError>)
    ensures
        data@.len() == 0 ==> r is Ok && r->Ok_0@.len() == 0,
        data@.len() > 0 && data.spec_bytes().len() % 2 == 1 ==> r == Err::<String, HexError>(
            HexError::InvalidLength(((data.spec_bytes().len() / 2) * 2) as usize),
        ),
        data@.len() > 0 && data.spec_bytes().len() % 2 == 0 && !is_hex_text(data.spec_bytes())
            ==> r == Err::<String, HexError>(HexError::InvalidChar),
        data@.len() > 0 && is_hex_text(data.spec_bytes()) ==> r is Ok && r->Ok_0@
            == eapi_decrypt_spec(hex_decoded(data.spec_bytes())),
        data@.len() > 0 && is_hex_text(data.spec_bytes()) && valid_utf8(
            ecb_decrypt_spec(eapi_key_spec(), hex_decoded(data.spec_bytes())),
        ) ==> r is Ok && r->Ok_0@ == decode_utf8(
            ecb_decrypt_spec(eapi_key_spec(), hex_decoded(data.spec_bytes())),
        ),
{
    if data.is_empty() {
        return Ok(String::new());
    }
    let bytes = data.as_bytes();
    if bytes.len() % 2 == 1 {
        return Err(HexError::InvalidLength((bytes.len() / 2) * 2));
    }
    match hex_decode(bytes) {
        Ok(buf) => Ok(eapi_decrypt(buf.as_slice())),
        Err(_) => Err(HexError::InvalidChar),
    }
}

/// The UTF-8 bytes of any text are valid UTF-8 and decode to that text:
/// with the round-trip clauses of the encrypting functions, decrypting what
/// they produce gives the text back.
pub proof fn lemma_text_round_trip(text: Seq<char>)
    ensures
        valid_utf8(encode_utf8(text)),
        decode_utf8(encode_utf8(text)) == text,
{
    encode_utf8_valid_utf8(text);
    encode_utf8_decode_utf8(text);
}

/// Whether `s` begins with `p`.
pub open spec fn has_prefix(s: Seq<char>, p: Seq<char>) -> bool {
    p.len() <= s.len() && s.take(p.len() as int) == p
}

/// `s` with every leading repetition of the non-empty `p` removed.
pub open spec fn strip_prefixes(s: Seq<char>, p: Seq<char>) -> Seq<char>
    decreases s.len(),
{
    if p.len() > 0 && has_prefix(s, p) {
        strip_prefixes(s.skip(p.len() as int), p)
    } else {
        s
    }
}

/// Relies on `str::starts_with` with a string pattern.
#[verifier::external_body]
fn str_starts_with(s: &str, p: &str) -> (r: bool)
    ensures
        r == has_prefix(s@, p@),
{
    s.starts_with(p)
}

/// Relies on `str::trim_start_matches` with a string pattern: every prefix
/// that matches is removed, repeatedly.
#[verifier::external_body]
fn str_trim_start_matches<'a>(s: &'a str, p: &str) -> (r: &'a str)
    requires
        p@.len() > 0,
    ensures
        r@ == strip_prefixes(s@, p@),
{
    s.trim_start_matches(p)
}

/// The body of a request to the remote API and how it is sent.
pub struct EapiRequestBody {
    /// The bytes to post.
    pub body: Vec<u8>,
    /// `true`: url-encoded form content holding the encrypted request;
    /// `false`: the JSON text as it came.
    pub form_encoded: bool,
}

/// Prepares the body of a request to the API path `path` with the JSON text
/// `json`: paths under `/eapi` are signed and encrypted for the matching
/// `/api` path; other requests go out as plain JSON.
pub fn eapi_request_body(path: &str, json: &str) -> (r: EapiRequestBody)
    ensures
        r.form_encoded == has_prefix(path@, "/eapi"@),
        r.form_encoded ==> r.body@ == encode_utf8(
            hex_chars(eapi_request_ciphertext("/api"@ + strip_prefixes(path@, "/eapi"@), json@)),
        ),
        !r.form_encoded ==> r.body@ == json.spec_bytes(),
{
    if str_starts_with(path, "/eapi") {
        proof {
            reveal_strlit("/eapi");
        }
        let rest = str_trim_start_matches(path, "/eapi");
        let mut api_path = String::from_str("/api");
        api_path.append(rest);
        let enc = eapi_encrypt_for_request(api_path.as_str(), json);
        let body = slice_to_vec(enc.as_str().as_bytes());
        EapiRequestBody { body, form_encoded: true }
    } else {
        EapiRequestBody { body: slice_to_vec(json.as_bytes()), form_encoded: false }
    }
}

/// Whether a response body is already plain JSON rather than encrypted: its
/// first byte is `{`.
pub fn eapi_response_is_plain(res: &[u8]) -> (r: bool)
    ensures
        r == (res@.len() > 0 && res@[0] == 0x7bu8),
{
    res.len() > 0 && res[0] == 0x7b
}

/// The form body that asks the API for the playable URL of track `ncm_id`.
pub open spec fn song_url_form_spec(ncm_id: Seq<char>) -> Seq<char> {
    "params="@ + hex_chars(
        eapi_request_ciphertext(
            "/api/song/enhance/player/url/v1"@,
            "{\"ids\":\"["@ + ncm_id + "]\",\"level\":\"hires\",\"encodeType\":\"flac\"}"@,
        ),
    )
}

/// Builds the form body that asks the API for the playable URL of a track
/// (highest quality, FLAC).
pub fn song_url_form(ncm_id: &str) -> (r: String)
    ensures
        r@ == song_url_form_spec(ncm_id@),
{
    let mut post = String::from_str("{\"ids\":\"[");
    post.append(ncm_id);
    post.append("]\",\"level\":\"hires\",\"encodeType\":\"flac\"}");
    let enc = eapi_encrypt_for_request("/api/song/enhance/player/url/v1", post.as_str());
    let mut r = String::from_str("params=");
    r.append(enc.as_str());
    r
}

} // verus!
