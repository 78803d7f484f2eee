use mrbncm::eapi::{
    eapi_decrypt, eapi_encrypt, eapi_encrypt_for_request, eapi_request_body,
    eapi_response_is_plain, song_url_form, tauri_eapi_decrypt, tauri_eapi_encrypt, HexError,
};

fn hex_of(b: &[u8]) -> String {
    b.iter().map(|x| format!("{:02x}", x)).collect()
}

fn unhex(s: &str) -> Vec<u8> {
    (0..s.len() / 2)
        .map(|i| u8::from_str_radix(&s[2 * i..2 * i + 2], 16).unwrap())
        .collect()
}

#[test]
fn signed_request_decrypts_to_path_body_and_digest() {
    let url = "/api/song/enhance/player/url/v1";
    let data = "{\"ids\":\"[1234]\",\"level\":\"hires\"}";
    let hex = eapi_encrypt_for_request(url, data);
    let digest = md5::compute(format!("nobody{url}use{data}md5forencrypt"));
    let expected = format!("{url}-36cd479b6b5-{data}-36cd479b6b5-{}", hex_of(&digest.0));
    assert_eq!(tauri_eapi_decrypt(&hex).unwrap(), expected);
}

#[test]
fn signed_request_is_deterministic() {
    let a = eapi_encrypt_for_request("/api/x", "{\"a\":1}");
    let b = eapi_encrypt_for_request("/api/x", "{\"a\":1}");
    assert_eq!(a, b);
    assert_ne!(a, eapi_encrypt_for_request("/api/x", "{\"a\":2}"));
    assert!(a.chars().all(|c| c.is_ascii_hexdigit() && !c.is_ascii_uppercase()));
    assert_eq!(a.len() % 32, 0);
}

#[test]
fn encrypt_then_decrypt_round_trips() {
    let text = "héllo, wörld";
    let enc = eapi_encrypt(text);
    assert_eq!(enc.len() % 16, 0);
    assert_eq!(eapi_decrypt(&enc), text);
}

#[test]
fn encrypted_lengths_are_whole_padded_blocks() {
    for n in [0usize, 1, 15, 16, 17, 40] {
        let text = "x".repeat(n);
        assert_eq!(eapi_encrypt(&text).len(), 16 * (n / 16 + 1));
        assert_eq!(tauri_eapi_encrypt(&text).len(), 32 * (n / 16 + 1));
    }
    let url = "/api/song/détail";
    let data = "{\"id\":\"ü\"}";
    let hex = eapi_encrypt_for_request(url, data);
    assert_eq!(hex.len(), 32 * ((url.len() + data.len() + 58) / 16 + 1));
}

#[test]
fn hex_encrypt_is_the_hex_of_encrypt() {
    let text = "payload";
    assert_eq!(tauri_eapi_encrypt(text), hex_of(&eapi_encrypt(text)));
    assert_eq!(unhex(&tauri_eapi_encrypt(text)), eapi_encrypt(text));
}

#[test]
fn decrypt_accepts_upper_case_hex() {
    let hex = tauri_eapi_encrypt("Upper");
    assert_eq!(tauri_eapi_decrypt(&hex.to_uppercase()).unwrap(), "Upper");
}

#[test]
fn decrypt_of_empty_text_is_empty() {
    assert_eq!(tauri_eapi_decrypt("").unwrap(), "");
}

#[test]
fn decrypt_rejects_odd_length() {
    assert_eq!(tauri_eapi_decrypt("abc"), Err(HexError::InvalidLength(2)));
}

#[test]
fn decrypt_rejects_non_hex() {
    assert_eq!(tauri_eapi_decrypt("zz"), Err(HexError::InvalidChar));
}

#[test]
fn decrypt_of_partial_block_is_empty_text() {
    assert_eq!(eapi_decrypt(&[1, 2, 3]), "");
}

#[test]
fn eapi_paths_are_signed_for_the_api_path() {
    let json = "{\"id\":5}";
    let body = eapi_request_body("/eapi/song/detail", json);
    assert!(body.form_encoded);
    assert_eq!(body.body, eapi_encrypt_for_request("/api/song/detail", json).into_bytes());
    let twice = eapi_request_body("/eapi/eapi/song/detail", json);
    assert_eq!(twice.body, body.body);
}

#[test]
fn other_paths_go_out_as_plain_json() {
    let json = "{\"id\":5}";
    let body = eapi_request_body("/api/song/detail", json);
    assert!(!body.form_encoded);
    assert_eq!(body.body, json.as_bytes().to_vec());
}

#[test]
fn responses_starting_with_a_brace_are_plain() {
    assert!(eapi_response_is_plain(b"{\"code\":200}"));
    assert!(!eapi_response_is_plain(b"\x8a\x01"));
    assert!(!eapi_response_is_plain(b""));
}

#[test]
fn song_url_form_holds_the_signed_query() {
    let form = song_url_form("1234");
    assert!(form.starts_with("params="));
    let inner = &form["params=".len()..];
    let expected = eapi_encrypt_for_request(
        "/api/song/enhance/player/url/v1",
        "{\"ids\":\"[1234]\",\"level\":\"hires\",\"encodeType\":\"flac\"}",
    );
    assert_eq!(inner, expected);
}
