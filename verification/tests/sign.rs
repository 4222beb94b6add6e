use ed25519_dalek::{Signer as _, SigningKey};
use skin_trader::dmarket::sign::{SignError, Signer, SIGNATURE_PREFIX};

const RFC8032_TEST1_SECRET: &str = "9d61b19deffd5a60ba844af492ec2cc44449c5697b326919703bac031cae7f60";
const RFC8032_TEST1_SIGNATURE: &str = "e5564300c360ac729086e2cc806e828a84877f1eb8e5d974d873e065224901555fb8821590a33bacc61e39701cf9b46bd25bf5f0595bbe24655141438e7a100b";

#[test]
fn empty_request_signs_like_the_rfc_vector() {
    let signer = Signer::new(RFC8032_TEST1_SECRET, "key".to_string()).unwrap();
    let h = signer.headers_for("", "", None, "", "").unwrap();
    assert_eq!(h.api_key, "key");
    assert_eq!(h.sign_date, "");
    assert_eq!(h.request_sign, format!("{SIGNATURE_PREFIX}{RFC8032_TEST1_SIGNATURE}"));
}

#[test]
fn uppercase_secret_is_the_same_key() {
    let lower = Signer::new(RFC8032_TEST1_SECRET, "k".to_string()).unwrap();
    let upper = Signer::new(&RFC8032_TEST1_SECRET.to_uppercase(), "k".to_string()).unwrap();
    let a = lower.headers_for("GET", "/account/v1/balance", None, "", "1700000000").unwrap();
    let b = upper.headers_for("GET", "/account/v1/balance", None, "", "1700000000").unwrap();
    assert_eq!(a.request_sign, b.request_sign);
}

#[test]
fn signed_text_runs_parts_together() {
    let s = Signer::new(RFC8032_TEST1_SECRET, "k".to_string()).unwrap();
    let split = s.headers_for("GET", "/a", Some("b=1"), "{}", "17").unwrap();
    let joined = s.headers_for("GET/ab=1{}", "", None, "", "17").unwrap();
    assert_eq!(split.request_sign, joined.request_sign);
    let other = s.headers_for("GET", "/a", Some("b=2"), "{}", "17").unwrap();
    assert_ne!(split.request_sign, other.request_sign);
    assert_eq!(split.sign_date, "17");
    assert!(split.request_sign.starts_with("dmar ed25519 "));
    assert_eq!(split.request_sign.len(), "dmar ed25519 ".len() + 128);
}

#[test]
fn bad_secrets_are_refused() {
    assert_eq!(Signer::new("abc", "k".to_string()).err(), Some(SignError::HexDecode));
    assert_eq!(Signer::new("zz", "k".to_string()).err(), Some(SignError::HexDecode));
    match Signer::new("abcd", "k".to_string()) {
        Err(SignError::SigningKey(_)) => {}
        other => panic!("unexpected {:?}", other.err()),
    }
}

#[test]
fn url_path_and_query_are_signed() {
    let s = Signer::new(RFC8032_TEST1_SECRET, "k".to_string()).unwrap();
    let h = s
        .generate_headers("GET", "https://api.dmarket.com/exchange/v1/market/items?gameId=a8db&limit=100", "", "1700000000")
        .unwrap();
    let key: [u8; 32] = hex::decode(RFC8032_TEST1_SECRET).unwrap().try_into().unwrap();
    let text = "GET/exchange/v1/market/itemsgameId=a8db&limit=1001700000000";
    let expected = format!("dmar ed25519 {}", hex::encode(SigningKey::from_bytes(&key).sign(text.as_bytes()).to_bytes()));
    assert_eq!(h.request_sign, expected);
    assert_eq!(h.sign_date, "1700000000");
    let plain = s.generate_headers("POST", "https://api.dmarket.com/account/v1/balance", "{}", "5").unwrap();
    let direct = s.headers_for("POST", "/account/v1/balance", None, "{}", "5").unwrap();
    assert_eq!(plain.request_sign, direct.request_sign);
}

#[test]
fn bad_urls_are_refused() {
    let s = Signer::new(RFC8032_TEST1_SECRET, "k".to_string()).unwrap();
    assert_eq!(s.generate_headers("GET", "/relative/path", "", "1").err(), Some(SignError::Parse));
}

#[test]
fn api_keys_that_are_no_header_values_are_refused() {
    let url = "https://api.dmarket.com/account/v1/balance";
    let newline = Signer::new(RFC8032_TEST1_SECRET, "bad\nkey".to_string()).unwrap();
    assert_eq!(newline.generate_headers("GET", url, "", "1").err(), Some(SignError::InvalidHeader));
    let delete = Signer::new(RFC8032_TEST1_SECRET, "bad\u{7f}".to_string()).unwrap();
    assert_eq!(delete.headers_for("GET", "/a", None, "", "1").err(), Some(SignError::InvalidHeader));
    let s = Signer::new(RFC8032_TEST1_SECRET, "k".to_string()).unwrap();
    assert_eq!(s.generate_headers("GET", url, "", "1\r").err(), Some(SignError::InvalidHeader));
    assert_eq!(s.generate_headers("GET", "not a url", "", "1\r").err(), Some(SignError::Parse));
}

#[test]
fn tabs_and_non_ascii_keys_are_header_values() {
    let tab = Signer::new(RFC8032_TEST1_SECRET, "a\tb".to_string()).unwrap();
    assert_eq!(tab.headers_for("GET", "/a", None, "", "1").unwrap().api_key, "a\tb");
    let accented = Signer::new(RFC8032_TEST1_SECRET, "clé".to_string()).unwrap();
    assert_eq!(accented.headers_for("GET", "/a", None, "", "1").unwrap().api_key, "clé");
}
