//! Request signing for the DMarket API: an Ed25519 signature over
//! method, path, query, body and timestamp, sent hex-encoded in headers.
use crate::text::chars_of;
use ed25519_dalek::{Signer as _, SigningKey};
use hex::FromHexError;
use url::{ParseError, Url};
use vstd::prelude::*;

verus! {

pub const HEADER_API_KEY: &'static str = "X-Api-Key";
pub const HEADER_REQUEST_SIGN: &'static str = "X-Request-Sign";
pub const HEADER_SIGN_DATE: &'static str = "X-Sign-Date";
pub const SIGNATURE_PREFIX: &'static str = "dmar ed25519 ";

/// Length of an Ed25519 secret key, in bytes.
pub const SECRET_KEY_LENGTH: usize = 32;

#[verifier::external_type_specification]
#[verifier::external_body]
pub struct ExFromHexError(FromHexError);

#[verifier::external_type_specification]
#[verifier::external_body]
pub struct ExUrlParseError(ParseError);

/// The path and the query (if any) of the URL `url`, as the WHATWG URL
/// standard parses it; nothing when it is not a valid absolute URL.
pub uninterp spec fn url_path_and_query(url: Seq<char>) -> Option<(Seq<char>, Option<Seq<char>>)>;

/// The characters of an optional owned string.
pub open spec fn opt_string_view(s: Option<String>) -> Option<Seq<char>> {
    match s {
        Some(t) => Some(t@),
        None => None,
    }
}

/// `Url::parse`, then `Url::path` and `Url::query` of the parsed URL.
#[verifier::external_body]
fn parse_path_and_query(url: &str) -> (r: Result<(String, Option<String>), ParseError>)
    ensures
        match r {
            Ok((path, query)) => url_path_and_query(url@) == Some((path@, opt_string_view(query))),
            Err(_) => url_path_and_query(url@) is None,
        },
{
    let parsed = Url::parse(url)?;
    Ok((parsed.path().to_string(), parsed.query().map(|q| q.to_string())))
}

/// The value of one hexadecimal digit, either case.
pub open spec fn hex_digit_value(b: u8) -> Option<int> {
    if 0x30 <= b <= 0x39 {
        Some(b - 0x30)
    } else if 0x41 <= b <= 0x46 {
        Some(b - 0x41 + 10)
    } else if 0x61 <= b <= 0x66 {
        Some(b - 0x61 + 10)
    } else {
        None
    }
}

/// What `hex::decode` gives: for an even number of hex digits, one byte per
/// pair (high digit first); nothing for anything else.
pub open spec fn hex_decode_spec(text: Seq<u8>) -> Option<Seq<u8>> {
    if text.len() % 2 == 0 && forall|i: int| 0 <= i < text.len() ==> (#[trigger] hex_digit_value(text[i])) is Some {
        Some(
            Seq::new(
                text.len() / 2,
                |i: int| (hex_digit_value(text[2 * i])->0 * 16 + hex_digit_value(text[2 * i + 1])->0) as u8,
            ),
        )
    } else {
        None
    }
}

/// The lowercase hex digit for a value below 16.
pub open spec fn hex_char(v: int) -> char {
    if v < 10 {
        ((v + 0x30) as u32) as char
    } else {
        ((v - 10 + 0x61) as u32) as char
    }
}

/// What `hex::encode` gives: two lowercase hex digits per byte, high digit first.
pub open spec fn hex_encode_spec(bytes: Seq<u8>) -> Seq<char> {
    Seq::new(
        2 * bytes.len(),
        |i: int|
            if i % 2 == 0 {
                hex_char(bytes[i / 2] as int / 16)
            } else {
                hex_char(bytes[i / 2] as int % 16)
            },
    )
}

/// The Ed25519 signature (RFC 8032) of `message` under the 32-byte `secret`.
pub uninterp spec fn ed25519_signature(secret: Seq<u8>, message: Seq<u8>) -> Seq<u8>;

/// `hex::decode` on the bytes of `text`: even-length runs of hex digits of
/// either case decode to one byte per pair; anything else is an error.
#[verifier::external_body]
fn hex_decode(text: &str) -> (r: Result<Vec<u8>, FromHexError>)
    ensures
        match r {
            Ok(bytes) => hex_decode_spec(vstd::utf8::encode_utf8(text@)) == Some(bytes@),
            Err(_) => hex_decode_spec(vstd::utf8::encode_utf8(text@)) is None,
        },
{
    hex::decode(text)
}

/// `hex::encode`: two lowercase hex digits per byte.
#[verifier::external_body]
fn hex_encode(bytes: &[u8]) -> (s: String)
    ensures
        s@ == hex_encode_spec(bytes@),
{
    hex::encode(bytes)
}

/// `SigningKey::from_bytes` on the secret, then `Signer::sign` on the message,
/// then `Signature::to_bytes`: the 64-byte Ed25519 signature, which the
/// algorithm fixes given the secret and the message.
#[verifier::external_body]
fn ed25519_sign(secret: &[u8], message: &[u8]) -> (sig: Vec<u8>)
    requires
        secret@.len() == SECRET_KEY_LENGTH,
    ensures
        sig@ == ed25519_signature(secret@, message@),
        sig@.len() == 64,
{
    let key: [u8; 32] = secret.try_into().unwrap();
    SigningKey::from_bytes(&key).sign(message).to_bytes().to_vec()
}

/// Why a signer could not be made from its configuration.
#[derive(Debug, PartialEq, Eq)]
pub enum SignError {
    /// The secret key is not an even-length string of hex digits.
    HexDecode,
    /// The secret key decodes to the wrong number of bytes.
    SigningKey(String),
    /// The request URL does not parse.
    Parse,
    /// The API key or the timestamp holds a character a header value cannot.
    InvalidHeader,
}

/// A character a header value may hold: a tab, or anything from the space up
/// except DEL. (`HeaderValue::from_str` checks the UTF-8 bytes for the same
/// rule; every byte of a character above ASCII passes it, so checking the
/// characters decides the same.)
pub open spec fn header_char_ok(c: char) -> bool {
    c == '\t' || (32 <= (c as u32) && (c as u32) != 127)
}

/// Whether `s` is a valid header value.
pub open spec fn header_value_ok(s: Seq<char>) -> bool {
    forall|i: int| 0 <= i < s.len() ==> header_char_ok(#[trigger] s[i])
}

/// Whether `s` is a valid header value.
pub fn is_header_value(s: &str) -> (r: bool)
    ensures
        r == header_value_ok(s@),
{
    let chars = chars_of(s);
    let mut i: usize = 0;
    while i < chars.len()
        invariant
            chars@ == s@,
            i <= chars@.len(),
            forall|k: int| 0 <= k < i ==> header_char_ok(#[trigger] s@[k]),
        decreases chars@.len() - i,
    {
        let c = chars[i];
        let code = c as u32;
        if !(c == '\t' || (32 <= code && code != 127)) {
            assert(!header_char_ok(s@[i as int]));
            return false;
        }
        i = i + 1;
    }
    true
}

/// The three signing headers of one request.
#[derive(Debug)]
pub struct SignedHeaders {
    pub api_key: String,
    pub request_sign: String,
    pub sign_date: String,
}

/// The characters of an optional string.
pub open spec fn opt_str_view(s: Option<&str>) -> Option<Seq<char>> {
    match s {
        Some(t) => Some(t@),
        None => None,
    }
}

/// The text that gets signed: method, path, query (if any), body and
/// timestamp, run together.
pub open spec fn unsigned_string_spec(
    method: Seq<char>,
    path: Seq<char>,
    query: Option<Seq<char>>,
    body: Seq<char>,
    timestamp: Seq<char>,
) -> Seq<char> {
    let q = match query {
        Some(q) => q,
        None => Seq::<char>::empty(),
    };
    method + path + q + body + timestamp
}

/// Signs DMarket requests with the account's key.
pub struct Signer {
    secret: Vec<u8>,
    api_key: String,
}

impl Signer {
    pub closed spec fn secret(&self) -> Seq<u8> {
        self.secret@
    }

    pub closed spec fn api_key(&self) -> Seq<char> {
        self.api_key@
    }

    /// The secret is an Ed25519 secret key.
    pub closed spec fn well_formed(&self) -> bool {
        self.secret@.len() == SECRET_KEY_LENGTH
    }

    /// A signer for the hex-encoded `secret_key` and the `api_key`: the key
    /// must be 64 hex digits.
    pub fn new(secret_key: &str, api_key: String) -> (r: Result<Signer, SignError>)
        ensures
            match hex_decode_spec(vstd::utf8::encode_utf8(secret_key@)) {
                None => r == Err::<Signer, SignError>(SignError::HexDecode),
                Some(bytes) => if bytes.len() == SECRET_KEY_LENGTH {
                    r matches Ok(s) && s.well_formed() && s.secret() == bytes && s.api_key() == api_key@
                } else {
                    r is Err && r->Err_0 is SigningKey
                },
            },
    {
        let secret = create_signing_key(secret_key)?;
        Ok(Signer { secret, api_key })
    }

    /// The signing headers for a request to `url` made at `timestamp`: the
    /// signed text takes the URL's path and query.
    pub fn generate_headers(&self, method: &str, url: &str, body: &str, timestamp: &str) -> (r: Result<SignedHeaders, SignError>)
        requires
            self.well_formed(),
        ensures
            match url_path_and_query(url@) {
                None => r == Err::<SignedHeaders, SignError>(SignError::Parse),
                Some((path, query)) => if header_value_ok(self.api_key()) && header_value_ok(timestamp@) {
                    r matches Ok(h) && h.api_key@ == self.api_key() && h.sign_date@ == timestamp@
                        && h.request_sign@ == SIGNATURE_PREFIX@ + hex_encode_spec(
                        ed25519_signature(
                            self.secret(),
                            vstd::utf8::encode_utf8(unsigned_string_spec(method@, path, query, body@, timestamp@)),
                        ),
                    )
                } else {
                    r == Err::<SignedHeaders, SignError>(SignError::InvalidHeader)
                },
            },
    {
        let (path, query) = match parse_path_and_query(url) {
            Ok(parts) => parts,
            Err(_) => return Err(SignError::Parse),
        };
        let q: Option<&str> = match &query {
            Some(q) => Some(q.as_str()),
            None => None,
        };
        self.headers_for(method, path.as_str(), q, body, timestamp)
    }

    /// The signing headers for a request made at `timestamp`; the API key and
    /// the timestamp must be valid header values.
    pub fn headers_for(&self, method: &str, path: &str, query: Option<&str>, body: &str, timestamp: &str) -> (r: Result<SignedHeaders, SignError>)
        requires
            self.well_formed(),
        ensures
            header_value_ok(self.api_key()) && header_value_ok(timestamp@) ==> (r matches Ok(h)
                && h.api_key@ == self.api_key()
                && h.sign_date@ == timestamp@
                && h.request_sign@ == SIGNATURE_PREFIX@ + hex_encode_spec(
                ed25519_signature(
                    self.secret(),
                    vstd::utf8::encode_utf8(
                        unsigned_string_spec(method@, path@, opt_str_view(query), body@, timestamp@),
                    ),
                ),
            )),
            !(header_value_ok(self.api_key()) && header_value_ok(timestamp@)) ==> r == Err::<SignedHeaders, SignError>(SignError::InvalidHeader),
    {
        let mut unsigned = String::from_str(method);
        unsigned.append(path);
        match query {
            Some(q) => unsigned.append(q),
            None => {},
        }
        unsigned.append(body);
        unsigned.append(timestamp);
        let message = unsigned.as_str().as_bytes();
        let signature = ed25519_sign(self.secret.as_slice(), message);
        let mut request_sign = String::from_str(SIGNATURE_PREFIX);
        let digits = hex_encode(signature.as_slice());
        request_sign.append(digits.as_str());
        proof {
            assert(unsigned@ =~= unsigned_string_spec(method@, path@, opt_str_view(query), body@, timestamp@));
        }
        if !is_header_value(self.api_key.as_str()) || !is_header_value(timestamp) {
            return Err(SignError::InvalidHeader);
        }
        Ok(SignedHeaders {
            api_key: self.api_key.clone(),
            request_sign,
            sign_date: String::from_str(timestamp),
        })
    }
}

/// The secret key bytes of a hex-encoded Ed25519 key.
fn create_signing_key(secret_key: &str) -> (r: Result<Vec<u8>, SignError>)
    ensures
        match hex_decode_spec(vstd::utf8::encode_utf8(secret_key@)) {
            None => r == Err::<Vec<u8>, SignError>(SignError::HexDecode),
            Some(bytes) => if bytes.len() == SECRET_KEY_LENGTH {
                r matches Ok(v) && v@ == bytes
            } else {
                r is Err && r->Err_0 is SigningKey
            },
        },
{
    let bytes = match hex_decode(secret_key) {
        Ok(b) => b,
        Err(_) => return Err(SignError::HexDecode),
    };
    if bytes.len() != SECRET_KEY_LENGTH {
        return Err(SignError::SigningKey(String::from_str("Couldn't turn secret key str into a SecretKey")));
    }
    Ok(bytes)
}


/// The whole body is signed, whatever the method: the signed text of a request
/// is as long as its parts together, ends with the body and the timestamp,
/// and equals the signed text of the same request with path, query and body
/// run together into the path and no body.
pub proof fn lemma_body_is_signed(
    method: Seq<char>,
    path: Seq<char>,
    query: Option<Seq<char>>,
    body: Seq<char>,
    timestamp: Seq<char>,
)
    ensures
        ({
            let q = match query {
                Some(q) => q,
                None => Seq::<char>::empty(),
            };
            let text = unsigned_string_spec(method, path, query, body, timestamp);
            &&& text == unsigned_string_spec(method, path + q + body, None, Seq::<char>::empty(), timestamp)
            &&& text.len() == method.len() + path.len() + q.len() + body.len() + timestamp.len()
            &&& text.subrange(text.len() - body.len() - timestamp.len(), text.len() as int) == body + timestamp
            &&& text.subrange(0, method.len() as int) == method
        }),
{
    let q = match query {
        Some(q) => q,
        None => Seq::<char>::empty(),
    };
    let text = unsigned_string_spec(method, path, query, body, timestamp);
    assert(text =~= unsigned_string_spec(method, path + q + body, None, Seq::<char>::empty(), timestamp));
    assert(text.subrange(text.len() - body.len() - timestamp.len(), text.len() as int) =~= body + timestamp);
    assert(text.subrange(0, method.len() as int) =~= method);
}

} // verus!
