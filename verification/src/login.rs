//! Logging in: the proof key that goes with the authorization code, the
//! address at which the user grants access, and the token of the session.

use vstd::prelude::*;
use vstd::string::*;
use crate::text::{same_text, spec_trim, trim};

verus! {

/// `url::ParseError`, the reason why a text is no address. It is carried and
/// dropped, never looked into.
#[verifier::external_type_specification]
#[verifier::external_body]
pub struct ExUrlParseError(url::ParseError);

/// Length of the code verifier.
pub const VERIFIER_LENGTH: usize = 64;

/// The longest text that is put into an address.
pub const MAX_QUERY_TEXT: usize = 2048;

/// The SHA-256 digest of `data`, as `sha2::Sha256` computes it.
pub uninterp spec fn sha256_digest(data: Seq<u8>) -> Seq<u8>;

/// `data` in base 64 with the alphabet for addresses and with padding, as
/// `base64::engine::general_purpose::URL_SAFE` writes it.
pub uninterp spec fn base64_url_text(data: Seq<u8>) -> Seq<char>;

/// The address `base` with the pairs added to its query, as
/// `url::Url::parse_with_params` writes it; none where `base` is no address.
pub uninterp spec fn url_with_query(base: Seq<char>, pairs: Seq<(Seq<char>, Seq<char>)>) -> Option<
    Seq<char>,
>;

/// Whether `c` is a letter of the English alphabet or a digit.
pub open spec fn spec_is_alphanumeric(c: char) -> bool {
    ('A' <= c <= 'Z') || ('a' <= c <= 'z') || ('0' <= c <= '9')
}

/// What each pair of texts holds.
pub open spec fn spec_pairs(pairs: Seq<(String, String)>) -> Seq<(Seq<char>, Seq<char>)> {
    pairs.map_values(|pair: (String, String)| (pair.0@, pair.1@))
}

/// Calls `sha2::Sha256::digest`. Believed: the digest depends on the data
/// alone, so that it can be named `sha256_digest(data)`, and is 32 bytes
/// long.
#[verifier::external_body]
pub(crate) fn sha256(data: &[u8]) -> (digest: Vec<u8>)
    ensures
        digest@ == sha256_digest(data@),
        digest@.len() == 32,
{
    <sha2::Sha256 as sha2::Digest>::digest(data).to_vec()
}

/// Calls `encode` of `base64::engine::general_purpose::URL_SAFE`. Believed:
/// the text depends on the data alone, so that it can be named
/// `base64_url_text(data)`. The call is made for short data only, whose
/// encoded length can be computed.
#[verifier::external_body]
pub(crate) fn base64_url(data: &[u8]) -> (text: String)
    requires
        data@.len() <= 1024,
    ensures
        text@ == base64_url_text(data@),
{
    base64::Engine::encode(&base64::engine::general_purpose::URL_SAFE, data)
}

/// Calls `sample_string` of `rand::distributions::Alphanumeric` with the
/// generator of the thread. Believed of every outcome: the text has `len`
/// characters, each a letter of the English alphabet or a digit.
#[verifier::external_body]
pub(crate) fn random_alphanumeric(len: usize) -> (text: String)
    ensures
        text@.len() == len,
        forall|i: int| 0 <= i < text@.len() ==> spec_is_alphanumeric(#[trigger] text@[i]),
{
    rand::distributions::DistString::sample_string(
        &rand::distributions::Alphanumeric,
        &mut rand::thread_rng(),
        len,
    )
}

/// Calls `url::Url::parse_with_params` and takes the address as a text.
/// Believed: the address depends on `base` and the pairs alone, so that it
/// can be named `url_with_query(base, pairs)`. The call is made for short
/// texts only, so that the address stays within the length that `url` can
/// hold.
#[verifier::external_body]
pub(crate) fn address_with_query(base: &str, pairs: &Vec<(String, String)>) -> (r: Result<
    String,
    url::ParseError,
>)
    requires
        base@.len() <= MAX_QUERY_TEXT,
        pairs@.len() <= 16,
        forall|i: int|
            0 <= i < pairs@.len() ==> (#[trigger] pairs@[i]).0@.len() <= MAX_QUERY_TEXT
                && pairs@[i].1@.len() <= MAX_QUERY_TEXT,
    ensures
        r matches Ok(text) ==> url_with_query(base@, spec_pairs(pairs@)) == Some(text@),
        r is Err ==> url_with_query(base@, spec_pairs(pairs@)) is None,
{
    url::Url::parse_with_params(base, pairs.iter()).map(String::from)
}

/// Why the user is not logged in, or cannot be.
#[derive(Clone, Copy, Debug, PartialEq, Eq, Structural)]
pub enum LoginError {
    /// No token is stored.
    NotLoggedIn,
    /// A text is longer than an address takes.
    TextTooLong,
    /// The address of the authorization page could not be written.
    BadAuthorizeUrl,
}

/// The code challenge that goes with a code verifier: the SHA-256 digest of
/// the verifier's bytes, in base 64 for addresses.
pub open spec fn spec_code_challenge(verifier: Seq<char>) -> Seq<char> {
    base64_url_text(sha256_digest(vstd::utf8::encode_utf8(verifier)))
}

/// The code challenge that goes with a code verifier.
pub fn code_challenge(verifier: &str) -> (challenge: String)
    ensures
        challenge@ == spec_code_challenge(verifier@),
{
    let digest = sha256(verifier.as_bytes());
    base64_url(digest.as_slice())
}

/// A fresh code verifier, 64 letters and digits drawn at random, and the
/// code challenge that goes with it.
pub fn generate_code_verifier_and_challenge() -> (pair: (String, String))
    ensures
        pair.0@.len() == VERIFIER_LENGTH,
        forall|i: int| 0 <= i < pair.0@.len() ==> spec_is_alphanumeric(#[trigger] pair.0@[i]),
        pair.1@ == spec_code_challenge(pair.0@),
{
    let verifier = random_alphanumeric(VERIFIER_LENGTH);
    let challenge = code_challenge(verifier.as_str());
    (verifier, challenge)
}

/// The pairs that the address of the authorization page carries.
pub open spec fn spec_authorize_pairs(challenge: Seq<char>) -> Seq<(Seq<char>, Seq<char>)> {
    seq![
        ("client_id"@, "3fab83d6bb26443aa8114c13fd6a5093"@),
        ("redirect_uri"@, "oob"@),
        ("scope"@, "user:base,file:all:read,file:all:write"@),
        ("code_challenge"@, challenge),
        ("code_challenge_method"@, "S256"@),
        ("response_type"@, "code"@),
    ]
}

/// A pair of texts.
fn pair_of(key: &str, value: &str) -> (pair: (String, String))
    ensures
        pair.0@ == key@,
        pair.1@ == value@,
{
    (key.to_owned(), value.to_owned())
}

/// The address of the authorization page of the drive.
pub fn authorize_endpoint() -> (address: &'static str)
    ensures
        address@ == "https://openapi.alipan.com/oauth/authorize"@,
{
    "https://openapi.alipan.com/oauth/authorize"
}

/// The address at which the user grants access: the authorization page
/// `base`, asked for an authorization code for this client, with the code
/// challenge and its method. Texts of more than 2048 characters are not put
/// into an address.
pub fn authorize_url(base: &str, challenge: &str) -> (r: Result<String, LoginError>)
    ensures
        base@.len() > MAX_QUERY_TEXT || challenge@.len() > MAX_QUERY_TEXT ==> r == Err::<
            String,
            LoginError,
        >(LoginError::TextTooLong),
        base@.len() <= MAX_QUERY_TEXT && challenge@.len() <= MAX_QUERY_TEXT ==> match url_with_query(
            base@,
            spec_authorize_pairs(challenge@),
        ) {
            Some(address) => r matches Ok(text) && text@ == address,
            None => r == Err::<String, LoginError>(LoginError::BadAuthorizeUrl),
        },
{
    if base.unicode_len() > MAX_QUERY_TEXT || challenge.unicode_len() > MAX_QUERY_TEXT {
        return Err(LoginError::TextTooLong);
    }
    let mut pairs: Vec<(String, String)> = Vec::new();
    pairs.push(pair_of("client_id", "3fab83d6bb26443aa8114c13fd6a5093"));
    pairs.push(pair_of("redirect_uri", "oob"));
    pairs.push(pair_of("scope", "user:base,file:all:read,file:all:write"));
    pairs.push(pair_of("code_challenge", challenge));
    pairs.push(pair_of("code_challenge_method", "S256"));
    pairs.push(pair_of("response_type", "code"));
    proof {
        reveal_strlit("client_id");
        reveal_strlit("3fab83d6bb26443aa8114c13fd6a5093");
        reveal_strlit("redirect_uri");
        reveal_strlit("oob");
        reveal_strlit("scope");
        reveal_strlit("user:base,file:all:read,file:all:write");
        reveal_strlit("code_challenge");
        reveal_strlit("code_challenge_method");
        reveal_strlit("S256");
        reveal_strlit("response_type");
        reveal_strlit("code");
        assert(spec_pairs(pairs@) =~= spec_authorize_pairs(challenge@));
    }
    match address_with_query(base, &pairs) {
        Ok(text) => Ok(text),
        Err(_) => Err(LoginError::BadAuthorizeUrl),
    }
}

/// Whether the user asked for the browser to be opened: the answer, white
/// space at its ends left aside, is a `y`, small or capital.
pub fn wants_browser(answer: &str) -> (yes: bool)
    ensures
        yes == (spec_trim(answer@) == "y"@ || spec_trim(answer@) == "Y"@),
{
    let trimmed = trim(answer);
    same_text(trimmed.as_str(), "y") || same_text(trimmed.as_str(), "Y")
}

/// What the request for a token carries.
#[derive(Clone, Debug, PartialEq, Eq)]
pub struct TokenRequest {
    pub client_id: String,
    pub grant_type: String,
    pub code: String,
    pub code_verifier: String,
}

/// The request that exchanges the authorization code for a token. The code
/// is taken as the user pasted it, white space at its ends left aside.
pub fn token_request(pasted_code: &str, verifier: &str) -> (request: TokenRequest)
    ensures
        request.client_id@ == "3fab83d6bb26443aa8114c13fd6a5093"@,
        request.grant_type@ == "authorization_code"@,
        request.code@ == spec_trim(pasted_code@),
        request.code_verifier@ == verifier@,
{
    TokenRequest {
        client_id: "3fab83d6bb26443aa8114c13fd6a5093".to_owned(),
        grant_type: "authorization_code".to_owned(),
        code: trim(pasted_code),
        code_verifier: verifier.to_owned(),
    }
}

/// The token of the session: the stored one, where one is stored and it is
/// not empty.
pub fn check_login(stored: Option<String>) -> (r: Result<String, LoginError>)
    ensures
        r == match stored {
            Some(token) => if token@.len() > 0 {
                Ok::<String, LoginError>(token)
            } else {
                Err::<String, LoginError>(LoginError::NotLoggedIn)
            },
            None => Err::<String, LoginError>(LoginError::NotLoggedIn),
        },
{
    match stored {
        Some(token) => if token.as_str().is_empty() {
            Err(LoginError::NotLoggedIn)
        } else {
            Ok(token)
        },
        None => Err(LoginError::NotLoggedIn),
    }
}

} // verus!
