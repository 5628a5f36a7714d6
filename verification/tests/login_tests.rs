use aliyundrive::login::{
    authorize_endpoint, authorize_url, check_login, code_challenge, generate_code_verifier_and_challenge,
    token_request, wants_browser, LoginError, TokenRequest, MAX_QUERY_TEXT, VERIFIER_LENGTH,
};

#[test]
fn code_challenge_of_a_known_verifier() {
    // the worked example of RFC 7636, here with the padding that the
    // alphabet for addresses adds
    assert_eq!(
        code_challenge("dBjftJeZ4CVP-mB92K27uhbUJU1p1r_wW1gFWFOEjXk"),
        "E9Melhoa2OwvFrEMTJguCHaoeK1t8URWbuGJSstw-cM="
    );
}

#[test]
fn code_challenge_of_the_empty_verifier() {
    assert_eq!(code_challenge(""), "47DEQpj8HBSa-_TImW-5JCeuQeRkm5NMpJWZG3hSuFU=");
}

#[test]
fn code_challenge_is_not_the_verifier() {
    let verifier = "abc";
    assert_ne!(code_challenge(verifier), verifier);
    assert_eq!(code_challenge(verifier).len(), 44);
}

#[test]
fn a_fresh_verifier_has_sixty_four_letters_and_digits() {
    assert_eq!(VERIFIER_LENGTH, 64);
    for _ in 0..20 {
        let (verifier, challenge) = generate_code_verifier_and_challenge();
        assert_eq!(verifier.chars().count(), 64);
        assert!(verifier.chars().all(|c| c.is_ascii_alphanumeric()));
        assert_eq!(challenge, code_challenge(&verifier));
    }
}

#[test]
fn fresh_verifiers_differ() {
    let (a, _) = generate_code_verifier_and_challenge();
    let (b, _) = generate_code_verifier_and_challenge();
    assert_ne!(a, b);
}

#[test]
fn authorize_url_carries_the_pairs() {
    let challenge = "E9Melhoa2OwvFrEMTJguCHaoeK1t8URWbuGJSstw-cM=";
    let mut expected = url::Url::parse("https://openapi.alipan.com/oauth/authorize").unwrap();
    expected
        .query_pairs_mut()
        .append_pair("client_id", "3fab83d6bb26443aa8114c13fd6a5093")
        .append_pair("redirect_uri", "oob")
        .append_pair("scope", "user:base,file:all:read,file:all:write")
        .append_pair("code_challenge", challenge)
        .append_pair("code_challenge_method", "S256")
        .append_pair("response_type", "code");
    assert_eq!(authorize_endpoint(), "https://openapi.alipan.com/oauth/authorize");
    let address = authorize_url(authorize_endpoint(), challenge).unwrap();
    assert_eq!(address, expected.as_str());
    assert_eq!(
        address,
        "https://openapi.alipan.com/oauth/authorize?client_id=3fab83d6bb26443aa8114c13fd6a5093\
         &redirect_uri=oob&scope=user%3Abase%2Cfile%3Aall%3Aread%2Cfile%3Aall%3Awrite\
         &code_challenge=E9Melhoa2OwvFrEMTJguCHaoeK1t8URWbuGJSstw-cM%3D\
         &code_challenge_method=S256&response_type=code"
    );
}

#[test]
fn a_text_that_is_too_long_is_refused() {
    assert_eq!(MAX_QUERY_TEXT, 2048);
    let long = "a".repeat(2049);
    assert_eq!(authorize_url(authorize_endpoint(), &long), Err(LoginError::TextTooLong));
    let fits = "a".repeat(2048);
    assert!(authorize_url(authorize_endpoint(), &fits).is_ok());
    let long_base = format!("https://example.net/{}", "a".repeat(2048));
    assert_eq!(authorize_url(&long_base, "c"), Err(LoginError::TextTooLong));
}

#[test]
fn a_base_that_is_no_address_is_refused() {
    assert_eq!(authorize_url("not an address", "c"), Err(LoginError::BadAuthorizeUrl));
    assert_eq!(authorize_url("", "c"), Err(LoginError::BadAuthorizeUrl));
    assert_eq!(authorize_url("/relative/path", "c"), Err(LoginError::BadAuthorizeUrl));
}

#[test]
fn another_base_keeps_its_query() {
    assert_eq!(
        authorize_url("https://example.net/a?x=1", "c d"),
        Ok("https://example.net/a?x=1&client_id=3fab83d6bb26443aa8114c13fd6a5093\
            &redirect_uri=oob&scope=user%3Abase%2Cfile%3Aall%3Aread%2Cfile%3Aall%3Awrite\
            &code_challenge=c+d&code_challenge_method=S256&response_type=code"
            .to_string())
    );
}

#[test]
fn the_browser_is_opened_on_a_yes() {
    assert!(wants_browser("y"));
    assert!(wants_browser("Y\n"));
    assert!(wants_browser("  y  "));
    assert!(!wants_browser(""));
    assert!(!wants_browser("\n"));
    assert!(!wants_browser("n"));
    assert!(!wants_browser("yes"));
    assert!(!wants_browser("y y"));
}

#[test]
fn token_request_carries_the_trimmed_code() {
    assert_eq!(
        token_request("  abc123 \n", "verifier-1"),
        TokenRequest {
            client_id: "3fab83d6bb26443aa8114c13fd6a5093".to_string(),
            grant_type: "authorization_code".to_string(),
            code: "abc123".to_string(),
            code_verifier: "verifier-1".to_string(),
        }
    );
}

#[test]
fn a_stored_token_is_a_login() {
    assert_eq!(check_login(Some("tok".to_string())), Ok("tok".to_string()));
    assert_eq!(check_login(Some(String::new())), Err(LoginError::NotLoggedIn));
    assert_eq!(check_login(None), Err(LoginError::NotLoggedIn));
}
