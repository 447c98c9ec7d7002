use threshold_wallet::auth::guards::{is_whitespace, AuthPayload};
use threshold_wallet::auth::jwt::Claims;
use threshold_wallet::auth::passthrough::get_empty_claim;
use threshold_wallet::auth::PublicKey;
use threshold_wallet::routes::session::ProtocolError;

#[test]
fn guest_identity_is_fixed() {
    let claim = get_empty_claim();
    assert_eq!(claim.token, "pass_through_guest_user");
    assert_eq!(claim.user_id, "guest_user");
}

#[test]
fn bearer_token_and_user_are_read() {
    let payload = AuthPayload::from_request(Some("Bearer abc.def"), Some("alice")).unwrap();
    assert_eq!(payload.token, "abc.def");
    assert_eq!(payload.user_id, "alice");
}

#[test]
fn white_space_around_the_words_is_skipped() {
    let payload =
        AuthPayload::from_request(Some("  Bearer \t tok\u{a0}more words "), Some("u")).unwrap();
    assert_eq!(payload.token, "tok");
    let payload = AuthPayload::from_request(Some("Bearer\u{3000}t\u{e9}"), Some("u")).unwrap();
    assert_eq!(payload.token, "t\u{e9}");
}

#[test]
fn user_id_is_taken_as_it_is() {
    let payload = AuthPayload::from_request(Some("Bearer t"), Some(" bob ")).unwrap();
    assert_eq!(payload.user_id, " bob ");
}

#[test]
fn missing_or_wrong_headers_are_unauthorized() {
    let cases: Vec<(Option<&str>, Option<&str>)> = vec![
        (None, Some("alice")),
        (Some("Bearer abc"), None),
        (Some("Bearer abc"), Some("")),
        (Some("Bearer"), Some("alice")),
        (Some("Bearer   "), Some("alice")),
        (Some(""), Some("alice")),
        (Some("   "), Some("alice")),
        (Some("Basic abc"), Some("alice")),
        (Some("bearer abc"), Some("alice")),
        (Some("Bearerabc"), Some("alice")),
        (Some("Bearer_ abc"), Some("alice")),
        (None, None),
    ];
    for (authorization, user) in cases {
        assert_eq!(
            AuthPayload::from_request(authorization, user).unwrap_err(),
            ProtocolError::Unauthorized
        );
    }
}

#[test]
fn white_space_is_what_the_standard_library_takes_for_it() {
    let mut c = 0u32;
    while c <= 0x10ffff {
        if let Some(ch) = char::from_u32(c) {
            assert_eq!(is_whitespace(ch), ch.is_whitespace());
        }
        c += 1;
    }
}

#[test]
fn words_are_split_as_the_standard_library_splits_them() {
    let headers = vec![
        "Bearer x",
        "Bearer\nx\ny",
        "\u{2003}Bearer\u{2028}tok\u{205f}",
        "Bearer \u{1680}\u{202f}z",
        "Bearer\u{85}q\u{2029}r",
    ];
    for header in headers {
        let mut words = header.split_whitespace();
        assert_eq!(words.next(), Some("Bearer"));
        let token = words.next().unwrap();
        let payload = AuthPayload::from_request(Some(header), Some("u")).unwrap();
        assert_eq!(payload.token, token);
    }
}

#[test]
fn passthrough_admits_whoever_sends_an_authorization() {
    let none: Vec<String> = Vec::new();
    assert_eq!(Claims::from_request(&none).unwrap_err(), ProtocolError::Unauthorized);
    let one = vec![String::from("anything at all")];
    let payload = Claims::from_request(&one).unwrap();
    assert_eq!(payload.token, "pass_through_guest_user");
    assert_eq!(payload.user_id, "guest_user");
    let empty_value = vec![String::new(), String::new()];
    assert_eq!(Claims::from_request(&empty_value).unwrap().user_id, "guest_user");
}

#[test]
fn claims_and_keys_hold_what_they_are_given() {
    let claims = Claims { sub: String::from("subject"), exp: 17 };
    assert_eq!(claims.clone().sub, "subject");
    assert_eq!(claims.exp, 17);
    let key = PublicKey {
        kid: String::from("k"),
        pem: String::from("p"),
        der: String::from("d"),
        alg: String::from("a"),
        kty: String::from("t"),
    };
    assert_eq!(key.kid, "k");
    assert_eq!(key.kty, "t");
}
