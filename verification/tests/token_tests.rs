//! Token acquisition: the client-credentials exchange from response body to
//! live client, and the freshness predicate.

use gfycat::api::{Api, Method};
use gfycat::error::{AuthError, DecodeError};

const GRANT: &str = r#"{"token_type":"bearer","expires_in":3600,"access_token":"tok123"}"#;

#[test]
fn acquisition_yields_fresh_client() {
    let api = Api::new(GRANT, 1000).expect("grant must decode");
    assert!(api.token_fresh(1000));
    assert_eq!(api.expiration, 4600);
    assert_eq!(api.token, "Bearer tok123");
}

#[test]
fn freshness_ends_at_expiration() {
    let api = Api::new(GRANT, 1000).expect("grant must decode");
    assert!(api.token_fresh(4599));
    assert!(!api.token_fresh(4600));
    assert!(!api.token_fresh(u64::MAX));
}

#[test]
fn zero_lifetime_is_stale_at_once() {
    let body = r#"{"token_type":"bearer","expires_in":0,"access_token":"t"}"#;
    let api = Api::new(body, 7).expect("grant must decode");
    assert!(!api.token_fresh(7));
}

#[test]
fn overflowing_lifetime_is_the_expiration_error() {
    let body =
        r#"{"token_type":"bearer","expires_in":18446744073709551615,"access_token":"t"}"#;
    let r = Api::new(body, 1);
    assert_eq!(r, Err(AuthError::Expiration));
}

#[test]
fn maximal_lifetime_at_zero_still_fits() {
    let body =
        r#"{"token_type":"bearer","expires_in":18446744073709551615,"access_token":"t"}"#;
    let api = Api::new(body, 0).expect("sum fits the axis exactly");
    assert_eq!(api.expiration, u64::MAX);
}

#[test]
fn unparseable_body_is_a_syntax_error() {
    let r = Api::new("not json at all", 0);
    assert_eq!(r, Err(AuthError::Decode(DecodeError::Syntax)));
}

#[test]
fn missing_access_token_is_a_field_error() {
    let body = r#"{"token_type":"bearer","expires_in":3600}"#;
    let r = Api::new(body, 0);
    assert_eq!(
        r,
        Err(AuthError::Decode(DecodeError::Field("access_token".to_string())))
    );
}

#[test]
fn wrong_token_type_is_a_field_error() {
    let body = r#"{"token_type":"mac","expires_in":3600,"access_token":"t"}"#;
    let r = Api::new(body, 0);
    assert_eq!(
        r,
        Err(AuthError::Decode(DecodeError::Field("token_type".to_string())))
    );
}

#[test]
fn negative_lifetime_is_a_field_error() {
    let body = r#"{"token_type":"bearer","expires_in":-5,"access_token":"t"}"#;
    let r = Api::new(body, 0);
    assert_eq!(
        r,
        Err(AuthError::Decode(DecodeError::Field("expires_in".to_string())))
    );
}

#[test]
fn reauthorize_is_not_implemented() {
    let mut api = Api::new(GRANT, 0).expect("grant must decode");
    let before = api.clone();
    assert_eq!(api.reauthorize(), Err(AuthError::NotImplemented));
    assert_eq!(api, before);
}

#[test]
fn default_client_is_empty_and_stale() {
    let api = Api::default();
    assert_eq!(api.token, "");
    assert_eq!(api.expiration, 0);
    assert!(!api.token_fresh(0));
}

#[test]
fn error_constructors_tag_their_source() {
    assert_eq!(
        AuthError::transport("boom".to_string()),
        AuthError::Request("boom".to_string())
    );
    assert_eq!(AuthError::io("gone".to_string()), AuthError::Io("gone".to_string()));
    assert_eq!(
        gfycat::error::ApiError::decode(DecodeError::Syntax),
        gfycat::error::ApiError::Decode(DecodeError::Syntax)
    );
}

#[test]
fn credentials_feed_the_exchange() {
    let credentials = gfycat::resources::LoadCredentials {
        client_id: "abc".to_string(),
        client_secret: "xyz".to_string(),
    };
    let req = Api::from_credentials(&credentials);
    assert_eq!(req, Api::auth_request("abc", "xyz"));
}

#[test]
fn scenario_credentials_to_header() {
    let req = Api::auth_request("abc", "xyz");
    assert_eq!(req.method, Method::Post);
    assert_eq!(req.url, "https://api.gfycat.com/v1/oauth/token");
    assert_eq!(req.authorization, None);
    let body = req.body.expect("the exchange posts a body");
    assert_eq!(
        body,
        vec![
            ("client_id".to_string(), "abc".to_string()),
            ("client_secret".to_string(), "xyz".to_string()),
            ("grant_type".to_string(), "client_credentials".to_string()),
        ]
    );

    let api = Api::new(GRANT, 0).expect("grant must decode");
    let get = api.self_details_request();
    assert_eq!(get.authorization, Some("Bearer tok123".to_string()));
}
