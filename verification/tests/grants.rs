use token_endpoint::records::{
    AccessTokenRequest, AuthorizationCode, Client, GrantType, RefreshToken,
};
use token_endpoint::store::Datastore;
use token_endpoint::token::{authorization_code, client_credentials, dispatch, refresh_token};

const SEED_A: &str = "123e4567-e89b-12d3-a456-426614174000";
const SEED_B: &str = "9b2c1f7e-0d4a-4c6b-8f3e-5a7d9c1b2e4f";
const SEED_C: &str = "0f8fad5b-d9cb-469f-a165-70867728950e";

fn text(s: &str) -> Option<String> {
    Some(s.to_string())
}

fn empty_request() -> AccessTokenRequest {
    AccessTokenRequest {
        grant_type: None,
        client_id: None,
        client_secret: None,
        code: None,
        redirect_uri: None,
        refresh_token: None,
        scope: None,
    }
}

fn client(id: &str, secret: &str, grants: &[&str]) -> Client {
    Client {
        id: id.to_string(),
        secret: secret.to_string(),
        allowed_grant_types: grants.iter().map(|g| g.to_string()).collect(),
        allowed_scopes: "read write".to_string(),
    }
}

fn store() -> Datastore {
    let mut store = Datastore::new();
    assert!(store.insert_client(client(
        "c1",
        "s1",
        &["authorization_code", "client_credentials", "refresh_token"],
    )));
    assert!(store.insert_client(client("c2", "s2", &["refresh_token"])));
    for name in ["authorization_code", "client_credentials", "refresh_token"] {
        assert!(store.insert_grant_type(GrantType { name: name.to_string(), enabled: true }));
    }
    assert!(store.insert_grant_type(GrantType { name: "password".to_string(), enabled: false }));
    store
}

fn credentials_request(secret: &str, scope: &str) -> AccessTokenRequest {
    AccessTokenRequest {
        grant_type: text("client_credentials"),
        client_id: text("c1"),
        client_secret: text(secret),
        scope: text(scope),
        ..empty_request()
    }
}

fn refresh_request(token: &str, scope: &str) -> AccessTokenRequest {
    AccessTokenRequest {
        grant_type: text("refresh_token"),
        refresh_token: text(token),
        scope: text(scope),
        ..empty_request()
    }
}

fn code_request(code: &str) -> AccessTokenRequest {
    AccessTokenRequest {
        grant_type: text("authorization_code"),
        client_id: text("c1"),
        client_secret: text("s1"),
        code: text(code),
        ..empty_request()
    }
}

fn code_row(code: &str, redirect_uri: Option<&str>) -> AuthorizationCode {
    AuthorizationCode {
        code: code.to_string(),
        client_id: "c1".to_string(),
        scope: "read".to_string(),
        redirect_uri: redirect_uri.map(|u| u.to_string()),
        expires_at: 1_000,
        used: false,
    }
}

fn stored_refresh_token(store: &mut Datastore, value: &str, scope: &str) {
    assert!(store.insert_refresh_token(RefreshToken {
        token: value.to_string(),
        client_id: "c1".to_string(),
        scope: scope.to_string(),
        issued_at: 10,
        expires_at: None,
        revoked: false,
    }));
}

#[test]
fn example_client_credentials_grant() {
    let mut store = store();
    let response =
        client_credentials(&mut store, credentials_request("s1", "read write"), 500, SEED_A, SEED_B)
            .unwrap();
    assert!(response.access_token.chars().count() >= 36);
    assert_eq!(response.access_token, SEED_A);
    assert_eq!(response.token_type, "bearer");
    assert_eq!(response.expires_in, 3600);
    assert_eq!(response.refresh_token.as_deref(), Some(SEED_B));
    assert_eq!(response.scope, "read write");
}

#[test]
fn example_wrong_secret() {
    let mut store = store();
    let error =
        client_credentials(&mut store, credentials_request("wrong", "read write"), 500, SEED_A, SEED_B)
            .unwrap_err();
    assert_eq!(error.error, "invalid_client");
    assert!(!store.identifier_in_use(SEED_A));
    assert!(!store.identifier_in_use(SEED_B));
}

#[test]
fn client_credentials_stores_both_tokens() {
    let mut store = store();
    let response =
        client_credentials(&mut store, credentials_request("s1", "read,write"), 77, SEED_A, SEED_B)
            .unwrap();
    let access = store.find_access_token_by_value(&response.access_token).unwrap();
    assert_eq!(access.client_id, "c1");
    assert_eq!(access.grant_type, "client_credentials");
    assert_eq!(access.scope, "read,write");
    assert_eq!(access.issued_at, 77);
    assert_eq!(access.expires_in, 3600);
    let refresh = store
        .find_refresh_token_by_value(response.refresh_token.as_deref().unwrap())
        .unwrap();
    assert_eq!(refresh.client_id, "c1");
    assert_eq!(refresh.scope, "read,write");
    assert_eq!(refresh.issued_at, 77);
    assert_eq!(refresh.expires_at, None);
    assert!(!refresh.revoked);
}

#[test]
fn client_credentials_identifiers_are_fresh_and_distinct() {
    let mut store = store();
    let first =
        client_credentials(&mut store, credentials_request("s1", "read"), 1, SEED_A, SEED_A).unwrap();
    let second =
        client_credentials(&mut store, credentials_request("s1", "read"), 2, SEED_A, SEED_A).unwrap();
    let all = [
        first.access_token.clone(),
        first.refresh_token.clone().unwrap(),
        second.access_token.clone(),
        second.refresh_token.clone().unwrap(),
    ];
    for i in 0..all.len() {
        for j in 0..i {
            assert_ne!(all[i], all[j]);
        }
        assert!(all[i].starts_with(SEED_A));
        assert!(store.identifier_in_use(&all[i]));
    }
    assert_eq!(all[0], SEED_A);
    assert_eq!(all[1], format!("{}0", SEED_A));
    assert_eq!(all[2], format!("{}00", SEED_A));
    assert_eq!(all[3], format!("{}000", SEED_A));
}

#[test]
fn client_credentials_short_seed_is_filled_up() {
    let mut store = store();
    let response =
        client_credentials(&mut store, credentials_request("s1", "read"), 1, "ab", "").unwrap();
    assert_eq!(response.access_token, format!("ab{}", "0".repeat(34)));
    assert_eq!(response.refresh_token.unwrap(), "0".repeat(36));
}

#[test]
fn client_credentials_missing_fields() {
    for missing in 0..4 {
        let mut store = store();
        let mut req = credentials_request("s1", "read");
        match missing {
            0 => req.grant_type = None,
            1 => req.client_id = None,
            2 => req.client_secret = None,
            _ => req.scope = None,
        }
        let error = client_credentials(&mut store, req, 1, SEED_A, SEED_B).unwrap_err();
        assert_eq!(error.error, "invalid_request");
        assert!(!store.identifier_in_use(SEED_A));
        assert!(!store.identifier_in_use(SEED_B));
    }
}

#[test]
fn missing_field_comes_before_bad_credentials() {
    let mut store = store();
    let mut req = credentials_request("wrong", "read");
    req.scope = None;
    let error = client_credentials(&mut store, req, 1, SEED_A, SEED_B).unwrap_err();
    assert_eq!(error.error, "invalid_request");
}

#[test]
fn unknown_client_and_wrong_secret_look_alike() {
    let mut store = store();
    let wrong =
        client_credentials(&mut store, credentials_request("nope", "read"), 1, SEED_A, SEED_B)
            .unwrap_err();
    let mut req = credentials_request("s1", "read");
    req.client_id = text("nobody");
    let unknown = client_credentials(&mut store, req, 1, SEED_A, SEED_B).unwrap_err();
    assert_eq!(wrong.error, "invalid_client");
    assert_eq!(wrong.error, unknown.error);
    assert_eq!(wrong.error_description, unknown.error_description);
}

#[test]
fn bad_credentials_come_before_the_grant_type() {
    let mut store = store();
    let mut req = credentials_request("wrong", "read");
    req.grant_type = text("password");
    let error = client_credentials(&mut store, req, 1, SEED_A, SEED_B).unwrap_err();
    assert_eq!(error.error, "invalid_client");
}

#[test]
fn client_credentials_other_grant_type_is_unsupported() {
    let mut store = store();
    let mut req = credentials_request("s1", "read");
    req.grant_type = text("refresh_token");
    let error = client_credentials(&mut store, req, 1, SEED_A, SEED_B).unwrap_err();
    assert_eq!(error.error, "unsupported_grant_type");
}

#[test]
fn client_credentials_disabled_grant_type_is_unsupported() {
    let mut store = Datastore::new();
    assert!(store.insert_client(client("c1", "s1", &["client_credentials"])));
    assert!(store.insert_grant_type(GrantType {
        name: "client_credentials".to_string(),
        enabled: false,
    }));
    let error = client_credentials(&mut store, credentials_request("s1", "read"), 1, SEED_A, SEED_B)
        .unwrap_err();
    assert_eq!(error.error, "unsupported_grant_type");
    let mut bare = Datastore::new();
    assert!(bare.insert_client(client("c1", "s1", &["client_credentials"])));
    let error = client_credentials(&mut bare, credentials_request("s1", "read"), 1, SEED_A, SEED_B)
        .unwrap_err();
    assert_eq!(error.error, "unsupported_grant_type");
}

#[test]
fn client_without_the_grant_type_is_unauthorized() {
    let mut store = store();
    let mut req = credentials_request("s2", "read");
    req.client_id = text("c2");
    let error = client_credentials(&mut store, req, 1, SEED_A, SEED_B).unwrap_err();
    assert_eq!(error.error, "unauthorized_client");
    assert!(!store.identifier_in_use(SEED_A));
}

#[test]
fn client_credentials_empty_scope_is_invalid() {
    for scope in ["", " ", " , ,"] {
        let mut store = store();
        let error =
            client_credentials(&mut store, credentials_request("s1", scope), 1, SEED_A, SEED_B)
                .unwrap_err();
        assert_eq!(error.error, "invalid_scope");
        assert!(!store.identifier_in_use(SEED_A));
    }
}

#[test]
fn refresh_with_narrower_scope_is_granted() {
    let mut store = store();
    stored_refresh_token(&mut store, "refresh-1", "read write");
    let response = refresh_token(&mut store, refresh_request("refresh-1", "write"), 50, SEED_A).unwrap();
    assert_eq!(response.access_token, SEED_A);
    assert_eq!(response.refresh_token.as_deref(), Some("refresh-1"));
    assert_eq!(response.scope, "write");
    assert_eq!(response.token_type, "bearer");
    assert_eq!(response.expires_in, 3600);
    let access = store.find_access_token_by_value(SEED_A).unwrap();
    assert_eq!(access.client_id, "c1");
    assert_eq!(access.grant_type, "refresh_token");
    assert_eq!(access.scope, "write");
    assert_eq!(access.issued_at, 50);
    let kept = store.find_refresh_token_by_value("refresh-1").unwrap();
    assert_eq!(kept.scope, "read write");
    assert!(!kept.revoked);
}

#[test]
fn refresh_with_equal_scope_is_granted() {
    let mut store = store();
    stored_refresh_token(&mut store, "refresh-1", "read write");
    let response =
        refresh_token(&mut store, refresh_request("refresh-1", "write,read"), 50, SEED_A).unwrap();
    assert_eq!(response.scope, "write,read");
    assert_eq!(response.refresh_token.as_deref(), Some("refresh-1"));
}

#[test]
fn refresh_with_wider_scope_is_rejected() {
    let mut store = store();
    stored_refresh_token(&mut store, "refresh-1", "read write");
    let error =
        refresh_token(&mut store, refresh_request("refresh-1", "read admin"), 50, SEED_A).unwrap_err();
    assert_eq!(error.error, "invalid_scope");
    assert!(!store.identifier_in_use(SEED_A));
}

#[test]
fn refresh_with_empty_scope_is_rejected() {
    let mut store = store();
    stored_refresh_token(&mut store, "refresh-1", "read write");
    let error = refresh_token(&mut store, refresh_request("refresh-1", "  "), 50, SEED_A).unwrap_err();
    assert_eq!(error.error, "invalid_scope");
}

#[test]
fn refresh_after_client_credentials() {
    let mut store = store();
    let granted =
        client_credentials(&mut store, credentials_request("s1", "read write"), 5, SEED_A, SEED_B)
            .unwrap();
    let presented = granted.refresh_token.unwrap();
    let response = refresh_token(&mut store, refresh_request(&presented, "read"), 6, SEED_C).unwrap();
    assert_eq!(response.access_token, SEED_C);
    assert_ne!(response.access_token, granted.access_token);
    assert_eq!(response.refresh_token, Some(presented));
    let again = refresh_token(&mut store, refresh_request(SEED_B, "read"), 7, SEED_C).unwrap();
    assert_eq!(again.access_token, format!("{}0", SEED_C));
}

#[test]
fn refresh_missing_fields() {
    for missing in 0..3 {
        let mut store = store();
        stored_refresh_token(&mut store, "refresh-1", "read");
        let mut req = refresh_request("refresh-1", "read");
        match missing {
            0 => req.grant_type = None,
            1 => req.refresh_token = None,
            _ => req.scope = None,
        }
        let error = refresh_token(&mut store, req, 1, SEED_A).unwrap_err();
        assert_eq!(error.error, "invalid_request");
        assert!(!store.identifier_in_use(SEED_A));
    }
}

#[test]
fn refresh_with_the_owner_named_and_no_secret() {
    let mut store = store();
    stored_refresh_token(&mut store, "refresh-1", "read write");
    let mut granted = refresh_request("refresh-1", "read");
    granted.client_id = text("c1");
    let response = refresh_token(&mut store, granted, 1, SEED_A).unwrap();
    assert_eq!(response.access_token, SEED_A);
    assert_eq!(response.refresh_token.as_deref(), Some("refresh-1"));
    assert_eq!(response.scope, "read");
    assert_eq!(store.find_refresh_token_by_value("refresh-1").unwrap().scope, "read write");
    let mut wide = refresh_request("refresh-1", "read admin");
    wide.client_id = text("c1");
    assert_eq!(refresh_token(&mut store, wide, 1, SEED_B).unwrap_err().error, "invalid_scope");
    let mut empty = refresh_request("refresh-1", " ");
    empty.client_id = text("c1");
    assert_eq!(refresh_token(&mut store, empty, 1, SEED_B).unwrap_err().error, "invalid_scope");
    let mut unknown = refresh_request("no-such-token", "read");
    unknown.client_id = text("c1");
    assert_eq!(refresh_token(&mut store, unknown, 1, SEED_B).unwrap_err().error, "invalid_grant");
    assert!(!store.identifier_in_use(SEED_B));
}

#[test]
fn refresh_with_another_client_named_and_no_secret() {
    let mut store = store();
    stored_refresh_token(&mut store, "refresh-1", "read");
    let mut req = refresh_request("refresh-1", "read");
    req.client_id = text("c2");
    assert_eq!(refresh_token(&mut store, req, 1, SEED_A).unwrap_err().error, "invalid_grant");
    let mut req = refresh_request("refresh-1", "read");
    req.client_id = text("nobody");
    assert_eq!(refresh_token(&mut store, req, 1, SEED_A).unwrap_err().error, "invalid_grant");
    assert!(!store.identifier_in_use(SEED_A));
}

#[test]
fn refresh_with_a_secret_and_no_client_named() {
    let mut store = store();
    stored_refresh_token(&mut store, "refresh-1", "read");
    let mut req = refresh_request("refresh-1", "read");
    req.client_secret = text("anything");
    let response = refresh_token(&mut store, req, 1, SEED_A).unwrap();
    assert_eq!(response.access_token, SEED_A);
    assert_eq!(response.refresh_token.as_deref(), Some("refresh-1"));
}

#[test]
fn refresh_with_the_grant_type_disabled_and_no_secret() {
    let mut store = Datastore::new();
    assert!(store.insert_client(client("c1", "s1", &["refresh_token"])));
    assert!(store.insert_grant_type(GrantType { name: "refresh_token".to_string(), enabled: false }));
    stored_refresh_token(&mut store, "refresh-1", "read");
    let mut req = refresh_request("refresh-1", "read");
    req.client_id = text("c1");
    assert_eq!(
        refresh_token(&mut store, req, 1, SEED_A).unwrap_err().error,
        "unsupported_grant_type"
    );
    assert!(!store.identifier_in_use(SEED_A));
}

#[test]
fn wrong_secret_without_grant_type_is_invalid_client() {
    let mut store = store();
    assert!(store.insert_authorization_code(code_row("code-1", None)));
    stored_refresh_token(&mut store, "refresh-1", "read");
    let mut req = credentials_request("wrong", "read");
    req.grant_type = None;
    let wrong = client_credentials(&mut store, req, 1, SEED_A, SEED_B).unwrap_err();
    assert_eq!(wrong.error, "invalid_client");
    let mut req = credentials_request("s1", "read");
    req.grant_type = None;
    req.client_id = text("nobody");
    let unknown = client_credentials(&mut store, req, 1, SEED_A, SEED_B).unwrap_err();
    assert_eq!(unknown.error, wrong.error);
    assert_eq!(unknown.error_description, wrong.error_description);
    let mut req = code_request("code-1");
    req.grant_type = None;
    req.client_secret = text("wrong");
    assert_eq!(authorization_code(&mut store, req, 1, SEED_A).unwrap_err().error, "invalid_client");
    let mut req = code_request("code-1");
    req.grant_type = None;
    req.client_id = text("nobody");
    assert_eq!(authorization_code(&mut store, req, 1, SEED_A).unwrap_err().error, "invalid_client");
    let mut req = refresh_request("refresh-1", "read");
    req.grant_type = None;
    req.client_id = text("c1");
    req.client_secret = text("wrong");
    assert_eq!(refresh_token(&mut store, req, 1, SEED_A).unwrap_err().error, "invalid_client");
    assert!(!store.find_authorization_code("code-1").unwrap().used);
    assert!(!store.identifier_in_use(SEED_A));
    assert!(!store.identifier_in_use(SEED_B));
}

#[test]
fn good_credentials_without_grant_type_is_invalid_request() {
    let mut store = store();
    assert!(store.insert_authorization_code(code_row("code-1", None)));
    stored_refresh_token(&mut store, "refresh-1", "read");
    let mut req = credentials_request("s1", "read");
    req.grant_type = None;
    assert_eq!(
        client_credentials(&mut store, req, 1, SEED_A, SEED_B).unwrap_err().error,
        "invalid_request"
    );
    let mut req = code_request("code-1");
    req.grant_type = None;
    assert_eq!(authorization_code(&mut store, req, 1, SEED_A).unwrap_err().error, "invalid_request");
    let mut req = refresh_request("refresh-1", "read");
    req.grant_type = None;
    req.client_id = text("c1");
    assert_eq!(refresh_token(&mut store, req, 1, SEED_A).unwrap_err().error, "invalid_request");
    let mut req = refresh_request("refresh-1", "read");
    req.grant_type = None;
    req.client_id = text("c1");
    req.client_secret = text("s1");
    assert_eq!(refresh_token(&mut store, req, 1, SEED_A).unwrap_err().error, "invalid_request");
    assert!(!store.find_authorization_code("code-1").unwrap().used);
    assert!(!store.identifier_in_use(SEED_A));
}

#[test]
fn refresh_with_credentials_of_the_owner_is_granted() {
    let mut store = store();
    stored_refresh_token(&mut store, "refresh-1", "read");
    let mut req = refresh_request("refresh-1", "read");
    req.client_id = text("c1");
    req.client_secret = text("s1");
    let response = refresh_token(&mut store, req, 1, SEED_A).unwrap();
    assert_eq!(response.access_token, SEED_A);
}

#[test]
fn refresh_with_bad_credentials_is_invalid_client() {
    let mut store = store();
    stored_refresh_token(&mut store, "refresh-1", "read");
    let mut req = refresh_request("no-such-token", "read");
    req.client_id = text("c1");
    req.client_secret = text("wrong");
    assert_eq!(refresh_token(&mut store, req, 1, SEED_A).unwrap_err().error, "invalid_client");
}

#[test]
fn refresh_with_credentials_of_another_client_is_invalid_grant() {
    let mut store = store();
    stored_refresh_token(&mut store, "refresh-1", "read");
    let mut req = refresh_request("refresh-1", "read");
    req.client_id = text("c2");
    req.client_secret = text("s2");
    assert_eq!(refresh_token(&mut store, req, 1, SEED_A).unwrap_err().error, "invalid_grant");
    assert!(!store.identifier_in_use(SEED_A));
}

#[test]
fn refresh_with_unusable_token_is_invalid_grant() {
    let mut store = store();
    assert!(store.insert_refresh_token(RefreshToken {
        token: "revoked".to_string(),
        client_id: "c1".to_string(),
        scope: "read".to_string(),
        issued_at: 0,
        expires_at: None,
        revoked: true,
    }));
    assert!(store.insert_refresh_token(RefreshToken {
        token: "expiring".to_string(),
        client_id: "c1".to_string(),
        scope: "read".to_string(),
        issued_at: 0,
        expires_at: Some(100),
        revoked: false,
    }));
    assert!(store.insert_refresh_token(RefreshToken {
        token: "orphan".to_string(),
        client_id: "gone".to_string(),
        scope: "read".to_string(),
        issued_at: 0,
        expires_at: None,
        revoked: false,
    }));
    for (token, now) in [("unknown", 1), ("revoked", 1), ("expiring", 100), ("expiring", 101), ("orphan", 1)] {
        let error = refresh_token(&mut store, refresh_request(token, "read"), now, SEED_A).unwrap_err();
        assert_eq!(error.error, "invalid_grant");
    }
    assert!(!store.identifier_in_use(SEED_A));
    assert!(refresh_token(&mut store, refresh_request("expiring", "read"), 99, SEED_A).is_ok());
}

#[test]
fn refresh_other_grant_type_is_unsupported() {
    let mut store = store();
    stored_refresh_token(&mut store, "refresh-1", "read");
    let mut req = refresh_request("refresh-1", "read");
    req.grant_type = text("client_credentials");
    assert_eq!(refresh_token(&mut store, req, 1, SEED_A).unwrap_err().error, "unsupported_grant_type");
}

#[test]
fn refresh_by_client_without_the_grant_type_is_unauthorized() {
    let mut store = Datastore::new();
    assert!(store.insert_client(client("c1", "s1", &["client_credentials"])));
    assert!(store.insert_grant_type(GrantType { name: "refresh_token".to_string(), enabled: true }));
    stored_refresh_token(&mut store, "refresh-1", "read");
    let error = refresh_token(&mut store, refresh_request("refresh-1", "read"), 1, SEED_A).unwrap_err();
    assert_eq!(error.error, "unauthorized_client");
}

#[test]
fn refresh_checks_run_in_order() {
    let mut store = Datastore::new();
    assert!(store.insert_client(client("c1", "s1", &["client_credentials"])));
    assert!(store.insert_client(client("c2", "s2", &["refresh_token"])));
    assert!(store.insert_grant_type(GrantType { name: "refresh_token".to_string(), enabled: true }));
    stored_refresh_token(&mut store, "refresh-1", "read");
    let wide = refresh_request("refresh-1", "read write");
    assert_eq!(refresh_token(&mut store, wide, 1, SEED_A).unwrap_err().error, "invalid_scope");
    let mut other = refresh_request("refresh-1", "read write");
    other.client_id = text("c2");
    other.client_secret = text("s2");
    assert_eq!(refresh_token(&mut store, other, 1, SEED_A).unwrap_err().error, "invalid_grant");
    let mut unknown = refresh_request("no-such-token", "read");
    unknown.grant_type = text("password");
    assert_eq!(
        refresh_token(&mut store, unknown, 1, SEED_A).unwrap_err().error,
        "unsupported_grant_type"
    );
    let mut bad = refresh_request("refresh-1", "read");
    bad.grant_type = text("password");
    bad.client_id = text("c2");
    bad.client_secret = text("wrong");
    assert_eq!(refresh_token(&mut store, bad, 1, SEED_A).unwrap_err().error, "invalid_client");
    assert!(!store.identifier_in_use(SEED_A));
}

#[test]
fn authorization_code_is_redeemed_for_an_access_token() {
    let mut store = store();
    assert!(store.insert_authorization_code(code_row("code-1", None)));
    let response = authorization_code(&mut store, code_request("code-1"), 999, SEED_A).unwrap();
    assert_eq!(response.access_token, SEED_A);
    assert_eq!(response.token_type, "bearer");
    assert_eq!(response.expires_in, 3600);
    assert_eq!(response.refresh_token, None);
    assert_eq!(response.scope, "read");
    let access = store.find_access_token_by_value(SEED_A).unwrap();
    assert_eq!(access.client_id, "c1");
    assert_eq!(access.grant_type, "authorization_code");
    assert_eq!(access.issued_at, 999);
    assert!(store.find_authorization_code("code-1").unwrap().used);
}

#[test]
fn authorization_code_redeemed_twice() {
    let mut store = store();
    assert!(store.insert_authorization_code(code_row("code-1", None)));
    assert!(authorization_code(&mut store, code_request("code-1"), 1, SEED_A).is_ok());
    let error = authorization_code(&mut store, code_request("code-1"), 2, SEED_B).unwrap_err();
    assert_eq!(error.error, "invalid_grant");
    assert!(!store.identifier_in_use(SEED_B));
}

#[test]
fn authorization_code_many_redemptions_one_success() {
    let mut store = store();
    assert!(store.insert_authorization_code(code_row("code-1", None)));
    let mut granted = 0;
    let mut refused = 0;
    for attempt in 0..8u64 {
        match authorization_code(&mut store, code_request("code-1"), attempt, SEED_A) {
            Ok(_) => granted += 1,
            Err(error) => {
                assert_eq!(error.error, "invalid_grant");
                refused += 1;
            }
        }
    }
    assert_eq!(granted, 1);
    assert_eq!(refused, 7);
}

#[test]
fn authorization_code_missing_fields() {
    for missing in 0..4 {
        let mut store = store();
        assert!(store.insert_authorization_code(code_row("code-1", None)));
        let mut req = code_request("code-1");
        match missing {
            0 => req.grant_type = None,
            1 => req.client_id = None,
            2 => req.client_secret = None,
            _ => req.code = None,
        }
        let error = authorization_code(&mut store, req, 1, SEED_A).unwrap_err();
        assert_eq!(error.error, "invalid_request");
        assert!(!store.find_authorization_code("code-1").unwrap().used);
        assert!(!store.identifier_in_use(SEED_A));
    }
}

#[test]
fn authorization_code_wrong_secret() {
    let mut store = store();
    assert!(store.insert_authorization_code(code_row("code-1", None)));
    let mut req = code_request("code-1");
    req.client_secret = text("wrong");
    assert_eq!(authorization_code(&mut store, req, 1, SEED_A).unwrap_err().error, "invalid_client");
    assert!(!store.find_authorization_code("code-1").unwrap().used);
}

#[test]
fn authorization_code_unusable_codes() {
    let mut store = store();
    assert!(store.insert_client(client("c3", "s3", &["authorization_code"])));
    assert!(store.insert_authorization_code(code_row("code-1", Some("https://a.example/cb"))));
    let error = authorization_code(&mut store, code_request("no-such-code"), 1, SEED_A).unwrap_err();
    assert_eq!(error.error, "invalid_grant");
    let error = authorization_code(&mut store, code_request("code-1"), 1_000, SEED_A).unwrap_err();
    assert_eq!(error.error, "invalid_grant");
    let mut req = code_request("code-1");
    req.redirect_uri = text("https://b.example/cb");
    assert_eq!(authorization_code(&mut store, req, 1, SEED_A).unwrap_err().error, "invalid_grant");
    let mut req = code_request("code-1");
    req.client_id = text("c3");
    req.client_secret = text("s3");
    assert_eq!(authorization_code(&mut store, req, 1, SEED_A).unwrap_err().error, "invalid_grant");
    assert!(!store.find_authorization_code("code-1").unwrap().used);
    assert!(!store.identifier_in_use(SEED_A));
    let mut req = code_request("code-1");
    req.redirect_uri = text("https://a.example/cb");
    assert!(authorization_code(&mut store, req, 999, SEED_A).is_ok());
}

#[test]
fn authorization_code_redirect_uri_checked_only_when_supplied() {
    let mut store = store();
    assert!(store.insert_authorization_code(code_row("code-1", Some("https://a.example/cb"))));
    assert!(store.insert_authorization_code(code_row("code-2", None)));
    assert!(authorization_code(&mut store, code_request("code-1"), 1, SEED_A).is_ok());
    let mut req = code_request("code-2");
    req.redirect_uri = text("https://a.example/cb");
    assert_eq!(authorization_code(&mut store, req, 1, SEED_B).unwrap_err().error, "invalid_grant");
}

#[test]
fn authorization_code_grant_type_checks() {
    let mut store = store();
    assert!(store.insert_authorization_code(code_row("code-1", None)));
    let mut req = code_request("code-1");
    req.grant_type = text("client_credentials");
    assert_eq!(
        authorization_code(&mut store, req, 1, SEED_A).unwrap_err().error,
        "unsupported_grant_type"
    );
    let mut req = code_request("code-1");
    req.client_id = text("c2");
    req.client_secret = text("s2");
    assert_eq!(authorization_code(&mut store, req, 1, SEED_A).unwrap_err().error, "unauthorized_client");
    assert!(!store.find_authorization_code("code-1").unwrap().used);
}

#[test]
fn requests_are_routed_by_grant_type() {
    let mut store = store();
    assert!(store.insert_authorization_code(code_row("code-1", None)));
    let by_credentials =
        dispatch(&mut store, credentials_request("s1", "read write"), 1, SEED_A, SEED_B).unwrap();
    assert_eq!(by_credentials.refresh_token.as_deref(), Some(SEED_B));
    let by_refresh = dispatch(&mut store, refresh_request(SEED_B, "read"), 2, SEED_C, "unused").unwrap();
    assert_eq!(by_refresh.access_token, SEED_C);
    assert_eq!(by_refresh.refresh_token.as_deref(), Some(SEED_B));
    assert!(!store.identifier_in_use("unused"));
    let by_code = dispatch(&mut store, code_request("code-1"), 3, "code-seed", "unused").unwrap();
    assert!(by_code.access_token.starts_with("code-seed"));
    assert_eq!(by_code.refresh_token, None);
}

#[test]
fn requests_without_a_processor_are_rejected() {
    let mut store = store();
    let error = dispatch(&mut store, empty_request(), 1, SEED_A, SEED_B).unwrap_err();
    assert_eq!(error.error, "invalid_request");
    let mut req = credentials_request("s1", "read");
    req.grant_type = text("password");
    let error = dispatch(&mut store, req, 1, SEED_A, SEED_B).unwrap_err();
    assert_eq!(error.error, "unsupported_grant_type");
    assert!(!store.identifier_in_use(SEED_A));
}
