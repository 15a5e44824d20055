use post_sync::jwt_auth::{auth_jwt, bearer_header, bearer_token, TokenClaims};

fn claims(role: &str) -> TokenClaims {
    TokenClaims { name: "b@b.com".to_string(), role: role.to_string(), iat: 1516239022, exp: 9999999999 }
}

#[test]
fn a_header_with_the_prefix_carries_a_token() {
    assert_eq!(bearer_token("Bearer abc.def.ghi"), Some("abc.def.ghi".to_string()));
    assert_eq!(bearer_token("Bearer "), Some("".to_string()));
    assert_eq!(bearer_token("Bearer  two"), Some(" two".to_string()));
    assert_eq!(bearer_token("Bearer caf\u{e9}"), Some("caf\u{e9}".to_string()));
}

#[test]
fn a_header_without_the_prefix_carries_none() {
    assert_eq!(bearer_token(""), None);
    assert_eq!(bearer_token("Bearer"), None);
    assert_eq!(bearer_token("bearer abc"), None);
    assert_eq!(bearer_token("Basic abc"), None);
    assert_eq!(bearer_token(" Bearer abc"), None);
    assert_eq!(bearer_token("Bearer\tabc"), None);
}

#[test]
fn a_header_made_for_a_token_gives_it_back() {
    assert_eq!(bearer_header("secret"), "Bearer secret");
    assert_eq!(bearer_header(""), "Bearer ");
    assert_eq!(bearer_token(&bearer_header("secret")), Some("secret".to_string()));
}

#[test]
fn only_an_administrator_may_pass() {
    assert!(auth_jwt(Some(&claims("admin"))));
    assert!(claims("admin").is_admin());
    assert!(!auth_jwt(Some(&claims("user"))));
    assert!(!auth_jwt(Some(&claims("Admin"))));
    assert!(!auth_jwt(Some(&claims(""))));
    assert!(!auth_jwt(None));
}
