use base64::Engine;
use mcp_gateway::config::AuthConfig;
use mcp_gateway::error::GatewayError;
use mcp_gateway::middleware::auth::{
    require_role_status, AuthMiddleware, AuthenticatedUser, Claims, RequestHeaders,
};

fn create_test_config() -> AuthConfig {
    AuthConfig {
        enabled: true,
        jwt_secret: Some("test_secret_key_that_is_long_enough".to_string()),
        jwt_issuer: Some("test-issuer".to_string()),
        jwt_audience: Some("test-audience".to_string()),
        jwt_expiration: Some(3600),
        api_key_header: Some("X-API-Key".to_string()),
        basic_auth_users: Some(vec![("testuser".to_string(), "testpass".to_string())]),
    }
}

fn headers(entries: &[(&str, &str)]) -> RequestHeaders {
    RequestHeaders {
        entries: entries.iter().map(|(k, v)| (k.to_string(), Some(v.to_string()))).collect(),
    }
}

#[test]
fn test_auth_middleware_creation() {
    let config = create_test_config();
    let auth = AuthMiddleware::new(config);
    assert!(auth.is_ok());
}

#[test]
fn test_jwt_authentication() {
    let config = create_test_config();
    let auth = AuthMiddleware::new(config).unwrap();

    let claims = auth
        .jwt_claims(
            "test_user",
            vec!["admin".to_string()],
            vec!["read".to_string(), "write".to_string()],
            1_700_000_000,
        )
        .unwrap();

    let headers = headers(&[("authorization", "Bearer token")]);
    assert_eq!(auth.jwt_token(&headers), Some("token".to_string()));

    let result = auth.authenticate(&headers, Some(Ok(claims)));
    assert!(result.is_ok());

    let user = result.unwrap().unwrap();
    assert_eq!(user.user_id, "test_user");
    assert!(user.roles.contains(&"admin".to_string()));
    assert!(user.scopes.contains(&"read".to_string()));
}

#[test]
fn test_basic_authentication() {
    let config = create_test_config();
    let auth = AuthMiddleware::new(config).unwrap();

    let credentials = base64::engine::general_purpose::STANDARD.encode("testuser:testpass");
    let headers = headers(&[("authorization", &format!("Basic {}", credentials))]);

    let result = auth.authenticate(&headers, None);
    assert!(result.is_ok());

    let user = result.unwrap().unwrap();
    assert_eq!(user.user_id, "testuser");
}

#[test]
fn test_api_key_authentication() {
    let config = create_test_config();
    let auth = AuthMiddleware::new(config).unwrap();

    let headers = headers(&[("x-api-key", "test_api_key")]);

    let result = auth.authenticate(&headers, None);
    assert!(result.is_ok());

    let user = result.unwrap().unwrap();
    assert!(user.user_id.starts_with("api_key_"));
    assert_eq!(user.user_id, "api_key_test_api_key");
    assert_eq!(user.roles, vec!["api_user".to_string()]);
    assert_eq!(user.scopes, vec!["read".to_string(), "write".to_string()]);
}

#[test]
fn test_role_authorization() {
    let user = AuthenticatedUser {
        user_id: "test_user".to_string(),
        roles: vec!["admin".to_string(), "user".to_string()],
        scopes: vec!["read".to_string(), "write".to_string()],
    };

    assert!(AuthMiddleware::has_role(&user, "admin"));
    assert!(AuthMiddleware::has_role(&user, "user"));
    assert!(!AuthMiddleware::has_role(&user, "super_admin"));
}

#[test]
fn test_scope_authorization() {
    let user = AuthenticatedUser {
        user_id: "test_user".to_string(),
        roles: vec!["admin".to_string()],
        scopes: vec!["read".to_string(), "write".to_string()],
    };

    assert!(AuthMiddleware::has_scope(&user, "read"));
    assert!(AuthMiddleware::has_scope(&user, "write"));
    assert!(!AuthMiddleware::has_scope(&user, "delete"));
}

fn refusal(r: Result<Option<AuthenticatedUser>, GatewayError>) -> String {
    match r {
        Err(GatewayError::Authentication(m)) => m,
        other => panic!("{:?}", other),
    }
}

#[test]
fn authentication_refusals() {
    let auth = AuthMiddleware::new(create_test_config()).unwrap();
    assert_eq!(refusal(auth.authenticate(&headers(&[]), None)), "No valid authentication provided");
    assert_eq!(
        refusal(auth.authenticate(&headers(&[("authorization", "Bearer x")]), Some(Err("ExpiredSignature".to_string())))),
        "Invalid JWT token: ExpiredSignature"
    );
    assert_eq!(refusal(auth.authenticate(&headers(&[("X-API-KEY", "")]), None)), "Invalid API key");
    let wrong = base64::engine::general_purpose::STANDARD.encode("testuser:nope");
    assert_eq!(
        refusal(auth.authenticate(&headers(&[("Authorization", &format!("Basic {}", wrong))]), None)),
        "Invalid basic authentication credentials"
    );
    assert_eq!(
        refusal(auth.authenticate(&headers(&[("authorization", "Basic !!!")]), None)),
        "Invalid basic authentication credentials"
    );
    let mut off = create_test_config();
    off.enabled = false;
    let auth = AuthMiddleware::new(off).unwrap();
    assert!(auth.jwt_token(&headers(&[("authorization", "Bearer x")])).is_none());
    assert!(auth.authenticate(&headers(&[]), None).unwrap().is_none());
}

#[test]
fn authorization_rules() {
    let auth = AuthMiddleware::new(create_test_config()).unwrap();
    let user = AuthenticatedUser {
        user_id: "u1".to_string(),
        roles: vec!["viewer".to_string()],
        scopes: vec!["read".to_string()],
    };
    assert!(auth.authorize(&user, &[], &[]).is_ok());
    assert!(auth.authorize(&user, &["admin".to_string(), "viewer".to_string()], &["read".to_string()]).is_ok());
    match auth.authorize(&user, &["admin".to_string()], &[]) {
        Err(GatewayError::Authorization(m)) => assert_eq!(
            m,
            "User u1 does not have required role. Required: [\"admin\"], Has: [\"viewer\"]"
        ),
        other => panic!("{:?}", other),
    }
    match auth.authorize(&user, &[], &["write".to_string(), "delete".to_string()]) {
        Err(GatewayError::Authorization(m)) => assert_eq!(
            m,
            "User u1 does not have required scope. Required: [\"write\", \"delete\"], Has: [\"read\"]"
        ),
        other => panic!("{:?}", other),
    }
    assert_eq!(require_role_status(None, "viewer"), Some(401));
    assert_eq!(require_role_status(Some(&user), "admin"), Some(403));
    assert_eq!(require_role_status(Some(&user), "viewer"), None);
}

#[test]
fn jwt_claims_defaults() {
    let mut config = create_test_config();
    config.jwt_issuer = None;
    config.jwt_audience = None;
    config.jwt_expiration = None;
    let auth = AuthMiddleware::new(config).unwrap();
    let claims: Claims = auth.jwt_claims("u", vec![], vec![], 100).unwrap();
    assert_eq!(claims.exp, 3700);
    assert_eq!(claims.iat, 100);
    assert_eq!(claims.iss, "mcp-gateway");
    assert_eq!(claims.aud, "mcp-gateway");
    let mut no_secret = create_test_config();
    no_secret.jwt_secret = None;
    let auth = AuthMiddleware::new(no_secret).unwrap();
    match auth.jwt_claims("u", vec![], vec![], 0) {
        Err(GatewayError::Authentication(m)) => assert_eq!(m, "JWT secret not configured"),
        other => panic!("{:?}", other),
    }
}
