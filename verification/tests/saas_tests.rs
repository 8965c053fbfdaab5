use tachy_daemon::crypto::{hmac_sha256, sha256, to_hex_lower};
use tachy_daemon::jwt::{base64_decode, base64_encode, hex_to_bytes, jwt_signing_input, jwt_token, split_jwt};
use tachy_daemon::saas::{check_signature, SaaSError, SaaSPlatform, DEFAULT_JWT_EXPIRY_SECS};

fn make_platform() -> SaaSPlatform {
    SaaSPlatform::new("test-secret-key")
}

fn digest(email: &str) -> String {
    to_hex_lower(&sha256(email.as_bytes()))
}

fn signup(p: &mut SaaSPlatform, email: &str, pw: &str) -> tachy_daemon::saas::Tenant {
    p.signup(email, pw, &digest(email)).unwrap().0
}

#[test]
fn authenticate_unknown_email() {
    let platform = make_platform();
    let result = platform.authenticate("nobody@example.com", "pw");
    assert_eq!(result.unwrap_err(), SaaSError::AuthenticationFailed);
}

#[test]
fn check_limits_tenant_not_found() {
    let platform = make_platform();
    let result = platform.check_limits("nonexistent", "agent_run");
    assert_eq!(result.unwrap_err(), SaaSError::TenantNotFound);
}

#[test]
fn dashboard_tenant_not_found() {
    let platform = make_platform();
    let result = platform.dashboard("nonexistent");
    assert_eq!(result.unwrap_err(), SaaSError::TenantNotFound);
}

#[test]
fn signup_creates_tenant_with_required_fields() {
    let mut platform = make_platform();
    let (tenant, claims) = platform
        .signup("alice@example.com", "hashed_pw", &digest("alice@example.com"))
        .unwrap();
    assert!(!tenant.id.is_empty());
    assert!(tenant.id.starts_with("tenant-"));
    assert_eq!(tenant.id.len(), "tenant-".len() + 12);
    assert!(!tenant.workspace_dir.is_empty());
    assert!(tenant.workspace_dir.contains(&tenant.id));
    assert!(!tenant.ollama_endpoint.is_empty());
    assert!(tenant.created_at > 0);
    assert_eq!(tenant.resource_limits.max_concurrent_agents, 4);
    assert_eq!(claims.tenant_id, tenant.id);
    assert_eq!(claims.email, "alice@example.com");
}

#[test]
fn signup_duplicate_email_rejected() {
    let mut platform = make_platform();
    signup(&mut platform, "bob@example.com", "pw1");
    let result = platform.signup("bob@example.com", "pw2", &digest("bob@example.com"));
    assert_eq!(result.unwrap_err(), SaaSError::DuplicateEmail);
}

#[test]
fn authenticate_valid_credentials() {
    let mut platform = make_platform();
    let tenant = signup(&mut platform, "carol@example.com", "secret");
    let claims = platform.authenticate("carol@example.com", "secret").unwrap();
    assert_eq!(claims.tenant_id, tenant.id);
    assert_eq!(claims.expires_at - claims.issued_at, DEFAULT_JWT_EXPIRY_SECS);
}

#[test]
fn authenticate_wrong_password() {
    let mut platform = make_platform();
    signup(&mut platform, "dave@example.com", "correct");
    let result = platform.authenticate("dave@example.com", "wrong");
    assert_eq!(result.unwrap_err(), SaaSError::AuthenticationFailed);
}

#[test]
fn check_limits_within_bounds() {
    let mut platform = make_platform();
    let tenant = signup(&mut platform, "heidi@example.com", "pw");
    assert!(platform.check_limits(&tenant.id, "agent_run").is_ok());
}

#[test]
fn check_limits_concurrent_agents_exceeded() {
    let mut platform = make_platform();
    let tenant = signup(&mut platform, "ivan@example.com", "pw");
    for _ in 0..4 {
        platform.record_usage(&tenant.id, 0, true).unwrap();
    }
    let result = platform.check_limits(&tenant.id, "agent_run");
    assert!(matches!(
        result,
        Err(SaaSError::ResourceLimitExceeded(ref msg)) if msg.contains("concurrent")
    ));
}

#[test]
fn check_limits_tokens_exceeded() {
    let mut platform = make_platform();
    let tenant = signup(&mut platform, "judy@example.com", "pw");
    platform.record_usage(&tenant.id, 1_000_001, false).unwrap();
    let result = platform.check_limits(&tenant.id, "query");
    assert!(matches!(
        result,
        Err(SaaSError::ResourceLimitExceeded(ref msg)) if msg.contains("tokens")
    ));
}

#[test]
fn dashboard_returns_summary() {
    let mut platform = make_platform();
    let tenant = signup(&mut platform, "kate@example.com", "pw");
    platform.record_usage(&tenant.id, 500, true).unwrap();
    platform.record_usage(&tenant.id, 300, true).unwrap();
    let summary = platform.dashboard(&tenant.id).unwrap();
    assert_eq!(summary.tenant_id, tenant.id);
    assert_eq!(summary.agent_runs, 2);
    assert_eq!(summary.token_consumption, 800);
    assert_eq!(summary.active_members, 1);
    assert_eq!(summary.billing_status, "active");
}

#[test]
fn tenant_isolation_separate_workspaces() {
    let mut platform = make_platform();
    let t1 = signup(&mut platform, "user1@example.com", "pw1");
    let t2 = signup(&mut platform, "user2@example.com", "pw2");
    assert_ne!(t1.id, t2.id);
    assert_ne!(t1.workspace_dir, t2.workspace_dir);
    assert!(t1.workspace_dir.contains(&t1.id));
    assert!(t2.workspace_dir.contains(&t2.id));
}

#[test]
fn tenant_isolation_usage_separate() {
    let mut platform = make_platform();
    let t1 = signup(&mut platform, "a@example.com", "pw");
    let t2 = signup(&mut platform, "b@example.com", "pw");
    platform.record_usage(&t1.id, 1000, true).unwrap();
    let d1 = platform.dashboard(&t1.id).unwrap();
    let d2 = platform.dashboard(&t2.id).unwrap();
    assert_eq!(d1.token_consumption, 1000);
    assert_eq!(d1.agent_runs, 1);
    assert_eq!(d2.token_consumption, 0);
    assert_eq!(d2.agent_runs, 0);
}

#[test]
fn complete_agent_run_decrements_concurrent() {
    let mut platform = make_platform();
    let tenant = signup(&mut platform, "z@example.com", "pw");
    platform.record_usage(&tenant.id, 0, true).unwrap();
    platform.record_usage(&tenant.id, 0, true).unwrap();
    platform.complete_agent_run(&tenant.id).unwrap();
    assert!(platform.check_limits(&tenant.id, "agent_run").is_ok());
}

#[test]
fn usage_errors_for_unknown_tenants() {
    let mut platform = make_platform();
    assert_eq!(platform.record_usage("ghost", 1, true).unwrap_err(), SaaSError::TenantNotFound);
    assert_eq!(platform.complete_agent_run("ghost").unwrap_err(), SaaSError::TenantNotFound);
    assert_eq!(SaaSError::TenantNotFound.message(), "tenant not found");
    assert_eq!(
        SaaSError::InvalidJwt("token expired".to_string()).message(),
        "invalid JWT: token expired"
    );
}

#[test]
fn expired_and_orphaned_claims_are_refused() {
    let mut platform = SaaSPlatform::with_expiry("secret", 0);
    let tenant = signup(&mut platform, "frank@example.com", "pw");
    let claims = platform.authenticate("frank@example.com", "pw").unwrap();
    assert_eq!(claims.expires_at, claims.issued_at);
    let later = platform.validate_claims_at(claims.clone(), claims.expires_at + 1);
    assert!(matches!(later, Err(SaaSError::InvalidJwt(ref m)) if m.contains("expired")));
    assert_eq!(platform.validate_claims_at(claims.clone(), claims.expires_at).unwrap(), claims);
    let mut orphan = claims.clone();
    orphan.tenant_id = "tenant-none".to_string();
    assert_eq!(platform.validate_claims_at(orphan, 0).unwrap_err(), SaaSError::TenantNotFound);
    assert_eq!(tenant.id, claims.tenant_id);
}

#[test]
fn claims_checked_by_the_clock() {
    let mut platform = SaaSPlatform::with_expiry("secret", 0);
    signup(&mut platform, "gina@example.com", "pw");
    let claims = platform.authenticate("gina@example.com", "pw").unwrap();
    let mut forever = claims.clone();
    forever.expires_at = u64::MAX;
    assert_eq!(platform.validate_claims(forever.clone()).unwrap(), forever);
    let mut stale = claims.clone();
    stale.expires_at = 0;
    assert!(matches!(platform.validate_claims(stale), Err(SaaSError::InvalidJwt(ref m)) if m == "token expired"));
    let mut orphan = forever.clone();
    orphan.tenant_id = "tenant-none".to_string();
    assert_eq!(platform.validate_claims(orphan).unwrap_err(), SaaSError::TenantNotFound);
}

#[test]
fn base64_round_trip_and_errors() {
    assert_eq!(base64_encode(""), "");
    assert_eq!(base64_encode("f"), "Zg");
    assert_eq!(base64_encode("fo"), "Zm8");
    assert_eq!(base64_encode("foo"), "Zm9v");
    assert_eq!(base64_encode("foob"), "Zm9vYg");
    assert_eq!(base64_encode("\u{ff}\u{fe}"), "w7_Dvg");
    assert_eq!(base64_decode("Zm9vYg").unwrap(), "foob");
    assert_eq!(base64_decode("w7_Dvg").unwrap(), "\u{ff}\u{fe}");
    assert_eq!(base64_decode("Zm9v!").unwrap_err(), "invalid base64 character: !");
    assert!(base64_decode("_w").unwrap_err().starts_with("invalid utf-8: "));
    let json = "{\"tenant_id\":\"t\",\"email\":\"e@x\",\"issued_at\":1,\"expires_at\":2}";
    assert_eq!(base64_decode(&base64_encode(json)).unwrap(), json);
}

#[test]
fn token_parts_and_signature() {
    let input = jwt_signing_input("{}");
    assert_eq!(input, "eyJhbGciOiJIUzI1NiIsInR5cCI6IkpXVCJ9.e30");
    let sig = hmac_sha256(b"secret", input.as_bytes());
    let token = jwt_token(&input, &sig);
    let (hp, payload, s) = split_jwt(&token).unwrap();
    assert_eq!(hp, input);
    assert_eq!(payload, "e30");
    assert_eq!(s, sig);
    assert!(check_signature(&s, &sig).is_ok());
    assert!(matches!(check_signature("tampered", &sig), Err(SaaSError::InvalidJwt(ref m)) if m.contains("signature")));
    assert_eq!(split_jwt("not-a-jwt").unwrap_err(), "malformed token");
    assert_eq!(split_jwt("a.b.c.d").unwrap_err(), "malformed token");
    assert_eq!(split_jwt("a.b").unwrap_err(), "malformed token");
    assert!(split_jwt("..").is_ok());
}

#[test]
fn hex_to_bytes_reads_pairs() {
    assert_eq!(hex_to_bytes("00ff10"), vec![0, 255, 16]);
    assert_eq!(hex_to_bytes("zz0A"), vec![0, 10]);
    assert_eq!(hex_to_bytes(""), Vec::<u8>::new());
}

#[test]
fn validate_jwt_malformed() {
    // a token without three dot-separated parts is refused before any check
    let err = split_jwt("not-a-jwt").map_err(SaaSError::InvalidJwt).unwrap_err();
    assert!(matches!(err, SaaSError::InvalidJwt(ref m) if m == "malformed token"));
}

#[test]
fn team_quota_follows_tenant_limits() {
    use_team_quota();
}

fn use_team_quota() {
    let check = tachy_daemon::saas::check_team_quota;
    assert!(check(None, "any-team", "agent_run").is_ok());
    let mut p = make_platform();
    let t = signup(&mut p, "quota@example.com", "pw");
    assert!(check(Some(&p), &t.id, "agent_run").is_ok());
    assert_eq!(check(Some(&p), "tenant-missing", "agent_run").unwrap_err(), "Quota exceeded: tenant not found");
}
