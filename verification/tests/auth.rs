use vibesql_mail::auth::{
    check_auth, check_auth_at, verify_hmac, verify_hmac_at, AuthError, AuthMiddleware, AuthRequest,
    MAX_TIMESTAMP_DRIFT_SECS,
};

fn signed(ts: Option<&str>, sig: Option<&str>, method: &str, path: &str) -> AuthRequest {
    AuthRequest {
        timestamp: ts.map(|s| s.to_string()),
        signature: sig.map(|s| s.to_string()),
        method: method.to_string(),
        path: path.to_string(),
    }
}

const SIG_SEND: &str = "WnjFBQKpMolE2H5VPQPWogpmXNuIqQCF5U4ptnW4Juo=";
const SIG_INBOX: &str = "sLe4URtYr2/i9Rr0fE+2yk/5uLgRMPEKEBH2itPExtw=";

#[test]
fn signed_request_is_accepted() {
    let req = signed(Some("1700000000"), Some(SIG_SEND), "POST", "/v1/mail/send");
    assert_eq!(verify_hmac_at(&req, "s3cr3t", 1_700_000_000), Ok(()));
    let req = signed(Some("1700000000"), Some(SIG_INBOX), "GET", "/v1/mail/inbox/BAPert");
    assert_eq!(verify_hmac_at(&req, "s3cr3t", 1_700_000_100), Ok(()));
}

#[test]
fn drift_limit_is_inclusive() {
    assert_eq!(MAX_TIMESTAMP_DRIFT_SECS, 300);
    let req = signed(Some("1700000000"), Some(SIG_SEND), "POST", "/v1/mail/send");
    assert_eq!(verify_hmac_at(&req, "s3cr3t", 1_700_000_300), Ok(()));
    assert_eq!(verify_hmac_at(&req, "s3cr3t", 1_699_999_700), Ok(()));
    assert_eq!(verify_hmac_at(&req, "s3cr3t", 1_700_000_301), Err(AuthError::TimestampExpired));
    assert_eq!(verify_hmac_at(&req, "s3cr3t", 1_699_999_699), Err(AuthError::TimestampExpired));
}

#[test]
fn signature_binds_method_path_timestamp_and_secret() {
    let wrong_method = signed(Some("1700000000"), Some(SIG_SEND), "GET", "/v1/mail/send");
    assert_eq!(verify_hmac_at(&wrong_method, "s3cr3t", 1_700_000_000), Err(AuthError::InvalidSignature));
    let wrong_path = signed(Some("1700000000"), Some(SIG_SEND), "POST", "/v1/mail/sent");
    assert_eq!(verify_hmac_at(&wrong_path, "s3cr3t", 1_700_000_000), Err(AuthError::InvalidSignature));
    let wrong_ts = signed(Some("1700000001"), Some(SIG_SEND), "POST", "/v1/mail/send");
    assert_eq!(verify_hmac_at(&wrong_ts, "s3cr3t", 1_700_000_000), Err(AuthError::InvalidSignature));
    let req = signed(Some("1700000000"), Some(SIG_SEND), "POST", "/v1/mail/send");
    assert_eq!(verify_hmac_at(&req, "other", 1_700_000_000), Err(AuthError::InvalidSignature));
}

#[test]
fn timestamp_text_is_signed_as_sent() {
    // "+1700000000" parses to the same instant, but the signed text differs.
    let req = signed(Some("+1700000000"), Some(SIG_SEND), "POST", "/v1/mail/send");
    assert_eq!(verify_hmac_at(&req, "s3cr3t", 1_700_000_000), Err(AuthError::InvalidSignature));
}

#[test]
fn empty_secret_signature() {
    let req = signed(Some("0"), Some("PGswseZyoVRIIDjJfH0Yxupu2G9oxiNGL0Y5VqJr0DA="), "GET", "/");
    assert_eq!(verify_hmac_at(&req, "", 100), Ok(()));
}

#[test]
fn missing_and_malformed_headers() {
    let r = signed(None, Some(SIG_SEND), "POST", "/v1/mail/send");
    assert_eq!(verify_hmac_at(&r, "s3cr3t", 0), Err(AuthError::MissingTimestamp));
    let r = signed(None, None, "POST", "/v1/mail/send");
    assert_eq!(verify_hmac_at(&r, "s3cr3t", 0), Err(AuthError::MissingTimestamp));
    let r = signed(Some("1700000000"), None, "POST", "/v1/mail/send");
    assert_eq!(verify_hmac_at(&r, "s3cr3t", 0), Err(AuthError::MissingSignature));
    for bad in ["abc", "", "+", "-5", "12a", "18446744073709551616", " 5"] {
        let r = signed(Some(bad), Some(SIG_SEND), "POST", "/v1/mail/send");
        assert_eq!(verify_hmac_at(&r, "s3cr3t", 0), Err(AuthError::InvalidTimestamp), "{bad}");
    }
}

#[test]
fn check_auth_modes() {
    let bad = signed(None, None, "GET", "/");
    assert_eq!(check_auth_at(&bad, &None, true, 0), Ok(()));
    assert_eq!(check_auth(&bad, &None, true), Ok(()));
    assert_eq!(check_auth_at(&bad, &None, false, 0), Err(AuthError::NoSecret));
    assert_eq!(check_auth(&bad, &None, false), Err(AuthError::NoSecret));
    let secret = Some("s3cr3t".to_string());
    assert_eq!(check_auth_at(&bad, &secret, false, 0), Err(AuthError::MissingTimestamp));
    let req = signed(Some("1700000000"), Some(SIG_SEND), "POST", "/v1/mail/send");
    assert_eq!(check_auth_at(&req, &secret, false, 1_700_000_010), Ok(()));
    // An old timestamp against the real clock is refused.
    assert_eq!(verify_hmac(&req, "s3cr3t"), Err(AuthError::TimestampExpired));
}

#[test]
fn auth_error_messages() {
    assert_eq!(AuthError::MissingTimestamp.message(), "Missing X-Vibe-Timestamp header");
    assert_eq!(AuthError::MissingSignature.message(), "Missing X-Vibe-Signature header");
    assert_eq!(AuthError::InvalidTimestamp.message(), "Invalid timestamp");
    assert_eq!(AuthError::TimestampExpired.message(), "Timestamp expired");
    assert_eq!(AuthError::HmacFailure.message(), "HMAC error");
    assert_eq!(AuthError::InvalidSignature.message(), "Invalid signature");
    assert_eq!(AuthError::NoSecret.message(), "No secret configured and dev mode is off");
    assert_eq!(AuthError::ClockUnavailable.message(), "Server clock unavailable");
}

#[test]
fn middleware_carries_settings() {
    let mw = AuthMiddleware::new(Some("k".to_string()), true);
    assert_eq!(mw.secret.as_deref(), Some("k"));
    assert!(mw.dev_mode);
    let svc = mw.new_transform(7u32);
    assert_eq!(*svc.service, 7);
    assert_eq!(svc.secret.as_deref(), Some("k"));
    assert!(svc.dev_mode);
    assert_eq!(svc.check(&signed(None, None, "GET", "/")), Ok(()));
    let strict = AuthMiddleware::new(None, false).new_transform(());
    assert_eq!(strict.check(&signed(None, None, "GET", "/")), Err(AuthError::NoSecret));
}
