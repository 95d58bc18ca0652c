use linkwithmentor::gateway::security::{
    client_ip, ddos_outcome, first_forwarded, header_outcome, ip_rate_outcome, ip_restriction_outcome,
    is_attack_path, is_bot_user_agent, next_failed_attempts, security_key, suspicious_pattern_outcome,
    CSRFProtection, SecurityHeaders, SecurityKey,
};

#[test]
fn csrf_token_is_base64_of_sha256() {
    assert_eq!(
        CSRFProtection::generate_token("user-1", 1700000000),
        "zVi1OFw21BnZeFVd0i6shTyEdUAwsKbhDVhwbLmgsyw="
    );
    assert_eq!(
        CSRFProtection::generate_token("abc", -5),
        "PwrXpI1sCrgfGi8xrT3zsJDxpTHTzA2sfyExSk5nx4I="
    );
}

#[test]
fn fresh_csrf_token_validates_within_its_age() {
    let token = CSRFProtection::generate_token("user-1", 1700000000);
    assert!(CSRFProtection::validate_token_at(&token, "user-1", 10, 1700000000));
    assert!(CSRFProtection::validate_token_at(&token, "user-1", 10, 1700000009));
    assert!(!CSRFProtection::validate_token_at(&token, "user-1", 10, 1700000010));
    assert!(!CSRFProtection::validate_token_at(&token, "user-2", 10, 1700000000));
    assert!(!CSRFProtection::validate_token_at(&token, "user-1", 0, 1700000000));
}

#[test]
fn csrf_token_against_the_clock() {
    assert!(!CSRFProtection::validate_token("whatever", "user-1", 0));
    assert!(!CSRFProtection::validate_token("not-a-token", "user-1", 3));
}

#[test]
fn security_headers_in_order() {
    let h = SecurityHeaders::add_security_headers();
    assert_eq!(h.len(), 8);
    assert_eq!(h[0].0, "content-security-policy");
    assert_eq!(h[2], ("x-frame-options".to_string(), "DENY".to_string()));
    assert_eq!(h[3], ("x-content-type-options".to_string(), "nosniff".to_string()));
    assert_eq!(h[7], ("server".to_string(), "LinkWithMentor".to_string()));
}

#[test]
fn security_keys_by_kind() {
    assert_eq!(security_key(SecurityKey::Blocklist, "1.2.3.4"), "ip_blocklist:1.2.3.4");
    assert_eq!(security_key(SecurityKey::FailedAttempts, "x"), "failed_attempts:x");
    assert_eq!(security_key(SecurityKey::DdosFrequency, "x"), "ddos_freq:x");
}

#[test]
fn client_address_from_forwarding_headers() {
    assert_eq!(first_forwarded(" 10.0.0.1 , 10.0.0.2"), "10.0.0.1");
    assert_eq!(first_forwarded("10.0.0.3"), "10.0.0.3");
    assert_eq!(client_ip(Some("10.0.0.1"), true, Some("10.0.0.9"), true), "10.0.0.1");
    assert_eq!(client_ip(Some("garbage"), false, Some("10.0.0.9"), true), "10.0.0.9");
    assert_eq!(client_ip(None, false, Some("nope"), false), "unknown");
}

#[test]
fn address_restrictions() {
    assert_eq!(ip_restriction_outcome(true, 0).unwrap_err().status, 403);
    let e = ip_restriction_outcome(false, 11).unwrap_err();
    assert_eq!(e.status, 429);
    assert_eq!(e.message, "Too many failed attempts. IP temporarily blocked.");
    assert!(ip_restriction_outcome(false, 10).is_ok());
    assert_eq!(next_failed_attempts(4), 5);
}

#[test]
fn bots_are_recognised_in_any_case() {
    assert!(is_bot_user_agent("Googlebot/2.1"));
    assert!(is_bot_user_agent("CURL/8.0"));
    assert!(is_bot_user_agent("python-requests/2.31"));
    assert!(!is_bot_user_agent("Mozilla/5.0"));
}

#[test]
fn suspicious_patterns_in_order() {
    assert_eq!(suspicious_pattern_outcome("/a/../b", None, false).unwrap_err().status, 429);
    let e = suspicious_pattern_outcome("/a/../b", None, true).unwrap_err();
    assert_eq!((e.status, e.message.as_str()), (400, "Invalid path"));
    let e = suspicious_pattern_outcome("/users", Some("q=1 UNION SELECT"), true).unwrap_err();
    assert_eq!(e.message, "Invalid query parameters");
    assert!(suspicious_pattern_outcome("/users", Some("page=2"), true).is_ok());
    assert!(suspicious_pattern_outcome("/x/%2e%2e/y", None, true).is_err());
}

#[test]
fn oversized_headers_are_refused() {
    assert!(header_outcome(&vec![10, 8192]).is_ok());
    let e = header_outcome(&vec![10, 8193]).unwrap_err();
    assert_eq!((e.status, e.message.as_str()), (400, "Header too long"));
}

#[test]
fn probed_paths_and_rate_limits() {
    assert!(is_attack_path("/wp-admin/setup.php"));
    assert!(is_attack_path("/.git/config"));
    assert!(!is_attack_path("/users/me"));
    assert!(ip_rate_outcome(true).is_ok());
    assert_eq!(ip_rate_outcome(false).unwrap_err().message, "IP rate limit exceeded");
    assert_eq!(ddos_outcome(1000).unwrap(), 1001);
    assert_eq!(ddos_outcome(1001).unwrap_err().status, 429);
}
