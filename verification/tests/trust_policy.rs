use localsend_rs::client::{LocalSendClient, TlsTrustPolicy};
use localsend_rs::protocol::{DeviceInfo, Protocol};

#[test]
fn trust_policy_accepts_matching_fingerprint() {
    let policy = TlsTrustPolicy::new(vec!["trusted-fp".to_string()]);
    assert!(policy.allows("trusted-fp"));
}

#[test]
fn trust_policy_rejects_unknown_fingerprint() {
    let policy = TlsTrustPolicy::new(vec!["trusted-fp".to_string()]);
    assert!(!policy.allows("other-fp"));
}

#[test]
fn trust_policy_rejects_empty_fingerprints() {
    let policy = TlsTrustPolicy::new(vec!["trusted-fp".to_string()]);
    assert!(!policy.allows(""));
}

#[test]
fn trust_policy_insecure_accepts_anything_when_no_fingerprints() {
    let policy = TlsTrustPolicy::insecure();
    assert!(policy.allows(""));
    assert!(policy.allows("unknown-fp"));
}

#[test]
fn with_trust_policy_keeps_strict_policy_insecure_flag() {
    let device = DeviceInfo::new("alias".to_string(), 53317, Protocol::Https);
    let policy = TlsTrustPolicy::new(vec!["trusted-fp".to_string()]);

    let client = LocalSendClient::with_trust_policy(device, policy.clone());

    assert!(!policy.allows_insecure());
    assert!(!policy.allows(""));
    assert_eq!(client.device.alias, "alias");
    assert!(!client.accept_invalid_certs);
}

#[test]
fn blank_fingerprints_are_rejected_even_when_listed() {
    let policy = TlsTrustPolicy::new(vec![" ".to_string(), "\u{3000}\t".to_string(), "".to_string()]);
    assert!(!policy.allows(" "));
    assert!(!policy.allows("\u{3000}\t"));
    assert!(!policy.allows(""));
    let one = TlsTrustPolicy::new(vec![" x ".to_string()]);
    assert!(one.allows(" x "));
    assert!(!one.allows("x"));
}

#[test]
fn insecure_policy_accepts_unverified_certificates() {
    let device = DeviceInfo::new("alias".to_string(), 53317, Protocol::Https);
    assert!(TlsTrustPolicy::insecure().allows_insecure());
    assert!(TlsTrustPolicy::insecure().clone().allows("x"));
    assert!(LocalSendClient::with_trust_policy(device.clone(), TlsTrustPolicy::insecure())
        .accept_invalid_certs);
    assert!(LocalSendClient::new(device).accept_invalid_certs);
}
