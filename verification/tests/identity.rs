use zt_tunnel::errors::AuthError;
use zt_tunnel::identity::{bytes_eq, IdentityVerifier, PeerIdentity, StaticVerifier};

fn pinned_verifier() -> StaticVerifier {
    StaticVerifier {
        expected_certificate: b"peer-cert".to_vec(),
        expected_token: b"peer-token".to_vec(),
        required_subject: b"backend-client".to_vec(),
        identity: PeerIdentity {
            fingerprint: vec![0xab; 32],
            subject: b"backend-client".to_vec(),
            valid_from: 100,
            valid_until: 200,
        },
        now: 150,
    }
}

#[test]
fn valid_peer_accepted() {
    let v = pinned_verifier();
    let id = v.validate(b"peer-cert", b"peer-token").expect("pinned peer is accepted");
    assert_eq!(id.subject, b"backend-client".to_vec());
    assert_eq!(id.fingerprint, vec![0xab; 32]);
    assert_eq!(id.valid_from, 100);
    assert_eq!(id.valid_until, 200);
}

#[test]
fn missing_certificate_rejected() {
    let v = pinned_verifier();
    assert_eq!(v.validate(b"", b"peer-token").unwrap_err(), AuthError::CertMissing);
}

#[test]
fn wrong_certificate_rejected() {
    let v = pinned_verifier();
    assert_eq!(v.validate(b"other-cert", b"peer-token").unwrap_err(), AuthError::CertInvalid);
}

#[test]
fn wrong_token_rejected() {
    let v = pinned_verifier();
    assert_eq!(v.validate(b"peer-cert", b"forged").unwrap_err(), AuthError::TokenInvalid);
}

#[test]
fn expired_token_rejected() {
    let mut v = pinned_verifier();
    v.now = 201;
    assert_eq!(v.validate(b"peer-cert", b"peer-token").unwrap_err(), AuthError::TokenExpired);
    v.now = 99;
    assert_eq!(v.validate(b"peer-cert", b"peer-token").unwrap_err(), AuthError::TokenExpired);
}

#[test]
fn claim_mismatch_rejected() {
    let mut v = pinned_verifier();
    v.required_subject = b"someone-else".to_vec();
    assert_eq!(v.validate(b"peer-cert", b"peer-token").unwrap_err(), AuthError::ClaimMismatch);
}

#[test]
fn bytes_eq_agrees_with_equality() {
    assert!(bytes_eq(b"", b""));
    assert!(bytes_eq(b"abc", b"abc"));
    assert!(!bytes_eq(b"abc", b"abd"));
    assert!(!bytes_eq(b"abc", b"abcd"));
}
