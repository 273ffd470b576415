use zt_tunnel::errors::KeyExchangeError;
use zt_tunnel::kem::{KyberWrapper, CIPHERTEXT_LEN, PUBLIC_KEY_LEN, SHARED_SECRET_LEN};

#[test]
fn exchange_agreement() {
    let kw = KyberWrapper::new();
    let (ct, ss) = kw.encrypt();
    assert_eq!(ct.len(), CIPHERTEXT_LEN);
    assert_eq!(ss.len(), SHARED_SECRET_LEN);
    let ss2 = kw.decrypt(&ct).expect("well-formed ciphertext must decapsulate");
    assert_eq!(ss, ss2);
}

#[test]
fn exchange_round_trip_witness() {
    let kw = KyberWrapper::new();
    let (a, b) = kw.exchange_round_trip();
    assert_eq!(a, b);
    assert_eq!(a.len(), SHARED_SECRET_LEN);
}

#[test]
fn public_key_length() {
    let kw = KyberWrapper::new();
    assert_eq!(kw.public_key().len(), PUBLIC_KEY_LEN);
}

#[test]
fn malformed_ciphertext_rejected() {
    let kw = KyberWrapper::new();
    assert_eq!(kw.decrypt(&vec![0u8; 10]), Err(KeyExchangeError::MalformedCiphertext));
    assert_eq!(
        kw.decrypt(&vec![0u8; CIPHERTEXT_LEN - 1]),
        Err(KeyExchangeError::MalformedCiphertext)
    );
    assert_eq!(
        kw.decrypt(&vec![0u8; CIPHERTEXT_LEN + 1]),
        Err(KeyExchangeError::MalformedCiphertext)
    );
    assert_eq!(kw.decrypt(&Vec::new()), Err(KeyExchangeError::MalformedCiphertext));
}

#[test]
fn distinct_keypairs_disagree() {
    let kw1 = KyberWrapper::new();
    let kw2 = KyberWrapper::new();
    let (ct, ss) = kw1.encrypt();
    // Decapsulating under an unrelated secret key cannot recover the secret.
    let other = kw2.decrypt(&ct).expect("length is right, so decapsulation runs");
    assert_ne!(ss, other);
}
