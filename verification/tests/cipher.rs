use zt_tunnel::cipher::{derive_key, CryptoEngine, NONCE_LEN, TAG_LEN};
use zt_tunnel::errors::AuthError;

fn fresh_key() -> zt_tunnel::cipher::SessionKey {
    let secret = vec![7u8; 32];
    let label = b"tunnel-encryption".to_vec();
    let salt = b"connection-0001".to_vec();
    derive_key(&secret, &label, &salt)
}

#[test]
fn seal_open_round_trip() {
    let mut key = fresh_key();
    let plaintext = b"refuse to forward a single byte".to_vec();
    let frame = key.seal(&plaintext).expect("sealing within bounds succeeds");
    assert_eq!(frame.len(), NONCE_LEN + plaintext.len() + TAG_LEN);
    let opened = key.open(&frame).expect("a sealed frame opens under its key");
    assert_eq!(opened, plaintext);
}

#[test]
fn seal_open_round_trip_empty() {
    let mut key = fresh_key();
    let frame = key.seal(&[]).expect("sealing an empty plaintext succeeds");
    assert_eq!(frame.len(), NONCE_LEN + TAG_LEN);
    let opened = key.open(&frame).expect("the empty frame opens");
    assert_eq!(opened, Vec::<u8>::new());
}

#[test]
fn any_bit_flip_in_ciphertext_or_tag_fails() {
    let mut key = fresh_key();
    let plaintext = b"abc".to_vec();
    let frame = key.seal(&plaintext).expect("seal");
    // Flip every single bit of the ciphertext and of the tag in turn; each
    // corrupted frame must be rejected with a tag mismatch, never opened.
    for byte in NONCE_LEN..frame.len() {
        for bit in 0..8 {
            let mut corrupted = frame.clone();
            corrupted[byte] ^= 1u8 << bit;
            assert_eq!(key.open(&corrupted), Err(AuthError::TagMismatch));
        }
    }
}

#[test]
fn truncated_frame_fails_closed() {
    let mut key = fresh_key();
    let frame = key.seal(b"abc").expect("seal");
    assert_eq!(key.open(&frame[..NONCE_LEN + TAG_LEN - 1]), Err(AuthError::TagMismatch));
    assert_eq!(key.open(&[]), Err(AuthError::TagMismatch));
    assert_eq!(key.open(&frame[..frame.len() - 1]), Err(AuthError::TagMismatch));
}

#[test]
fn wrong_key_fails_closed() {
    let mut key = fresh_key();
    let other = derive_key(&vec![8u8; 32], b"tunnel-encryption", b"connection-0001");
    let frame = key.seal(b"abc").expect("seal");
    assert_eq!(other.open(&frame), Err(AuthError::TagMismatch));
}

#[test]
fn label_binds_derived_key() {
    let secret = vec![7u8; 32];
    let salt = b"connection-0001".to_vec();
    let mut enc = derive_key(&secret, b"tunnel-encryption", &salt);
    let mac = derive_key(&secret, b"tunnel-integrity", &salt);
    let frame = enc.seal(b"abc").expect("seal");
    // The same shared secret under a different usage label derives a
    // different key, so the frame must not open.
    assert_eq!(mac.open(&frame), Err(AuthError::TagMismatch));
}

#[test]
fn salt_binds_derived_key() {
    let secret = vec![7u8; 32];
    let mut one = derive_key(&secret, b"tunnel-encryption", b"connection-0001");
    let two = derive_key(&secret, b"tunnel-encryption", b"connection-0002");
    let frame = one.seal(b"abc").expect("seal");
    assert_eq!(two.open(&frame), Err(AuthError::TagMismatch));
}

#[test]
fn nonces_pairwise_distinct_across_seals() {
    let mut key = fresh_key();
    let mut nonces: Vec<Vec<u8>> = Vec::new();
    for _ in 0..32 {
        let frame = key.seal(b"payload").expect("seal");
        nonces.push(frame[..NONCE_LEN].to_vec());
    }
    for i in 0..nonces.len() {
        for j in (i + 1)..nonces.len() {
            assert_ne!(nonces[i], nonces[j]);
        }
    }
}

#[test]
fn engine_round_trip() {
    let mut engine = CryptoEngine::new([9u8; 32]);
    let data = b"engine payload".to_vec();
    let frame = engine.encrypt(&data).expect("encrypt");
    assert_eq!(frame.len(), NONCE_LEN + data.len() + TAG_LEN);
    let opened = engine.decrypt(&frame).expect("an engine frame opens");
    assert_eq!(opened, data);
}

#[test]
fn engine_bit_flip_fails() {
    let mut engine = CryptoEngine::new([9u8; 32]);
    let frame = engine.encrypt(b"xyz").expect("encrypt");
    for byte in NONCE_LEN..frame.len() {
        let mut corrupted = frame.clone();
        corrupted[byte] ^= 0x01;
        assert_eq!(engine.decrypt(&corrupted), Err(AuthError::TagMismatch));
    }
}

#[test]
fn engine_frames_use_distinct_nonces() {
    let mut engine = CryptoEngine::new([9u8; 32]);
    let a = engine.encrypt(b"one").expect("encrypt");
    let b = engine.encrypt(b"one").expect("encrypt");
    assert_ne!(a[..NONCE_LEN], b[..NONCE_LEN]);
    // Same plaintext, fresh nonce: the whole frame differs too.
    assert_ne!(a, b);
}
