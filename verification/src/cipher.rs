use vstd::bytes::{
    lemma_auto_spec_u64_to_from_le_bytes, spec_u64_from_le_bytes, spec_u64_to_le_bytes,
    u64_to_le_bytes,
};
use vstd::prelude::*;
use vstd::slice::slice_subrange;

use crate::errors::{AuthError, CryptoError};
use ring::aead::{Aad, LessSafeKey, Nonce, UnboundKey, AES_256_GCM};
use ring::hkdf::{Salt, HKDF_SHA256};

verus! {

/// Byte length of an AEAD nonce.
pub const NONCE_LEN: usize = 12;

/// Byte length of the authentication tag the cipher appends.
pub const TAG_LEN: usize = 16;

/// Byte length of a derived symmetric key.
pub const KEY_LEN: usize = 32;

/// Largest plaintext accepted by one seal; comfortably below the cipher's
/// own per-call input limit, so a seal within this bound always succeeds.
pub const MAX_PLAINTEXT_LEN: usize = 0x7fff_ffff;

/// The 32 bytes that the key-derivation function produces from input keying
/// material `ikm`, salt `salt` and context info `info`: a deterministic
/// function of exactly these three inputs.
pub uninterp spec fn kdf_of(ikm: Seq<u8>, salt: Seq<u8>, info: Seq<u8>) -> Seq<u8>;

/// The ciphertext-and-tag bytes the AEAD cipher produces when sealing
/// plaintext `pt` under `key` and `nonce`: a deterministic function of
/// exactly these three inputs.
pub uninterp spec fn aead_seal_of(key: Seq<u8>, nonce: Seq<u8>, pt: Seq<u8>) -> Seq<u8>;

/// What opening ciphertext-and-tag bytes `body` under `key` and `nonce`
/// yields: the authenticated plaintext, or nothing when verification fails.
/// A deterministic function of exactly these three inputs.
pub uninterp spec fn aead_open_of(key: Seq<u8>, nonce: Seq<u8>, body: Seq<u8>) -> Option<Seq<u8>>;

/// Relies on ring's HKDF-SHA256 (`Salt::new`, `Salt::extract`,
/// `Prk::expand`, `Okm::fill`): extract-then-expand is a deterministic
/// function of salt, input keying material and info, and a 32-byte output
/// is always within the expansion limit, so derivation cannot fail.
#[verifier::external_body]
fn hkdf_derive(ikm: &[u8], salt: &[u8], info: &[u8]) -> (r: Vec<u8>)
    ensures
        r@ == kdf_of(ikm@, salt@, info@),
        r@.len() == KEY_LEN,
{
    let salt = Salt::new(HKDF_SHA256, salt);
    let prk = salt.extract(ikm);
    let info_parts = [info];
    let okm = prk.expand(&info_parts, HKDF_SHA256).unwrap();
    let mut out = vec![0u8; KEY_LEN];
    okm.fill(&mut out).unwrap();
    out
}

/// Relies on ring's AES-256-GCM sealing (`UnboundKey::new`,
/// `LessSafeKey::seal_in_place_append_tag`): with a 32-byte key, a 12-byte
/// nonce and an input below the cipher's per-call limit it succeeds,
/// appends a 16-byte tag, is deterministic in key, nonce and plaintext,
/// and its output opens back to exactly the sealed plaintext.
#[verifier::external_body]
fn aead_seal_raw(key: &[u8], nonce: &[u8], pt: &[u8]) -> (r: Vec<u8>)
    requires
        key@.len() == KEY_LEN,
        nonce@.len() == NONCE_LEN,
        pt@.len() <= MAX_PLAINTEXT_LEN,
    ensures
        r@ == aead_seal_of(key@, nonce@, pt@),
        r@.len() == pt@.len() + TAG_LEN,
        aead_open_of(key@, nonce@, r@) == Some(pt@),
{
    let key = LessSafeKey::new(UnboundKey::new(&AES_256_GCM, key).unwrap());
    let nonce = Nonce::try_assume_unique_for_key(nonce).unwrap();
    let mut buf = pt.to_vec();
    key.seal_in_place_append_tag(nonce, Aad::empty(), &mut buf).unwrap();
    buf
}

/// Relies on ring's AES-256-GCM opening (`UnboundKey::new`,
/// `LessSafeKey::open_in_place`): with a 32-byte key and a 12-byte nonce it
/// is deterministic in key, nonce and input, returns the authenticated
/// plaintext (16 bytes shorter than the input) exactly when the tag
/// verifies, and fails closed otherwise, revealing nothing.
#[verifier::external_body]
fn aead_open_raw(key: &[u8], nonce: &[u8], body: &[u8]) -> (r: Result<Vec<u8>, ()>)
    requires
        key@.len() == KEY_LEN,
        nonce@.len() == NONCE_LEN,
    ensures
        r matches Ok(p) ==> aead_open_of(key@, nonce@, body@) == Some(p@),
        r is Err ==> aead_open_of(key@, nonce@, body@) is None,
        r matches Ok(p) ==> p@.len() + TAG_LEN == body@.len(),
{
    let key = LessSafeKey::new(UnboundKey::new(&AES_256_GCM, key).map_err(|_| ())?);
    let nonce = Nonce::try_assume_unique_for_key(nonce).map_err(|_| ())?;
    let mut buf = body.to_vec();
    let pt = key.open_in_place(nonce, Aad::empty(), &mut buf).map_err(|_| ())?;
    Ok(pt.to_vec())
}

/// The 12-byte nonce that encodes seal counter `c`: the counter in
/// little-endian order, padded with four zero bytes.
pub open spec fn nonce_seq(c: u64) -> Seq<u8> {
    spec_u64_to_le_bytes(c) + seq![0u8, 0u8, 0u8, 0u8]
}

/// Encodes a seal counter as a 12-byte nonce.
pub fn nonce_bytes(c: u64) -> (r: Vec<u8>)
    ensures
        r@ == nonce_seq(c),
        r@.len() == NONCE_LEN,
{
    let mut v = u64_to_le_bytes(c);
    v.push(0);
    v.push(0);
    v.push(0);
    v.push(0);
    proof {
        assert(v@ =~= nonce_seq(c));
    }
    v
}

/// Law: the nonce encoding is injective, so two seals whose counters differ
/// use distinct nonces.
pub proof fn lemma_nonce_injective(c1: u64, c2: u64)
    requires
        c1 != c2,
    ensures
        nonce_seq(c1) != nonce_seq(c2),
{
    lemma_auto_spec_u64_to_from_le_bytes();
    if nonce_seq(c1) == nonce_seq(c2) {
        assert(spec_u64_to_le_bytes(c1) =~= nonce_seq(c1).subrange(0, 8));
        assert(spec_u64_to_le_bytes(c2) =~= nonce_seq(c2).subrange(0, 8));
        assert(spec_u64_from_le_bytes(spec_u64_to_le_bytes(c1)) == c1);
        assert(spec_u64_from_le_bytes(spec_u64_to_le_bytes(c2)) == c2);
        assert(false);
    }
}

/// Law: across any number of seals under one session key the nonces are
/// pairwise distinct. Each successful seal uses the key's current counter
/// and increments it, so the counters of successive seals are pairwise
/// distinct, and by injectivity of the encoding so are the nonces.
pub proof fn lemma_nonces_pairwise_distinct(counters: Seq<u64>)
    requires
        forall|i: int, j: int|
            0 <= i < j < counters.len() ==> counters[i] != counters[j],
    ensures
        forall|i: int, j: int|
            0 <= i < j < counters.len() ==> nonce_seq(counters[i]) != nonce_seq(counters[j]),
{
    assert forall|i: int, j: int|
        0 <= i < j < counters.len() implies nonce_seq(counters[i]) != nonce_seq(
        counters[j],
    ) by {
        lemma_nonce_injective(counters[i], counters[j]);
    }
}

/// What opening a sealed frame under `key` yields: the frame is split into
/// a 12-byte nonce and a ciphertext-and-tag body (so it must hold at least
/// the nonce and a 16-byte tag), and the body is opened under the embedded
/// nonce.
pub open spec fn spec_open(key: Seq<u8>, frame: Seq<u8>) -> Option<Seq<u8>> {
    if frame.len() < NONCE_LEN + TAG_LEN {
        None
    } else {
        aead_open_of(
            key,
            frame.subrange(0, NONCE_LEN as int),
            frame.subrange(NONCE_LEN as int, frame.len() as int),
        )
    }
}

/// Law: a frame assembled as nonce-then-body whose body opens to `pt`
/// under that nonce opens as a whole frame to exactly `pt`; opening
/// inverts sealing.
pub proof fn lemma_seal_open_round_trip(key: Seq<u8>, nonce: Seq<u8>, body: Seq<u8>, pt: Seq<u8>)
    requires
        nonce.len() == NONCE_LEN,
        body.len() == pt.len() + TAG_LEN,
        aead_open_of(key, nonce, body) == Some(pt),
    ensures
        spec_open(key, nonce + body) == Some(pt),
{
    let frame = nonce + body;
    assert(frame.subrange(0, NONCE_LEN as int) =~= nonce);
    assert(frame.subrange(NONCE_LEN as int, frame.len() as int) =~= body);
}

/// Per-tunnel symmetric key material together with its nonce state: derived
/// once per tunnel from a shared secret, owned by exactly one tunnel, and
/// never reused across tunnels. The counter makes every seal's nonce fresh.
pub struct SessionKey {
    key: Vec<u8>,
    next_nonce: u64,
}

/// Derives a per-session symmetric key from a shared secret via the
/// key-derivation function. The context label binds the key to its usage
/// and the salt to the one connection, so the same shared secret used with
/// a different label or salt derives a different key.
pub fn derive_key(shared_secret: &[u8], context_label: &[u8], salt: &[u8]) -> (r: SessionKey)
    ensures
        r.key_view() == kdf_of(shared_secret@, salt@, context_label@),
        r.counter() == 0,
{
    let key = hkdf_derive(shared_secret, salt, context_label);
    SessionKey { key, next_nonce: 0 }
}

impl SessionKey {
    /// The derived key bytes; ghost only, never handed out.
    pub closed spec fn key_view(&self) -> Seq<u8> {
        self.key@
    }

    /// The counter whose value the next seal will use as its nonce.
    pub closed spec fn counter(&self) -> u64 {
        self.next_nonce
    }

    #[verifier::type_invariant]
    spec fn wf(&self) -> bool {
        self.key@.len() == KEY_LEN
    }

    /// Seals a plaintext: encodes the key's current counter as a fresh
    /// nonce, encrypts and authenticates the plaintext, and returns the
    /// nonce followed by ciphertext and tag. Succeeds exactly when a fresh
    /// nonce is left and the plaintext is within the cipher's one-call
    /// bound; the counter advances only on success, so no nonce is ever
    /// used for two seals under this key.
    pub fn seal(&mut self, plaintext: &[u8]) -> (r: Result<Vec<u8>, CryptoError>)
        ensures
            final(self).key_view() == old(self).key_view(),
            r is Ok <==> (old(self).counter() < u64::MAX && plaintext@.len()
                <= MAX_PLAINTEXT_LEN),
            r is Ok ==> final(self).counter() == old(self).counter() + 1,
            r is Err ==> final(self).counter() == old(self).counter(),
            r matches Ok(frame) ==> frame@ == nonce_seq(old(self).counter()) + aead_seal_of(
                old(self).key_view(),
                nonce_seq(old(self).counter()),
                plaintext@,
            ),
            r matches Ok(frame) ==> spec_open(old(self).key_view(), frame@) == Some(plaintext@),
            r matches Err(e) ==> (e == CryptoError::NonceExhausted <==> old(self).counter()
                == u64::MAX),
    {
        proof {
            use_type_invariant(&*self);
        }
        if self.next_nonce == u64::MAX {
            return Err(CryptoError::NonceExhausted);
        }
        if plaintext.len() > MAX_PLAINTEXT_LEN {
            return Err(CryptoError::MessageTooLong);
        }
        let nonce = nonce_bytes(self.next_nonce);
        let mut body = aead_seal_raw(self.key.as_slice(), nonce.as_slice(), plaintext);
        proof {
            lemma_seal_open_round_trip(self.key@, nonce@, body@, plaintext@);
        }
        let mut frame = nonce;
        frame.append(&mut body);
        self.next_nonce = self.next_nonce + 1;
        Ok(frame)
    }

    /// Opens a sealed frame: splits nonce, ciphertext and tag, decrypts and
    /// verifies. Returns the authenticated plaintext exactly when the frame
    /// verifies under this key; any mismatch — a frame too short to carry a
    /// nonce and tag, or a failing tag — is rejected fail-closed, with not
    /// a byte of plaintext revealed.
    pub fn open(&self, framed: &[u8]) -> (r: Result<Vec<u8>, AuthError>)
        ensures
            r is Ok <==> spec_open(self.key_view(), framed@) is Some,
            r matches Ok(p) ==> spec_open(self.key_view(), framed@) == Some(p@),
            r matches Err(e) ==> e == AuthError::TagMismatch,
    {
        proof {
            use_type_invariant(self);
        }
        if framed.len() < NONCE_LEN + TAG_LEN {
            return Err(AuthError::TagMismatch);
        }
        let nonce = slice_subrange(framed, 0, NONCE_LEN);
        let body = slice_subrange(framed, NONCE_LEN, framed.len());
        match aead_open_raw(self.key.as_slice(), nonce, body) {
            Ok(p) => Ok(p),
            Err(_) => Err(AuthError::TagMismatch),
        }
    }
}

/// The context label that binds a per-message sealing key to its usage.
pub open spec fn enc_label() -> Seq<u8> {
    seq![101u8, 110u8, 99u8, 114u8, 121u8, 112u8, 116u8, 105u8, 111u8, 110u8]
}

/// The label bytes, spelling "encryption" in ASCII.
pub fn enc_label_bytes() -> (r: Vec<u8>)
    ensures
        r@ == enc_label(),
{
    let v: Vec<u8> = vec![101u8, 110u8, 99u8, 114u8, 121u8, 112u8, 116u8, 105u8, 111u8, 110u8];
    proof {
        assert(v@ =~= enc_label());
    }
    v
}

/// What decrypting an engine frame under long-term key `key` yields: the
/// embedded nonce both names the per-message sealing key (through the
/// key-derivation function, salted with `key`) and is the nonce the body is
/// opened under.
pub open spec fn spec_engine_open(key: Seq<u8>, frame: Seq<u8>) -> Option<Seq<u8>> {
    if frame.len() < NONCE_LEN + TAG_LEN {
        None
    } else {
        aead_open_of(
            kdf_of(frame.subrange(0, NONCE_LEN as int), key, enc_label()),
            frame.subrange(0, NONCE_LEN as int),
            frame.subrange(NONCE_LEN as int, frame.len() as int),
        )
    }
}

/// A symmetric engine over a long-term 32-byte key: each message is sealed
/// under a per-message key derived from the long-term key and the message's
/// fresh counter nonce, and the frame carries the nonce ahead of ciphertext
/// and tag.
pub struct CryptoEngine {
    key: Vec<u8>,
    next_nonce: u64,
}

impl CryptoEngine {
    /// The long-term key bytes; ghost only, never handed out.
    pub closed spec fn key_view(&self) -> Seq<u8> {
        self.key@
    }

    /// The counter whose value the next encryption will use as its nonce.
    pub closed spec fn counter(&self) -> u64 {
        self.next_nonce
    }

    #[verifier::type_invariant]
    spec fn wf(&self) -> bool {
        self.key@.len() == KEY_LEN
    }

    /// Takes ownership of a long-term key; the first encryption will use
    /// counter zero.
    pub fn new(key: [u8; 32]) -> (r: Self)
        ensures
            r.key_view() == key@,
            r.counter() == 0,
    {
        let mut k: Vec<u8> = Vec::new();
        let mut i: usize = 0;
        while i < 32
            invariant
                i <= 32,
                k@ =~= key@.subrange(0, i as int),
            decreases 32 - i,
        {
            k.push(key[i]);
            i = i + 1;
        }
        proof {
            assert(k@ =~= key@);
        }
        CryptoEngine { key: k, next_nonce: 0 }
    }

    /// Seals one message: derives the per-message sealing key from the
    /// long-term key and the counter nonce, encrypts and authenticates the
    /// data, and returns nonce, ciphertext and tag as one frame that
    /// `decrypt` inverts. Succeeds exactly when a fresh nonce is left and
    /// the data is within the cipher's one-call bound; the counter advances
    /// only on success.
    pub fn encrypt(&mut self, data: &[u8]) -> (r: Result<Vec<u8>, CryptoError>)
        ensures
            final(self).key_view() == old(self).key_view(),
            r is Ok <==> (old(self).counter() < u64::MAX && data@.len() <= MAX_PLAINTEXT_LEN),
            r is Ok ==> final(self).counter() == old(self).counter() + 1,
            r is Err ==> final(self).counter() == old(self).counter(),
            r matches Ok(frame) ==> frame@ == nonce_seq(old(self).counter()) + aead_seal_of(
                kdf_of(nonce_seq(old(self).counter()), old(self).key_view(), enc_label()),
                nonce_seq(old(self).counter()),
                data@,
            ),
            r matches Ok(frame) ==> spec_engine_open(old(self).key_view(), frame@) == Some(data@),
            r matches Err(e) ==> (e == CryptoError::NonceExhausted <==> old(self).counter()
                == u64::MAX),
    {
        proof {
            use_type_invariant(&*self);
        }
        if self.next_nonce == u64::MAX {
            return Err(CryptoError::NonceExhausted);
        }
        if data.len() > MAX_PLAINTEXT_LEN {
            return Err(CryptoError::MessageTooLong);
        }
        let nonce = nonce_bytes(self.next_nonce);
        let label = enc_label_bytes();
        let msg_key = hkdf_derive(nonce.as_slice(), self.key.as_slice(), label.as_slice());
        let mut body = aead_seal_raw(msg_key.as_slice(), nonce.as_slice(), data);
        let ghost nonce_view = nonce@;
        let ghost body_view = body@;
        let mut frame = nonce;
        frame.append(&mut body);
        proof {
            assert(frame@.subrange(0, NONCE_LEN as int) =~= nonce_view);
            assert(frame@.subrange(NONCE_LEN as int, frame@.len() as int) =~= body_view);
        }
        self.next_nonce = self.next_nonce + 1;
        Ok(frame)
    }

    /// Opens one engine frame: re-derives the per-message key from the
    /// embedded nonce and verifies the body. Returns the authenticated
    /// plaintext exactly when the frame verifies; any mismatch is rejected
    /// fail-closed.
    pub fn decrypt(&self, frame: &[u8]) -> (r: Result<Vec<u8>, AuthError>)
        ensures
            r is Ok <==> spec_engine_open(self.key_view(), frame@) is Some,
            r matches Ok(p) ==> spec_engine_open(self.key_view(), frame@) == Some(p@),
            r matches Err(e) ==> e == AuthError::TagMismatch,
    {
        proof {
            use_type_invariant(self);
        }
        if frame.len() < NONCE_LEN + TAG_LEN {
            return Err(AuthError::TagMismatch);
        }
        let nonce = slice_subrange(frame, 0, NONCE_LEN);
        let body = slice_subrange(frame, NONCE_LEN, frame.len());
        let label = enc_label_bytes();
        let msg_key = hkdf_derive(nonce, self.key.as_slice(), label.as_slice());
        match aead_open_raw(msg_key.as_slice(), nonce, body) {
            Ok(p) => Ok(p),
            Err(_) => Err(AuthError::TagMismatch),
        }
    }
}

} // verus!
