use vstd::prelude::*;

use crate::errors::KeyExchangeError;
use pqcrypto::kem::mlkem1024;
use pqcrypto::traits::kem::{
    Ciphertext as CiphertextBytes, PublicKey as PublicKeyBytes, SecretKey as SecretKeyBytes,
    SharedSecret as SharedSecretBytes,
};

verus! {

/// Byte length of an ML-KEM-1024 public key.
pub const PUBLIC_KEY_LEN: usize = 1568;

/// Byte length of an ML-KEM-1024 secret key.
pub const SECRET_KEY_LEN: usize = 3168;

/// Byte length of an ML-KEM-1024 encapsulation ciphertext.
pub const CIPHERTEXT_LEN: usize = 1568;

/// Byte length of the shared secret a key exchange agrees on.
pub const SHARED_SECRET_LEN: usize = 32;

/// The shared secret that decapsulating `ct` under the secret key `sk`
/// yields. Decapsulation is a deterministic function of exactly these two
/// inputs, so the result may carry a name; nothing further is assumed of it.
pub uninterp spec fn kem_decap(ct: Seq<u8>, sk: Seq<u8>) -> Seq<u8>;

/// The public key that the secret key `sk` is the partner of, for secret
/// keys that key generation can produce; an abstract partner relation,
/// established only by `keypair_raw` and consumed by `encapsulate_raw`.
pub uninterp spec fn kem_public_of(sk: Seq<u8>) -> Seq<u8>;

/// What encapsulation against `pk` promises of its ciphertext and shared
/// secret: decapsulating that ciphertext under any partner secret key of
/// `pk` recovers exactly the encapsulated secret.
pub open spec fn encap_agrees(pk: Seq<u8>, ct: Seq<u8>, ss: Seq<u8>) -> bool {
    forall|sk: Seq<u8>| kem_public_of(sk) == pk ==> #[trigger] kem_decap(ct, sk) == ss
}

/// Relies on pqcrypto's `mlkem1024::keypair`: it returns a fresh ML-KEM-1024
/// key pair whose halves have the fixed lengths below and are partners of
/// each other (the mechanism's correctness makes decapsulation under the
/// returned secret key agree with every encapsulation against the returned
/// public key).
#[verifier::external_body]
fn keypair_raw() -> (r: (Vec<u8>, Vec<u8>))
    ensures
        r.0@.len() == PUBLIC_KEY_LEN,
        r.1@.len() == SECRET_KEY_LEN,
        kem_public_of(r.1@) == r.0@,
{
    let (pk, sk) = mlkem1024::keypair();
    (pk.as_bytes().to_vec(), sk.as_bytes().to_vec())
}

/// Relies on pqcrypto's `mlkem1024::encapsulate` and
/// `PublicKey::from_bytes`: `from_bytes` accepts exactly the fixed public
/// key length, and encapsulation returns a ciphertext and a shared secret
/// such that decapsulation of that ciphertext under the partner secret key
/// yields that same secret.
#[verifier::external_body]
fn encapsulate_raw(pk: &Vec<u8>) -> (r: (Vec<u8>, Vec<u8>))
    requires
        pk@.len() == PUBLIC_KEY_LEN,
    ensures
        r.0@.len() == CIPHERTEXT_LEN,
        r.1@.len() == SHARED_SECRET_LEN,
        encap_agrees(pk@, r.0@, r.1@),
{
    let key = mlkem1024::PublicKey::from_bytes(pk).unwrap();
    let (ss, ct) = mlkem1024::encapsulate(&key);
    (ct.as_bytes().to_vec(), ss.as_bytes().to_vec())
}

/// Relies on pqcrypto's `mlkem1024::decapsulate` and the `from_bytes`
/// constructors: `from_bytes` accepts exactly the fixed lengths, and
/// decapsulation is deterministic in the ciphertext and the secret key,
/// always returning a 32-byte secret.
#[verifier::external_body]
fn decapsulate_raw(ct: &Vec<u8>, sk: &Vec<u8>) -> (r: Vec<u8>)
    requires
        ct@.len() == CIPHERTEXT_LEN,
        sk@.len() == SECRET_KEY_LEN,
    ensures
        r@ == kem_decap(ct@, sk@),
        r@.len() == SHARED_SECRET_LEN,
{
    let ct = mlkem1024::Ciphertext::from_bytes(ct).unwrap();
    let sk = mlkem1024::SecretKey::from_bytes(sk).unwrap();
    mlkem1024::decapsulate(&ct, &sk).as_bytes().to_vec()
}

/// The long-term key-encapsulation key pair: generated once at startup,
/// immutable afterwards, exclusively owned by the key exchange module.
pub struct KyberWrapper {
    public_key: Vec<u8>,
    secret_key: Vec<u8>,
}

impl KyberWrapper {
    /// The bytes of the public half.
    pub closed spec fn pk_view(&self) -> Seq<u8> {
        self.public_key@
    }

    /// The bytes of the secret half; ghost only, never handed out.
    pub closed spec fn sk_view(&self) -> Seq<u8> {
        self.secret_key@
    }

    #[verifier::type_invariant]
    spec fn wf(&self) -> bool {
        &&& self.public_key@.len() == PUBLIC_KEY_LEN
        &&& self.secret_key@.len() == SECRET_KEY_LEN
        &&& kem_public_of(self.secret_key@) == self.public_key@
    }

    /// Generates the long-term key pair.
    pub fn new() -> (r: Self)
        ensures
            r.pk_view().len() == PUBLIC_KEY_LEN,
            r.sk_view().len() == SECRET_KEY_LEN,
            r.pk_view() == kem_public_of(r.sk_view()),
    {
        let (pk, sk) = keypair_raw();
        KyberWrapper { public_key: pk, secret_key: sk }
    }

    /// The public half, for handing to the encapsulating side.
    pub fn public_key(&self) -> (r: &Vec<u8>)
        ensures
            r@ == self.pk_view(),
            r@.len() == PUBLIC_KEY_LEN,
    {
        proof {
            use_type_invariant(self);
        }
        &self.public_key
    }

    /// Encapsulates against the pair's own public key: returns a ciphertext
    /// for the responding side and the shared secret it will recover, so
    /// that decapsulating the ciphertext yields exactly that secret.
    pub fn encrypt(&self) -> (r: (Vec<u8>, Vec<u8>))
        ensures
            r.0@.len() == CIPHERTEXT_LEN,
            r.1@.len() == SHARED_SECRET_LEN,
            r.1@ == kem_decap(r.0@, self.sk_view()),
    {
        proof {
            use_type_invariant(self);
        }
        let (ct, ss) = encapsulate_raw(&self.public_key);
        proof {
            assert(kem_decap(ct@, self.secret_key@) == ss@);
        }
        (ct, ss)
    }

    /// Decapsulates a received ciphertext under the secret half. Succeeds
    /// exactly on ciphertexts of the mechanism's fixed length, and then
    /// returns the decapsulated shared secret; a malformed ciphertext is
    /// rejected without any secret being produced.
    pub fn decrypt(&self, ct: &Vec<u8>) -> (r: Result<Vec<u8>, KeyExchangeError>)
        ensures
            r is Ok <==> ct@.len() == CIPHERTEXT_LEN,
            r matches Ok(ss) ==> ss@ == kem_decap(ct@, self.sk_view()) && ss@.len()
                == SHARED_SECRET_LEN,
            r matches Err(e) ==> e == KeyExchangeError::MalformedCiphertext,
    {
        proof {
            use_type_invariant(self);
        }
        if ct.len() != CIPHERTEXT_LEN {
            return Err(KeyExchangeError::MalformedCiphertext);
        }
        Ok(decapsulate_raw(ct, &self.secret_key))
    }

    /// Law witness, executable: one full exchange against this key pair —
    /// encapsulate, then decapsulate the produced ciphertext — and both
    /// sides' shared secrets, proven equal.
    pub fn exchange_round_trip(&self) -> (r: (Vec<u8>, Vec<u8>))
        ensures
            r.0@ == r.1@,
    {
        let (ct, ss) = self.encrypt();
        match self.decrypt(&ct) {
            Ok(ss2) => (ss, ss2),
            Err(_) => {
                proof {
                    assert(false);
                }
                (Vec::new(), Vec::new())
            },
        }
    }
}

/// Law: both sides of one exchange agree on the shared secret. Whatever
/// encapsulation against a public key promises (`encap_agrees`), the partner
/// secret key's decapsulation of the exchanged ciphertext is exactly the
/// encapsulated secret.
pub proof fn lemma_exchange_agreement(pk: Seq<u8>, sk: Seq<u8>, ct: Seq<u8>, ss: Seq<u8>)
    requires
        kem_public_of(sk) == pk,
        encap_agrees(pk, ct, ss),
    ensures
        kem_decap(ct, sk) == ss,
{
}

} // verus!
