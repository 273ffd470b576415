use vstd::prelude::*;

use crate::errors::AuthError;

verus! {

/// A verified peer: the certificate's fingerprint, the token's subject
/// claim, and the validity window of the token, inclusive at both ends.
/// Consumed only to gate the transition into key exchange; not retained
/// after the tunnel closes.
#[derive(Debug)]
pub struct PeerIdentity {
    pub fingerprint: Vec<u8>,
    pub subject: Vec<u8>,
    pub valid_from: u64,
    pub valid_until: u64,
}

impl PeerIdentity {
    /// A window that does not end before it begins.
    pub open spec fn wf(&self) -> bool {
        self.valid_from <= self.valid_until
    }
}

impl Clone for PeerIdentity {
    fn clone(&self) -> (r: Self)
        ensures
            r.fingerprint@ == self.fingerprint@,
            r.subject@ == self.subject@,
            r.valid_from == self.valid_from,
            r.valid_until == self.valid_until,
    {
        PeerIdentity {
            fingerprint: self.fingerprint.clone(),
            subject: self.subject.clone(),
            valid_from: self.valid_from,
            valid_until: self.valid_until,
        }
    }
}

/// The identity-verification capability the relay engine is handed: given
/// the peer's certificate bytes and its identity token, either a verified
/// identity or a typed rejection. Any implementation satisfying this
/// interface may be injected; the engine treats every error variant
/// identically — reject, relay nothing, record the failure.
pub trait IdentityVerifier {
    fn validate(&self, peer_certificate: &[u8], identity_token: &[u8]) -> (r: Result<
        PeerIdentity,
        AuthError,
    >);
}

/// Byte-for-byte equality of two slices.
pub fn bytes_eq(a: &[u8], b: &[u8]) -> (r: bool)
    ensures
        r <==> a@ == b@,
{
    if a.len() != b.len() {
        proof {
            assert(a@ != b@);
        }
        return false;
    }
    let n = a.len();
    let mut i: usize = 0;
    while i < n
        invariant
            n == a@.len() == b@.len(),
            i <= n,
            forall|k: int| 0 <= k < i ==> a@[k] == b@[k],
        decreases n - i,
    {
        if a[i] != b[i] {
            return false;
        }
        i = i + 1;
    }
    proof {
        assert(a@ =~= b@);
    }
    true
}

/// A verifier pinned to one expected peer: the exact certificate and token
/// it will accept, the subject the token's claims must name, the identity
/// it vouches for, and the clock value it judges the validity window by.
/// Serves as the injectable stand-in for an external certificate-and-token
/// validator.
pub struct StaticVerifier {
    pub expected_certificate: Vec<u8>,
    pub expected_token: Vec<u8>,
    pub required_subject: Vec<u8>,
    pub identity: PeerIdentity,
    pub now: u64,
}

impl StaticVerifier {
    /// Exactly when validation succeeds: the certificate is present and the
    /// expected one, the token is the expected one and `now` lies inside
    /// the identity's validity window, and the identity's subject claim is
    /// the required one.
    pub open spec fn spec_validate(&self, cert: Seq<u8>, token: Seq<u8>) -> Result<
        PeerIdentity,
        AuthError,
    > {
        if cert.len() == 0 {
            Err(AuthError::CertMissing)
        } else if cert != self.expected_certificate@ {
            Err(AuthError::CertInvalid)
        } else if token != self.expected_token@ {
            Err(AuthError::TokenInvalid)
        } else if self.now < self.identity.valid_from || self.now > self.identity.valid_until {
            Err(AuthError::TokenExpired)
        } else if self.identity.subject@ != self.required_subject@ {
            Err(AuthError::ClaimMismatch)
        } else {
            Ok(self.identity)
        }
    }

    /// Checks a presented certificate and token against the pinned peer,
    /// failing closed with the first applicable rejection.
    pub fn check(&self, peer_certificate: &[u8], identity_token: &[u8]) -> (r: Result<
        PeerIdentity,
        AuthError,
    >)
        ensures
            ({
                let m = self.spec_validate(peer_certificate@, identity_token@);
                match r {
                    Ok(id) => m matches Ok(mid) && id.fingerprint@ == mid.fingerprint@
                        && id.subject@ == mid.subject@ && id.valid_from == mid.valid_from
                        && id.valid_until == mid.valid_until,
                    Err(e) => m matches Err(me) && e == me,
                }
            }),
    {
        if peer_certificate.len() == 0 {
            return Err(AuthError::CertMissing);
        }
        if !bytes_eq(peer_certificate, self.expected_certificate.as_slice()) {
            return Err(AuthError::CertInvalid);
        }
        if !bytes_eq(identity_token, self.expected_token.as_slice()) {
            return Err(AuthError::TokenInvalid);
        }
        if self.now < self.identity.valid_from || self.now > self.identity.valid_until {
            return Err(AuthError::TokenExpired);
        }
        if !bytes_eq(self.identity.subject.as_slice(), self.required_subject.as_slice()) {
            return Err(AuthError::ClaimMismatch);
        }
        Ok(self.identity.clone())
    }
}

impl IdentityVerifier for StaticVerifier {
    fn validate(&self, peer_certificate: &[u8], identity_token: &[u8]) -> (r: Result<
        PeerIdentity,
        AuthError,
    >) {
        self.check(peer_certificate, identity_token)
    }
}

} // verus!
