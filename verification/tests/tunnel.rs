use zt_tunnel::cipher::derive_key;
use zt_tunnel::errors::{AuthError, ConnectionError, ErrorClass, KeyExchangeError, Outcome};
use zt_tunnel::identity::{PeerIdentity, StaticVerifier};
use zt_tunnel::tunnel::{
    auth_event, dial_event, key_exchange_event, step_transition, Telemetry, Tunnel, TunnelAction,
    TunnelEvent, TunnelState, ZeroTrustProxy,
};

#[test]
fn auth_failure_never_dials() {
    let mut t = Tunnel::new();
    assert_eq!(t.state(), TunnelState::Accepted);
    let r1 = t.step(TunnelEvent::Handoff);
    assert_eq!(r1.state, TunnelState::Authenticating);
    assert_eq!(r1.action, TunnelAction::RequestAuth);
    assert_eq!(r1.record, Telemetry::Silent);
    let r2 = t.step(TunnelEvent::AuthFailed(AuthError::CertInvalid));
    assert_eq!(r2.state, TunnelState::Closed(Outcome::Error(ErrorClass::Auth)));
    assert_ne!(r2.action, TunnelAction::DialUpstream);
    assert_eq!(r2.action, TunnelAction::CloseClient);
    // Exactly one telemetry record, the auth failure.
    assert_eq!(r2.record, Telemetry::Report(Outcome::Error(ErrorClass::Auth)));
    // Whatever arrives afterwards is absorbed: no action, no report.
    let r3 = t.step(TunnelEvent::DataFromClient);
    assert_eq!(r3.state, TunnelState::Closed(Outcome::Error(ErrorClass::Auth)));
    assert_eq!(r3.action, TunnelAction::Wait);
    assert_eq!(r3.record, Telemetry::Silent);
}

#[test]
fn clean_shutdown_after_client_eof() {
    let mut t = Tunnel::new();
    let mut states = vec![t.state()];
    let mut actions = Vec::new();
    let mut records = Vec::new();
    for ev in [
        TunnelEvent::Handoff,
        TunnelEvent::AuthSucceeded,
        TunnelEvent::KeyEstablished,
        TunnelEvent::UpstreamConnected,
        TunnelEvent::ClientClosed,
    ] {
        let r = t.step(ev);
        states.push(r.state);
        actions.push(r.action);
        if let Telemetry::Report(o) = r.record {
            records.push(o);
        }
    }
    assert_eq!(t.state(), TunnelState::Closed(Outcome::Normal));
    assert_eq!(
        actions,
        vec![
            TunnelAction::RequestAuth,
            TunnelAction::StartKeyExchange,
            TunnelAction::DialUpstream,
            TunnelAction::Wait,
            TunnelAction::CloseBoth,
        ]
    );
    assert_eq!(records, vec![Outcome::Normal]);
    assert!(states.contains(&TunnelState::Relaying));
}

#[test]
fn dial_timeout_never_relays() {
    let mut t = Tunnel::new();
    let mut states = vec![t.state()];
    let mut records = Vec::new();
    t.step(TunnelEvent::Handoff);
    states.push(t.state());
    t.step(TunnelEvent::AuthSucceeded);
    states.push(t.state());
    let r = t.step(TunnelEvent::KeyEstablished);
    assert_eq!(r.action, TunnelAction::DialUpstream);
    states.push(t.state());
    let r = t.step(TunnelEvent::UpstreamDialFailed(ConnectionError::DialTimeout));
    states.push(t.state());
    if let Telemetry::Report(o) = r.record {
        records.push(o);
    }
    assert_eq!(r.action, TunnelAction::CloseClient);
    assert_eq!(t.state(), TunnelState::Closed(Outcome::Error(ErrorClass::Connection)));
    assert!(!states.contains(&TunnelState::Relaying));
    assert_eq!(records, vec![Outcome::Error(ErrorClass::Connection)]);
}

#[test]
fn no_byte_forwarded_before_relaying() {
    for (state, ev) in [
        (TunnelState::Accepted, TunnelEvent::DataFromClient),
        (TunnelState::Authenticating, TunnelEvent::DataFromClient),
        (TunnelState::Authenticating, TunnelEvent::DataFromUpstream),
        (TunnelState::KeyExchanging(false), TunnelEvent::DataFromClient),
        (TunnelState::KeyExchanging(true), TunnelEvent::DataFromUpstream),
    ] {
        let r = step_transition(state, ev);
        assert_eq!(r.action, TunnelAction::Discard);
        assert_eq!(r.state, state);
    }
    let r = step_transition(TunnelState::Relaying, TunnelEvent::DataFromClient);
    assert_eq!(r.action, TunnelAction::RelayToUpstream);
    let r = step_transition(TunnelState::Relaying, TunnelEvent::DataFromUpstream);
    assert_eq!(r.action, TunnelAction::RelayToClient);
}

#[test]
fn upstream_connected_without_key_does_not_relay() {
    let r = step_transition(TunnelState::KeyExchanging(false), TunnelEvent::UpstreamConnected);
    assert_eq!(r.state, TunnelState::KeyExchanging(false));
    assert_eq!(r.action, TunnelAction::Wait);
}

#[test]
fn key_exchange_failure_closes_with_crypto_error() {
    let mut t = Tunnel::new();
    t.step(TunnelEvent::Handoff);
    t.step(TunnelEvent::AuthSucceeded);
    let r = t.step(TunnelEvent::KeyExchangeFailed);
    assert_eq!(r.state, TunnelState::Closed(Outcome::Error(ErrorClass::Crypto)));
    assert_eq!(r.record, Telemetry::Report(Outcome::Error(ErrorClass::Crypto)));
}

#[test]
fn relaying_tunnel_seals_and_opens() {
    let mut t = Tunnel::new();
    t.step(TunnelEvent::Handoff);
    t.step(TunnelEvent::AuthSucceeded);
    t.attach_session(derive_key(&vec![3u8; 32], b"tunnel-encryption", b"conn-1"));
    t.step(TunnelEvent::KeyEstablished);
    t.step(TunnelEvent::UpstreamConnected);
    assert_eq!(t.state(), TunnelState::Relaying);
    let frame = t.seal_outbound(b"through the tunnel").expect("sealing succeeds");
    let opened = t.open_inbound(&frame).expect("own frame opens");
    assert_eq!(opened, b"through the tunnel".to_vec());
    let mut corrupted = frame.clone();
    let last = corrupted.len() - 1;
    corrupted[last] ^= 0x80;
    assert_eq!(t.open_inbound(&corrupted), Err(AuthError::TagMismatch));
}

#[test]
fn event_mappings() {
    let ok: Result<PeerIdentity, AuthError> = Ok(PeerIdentity {
        fingerprint: Vec::new(),
        subject: Vec::new(),
        valid_from: 0,
        valid_until: 1,
    });
    assert_eq!(auth_event(&ok), TunnelEvent::AuthSucceeded);
    let err: Result<PeerIdentity, AuthError> = Err(AuthError::TokenExpired);
    assert_eq!(auth_event(&err), TunnelEvent::AuthFailed(AuthError::TokenExpired));
    let kx_ok: Result<Vec<u8>, KeyExchangeError> = Ok(vec![1, 2, 3]);
    assert_eq!(key_exchange_event(&kx_ok), TunnelEvent::KeyEstablished);
    let kx_err: Result<Vec<u8>, KeyExchangeError> = Err(KeyExchangeError::MalformedCiphertext);
    assert_eq!(key_exchange_event(&kx_err), TunnelEvent::KeyExchangeFailed);
    assert_eq!(dial_event(&Ok(())), TunnelEvent::UpstreamConnected);
    assert_eq!(
        dial_event(&Err(ConnectionError::DialRefused)),
        TunnelEvent::UpstreamDialFailed(ConnectionError::DialRefused)
    );
}

#[test]
fn proxy_holds_upstream_address() {
    let v = StaticVerifier {
        expected_certificate: b"c".to_vec(),
        expected_token: b"t".to_vec(),
        required_subject: b"s".to_vec(),
        identity: PeerIdentity {
            fingerprint: Vec::new(),
            subject: b"s".to_vec(),
            valid_from: 0,
            valid_until: 10,
        },
        now: 5,
    };
    let proxy = ZeroTrustProxy::new(v, String::from("10.0.0.7:9000"));
    assert_eq!(proxy.upstream_addr(), "10.0.0.7:9000");
    assert!(proxy.authorize(b"c", b"t").is_ok());
    assert_eq!(proxy.authorize(b"wrong", b"t").unwrap_err(), AuthError::CertInvalid);
}
