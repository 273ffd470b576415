use vstd::prelude::*;

use crate::cipher::{
    aead_seal_of, nonce_seq, spec_open, SessionKey, MAX_PLAINTEXT_LEN,
};
use crate::errors::{AuthError, ConnectionError, CryptoError, ErrorClass, Outcome};
use crate::identity::PeerIdentity;

verus! {

/// Where a tunnel stands. Transitions are strictly forward; `Closed` is
/// terminal and carries the outcome. The flag on `KeyExchanging` says
/// whether the session key has already been derived: only then may the
/// upstream be dialed, and only a connected upstream moves the tunnel on to
/// `Relaying`.
#[derive(Clone, Copy, Debug, PartialEq, Eq, Structural)]
pub enum TunnelState {
    Accepted,
    Authenticating,
    KeyExchanging(bool),
    Relaying,
    Closed(Outcome),
}

/// What the surrounding connection driver observed and hands to the state
/// machine.
#[derive(Clone, Copy, Debug, PartialEq, Eq, Structural)]
pub enum TunnelEvent {
    /// The acceptor handed the fresh connection over.
    Handoff,
    /// The identity verifier accepted the peer.
    AuthSucceeded,
    /// The identity verifier rejected the peer.
    AuthFailed(AuthError),
    /// A session key was derived from the key exchange.
    KeyEstablished,
    /// The key exchange failed.
    KeyExchangeFailed,
    /// The upstream dial completed.
    UpstreamConnected,
    /// The upstream dial timed out or was refused.
    UpstreamDialFailed(ConnectionError),
    /// Bytes arrived from the client.
    DataFromClient,
    /// Bytes arrived from the upstream.
    DataFromUpstream,
    /// The client reached a clean end of stream.
    ClientClosed,
    /// The upstream reached a clean end of stream.
    UpstreamClosed,
    /// An I/O failure on either side.
    IoFailed,
}

/// What the driver must do next. Bytes are forwarded only by the two relay
/// actions, and the upstream is dialed only by `DialUpstream`.
#[derive(Clone, Copy, Debug, PartialEq, Eq, Structural)]
pub enum TunnelAction {
    /// Collect the peer's certificate and token and run the verifier.
    RequestAuth,
    /// Run the key exchange and derive the session key.
    StartKeyExchange,
    /// Dial the configured upstream endpoint.
    DialUpstream,
    /// Forward the client's bytes to the upstream.
    RelayToUpstream,
    /// Forward the upstream's bytes to the client.
    RelayToClient,
    /// Close the client handle; no upstream handle is open.
    CloseClient,
    /// Flush and close both handles.
    CloseBoth,
    /// Drop the input without forwarding a byte.
    Discard,
    /// Nothing to do.
    Wait,
}

/// Whether a transition reports an outcome to the telemetry sink. Every
/// terminal transition reports exactly once; no other transition reports.
#[derive(Clone, Copy, Debug, PartialEq, Eq, Structural)]
pub enum Telemetry {
    Silent,
    Report(Outcome),
}

/// One transition: the state entered, the action owed, and what to report.
#[derive(Clone, Copy, Debug, PartialEq, Eq, Structural)]
pub struct StepResult {
    pub state: TunnelState,
    pub action: TunnelAction,
    pub record: Telemetry,
}

/// The tunnel state machine: one transition per observed event. Strictly
/// forward, fail-closed, with `Closed` absorbing. No relay action leaves any
/// state but `Relaying`, no dial is ordered before a session key exists, and
/// each terminal transition reports its outcome exactly once.
pub open spec fn spec_step(s: TunnelState, e: TunnelEvent) -> StepResult {
    match s {
        TunnelState::Accepted => match e {
            TunnelEvent::Handoff => StepResult {
                state: TunnelState::Authenticating,
                action: TunnelAction::RequestAuth,
                record: Telemetry::Silent,
            },
            TunnelEvent::ClientClosed => StepResult {
                state: TunnelState::Closed(Outcome::Normal),
                action: TunnelAction::CloseClient,
                record: Telemetry::Report(Outcome::Normal),
            },
            TunnelEvent::IoFailed => StepResult {
                state: TunnelState::Closed(Outcome::Error(ErrorClass::Relay)),
                action: TunnelAction::CloseClient,
                record: Telemetry::Report(Outcome::Error(ErrorClass::Relay)),
            },
            TunnelEvent::DataFromClient | TunnelEvent::DataFromUpstream => StepResult {
                state: s,
                action: TunnelAction::Discard,
                record: Telemetry::Silent,
            },
            _ => StepResult { state: s, action: TunnelAction::Wait, record: Telemetry::Silent },
        },
        TunnelState::Authenticating => match e {
            TunnelEvent::AuthSucceeded => StepResult {
                state: TunnelState::KeyExchanging(false),
                action: TunnelAction::StartKeyExchange,
                record: Telemetry::Silent,
            },
            TunnelEvent::AuthFailed(_) => StepResult {
                state: TunnelState::Closed(Outcome::Error(ErrorClass::Auth)),
                action: TunnelAction::CloseClient,
                record: Telemetry::Report(Outcome::Error(ErrorClass::Auth)),
            },
            TunnelEvent::ClientClosed => StepResult {
                state: TunnelState::Closed(Outcome::Normal),
                action: TunnelAction::CloseClient,
                record: Telemetry::Report(Outcome::Normal),
            },
            TunnelEvent::IoFailed => StepResult {
                state: TunnelState::Closed(Outcome::Error(ErrorClass::Relay)),
                action: TunnelAction::CloseClient,
                record: Telemetry::Report(Outcome::Error(ErrorClass::Relay)),
            },
            TunnelEvent::DataFromClient | TunnelEvent::DataFromUpstream => StepResult {
                state: s,
                action: TunnelAction::Discard,
                record: Telemetry::Silent,
            },
            _ => StepResult { state: s, action: TunnelAction::Wait, record: Telemetry::Silent },
        },
        TunnelState::KeyExchanging(key_ready) => match e {
            TunnelEvent::KeyEstablished => {
                if key_ready {
                    StepResult { state: s, action: TunnelAction::Wait, record: Telemetry::Silent }
                } else {
                    StepResult {
                        state: TunnelState::KeyExchanging(true),
                        action: TunnelAction::DialUpstream,
                        record: Telemetry::Silent,
                    }
                }
            },
            TunnelEvent::KeyExchangeFailed => StepResult {
                state: TunnelState::Closed(Outcome::Error(ErrorClass::Crypto)),
                action: TunnelAction::CloseClient,
                record: Telemetry::Report(Outcome::Error(ErrorClass::Crypto)),
            },
            TunnelEvent::UpstreamConnected => {
                if key_ready {
                    StepResult {
                        state: TunnelState::Relaying,
                        action: TunnelAction::Wait,
                        record: Telemetry::Silent,
                    }
                } else {
                    StepResult { state: s, action: TunnelAction::Wait, record: Telemetry::Silent }
                }
            },
            TunnelEvent::UpstreamDialFailed(_) => StepResult {
                state: TunnelState::Closed(Outcome::Error(ErrorClass::Connection)),
                action: TunnelAction::CloseClient,
                record: Telemetry::Report(Outcome::Error(ErrorClass::Connection)),
            },
            TunnelEvent::ClientClosed => StepResult {
                state: TunnelState::Closed(Outcome::Normal),
                action: TunnelAction::CloseBoth,
                record: Telemetry::Report(Outcome::Normal),
            },
            TunnelEvent::IoFailed => StepResult {
                state: TunnelState::Closed(Outcome::Error(ErrorClass::Relay)),
                action: TunnelAction::CloseBoth,
                record: Telemetry::Report(Outcome::Error(ErrorClass::Relay)),
            },
            TunnelEvent::DataFromClient | TunnelEvent::DataFromUpstream => StepResult {
                state: s,
                action: TunnelAction::Discard,
                record: Telemetry::Silent,
            },
            _ => StepResult { state: s, action: TunnelAction::Wait, record: Telemetry::Silent },
        },
        TunnelState::Relaying => match e {
            TunnelEvent::DataFromClient => StepResult {
                state: s,
                action: TunnelAction::RelayToUpstream,
                record: Telemetry::Silent,
            },
            TunnelEvent::DataFromUpstream => StepResult {
                state: s,
                action: TunnelAction::RelayToClient,
                record: Telemetry::Silent,
            },
            TunnelEvent::ClientClosed | TunnelEvent::UpstreamClosed => StepResult {
                state: TunnelState::Closed(Outcome::Normal),
                action: TunnelAction::CloseBoth,
                record: Telemetry::Report(Outcome::Normal),
            },
            TunnelEvent::IoFailed => StepResult {
                state: TunnelState::Closed(Outcome::Error(ErrorClass::Relay)),
                action: TunnelAction::CloseBoth,
                record: Telemetry::Report(Outcome::Error(ErrorClass::Relay)),
            },
            _ => StepResult { state: s, action: TunnelAction::Wait, record: Telemetry::Silent },
        },
        TunnelState::Closed(_) => StepResult {
            state: s,
            action: TunnelAction::Wait,
            record: Telemetry::Silent,
        },
    }
}

/// Executes one transition of the state machine.
pub fn step_transition(s: TunnelState, e: TunnelEvent) -> (r: StepResult)
    ensures
        r == spec_step(s, e),
{
    match s {
        TunnelState::Accepted => match e {
            TunnelEvent::Handoff => StepResult {
                state: TunnelState::Authenticating,
                action: TunnelAction::RequestAuth,
                record: Telemetry::Silent,
            },
            TunnelEvent::ClientClosed => StepResult {
                state: TunnelState::Closed(Outcome::Normal),
                action: TunnelAction::CloseClient,
                record: Telemetry::Report(Outcome::Normal),
            },
            TunnelEvent::IoFailed => StepResult {
                state: TunnelState::Closed(Outcome::Error(ErrorClass::Relay)),
                action: TunnelAction::CloseClient,
                record: Telemetry::Report(Outcome::Error(ErrorClass::Relay)),
            },
            TunnelEvent::DataFromClient | TunnelEvent::DataFromUpstream => StepResult {
                state: s,
                action: TunnelAction::Discard,
                record: Telemetry::Silent,
            },
            _ => StepResult { state: s, action: TunnelAction::Wait, record: Telemetry::Silent },
        },
        TunnelState::Authenticating => match e {
            TunnelEvent::AuthSucceeded => StepResult {
                state: TunnelState::KeyExchanging(false),
                action: TunnelAction::StartKeyExchange,
                record: Telemetry::Silent,
            },
            TunnelEvent::AuthFailed(_) => StepResult {
                state: TunnelState::Closed(Outcome::Error(ErrorClass::Auth)),
                action: TunnelAction::CloseClient,
                record: Telemetry::Report(Outcome::Error(ErrorClass::Auth)),
            },
            TunnelEvent::ClientClosed => StepResult {
                state: TunnelState::Closed(Outcome::Normal),
                action: TunnelAction::CloseClient,
                record: Telemetry::Report(Outcome::Normal),
            },
            TunnelEvent::IoFailed => StepResult {
                state: TunnelState::Closed(Outcome::Error(ErrorClass::Relay)),
                action: TunnelAction::CloseClient,
                record: Telemetry::Report(Outcome::Error(ErrorClass::Relay)),
            },
            TunnelEvent::DataFromClient | TunnelEvent::DataFromUpstream => StepResult {
                state: s,
                action: TunnelAction::Discard,
                record: Telemetry::Silent,
            },
            _ => StepResult { state: s, action: TunnelAction::Wait, record: Telemetry::Silent },
        },
        TunnelState::KeyExchanging(key_ready) => match e {
            TunnelEvent::KeyEstablished => {
                if key_ready {
                    StepResult { state: s, action: TunnelAction::Wait, record: Telemetry::Silent }
                } else {
                    StepResult {
                        state: TunnelState::KeyExchanging(true),
                        action: TunnelAction::DialUpstream,
                        record: Telemetry::Silent,
                    }
                }
            },
            TunnelEvent::KeyExchangeFailed => StepResult {
                state: TunnelState::Closed(Outcome::Error(ErrorClass::Crypto)),
                action: TunnelAction::CloseClient,
                record: Telemetry::Report(Outcome::Error(ErrorClass::Crypto)),
            },
            TunnelEvent::UpstreamConnected => {
                if key_ready {
                    StepResult {
                        state: TunnelState::Relaying,
                        action: TunnelAction::Wait,
                        record: Telemetry::Silent,
                    }
                } else {
                    StepResult { state: s, action: TunnelAction::Wait, record: Telemetry::Silent }
                }
            },
            TunnelEvent::UpstreamDialFailed(_) => StepResult {
                state: TunnelState::Closed(Outcome::Error(ErrorClass::Connection)),
                action: TunnelAction::CloseClient,
                record: Telemetry::Report(Outcome::Error(ErrorClass::Connection)),
            },
            TunnelEvent::ClientClosed => StepResult {
                state: TunnelState::Closed(Outcome::Normal),
                action: TunnelAction::CloseBoth,
                record: Telemetry::Report(Outcome::Normal),
            },
            TunnelEvent::IoFailed => StepResult {
                state: TunnelState::Closed(Outcome::Error(ErrorClass::Relay)),
                action: TunnelAction::CloseBoth,
                record: Telemetry::Report(Outcome::Error(ErrorClass::Relay)),
            },
            TunnelEvent::DataFromClient | TunnelEvent::DataFromUpstream => StepResult {
                state: s,
                action: TunnelAction::Discard,
                record: Telemetry::Silent,
            },
            _ => StepResult { state: s, action: TunnelAction::Wait, record: Telemetry::Silent },
        },
        TunnelState::Relaying => match e {
            TunnelEvent::DataFromClient => StepResult {
                state: s,
                action: TunnelAction::RelayToUpstream,
                record: Telemetry::Silent,
            },
            TunnelEvent::DataFromUpstream => StepResult {
                state: s,
                action: TunnelAction::RelayToClient,
                record: Telemetry::Silent,
            },
            TunnelEvent::ClientClosed | TunnelEvent::UpstreamClosed => StepResult {
                state: TunnelState::Closed(Outcome::Normal),
                action: TunnelAction::CloseBoth,
                record: Telemetry::Report(Outcome::Normal),
            },
            TunnelEvent::IoFailed => StepResult {
                state: TunnelState::Closed(Outcome::Error(ErrorClass::Relay)),
                action: TunnelAction::CloseBoth,
                record: Telemetry::Report(Outcome::Error(ErrorClass::Relay)),
            },
            _ => StepResult { state: s, action: TunnelAction::Wait, record: Telemetry::Silent },
        },
        TunnelState::Closed(_) => StepResult {
            state: s,
            action: TunnelAction::Wait,
            record: Telemetry::Silent,
        },
    }
}

/// The state reached from `s` after the whole event sequence.
pub open spec fn state_after(s: TunnelState, evs: Seq<TunnelEvent>) -> TunnelState
    decreases evs.len(),
{
    if evs.len() == 0 {
        s
    } else {
        state_after(spec_step(s, evs[0]).state, evs.drop_first())
    }
}

/// The actions the machine orders along the event sequence, in order.
pub open spec fn actions_after(s: TunnelState, evs: Seq<TunnelEvent>) -> Seq<TunnelAction>
    decreases evs.len(),
{
    if evs.len() == 0 {
        Seq::empty()
    } else {
        seq![spec_step(s, evs[0]).action] + actions_after(
            spec_step(s, evs[0]).state,
            evs.drop_first(),
        )
    }
}

/// The outcomes the machine reports along the event sequence, in order.
pub open spec fn records_after(s: TunnelState, evs: Seq<TunnelEvent>) -> Seq<Outcome>
    decreases evs.len(),
{
    if evs.len() == 0 {
        Seq::empty()
    } else {
        (match spec_step(s, evs[0]).record {
            Telemetry::Report(o) => seq![o],
            Telemetry::Silent => Seq::empty(),
        }) + records_after(spec_step(s, evs[0]).state, evs.drop_first())
    }
}

/// Law: `Closed` is absorbing. Whatever arrives after a tunnel closed, the
/// state keeps its outcome, nothing further is done, and nothing further is
/// reported.
pub proof fn lemma_closed_absorbing(o: Outcome, evs: Seq<TunnelEvent>)
    ensures
        state_after(TunnelState::Closed(o), evs) == TunnelState::Closed(o),
        records_after(TunnelState::Closed(o), evs) =~= Seq::<Outcome>::empty(),
        forall|i: int|
            0 <= i < actions_after(TunnelState::Closed(o), evs).len() ==> actions_after(
                TunnelState::Closed(o),
                evs,
            )[i] == TunnelAction::Wait,
    decreases evs.len(),
{
    if evs.len() > 0 {
        lemma_closed_absorbing(o, evs.drop_first());
    }
}

/// Law: not a byte is forwarded in any state but `Relaying`; the relay
/// actions arise nowhere else.
pub proof fn lemma_relay_only_while_relaying(s: TunnelState, e: TunnelEvent)
    ensures
        spec_step(s, e).action == TunnelAction::RelayToUpstream || spec_step(s, e).action
            == TunnelAction::RelayToClient ==> s == TunnelState::Relaying,
{
}

/// Law: the upstream is dialed only once a session key has been derived:
/// the one transition that orders a dial is the arrival of the session key
/// during key exchange.
pub proof fn lemma_dial_only_after_key(s: TunnelState, e: TunnelEvent)
    ensures
        spec_step(s, e).action == TunnelAction::DialUpstream ==> s == TunnelState::KeyExchanging(
            false,
        ) && e == TunnelEvent::KeyEstablished,
{
}

/// Law: transitions are strictly forward: once past a state the machine
/// never re-enters an earlier one, captured by a rank that never decreases.
pub open spec fn state_rank(s: TunnelState) -> int {
    match s {
        TunnelState::Accepted => 0,
        TunnelState::Authenticating => 1,
        TunnelState::KeyExchanging(key_ready) => if key_ready {
            3
        } else {
            2
        },
        TunnelState::Relaying => 4,
        TunnelState::Closed(_) => 5,
    }
}

/// Law: no transition lowers the rank; there is no retry transition within
/// one tunnel.
pub proof fn lemma_strictly_forward(s: TunnelState, e: TunnelEvent)
    ensures
        state_rank(spec_step(s, e).state) >= state_rank(s),
{
}

/// Running the machine over a concatenation runs it over the parts in turn.
pub proof fn lemma_state_after_append(s: TunnelState, evs1: Seq<TunnelEvent>, evs2: Seq<
    TunnelEvent,
>)
    ensures
        state_after(s, evs1 + evs2) == state_after(state_after(s, evs1), evs2),
    decreases evs1.len(),
{
    if evs1.len() == 0 {
        assert(evs1 + evs2 =~= evs2);
    } else {
        assert((evs1 + evs2).drop_first() =~= evs1.drop_first() + evs2);
        lemma_state_after_append(spec_step(s, evs1[0]).state, evs1.drop_first(), evs2);
    }
}

/// Unfolds one step of the machine over an event sequence split into its
/// first event and the rest.
pub proof fn lemma_run_cons(s: TunnelState, e: TunnelEvent, rest: Seq<TunnelEvent>)
    ensures
        state_after(s, seq![e] + rest) == state_after(spec_step(s, e).state, rest),
        actions_after(s, seq![e] + rest) =~= seq![spec_step(s, e).action] + actions_after(
            spec_step(s, e).state,
            rest,
        ),
        records_after(s, seq![e] + rest) =~= (match spec_step(s, e).record {
            Telemetry::Report(o) => seq![o],
            Telemetry::Silent => Seq::<Outcome>::empty(),
        }) + records_after(spec_step(s, e).state, rest),
{
    let evs = seq![e] + rest;
    assert(evs[0] == e);
    assert(evs.drop_first() =~= rest);
}

/// The machine orders exactly one action per event.
pub proof fn lemma_actions_len(s: TunnelState, evs: Seq<TunnelEvent>)
    ensures
        actions_after(s, evs).len() == evs.len(),
    decreases evs.len(),
{
    if evs.len() > 0 {
        lemma_actions_len(spec_step(s, evs[0]).state, evs.drop_first());
    }
}

/// Law: a tunnel whose peer fails authentication closes with an `Auth`
/// error, never orders a dial or a relay of bytes, never gets past
/// `Authenticating` toward key exchange or relaying, and reports exactly
/// one failure — the authentication one.
pub proof fn lemma_auth_failure_fail_closed(err: AuthError, rest: Seq<TunnelEvent>)
    ensures
        ({
            let evs = seq![TunnelEvent::Handoff, TunnelEvent::AuthFailed(err)] + rest;
            &&& state_after(TunnelState::Accepted, evs) == TunnelState::Closed(
                Outcome::Error(ErrorClass::Auth),
            )
            &&& forall|i: int|
                0 <= i < actions_after(TunnelState::Accepted, evs).len() ==> actions_after(
                    TunnelState::Accepted,
                    evs,
                )[i] != TunnelAction::DialUpstream && actions_after(TunnelState::Accepted, evs)[i]
                    != TunnelAction::RelayToUpstream && actions_after(TunnelState::Accepted, evs)[i]
                    != TunnelAction::RelayToClient
            &&& records_after(TunnelState::Accepted, evs) =~= seq![
                Outcome::Error(ErrorClass::Auth),
            ]
            &&& forall|k: int|
                0 <= k <= evs.len() ==> !(#[trigger] state_after(TunnelState::Accepted, evs.take(k))
                    is KeyExchanging) && !(state_after(TunnelState::Accepted, evs.take(k))
                    is Relaying)
        }),
{
    let prefix = seq![TunnelEvent::Handoff, TunnelEvent::AuthFailed(err)];
    let evs = prefix + rest;
    let tail1 = seq![TunnelEvent::AuthFailed(err)] + rest;
    let closed = TunnelState::Closed(Outcome::Error(ErrorClass::Auth));
    assert(evs =~= seq![TunnelEvent::Handoff] + tail1);
    lemma_run_cons(TunnelState::Accepted, TunnelEvent::Handoff, tail1);
    lemma_run_cons(TunnelState::Authenticating, TunnelEvent::AuthFailed(err), rest);
    lemma_closed_absorbing(Outcome::Error(ErrorClass::Auth), rest);
    assert(state_after(TunnelState::Accepted, evs) == closed);
    assert(actions_after(TunnelState::Accepted, evs) =~= seq![
        TunnelAction::RequestAuth,
        TunnelAction::CloseClient,
    ] + actions_after(closed, rest));
    assert(records_after(TunnelState::Accepted, evs) =~= seq![Outcome::Error(ErrorClass::Auth)]
        + records_after(closed, rest));
    assert forall|k: int| 0 <= k <= evs.len() implies !(#[trigger] state_after(
        TunnelState::Accepted,
        evs.take(k),
    ) is KeyExchanging) && !(state_after(TunnelState::Accepted, evs.take(k)) is Relaying) by {
        if k == 0 {
            assert(evs.take(0) =~= Seq::<TunnelEvent>::empty());
        } else if k == 1 {
            assert(evs.take(1) =~= seq![TunnelEvent::Handoff] + Seq::<TunnelEvent>::empty());
            lemma_run_cons(TunnelState::Accepted, TunnelEvent::Handoff, Seq::empty());
        } else {
            assert(evs.take(k) =~= prefix + rest.take(k - 2));
            lemma_state_after_append(TunnelState::Accepted, prefix, rest.take(k - 2));
            assert(prefix =~= seq![TunnelEvent::Handoff] + seq![TunnelEvent::AuthFailed(err)]);
            lemma_run_cons(
                TunnelState::Accepted,
                TunnelEvent::Handoff,
                seq![TunnelEvent::AuthFailed(err)],
            );
            assert(seq![TunnelEvent::AuthFailed(err)] =~= seq![TunnelEvent::AuthFailed(err)]
                + Seq::<TunnelEvent>::empty());
            lemma_run_cons(
                TunnelState::Authenticating,
                TunnelEvent::AuthFailed(err),
                Seq::empty(),
            );
            assert(state_after(closed, Seq::<TunnelEvent>::empty()) == closed);
            assert(state_after(TunnelState::Accepted, prefix) == closed);
            lemma_closed_absorbing(Outcome::Error(ErrorClass::Auth), rest.take(k - 2));
        }
    }
}

/// Law: a tunnel that authenticates, derives its key, connects upstream and
/// then sees the client's clean end of stream flushes and closes both sides
/// and reports exactly one outcome, the normal closure.
pub proof fn lemma_clean_shutdown()
    ensures
        ({
            let evs = seq![
                TunnelEvent::Handoff,
                TunnelEvent::AuthSucceeded,
                TunnelEvent::KeyEstablished,
                TunnelEvent::UpstreamConnected,
                TunnelEvent::ClientClosed,
            ];
            &&& state_after(TunnelState::Accepted, evs) == TunnelState::Closed(Outcome::Normal)
            &&& actions_after(TunnelState::Accepted, evs) =~= seq![
                TunnelAction::RequestAuth,
                TunnelAction::StartKeyExchange,
                TunnelAction::DialUpstream,
                TunnelAction::Wait,
                TunnelAction::CloseBoth,
            ]
            &&& records_after(TunnelState::Accepted, evs) =~= seq![Outcome::Normal]
        }),
{
    let e5 = seq![
        TunnelEvent::Handoff,
        TunnelEvent::AuthSucceeded,
        TunnelEvent::KeyEstablished,
        TunnelEvent::UpstreamConnected,
        TunnelEvent::ClientClosed,
    ];
    let empty = Seq::<TunnelEvent>::empty();
    let e1 = seq![TunnelEvent::ClientClosed] + empty;
    let e2 = seq![TunnelEvent::UpstreamConnected] + e1;
    let e3 = seq![TunnelEvent::KeyEstablished] + e2;
    let e4 = seq![TunnelEvent::AuthSucceeded] + e3;
    assert(e5 =~= seq![TunnelEvent::Handoff] + e4);
    lemma_run_cons(TunnelState::Accepted, TunnelEvent::Handoff, e4);
    lemma_run_cons(TunnelState::Authenticating, TunnelEvent::AuthSucceeded, e3);
    lemma_run_cons(TunnelState::KeyExchanging(false), TunnelEvent::KeyEstablished, e2);
    lemma_run_cons(TunnelState::KeyExchanging(true), TunnelEvent::UpstreamConnected, e1);
    lemma_run_cons(TunnelState::Relaying, TunnelEvent::ClientClosed, empty);
    assert(actions_after(TunnelState::Accepted, e5) =~= seq![
        TunnelAction::RequestAuth,
        TunnelAction::StartKeyExchange,
        TunnelAction::DialUpstream,
        TunnelAction::Wait,
        TunnelAction::CloseBoth,
    ]);
    assert(records_after(TunnelState::Accepted, e5) =~= seq![Outcome::Normal]);
}

/// Law: a tunnel whose upstream dial times out (or is refused) closes the
/// client side with a `Connection` error, reports it exactly once, and never
/// reaches `Relaying` — neither before the failure nor after it.
pub proof fn lemma_dial_failure_never_relays(err: ConnectionError, rest: Seq<TunnelEvent>)
    ensures
        ({
            let evs = seq![
                TunnelEvent::Handoff,
                TunnelEvent::AuthSucceeded,
                TunnelEvent::KeyEstablished,
                TunnelEvent::UpstreamDialFailed(err),
            ] + rest;
            &&& state_after(TunnelState::Accepted, evs) == TunnelState::Closed(
                Outcome::Error(ErrorClass::Connection),
            )
            &&& records_after(TunnelState::Accepted, evs) =~= seq![
                Outcome::Error(ErrorClass::Connection),
            ]
            &&& actions_after(TunnelState::Accepted, evs)[3] == TunnelAction::CloseClient
            &&& forall|k: int|
                0 <= k <= evs.len() ==> #[trigger] state_after(TunnelState::Accepted, evs.take(k))
                    != TunnelState::Relaying
        }),
{
    let prefix = seq![
        TunnelEvent::Handoff,
        TunnelEvent::AuthSucceeded,
        TunnelEvent::KeyEstablished,
        TunnelEvent::UpstreamDialFailed(err),
    ];
    let evs = prefix + rest;
    let closed = TunnelState::Closed(Outcome::Error(ErrorClass::Connection));
    let t3 = seq![
        TunnelEvent::AuthSucceeded,
        TunnelEvent::KeyEstablished,
        TunnelEvent::UpstreamDialFailed(err),
    ] + rest;
    let t2 = seq![TunnelEvent::KeyEstablished, TunnelEvent::UpstreamDialFailed(err)] + rest;
    let t1 = seq![TunnelEvent::UpstreamDialFailed(err)] + rest;
    assert(evs =~= seq![TunnelEvent::Handoff] + t3);
    assert(t3 =~= seq![TunnelEvent::AuthSucceeded] + t2);
    assert(t2 =~= seq![TunnelEvent::KeyEstablished] + t1);
    lemma_run_cons(TunnelState::Accepted, TunnelEvent::Handoff, t3);
    lemma_run_cons(TunnelState::Authenticating, TunnelEvent::AuthSucceeded, t2);
    lemma_run_cons(TunnelState::KeyExchanging(false), TunnelEvent::KeyEstablished, t1);
    lemma_run_cons(TunnelState::KeyExchanging(true), TunnelEvent::UpstreamDialFailed(err), rest);
    lemma_closed_absorbing(Outcome::Error(ErrorClass::Connection), rest);
    assert(state_after(TunnelState::Accepted, evs) == closed);
    assert(records_after(TunnelState::Accepted, evs) =~= seq![
        Outcome::Error(ErrorClass::Connection),
    ] + records_after(closed, rest));
    lemma_actions_len(closed, rest);
    assert(actions_after(TunnelState::Accepted, evs) =~= seq![
        TunnelAction::RequestAuth,
        TunnelAction::StartKeyExchange,
        TunnelAction::DialUpstream,
        TunnelAction::CloseClient,
    ] + actions_after(closed, rest));
    assert(actions_after(TunnelState::Accepted, evs)[3] == TunnelAction::CloseClient);
    assert forall|k: int| 0 <= k <= evs.len() implies #[trigger] state_after(
        TunnelState::Accepted,
        evs.take(k),
    ) != TunnelState::Relaying by {
        let empty = Seq::<TunnelEvent>::empty();
        if k == 0 {
            assert(evs.take(0) =~= empty);
        } else if k == 1 {
            assert(evs.take(1) =~= seq![TunnelEvent::Handoff] + empty);
            lemma_run_cons(TunnelState::Accepted, TunnelEvent::Handoff, empty);
        } else if k == 2 {
            let u1 = seq![TunnelEvent::AuthSucceeded] + empty;
            assert(evs.take(2) =~= seq![TunnelEvent::Handoff] + u1);
            lemma_run_cons(TunnelState::Accepted, TunnelEvent::Handoff, u1);
            lemma_run_cons(TunnelState::Authenticating, TunnelEvent::AuthSucceeded, empty);
        } else if k == 3 {
            let u2 = seq![TunnelEvent::KeyEstablished] + empty;
            let u1 = seq![TunnelEvent::AuthSucceeded] + u2;
            assert(evs.take(3) =~= seq![TunnelEvent::Handoff] + u1);
            lemma_run_cons(TunnelState::Accepted, TunnelEvent::Handoff, u1);
            lemma_run_cons(TunnelState::Authenticating, TunnelEvent::AuthSucceeded, u2);
            lemma_run_cons(TunnelState::KeyExchanging(false), TunnelEvent::KeyEstablished, empty);
        } else {
            assert(evs.take(k) =~= prefix + rest.take(k - 4));
            lemma_state_after_append(TunnelState::Accepted, prefix, rest.take(k - 4));
            let u3 = seq![TunnelEvent::UpstreamDialFailed(err)] + empty;
            let u2 = seq![TunnelEvent::KeyEstablished] + u3;
            let u1 = seq![TunnelEvent::AuthSucceeded] + u2;
            assert(prefix =~= seq![TunnelEvent::Handoff] + u1);
            lemma_run_cons(TunnelState::Accepted, TunnelEvent::Handoff, u1);
            lemma_run_cons(TunnelState::Authenticating, TunnelEvent::AuthSucceeded, u2);
            lemma_run_cons(TunnelState::KeyExchanging(false), TunnelEvent::KeyEstablished, u3);
            lemma_run_cons(
                TunnelState::KeyExchanging(true),
                TunnelEvent::UpstreamDialFailed(err),
                empty,
            );
            assert(state_after(TunnelState::Accepted, prefix) == closed);
            lemma_closed_absorbing(Outcome::Error(ErrorClass::Connection), rest.take(k - 4));
        }
    }
}

/// Running one more event steps the machine once from the state so far.
pub proof fn lemma_state_after_push(s: TunnelState, evs: Seq<TunnelEvent>, e: TunnelEvent)
    ensures
        state_after(s, evs.push(e)) == spec_step(state_after(s, evs), e).state,
{
    let unit = seq![e] + Seq::<TunnelEvent>::empty();
    assert(evs.push(e) =~= evs + unit);
    lemma_state_after_append(s, evs, unit);
    lemma_run_cons(state_after(s, evs), e, Seq::empty());
}

/// One tunnel: both connection handles' lifecycle decisions, the session
/// key, and the machine state, tied by `wf` to the full history of observed
/// events. The session key is owned exclusively, installed once the key
/// exchange completes, and destroyed on any terminal transition.
pub struct Tunnel {
    state: TunnelState,
    session: Option<SessionKey>,
    events: Ghost<Seq<TunnelEvent>>,
}

impl Tunnel {
    /// The machine state the tunnel is in.
    pub closed spec fn state_view(&self) -> TunnelState {
        self.state
    }

    /// Every event fed to the tunnel so far, in order.
    pub closed spec fn events_view(&self) -> Seq<TunnelEvent> {
        self.events@
    }

    /// The installed session key, if any.
    pub closed spec fn session_view(&self) -> Option<SessionKey> {
        self.session
    }

    pub open spec fn has_session(&self) -> bool {
        self.session_view() is Some
    }

    /// The tunnel's state is exactly what the machine reaches over its
    /// event history; constructors establish it and every step keeps it.
    pub open spec fn wf(&self) -> bool {
        self.state_view() == state_after(TunnelState::Accepted, self.events_view())
    }

    /// A fresh tunnel, as handed over by the acceptor: no event seen, no
    /// session key.
    pub fn new() -> (r: Self)
        ensures
            r.wf(),
            r.state_view() == TunnelState::Accepted,
            r.events_view() == Seq::<TunnelEvent>::empty(),
            !r.has_session(),
    {
        Tunnel { state: TunnelState::Accepted, session: None, events: Ghost(Seq::empty()) }
    }

    /// The current state, for the driver.
    pub fn state(&self) -> (r: TunnelState)
        ensures
            r == self.state_view(),
    {
        self.state
    }

    /// Installs the session key the key exchange derived. The state and the
    /// history are untouched.
    pub fn attach_session(&mut self, key: SessionKey)
        ensures
            final(self).state_view() == old(self).state_view(),
            final(self).events_view() == old(self).events_view(),
            final(self).session_view() == Some(key),
            old(self).wf() ==> final(self).wf(),
    {
        self.session = Some(key);
    }

    /// Feeds one observed event to the machine: the state advances exactly
    /// as `spec_step` says, the event is appended to the history, and on a
    /// terminal transition the session key is destroyed.
    pub fn step(&mut self, event: TunnelEvent) -> (r: StepResult)
        requires
            old(self).wf(),
        ensures
            final(self).wf(),
            r == spec_step(old(self).state_view(), event),
            final(self).state_view() == r.state,
            final(self).events_view() == old(self).events_view().push(event),
            final(self).state_view() is Closed ==> !final(self).has_session(),
            !(final(self).state_view() is Closed) ==> final(self).session_view() == old(
                self,
            ).session_view(),
    {
        let r = step_transition(self.state, event);
        self.state = r.state;
        proof {
            lemma_state_after_push(TunnelState::Accepted, self.events@, event);
        }
        self.events = Ghost(self.events@.push(event));
        if matches!(self.state, TunnelState::Closed(_)) {
            self.session = None;
        }
        r
    }

    /// Seals bytes bound for the peer under the tunnel's session key; only
    /// a relaying tunnel, which by then owns a session key, may seal.
    pub fn seal_outbound(&mut self, data: &[u8]) -> (r: Result<Vec<u8>, CryptoError>)
        requires
            old(self).state_view() == TunnelState::Relaying,
            old(self).has_session(),
        ensures
            final(self).state_view() == old(self).state_view(),
            final(self).events_view() == old(self).events_view(),
            old(self).wf() ==> final(self).wf(),
            final(self).has_session(),
            ({
                let k0 = old(self).session_view()->Some_0;
                let k1 = final(self).session_view()->Some_0;
                &&& k1.key_view() == k0.key_view()
                &&& (r is Ok <==> (k0.counter() < u64::MAX && data@.len() <= MAX_PLAINTEXT_LEN))
                &&& (r is Ok ==> k1.counter() == k0.counter() + 1)
                &&& (r is Err ==> k1.counter() == k0.counter())
                &&& (r matches Ok(frame) ==> frame@ == nonce_seq(k0.counter()) + aead_seal_of(
                    k0.key_view(),
                    nonce_seq(k0.counter()),
                    data@,
                ) && spec_open(k0.key_view(), frame@) == Some(data@))
            }),
    {
        let taken = self.session.take();
        match taken {
            Some(mut key) => {
                let r = key.seal(data);
                self.session = Some(key);
                r
            },
            None => {
                proof {
                    assert(false);
                }
                Err(CryptoError::MessageTooLong)
            },
        }
    }

    /// Opens a sealed frame received from the peer under the tunnel's
    /// session key; only a relaying tunnel may open, and any mismatch is
    /// rejected fail-closed.
    pub fn open_inbound(&self, frame: &[u8]) -> (r: Result<Vec<u8>, AuthError>)
        requires
            self.state_view() == TunnelState::Relaying,
            self.has_session(),
        ensures
            ({
                let k = self.session_view()->Some_0;
                &&& (r is Ok <==> spec_open(k.key_view(), frame@) is Some)
                &&& (r matches Ok(p) ==> spec_open(k.key_view(), frame@) == Some(p@))
                &&& (r matches Err(e) ==> e == AuthError::TagMismatch)
            }),
    {
        match &self.session {
            Some(key) => key.open(frame),
            None => {
                proof {
                    assert(false);
                }
                Err(AuthError::TagMismatch)
            },
        }
    }
}

/// The event an identity-verifier outcome maps to: acceptance starts the
/// key exchange, every rejection carries its error into the machine.
pub fn auth_event(outcome: &Result<PeerIdentity, AuthError>) -> (ev: TunnelEvent)
    ensures
        ev == (match outcome {
            Ok(_) => TunnelEvent::AuthSucceeded,
            Err(e) => TunnelEvent::AuthFailed(*e),
        }),
{
    match outcome {
        Ok(_) => TunnelEvent::AuthSucceeded,
        Err(e) => TunnelEvent::AuthFailed(*e),
    }
}

/// The event a key-exchange outcome maps to.
pub fn key_exchange_event(outcome: &Result<Vec<u8>, crate::errors::KeyExchangeError>) -> (ev:
    TunnelEvent)
    ensures
        ev == (match outcome {
            Ok(_) => TunnelEvent::KeyEstablished,
            Err(_) => TunnelEvent::KeyExchangeFailed,
        }),
{
    match outcome {
        Ok(_) => TunnelEvent::KeyEstablished,
        Err(_) => TunnelEvent::KeyExchangeFailed,
    }
}

/// The event an upstream-dial outcome maps to.
pub fn dial_event(outcome: &Result<(), ConnectionError>) -> (ev: TunnelEvent)
    ensures
        ev == (match outcome {
            Ok(_) => TunnelEvent::UpstreamConnected,
            Err(e) => TunnelEvent::UpstreamDialFailed(*e),
        }),
{
    match outcome {
        Ok(_) => TunnelEvent::UpstreamConnected,
        Err(e) => TunnelEvent::UpstreamDialFailed(*e),
    }
}

/// The gateway's per-listener bundle: the injected identity-verification
/// capability and the configured upstream address. One relay unit per
/// accepted connection consults it.
pub struct ZeroTrustProxy<V: crate::identity::IdentityVerifier> {
    jwt_validator: V,
    upstream_addr: String,
}

impl<V: crate::identity::IdentityVerifier> ZeroTrustProxy<V> {
    /// The configured upstream address.
    pub closed spec fn upstream_view(&self) -> Seq<char> {
        self.upstream_addr@
    }

    pub fn new(validator: V, upstream: String) -> (r: Self)
        ensures
            r.upstream_view() == upstream@,
    {
        ZeroTrustProxy { jwt_validator: validator, upstream_addr: upstream }
    }

    /// The address the relay engine dials once a session key exists.
    pub fn upstream_addr(&self) -> (r: &String)
        ensures
            r@ == self.upstream_view(),
    {
        &self.upstream_addr
    }

    /// Runs the injected verifier on the peer's certificate and token. The
    /// capability is opaque; the tunnel treats every rejection identically
    /// through `auth_event`.
    pub fn authorize(&self, peer_certificate: &[u8], identity_token: &[u8]) -> Result<
        PeerIdentity,
        AuthError,
    > {
        self.jwt_validator.validate(peer_certificate, identity_token)
    }
}

} // verus!
