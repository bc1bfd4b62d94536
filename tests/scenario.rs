use libp2p::swarm::derive_prelude::ListenerId;
use ping_interop::config::{Role, ScenarioConfig};
use ping_interop::driver::{Action, Driver, Failure, Input, Phase, EXIT_FAILURE, EXIT_TIMEOUT};
use ping_interop::node::NodeEvent;

fn config(role: Role, listen_address: &str, timeout_seconds: u64) -> ScenarioConfig {
    ScenarioConfig {
        role,
        target_connections: 1,
        target_pings: 1,
        coordination_endpoint: "redis:6379".to_string(),
        listen_address: listen_address.to_string(),
        timeout_seconds,
    }
}

fn peer() -> Vec<u8> {
    vec![0, 36, 8, 1, 18, 32, 5, 5]
}

#[test]
fn listener_reaches_done_and_keeps_draining() {
    let mut d = Driver::new(config(Role::Listener, "/ip4/127.0.0.1/tcp/0", 10));
    assert_eq!(d.phase(), Phase::Resolving);
    match d.step(Input::Start) {
        Action::Listen(a) => assert_eq!(a.to_string(), "/ip4/127.0.0.1/tcp/0"),
        other => panic!("unexpected {:?}", other),
    }
    assert_eq!(d.phase(), Phase::Listening);
    let tok = ListenerId::next();
    assert!(matches!(d.step(Input::ListenStarted { listener: tok }), Action::NextEvent));
    assert_eq!(d.phase(), Phase::AwaitingListener);
    let bound = "/ip4/127.0.0.1/tcp/40123".to_string();
    match d.step(Input::Event(NodeEvent::ListenerReady { listener: tok, address: bound })) {
        Action::Publish(text) => assert_eq!(text, "/ip4/127.0.0.1/tcp/40123"),
        other => panic!("unexpected {:?}", other),
    }
    assert_eq!(d.phase(), Phase::Publishing);
    assert!(matches!(d.step(Input::Published), Action::NextEvent));
    assert_eq!(d.phase(), Phase::AwaitingConnections);
    assert!(matches!(
        d.step(Input::Event(NodeEvent::ConnectionEstablished { peer: peer() })),
        Action::NextEvent
    ));
    assert_eq!(d.phase(), Phase::AwaitingPings);
    assert!(matches!(
        d.step(Input::Event(NodeEvent::LivenessSuccess { peer: peer() })),
        Action::Succeed { keep_draining: true }
    ));
    assert_eq!(d.phase(), Phase::Done);
    assert_eq!(d.exit_code(), Some(0));
    assert!(matches!(d.step(Input::Deadline), Action::Nothing));
    assert_eq!(d.phase(), Phase::Done);
}

#[test]
fn listener_ignores_other_listeners_and_stray_events() {
    let mut d = Driver::new(config(Role::Listener, "/ip4/127.0.0.1/tcp/0", 10));
    d.step(Input::Start);
    let tok = ListenerId::next();
    d.step(Input::ListenStarted { listener: tok });
    assert!(matches!(
        d.step(Input::Event(NodeEvent::ListenerReady { listener: ListenerId::next(), address: String::new() })),
        Action::NextEvent
    ));
    assert!(matches!(d.step(Input::Event(NodeEvent::Other)), Action::NextEvent));
    assert!(matches!(d.step(Input::Published), Action::Nothing));
    assert_eq!(d.phase(), Phase::AwaitingListener);
    assert_eq!(d.exit_code(), None);
}

#[test]
fn dialer_times_out_without_an_address() {
    let mut d = Driver::new(config(Role::Dialer, "", 5));
    assert!(matches!(d.step(Input::Start), Action::ReadAddress));
    assert_eq!(d.phase(), Phase::AwaitingAddress);
    assert!(matches!(d.step(Input::Deadline), Action::Exit { code: EXIT_TIMEOUT }));
    assert_eq!(d.phase(), Phase::TimedOut);
    assert_eq!(d.exit_code(), Some(EXIT_TIMEOUT));
    assert_ne!(EXIT_TIMEOUT, 0);
    assert!(matches!(
        d.step(Input::AddressReceived { address: "/ip4/1.2.3.4/tcp/1".to_string() }),
        Action::Nothing
    ));
    assert_eq!(d.phase(), Phase::TimedOut);
}

#[test]
fn malformed_listen_address_fails_before_any_event() {
    let mut d = Driver::new(config(Role::Listener, "not-an-address", 10));
    assert!(matches!(d.step(Input::Start), Action::Exit { code: EXIT_FAILURE }));
    assert_eq!(d.phase(), Phase::Failed(Failure::AddressParse));
    assert_eq!(d.exit_code(), Some(EXIT_FAILURE));
    assert_ne!(EXIT_FAILURE, 0);
    assert!(matches!(d.step(Input::ListenStarted { listener: ListenerId::next() }), Action::Nothing));
    assert!(matches!(d.step(Input::Published), Action::Nothing));
    assert_eq!(d.phase(), Phase::Failed(Failure::AddressParse));
}

#[test]
fn dialer_reaches_done_and_stops() {
    let mut d = Driver::new(config(Role::Dialer, "", 10));
    d.step(Input::Start);
    match d.step(Input::AddressReceived { address: "/ip4/10.0.0.2/tcp/4001".to_string() }) {
        Action::Dial(a) => assert_eq!(a.to_string(), "/ip4/10.0.0.2/tcp/4001"),
        other => panic!("unexpected {:?}", other),
    }
    assert_eq!(d.phase(), Phase::Dialing);
    assert!(matches!(d.step(Input::DialStarted), Action::NextEvent));
    d.step(Input::Event(NodeEvent::ConnectionEstablished { peer: peer() }));
    d.step(Input::Event(NodeEvent::LivenessFailure { peer: peer() }));
    assert_eq!(d.phase(), Phase::AwaitingPings);
    assert!(matches!(
        d.step(Input::Event(NodeEvent::LivenessSuccess { peer: peer() })),
        Action::Succeed { keep_draining: false }
    ));
    assert_eq!(d.exit_code(), Some(0));
}

#[test]
fn failures_are_reported_by_kind() {
    let mut d = Driver::new(config(Role::Dialer, "", 10));
    d.step(Input::Start);
    assert!(matches!(
        d.step(Input::AddressReceived { address: "garbage".to_string() }),
        Action::Exit { code: EXIT_FAILURE }
    ));
    assert_eq!(d.phase(), Phase::Failed(Failure::AddressParse));

    let mut d = Driver::new(config(Role::Dialer, "", 10));
    d.step(Input::Start);
    d.step(Input::AddressReceived { address: "/ip4/10.0.0.2/tcp/4001".to_string() });
    assert!(matches!(d.step(Input::DialRefused), Action::Exit { code: EXIT_FAILURE }));
    assert_eq!(d.phase(), Phase::Failed(Failure::Dial));

    let mut d = Driver::new(config(Role::Dialer, "", 10));
    d.step(Input::Start);
    d.step(Input::CoordinationFailed);
    assert_eq!(d.phase(), Phase::Failed(Failure::CoordinationUnavailable));

    let mut d = Driver::new(config(Role::Listener, "/ip4/0.0.0.0/tcp/0", 10));
    d.step(Input::Start);
    assert!(matches!(d.step(Input::ListenRefused), Action::Exit { code: EXIT_FAILURE }));
    assert_eq!(d.phase(), Phase::Failed(Failure::Bind));

    let mut d = Driver::new(config(Role::Listener, "/ip4/0.0.0.0/tcp/0", 10));
    d.step(Input::Start);
    let tok = ListenerId::next();
    d.step(Input::ListenStarted { listener: tok });
    d.step(Input::Event(NodeEvent::ListenerReady { listener: tok, address: String::new() }));
    d.step(Input::CoordinationFailed);
    assert_eq!(d.phase(), Phase::Failed(Failure::CoordinationUnavailable));
}

#[test]
fn deadline_ends_every_unfinished_phase() {
    let mut d = Driver::new(config(Role::Listener, "/ip4/0.0.0.0/tcp/0", 10));
    assert!(matches!(d.step(Input::Deadline), Action::Exit { code: EXIT_TIMEOUT }));
    assert_eq!(d.phase(), Phase::TimedOut);

    let mut d = Driver::new(config(Role::Dialer, "", 10));
    d.step(Input::Start);
    d.step(Input::AddressReceived { address: "/ip4/10.0.0.2/tcp/4001".to_string() });
    d.step(Input::DialStarted);
    assert_eq!(d.phase(), Phase::AwaitingConnections);
    assert!(matches!(d.step(Input::Deadline), Action::Exit { code: EXIT_TIMEOUT }));
    assert_eq!(d.exit_code(), Some(EXIT_TIMEOUT));
}
