//! The scenario driver: a state machine that decides, from the configuration
//! and each outcome the caller reports, what the caller does next.
//!
//! The caller performs each action (listen, publish, read the coordination
//! channel, dial, take the next node event) and hands back what happened.
//! It also reports the overall deadline, which ends any unfinished run.

use vstd::prelude::*;
use libp2p::swarm::derive_prelude::ListenerId;
use libp2p::Multiaddr;
use crate::address::{is_multiaddr, parse_address};
use crate::config::{Role, ScenarioConfig};
use crate::node::{confirms_listener, counted_peers, ListenWait, NodeEvent, PeerWait, Tally};

verus! {

/// Exit status of a run that failed on configuration, address, bind, dial
/// or coordination.
pub const EXIT_FAILURE: u8 = 1;

/// Exit status of a run that the deadline ended.
pub const EXIT_TIMEOUT: u8 = 2;

/// Why a run failed, other than by timeout.
#[derive(Debug, Clone, Copy, PartialEq, Eq, Structural)]
pub enum Failure {
    AddressParse,
    Bind,
    Dial,
    CoordinationUnavailable,
}

/// Where a run stands.
#[derive(Debug, Clone, Copy, PartialEq, Eq, Structural)]
pub enum Phase {
    /// Configured; nothing done yet.
    Resolving,
    /// Listener: the listen request is out.
    Listening,
    /// Listener: waiting for the listener to be confirmed.
    AwaitingListener,
    /// Listener: publishing the address to the coordination channel.
    Publishing,
    /// Dialer: reading the listener's address from the coordination channel.
    AwaitingAddress,
    /// Dialer: the dial request is out.
    Dialing,
    AwaitingConnections,
    AwaitingPings,
    Done,
    TimedOut,
    Failed(Failure),
}

/// Whether a run in `phase` is over.
pub open spec fn is_terminal(phase: Phase) -> bool {
    phase is Done || phase is TimedOut || phase is Failed
}

/// The exit status of a run that ended in `phase`.
pub open spec fn exit_status(phase: Phase) -> Option<u8> {
    match phase {
        Phase::Done => Some(0),
        Phase::TimedOut => Some(EXIT_TIMEOUT),
        Phase::Failed(_) => Some(EXIT_FAILURE),
        _ => None,
    }
}

/// What happened since the last action.
#[derive(Debug)]
pub enum Input {
    /// The run begins.
    Start,
    /// The listen request was accepted under this identifier.
    ListenStarted { listener: ListenerId },
    /// The stack could not bind the address.
    ListenRefused,
    /// The address was published.
    Published,
    /// The coordination channel gave the listener's address.
    AddressReceived { address: String },
    /// The coordination channel could not be used.
    CoordinationFailed,
    /// The dial attempt was started.
    DialStarted,
    /// The stack refused to start the dial attempt.
    DialRefused,
    /// The node produced an event.
    Event(NodeEvent),
    /// The overall deadline passed.
    Deadline,
}

/// What the caller does next.
#[derive(Debug)]
pub enum Action {
    /// Ask the stack to listen on this address.
    Listen(Multiaddr),
    /// Publish this address, on which the listener was confirmed, on the
    /// coordination channel.
    Publish(String),
    /// Read the listener's address from the coordination channel.
    ReadAddress,
    /// Ask the stack to dial this address.
    Dial(Multiaddr),
    /// Take the next event of the node.
    NextEvent,
    /// Report success with exit status 0; a listener keeps draining events
    /// so that the dialer can finish.
    Succeed { keep_draining: bool },
    /// Report failure with this exit status.
    Exit { code: u8 },
    /// The input does not apply here; nothing to do.
    Nothing,
}

/// The scenario driver.
pub struct Driver {
    config: ScenarioConfig,
    phase: Phase,
    listen_wait: Option<ListenWait>,
    wait: PeerWait,
}

impl Driver {
    pub closed spec fn config(&self) -> ScenarioConfig {
        self.config
    }

    pub closed spec fn phase_of(&self) -> Phase {
        self.phase
    }

    /// The listener awaited, once the listen request has been accepted.
    pub closed spec fn pending_listener(&self) -> Option<ListenerId> {
        match self.listen_wait {
            Some(w) => Some(w.listener()),
            None => None,
        }
    }

    /// The wait for peers under way.
    pub closed spec fn peer_wait(&self) -> PeerWait {
        self.wait
    }

    pub closed spec fn wf(&self) -> bool {
        &&& self.wait.wf()
        &&& self.phase is AwaitingListener ==> self.listen_wait is Some
        &&& self.phase is AwaitingConnections ==> {
            &&& self.wait.tally() == Tally::Connections
            &&& self.wait.target() == self.config.target_connections
        }
        &&& self.phase is AwaitingPings ==> {
            &&& self.wait.tally() == Tally::Pings
            &&& self.wait.target() == self.config.target_pings
        }
    }

    /// A driver for a run under `config`, before it starts.
    pub fn new(config: ScenarioConfig) -> (r: Driver)
        ensures
            r.wf(),
            r.config() == config,
            r.phase_of() == Phase::Resolving,
    {
        let wait = PeerWait::new(Tally::Connections, config.target_connections);
        Driver { config, phase: Phase::Resolving, listen_wait: None, wait }
    }

    /// Where the run stands.
    pub fn phase(&self) -> (r: Phase)
        ensures
            r == self.phase_of(),
    {
        self.phase
    }

    /// The exit status, once the run is over.
    pub fn exit_code(&self) -> (r: Option<u8>)
        ensures
            r == exit_status(self.phase_of()),
    {
        match self.phase {
            Phase::Done => Some(0),
            Phase::TimedOut => Some(EXIT_TIMEOUT),
            Phase::Failed(_) => Some(EXIT_FAILURE),
            _ => None,
        }
    }

    /// The phase the run moves to on `input`.
    pub open spec fn next_phase(&self, input: Input) -> Phase {
        let phase = self.phase_of();
        let config = self.config();
        if is_terminal(phase) {
            phase
        } else if input is Deadline {
            Phase::TimedOut
        } else {
            match phase {
                Phase::Resolving => match input {
                    Input::Start => match config.role {
                        Role::Listener => if is_multiaddr(config.listen_address@) {
                            Phase::Listening
                        } else {
                            Phase::Failed(Failure::AddressParse)
                        },
                        Role::Dialer => Phase::AwaitingAddress,
                    },
                    _ => phase,
                },
                Phase::Listening => match input {
                    Input::ListenStarted { .. } => Phase::AwaitingListener,
                    Input::ListenRefused => Phase::Failed(Failure::Bind),
                    _ => phase,
                },
                Phase::AwaitingListener => match input {
                    Input::Event(e) => if confirms_listener(e, self.pending_listener()->0) {
                        Phase::Publishing
                    } else {
                        phase
                    },
                    _ => phase,
                },
                Phase::Publishing => match input {
                    Input::Published => Phase::AwaitingConnections,
                    Input::CoordinationFailed => Phase::Failed(Failure::CoordinationUnavailable),
                    _ => phase,
                },
                Phase::AwaitingAddress => match input {
                    Input::AddressReceived { address } => if is_multiaddr(address@) {
                        Phase::Dialing
                    } else {
                        Phase::Failed(Failure::AddressParse)
                    },
                    Input::CoordinationFailed => Phase::Failed(Failure::CoordinationUnavailable),
                    _ => phase,
                },
                Phase::Dialing => match input {
                    Input::DialStarted => Phase::AwaitingConnections,
                    Input::DialRefused => Phase::Failed(Failure::Dial),
                    _ => phase,
                },
                Phase::AwaitingConnections => match input {
                    Input::Event(e) => if counted_peers(
                        Tally::Connections,
                        self.peer_wait().consumed().push(e),
                    ).len() >= config.target_connections {
                        Phase::AwaitingPings
                    } else {
                        phase
                    },
                    _ => phase,
                },
                Phase::AwaitingPings => match input {
                    Input::Event(e) => if counted_peers(
                        Tally::Pings,
                        self.peer_wait().consumed().push(e),
                    ).len() >= config.target_pings {
                        Phase::Done
                    } else {
                        phase
                    },
                    _ => phase,
                },
                _ => phase,
            }
        }
    }

    /// Whether `a` is the action owed on moving from this driver's phase to
    /// `after` on `input`.
    pub open spec fn action_fits(&self, input: Input, after: Phase, a: Action) -> bool {
        let before = self.phase_of();
        if after == before {
            if (before is AwaitingListener || before is AwaitingConnections || before is AwaitingPings)
                && input is Event {
                a == Action::NextEvent
            } else {
                a == Action::Nothing
            }
        } else {
            match after {
                Phase::Listening => a is Listen,
                Phase::Publishing => match (input, a) {
                    (Input::Event(NodeEvent::ListenerReady { address, .. }), Action::Publish(t)) => t@
                        == address@,
                    _ => false,
                },
                Phase::AwaitingAddress => a == Action::ReadAddress,
                Phase::Dialing => a is Dial,
                Phase::Done => a == (Action::Succeed {
                    keep_draining: self.config().role == Role::Listener,
                }),
                Phase::TimedOut => a == (Action::Exit { code: EXIT_TIMEOUT }),
                Phase::Failed(_) => a == (Action::Exit { code: EXIT_FAILURE }),
                _ => a == Action::NextEvent,
            }
        }
    }

    /// Whether the run is over.
    pub fn is_over(&self) -> (r: bool)
        ensures
            r == is_terminal(self.phase_of()),
    {
        matches!(self.phase, Phase::Done | Phase::TimedOut | Phase::Failed(_))
    }

    /// Takes in what happened and returns what to do next. A run that is
    /// over ignores every input; the deadline ends any other run; an input
    /// that does not apply to the phase is ignored.
    pub fn step(&mut self, input: Input) -> (a: Action)
        requires
            old(self).wf(),
        ensures
            final(self).wf(),
            final(self).config() == old(self).config(),
            final(self).phase_of() == old(self).next_phase(input),
            old(self).action_fits(input, final(self).phase_of(), a),
            old(self).phase_of() is Listening && final(self).phase_of() is AwaitingListener
                ==> (input matches Input::ListenStarted { listener }
                && final(self).pending_listener() == Some(listener)),
            final(self).phase_of() is AwaitingListener ==> final(self).pending_listener()
                == old(self).pending_listener() || old(self).phase_of() is Listening,
            (final(self).phase_of() is AwaitingConnections || final(self).phase_of() is AwaitingPings)
                ==> final(self).peer_wait().consumed() == if final(self).phase_of()
                != old(self).phase_of() {
                Seq::<NodeEvent>::empty()
            } else {
                match input {
                    Input::Event(e) => old(self).peer_wait().consumed().push(e),
                    _ => old(self).peer_wait().consumed(),
                }
            },
    {
        if self.is_over() {
            return Action::Nothing;
        }
        match input {
            Input::Deadline => {
                self.phase = Phase::TimedOut;
                Action::Exit { code: EXIT_TIMEOUT }
            },
            Input::Start => {
                if !matches!(self.phase, Phase::Resolving) {
                    return Action::Nothing;
                }
                match self.config.role {
                    Role::Listener => match parse_address(self.config.listen_address.as_str()) {
                        Ok(address) => {
                            self.phase = Phase::Listening;
                            Action::Listen(address)
                        },
                        Err(_) => self.fail(Failure::AddressParse),
                    },
                    Role::Dialer => {
                        self.phase = Phase::AwaitingAddress;
                        Action::ReadAddress
                    },
                }
            },
            Input::ListenStarted { listener } => {
                if !matches!(self.phase, Phase::Listening) {
                    return Action::Nothing;
                }
                self.listen_wait = Some(ListenWait::new(listener));
                self.phase = Phase::AwaitingListener;
                Action::NextEvent
            },
            Input::ListenRefused => {
                if !matches!(self.phase, Phase::Listening) {
                    return Action::Nothing;
                }
                self.fail(Failure::Bind)
            },
            Input::Published => {
                if !matches!(self.phase, Phase::Publishing) {
                    return Action::Nothing;
                }
                self.start_connections()
            },
            Input::AddressReceived { address } => {
                if !matches!(self.phase, Phase::AwaitingAddress) {
                    return Action::Nothing;
                }
                match parse_address(address.as_str()) {
                    Ok(a) => {
                        self.phase = Phase::Dialing;
                        Action::Dial(a)
                    },
                    Err(_) => self.fail(Failure::AddressParse),
                }
            },
            Input::CoordinationFailed => {
                if !matches!(self.phase, Phase::Publishing | Phase::AwaitingAddress) {
                    return Action::Nothing;
                }
                self.fail(Failure::CoordinationUnavailable)
            },
            Input::DialStarted => {
                if !matches!(self.phase, Phase::Dialing) {
                    return Action::Nothing;
                }
                self.start_connections()
            },
            Input::DialRefused => {
                if !matches!(self.phase, Phase::Dialing) {
                    return Action::Nothing;
                }
                self.fail(Failure::Dial)
            },
            Input::Event(e) => self.observe(e),
        }
    }

    fn start_connections(&mut self) -> (a: Action)
        requires
            old(self).wf(),
        ensures
            final(self).wf(),
            final(self).phase == Phase::AwaitingConnections,
            final(self).config == old(self).config,
            final(self).listen_wait == old(self).listen_wait,
            final(self).wait.consumed() == Seq::<NodeEvent>::empty(),
            a == Action::NextEvent,
    {
        self.wait = PeerWait::new(Tally::Connections, self.config.target_connections);
        self.phase = Phase::AwaitingConnections;
        Action::NextEvent
    }

    fn observe(&mut self, e: NodeEvent) -> (a: Action)
        requires
            old(self).wf(),
            !is_terminal(old(self).phase),
        ensures
            final(self).wf(),
            final(self).config == old(self).config,
            final(self).phase_of() == old(self).next_phase(Input::Event(e)),
            old(self).action_fits(Input::Event(e), final(self).phase_of(), a),
            final(self).listen_wait == old(self).listen_wait,
            (final(self).phase_of() is AwaitingConnections || final(self).phase_of() is AwaitingPings)
                ==> final(self).peer_wait().consumed() == if final(self).phase_of()
                != old(self).phase_of() {
                Seq::<NodeEvent>::empty()
            } else {
                old(self).peer_wait().consumed().push(e)
            },
    {
        match self.phase {
            Phase::AwaitingListener => {
                let ready = match &self.listen_wait {
                    Some(w) => w.observe(&e),
                    None => false,
                };
                if ready {
                    self.phase = Phase::Publishing;
                    match e {
                        NodeEvent::ListenerReady { address, .. } => Action::Publish(address),
                        _ => Action::NextEvent,
                    }
                } else {
                    Action::NextEvent
                }
            },
            Phase::AwaitingConnections => {
                if self.wait.observe(&e) {
                    self.wait = PeerWait::new(Tally::Pings, self.config.target_pings);
                    self.phase = Phase::AwaitingPings;
                }
                Action::NextEvent
            },
            Phase::AwaitingPings => {
                if self.wait.observe(&e) {
                    self.phase = Phase::Done;
                    Action::Succeed { keep_draining: matches!(self.config.role, Role::Listener) }
                } else {
                    Action::NextEvent
                }
            },
            _ => Action::Nothing,
        }
    }

    fn fail(&mut self, failure: Failure) -> (a: Action)
        ensures
            final(self).phase == Phase::Failed(failure),
            final(self).config == old(self).config,
            final(self).wait == old(self).wait,
            final(self).listen_wait == old(self).listen_wait,
            a == (Action::Exit { code: EXIT_FAILURE }),
    {
        self.phase = Phase::Failed(failure);
        Action::Exit { code: EXIT_FAILURE }
    }
}

} // verus!
