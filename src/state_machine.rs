//! The tunnel state machine: a finite-state controller over the lifecycle of
//! a VPN tunnel that never lets traffic leave in the clear while the user asks
//! for a secured network.
use vstd::prelude::*;

use crate::tunnel::{copy_block_reason, ActionAfterDisconnect, BlockReason, TunnelStateTransition};

verus! {

/// Transport protocol of a tunnel endpoint.
#[derive(Clone, Copy, Debug, PartialEq, Eq, Structural)]
pub enum TransportProtocol {
    Udp,
    Tcp,
}

/// Where the tunnel connects to.
#[derive(Clone, Debug, PartialEq, Eq)]
pub struct TunnelEndpoint {
    pub address: String,
    pub port: u16,
    pub protocol: TransportProtocol,
}

/// Options handed to the tunnel process.
#[derive(Clone, Copy, Debug, PartialEq, Eq, Structural)]
pub struct TunnelOptions {
    pub enable_ipv6: bool,
    pub mssfix: Option<u16>,
}

/// Everything needed to start a tunnel. Built afresh for every connection.
#[derive(Clone, Debug, PartialEq, Eq)]
pub struct TunnelParameters {
    pub endpoint: TunnelEndpoint,
    pub options: TunnelOptions,
    pub log_dir: Option<String>,
    pub resource_dir: String,
    pub username: String,
    pub allow_lan: bool,
}

/// Commands the supervisor sends to the state machine.
#[derive(Clone, Debug, PartialEq, Eq)]
pub enum TunnelCommand {
    /// Open a tunnel with the given parameters.
    Connect(TunnelParameters),
    /// Close the tunnel and stop blocking.
    Disconnect,
    /// Close the tunnel and block all traffic but, when the flag is set, LAN traffic.
    Block(BlockReason, bool),
    /// Allow or forbid LAN traffic while a tunnel is up or traffic is blocked.
    AllowLan(bool),
}

/// Which state should be transitioned to after disconnection is complete.
#[derive(Clone, Debug, PartialEq, Eq)]
pub enum AfterDisconnect {
    Nothing,
    Block(BlockReason, bool),
    Reconnect(TunnelParameters),
}

impl AfterDisconnect {
    pub open spec fn spec_action(&self) -> ActionAfterDisconnect {
        match self {
            AfterDisconnect::Nothing => ActionAfterDisconnect::Nothing,
            AfterDisconnect::Block(..) => ActionAfterDisconnect::Block,
            AfterDisconnect::Reconnect(_) => ActionAfterDisconnect::Reconnect,
        }
    }

    /// Build event representation of the action that will be taken after the disconnection.
    pub fn action(&self) -> (a: ActionAfterDisconnect)
        ensures
            a == self.spec_action(),
    {
        match self {
            AfterDisconnect::Nothing => ActionAfterDisconnect::Nothing,
            AfterDisconnect::Block(..) => ActionAfterDisconnect::Block,
            AfterDisconnect::Reconnect(_) => ActionAfterDisconnect::Reconnect,
        }
    }
}

/// The states of the tunnel.
#[derive(Clone, Debug, PartialEq, Eq)]
pub enum TunnelState {
    /// No tunnel and no firewall policy.
    Disconnected,
    /// Tunnel process started, firewall active, waiting for the handshake.
    Connecting(TunnelParameters),
    /// Tunnel up, firewall active.
    Connected(TunnelParameters),
    /// Tunnel being torn down, with the intent that follows.
    Disconnecting(AfterDisconnect),
    /// No tunnel, every connection blocked but LAN traffic when allowed.
    Blocked(BlockReason, bool),
}

/// What the state machine reacts to: commands and notifications from the tunnel.
#[derive(Clone, Debug, PartialEq, Eq)]
pub enum TunnelInput {
    /// A command from the supervisor.
    Command(TunnelCommand),
    /// The command stream was closed.
    CommandsClosed,
    /// The tunnel completed its handshake.
    TunnelUp,
    /// The remote server rejected the credentials.
    AuthFailed(Option<String>),
    /// The tunnel process exited; the flag tells whether it exited cleanly.
    ProcessExit(bool),
    /// The firewall refused the policy that was asked of it.
    PolicyFailed,
}

/// A firewall policy.
#[derive(Clone, Copy, Debug, PartialEq, Eq, Structural)]
pub enum FirewallPolicy {
    /// No filtering.
    Off,
    /// Only tunnel traffic, and LAN traffic when the flag is set.
    BlockAllExceptTunnel(bool),
    /// Nothing, but LAN traffic when the flag is set.
    BlockAll(bool),
}

/// An effect on the outside world that the state machine asks for, in order.
#[derive(Clone, Copy, Debug, PartialEq, Eq, Structural)]
pub enum Effect {
    /// Install the given firewall policy.
    ApplyPolicy(FirewallPolicy),
    /// Start the tunnel process with the parameters of the current state.
    SpawnTunnel,
    /// Ask the tunnel process to exit. Its exit comes back as a process exit,
    /// at once when no process is running.
    CloseTunnel,
    /// Point DNS at the tunnel.
    SetDns,
    /// Restore the system's DNS settings.
    ResetDns,
}

/// The outcome of one input: the reported transition, if a state was
/// entered, and the effects to perform in order.
pub struct Step {
    pub transition: Option<TunnelStateTransition>,
    pub effects: Vec<Effect>,
}

/// The state reported for a state.
pub open spec fn report(s: TunnelState) -> TunnelStateTransition {
    match s {
        TunnelState::Disconnected => TunnelStateTransition::Disconnected,
        TunnelState::Connecting(_) => TunnelStateTransition::Connecting,
        TunnelState::Connected(_) => TunnelStateTransition::Connected,
        TunnelState::Disconnecting(after) => TunnelStateTransition::Disconnecting(after.spec_action()),
        TunnelState::Blocked(r, _) => TunnelStateTransition::Blocked(r),
    }
}

/// The effects of entering a state. The firewall comes first wherever a
/// policy is installed.
pub open spec fn entry_effects(s: TunnelState) -> Seq<Effect> {
    match s {
        TunnelState::Disconnected => seq![Effect::ResetDns, Effect::ApplyPolicy(FirewallPolicy::Off)],
        TunnelState::Connecting(p) => seq![
            Effect::ApplyPolicy(FirewallPolicy::BlockAllExceptTunnel(p.allow_lan)),
            Effect::SpawnTunnel,
        ],
        TunnelState::Connected(p) => seq![
            Effect::ApplyPolicy(FirewallPolicy::BlockAllExceptTunnel(p.allow_lan)),
            Effect::SetDns,
        ],
        TunnelState::Disconnecting(_) => seq![Effect::CloseTunnel],
        TunnelState::Blocked(_, a) => seq![
            Effect::ApplyPolicy(FirewallPolicy::BlockAll(a)),
            Effect::ResetDns,
        ],
    }
}

/// The queued intent after a command or a closed command stream arrives
/// while disconnecting.
pub open spec fn next_after(after: AfterDisconnect, i: TunnelInput) -> AfterDisconnect {
    match i {
        TunnelInput::Command(TunnelCommand::Connect(p)) => AfterDisconnect::Reconnect(p),
        TunnelInput::Command(TunnelCommand::Block(r, a)) => AfterDisconnect::Block(r, a),
        TunnelInput::Command(TunnelCommand::Disconnect) => AfterDisconnect::Nothing,
        TunnelInput::Command(TunnelCommand::AllowLan(a)) => match after {
            AfterDisconnect::Reconnect(p) => AfterDisconnect::Reconnect(
                TunnelParameters { allow_lan: a, ..p },
            ),
            _ => after,
        },
        TunnelInput::CommandsClosed => match after {
            AfterDisconnect::Block(r, a) => AfterDisconnect::Block(r, a),
            _ => AfterDisconnect::Nothing,
        },
        _ => after,
    }
}

/// The state that follows the exit of the tunnel process while disconnecting.
pub open spec fn target_of(after: AfterDisconnect) -> TunnelState {
    match after {
        AfterDisconnect::Nothing => TunnelState::Disconnected,
        AfterDisconnect::Block(r, a) => TunnelState::Blocked(r, a),
        AfterDisconnect::Reconnect(p) => TunnelState::Connecting(p),
    }
}

/// Where a live tunnel (connecting or connected, with its LAN flag) goes on an input,
/// apart from a flag change. A connected tunnel whose process exits is torn
/// down first, towards disconnected after a clean exit and blocked otherwise.
pub open spec fn leave_live(allow_lan: bool, connected: bool, i: TunnelInput) -> Option<TunnelState> {
    match i {
        TunnelInput::Command(TunnelCommand::Connect(p)) => Some(
            TunnelState::Disconnecting(AfterDisconnect::Reconnect(p)),
        ),
        TunnelInput::Command(TunnelCommand::Disconnect) | TunnelInput::CommandsClosed => Some(
            TunnelState::Disconnecting(AfterDisconnect::Nothing),
        ),
        TunnelInput::Command(TunnelCommand::Block(r, a)) => Some(
            TunnelState::Disconnecting(AfterDisconnect::Block(r, a)),
        ),
        TunnelInput::AuthFailed(reason) => Some(
            TunnelState::Disconnecting(
                AfterDisconnect::Block(BlockReason::AuthFailed(reason), allow_lan),
            ),
        ),
        TunnelInput::PolicyFailed => Some(
            TunnelState::Disconnecting(
                AfterDisconnect::Block(BlockReason::SetSecurityPolicyError, allow_lan),
            ),
        ),
        TunnelInput::ProcessExit(clean) => Some(
            if connected {
                if clean {
                    TunnelState::Disconnecting(AfterDisconnect::Nothing)
                } else {
                    TunnelState::Disconnecting(
                        AfterDisconnect::Block(BlockReason::StartTunnelError, allow_lan),
                    )
                }
            } else if clean {
                TunnelState::Disconnected
            } else {
                TunnelState::Blocked(BlockReason::StartTunnelError, allow_lan)
            },
        ),
        _ => None,
    }
}

/// The state after an input, and whether that state is entered (and so reported).
pub open spec fn next(s: TunnelState, i: TunnelInput) -> (TunnelState, bool) {
    match s {
        TunnelState::Disconnected => match i {
            TunnelInput::Command(TunnelCommand::Connect(p)) => (TunnelState::Connecting(p), true),
            TunnelInput::Command(TunnelCommand::Block(r, a)) => (TunnelState::Blocked(r, a), true),
            _ => (s, false),
        },
        TunnelState::Connecting(p) => match i {
            TunnelInput::Command(TunnelCommand::AllowLan(a)) => (
                TunnelState::Connecting(TunnelParameters { allow_lan: a, ..p }),
                false,
            ),
            TunnelInput::TunnelUp => (TunnelState::Connected(p), true),
            _ => match leave_live(p.allow_lan, false, i) {
                Some(t) => (t, true),
                None => (s, false),
            },
        },
        TunnelState::Connected(p) => match i {
            TunnelInput::Command(TunnelCommand::AllowLan(a)) => (
                TunnelState::Connected(TunnelParameters { allow_lan: a, ..p }),
                false,
            ),
            _ => match leave_live(p.allow_lan, true, i) {
                Some(t) => (t, true),
                None => (s, false),
            },
        },
        TunnelState::Disconnecting(after) => match i {
            TunnelInput::ProcessExit(_) => (target_of(after), true),
            _ => (TunnelState::Disconnecting(next_after(after, i)), false),
        },
        TunnelState::Blocked(r, a) => match i {
            TunnelInput::Command(TunnelCommand::Connect(p)) => (TunnelState::Connecting(p), true),
            TunnelInput::Command(TunnelCommand::Disconnect) | TunnelInput::CommandsClosed => (
                TunnelState::Disconnected,
                true,
            ),
            TunnelInput::Command(TunnelCommand::Block(r2, a2)) => (TunnelState::Blocked(r2, a2), true),
            TunnelInput::Command(TunnelCommand::AllowLan(a2)) => (TunnelState::Blocked(r, a2), false),
            TunnelInput::PolicyFailed => (
                TunnelState::Blocked(BlockReason::SetSecurityPolicyError, a),
                true,
            ),
            _ => (s, false),
        },
    }
}

/// The effects of an input that changes a state in place: a new LAN flag is
/// enforced at once where a policy is in force.
pub open spec fn in_place_effects(s: TunnelState, i: TunnelInput) -> Seq<Effect> {
    match (s, i) {
        (TunnelState::Connecting(_), TunnelInput::Command(TunnelCommand::AllowLan(a))) => seq![
            Effect::ApplyPolicy(FirewallPolicy::BlockAllExceptTunnel(a)),
        ],
        (TunnelState::Connected(_), TunnelInput::Command(TunnelCommand::AllowLan(a))) => seq![
            Effect::ApplyPolicy(FirewallPolicy::BlockAllExceptTunnel(a)),
        ],
        (TunnelState::Blocked(_, _), TunnelInput::Command(TunnelCommand::AllowLan(a))) => seq![
            Effect::ApplyPolicy(FirewallPolicy::BlockAll(a)),
        ],
        _ => seq![],
    }
}

/// The effects of an input.
pub open spec fn effects_of(s: TunnelState, i: TunnelInput) -> Seq<Effect> {
    let (t, entered) = next(s, i);
    if entered && !(s is Blocked && i is PolicyFailed) {
        entry_effects(t)
    } else {
        in_place_effects(s, i)
    }
}

/// A state in which no traffic can leave outside the tunnel: all but
/// disconnected and disconnecting with nothing to follow.
pub open spec fn is_secured(s: TunnelState) -> bool {
    match s {
        TunnelState::Disconnected => false,
        TunnelState::Disconnecting(AfterDisconnect::Nothing) => false,
        _ => true,
    }
}

/// Copies tunnel parameters, field for field.
pub fn copy_parameters(p: &TunnelParameters) -> (c: TunnelParameters)
    ensures
        c == *p,
{
    TunnelParameters {
        endpoint: TunnelEndpoint {
            address: p.endpoint.address.clone(),
            port: p.endpoint.port,
            protocol: p.endpoint.protocol,
        },
        options: p.options,
        log_dir: match &p.log_dir {
            Some(d) => Some(d.clone()),
            None => None,
        },
        resource_dir: p.resource_dir.clone(),
        username: p.username.clone(),
        allow_lan: p.allow_lan,
    }
}

/// Enters a state: reports it and performs its entry effects.
fn enter(s: TunnelState) -> (r: (TunnelState, Step))
    ensures
        r.0 == s,
        r.1.transition == Some(report(s)),
        r.1.effects@ == entry_effects(s),
{
    let (t, e) = match &s {
        TunnelState::Disconnected => (
            TunnelStateTransition::Disconnected,
            vec![Effect::ResetDns, Effect::ApplyPolicy(FirewallPolicy::Off)],
        ),
        TunnelState::Connecting(p) => (
            TunnelStateTransition::Connecting,
            vec![
                Effect::ApplyPolicy(FirewallPolicy::BlockAllExceptTunnel(p.allow_lan)),
                Effect::SpawnTunnel,
            ],
        ),
        TunnelState::Connected(p) => (
            TunnelStateTransition::Connected,
            vec![
                Effect::ApplyPolicy(FirewallPolicy::BlockAllExceptTunnel(p.allow_lan)),
                Effect::SetDns,
            ],
        ),
        TunnelState::Disconnecting(after) => (
            TunnelStateTransition::Disconnecting(after.action()),
            vec![Effect::CloseTunnel],
        ),
        TunnelState::Blocked(reason, a) => (
            TunnelStateTransition::Blocked(copy_block_reason(reason)),
            vec![Effect::ApplyPolicy(FirewallPolicy::BlockAll(*a)), Effect::ResetDns],
        ),
    };
    (s, Step { transition: Some(t), effects: e })
}

/// Stays in a state, changed in place or not, reporting nothing.
fn stay(s: TunnelState, effects: Vec<Effect>) -> (r: (TunnelState, Step))
    ensures
        r.0 == s,
        r.1.transition is None,
        r.1.effects@ == effects@,
{
    (s, Step { transition: None, effects })
}

/// The intent that follows a command (or a closed command stream) while disconnecting.
fn update_after(after: AfterDisconnect, i: TunnelInput) -> (r: AfterDisconnect)
    ensures
        r == next_after(after, i),
{
    match i {
        TunnelInput::Command(TunnelCommand::Connect(p)) => AfterDisconnect::Reconnect(p),
        TunnelInput::Command(TunnelCommand::Block(r, a)) => AfterDisconnect::Block(r, a),
        TunnelInput::Command(TunnelCommand::Disconnect) => AfterDisconnect::Nothing,
        TunnelInput::Command(TunnelCommand::AllowLan(a)) => match after {
            AfterDisconnect::Reconnect(mut p) => {
                p.allow_lan = a;
                AfterDisconnect::Reconnect(p)
            },
            other => other,
        },
        TunnelInput::CommandsClosed => match after {
            AfterDisconnect::Block(r, a) => AfterDisconnect::Block(r, a),
            _ => AfterDisconnect::Nothing,
        },
        _ => after,
    }
}

/// Where a live tunnel goes on an input other than a flag change, if anywhere.
fn leave_live_tunnel(allow_lan: bool, connected: bool, i: TunnelInput) -> (r: Option<TunnelState>)
    ensures
        r == leave_live(allow_lan, connected, i),
{
    match i {
        TunnelInput::Command(TunnelCommand::Connect(p)) => Some(
            TunnelState::Disconnecting(AfterDisconnect::Reconnect(p)),
        ),
        TunnelInput::Command(TunnelCommand::Disconnect) | TunnelInput::CommandsClosed => Some(
            TunnelState::Disconnecting(AfterDisconnect::Nothing),
        ),
        TunnelInput::Command(TunnelCommand::Block(r, a)) => Some(
            TunnelState::Disconnecting(AfterDisconnect::Block(r, a)),
        ),
        TunnelInput::AuthFailed(reason) => Some(
            TunnelState::Disconnecting(
                AfterDisconnect::Block(BlockReason::AuthFailed(reason), allow_lan),
            ),
        ),
        TunnelInput::PolicyFailed => Some(
            TunnelState::Disconnecting(
                AfterDisconnect::Block(BlockReason::SetSecurityPolicyError, allow_lan),
            ),
        ),
        TunnelInput::ProcessExit(clean) => Some(
            if connected {
                if clean {
                    TunnelState::Disconnecting(AfterDisconnect::Nothing)
                } else {
                    TunnelState::Disconnecting(
                        AfterDisconnect::Block(BlockReason::StartTunnelError, allow_lan),
                    )
                }
            } else if clean {
                TunnelState::Disconnected
            } else {
                TunnelState::Blocked(BlockReason::StartTunnelError, allow_lan)
            },
        ),
        _ => None,
    }
}

/// Applies one input to a state: the next state, the reported transition
/// when a state is entered, and the effects to perform in order.
pub fn step(state: TunnelState, input: TunnelInput) -> (r: (TunnelState, Step))
    ensures
        r.0 == next(state, input).0,
        r.1.transition == (if next(state, input).1 {
            Some(report(r.0))
        } else {
            None
        }),
        r.1.effects@ == effects_of(state, input),
{
    match state {
        TunnelState::Disconnected => match input {
            TunnelInput::Command(TunnelCommand::Connect(p)) => enter(TunnelState::Connecting(p)),
            TunnelInput::Command(TunnelCommand::Block(r, a)) => enter(TunnelState::Blocked(r, a)),
            _ => stay(TunnelState::Disconnected, Vec::new()),
        },
        TunnelState::Connecting(mut p) => match input {
            TunnelInput::Command(TunnelCommand::AllowLan(a)) => {
                p.allow_lan = a;
                stay(
                    TunnelState::Connecting(p),
                    vec![Effect::ApplyPolicy(FirewallPolicy::BlockAllExceptTunnel(a))],
                )
            },
            TunnelInput::TunnelUp => enter(TunnelState::Connected(p)),
            other => {
                let allow_lan = p.allow_lan;
                match leave_live_tunnel(allow_lan, false, other) {
                    Some(t) => enter(t),
                    None => stay(TunnelState::Connecting(p), Vec::new()),
                }
            },
        },
        TunnelState::Connected(mut p) => match input {
            TunnelInput::Command(TunnelCommand::AllowLan(a)) => {
                p.allow_lan = a;
                stay(
                    TunnelState::Connected(p),
                    vec![Effect::ApplyPolicy(FirewallPolicy::BlockAllExceptTunnel(a))],
                )
            },
            other => {
                let allow_lan = p.allow_lan;
                match leave_live_tunnel(allow_lan, true, other) {
                    Some(t) => enter(t),
                    None => stay(TunnelState::Connected(p), Vec::new()),
                }
            },
        },
        TunnelState::Disconnecting(after) => match input {
            TunnelInput::ProcessExit(_) => match after {
                AfterDisconnect::Nothing => enter(TunnelState::Disconnected),
                AfterDisconnect::Block(r, a) => enter(TunnelState::Blocked(r, a)),
                AfterDisconnect::Reconnect(p) => enter(TunnelState::Connecting(p)),
            },
            other => stay(TunnelState::Disconnecting(update_after(after, other)), Vec::new()),
        },
        TunnelState::Blocked(reason, a) => match input {
            TunnelInput::Command(TunnelCommand::Connect(p)) => enter(TunnelState::Connecting(p)),
            TunnelInput::Command(TunnelCommand::Disconnect) | TunnelInput::CommandsClosed => enter(
                TunnelState::Disconnected,
            ),
            TunnelInput::Command(TunnelCommand::Block(r2, a2)) => enter(TunnelState::Blocked(r2, a2)),
            TunnelInput::Command(TunnelCommand::AllowLan(a2)) => stay(
                TunnelState::Blocked(reason, a2),
                vec![Effect::ApplyPolicy(FirewallPolicy::BlockAll(a2))],
            ),
            TunnelInput::PolicyFailed => (
                TunnelState::Blocked(BlockReason::SetSecurityPolicyError, a),
                Step {
                    transition: Some(
                        TunnelStateTransition::Blocked(BlockReason::SetSecurityPolicyError),
                    ),
                    effects: Vec::new(),
                },
            ),
            _ => stay(TunnelState::Blocked(reason, a), Vec::new()),
        },
    }
}

/// The tunnel state machine: owns the current state and applies inputs to it.
pub struct TunnelStateMachine {
    pub state: TunnelState,
}

impl TunnelStateMachine {
    /// A machine in its initial state, disconnected.
    pub fn new() -> (m: Self)
        ensures
            m.state == TunnelState::Disconnected,
    {
        TunnelStateMachine { state: TunnelState::Disconnected }
    }

    /// Applies one input; see [`step`].
    pub fn handle(&mut self, input: TunnelInput) -> (s: Step)
        ensures
            final(self).state == next(old(self).state, input).0,
            s.transition == (if next(old(self).state, input).1 {
                Some(report(final(self).state))
            } else {
                None
            }),
            s.effects@ == effects_of(old(self).state, input),
    {
        let mut current = TunnelState::Disconnected;
        core::mem::swap(&mut current, &mut self.state);
        let (next_state, out) = step(current, input);
        self.state = next_state;
        out
    }
}

} // verus!
