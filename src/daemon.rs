//! The supervisor: a single-owner reconciler that applies one event at a
//! time to the daemon state and answers with the actions to carry out.
use vstd::prelude::*;

use crate::settings::{copy_text, same_settings, updated, Settings, SettingsUpdate};
use crate::state_machine::{TunnelCommand, TunnelEndpoint, TunnelOptions, TunnelParameters};
use crate::tunnel::{copy_transition, BlockReason, TunnelStateTransition};

verus! {

/// Seconds between an authentication failure and the next attempt to connect.
pub const AUTH_FAILED_RETRY_SECS: u64 = 60;

/// What the user asks of the network.
#[derive(Clone, Copy, Debug, PartialEq, Eq, Structural)]
pub enum TargetState {
    Unsecured,
    Secured,
}

/// Shutdown progress, independent of the tunnel state.
#[derive(Clone, Copy, Debug, PartialEq, Eq, Structural)]
pub enum DaemonExecutionState {
    Running,
    Exiting,
    Finished,
}

impl DaemonExecutionState {
    /// The execution state once a shutdown has been asked for, given the tunnel state.
    pub open spec fn spec_shutdown(self, tunnel_state: TunnelStateTransition) -> Self {
        match self {
            DaemonExecutionState::Running => if tunnel_state is Disconnected {
                DaemonExecutionState::Finished
            } else {
                DaemonExecutionState::Exiting
            },
            _ => self,
        }
    }

    /// The execution state once the tunnel reports that it is disconnected.
    pub open spec fn spec_disconnected(self) -> Self {
        match self {
            DaemonExecutionState::Exiting => DaemonExecutionState::Finished,
            _ => self,
        }
    }

    /// Starts shutting down: finished at once when no tunnel is up, else exiting.
    pub fn shutdown(&mut self, tunnel_state: &TunnelStateTransition)
        ensures
            *final(self) == old(self).spec_shutdown(*tunnel_state),
    {
        match self {
            DaemonExecutionState::Running => {
                *self = match tunnel_state {
                    TunnelStateTransition::Disconnected => DaemonExecutionState::Finished,
                    _ => DaemonExecutionState::Exiting,
                };
            },
            DaemonExecutionState::Exiting | DaemonExecutionState::Finished => {},
        }
    }

    /// The tunnel is down: an exiting daemon is finished.
    pub fn disconnected(&mut self)
        ensures
            *final(self) == old(self).spec_disconnected(),
    {
        match self {
            DaemonExecutionState::Exiting => {
                *self = DaemonExecutionState::Finished;
            },
            DaemonExecutionState::Running | DaemonExecutionState::Finished => {},
        }
    }

    /// Whether no shutdown has been asked for.
    pub fn is_running(&self) -> (r: bool)
        ensures
            r == (*self is Running),
    {
        match self {
            DaemonExecutionState::Running => true,
            DaemonExecutionState::Exiting | DaemonExecutionState::Finished => false,
        }
    }
}

/// A relay server and where it stands.
#[derive(Clone, Debug, PartialEq, Eq)]
pub struct Relay {
    pub hostname: String,
    pub ipv4_addr_exit: u32,
    pub country: String,
    pub city: String,
}

/// Copies a relay, field for field.
pub fn copy_relay(r: &Relay) -> (c: Relay)
    ensures
        c == *r,
{
    Relay {
        hostname: r.hostname.clone(),
        ipv4_addr_exit: r.ipv4_addr_exit,
        country: r.country.clone(),
        city: r.city.clone(),
    }
}

/// Where the relay settings lead when a tunnel is to be opened.
#[derive(Clone, Debug, PartialEq, Eq)]
pub enum RelayResolution {
    /// The custom endpoint of the settings, resolved.
    Custom(TunnelEndpoint),
    /// A relay that matches the constraints, and its endpoint.
    Selected(Relay, TunnelEndpoint),
    /// No relay matches, or the custom endpoint cannot be resolved.
    NoMatch,
}

/// Commands from the management interface, with the reply sink left to the caller.
#[derive(Clone, Debug, PartialEq, Eq)]
pub enum ManagementCommand {
    SetTargetState(TargetState),
    GetState,
    GetCurrentLocation,
    GetAccountData(String),
    GetRelayLocations,
    /// A settings mutation, and whether the settings it yields were written durably.
    UpdateSettings(SettingsUpdate, bool),
    GetSettings,
    GetVersionInfo,
    GetCurrentVersion,
    Shutdown,
}

/// All events that can happen in the daemon.
#[derive(Clone, Debug, PartialEq, Eq)]
pub enum DaemonEvent {
    /// Tunnel has changed state.
    TunnelStateTransition(TunnelStateTransition),
    /// A command from the management interface.
    ManagementInterfaceEvent(ManagementCommand),
    /// The management interface server died.
    ManagementInterfaceExited,
    /// Orderly shutdown asked for.
    TriggerShutdown,
}

impl From<TunnelStateTransition> for DaemonEvent {
    fn from(t: TunnelStateTransition) -> (e: DaemonEvent) {
        DaemonEvent::TunnelStateTransition(t)
    }
}

impl vstd::std_specs::convert::FromSpecImpl<TunnelStateTransition> for DaemonEvent {
    open spec fn obeys_from_spec() -> bool {
        true
    }

    open spec fn from_spec(t: TunnelStateTransition) -> DaemonEvent {
        DaemonEvent::TunnelStateTransition(t)
    }
}

impl From<ManagementCommand> for DaemonEvent {
    fn from(c: ManagementCommand) -> (e: DaemonEvent) {
        DaemonEvent::ManagementInterfaceEvent(c)
    }
}

impl vstd::std_specs::convert::FromSpecImpl<ManagementCommand> for DaemonEvent {
    open spec fn obeys_from_spec() -> bool {
        true
    }

    open spec fn from_spec(c: ManagementCommand) -> DaemonEvent {
        DaemonEvent::ManagementInterfaceEvent(c)
    }
}

/// What goes back to a management client.
#[derive(Clone, Debug, PartialEq, Eq)]
pub enum Reply {
    /// The command was carried out.
    Done,
    /// The outcome of a target state change: false when secured was asked
    /// for but no account is set.
    TargetState(bool),
    /// The current tunnel state.
    State(TunnelStateTransition),
    /// The location of the relay in use.
    Location(Relay),
    /// The current settings.
    Settings(Settings),
    /// The version of this daemon.
    CurrentVersion(String),
}

/// An action for the caller to carry out, in order.
#[derive(Clone, Debug, PartialEq, Eq)]
pub enum DaemonAction {
    /// Answer the management client.
    Reply(Reply),
    /// Send a command to the tunnel state machine.
    SendTunnelCommand(TunnelCommand),
    /// Resolve the relay settings and hand the result to `Daemon::connect_tunnel`
    /// with this account token.
    Connect(String),
    /// Tell subscribers about the current settings.
    NotifySettings,
    /// Tell subscribers about a new tunnel state.
    NotifyNewState(TunnelStateTransition),
    /// After this many seconds, post a `SetTargetState(Secured)` command.
    ScheduleReconnect(u64),
    /// Answer with a GeoIP lookup of the current address.
    LookupLocation,
    /// Answer with account data fetched upstream for this token.
    FetchAccountData(String),
    /// Answer with the relay list of the relay selector.
    ReplyRelayLocations,
    /// Answer with version information fetched upstream.
    FetchVersionInfo,
}

/// Errors that end the main loop.
#[derive(Clone, Copy, Debug, PartialEq, Eq, Structural)]
pub enum DaemonError {
    /// The management interface server exited unexpectedly.
    ManagementInterfaceExited,
}

/// What a changed setting leads to once stored.
enum FollowUp {
    Unsecure,
    Reconnect,
    AllowLan(bool),
    Nothing,
}

/// The state that the supervisor owns.
pub struct Daemon {
    pub tunnel_state: TunnelStateTransition,
    pub target_state: TargetState,
    pub state: DaemonExecutionState,
    pub settings: Settings,
    pub current_relay: Option<Relay>,
    pub log_dir: Option<String>,
    pub resource_dir: String,
    pub version: String,
}

/// The target state, whether it could be reached, and the actions of a
/// target state request.
pub open spec fn target_outcome(
    d: Daemon,
    new_state: TargetState,
) -> (TargetState, bool, Seq<DaemonAction>) {
    if new_state != d.target_state || d.tunnel_state is Blocked {
        match new_state {
            TargetState::Secured => match d.settings.account_token {
                Some(t) => (TargetState::Secured, true, seq![DaemonAction::Connect(t)]),
                None => (
                    TargetState::Unsecured,
                    false,
                    seq![DaemonAction::SendTunnelCommand(TunnelCommand::Disconnect)],
                ),
            },
            TargetState::Unsecured => (
                TargetState::Unsecured,
                true,
                seq![DaemonAction::SendTunnelCommand(TunnelCommand::Disconnect)],
            ),
        }
    } else {
        (d.target_state, true, seq![])
    }
}

/// The actions of a reconnect: connect again when secured with an account.
pub open spec fn reconnect_actions(d: Daemon) -> Seq<DaemonAction> {
    if d.target_state == TargetState::Secured && d.settings.account_token is Some {
        seq![DaemonAction::Connect(d.settings.account_token->Some_0)]
    } else {
        seq![]
    }
}

/// The daemon and the actions after a changed setting has been stored,
/// apart from the notification.
pub open spec fn change_outcome(d: Daemon, u: SettingsUpdate) -> (Daemon, Seq<DaemonAction>) {
    match u {
        SettingsUpdate::SetAccount(None) => {
            let (target, _, actions) = target_outcome(d, TargetState::Unsecured);
            (Daemon { target_state: target, ..d }, actions)
        },
        SettingsUpdate::SetAccount(Some(_)) => (d, reconnect_actions(d)),
        SettingsUpdate::UpdateRelaySettings(_) => (d, reconnect_actions(d)),
        SettingsUpdate::SetEnableIpv6(_) => (d, reconnect_actions(d)),
        SettingsUpdate::SetAllowLan(a) => (
            d,
            seq![DaemonAction::SendTunnelCommand(TunnelCommand::AllowLan(a))],
        ),
        _ => (d, seq![]),
    }
}

/// The daemon and the actions after a settings mutation. Either way the
/// client is answered. One that was not written durably is rolled back and
/// leaves no other trace; when one that was written changed anything,
/// subscribers are told before any tunnel command.
pub open spec fn update_outcome(
    d: Daemon,
    u: SettingsUpdate,
    persisted: bool,
) -> (Daemon, Seq<DaemonAction>) {
    if !persisted {
        (d, seq![DaemonAction::Reply(Reply::Done)])
    } else {
        let new_settings = updated(d.settings, u);
        let stored = Daemon { settings: new_settings, ..d };
        if same_settings(d.settings, new_settings) {
            (stored, seq![DaemonAction::Reply(Reply::Done)])
        } else {
            let (after, actions) = change_outcome(stored, u);
            (after, seq![DaemonAction::Reply(Reply::Done), DaemonAction::NotifySettings] + actions)
        }
    }
}

/// The daemon and the actions after a tunnel state report.
pub open spec fn transition_outcome(
    d: Daemon,
    t: TunnelStateTransition,
) -> (Daemon, Seq<DaemonAction>) {
    let d1 = if t is Disconnected {
        Daemon { state: d.state.spec_disconnected(), current_relay: None, ..d }
    } else {
        d
    };
    let retry = if t matches TunnelStateTransition::Blocked(BlockReason::AuthFailed(_)) {
        seq![DaemonAction::ScheduleReconnect(AUTH_FAILED_RETRY_SECS)]
    } else {
        seq![]
    };
    (Daemon { tunnel_state: t, ..d1 }, retry + seq![DaemonAction::NotifyNewState(t)])
}

/// The daemon and the actions after a shutdown request.
pub open spec fn shutdown_outcome(d: Daemon) -> (Daemon, Seq<DaemonAction>) {
    (
        Daemon { state: d.state.spec_shutdown(d.tunnel_state), ..d },
        seq![DaemonAction::SendTunnelCommand(TunnelCommand::Disconnect)],
    )
}

/// The parameters of a tunnel to the endpoint with the account token.
pub open spec fn tunnel_parameters(
    d: Daemon,
    token: String,
    endpoint: TunnelEndpoint,
) -> TunnelParameters {
    TunnelParameters {
        endpoint,
        options: TunnelOptions {
            enable_ipv6: d.settings.enable_ipv6,
            mssfix: d.settings.openvpn_mssfix,
        },
        log_dir: d.log_dir,
        resource_dir: d.resource_dir,
        username: token,
        allow_lan: d.settings.allow_lan,
    }
}

/// The daemon and the actions after a management command.
pub open spec fn command_outcome(d: Daemon, c: ManagementCommand) -> (Daemon, Seq<DaemonAction>) {
    match c {
        ManagementCommand::SetTargetState(t) => if d.state is Running {
            let (target, ok, actions) = target_outcome(d, t);
            (
                Daemon { target_state: target, ..d },
                actions + seq![DaemonAction::Reply(Reply::TargetState(ok))],
            )
        } else {
            (d, seq![DaemonAction::Reply(Reply::TargetState(true))])
        },
        ManagementCommand::GetState => (d, seq![DaemonAction::Reply(Reply::State(d.tunnel_state))]),
        ManagementCommand::GetCurrentLocation => match d.current_relay {
            Some(r) => (d, seq![DaemonAction::Reply(Reply::Location(r))]),
            None => (d, seq![DaemonAction::LookupLocation]),
        },
        ManagementCommand::GetAccountData(t) => (d, seq![DaemonAction::FetchAccountData(t)]),
        ManagementCommand::GetRelayLocations => (d, seq![DaemonAction::ReplyRelayLocations]),
        ManagementCommand::UpdateSettings(u, persisted) => update_outcome(d, u, persisted),
        ManagementCommand::GetSettings => (d, seq![DaemonAction::Reply(Reply::Settings(d.settings))]),
        ManagementCommand::GetVersionInfo => (d, seq![DaemonAction::FetchVersionInfo]),
        ManagementCommand::GetCurrentVersion => (
            d,
            seq![DaemonAction::Reply(Reply::CurrentVersion(d.version))],
        ),
        ManagementCommand::Shutdown => shutdown_outcome(d),
    }
}

/// The daemon and the actions after an event, or the error that ends the main loop.
pub open spec fn event_outcome(
    d: Daemon,
    e: DaemonEvent,
) -> Result<(Daemon, Seq<DaemonAction>), DaemonError> {
    match e {
        DaemonEvent::TunnelStateTransition(t) => Ok(transition_outcome(d, t)),
        DaemonEvent::ManagementInterfaceEvent(c) => Ok(command_outcome(d, c)),
        DaemonEvent::ManagementInterfaceExited => Err(DaemonError::ManagementInterfaceExited),
        DaemonEvent::TriggerShutdown => Ok(shutdown_outcome(d)),
    }
}

impl Daemon {
    /// A running daemon with the loaded settings, no tunnel, and the
    /// unsecured target.
    pub fn new(
        settings: Settings,
        log_dir: Option<String>,
        resource_dir: String,
        version: String,
    ) -> (d: Daemon)
        ensures
            d == (Daemon {
                tunnel_state: TunnelStateTransition::Disconnected,
                target_state: TargetState::Unsecured,
                state: DaemonExecutionState::Running,
                settings,
                current_relay: None,
                log_dir,
                resource_dir,
                version,
            }),
    {
        Daemon {
            tunnel_state: TunnelStateTransition::Disconnected,
            target_state: TargetState::Unsecured,
            state: DaemonExecutionState::Running,
            settings,
            current_relay: None,
            log_dir,
            resource_dir,
            version,
        }
    }

    /// Sets the target state and asks for what moves the tunnel towards it.
    /// Secured without an account token falls back to unsecured and fails.
    fn set_target_state(
        &mut self,
        new_state: TargetState,
        out: &mut Vec<DaemonAction>,
    ) -> (ok: bool)
        ensures
            *final(self) == (Daemon {
                target_state: target_outcome(*old(self), new_state).0,
                ..*old(self)
            }),
            ok == target_outcome(*old(self), new_state).1,
            final(out)@ == old(out)@ + target_outcome(*old(self), new_state).2,
    {
        if new_state != self.target_state || self.tunnel_state.is_blocked() {
            self.target_state = new_state;
            match new_state {
                TargetState::Secured => match copy_text(&self.settings.account_token) {
                    Some(token) => {
                        out.push(DaemonAction::Connect(token));
                    },
                    None => {
                        self.target_state = TargetState::Unsecured;
                        out.push(DaemonAction::SendTunnelCommand(TunnelCommand::Disconnect));
                        return false;
                    },
                },
                TargetState::Unsecured => {
                    out.push(DaemonAction::SendTunnelCommand(TunnelCommand::Disconnect));
                },
            }
        }
        true
    }

    /// Connects again when the target is secured and an account is set.
    fn reconnect_tunnel(&self, out: &mut Vec<DaemonAction>)
        ensures
            final(out)@ == old(out)@ + reconnect_actions(*self),
    {
        if self.target_state == TargetState::Secured {
            if let Some(token) = copy_text(&self.settings.account_token) {
                out.push(DaemonAction::Connect(token));
            }
        }
    }

    /// Applies a settings mutation once its outcome has been written durably,
    /// or rolls it back when the write failed; the client is answered either way.
    pub fn on_settings_update(
        &mut self,
        update: SettingsUpdate,
        persisted: bool,
    ) -> (actions: Vec<DaemonAction>)
        ensures
            *final(self) == update_outcome(*old(self), update, persisted).0,
            actions@ == update_outcome(*old(self), update, persisted).1,
    {
        let mut out: Vec<DaemonAction> = Vec::new();
        if !persisted {
            out.push(DaemonAction::Reply(Reply::Done));
            return out;
        }
        let follow_up = match &update {
            SettingsUpdate::SetAccount(None) => FollowUp::Unsecure,
            SettingsUpdate::SetAccount(Some(_)) => FollowUp::Reconnect,
            SettingsUpdate::UpdateRelaySettings(_) => FollowUp::Reconnect,
            SettingsUpdate::SetEnableIpv6(_) => FollowUp::Reconnect,
            SettingsUpdate::SetAllowLan(a) => FollowUp::AllowLan(*a),
            _ => FollowUp::Nothing,
        };
        let ghost old_self = *self;
        let (new_settings, changed) = self.settings.with_update(update);
        self.settings = new_settings;
        out.push(DaemonAction::Reply(Reply::Done));
        if changed {
            out.push(DaemonAction::NotifySettings);
            match follow_up {
                FollowUp::Unsecure => {
                    let _ = self.set_target_state(TargetState::Unsecured, &mut out);
                },
                FollowUp::Reconnect => self.reconnect_tunnel(&mut out),
                FollowUp::AllowLan(a) => {
                    out.push(DaemonAction::SendTunnelCommand(TunnelCommand::AllowLan(a)));
                },
                FollowUp::Nothing => {},
            }
        }
        proof {
            let outcome = update_outcome(old_self, update, persisted);
            assert(out@ =~= outcome.1);
        }
        out
    }

    /// Records a tunnel state report: a disconnect finishes a pending
    /// shutdown and forgets the relay, an authentication failure schedules a
    /// new attempt, and subscribers hear of the new state.
    pub fn handle_tunnel_state_transition(
        &mut self,
        tunnel_state: TunnelStateTransition,
    ) -> (actions: Vec<
        DaemonAction,
    >)
        ensures
            *final(self) == transition_outcome(*old(self), tunnel_state).0,
            actions@ == transition_outcome(*old(self), tunnel_state).1,
    {
        let mut out: Vec<DaemonAction> = Vec::new();
        match &tunnel_state {
            TunnelStateTransition::Disconnected => {
                self.state.disconnected();
                self.current_relay = None;
            },
            TunnelStateTransition::Blocked(BlockReason::AuthFailed(_)) => {
                out.push(DaemonAction::ScheduleReconnect(AUTH_FAILED_RETRY_SECS));
            },
            _ => {},
        }
        self.tunnel_state = copy_transition(&tunnel_state);
        out.push(DaemonAction::NotifyNewState(tunnel_state));
        proof {
            assert(out@ =~= transition_outcome(*old(self), tunnel_state).1);
        }
        out
    }

    /// Starts an orderly shutdown and takes the tunnel down.
    pub fn handle_trigger_shutdown_event(&mut self) -> (actions: Vec<DaemonAction>)
        ensures
            *final(self) == shutdown_outcome(*old(self)).0,
            actions@ == shutdown_outcome(*old(self)).1,
    {
        self.state.shutdown(&self.tunnel_state);
        let out = vec![DaemonAction::SendTunnelCommand(TunnelCommand::Disconnect)];
        out
    }

    /// Answers a management command.
    pub fn handle_management_interface_event(
        &mut self,
        command: ManagementCommand,
    ) -> (actions: Vec<
        DaemonAction,
    >)
        ensures
            *final(self) == command_outcome(*old(self), command).0,
            actions@ == command_outcome(*old(self), command).1,
    {
        match command {
            ManagementCommand::SetTargetState(new_state) => {
                let mut out: Vec<DaemonAction> = Vec::new();
                if self.state.is_running() {
                    let ok = self.set_target_state(new_state, &mut out);
                    out.push(DaemonAction::Reply(Reply::TargetState(ok)));
                } else {
                    out.push(DaemonAction::Reply(Reply::TargetState(true)));
                }
                out
            },
            ManagementCommand::GetState => vec![
                DaemonAction::Reply(Reply::State(copy_transition(&self.tunnel_state))),
            ],
            ManagementCommand::GetCurrentLocation => match &self.current_relay {
                Some(relay) => vec![DaemonAction::Reply(Reply::Location(copy_relay(relay)))],
                None => vec![DaemonAction::LookupLocation],
            },
            ManagementCommand::GetAccountData(token) => vec![DaemonAction::FetchAccountData(token)],
            ManagementCommand::GetRelayLocations => vec![DaemonAction::ReplyRelayLocations],
            ManagementCommand::UpdateSettings(update, persisted) => self.on_settings_update(
                update,
                persisted,
            ),
            ManagementCommand::GetSettings => vec![
                DaemonAction::Reply(Reply::Settings(self.settings.copy())),
            ],
            ManagementCommand::GetVersionInfo => vec![DaemonAction::FetchVersionInfo],
            ManagementCommand::GetCurrentVersion => vec![
                DaemonAction::Reply(Reply::CurrentVersion(self.version.clone())),
            ],
            ManagementCommand::Shutdown => self.handle_trigger_shutdown_event(),
        }
    }

    /// Applies one event. Only the exit of the management interface is an
    /// error, which ends the main loop.
    pub fn handle_event(
        &mut self,
        event: DaemonEvent,
    ) -> (r: Result<Vec<DaemonAction>, DaemonError>)
        ensures
            match event_outcome(*old(self), event) {
                Ok(outcome) => r matches Ok(actions) && actions@ == outcome.1 && *final(self)
                    == outcome.0,
                Err(e) => r == Err::<Vec<DaemonAction>, DaemonError>(e) && *final(self) == *old(
                    self,
                ),
            },
    {
        match event {
            DaemonEvent::TunnelStateTransition(t) => Ok(self.handle_tunnel_state_transition(t)),
            DaemonEvent::ManagementInterfaceEvent(c) => Ok(self.handle_management_interface_event(c)),
            DaemonEvent::ManagementInterfaceExited => Err(DaemonError::ManagementInterfaceExited),
            DaemonEvent::TriggerShutdown => Ok(self.handle_trigger_shutdown_event()),
        }
    }

    /// The parameters of a tunnel to the endpoint, with this account token.
    pub fn build_tunnel_parameters(&self, account_token: String, endpoint: TunnelEndpoint) -> (p:
        TunnelParameters)
        ensures
            p == tunnel_parameters(*self, account_token, endpoint),
    {
        TunnelParameters {
            endpoint,
            options: TunnelOptions {
                enable_ipv6: self.settings.enable_ipv6,
                mssfix: self.settings.openvpn_mssfix,
            },
            log_dir: copy_text(&self.log_dir),
            resource_dir: self.resource_dir.clone(),
            username: account_token,
            allow_lan: self.settings.allow_lan,
        }
    }

    /// The tunnel command that follows a `Connect` action once the relay
    /// settings were resolved: connect to the endpoint, remembering a selected
    /// relay, or block when nothing matches.
    pub fn connect_tunnel(&mut self, account_token: String, resolution: RelayResolution) -> (c:
        TunnelCommand)
        ensures
            match resolution {
                RelayResolution::Custom(e) => c == TunnelCommand::Connect(
                    tunnel_parameters(*old(self), account_token, e),
                ) && *final(self) == *old(self),
                RelayResolution::Selected(r, e) => c == TunnelCommand::Connect(
                    tunnel_parameters(*old(self), account_token, e),
                ) && *final(self) == (Daemon { current_relay: Some(r), ..*old(self) }),
                RelayResolution::NoMatch => c == TunnelCommand::Block(
                    BlockReason::NoMatchingRelay,
                    old(self).settings.allow_lan,
                ) && *final(self) == *old(self),
            },
    {
        match resolution {
            RelayResolution::Custom(endpoint) => TunnelCommand::Connect(
                self.build_tunnel_parameters(account_token, endpoint),
            ),
            RelayResolution::Selected(relay, endpoint) => {
                let parameters = self.build_tunnel_parameters(account_token, endpoint);
                self.current_relay = Some(relay);
                TunnelCommand::Connect(parameters)
            },
            RelayResolution::NoMatch => TunnelCommand::Block(
                BlockReason::NoMatchingRelay,
                self.settings.allow_lan,
            ),
        }
    }

    /// What the main loop does before its first event: ask for a secured
    /// network when auto-connect is on. Without an account token this falls
    /// back to unsecured.
    pub fn auto_connect(&mut self) -> (actions: Vec<DaemonAction>)
        ensures
            old(self).settings.auto_connect ==> *final(self) == (Daemon {
                target_state: target_outcome(*old(self), TargetState::Secured).0,
                ..*old(self)
            }) && actions@ == target_outcome(*old(self), TargetState::Secured).2,
            !old(self).settings.auto_connect ==> *final(self) == *old(self) && actions@ == Seq::<
                DaemonAction,
            >::empty(),
    {
        let mut out: Vec<DaemonAction> = Vec::new();
        if self.settings.auto_connect {
            let _ = self.set_target_state(TargetState::Secured, &mut out);
        }
        out
    }

    /// Whether the main loop is done.
    pub fn is_finished(&self) -> (r: bool)
        ensures
            r == (self.state is Finished),
    {
        match self.state {
            DaemonExecutionState::Finished => true,
            _ => false,
        }
    }
}


} // verus!
