use std::collections::VecDeque;

use mullvad_daemon::daemon::{
    Daemon, DaemonAction, DaemonEvent, ManagementCommand, Relay, RelayResolution, Reply,
    TargetState,
};
use mullvad_daemon::settings::{
    RelayConstraintsUpdate, RelaySettings, RelaySettingsUpdate, Settings, SettingsUpdate,
};
use mullvad_daemon::state_machine::{
    Effect, FirewallPolicy, TransportProtocol, TunnelCommand, TunnelEndpoint,
    TunnelInput, TunnelState, TunnelStateMachine,
};
use mullvad_daemon::tunnel::{ActionAfterDisconnect, BlockReason, TunnelStateTransition};

/// The supervisor and the state machine wired together, with every outside
/// effect recorded instead of performed.
struct World {
    daemon: Daemon,
    machine: TunnelStateMachine,
    queue: VecDeque<DaemonEvent>,
    reports: Vec<TunnelStateTransition>,
    effects: Vec<Effect>,
    commands: Vec<TunnelCommand>,
    settings_broadcasts: usize,
    scheduled: Vec<u64>,
    replies: Vec<Reply>,
    loop_result: Option<Result<(), ()>>,
}

fn relay() -> Relay {
    Relay {
        hostname: "se-got-001".to_string(),
        ipv4_addr_exit: 0x0a000001,
        country: "se".to_string(),
        city: "got".to_string(),
    }
}

fn endpoint() -> TunnelEndpoint {
    TunnelEndpoint { address: "10.0.0.1".to_string(), port: 1194, protocol: TransportProtocol::Udp }
}

impl World {
    fn new(settings: Settings) -> World {
        World {
            daemon: Daemon::new(settings, None, "/opt/res".to_string(), "2018.1".to_string()),
            machine: TunnelStateMachine::new(),
            queue: VecDeque::new(),
            reports: vec![TunnelStateTransition::Disconnected],
            effects: Vec::new(),
            commands: Vec::new(),
            settings_broadcasts: 0,
            scheduled: Vec::new(),
            replies: Vec::new(),
            loop_result: None,
        }
    }

    fn feed(&mut self, input: TunnelInput) {
        let step = self.machine.handle(input);
        self.effects.extend(step.effects);
        if let Some(t) = step.transition {
            self.reports.push(t.clone());
            self.queue.push_back(DaemonEvent::TunnelStateTransition(t));
        }
    }

    fn apply(&mut self, actions: Vec<DaemonAction>) {
        for action in actions {
            match action {
                DaemonAction::SendTunnelCommand(c) => {
                    self.commands.push(c.clone());
                    self.feed(TunnelInput::Command(c));
                }
                DaemonAction::Connect(token) => {
                    let c = self
                        .daemon
                        .connect_tunnel(token, RelayResolution::Selected(relay(), endpoint()));
                    self.commands.push(c.clone());
                    self.feed(TunnelInput::Command(c));
                }
                DaemonAction::NotifySettings => self.settings_broadcasts += 1,
                DaemonAction::ScheduleReconnect(secs) => self.scheduled.push(secs),
                DaemonAction::Reply(r) => self.replies.push(r),
                _ => {}
            }
        }
    }

    fn run(&mut self) {
        while let Some(event) = self.queue.pop_front() {
            match self.daemon.handle_event(event) {
                Ok(actions) => self.apply(actions),
                Err(_) => {
                    self.loop_result = Some(Err(()));
                    return;
                }
            }
            if self.daemon.is_finished() {
                self.loop_result = Some(Ok(()));
                return;
            }
        }
    }

    fn event(&mut self, event: DaemonEvent) {
        self.queue.push_back(event);
        self.run();
    }

    fn tunnel(&mut self, input: TunnelInput) {
        self.feed(input);
        self.run();
    }

    fn command(&mut self, command: ManagementCommand) {
        self.event(DaemonEvent::ManagementInterfaceEvent(command));
    }

    fn update(&mut self, update: SettingsUpdate) {
        self.command(ManagementCommand::UpdateSettings(update, true));
    }

    fn clear_records(&mut self) {
        self.reports.clear();
        self.effects.clear();
        self.commands.clear();
        self.settings_broadcasts = 0;
        self.scheduled.clear();
        self.replies.clear();
    }
}

fn account_settings() -> Settings {
    let mut settings = Settings::initial();
    settings.account_token = Some("abc".to_string());
    settings
}

fn connected_world() -> World {
    let mut world = World::new(account_settings());
    world.command(ManagementCommand::SetTargetState(TargetState::Secured));
    world.tunnel(TunnelInput::TunnelUp);
    assert_eq!(world.daemon.tunnel_state, TunnelStateTransition::Connected);
    world.clear_records();
    world
}

#[test]
fn auto_connect_with_token() {
    let mut settings = account_settings();
    settings.auto_connect = true;
    let mut world = World::new(settings);
    let actions = world.daemon.auto_connect();
    world.apply(actions);
    world.run();
    world.tunnel(TunnelInput::TunnelUp);
    assert_eq!(
        world.reports,
        vec![
            TunnelStateTransition::Disconnected,
            TunnelStateTransition::Connecting,
            TunnelStateTransition::Connected,
        ]
    );
    assert_eq!(world.daemon.target_state, TargetState::Secured);
}

#[test]
fn auto_connect_without_relay_blocks() {
    let mut settings = account_settings();
    settings.auto_connect = true;
    let mut daemon = Daemon::new(settings, None, "/opt/res".to_string(), "1".to_string());
    let actions = daemon.auto_connect();
    assert_eq!(actions, vec![DaemonAction::Connect("abc".to_string())]);
    let c = daemon.connect_tunnel("abc".to_string(), RelayResolution::NoMatch);
    assert_eq!(c, TunnelCommand::Block(BlockReason::NoMatchingRelay, false));
    let mut machine = TunnelStateMachine::new();
    let step = machine.handle(TunnelInput::Command(c));
    assert_eq!(
        step.transition,
        Some(TunnelStateTransition::Blocked(BlockReason::NoMatchingRelay))
    );
}

#[test]
fn auto_connect_without_token_stays_unsecured() {
    let mut settings = Settings::initial();
    settings.auto_connect = true;
    let mut daemon = Daemon::new(settings, None, "/opt/res".to_string(), "1".to_string());
    let actions = daemon.auto_connect();
    assert_eq!(
        actions,
        vec![DaemonAction::SendTunnelCommand(TunnelCommand::Disconnect)]
    );
    assert_eq!(daemon.target_state, TargetState::Unsecured);
}

#[test]
fn authentication_failure_loop() {
    let mut world = connected_world();
    world.tunnel(TunnelInput::AuthFailed(Some("bad account".to_string())));
    assert_eq!(
        world.reports,
        vec![TunnelStateTransition::Disconnecting(ActionAfterDisconnect::Block)]
    );
    world.tunnel(TunnelInput::ProcessExit(true));
    let blocked =
        TunnelStateTransition::Blocked(BlockReason::AuthFailed(Some("bad account".to_string())));
    assert_eq!(world.daemon.tunnel_state, blocked);
    assert_eq!(world.scheduled, vec![60]);
    // the timer fires
    world.clear_records();
    world.command(ManagementCommand::SetTargetState(TargetState::Secured));
    assert_eq!(world.reports, vec![TunnelStateTransition::Connecting]);
    assert_eq!(world.replies, vec![Reply::TargetState(true)]);
}

#[test]
fn settings_change_triggers_restart() {
    let mut world = connected_world();
    world.update(SettingsUpdate::UpdateRelaySettings(RelaySettingsUpdate::Normal(
        RelayConstraintsUpdate {
            country: Some(Some("de".to_string())),
            city: None,
            protocol: None,
            port: None,
        },
    )));
    assert_eq!(world.settings_broadcasts, 1);
    assert_eq!(
        world.reports,
        vec![TunnelStateTransition::Disconnecting(ActionAfterDisconnect::Reconnect)]
    );
    world.tunnel(TunnelInput::ProcessExit(true));
    world.tunnel(TunnelInput::TunnelUp);
    assert_eq!(
        world.reports,
        vec![
            TunnelStateTransition::Disconnecting(ActionAfterDisconnect::Reconnect),
            TunnelStateTransition::Connecting,
            TunnelStateTransition::Connected,
        ]
    );
    match &world.daemon.settings.relay_settings {
        RelaySettings::Normal(c) => assert_eq!(c.country, Some("de".to_string())),
        _ => panic!("custom relay settings"),
    }
}

#[test]
fn allow_lan_is_live() {
    let mut world = connected_world();
    world.update(SettingsUpdate::SetAllowLan(true));
    assert_eq!(world.settings_broadcasts, 1);
    assert_eq!(world.commands, vec![TunnelCommand::AllowLan(true)]);
    assert_eq!(
        world.effects,
        vec![Effect::ApplyPolicy(FirewallPolicy::BlockAllExceptTunnel(true))]
    );
    assert!(world.reports.is_empty());
    assert_eq!(world.daemon.tunnel_state, TunnelStateTransition::Connected);
}

#[test]
fn allow_lan_unchanged_sends_nothing() {
    let mut world = connected_world();
    world.update(SettingsUpdate::SetAllowLan(false));
    assert_eq!(world.settings_broadcasts, 0);
    assert!(world.commands.is_empty());
    assert_eq!(world.replies, vec![Reply::Done]);
}

#[test]
fn shutdown_while_connecting() {
    let mut world = World::new(account_settings());
    world.command(ManagementCommand::SetTargetState(TargetState::Secured));
    assert_eq!(world.daemon.tunnel_state, TunnelStateTransition::Connecting);
    world.clear_records();
    world.event(DaemonEvent::TriggerShutdown);
    assert_eq!(
        world.reports,
        vec![TunnelStateTransition::Disconnecting(ActionAfterDisconnect::Nothing)]
    );
    assert!(!world.daemon.is_finished());
    world.tunnel(TunnelInput::ProcessExit(true));
    assert_eq!(
        world.reports,
        vec![
            TunnelStateTransition::Disconnecting(ActionAfterDisconnect::Nothing),
            TunnelStateTransition::Disconnected,
        ]
    );
    assert!(world.daemon.is_finished());
    assert_eq!(world.loop_result, Some(Ok(())));
}

#[test]
fn clear_account_while_secured() {
    let mut world = connected_world();
    world.update(SettingsUpdate::SetAccount(None));
    assert_eq!(world.daemon.settings.account_token, None);
    assert_eq!(world.daemon.target_state, TargetState::Unsecured);
    assert_eq!(world.commands, vec![TunnelCommand::Disconnect]);
    world.tunnel(TunnelInput::ProcessExit(true));
    assert_eq!(
        world.reports,
        vec![
            TunnelStateTransition::Disconnecting(ActionAfterDisconnect::Nothing),
            TunnelStateTransition::Disconnected,
        ]
    );
}

#[test]
fn unsaved_setting_is_rolled_back() {
    let mut world = connected_world();
    world.command(ManagementCommand::UpdateSettings(SettingsUpdate::SetEnableIpv6(true), false));
    assert!(!world.daemon.settings.enable_ipv6);
    assert_eq!(world.settings_broadcasts, 0);
    assert_eq!(world.replies, vec![Reply::Done]);
    assert!(world.commands.is_empty());
}

#[test]
fn management_interface_exit_is_fatal() {
    let mut world = World::new(account_settings());
    world.event(DaemonEvent::ManagementInterfaceExited);
    assert_eq!(world.loop_result, Some(Err(())));
}

#[test]
fn secured_target_never_observed_disconnected() {
    let mut world = connected_world();
    world.update(SettingsUpdate::SetEnableIpv6(true));
    world.tunnel(TunnelInput::ProcessExit(true));
    world.tunnel(TunnelInput::AuthFailed(None));
    world.tunnel(TunnelInput::ProcessExit(false));
    world.update(SettingsUpdate::SetAllowLan(true));
    world.command(ManagementCommand::SetTargetState(TargetState::Secured));
    world.tunnel(TunnelInput::TunnelUp);
    assert!(!world.reports.contains(&TunnelStateTransition::Disconnected));
    assert!(!world.commands.contains(&TunnelCommand::Disconnect));
    assert_eq!(world.daemon.tunnel_state, TunnelStateTransition::Connected);
    match &world.machine.state {
        TunnelState::Connected(p) => {
            assert!(p.allow_lan);
            assert!(p.options.enable_ipv6);
            assert_eq!(p.username, "abc");
        }
        other => panic!("unexpected state {:?}", other),
    }
}

#[test]
fn current_location_of_relay() {
    let mut world = connected_world();
    world.command(ManagementCommand::GetCurrentLocation);
    assert_eq!(world.replies, vec![Reply::Location(relay())]);
    let mut fresh = World::new(account_settings());
    let actions = fresh.daemon.handle_event(DaemonEvent::ManagementInterfaceEvent(
        ManagementCommand::GetCurrentLocation,
    ));
    assert_eq!(actions, Ok(vec![DaemonAction::LookupLocation]));
}
