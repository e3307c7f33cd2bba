use mullvad_daemon::daemon::{
    Daemon, DaemonAction, DaemonError, DaemonEvent, DaemonExecutionState, ManagementCommand,
    Reply, TargetState,
};
use mullvad_daemon::dns::{DnsError, DnsSettings};
use mullvad_daemon::plugin::{parse_args, ArgsError};
use mullvad_daemon::process::{port_text, write_argument, OpenVpnBuilder, RemoteAddr};
use mullvad_daemon::service::{
    accepted_controls_by_state, PersistentServiceStatus, ServiceControlAccept, ServiceExitCode,
    ServiceState,
};
use mullvad_daemon::settings::{
    RelayConstraintsUpdate, RelaySettings, RelaySettingsUpdate, Settings, SettingsUpdate,
};
use mullvad_daemon::state_machine::{
    step, AfterDisconnect, Effect, FirewallPolicy, TransportProtocol, TunnelCommand,
    TunnelEndpoint, TunnelInput, TunnelOptions, TunnelParameters, TunnelState,
};
use mullvad_daemon::tunnel::{ActionAfterDisconnect, BlockReason, TunnelStateTransition};

fn params(allow_lan: bool) -> TunnelParameters {
    TunnelParameters {
        endpoint: TunnelEndpoint {
            address: "10.0.0.1".to_string(),
            port: 1194,
            protocol: TransportProtocol::Udp,
        },
        options: TunnelOptions { enable_ipv6: false, mssfix: None },
        log_dir: None,
        resource_dir: "/opt".to_string(),
        username: "abc".to_string(),
        allow_lan,
    }
}

#[test]
fn execution_state_shutdown() {
    let mut s = DaemonExecutionState::Running;
    s.shutdown(&TunnelStateTransition::Disconnected);
    assert_eq!(s, DaemonExecutionState::Finished);
    let mut s = DaemonExecutionState::Running;
    s.shutdown(&TunnelStateTransition::Connected);
    assert_eq!(s, DaemonExecutionState::Exiting);
    assert!(!s.is_running());
    s.disconnected();
    assert_eq!(s, DaemonExecutionState::Finished);
    let mut s = DaemonExecutionState::Running;
    s.disconnected();
    assert_eq!(s, DaemonExecutionState::Running);
    assert!(s.is_running());
}

#[test]
fn blocked_is_blocked() {
    assert!(TunnelStateTransition::Blocked(BlockReason::StartTunnelError).is_blocked());
    assert!(!TunnelStateTransition::Connected.is_blocked());
    assert!(!TunnelStateTransition::Disconnecting(ActionAfterDisconnect::Block).is_blocked());
}

#[test]
fn block_reason_descriptions() {
    assert_eq!(
        BlockReason::AuthFailed(None).description(),
        "Authentication with remote server failed: No reason provided"
    );
    assert_eq!(
        BlockReason::AuthFailed(Some("expired".to_string())).description(),
        "Authentication with remote server failed: expired"
    );
    assert_eq!(
        BlockReason::NoMatchingRelay.description(),
        "No relay server matches the current settings"
    );
    assert_eq!(
        BlockReason::SetSecurityPolicyError.description(),
        "Failed to set security policy"
    );
}

#[test]
fn after_disconnect_action() {
    assert_eq!(AfterDisconnect::Nothing.action(), ActionAfterDisconnect::Nothing);
    assert_eq!(
        AfterDisconnect::Block(BlockReason::Ipv6Unavailable, true).action(),
        ActionAfterDisconnect::Block
    );
    assert_eq!(AfterDisconnect::Reconnect(params(false)).action(), ActionAfterDisconnect::Reconnect);
}

#[test]
fn last_intent_wins_while_disconnecting() {
    let mut state = TunnelState::Disconnecting(AfterDisconnect::Nothing);
    let commands = vec![
        TunnelCommand::Connect(params(false)),
        TunnelCommand::Block(BlockReason::StartTunnelError, true),
        TunnelCommand::Disconnect,
        TunnelCommand::Connect(params(true)),
    ];
    for c in commands {
        let (next, out) = step(state, TunnelInput::Command(c));
        assert!(out.transition.is_none());
        state = next;
    }
    let (next, out) = step(state, TunnelInput::ProcessExit(true));
    assert_eq!(next, TunnelState::Connecting(params(true)));
    assert_eq!(out.transition, Some(TunnelStateTransition::Connecting));
    assert_eq!(
        out.effects,
        vec![Effect::ApplyPolicy(FirewallPolicy::BlockAllExceptTunnel(true)), Effect::SpawnTunnel]
    );
}

#[test]
fn disconnect_downgrades_block() {
    let state = TunnelState::Disconnecting(AfterDisconnect::Block(BlockReason::StartTunnelError, false));
    let (state, _) = step(state, TunnelInput::Command(TunnelCommand::Disconnect));
    let (next, out) = step(state, TunnelInput::ProcessExit(true));
    assert_eq!(next, TunnelState::Disconnected);
    assert_eq!(
        out.effects,
        vec![Effect::ResetDns, Effect::ApplyPolicy(FirewallPolicy::Off)]
    );
}

#[test]
fn allow_lan_updates_queued_reconnect() {
    let state = TunnelState::Disconnecting(AfterDisconnect::Reconnect(params(false)));
    let (state, out) = step(state, TunnelInput::Command(TunnelCommand::AllowLan(true)));
    assert!(out.effects.is_empty());
    assert_eq!(state, TunnelState::Disconnecting(AfterDisconnect::Reconnect(params(true))));
    let (state, _) = step(state, TunnelInput::CommandsClosed);
    assert_eq!(state, TunnelState::Disconnecting(AfterDisconnect::Nothing));
}

#[test]
fn blocked_transitions() {
    let blocked = TunnelState::Blocked(BlockReason::NoMatchingRelay, false);
    let (s, out) = step(blocked.clone(), TunnelInput::Command(TunnelCommand::AllowLan(true)));
    assert_eq!(s, TunnelState::Blocked(BlockReason::NoMatchingRelay, true));
    assert_eq!(out.effects, vec![Effect::ApplyPolicy(FirewallPolicy::BlockAll(true))]);
    assert!(out.transition.is_none());
    let (s, out) = step(blocked.clone(), TunnelInput::Command(TunnelCommand::Disconnect));
    assert_eq!(s, TunnelState::Disconnected);
    assert_eq!(out.transition, Some(TunnelStateTransition::Disconnected));
    let (s, out) = step(blocked, TunnelInput::PolicyFailed);
    assert_eq!(s, TunnelState::Blocked(BlockReason::SetSecurityPolicyError, false));
    assert!(out.effects.is_empty());
}

#[test]
fn connecting_process_exit() {
    let (s, out) = step(TunnelState::Connecting(params(true)), TunnelInput::ProcessExit(false));
    assert_eq!(s, TunnelState::Blocked(BlockReason::StartTunnelError, true));
    assert_eq!(
        out.effects,
        vec![Effect::ApplyPolicy(FirewallPolicy::BlockAll(true)), Effect::ResetDns]
    );
    let (s, _) = step(TunnelState::Connecting(params(true)), TunnelInput::ProcessExit(true));
    assert_eq!(s, TunnelState::Disconnected);
    let (s, out) = step(TunnelState::Connected(params(false)), TunnelInput::Command(TunnelCommand::Connect(params(true))));
    assert_eq!(s, TunnelState::Disconnecting(AfterDisconnect::Reconnect(params(true))));
    assert_eq!(out.effects, vec![Effect::CloseTunnel]);
}

#[test]
fn disconnected_ignores_disconnect() {
    let (s, out) = step(TunnelState::Disconnected, TunnelInput::Command(TunnelCommand::Disconnect));
    assert_eq!(s, TunnelState::Disconnected);
    assert!(out.transition.is_none());
    assert!(out.effects.is_empty());
}

#[test]
fn settings_update_reports_change() {
    let s = Settings::initial();
    let (next, changed) = s.with_update(SettingsUpdate::SetOpenVpnMssfix(Some(1400)));
    assert!(changed);
    assert_eq!(next.openvpn_mssfix, Some(1400));
    let (_, changed) = s.with_update(SettingsUpdate::SetOpenVpnMssfix(None));
    assert!(!changed);
    let custom = TunnelEndpoint { address: "1.2.3.4".to_string(), port: 53, protocol: TransportProtocol::Tcp };
    let (next, changed) = s.with_update(SettingsUpdate::UpdateRelaySettings(
        RelaySettingsUpdate::CustomTunnelEndpoint(custom.clone()),
    ));
    assert!(changed);
    assert_eq!(next.relay_settings, RelaySettings::CustomTunnelEndpoint(custom));
    let (back, changed) = next.with_update(SettingsUpdate::UpdateRelaySettings(
        RelaySettingsUpdate::Normal(RelayConstraintsUpdate {
            country: None,
            city: Some(Some("got".to_string())),
            protocol: Some(Some(TransportProtocol::Udp)),
            port: None,
        }),
    ));
    assert!(changed);
    match back.relay_settings {
        RelaySettings::Normal(c) => {
            assert_eq!(c.country, None);
            assert_eq!(c.city, Some("got".to_string()));
            assert_eq!(c.protocol, Some(TransportProtocol::Udp));
            assert_eq!(c.port, None);
        }
        _ => panic!("still custom"),
    }
}

#[test]
fn set_account_changes_reconnect() {
    let mut settings = Settings::initial();
    settings.account_token = Some("old".to_string());
    let mut d = Daemon::new(settings, Some("/var/log".to_string()), "/opt".to_string(), "1".to_string());
    d.target_state = TargetState::Secured;
    let actions = d.on_settings_update(SettingsUpdate::SetAccount(Some("new".to_string())), true);
    assert_eq!(
        actions,
        vec![
            DaemonAction::Reply(Reply::Done),
            DaemonAction::NotifySettings,
            DaemonAction::Connect("new".to_string()),
        ]
    );
    let actions = d.on_settings_update(SettingsUpdate::SetAutoConnect(true), true);
    assert_eq!(actions, vec![DaemonAction::Reply(Reply::Done), DaemonAction::NotifySettings]);
    let p = d.build_tunnel_parameters("new".to_string(), params(false).endpoint);
    assert_eq!(p.log_dir, Some("/var/log".to_string()));
    assert_eq!(p.username, "new");
}

#[test]
fn clear_account_sends_one_disconnect() {
    let mut settings = Settings::initial();
    settings.account_token = Some("abc".to_string());
    let mut d = Daemon::new(settings, None, "/opt".to_string(), "1".to_string());
    d.target_state = TargetState::Secured;
    let actions = d.on_settings_update(SettingsUpdate::SetAccount(None), true);
    assert_eq!(
        actions,
        vec![
            DaemonAction::Reply(Reply::Done),
            DaemonAction::NotifySettings,
            DaemonAction::SendTunnelCommand(TunnelCommand::Disconnect),
        ]
    );
    assert_eq!(d.target_state, TargetState::Unsecured);
}

#[test]
fn target_state_ignored_while_exiting() {
    let mut d = Daemon::new(Settings::initial(), None, "/opt".to_string(), "7".to_string());
    d.tunnel_state = TunnelStateTransition::Connected;
    let actions = d.handle_event(DaemonEvent::TriggerShutdown).unwrap();
    assert_eq!(actions, vec![DaemonAction::SendTunnelCommand(TunnelCommand::Disconnect)]);
    assert_eq!(d.state, DaemonExecutionState::Exiting);
    let actions = d
        .handle_event(DaemonEvent::ManagementInterfaceEvent(ManagementCommand::SetTargetState(
            TargetState::Secured,
        )))
        .unwrap();
    assert_eq!(actions, vec![DaemonAction::Reply(Reply::TargetState(true))]);
    assert_eq!(d.target_state, TargetState::Unsecured);
    let actions = d
        .handle_event(DaemonEvent::ManagementInterfaceEvent(ManagementCommand::GetCurrentVersion))
        .unwrap();
    assert_eq!(actions, vec![DaemonAction::Reply(Reply::CurrentVersion("7".to_string()))]);
    assert_eq!(
        d.handle_event(DaemonEvent::ManagementInterfaceExited),
        Err(DaemonError::ManagementInterfaceExited)
    );
}

#[test]
fn secured_without_account_fails() {
    let mut d = Daemon::new(Settings::initial(), None, "/opt".to_string(), "1".to_string());
    let actions = d.handle_management_interface_event(ManagementCommand::SetTargetState(
        TargetState::Secured,
    ));
    assert_eq!(
        actions,
        vec![
            DaemonAction::SendTunnelCommand(TunnelCommand::Disconnect),
            DaemonAction::Reply(Reply::TargetState(false)),
        ]
    );
    assert_eq!(d.target_state, TargetState::Unsecured);
}

#[test]
fn no_arguments() {
    let testee_args = OpenVpnBuilder::new("").get_arguments();
    assert_eq!(0, testee_args.len());
}

#[test]
fn passes_one_remote() {
    let remote = RemoteAddr::new("example.com", 3333);
    let mut builder = OpenVpnBuilder::new("");
    builder.remotes(vec![remote]);
    let testee_args = builder.get_arguments();
    assert!(testee_args.contains(&"example.com".to_string()));
    assert!(testee_args.contains(&"3333".to_string()));
}

#[test]
fn passes_two_remotes() {
    let remotes = vec![RemoteAddr::new("127.0.0.1", 998), RemoteAddr::new("fe80::1", 1337)];
    let mut builder = OpenVpnBuilder::new("");
    builder.remotes(remotes);
    let testee_args = builder.get_arguments();
    assert!(testee_args.contains(&"127.0.0.1".to_string()));
    assert!(testee_args.contains(&"998".to_string()));
    assert!(testee_args.contains(&"fe80::1".to_string()));
    assert!(testee_args.contains(&"1337".to_string()));
}

#[test]
fn arguments_in_order_and_command_line() {
    let mut builder = OpenVpnBuilder::new("/usr/sbin/openvpn");
    builder.config("/etc/my config.ovpn");
    builder.remotes(vec![RemoteAddr::new("10.0.0.1", 0), RemoteAddr::new("h", 65535)]);
    assert_eq!(
        builder.get_arguments(),
        vec!["--config", "/etc/my config.ovpn", "--remote", "10.0.0.1", "0", "--remote", "h", "65535"]
    );
    assert_eq!(
        builder.command_line(),
        "/usr/sbin/openvpn --config \"/etc/my config.ovpn\" --remote 10.0.0.1 0 --remote h 65535"
    );
}

#[test]
fn argument_quoting() {
    let mut out = String::from("x");
    write_argument(&mut out, "a\tb");
    write_argument(&mut out, "plain");
    write_argument(&mut out, "");
    assert_eq!(out, "x \"a\tb\" plain ");
    assert_eq!(port_text(1194), "1194");
    assert_eq!(port_text(7), "7");
}

#[test]
fn plugin_arguments() {
    let args = vec!["/plugin.so".to_string(), "/tmp/socket".to_string()];
    assert_eq!(parse_args(&args).unwrap().ipc_socket_path, "/tmp/socket");
    let args = vec!["/plugin.so".to_string()];
    assert_eq!(parse_args(&args).err(), Some(ArgsError::NoCoreServerId));
}

#[test]
fn dns_manager_choice() {
    assert_eq!(DnsSettings::new(Some("static-file"), true, true), Ok(DnsSettings::StaticResolvConf));
    assert_eq!(DnsSettings::new(Some("resolvconf"), false, true), Err(DnsError::Resolvconf));
    assert_eq!(DnsSettings::new(Some("other"), false, true), Ok(DnsSettings::StaticResolvConf));
    assert_eq!(DnsSettings::new(Some("static-file"), true, false), Err(DnsError::StaticResolvConf));
    assert_eq!(DnsSettings::new(None, true, true), Ok(DnsSettings::Resolvconf));
    assert_eq!(
        DnsSettings::with_detected_dns_manager(false, false),
        Err(DnsError::NoDnsSettingsManager)
    );
}

#[test]
fn service_status_checkpoints() {
    let mut status = PersistentServiceStatus::new();
    let s = status.set_pending_start(1000);
    assert_eq!(s.checkpoint, 1);
    assert_eq!(s.current_state, ServiceState::StartPending);
    assert_eq!(s.controls_accepted, ServiceControlAccept { stop: false, preshutdown: false });
    let s = status.set_running();
    assert_eq!(s.checkpoint, 0);
    assert_eq!(s.controls_accepted, ServiceControlAccept { stop: true, preshutdown: true });
    let s = status.set_pending_stop(10000);
    assert_eq!(s.checkpoint, 2);
    assert_eq!(s.wait_hint_ms, 10000);
    let s = status.set_stopped(ServiceExitCode::ServiceSpecific(1));
    assert_eq!(s.checkpoint, 0);
    assert_eq!(s.exit_code, ServiceExitCode::ServiceSpecific(1));
    assert_eq!(status.checkpoint_counter, 3);
    assert_eq!(
        accepted_controls_by_state(ServiceState::Paused),
        ServiceControlAccept { stop: true, preshutdown: true }
    );
    let mut wrapped = PersistentServiceStatus { checkpoint_counter: u32::MAX };
    assert_eq!(wrapped.report_status(ServiceState::PausePending, 0, ServiceExitCode::NoError).checkpoint, u32::MAX);
    assert_eq!(wrapped.checkpoint_counter, 0);
}

#[test]
fn accepts_str() {
    assert!(OpenVpnBuilder::new("").remotes_from_text(&["10.0.0.1:1377"]).is_ok());
}

#[test]
fn accepts_slice_of_str() {
    let remotes = ["10.0.0.1:1337", "127.0.0.1:99"];
    let mut builder = OpenVpnBuilder::new("");
    builder.remotes_from_text(&remotes[..]).unwrap();
    let testee_args = builder.get_arguments();
    assert!(testee_args.contains(&"10.0.0.1".to_string()));
    assert!(testee_args.contains(&"1337".to_string()));
    assert!(testee_args.contains(&"127.0.0.1".to_string()));
    assert!(testee_args.contains(&"99".to_string()));
}

#[test]
fn remote_parsing_edges() {
    let a = RemoteAddr::parse("fe80::1:65535").unwrap();
    assert_eq!(a.address, "fe80::1");
    assert_eq!(a.port, 65535);
    assert!(RemoteAddr::parse("host:65536").is_none());
    assert!(RemoteAddr::parse(":80").is_none());
    assert!(RemoteAddr::parse("host:").is_none());
    assert!(RemoteAddr::parse("host").is_none());
    assert!(RemoteAddr::parse("host:8o").is_none());
    assert!(RemoteAddr::parse("host:000080").is_none());
    let mut builder = OpenVpnBuilder::new("");
    assert_eq!(builder.remotes_from_text(&["a:1", "b"]), Err(1));
    assert!(builder.get_arguments().is_empty());
}

#[test]
fn events_from_sources() {
    assert_eq!(
        DaemonEvent::from(TunnelStateTransition::Connected),
        DaemonEvent::TunnelStateTransition(TunnelStateTransition::Connected)
    );
    assert_eq!(
        DaemonEvent::from(ManagementCommand::GetState),
        DaemonEvent::ManagementInterfaceEvent(ManagementCommand::GetState)
    );
}

#[test]
fn connected_exit_tears_down_first() {
    let (s, out) = step(TunnelState::Connected(params(true)), TunnelInput::ProcessExit(true));
    assert_eq!(s, TunnelState::Disconnecting(AfterDisconnect::Nothing));
    assert_eq!(
        out.transition,
        Some(TunnelStateTransition::Disconnecting(ActionAfterDisconnect::Nothing))
    );
    assert_eq!(out.effects, vec![Effect::CloseTunnel]);
    let (s, _) = step(s, TunnelInput::ProcessExit(true));
    assert_eq!(s, TunnelState::Disconnected);
    let (s, out) = step(TunnelState::Connected(params(true)), TunnelInput::ProcessExit(false));
    assert_eq!(
        s,
        TunnelState::Disconnecting(AfterDisconnect::Block(BlockReason::StartTunnelError, true))
    );
    assert_eq!(
        out.transition,
        Some(TunnelStateTransition::Disconnecting(ActionAfterDisconnect::Block))
    );
    let (s, out) = step(s, TunnelInput::ProcessExit(true));
    assert_eq!(s, TunnelState::Blocked(BlockReason::StartTunnelError, true));
    assert_eq!(
        out.transition,
        Some(TunnelStateTransition::Blocked(BlockReason::StartTunnelError))
    );
}

#[test]
fn last_intent_keeps_later_lan_flag() {
    let mut state = TunnelState::Disconnecting(AfterDisconnect::Nothing);
    let commands = vec![
        TunnelCommand::AllowLan(false),
        TunnelCommand::Block(BlockReason::StartTunnelError, false),
        TunnelCommand::Connect(params(false)),
        TunnelCommand::AllowLan(true),
        TunnelCommand::AllowLan(false),
        TunnelCommand::AllowLan(true),
    ];
    for c in commands {
        let (next, _) = step(state, TunnelInput::Command(c));
        state = next;
    }
    let (next, _) = step(state, TunnelInput::ProcessExit(false));
    assert_eq!(next, TunnelState::Connecting(params(true)));

    let mut state = TunnelState::Disconnecting(AfterDisconnect::Reconnect(params(false)));
    let commands = vec![
        TunnelCommand::Block(BlockReason::Ipv6Unavailable, false),
        TunnelCommand::AllowLan(true),
    ];
    for c in commands {
        let (next, _) = step(state, TunnelInput::Command(c));
        state = next;
    }
    let (next, _) = step(state, TunnelInput::ProcessExit(true));
    assert_eq!(next, TunnelState::Blocked(BlockReason::Ipv6Unavailable, false));
}
