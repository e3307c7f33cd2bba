//! Properties of the supervisor over settings mutations and events.
use vstd::prelude::*;

use crate::daemon::{
    change_outcome, command_outcome, event_outcome, target_outcome, tunnel_parameters,
    update_outcome, Daemon,
    DaemonAction, DaemonEvent, DaemonExecutionState, ManagementCommand, Reply, TargetState,
};
use crate::machine_laws::{lemma_connect_or_block_secures, lemma_secured_kept};
use crate::settings::{same_settings, updated, SettingsUpdate};
use crate::state_machine::{
    is_secured, next, report, TunnelCommand, TunnelEndpoint, TunnelInput, TunnelParameters,
    TunnelState,
};
use crate::tunnel::{ActionAfterDisconnect, BlockReason, TunnelStateTransition};

verus! {

/// An action that takes the tunnel down or starts a new one.
pub open spec fn restarts_tunnel(a: DaemonAction) -> bool {
    a is Connect || a == DaemonAction::SendTunnelCommand(TunnelCommand::Disconnect)
}

/// A settings mutation that failed to be written is answered and leaves no
/// other trace, and one that was written is what any later read returns;
/// when it changed anything, subscribers are told.
pub proof fn lemma_mutation_visible_only_when_stored(d: Daemon, u: SettingsUpdate, persisted: bool)
    ensures
        !persisted ==> update_outcome(d, u, persisted) == (
            d,
            seq![DaemonAction::Reply(Reply::Done)],
        ),
        persisted ==> update_outcome(d, u, persisted).0.settings == updated(d.settings, u),
        persisted ==> command_outcome(update_outcome(d, u, persisted).0, ManagementCommand::GetSettings).1
            == seq![DaemonAction::Reply(Reply::Settings(updated(d.settings, u)))],
        persisted && !same_settings(d.settings, updated(d.settings, u))
            ==> update_outcome(d, u, persisted).1[1] == DaemonAction::NotifySettings,
{
}

/// Allowing or forbidding LAN traffic never restarts the tunnel: it is
/// answered, and forwards exactly one `AllowLan` command, only when the flag
/// changed and was stored.
pub proof fn lemma_allow_lan_is_live(d: Daemon, allow_lan: bool, persisted: bool)
    ensures
        ({
            let (d2, actions) = update_outcome(d, SettingsUpdate::SetAllowLan(allow_lan), persisted);
            &&& d2.target_state == d.target_state
            &&& forall|k: int| 0 <= k < actions.len() ==> !restarts_tunnel(#[trigger] actions[k])
            &&& actions == if !persisted || allow_lan == d.settings.allow_lan {
                seq![DaemonAction::Reply(Reply::Done)]
            } else {
                seq![
                    DaemonAction::Reply(Reply::Done),
                    DaemonAction::NotifySettings,
                    DaemonAction::SendTunnelCommand(TunnelCommand::AllowLan(allow_lan)),
                ]
            }
        }),
{
    let (d2, actions) = update_outcome(d, SettingsUpdate::SetAllowLan(allow_lan), persisted);
    if persisted && allow_lan != d.settings.allow_lan {
        assert(actions =~= seq![
            DaemonAction::Reply(Reply::Done),
            DaemonAction::NotifySettings,
            DaemonAction::SendTunnelCommand(TunnelCommand::AllowLan(allow_lan)),
        ]);
    }
}

/// Clearing the account while secured stores the cleared account, moves
/// the target to unsecured once, and sends exactly one disconnect.
pub proof fn lemma_clear_account_unsecures(d: Daemon)
    requires
        d.target_state == TargetState::Secured,
        d.settings.account_token is Some,
    ensures
        ({
            let (d2, actions) = update_outcome(d, SettingsUpdate::SetAccount(None), true);
            &&& d2.settings.account_token is None
            &&& d2.target_state == TargetState::Unsecured
            &&& actions == seq![
                DaemonAction::Reply(Reply::Done),
                DaemonAction::NotifySettings,
                DaemonAction::SendTunnelCommand(TunnelCommand::Disconnect),
            ]
        }),
{
    let (d2, actions) = update_outcome(d, SettingsUpdate::SetAccount(None), true);
    assert(actions =~= seq![
        DaemonAction::Reply(Reply::Done),
        DaemonAction::NotifySettings,
        DaemonAction::SendTunnelCommand(TunnelCommand::Disconnect),
    ]);
}

/// While the daemon runs with a secured target, no event makes it take the
/// tunnel down: every disconnect comes with an unsecured target or a shutdown.
pub proof fn lemma_secured_target_never_disconnects(d: Daemon, e: DaemonEvent)
    requires
        event_outcome(d, e) is Ok,
        event_outcome(d, e)->Ok_0.0.target_state == TargetState::Secured,
        event_outcome(d, e)->Ok_0.0.state == DaemonExecutionState::Running,
    ensures
        forall|k: int|
            0 <= k < event_outcome(d, e)->Ok_0.1.len() ==> #[trigger] event_outcome(d, e)->Ok_0.1[k]
                != DaemonAction::SendTunnelCommand(TunnelCommand::Disconnect),
{
}

/// The tunnel commands that a list of actions leads to, in order: a sent
/// command as it is, and a connect request as the connect or block command
/// that follows it whatever the relay resolution gave.
pub open spec fn issued(actions: Seq<DaemonAction>, cmds: Seq<TunnelCommand>) -> bool
    decreases actions.len(),
{
    if actions.len() == 0 {
        cmds.len() == 0
    } else {
        match actions.last() {
            DaemonAction::SendTunnelCommand(c) => cmds.len() > 0 && cmds.last() == c && issued(
                actions.drop_last(),
                cmds.drop_last(),
            ),
            DaemonAction::Connect(_) => cmds.len() > 0 && (cmds.last() is Connect
                || cmds.last() is Block) && issued(actions.drop_last(), cmds.drop_last()),
            _ => issued(actions.drop_last(), cmds),
        }
    }
}

/// The tunnel state after the commands, in order.
pub open spec fn run_commands(s: TunnelState, cmds: Seq<TunnelCommand>) -> TunnelState
    decreases cmds.len(),
{
    if cmds.len() == 0 {
        s
    } else {
        next(run_commands(s, cmds.drop_last()), TunnelInput::Command(cmds.last())).0
    }
}

proof fn lemma_issued_keeps_secured(s: TunnelState, actions: Seq<DaemonAction>, cmds: Seq<TunnelCommand>)
    requires
        is_secured(s),
        issued(actions, cmds),
        forall|k: int|
            0 <= k < actions.len() ==> #[trigger] actions[k] != DaemonAction::SendTunnelCommand(
                TunnelCommand::Disconnect,
            ),
    ensures
        is_secured(run_commands(s, cmds)),
    decreases actions.len(),
{
    if actions.len() > 0 {
        let rest = actions.drop_last();
        assert forall|k: int| 0 <= k < rest.len() implies #[trigger] rest[k]
            != DaemonAction::SendTunnelCommand(TunnelCommand::Disconnect) by {
            assert(rest[k] == actions[k]);
        }
        assert(actions[actions.len() - 1] == actions.last());
        match actions.last() {
            DaemonAction::SendTunnelCommand(c) => {
                lemma_issued_keeps_secured(s, rest, cmds.drop_last());
                lemma_secured_kept(
                    run_commands(s, cmds.drop_last()),
                    TunnelInput::Command(cmds.last()),
                );
            },
            DaemonAction::Connect(_) => {
                lemma_issued_keeps_secured(s, rest, cmds.drop_last());
                lemma_secured_kept(
                    run_commands(s, cmds.drop_last()),
                    TunnelInput::Command(cmds.last()),
                );
            },
            _ => {
                lemma_issued_keeps_secured(s, rest, cmds);
            },
        }
    }
}

/// While the user asks for a secured network and the daemon runs, no event
/// takes a secured tunnel out of its secured states: whatever relays were
/// resolved, the commands that the event leads to leave the tunnel
/// connecting, connected, blocked, or disconnecting towards one of these,
/// and so never reported as disconnected.
pub proof fn lemma_secured_target_keeps_tunnel_secured(
    d: Daemon,
    e: DaemonEvent,
    s: TunnelState,
    cmds: Seq<TunnelCommand>,
)
    requires
        event_outcome(d, e) is Ok,
        event_outcome(d, e)->Ok_0.0.target_state == TargetState::Secured,
        event_outcome(d, e)->Ok_0.0.state == DaemonExecutionState::Running,
        issued(event_outcome(d, e)->Ok_0.1, cmds),
        is_secured(s),
    ensures
        is_secured(run_commands(s, cmds)),
        report(run_commands(s, cmds)) != TunnelStateTransition::Disconnected,
{
    lemma_secured_target_never_disconnects(d, e);
    lemma_issued_keeps_secured(s, event_outcome(d, e)->Ok_0.1, cmds);
}

/// Asking for a secured network with an account set secures the tunnel from
/// any state: the request leads to one connect or block command.
pub proof fn lemma_secure_request_secures(d: Daemon, s: TunnelState, cmds: Seq<TunnelCommand>)
    requires
        d.state == DaemonExecutionState::Running,
        d.settings.account_token is Some,
        d.target_state == TargetState::Unsecured || d.tunnel_state is Blocked,
        issued(
            event_outcome(
                d,
                DaemonEvent::ManagementInterfaceEvent(
                    ManagementCommand::SetTargetState(TargetState::Secured),
                ),
            )->Ok_0.1,
            cmds,
        ),
    ensures
        event_outcome(
            d,
            DaemonEvent::ManagementInterfaceEvent(ManagementCommand::SetTargetState(TargetState::Secured)),
        )->Ok_0.0.target_state == TargetState::Secured,
        is_secured(run_commands(s, cmds)),
        report(run_commands(s, cmds)) != TunnelStateTransition::Disconnected,
{
    let actions = event_outcome(
        d,
        DaemonEvent::ManagementInterfaceEvent(ManagementCommand::SetTargetState(TargetState::Secured)),
    )->Ok_0.1;
    let t = d.settings.account_token->Some_0;
    assert(actions =~= seq![DaemonAction::Connect(t), DaemonAction::Reply(Reply::TargetState(true))]);
    assert(actions.drop_last() =~= seq![DaemonAction::Connect(t)]);
    assert(actions.drop_last().drop_last() =~= Seq::<DaemonAction>::empty());
    assert(issued(actions.drop_last(), cmds));
    assert(actions.drop_last().last() == DaemonAction::Connect(t));
    assert(issued(actions.drop_last().drop_last(), cmds.drop_last()));
    assert(cmds.drop_last().len() == 0);
    assert(cmds.len() == 1);
    assert(cmds.drop_last() =~= Seq::<TunnelCommand>::empty());
    lemma_connect_or_block_secures(s, TunnelInput::Command(cmds.last()));
}

/// No two of the actions answer the client.
pub open spec fn at_most_one_reply(actions: Seq<DaemonAction>) -> bool {
    forall|i: int, j: int|
        0 <= i < j < actions.len() ==> !(#[trigger] actions[i] is Reply && #[trigger] actions[j] is Reply)
}

/// Every management command is answered at most once; an unanswered one
/// has its reply sink dropped.
pub proof fn lemma_one_reply_per_command(d: Daemon, c: ManagementCommand)
    ensures
        at_most_one_reply(command_outcome(d, c).1),
{
    let actions = command_outcome(d, c).1;
    match c {
        ManagementCommand::SetTargetState(t) => {
            if d.state is Running {
                let inner = target_outcome(d, t).2;
                assert(forall|k: int| 0 <= k < inner.len() ==> !(#[trigger] inner[k] is Reply));
                assert forall|i: int, j: int|
                    0 <= i < j < actions.len() implies !(#[trigger] actions[i] is Reply
                        && #[trigger] actions[j] is Reply) by {
                    assert(actions[i] == inner[i]);
                }
            }
        },
        ManagementCommand::UpdateSettings(u, persisted) => {
            if persisted && !same_settings(d.settings, updated(d.settings, u)) {
                let stored = Daemon { settings: updated(d.settings, u), ..d };
                let tail = change_outcome(stored, u).1;
                assert(forall|k: int| 0 <= k < tail.len() ==> !(#[trigger] tail[k] is Reply));
                assert forall|i: int, j: int|
                    0 <= i < j < actions.len() implies !(#[trigger] actions[i] is Reply
                        && #[trigger] actions[j] is Reply) by {
                    if j >= 2 {
                        assert(actions[j] == tail[j - 2]);
                    }
                }
            }
        },
        _ => {},
    }
}

/// Asking for a secured network with an account set succeeds and leaves the
/// target secured. It asks for exactly one connect when the target changes
/// or the tunnel is blocked (so a retry after an authentication failure
/// connects again), for nothing otherwise, and never for a disconnect.
pub proof fn lemma_secure_with_account(d: Daemon)
    requires
        d.settings.account_token is Some,
    ensures
        target_outcome(d, TargetState::Secured) == (
            TargetState::Secured,
            true,
            if d.target_state != TargetState::Secured || d.tunnel_state is Blocked {
                seq![DaemonAction::Connect(d.settings.account_token->Some_0)]
            } else {
                Seq::<DaemonAction>::empty()
            },
        ),
{
}

/// A daemon that starts with auto-connect and an account asks to connect
/// with that account. The connect command that follows, built from the
/// settings, takes the tunnel from disconnected to connecting and, once the
/// tunnel is up, to connected; when no relay matches, the block command
/// takes it to blocked.
pub proof fn lemma_auto_connect_with_account(d: Daemon, endpoint: TunnelEndpoint)
    requires
        d.settings.account_token is Some,
        d.settings.auto_connect,
        d.target_state == TargetState::Unsecured,
    ensures
        ({
            let token = d.settings.account_token->Some_0;
            let secured = Daemon { target_state: TargetState::Secured, ..d };
            let p = tunnel_parameters(secured, token, endpoint);
            let block = TunnelCommand::Block(BlockReason::NoMatchingRelay, d.settings.allow_lan);
            &&& target_outcome(d, TargetState::Secured) == (
                TargetState::Secured,
                true,
                seq![DaemonAction::Connect(token)],
            )
            &&& p.username == token && p.allow_lan == d.settings.allow_lan
            &&& next(TunnelState::Disconnected, TunnelInput::Command(TunnelCommand::Connect(p)))
                == (TunnelState::Connecting(p), true)
            &&& report(TunnelState::Connecting(p)) == TunnelStateTransition::Connecting
            &&& next(TunnelState::Connecting(p), TunnelInput::TunnelUp) == (
                TunnelState::Connected(p),
                true,
            )
            &&& report(TunnelState::Connected(p)) == TunnelStateTransition::Connected
            &&& report(next(TunnelState::Disconnected, TunnelInput::Command(block)).0)
                == TunnelStateTransition::Blocked(BlockReason::NoMatchingRelay)
        }),
{
}

/// A shutdown while connecting disconnects the tunnel, which reports
/// disconnecting with nothing to follow and, once its process has exited,
/// disconnected; the daemon is finished exactly then, so its main loop ends
/// without error.
pub proof fn lemma_shutdown_while_connecting(d: Daemon, p: TunnelParameters, clean: bool)
    requires
        d.state == DaemonExecutionState::Running,
        d.tunnel_state == TunnelStateTransition::Connecting,
    ensures
        ({
            let (d1, actions) = event_outcome(d, DaemonEvent::TriggerShutdown)->Ok_0;
            let (s1, reported1) = next(
                TunnelState::Connecting(p),
                TunnelInput::Command(TunnelCommand::Disconnect),
            );
            let t1 = report(s1);
            let d2 = event_outcome(d1, DaemonEvent::TunnelStateTransition(t1))->Ok_0.0;
            let (s2, reported2) = next(s1, TunnelInput::ProcessExit(clean));
            let t2 = report(s2);
            let d3 = event_outcome(d2, DaemonEvent::TunnelStateTransition(t2))->Ok_0.0;
            &&& event_outcome(d, DaemonEvent::TriggerShutdown) is Ok
            &&& actions == seq![DaemonAction::SendTunnelCommand(TunnelCommand::Disconnect)]
            &&& d1.state == DaemonExecutionState::Exiting
            &&& reported1 && t1 == TunnelStateTransition::Disconnecting(ActionAfterDisconnect::Nothing)
            &&& d2.state == DaemonExecutionState::Exiting
            &&& reported2 && t2 == TunnelStateTransition::Disconnected
            &&& d3.state == DaemonExecutionState::Finished
        }),
{
}

} // verus!
