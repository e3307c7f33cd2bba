//! Properties of the tunnel state machine over single inputs and over runs.
use vstd::prelude::*;

use crate::state_machine::{
    effects_of, is_secured, next, report, AfterDisconnect, Effect, TunnelCommand, TunnelInput,
    TunnelParameters, TunnelState,
};
use crate::tunnel::TunnelStateTransition;

verus! {

/// The state reached by applying the inputs in order.
pub open spec fn run_inputs(s: TunnelState, inputs: Seq<TunnelInput>) -> TunnelState
    decreases inputs.len(),
{
    if inputs.len() == 0 {
        s
    } else {
        next(run_inputs(s, inputs.drop_last()), inputs.last()).0
    }
}

/// A command that can change the queued intent: connect, disconnect or block.
pub open spec fn is_intent_command(i: TunnelInput) -> bool {
    match i {
        TunnelInput::Command(TunnelCommand::Connect(_)) => true,
        TunnelInput::Command(TunnelCommand::Disconnect) => true,
        TunnelInput::Command(TunnelCommand::Block(_, _)) => true,
        _ => false,
    }
}

/// The last LAN flag that the commands set, or `current` when none does.
pub open spec fn last_lan_flag(cmds: Seq<TunnelInput>, current: bool) -> bool
    decreases cmds.len(),
{
    if cmds.len() == 0 {
        current
    } else {
        match cmds.last() {
            TunnelInput::Command(TunnelCommand::AllowLan(a)) => a,
            _ => last_lan_flag(cmds.drop_last(), current),
        }
    }
}

/// The state that the last intent command leads to once the tunnel has
/// exited, given the LAN flag commands that came after it.
pub open spec fn intent_outcome(intent: TunnelInput, later: Seq<TunnelInput>) -> TunnelState {
    match intent {
        TunnelInput::Command(TunnelCommand::Connect(p)) => TunnelState::Connecting(
            TunnelParameters { allow_lan: last_lan_flag(later, p.allow_lan), ..p },
        ),
        TunnelInput::Command(TunnelCommand::Block(r, a)) => TunnelState::Blocked(r, a),
        _ => TunnelState::Disconnected,
    }
}

/// The intent queued once the last intent command and the LAN flag commands
/// after it have arrived.
spec fn queued_intent(intent: TunnelInput, later: Seq<TunnelInput>) -> AfterDisconnect {
    match intent {
        TunnelInput::Command(TunnelCommand::Connect(p)) => AfterDisconnect::Reconnect(
            TunnelParameters { allow_lan: last_lan_flag(later, p.allow_lan), ..p },
        ),
        TunnelInput::Command(TunnelCommand::Block(r, a)) => AfterDisconnect::Block(r, a),
        _ => AfterDisconnect::Nothing,
    }
}

proof fn lemma_commands_keep_disconnecting(after: AfterDisconnect, cmds: Seq<TunnelInput>)
    requires
        forall|j: int| 0 <= j < cmds.len() ==> #[trigger] cmds[j] is Command,
    ensures
        run_inputs(TunnelState::Disconnecting(after), cmds) is Disconnecting,
    decreases cmds.len(),
{
    if cmds.len() > 0 {
        let rest = cmds.drop_last();
        assert forall|j: int| 0 <= j < rest.len() implies #[trigger] rest[j] is Command by {
            assert(rest[j] == cmds[j]);
        }
        lemma_commands_keep_disconnecting(after, rest);
        assert(cmds[cmds.len() - 1] is Command);
    }
}

proof fn lemma_queued_after_last_intent(after: AfterDisconnect, cmds: Seq<TunnelInput>, k: int)
    requires
        0 <= k < cmds.len(),
        forall|j: int| 0 <= j < cmds.len() ==> #[trigger] cmds[j] is Command,
        is_intent_command(cmds[k]),
        forall|j: int| k < j < cmds.len() ==> #[trigger] cmds[j] matches TunnelInput::Command(
            TunnelCommand::AllowLan(_),
        ),
    ensures
        run_inputs(TunnelState::Disconnecting(after), cmds) == TunnelState::Disconnecting(
            queued_intent(cmds[k], cmds.subrange(k + 1, cmds.len() as int)),
        ),
    decreases cmds.len(),
{
    let rest = cmds.drop_last();
    assert forall|j: int| 0 <= j < rest.len() implies #[trigger] rest[j] is Command by {
        assert(rest[j] == cmds[j]);
    }
    lemma_commands_keep_disconnecting(after, rest);
    assert(cmds.last() == cmds[cmds.len() - 1]);
    if k < cmds.len() - 1 {
        assert forall|j: int| k < j < rest.len() implies #[trigger] rest[j] matches TunnelInput::Command(
            TunnelCommand::AllowLan(_),
        ) by {
            assert(rest[j] == cmds[j]);
        }
        assert(rest[k] == cmds[k]);
        lemma_queued_after_last_intent(after, rest, k);
        let later = cmds.subrange(k + 1, cmds.len() as int);
        assert(later.drop_last() =~= rest.subrange(k + 1, rest.len() as int));
        assert(later.last() == cmds.last());
        assert(cmds[cmds.len() - 1] matches TunnelInput::Command(TunnelCommand::AllowLan(_)));
    }
}

/// While the tunnel is being torn down, the last connect, disconnect or
/// block command decides the state entered once the tunnel process exits,
/// whatever commands came before it: connecting for a connect, with the LAN
/// flag of the last flag change after it, blocked for a block, and
/// disconnected for a disconnect, which drops any earlier intent.
pub proof fn lemma_last_intent_decides(
    after: AfterDisconnect,
    cmds: Seq<TunnelInput>,
    k: int,
    clean: bool,
)
    requires
        0 <= k < cmds.len(),
        forall|j: int| 0 <= j < cmds.len() ==> #[trigger] cmds[j] is Command,
        is_intent_command(cmds[k]),
        forall|j: int| k < j < cmds.len() ==> #[trigger] cmds[j] matches TunnelInput::Command(
            TunnelCommand::AllowLan(_),
        ),
    ensures
        next(run_inputs(TunnelState::Disconnecting(after), cmds), TunnelInput::ProcessExit(clean)) == (
        intent_outcome(cmds[k], cmds.subrange(k + 1, cmds.len() as int)), true),
{
    lemma_queued_after_last_intent(after, cmds, k);
}

/// Input that the supervisor may send, or the tunnel may report, while the
/// user asks for a secured network: anything but a disconnect, a closed
/// command stream, or a clean exit of a live tunnel process.
pub open spec fn keeps_secured(s: TunnelState, i: TunnelInput) -> bool {
    &&& !(i matches TunnelInput::Command(TunnelCommand::Disconnect))
    &&& !(i is CommandsClosed)
    &&& !(i == TunnelInput::ProcessExit(true) && (s is Connecting || s is Connected))
}

/// A secured state stays secured under every input that keeps it so, and
/// is never reported as disconnected.
pub proof fn lemma_secured_kept(s: TunnelState, i: TunnelInput)
    requires
        is_secured(s),
        keeps_secured(s, i),
    ensures
        is_secured(next(s, i).0),
        report(next(s, i).0) != TunnelStateTransition::Disconnected,
{
}

/// A connect or block command secures every state.
pub proof fn lemma_connect_or_block_secures(s: TunnelState, i: TunnelInput)
    requires
        i matches TunnelInput::Command(TunnelCommand::Connect(_))
            || i matches TunnelInput::Command(TunnelCommand::Block(_, _)),
    ensures
        is_secured(next(s, i).0),
        report(next(s, i).0) != TunnelStateTransition::Disconnected,
{
}

/// Once secured, a run of inputs that each keep the state secured is never
/// observed as disconnected.
pub proof fn lemma_secured_run(s: TunnelState, inputs: Seq<TunnelInput>)
    requires
        is_secured(s),
        forall|k: int|
            0 <= k < inputs.len() ==> keeps_secured(#[trigger] run_inputs(s, inputs.take(k)), inputs[k]),
    ensures
        is_secured(run_inputs(s, inputs)),
        report(run_inputs(s, inputs)) != TunnelStateTransition::Disconnected,
    decreases inputs.len(),
{
    if inputs.len() > 0 {
        let rest = inputs.drop_last();
        assert forall|k: int| 0 <= k < rest.len() implies keeps_secured(
            #[trigger] run_inputs(s, rest.take(k)),
            rest[k],
        ) by {
            assert(rest.take(k) =~= inputs.take(k));
            assert(keeps_secured(run_inputs(s, inputs.take(k)), inputs[k]));
        }
        lemma_secured_run(s, rest);
        let k = inputs.len() - 1;
        assert(inputs.take(k) =~= rest);
        assert(keeps_secured(run_inputs(s, inputs.take(k)), inputs[k]));
        lemma_secured_kept(run_inputs(s, rest), inputs.last());
    }
}

/// Entering a connecting, connected or blocked state installs the firewall
/// policy before any other effect.
pub proof fn lemma_policy_first(s: TunnelState, i: TunnelInput)
    requires
        next(s, i).1,
        next(s, i).0 is Connecting || next(s, i).0 is Connected || next(s, i).0 is Blocked,
        !(s is Blocked && i is PolicyFailed),
    ensures
        effects_of(s, i).len() > 0,
        effects_of(s, i)[0] is ApplyPolicy,
{
}

/// The firewall is lifted only once no tunnel process is alive: disconnected
/// is entered from a tunnel state only on the exit of its process.
pub proof fn lemma_disconnect_after_exit(s: TunnelState, i: TunnelInput)
    requires
        next(s, i).0 is Disconnected,
        !(s is Disconnected),
        !(s is Blocked),
    ensures
        i is ProcessExit,
{
}

/// A state in which a tunnel process may be alive.
pub open spec fn process_alive(s: TunnelState) -> bool {
    s is Connecting || s is Connected || s is Disconnecting
}

/// At most one tunnel process is alive: a new one is started only from a
/// state without one, or once the old one has exited.
pub proof fn lemma_single_tunnel_process(s: TunnelState, i: TunnelInput)
    requires
        effects_of(s, i).contains(Effect::SpawnTunnel),
    ensures
        !process_alive(s) || (s is Disconnecting && i is ProcessExit),
        next(s, i).0 is Connecting,
{
    let e = effects_of(s, i);
    let k = choose|k: int| 0 <= k < e.len() && e[k] == Effect::SpawnTunnel;
    assert(e[k] == Effect::SpawnTunnel);
}

} // verus!
