//! Tunnel state transitions as reported by the tunnel state machine.
use vstd::prelude::*;

verus! {

/// Event resulting from a transition to a new tunnel state.
#[derive(Clone, Debug, PartialEq, Eq)]
pub enum TunnelStateTransition {
    /// No connection is established and network is unsecured.
    Disconnected,
    /// Network is secured but tunnel is still connecting.
    Connecting,
    /// Tunnel is connected.
    Connected,
    /// Disconnecting tunnel.
    Disconnecting(ActionAfterDisconnect),
    /// Tunnel is disconnected but secured by blocking all connections.
    Blocked(BlockReason),
}

/// Action that will be taken after disconnection is complete.
#[derive(Clone, Copy, Debug, PartialEq, Eq, Structural)]
pub enum ActionAfterDisconnect {
    Nothing,
    Block,
    Reconnect,
}

/// Reason for entering the blocked state.
#[derive(Clone, Debug, PartialEq, Eq)]
pub enum BlockReason {
    /// Authentication with remote server failed.
    AuthFailed(Option<String>),
    /// Failed to configure IPv6 because it's disabled in the platform.
    Ipv6Unavailable,
    /// Failed to set security policy.
    SetSecurityPolicyError,
    /// Failed to start connection to remote server.
    StartTunnelError,
    /// No relay server matching the current filter parameters.
    NoMatchingRelay,
}

/// Copies a block reason, field for field.
pub fn copy_block_reason(r: &BlockReason) -> (c: BlockReason)
    ensures
        c == *r,
{
    match r {
        BlockReason::AuthFailed(None) => BlockReason::AuthFailed(None),
        BlockReason::AuthFailed(Some(s)) => BlockReason::AuthFailed(Some(s.clone())),
        BlockReason::Ipv6Unavailable => BlockReason::Ipv6Unavailable,
        BlockReason::SetSecurityPolicyError => BlockReason::SetSecurityPolicyError,
        BlockReason::StartTunnelError => BlockReason::StartTunnelError,
        BlockReason::NoMatchingRelay => BlockReason::NoMatchingRelay,
    }
}

/// Copies a transition, field for field.
pub fn copy_transition(t: &TunnelStateTransition) -> (c: TunnelStateTransition)
    ensures
        c == *t,
{
    match t {
        TunnelStateTransition::Disconnected => TunnelStateTransition::Disconnected,
        TunnelStateTransition::Connecting => TunnelStateTransition::Connecting,
        TunnelStateTransition::Connected => TunnelStateTransition::Connected,
        TunnelStateTransition::Disconnecting(a) => TunnelStateTransition::Disconnecting(*a),
        TunnelStateTransition::Blocked(r) => TunnelStateTransition::Blocked(copy_block_reason(r)),
    }
}

impl TunnelStateTransition {
    /// True exactly for the blocked state.
    pub fn is_blocked(&self) -> (r: bool)
        ensures
            r == self is Blocked,
    {
        match self {
            TunnelStateTransition::Blocked(_) => true,
            _ => false,
        }
    }
}

impl BlockReason {
    /// The human readable text of a block reason.
    pub open spec fn spec_description(&self) -> Seq<char> {
        match self {
            BlockReason::AuthFailed(Some(s)) => "Authentication with remote server failed: "@ + s@,
            BlockReason::AuthFailed(None) => "Authentication with remote server failed: No reason provided"@,
            BlockReason::Ipv6Unavailable => "Failed to configure IPv6 because it's disabled in the platform"@,
            BlockReason::SetSecurityPolicyError => "Failed to set security policy"@,
            BlockReason::StartTunnelError => "Failed to start connection to remote server"@,
            BlockReason::NoMatchingRelay => "No relay server matches the current settings"@,
        }
    }

    /// Describes why the network is blocked.
    pub fn description(&self) -> (d: String)
        ensures
            d@ == self.spec_description(),
    {
        match self {
            BlockReason::AuthFailed(reason) => {
                let prefix = String::from_str("Authentication with remote server failed: ");
                match reason {
                    Some(s) => prefix.concat(s.as_str()),
                    None => {
                        proof {
                            reveal_strlit("Authentication with remote server failed: ");
                            reveal_strlit("No reason provided");
                            reveal_strlit(
                                "Authentication with remote server failed: No reason provided",
                            );
                        }
                        prefix.concat("No reason provided")
                    },
                }
            },
            BlockReason::Ipv6Unavailable => String::from_str(
                "Failed to configure IPv6 because it's disabled in the platform",
            ),
            BlockReason::SetSecurityPolicyError => String::from_str("Failed to set security policy"),
            BlockReason::StartTunnelError => String::from_str(
                "Failed to start connection to remote server",
            ),
            BlockReason::NoMatchingRelay => String::from_str(
                "No relay server matches the current settings",
            ),
        }
    }
}

} // verus!
