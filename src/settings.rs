//! Persisted daemon settings and the updates the management interface asks for.
use vstd::prelude::*;

use crate::state_machine::{TransportProtocol, TunnelEndpoint};

verus! {

/// A filter over the relays to connect to; `None` in a field accepts any value.
#[derive(Clone, Debug, PartialEq, Eq)]
pub struct RelayConstraints {
    pub country: Option<String>,
    pub city: Option<String>,
    pub protocol: Option<TransportProtocol>,
    pub port: Option<u16>,
}

/// Which relay to use: a fixed endpoint, or one picked by the constraints.
#[derive(Clone, Debug, PartialEq, Eq)]
pub enum RelaySettings {
    CustomTunnelEndpoint(TunnelEndpoint),
    Normal(RelayConstraints),
}

/// A change of constraints: each `Some` field replaces the current value.
#[derive(Clone, Debug, PartialEq, Eq)]
pub struct RelayConstraintsUpdate {
    pub country: Option<Option<String>>,
    pub city: Option<Option<String>>,
    pub protocol: Option<Option<TransportProtocol>>,
    pub port: Option<Option<u16>>,
}

/// A change of relay settings.
#[derive(Clone, Debug, PartialEq, Eq)]
pub enum RelaySettingsUpdate {
    CustomTunnelEndpoint(TunnelEndpoint),
    Normal(RelayConstraintsUpdate),
}

/// The persisted settings of the daemon.
#[derive(Clone, Debug, PartialEq, Eq)]
pub struct Settings {
    pub account_token: Option<String>,
    pub relay_settings: RelaySettings,
    pub allow_lan: bool,
    pub auto_connect: bool,
    pub enable_ipv6: bool,
    pub openvpn_mssfix: Option<u16>,
}

/// One mutation of the settings.
#[derive(Clone, Debug, PartialEq, Eq)]
pub enum SettingsUpdate {
    SetAccount(Option<String>),
    UpdateRelaySettings(RelaySettingsUpdate),
    SetAllowLan(bool),
    SetAutoConnect(bool),
    SetOpenVpnMssfix(Option<u16>),
    SetEnableIpv6(bool),
}

/// Two optional strings hold the same text.
pub open spec fn same_text(a: Option<String>, b: Option<String>) -> bool {
    match (a, b) {
        (Some(x), Some(y)) => x@ == y@,
        (None, None) => true,
        _ => false,
    }
}

/// Two endpoints hold the same values.
pub open spec fn same_endpoint(a: TunnelEndpoint, b: TunnelEndpoint) -> bool {
    a.address@ == b.address@ && a.port == b.port && a.protocol == b.protocol
}

/// Two relay settings hold the same values.
pub open spec fn same_relay_settings(a: RelaySettings, b: RelaySettings) -> bool {
    match (a, b) {
        (RelaySettings::CustomTunnelEndpoint(x), RelaySettings::CustomTunnelEndpoint(y)) => same_endpoint(x, y),
        (RelaySettings::Normal(x), RelaySettings::Normal(y)) => same_text(x.country, y.country)
            && same_text(x.city, y.city) && x.protocol == y.protocol && x.port == y.port,
        _ => false,
    }
}

/// Two settings hold the same values.
pub open spec fn same_settings(a: Settings, b: Settings) -> bool {
    &&& same_text(a.account_token, b.account_token)
    &&& same_relay_settings(a.relay_settings, b.relay_settings)
    &&& a.allow_lan == b.allow_lan
    &&& a.auto_connect == b.auto_connect
    &&& a.enable_ipv6 == b.enable_ipv6
    &&& a.openvpn_mssfix == b.openvpn_mssfix
}

/// The constraints that accept every relay.
pub open spec fn any_relay() -> RelayConstraints {
    RelayConstraints { country: None, city: None, protocol: None, port: None }
}

/// Takes the new value where an update gives one.
pub open spec fn pick<T>(update: Option<T>, current: T) -> T {
    match update {
        Some(v) => v,
        None => current,
    }
}

/// Relay settings after an update; constraints are merged into the current
/// ones, or into the unrestricted ones after a custom endpoint.
pub open spec fn updated_relay_settings(r: RelaySettings, u: RelaySettingsUpdate) -> RelaySettings {
    match u {
        RelaySettingsUpdate::CustomTunnelEndpoint(e) => RelaySettings::CustomTunnelEndpoint(e),
        RelaySettingsUpdate::Normal(c) => {
            let base = match r {
                RelaySettings::Normal(cur) => cur,
                RelaySettings::CustomTunnelEndpoint(_) => any_relay(),
            };
            RelaySettings::Normal(
                RelayConstraints {
                    country: pick(c.country, base.country),
                    city: pick(c.city, base.city),
                    protocol: pick(c.protocol, base.protocol),
                    port: pick(c.port, base.port),
                },
            )
        },
    }
}

/// Settings after an update.
pub open spec fn updated(s: Settings, u: SettingsUpdate) -> Settings {
    match u {
        SettingsUpdate::SetAccount(t) => Settings { account_token: t, ..s },
        SettingsUpdate::UpdateRelaySettings(r) => Settings {
            relay_settings: updated_relay_settings(s.relay_settings, r),
            ..s
        },
        SettingsUpdate::SetAllowLan(a) => Settings { allow_lan: a, ..s },
        SettingsUpdate::SetAutoConnect(a) => Settings { auto_connect: a, ..s },
        SettingsUpdate::SetOpenVpnMssfix(m) => Settings { openvpn_mssfix: m, ..s },
        SettingsUpdate::SetEnableIpv6(e) => Settings { enable_ipv6: e, ..s },
    }
}

/// Copies an optional string.
pub fn copy_text(t: &Option<String>) -> (c: Option<String>)
    ensures
        c == *t,
{
    match t {
        Some(s) => Some(s.clone()),
        None => None,
    }
}

fn equal_text(a: &Option<String>, b: &Option<String>) -> (r: bool)
    ensures
        r == same_text(*a, *b),
{
    match (a, b) {
        (Some(x), Some(y)) => *x == *y,
        (None, None) => true,
        _ => false,
    }
}

fn equal_protocol(a: Option<TransportProtocol>, b: Option<TransportProtocol>) -> (r: bool)
    ensures
        r == (a == b),
{
    match (a, b) {
        (Some(x), Some(y)) => x == y,
        (None, None) => true,
        _ => false,
    }
}

fn equal_number(a: Option<u16>, b: Option<u16>) -> (r: bool)
    ensures
        r == (a == b),
{
    match (a, b) {
        (Some(x), Some(y)) => x == y,
        (None, None) => true,
        _ => false,
    }
}

fn copy_endpoint(e: &TunnelEndpoint) -> (c: TunnelEndpoint)
    ensures
        c == *e,
{
    TunnelEndpoint { address: e.address.clone(), port: e.port, protocol: e.protocol }
}

fn copy_relay_settings(r: &RelaySettings) -> (c: RelaySettings)
    ensures
        c == *r,
{
    match r {
        RelaySettings::CustomTunnelEndpoint(e) => RelaySettings::CustomTunnelEndpoint(copy_endpoint(e)),
        RelaySettings::Normal(c) => RelaySettings::Normal(
            RelayConstraints {
                country: copy_text(&c.country),
                city: copy_text(&c.city),
                protocol: c.protocol,
                port: c.port,
            },
        ),
    }
}

fn equal_relay_settings(a: &RelaySettings, b: &RelaySettings) -> (r: bool)
    ensures
        r == same_relay_settings(*a, *b),
{
    match (a, b) {
        (RelaySettings::CustomTunnelEndpoint(x), RelaySettings::CustomTunnelEndpoint(y)) => {
            x.address == y.address && x.port == y.port && x.protocol == y.protocol
        },
        (RelaySettings::Normal(x), RelaySettings::Normal(y)) => {
            equal_text(&x.country, &y.country) && equal_text(&x.city, &y.city) && equal_protocol(
                x.protocol,
                y.protocol,
            ) && equal_number(x.port, y.port)
        },
        _ => false,
    }
}

fn take_update<T>(update: Option<T>, current: T) -> (r: T)
    ensures
        r == pick(update, current),
{
    match update {
        Some(v) => v,
        None => current,
    }
}

impl Settings {
    /// The settings of a fresh installation: no account, any relay, every flag off.
    pub open spec fn spec_initial() -> Settings {
        Settings {
            account_token: None,
            relay_settings: RelaySettings::Normal(any_relay()),
            allow_lan: false,
            auto_connect: false,
            enable_ipv6: false,
            openvpn_mssfix: None,
        }
    }

    /// The settings of a fresh installation.
    pub fn initial() -> (s: Settings)
        ensures
            s == Settings::spec_initial(),
    {
        Settings {
            account_token: None,
            relay_settings: RelaySettings::Normal(
                RelayConstraints { country: None, city: None, protocol: None, port: None },
            ),
            allow_lan: false,
            auto_connect: false,
            enable_ipv6: false,
            openvpn_mssfix: None,
        }
    }

    /// A copy that equals these settings.
    pub fn copy(&self) -> (c: Settings)
        ensures
            c == *self,
    {
        Settings {
            account_token: copy_text(&self.account_token),
            relay_settings: copy_relay_settings(&self.relay_settings),
            allow_lan: self.allow_lan,
            auto_connect: self.auto_connect,
            enable_ipv6: self.enable_ipv6,
            openvpn_mssfix: self.openvpn_mssfix,
        }
    }

    /// Whether two settings hold the same values.
    pub fn same_as(&self, other: &Settings) -> (r: bool)
        ensures
            r == same_settings(*self, *other),
    {
        equal_text(&self.account_token, &other.account_token) && equal_relay_settings(
            &self.relay_settings,
            &other.relay_settings,
        ) && self.allow_lan == other.allow_lan && self.auto_connect == other.auto_connect
            && self.enable_ipv6 == other.enable_ipv6 && equal_number(
            self.openvpn_mssfix,
            other.openvpn_mssfix,
        )
    }

    /// The settings after an update, and whether they differ from these.
    pub fn with_update(&self, update: SettingsUpdate) -> (r: (Settings, bool))
        ensures
            r.0 == updated(*self, update),
            r.1 == !same_settings(*self, r.0),
    {
        let mut next = self.copy();
        match update {
            SettingsUpdate::SetAccount(t) => next.account_token = t,
            SettingsUpdate::UpdateRelaySettings(u) => {
                next.relay_settings = match u {
                    RelaySettingsUpdate::CustomTunnelEndpoint(e) => RelaySettings::CustomTunnelEndpoint(e),
                    RelaySettingsUpdate::Normal(c) => {
                        let base = match copy_relay_settings(&self.relay_settings) {
                            RelaySettings::Normal(cur) => cur,
                            RelaySettings::CustomTunnelEndpoint(_) => RelayConstraints {
                                country: None,
                                city: None,
                                protocol: None,
                                port: None,
                            },
                        };
                        RelaySettings::Normal(
                            RelayConstraints {
                                country: take_update(c.country, base.country),
                                city: take_update(c.city, base.city),
                                protocol: take_update(c.protocol, base.protocol),
                                port: take_update(c.port, base.port),
                            },
                        )
                    },
                };
            },
            SettingsUpdate::SetAllowLan(a) => next.allow_lan = a,
            SettingsUpdate::SetAutoConnect(a) => next.auto_connect = a,
            SettingsUpdate::SetOpenVpnMssfix(m) => next.openvpn_mssfix = m,
            SettingsUpdate::SetEnableIpv6(e) => next.enable_ipv6 = e,
        }
        let changed = !self.same_as(&next);
        (next, changed)
    }
}

} // verus!
