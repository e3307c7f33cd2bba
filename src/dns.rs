//! Choice of the DNS settings manager on Linux.
use vstd::prelude::*;

verus! {

/// The DNS settings manager in use.
#[derive(Clone, Copy, Debug, PartialEq, Eq, Structural)]
pub enum DnsSettings {
    /// DNS set through the `resolvconf` program.
    Resolvconf,
    /// DNS set by writing `/etc/resolv.conf` directly.
    StaticResolvConf,
}

/// Why no DNS settings manager could be chosen.
#[derive(Clone, Copy, Debug, PartialEq, Eq, Structural)]
pub enum DnsError {
    /// The `resolvconf` manager was asked for and could not be set up.
    Resolvconf,
    /// The static file manager was asked for and could not be set up.
    StaticResolvConf,
    /// No DNS settings manager detected.
    NoDnsSettingsManager,
}

/// The manager that detection picks: `resolvconf` when it can be set up,
/// else the static file.
pub open spec fn detected(resolvconf_ok: bool, static_ok: bool) -> Result<DnsSettings, DnsError> {
    if resolvconf_ok {
        Ok(DnsSettings::Resolvconf)
    } else if static_ok {
        Ok(DnsSettings::StaticResolvConf)
    } else {
        Err(DnsError::NoDnsSettingsManager)
    }
}

impl DnsSettings {
    /// The manager that `module` names ("static-file" or "resolvconf"), or
    /// the detected one when it names neither. The flags tell which managers
    /// could be set up on this system.
    pub fn new(
        module: Option<&str>,
        resolvconf_ok: bool,
        static_ok: bool,
    ) -> (r: Result<DnsSettings, DnsError>)
        ensures
            r == (match module {
                Some(m) => if m@ == "static-file"@ {
                    if static_ok {
                        Ok(DnsSettings::StaticResolvConf)
                    } else {
                        Err(DnsError::StaticResolvConf)
                    }
                } else if m@ == "resolvconf"@ {
                    if resolvconf_ok {
                        Ok(DnsSettings::Resolvconf)
                    } else {
                        Err(DnsError::Resolvconf)
                    }
                } else {
                    detected(resolvconf_ok, static_ok)
                },
                None => detected(resolvconf_ok, static_ok),
            }),
    {
        match module {
            Some(m) => {
                let name = String::from_str(m);
                if name == String::from_str("static-file") {
                    if static_ok {
                        Ok(DnsSettings::StaticResolvConf)
                    } else {
                        Err(DnsError::StaticResolvConf)
                    }
                } else if name == String::from_str("resolvconf") {
                    if resolvconf_ok {
                        Ok(DnsSettings::Resolvconf)
                    } else {
                        Err(DnsError::Resolvconf)
                    }
                } else {
                    Self::with_detected_dns_manager(resolvconf_ok, static_ok)
                }
            },
            None => Self::with_detected_dns_manager(resolvconf_ok, static_ok),
        }
    }

    /// Detects the manager to use: `resolvconf` first, then the static file.
    pub fn with_detected_dns_manager(
        resolvconf_ok: bool,
        static_ok: bool,
    ) -> (r: Result<DnsSettings, DnsError>)
        ensures
            r == detected(resolvconf_ok, static_ok),
    {
        if resolvconf_ok {
            Ok(DnsSettings::Resolvconf)
        } else if static_ok {
            Ok(DnsSettings::StaticResolvConf)
        } else {
            Err(DnsError::NoDnsSettingsManager)
        }
    }
}

} // verus!
