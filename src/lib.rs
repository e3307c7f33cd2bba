//! Core of a VPN client daemon: the supervisor that reconciles user intent with
//! the tunnel, and the tunnel state machine that keeps traffic from leaking.
pub mod daemon;
pub mod dns;
pub mod machine_laws;
pub mod plugin;
pub mod process;
pub mod service;
pub mod settings;
pub mod state_machine;
pub mod supervisor_laws;
pub mod tunnel;
