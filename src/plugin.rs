//! Arguments of the OpenVPN event plugin.
use vstd::prelude::*;

verus! {

/// What the plugin needs from its arguments.
pub struct Arguments {
    pub ipc_socket_path: String,
}

/// Why the plugin arguments were refused.
#[derive(Clone, Copy, Debug, PartialEq, Eq, Structural)]
pub enum ArgsError {
    /// No core server id given as first argument.
    NoCoreServerId,
}

/// Reads the plugin arguments: the plugin's own path, then the path of the
/// socket that leads back to the daemon.
pub fn parse_args(args: &Vec<String>) -> (r: Result<Arguments, ArgsError>)
    ensures
        args@.len() >= 2 <==> r is Ok,
        r matches Ok(a) ==> a.ipc_socket_path@ == args@[1]@,
        r matches Err(e) ==> e == ArgsError::NoCoreServerId,
{
    if args.len() < 2 {
        return Err(ArgsError::NoCoreServerId);
    }
    Ok(Arguments { ipc_socket_path: args[1].clone() })
}

} // verus!
