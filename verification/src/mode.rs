//! The transport of a launch and the delegate that serves it.

use vstd::prelude::*;

verus! {

/// The transport a launch is carried out over.
#[derive(Clone, Copy, Debug, PartialEq, Eq, Structural)]
pub enum ProxyMode {
    Tcp,
    Udp,
}

/// A command line that cannot be turned into a launch.
#[derive(Clone, Copy, Debug, PartialEq, Eq, Structural)]
pub enum InputError {
    /// A required option is missing or the arguments are malformed.
    Usage,
    /// Both the TCP flag and the UDP flag were given.
    ModeConflict,
}

/// The mode that a pair of mode flags stands for: UDP only when asked for,
/// TCP otherwise, and no mode at all when both flags are set.
pub open spec fn selected_mode(tcp: bool, udp: bool) -> Result<ProxyMode, InputError> {
    if tcp && udp {
        Err(InputError::ModeConflict)
    } else if udp {
        Ok(ProxyMode::Udp)
    } else {
        Ok(ProxyMode::Tcp)
    }
}

/// Chooses the mode from the two mode flags.
pub fn select_mode(tcp: bool, udp: bool) -> (r: Result<ProxyMode, InputError>)
    ensures
        r == selected_mode(tcp, udp),
{
    if tcp && udp {
        Err(InputError::ModeConflict)
    } else if udp {
        Ok(ProxyMode::Udp)
    } else {
        Ok(ProxyMode::Tcp)
    }
}

/// The name of the delegate executable that serves `mode`.
pub open spec fn delegate_name(mode: ProxyMode) -> Seq<char> {
    match mode {
        ProxyMode::Tcp => "tcpproxy"@,
        ProxyMode::Udp => "udpproxy"@,
    }
}

impl ProxyMode {
    /// The name of the delegate executable that serves this mode. It is also
    /// the name of the package that provides the executable.
    pub fn executable_name(self) -> (name: &'static str)
        ensures
            name@ == delegate_name(self),
    {
        match self {
            ProxyMode::Tcp => "tcpproxy",
            ProxyMode::Udp => "udpproxy",
        }
    }
}

} // verus!
