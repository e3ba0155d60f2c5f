//! The validated inputs of one launch.

use vstd::prelude::*;
use crate::mode::{select_mode, selected_mode, InputError, ProxyMode};

verus! {

/// What the delegate is asked to do: where to listen and where to forward to.
#[derive(Clone, Debug, PartialEq, Eq)]
pub struct LaunchRequest {
    pub local_port: String,
    pub remote_host: String,
    pub remote_port: String,
    pub bind_address: Option<String>,
    pub debug: bool,
}

/// A launch request, as the text it holds.
pub struct LaunchRequestView {
    pub local_port: Seq<char>,
    pub remote_host: Seq<char>,
    pub remote_port: Seq<char>,
    pub bind_address: Option<Seq<char>>,
    pub debug: bool,
}

impl View for LaunchRequest {
    type V = LaunchRequestView;

    open spec fn view(&self) -> LaunchRequestView {
        LaunchRequestView {
            local_port: self.local_port@,
            remote_host: self.remote_host@,
            remote_port: self.remote_port@,
            bind_address: self.bind_address.deep_view(),
            debug: self.debug,
        }
    }
}

/// A launch request together with the mode it runs in.
#[derive(Clone, Debug, PartialEq, Eq)]
pub struct Invocation {
    pub mode: ProxyMode,
    pub request: LaunchRequest,
}

/// An invocation, as the text it holds.
pub struct InvocationView {
    pub mode: ProxyMode,
    pub request: LaunchRequestView,
}

impl View for Invocation {
    type V = InvocationView;

    open spec fn view(&self) -> InvocationView {
        InvocationView { mode: self.mode, request: self.request@ }
    }
}

/// What a command line supplied for each option of the launcher.
#[derive(Clone, Debug, PartialEq, Eq)]
pub struct Flags {
    pub local_port: Option<String>,
    pub remote_port: Option<String>,
    pub remote_host: Option<String>,
    pub bind_address: Option<String>,
    pub debug: bool,
    pub tcp: bool,
    pub udp: bool,
}

/// The supplied flags, as the text they hold.
pub struct FlagsView {
    pub local_port: Option<Seq<char>>,
    pub remote_port: Option<Seq<char>>,
    pub remote_host: Option<Seq<char>>,
    pub bind_address: Option<Seq<char>>,
    pub debug: bool,
    pub tcp: bool,
    pub udp: bool,
}

impl View for Flags {
    type V = FlagsView;

    open spec fn view(&self) -> FlagsView {
        FlagsView {
            local_port: self.local_port.deep_view(),
            remote_port: self.remote_port.deep_view(),
            remote_host: self.remote_host.deep_view(),
            bind_address: self.bind_address.deep_view(),
            debug: self.debug,
            tcp: self.tcp,
            udp: self.udp,
        }
    }
}

/// The invocation that supplied flags amount to. Conflicting mode flags are
/// reported before a missing value is.
pub open spec fn invocation_of(flags: FlagsView) -> Result<InvocationView, InputError> {
    match selected_mode(flags.tcp, flags.udp) {
        Err(e) => Err(e),
        Ok(mode) => match (flags.local_port, flags.remote_port, flags.remote_host) {
            (Some(local_port), Some(remote_port), Some(remote_host)) => Ok(
                InvocationView {
                    mode,
                    request: LaunchRequestView {
                        local_port,
                        remote_host,
                        remote_port,
                        bind_address: flags.bind_address,
                        debug: flags.debug,
                    },
                },
            ),
            _ => Err(InputError::Usage),
        },
    }
}

/// An invocation or its refusal, as the text it holds.
pub open spec fn outcome_view(r: Result<Invocation, InputError>) -> Result<InvocationView, InputError> {
    match r {
        Ok(invocation) => Ok(invocation@),
        Err(e) => Err(e),
    }
}

/// Validates the supplied flags and selects the mode.
pub fn invocation_from(flags: Flags) -> (r: Result<Invocation, InputError>)
    ensures
        outcome_view(r) == invocation_of(flags@),
{
    let mode = match select_mode(flags.tcp, flags.udp) {
        Ok(mode) => mode,
        Err(e) => {
            return Err(e);
        },
    };
    match (flags.local_port, flags.remote_port, flags.remote_host) {
        (Some(local_port), Some(remote_port), Some(remote_host)) => Ok(
            Invocation {
                mode,
                request: LaunchRequest {
                    local_port,
                    remote_host,
                    remote_port,
                    bind_address: flags.bind_address,
                    debug: flags.debug,
                },
            },
        ),
        _ => Err(InputError::Usage),
    }
}

} // verus!
