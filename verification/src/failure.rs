//! Why a launch ended without a delegate's exit status, and what the user is
//! told about it.

use vstd::prelude::*;
use vstd::string::*;
use crate::cli::{cli_table, usage_brief_text, usage_text};
use crate::mode::{delegate_name, InputError, ProxyMode};
use crate::options::usage_rendering;

verus! {

/// The exit status of the launcher after a failure of its own.
pub const FATAL_EXIT_CODE: i32 = -1;

/// A program that the launcher starts.
#[derive(Clone, Copy, Debug, PartialEq, Eq, Structural)]
pub enum Program {
    /// The package manager that provisions a missing delegate.
    Installer,
    /// The delegate that serves a mode.
    Delegate(ProxyMode),
}

/// The name under which the package manager is looked for and started.
pub open spec fn installer_name() -> Seq<char> {
    "cargo"@
}

/// The name under which `program` is looked for and started.
pub open spec fn program_name(program: Program) -> Seq<char> {
    match program {
        Program::Installer => installer_name(),
        Program::Delegate(mode) => delegate_name(mode),
    }
}

impl Program {
    /// The name under which this program is looked for and started.
    pub fn name(self) -> (name: &'static str)
        ensures
            name@ == program_name(self),
    {
        match self {
            Program::Installer => "cargo",
            Program::Delegate(mode) => mode.executable_name(),
        }
    }
}

/// A failure of the launcher itself. Every one of them is fatal.
#[derive(Clone, Copy, Debug, PartialEq, Eq, Structural)]
pub enum Failure {
    /// The command line was refused.
    Input(InputError),
    /// The package manager is not in any searched directory.
    ToolingMissing,
    /// The delegate is still missing after the install attempt.
    ProvisionFailure(ProxyMode),
    /// The operating system could not start the program.
    SpawnFailure(Program),
    /// The delegate ended without an exit status.
    AbnormalChildExit(ProxyMode),
}

/// What the user is told about `failure` by a launcher started under the
/// name `launcher`.
pub open spec fn report_text(failure: Failure, launcher: Seq<char>) -> Seq<char> {
    match failure {
        Failure::Input(InputError::Usage) => usage_rendering(cli_table(), usage_brief_text(launcher)),
        Failure::Input(InputError::ModeConflict) => "Cannot use both --t/--tcp and -u/--udp at the same time!"@,
        Failure::ToolingMissing => "Could not find cargo package manager in $PATH!"@,
        Failure::ProvisionFailure(mode) => "Failed to install "@ + delegate_name(mode) + " package via cargo!"@,
        Failure::SpawnFailure(program) => program_name(program) + " failed to run!"@,
        Failure::AbnormalChildExit(mode) => delegate_name(mode) + " ended without an exit status!"@,
    }
}

impl Failure {
    /// Words the failure for the user. A refused command line is answered
    /// with the usage message.
    pub fn report(self, launcher: &str) -> (text: String)
        ensures
            text@ == report_text(self, launcher@),
    {
        match self {
            Failure::Input(InputError::Usage) => usage_text(launcher),
            Failure::Input(InputError::ModeConflict) => {
                "Cannot use both --t/--tcp and -u/--udp at the same time!".to_owned()
            },
            Failure::ToolingMissing => "Could not find cargo package manager in $PATH!".to_owned(),
            Failure::ProvisionFailure(mode) => "Failed to install ".to_owned().concat(
                mode.executable_name(),
            ).concat(" package via cargo!"),
            Failure::SpawnFailure(program) => program.name().to_owned().concat(" failed to run!"),
            Failure::AbnormalChildExit(mode) => mode.executable_name().to_owned().concat(
                " ended without an exit status!",
            ),
        }
    }
}

} // verus!
