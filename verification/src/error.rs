//! The fatal errors of the host.

use vstd::prelude::*;
use crate::symbols::Operation;

verus! {

/// The fatal conditions of the host. None of them is retried: the host stops
/// on the first one.
#[derive(Debug, Clone, Copy, PartialEq, Eq, Structural)]
pub enum HostError {
    /// No ancestor of the executable's directory holds the data directory, or
    /// the executable's own location is unknown.
    PathResolution,
    /// The log directory, the log file or the sink could not be set up.
    LoggingInit,
    /// The operating system's loader refused the module file.
    ModuleLoad,
    /// The module lacks a mandatory entry point.
    MissingRequiredSymbol { name: Operation },
    /// The module's create entry point returned a null state.
    CoreCreateFailed,
}

impl HostError {
    /// The one-line diagnostic of the error.
    pub open spec fn diagnostic(self) -> Seq<char> {
        match self {
            HostError::PathResolution => "Unable to find the data directory above the executable"@,
            HostError::LoggingInit => "Unable to set up the log output"@,
            HostError::ModuleLoad => "Unable to load the core module"@,
            HostError::MissingRequiredSymbol { name } => match name {
                Operation::Create => "Unable to find \"core_create\" function"@,
                Operation::Update => "Unable to find \"core_update\" function"@,
                Operation::Destroy => "Unable to find \"core_destroy\" function"@,
                Operation::SetupLogger => "Unable to find \"core_setup_logger\" function"@,
                Operation::ShowArgs => "Unable to find \"core_show_args\" function"@,
                Operation::LoadUrl => "Unable to find \"core_load_url\" function"@,
            },
            HostError::CoreCreateFailed => "The core module returned no state"@,
        }
    }

    pub fn message(&self) -> (text: &'static str)
        ensures
            text@ == self.diagnostic(),
    {
        match self {
            HostError::PathResolution => "Unable to find the data directory above the executable",
            HostError::LoggingInit => "Unable to set up the log output",
            HostError::ModuleLoad => "Unable to load the core module",
            HostError::MissingRequiredSymbol { name } => match name {
                Operation::Create => "Unable to find \"core_create\" function",
                Operation::Update => "Unable to find \"core_update\" function",
                Operation::Destroy => "Unable to find \"core_destroy\" function",
                Operation::SetupLogger => "Unable to find \"core_setup_logger\" function",
                Operation::ShowArgs => "Unable to find \"core_show_args\" function",
                Operation::LoadUrl => "Unable to find \"core_load_url\" function",
            },
            HostError::CoreCreateFailed => "The core module returned no state",
        }
    }
}

} // verus!
