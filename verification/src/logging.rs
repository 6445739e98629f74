//! The thresholds of the host's log sink and its hand-over to the module.

use vstd::prelude::*;
use crate::symbols::Core;

verus! {

/// A severity threshold of a log output, from silent to most verbose.
#[derive(Debug, Clone, Copy, PartialEq, Eq, Structural)]
pub enum Severity {
    Off,
    Error,
    Warn,
    Info,
    Debug,
    Trace,
}

impl Severity {
    /// The position of the threshold: 0 lets nothing through, 5 everything.
    pub open spec fn rank(self) -> nat {
        match self {
            Severity::Off => 0,
            Severity::Error => 1,
            Severity::Warn => 2,
            Severity::Info => 3,
            Severity::Debug => 4,
            Severity::Trace => 5,
        }
    }

    /// Whether an output with this threshold records a message of severity
    /// `message`.
    pub open spec fn admits(self, message: Severity) -> bool {
        message.rank() != 0 && message.rank() <= self.rank()
    }

    pub fn level(&self) -> (r: u8)
        ensures
            r == self.rank(),
    {
        match self {
            Severity::Off => 0,
            Severity::Error => 1,
            Severity::Warn => 2,
            Severity::Info => 3,
            Severity::Debug => 4,
            Severity::Trace => 5,
        }
    }

    pub fn records(&self, message: Severity) -> (r: bool)
        ensures
            r == self.admits(message),
    {
        let wanted: u8 = message.level();
        wanted != 0 && wanted <= self.level()
    }
}

/// The thresholds of the two outputs of the host's log sink.
#[derive(Debug, Clone, Copy, PartialEq, Eq, Structural)]
pub struct LogConfig {
    pub console: Severity,
    pub file: Severity,
}

impl LogConfig {
    /// The console is never more verbose than the file.
    pub open spec fn well_formed(self) -> bool {
        self.console.rank() <= self.file.rank()
    }

    /// The sink's own threshold: that of its most verbose output.
    pub open spec fn active(self) -> Severity {
        if self.console.rank() >= self.file.rank() {
            self.console
        } else {
            self.file
        }
    }

    /// The thresholds the host runs with: information and above on the
    /// console, everything in the file.
    pub open spec fn standard() -> LogConfig {
        LogConfig { console: Severity::Info, file: Severity::Trace }
    }

    pub fn is_well_formed(&self) -> (r: bool)
        ensures
            r == self.well_formed(),
    {
        self.console.level() <= self.file.level()
    }

    /// The lowest threshold that loses no message that an output records.
    pub fn active_threshold(&self) -> (r: Severity)
        ensures
            r == self.active(),
            forall|message: Severity|
                r.admits(message) <==> self.console.admits(message) || self.file.admits(message),
            self.well_formed() ==> r == self.file,
    {
        if self.console.level() >= self.file.level() {
            assert(self.well_formed() ==> self.console == self.file);
            self.console
        } else {
            self.file
        }
    }
}

/// The name of the log file inside the application's configuration directory.
pub fn log_file_name() -> (name: &'static str)
    ensures
        name@ == "retrovert.log"@,
{
    "retrovert.log"
}

/// What is handed to a module's logger entry point: the threshold, where the
/// module has that entry point, and nothing where it has not.
pub open spec fn injection_plan(core: Core, threshold: Severity) -> Option<Severity> {
    if core.can_setup_logger {
        Some(threshold)
    } else {
        None
    }
}

/// Calls `log::max_level`, which reads the process-wide maximum level that
/// the installed sink has set. The value depends on what was installed
/// before the call, so nothing is claimed of it.
#[verifier::external_body]
fn current_max_level() -> (level: Severity) {
    match log::max_level() {
        log::LevelFilter::Off => Severity::Off,
        log::LevelFilter::Error => Severity::Error,
        log::LevelFilter::Warn => Severity::Warn,
        log::LevelFilter::Info => Severity::Info,
        log::LevelFilter::Debug => Severity::Debug,
        log::LevelFilter::Trace => Severity::Trace,
    }
}

/// Decides the logger hand-over for a bound module, given the threshold
/// that is active in the host.
pub fn plan_injection(core: &Core, threshold: Severity) -> (r: Option<Severity>)
    ensures
        r == injection_plan(*core, threshold),
{
    if core.can_setup_logger {
        Some(threshold)
    } else {
        None
    }
}

/// Decides the logger hand-over with the threshold that is active in the
/// process now. An absent entry point is no error: the result is `None`.
pub fn logger_injection(core: &Core) -> (r: Option<Severity>)
    ensures
        r is Some <==> core.can_setup_logger,
        exists|threshold: Severity| r == #[trigger] injection_plan(*core, threshold),
{
    let threshold = current_max_level();
    plan_injection(core, threshold)
}

impl Core {
    /// The configuration of the host's log sink, to be installed before the
    /// module is opened.
    pub fn init_logging() -> (config: LogConfig)
        ensures
            config == LogConfig::standard(),
            config.well_formed(),
    {
        LogConfig { console: Severity::Info, file: Severity::Trace }
    }
}

} // verus!
