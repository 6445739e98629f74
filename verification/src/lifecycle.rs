//! The host as a state machine: each event that the caller reports yields
//! the next state and the one action to carry out next.

use vstd::prelude::*;
use crate::error::HostError;
use crate::logging::LogConfig;
use crate::paths::{anchor_result, find_anchor};
use crate::symbols::{Core, ExportReport};

verus! {

/// The module's opaque state: an address that only the module can read. The
/// host passes it back and never looks behind it. A handle cannot be copied,
/// and `destroy` consumes it, so no call can follow its destruction.
#[derive(Debug, PartialEq, Eq)]
pub struct StateHandle {
    addr: usize,
}

impl StateHandle {
    /// The address that the module returned.
    pub closed spec fn token(self) -> usize {
        self.addr
    }

    /// The handle that stands for an address.
    pub closed spec fn of(addr: usize) -> StateHandle {
        StateHandle { addr }
    }

    /// What the host makes of the result of the module's create entry point:
    /// a null address is no state.
    pub open spec fn adopted(addr: usize) -> Option<StateHandle> {
        if addr == 0 {
            None
        } else {
            Some(StateHandle::of(addr))
        }
    }

    /// A handle stands for the address it was made of.
    pub proof fn lemma_token_of(addr: usize)
        ensures
            StateHandle::of(addr).token() == addr,
    {
    }

    pub fn adopt(addr: usize) -> (r: Option<StateHandle>)
        ensures
            r == StateHandle::adopted(addr),
            r is Some <==> addr != 0,
            r is Some ==> r->Some_0.token() == addr,
    {
        if addr == 0 {
            None
        } else {
            Some(StateHandle { addr })
        }
    }

    /// The address to pass to the module.
    pub fn address(&self) -> (addr: usize)
        ensures
            addr == self.token(),
    {
        self.addr
    }

    /// Ends the handle: the result is the one call of the module's destroy
    /// entry point that it allows.
    pub fn destroy(self, prepare_for_reload: bool) -> (action: Action)
        ensures
            action == (Action::CallDestroy { addr: self.token(), prepare_for_reload }),
    {
        Action::CallDestroy { addr: self.addr, prepare_for_reload }
    }
}

/// What the caller reports to the host.
#[derive(Debug, PartialEq, Eq)]
pub enum Event {
    /// For the executable's directory and each of its ancestors up to the
    /// root, whether it holds the data directory.
    AncestorsProbed { has_sentinel: Vec<bool> },
    /// Which exported names the loaded module has.
    ExportsProbed { found: ExportReport },
    /// The requested action was carried out.
    Completed,
    /// The requested action could not be carried out.
    Refused,
    /// The module's create entry point returned this address.
    Created { addr: usize },
    /// The module's update entry point returned this status.
    Updated { status: u64 },
    /// A cycle is due.
    Tick,
    /// The user asks the module to load a location.
    LoadUrl,
    /// The user asks the module to print its arguments.
    ShowArgs,
    /// The host is to stop for good.
    Shutdown,
    /// The module is to be replaced by a fresh image.
    Reload,
}

/// What the host asks the caller to do next.
#[derive(Debug, Clone, Copy, PartialEq, Eq, Structural)]
pub enum Action {
    /// Look for the data directory in the executable's directory and in each
    /// ancestor of it, and report with `Event::AncestorsProbed`.
    ProbeAncestors,
    /// Make the ancestor `depth` levels up the working directory.
    EnterDirectory { depth: usize },
    /// Install the log sink.
    InitLogging { config: LogConfig },
    /// Open the module file.
    LoadModule,
    /// Look up the exported names and report with `Event::ExportsProbed`.
    ProbeExports,
    /// Hand the log sink to the module.
    InjectLogger,
    /// Call the module's create entry point and report with `Event::Created`.
    CallCreate,
    /// Call the module's update entry point and report with `Event::Updated`.
    CallUpdate { addr: usize },
    /// Call the module's destroy entry point.
    CallDestroy { addr: usize, prepare_for_reload: bool },
    /// Call the module's load-url entry point.
    CallLoadUrl { addr: usize },
    /// Call the module's show-args entry point.
    CallShowArgs,
    /// Close the module.
    UnloadModule,
    /// Nothing is pending: wait for a tick or a request.
    Await,
    /// The host has shut down.
    Finish,
    /// Stop the process with this error.
    Abort { error: HostError },
    /// The event does not fit the state; nothing is called.
    Reject,
}

impl Action {
    /// The action passes the module's state back to the module.
    pub open spec fn uses_handle(self) -> bool {
        self is CallUpdate || self is CallDestroy || self is CallLoadUrl
    }

    /// The action is a call of one of the module's entry points.
    pub open spec fn reaches_module(self) -> bool {
        self.uses_handle() || self is CallCreate || self is CallShowArgs || self is InjectLogger
    }
}

/// The host's state. Startup runs through `Anchoring`, `Entering`,
/// `LoggingSetup`, `Loading` and `Resolving`. A module without state is in
/// `Injecting` or `Creating`; with a live state in `Running` or `Updating`
/// (a created state is running at once); `Destroying` and `Unloading` lead
/// back to `Loading` on a reload and to `Unloaded` otherwise.
#[derive(Debug, PartialEq, Eq)]
pub enum Host {
    Anchoring,
    Entering,
    LoggingSetup,
    Loading,
    Resolving,
    Injecting { core: Core },
    Creating { core: Core },
    Running { core: Core, handle: StateHandle },
    Updating { core: Core, handle: StateHandle },
    Destroying { reload: bool },
    Unloading { reload: bool },
    Unloaded,
    Failed { error: HostError },
}

/// The step into the failed state.
pub open spec fn failure(error: HostError) -> (Host, Action) {
    (Host::Failed { error }, Action::Abort { error })
}

/// A request to print the module's arguments, in a state that stays as it is.
pub open spec fn show_args_in(host: Host, core: Core) -> (Host, Action) {
    if core.can_show_args {
        (host, Action::CallShowArgs)
    } else {
        (host, Action::Reject)
    }
}

impl Host {
    /// The host holds a live state of the module.
    pub open spec fn holds_handle(self) -> bool {
        self is Running || self is Updating
    }

    /// The address of the state that the host holds.
    pub open spec fn held_token(self) -> usize
        recommends
            self.holds_handle(),
    {
        match self {
            Host::Running { handle, .. } => handle.token(),
            Host::Updating { handle, .. } => handle.token(),
            _ => 0,
        }
    }

    /// The state after `event`, and the action that the host asks for.
    pub open spec fn next(self, event: Event) -> (Host, Action) {
        match self {
            Host::Anchoring => match event {
                Event::AncestorsProbed { has_sentinel } => match anchor_result(has_sentinel@) {
                    Ok(depth) => (Host::Entering, Action::EnterDirectory { depth }),
                    Err(error) => failure(error),
                },
                Event::Refused => failure(HostError::PathResolution),
                _ => (self, Action::Reject),
            },
            Host::Entering => match event {
                Event::Completed => (
                    Host::LoggingSetup,
                    Action::InitLogging { config: LogConfig::standard() },
                ),
                Event::Refused => failure(HostError::PathResolution),
                _ => (self, Action::Reject),
            },
            Host::LoggingSetup => match event {
                Event::Completed => (Host::Loading, Action::LoadModule),
                Event::Refused => failure(HostError::LoggingInit),
                _ => (self, Action::Reject),
            },
            Host::Loading => match event {
                Event::Completed => (Host::Resolving, Action::ProbeExports),
                Event::Refused => failure(HostError::ModuleLoad),
                _ => (self, Action::Reject),
            },
            Host::Resolving => match event {
                Event::ExportsProbed { found } => match Core::resolution(found) {
                    Ok(core) => if core.can_setup_logger {
                        (Host::Injecting { core }, Action::InjectLogger)
                    } else {
                        (Host::Creating { core }, Action::CallCreate)
                    },
                    Err(error) => failure(error),
                },
                _ => (self, Action::Reject),
            },
            Host::Injecting { core } => match event {
                Event::Completed => (Host::Creating { core }, Action::CallCreate),
                Event::Refused => failure(HostError::LoggingInit),
                Event::ShowArgs => show_args_in(self, core),
                _ => (self, Action::Reject),
            },
            Host::Creating { core } => match event {
                Event::Created { addr } => match StateHandle::adopted(addr) {
                    Some(handle) => (Host::Running { core, handle }, Action::Await),
                    None => failure(HostError::CoreCreateFailed),
                },
                Event::ShowArgs => show_args_in(self, core),
                _ => (self, Action::Reject),
            },
            Host::Running { core, handle } => match event {
                Event::Tick => (
                    Host::Updating { core, handle },
                    Action::CallUpdate { addr: handle.token() },
                ),
                Event::LoadUrl => if core.can_load_url {
                    (self, Action::CallLoadUrl { addr: handle.token() })
                } else {
                    (self, Action::Reject)
                },
                Event::ShowArgs => show_args_in(self, core),
                Event::Shutdown => (
                    Host::Destroying { reload: false },
                    Action::CallDestroy { addr: handle.token(), prepare_for_reload: false },
                ),
                Event::Reload => (
                    Host::Destroying { reload: true },
                    Action::CallDestroy { addr: handle.token(), prepare_for_reload: true },
                ),
                _ => (self, Action::Reject),
            },
            Host::Updating { core, handle } => match event {
                Event::Updated { status } => if status == 0 {
                    (Host::Running { core, handle }, Action::Await)
                } else {
                    (
                        Host::Destroying { reload: false },
                        Action::CallDestroy { addr: handle.token(), prepare_for_reload: false },
                    )
                },
                _ => (self, Action::Reject),
            },
            Host::Destroying { reload } => match event {
                Event::Completed => (Host::Unloading { reload }, Action::UnloadModule),
                _ => (self, Action::Reject),
            },
            Host::Unloading { reload } => match event {
                Event::Completed => if reload {
                    (Host::Loading, Action::LoadModule)
                } else {
                    (Host::Unloaded, Action::Finish)
                },
                _ => (self, Action::Reject),
            },
            Host::Unloaded => (self, Action::Reject),
            Host::Failed { .. } => (self, Action::Reject),
        }
    }

    /// The host at startup, and its first request.
    pub fn start() -> (r: (Host, Action))
        ensures
            r == (Host::Anchoring, Action::ProbeAncestors),
    {
        (Host::Anchoring, Action::ProbeAncestors)
    }

    /// Takes one event: the result is the next state and the one action that
    /// the caller is to carry out before it reports again.
    pub fn step(self, event: Event) -> (r: (Host, Action))
        ensures
            r == self.next(event),
    {
        match self {
            Host::Anchoring => match event {
                Event::AncestorsProbed { has_sentinel } => match find_anchor(&has_sentinel) {
                    Ok(depth) => (Host::Entering, Action::EnterDirectory { depth }),
                    Err(error) => fail(error),
                },
                Event::Refused => fail(HostError::PathResolution),
                _ => (Host::Anchoring, Action::Reject),
            },
            Host::Entering => match event {
                Event::Completed => (
                    Host::LoggingSetup,
                    Action::InitLogging { config: Core::init_logging() },
                ),
                Event::Refused => fail(HostError::PathResolution),
                _ => (Host::Entering, Action::Reject),
            },
            Host::LoggingSetup => match event {
                Event::Completed => (Host::Loading, Action::LoadModule),
                Event::Refused => fail(HostError::LoggingInit),
                _ => (Host::LoggingSetup, Action::Reject),
            },
            Host::Loading => match event {
                Event::Completed => (Host::Resolving, Action::ProbeExports),
                Event::Refused => fail(HostError::ModuleLoad),
                _ => (Host::Loading, Action::Reject),
            },
            Host::Resolving => match event {
                Event::ExportsProbed { found } => match Core::new(&found) {
                    Ok(core) => if core.can_setup_logger {
                        (Host::Injecting { core }, Action::InjectLogger)
                    } else {
                        (Host::Creating { core }, Action::CallCreate)
                    },
                    Err(error) => fail(error),
                },
                _ => (Host::Resolving, Action::Reject),
            },
            Host::Injecting { core } => match event {
                Event::Completed => (Host::Creating { core }, Action::CallCreate),
                Event::Refused => fail(HostError::LoggingInit),
                Event::ShowArgs => show_args(Host::Injecting { core }, &core),
                _ => (Host::Injecting { core }, Action::Reject),
            },
            Host::Creating { core } => match event {
                Event::Created { addr } => match StateHandle::adopt(addr) {
                    Some(handle) => (Host::Running { core, handle }, Action::Await),
                    None => fail(HostError::CoreCreateFailed),
                },
                Event::ShowArgs => show_args(Host::Creating { core }, &core),
                _ => (Host::Creating { core }, Action::Reject),
            },
            Host::Running { core, handle } => match event {
                Event::Tick => {
                    let addr: usize = handle.address();
                    (Host::Updating { core, handle }, Action::CallUpdate { addr })
                },
                Event::LoadUrl => if core.can_load_url {
                    let addr: usize = handle.address();
                    (Host::Running { core, handle }, Action::CallLoadUrl { addr })
                } else {
                    (Host::Running { core, handle }, Action::Reject)
                },
                Event::ShowArgs => show_args(Host::Running { core, handle }, &core),
                Event::Shutdown => (Host::Destroying { reload: false }, handle.destroy(false)),
                Event::Reload => (Host::Destroying { reload: true }, handle.destroy(true)),
                _ => (Host::Running { core, handle }, Action::Reject),
            },
            Host::Updating { core, handle } => match event {
                Event::Updated { status } => if status == 0 {
                    (Host::Running { core, handle }, Action::Await)
                } else {
                    (Host::Destroying { reload: false }, handle.destroy(false))
                },
                _ => (Host::Updating { core, handle }, Action::Reject),
            },
            Host::Destroying { reload } => match event {
                Event::Completed => (Host::Unloading { reload }, Action::UnloadModule),
                _ => (Host::Destroying { reload }, Action::Reject),
            },
            Host::Unloading { reload } => match event {
                Event::Completed => if reload {
                    (Host::Loading, Action::LoadModule)
                } else {
                    (Host::Unloaded, Action::Finish)
                },
                _ => (Host::Unloading { reload }, Action::Reject),
            },
            Host::Unloaded => (Host::Unloaded, Action::Reject),
            Host::Failed { error } => (Host::Failed { error }, Action::Reject),
        }
    }
}

fn fail(error: HostError) -> (r: (Host, Action))
    ensures
        r == failure(error),
{
    (Host::Failed { error }, Action::Abort { error })
}

fn show_args(host: Host, core: &Core) -> (r: (Host, Action))
    ensures
        r == show_args_in(host, *core),
{
    if core.can_show_args {
        (host, Action::CallShowArgs)
    } else {
        (host, Action::Reject)
    }
}

} // verus!
