//! Runs of the host over sequences of events, and what holds of every run.

use vstd::prelude::*;
use crate::error::HostError;
use crate::lifecycle::{failure, Action, Event, Host, StateHandle};
use crate::symbols::{Core, ExportReport};

verus! {

/// The state in which a sequence of events, taken one after the other from
/// `start`, leaves the host, and the actions that it asked for on the way.
pub open spec fn run(start: Host, events: Seq<Event>) -> (Host, Seq<Action>)
    decreases events.len(),
{
    if events.len() == 0 {
        (start, Seq::empty())
    } else {
        let (host, action) = start.next(events[0]);
        let (end, log) = run(host, events.drop_first());
        (end, seq![action] + log)
    }
}

/// The number of update calls in a log of actions.
pub open spec fn count_updates(log: Seq<Action>) -> nat
    decreases log.len(),
{
    if log.len() == 0 {
        0
    } else if log[0] is CallUpdate {
        1 + count_updates(log.drop_first())
    } else {
        count_updates(log.drop_first())
    }
}

/// The number of destroy calls in a log of actions.
pub open spec fn count_destroys(log: Seq<Action>) -> nat
    decreases log.len(),
{
    if log.len() == 0 {
        0
    } else if log[0] is CallDestroy {
        1 + count_destroys(log.drop_first())
    } else {
        count_destroys(log.drop_first())
    }
}

/// `n` cycles in each of which the module's update returns status 0.
pub open spec fn quiet_cycles(n: nat) -> Seq<Event>
    decreases n,
{
    if n == 0 {
        Seq::empty()
    } else {
        seq![Event::Tick, Event::Updated { status: 0 }] + quiet_cycles((n - 1) as nat)
    }
}

/// The calls in `log` come in an orderly way, where `open` says that a state
/// of the module has been asked for and not been destroyed since: a create
/// is asked for only while no state is open, an update, a load or a destroy
/// only while one is, and the module is closed only while none is.
pub open spec fn orderly(log: Seq<Action>, open: bool) -> bool
    decreases log.len(),
{
    if log.len() == 0 {
        true
    } else if log[0] is CallCreate {
        !open && orderly(log.drop_first(), true)
    } else if log[0] is CallDestroy {
        open && orderly(log.drop_first(), false)
    } else if log[0].uses_handle() {
        open && orderly(log.drop_first(), open)
    } else if log[0] is UnloadModule {
        !open && orderly(log.drop_first(), open)
    } else {
        orderly(log.drop_first(), open)
    }
}

/// Whether a host in this state may have asked for a state of the module
/// that it has not destroyed. The two final states are reached either way.
pub open spec fn agrees(host: Host, open: bool) -> bool {
    match host {
        Host::Creating { .. } | Host::Running { .. } | Host::Updating { .. } => open,
        Host::Unloaded | Host::Failed { .. } => true,
        _ => !open,
    }
}

/// Taking the events `[first] + rest` is taking `first` and then `rest`.
pub proof fn lemma_run_first(start: Host, first: Event, rest: Seq<Event>)
    ensures
        run(start, seq![first] + rest).0 == run(start.next(first).0, rest).0,
        run(start, seq![first] + rest).1 == seq![start.next(first).1] + run(
            start.next(first).0,
            rest,
        ).1,
{
    let events = seq![first] + rest;
    assert(events[0] == first);
    assert(events.drop_first() =~= rest);
}

/// The host asks for one action per event.
pub proof fn lemma_run_length(start: Host, events: Seq<Event>)
    ensures
        run(start, events).1.len() == events.len(),
    decreases events.len(),
{
    if events.len() > 0 {
        lemma_run_length(start.next(events[0]).0, events.drop_first());
    }
}

/// A failed host stays failed: whatever is reported to it afterwards, it
/// rejects, and so it never calls the module again.
pub proof fn lemma_failed_is_final(error: HostError, events: Seq<Event>)
    ensures
        run(Host::Failed { error }, events).0 == (Host::Failed { error }),
        forall|i: int|
            0 <= i < events.len() ==> run(Host::Failed { error }, events).1[i] == Action::Reject,
    decreases events.len(),
{
    lemma_run_length(Host::Failed { error }, events);
    if events.len() > 0 {
        lemma_failed_is_final(error, events.drop_first());
        lemma_run_length(Host::Failed { error }, events.drop_first());
    }
}

/// A host that has shut down stays so and rejects every event.
pub proof fn lemma_unloaded_is_final(events: Seq<Event>)
    ensures
        run(Host::Unloaded, events).0 == Host::Unloaded,
        forall|i: int| 0 <= i < events.len() ==> run(Host::Unloaded, events).1[i] == Action::Reject,
    decreases events.len(),
{
    lemma_run_length(Host::Unloaded, events);
    if events.len() > 0 {
        lemma_unloaded_is_final(events.drop_first());
        lemma_run_length(Host::Unloaded, events.drop_first());
    }
}

/// A module file that the loader refuses ends the host with the load error,
/// and whatever follows, the module's create entry point is never called and
/// no state is ever held.
pub proof fn lemma_refused_module_creates_nothing(events: Seq<Event>)
    ensures
        Host::Loading.next(Event::Refused) == failure(HostError::ModuleLoad),
        !run(Host::Loading, seq![Event::Refused] + events).0.holds_handle(),
        forall|i: int|
            0 <= i <= events.len() ==> !(#[trigger] run(
                Host::Loading,
                seq![Event::Refused] + events,
            ).1[i]).reaches_module(),
{
    let error = HostError::ModuleLoad;
    lemma_run_first(Host::Loading, Event::Refused, events);
    lemma_failed_is_final(error, events);
    lemma_run_length(Host::Failed { error }, events);
    let log = run(Host::Loading, seq![Event::Refused] + events).1;
    let rest = run(Host::Failed { error }, events).1;
    assert forall|i: int| 0 <= i <= events.len() implies !(#[trigger] log[i]).reaches_module() by {
        if i > 0 {
            assert(log[i] == rest[i - 1]);
        }
    }
}

/// A module that lacks a lifecycle export is given up on the spot: the host
/// fails with the error that names the export, and the step calls nothing.
pub proof fn lemma_missing_export_aborts(found: ExportReport)
    requires
        !(found.create && found.update && found.destroy),
    ensures
        Core::resolution(found) is Err,
        Host::Resolving.next(Event::ExportsProbed { found }) == failure(
            Core::resolution(found)->Err_0,
        ),
        !Host::Resolving.next(Event::ExportsProbed { found }).1.reaches_module(),
{
}

/// A module without the logger entry point is bound without error and the
/// host goes straight on to create its state.
pub proof fn lemma_absent_logger_is_skipped(found: ExportReport)
    requires
        found.create && found.update && found.destroy,
        !found.setup_logger,
    ensures
        Host::Resolving.next(Event::ExportsProbed { found }) == (
            Host::Creating { core: Core::bound_from(found) },
            Action::CallCreate,
        ),
        !Core::bound_from(found).can_setup_logger,
{
}

/// An optional entry point is called only where the module has it.
pub proof fn lemma_optional_calls_are_gated(host: Host, event: Event)
    ensures
        host.next(event).1 is CallLoadUrl ==> host is Running && host->Running_core.can_load_url,
        host.next(event).1 is CallShowArgs ==> match host {
            Host::Injecting { core } => core.can_show_args,
            Host::Creating { core } => core.can_show_args,
            Host::Running { core, .. } => core.can_show_args,
            _ => false,
        },
        host.next(event).1 is InjectLogger ==> host.next(event).0 is Injecting
            && host.next(event).0->Injecting_core.can_setup_logger,
{
}

/// Only a host that holds a state passes one to the module, and it passes
/// the one it holds. So once a state is destroyed, nothing reaches the
/// module with it: without a state every such request is turned down.
pub proof fn lemma_calls_need_live_handle(host: Host, event: Event)
    ensures
        host.next(event).1.uses_handle() ==> host.holds_handle(),
        host.next(event).1 matches Action::CallUpdate { addr } ==> addr == host.held_token(),
        host.next(event).1 matches Action::CallLoadUrl { addr } ==> addr == host.held_token(),
        host.next(event).1 matches Action::CallDestroy { addr, .. } ==> addr == host.held_token(),
        host.next(event).1 is CallDestroy ==> !host.next(event).0.holds_handle(),
        !host.holds_handle() && (event is Tick || event is LoadUrl || event is Shutdown
            || event is Reload || event is Updated) ==> host.next(event) == (host, Action::Reject),
{
}

/// From a live state, `n` quiet cycles and then a reload make exactly `n`
/// update calls and exactly one destroy call, every one of them with the
/// state's address and the destroy with the reload flag set; after it the
/// host holds no state.
pub proof fn lemma_lifecycle_counts(core: Core, handle: StateHandle, n: nat)
    ensures
        ({
            let (end, log) = run(
                Host::Running { core, handle },
                quiet_cycles(n).push(Event::Reload),
            );
            &&& end == (Host::Destroying { reload: true })
            &&& log.len() == 2 * n + 1
            &&& count_updates(log) == n
            &&& count_destroys(log) == 1
            &&& forall|i: int|
                0 <= i < log.len() && #[trigger] log[i].uses_handle() ==> log[i] == (
                    Action::CallUpdate { addr: handle.token() }
                ) || log[i] == (Action::CallDestroy {
                    addr: handle.token(),
                    prepare_for_reload: true,
                })
        }),
    decreases n,
{
    let start = Host::Running { core, handle };
    let events = quiet_cycles(n).push(Event::Reload);
    if n == 0 {
        assert(events =~= seq![Event::Reload] + Seq::<Event>::empty());
        lemma_run_first(start, Event::Reload, Seq::empty());
        let log = run(start, events).1;
        assert(log =~= seq![
            Action::CallDestroy { addr: handle.token(), prepare_for_reload: true },
        ]);
        assert(log.drop_first() =~= Seq::<Action>::empty());
        assert(count_updates(log.drop_first()) == 0);
        assert(count_destroys(log.drop_first()) == 0);
    } else {
        let rest = quiet_cycles((n - 1) as nat).push(Event::Reload);
        let quiet = Event::Updated { status: 0 };
        assert(events =~= seq![Event::Tick] + (seq![quiet] + rest));
        lemma_run_first(start, Event::Tick, seq![quiet] + rest);
        lemma_run_first(Host::Updating { core, handle }, quiet, rest);
        lemma_lifecycle_counts(core, handle, (n - 1) as nat);
        let tail = run(start, rest).1;
        let middle = seq![Action::Await] + tail;
        let log = run(start, events).1;
        assert(log == seq![Action::CallUpdate { addr: handle.token() }] + middle);
        assert(log.drop_first() =~= middle);
        assert(middle.drop_first() =~= tail);
        assert(count_updates(middle) == count_updates(tail));
        assert(count_destroys(middle) == count_destroys(tail));
        assert forall|i: int| 0 <= i < log.len() && #[trigger] log[i].uses_handle() implies log[i]
            == (Action::CallUpdate { addr: handle.token() }) || log[i] == (Action::CallDestroy {
            addr: handle.token(),
            prepare_for_reload: true,
        }) by {
            if i >= 2 {
                assert(log[i] == tail[i - 2]);
            }
        }
    }
}

/// The whole life of a state: the module returns a non-null address from
/// create, `n` quiet cycles follow, then a reload. The host makes exactly `n`
/// update calls and exactly one destroy call, each with that address and the
/// destroy with the reload flag set, and ends without a state.
pub proof fn lemma_create_update_destroy(core: Core, addr: usize, n: nat)
    requires
        addr != 0,
    ensures
        ({
            let (end, log) = run(
                Host::Creating { core },
                seq![Event::Created { addr }] + quiet_cycles(n).push(Event::Reload),
            );
            &&& end == (Host::Destroying { reload: true })
            &&& !end.holds_handle()
            &&& count_updates(log) == n
            &&& count_destroys(log) == 1
            &&& forall|i: int|
                0 <= i < log.len() && #[trigger] log[i].uses_handle() ==> log[i] == (
                    Action::CallUpdate { addr }
                ) || log[i] == (Action::CallDestroy { addr, prepare_for_reload: true })
        }),
{
    let handle = StateHandle::of(addr);
    let start = Host::Creating { core };
    let rest = quiet_cycles(n).push(Event::Reload);
    StateHandle::lemma_token_of(addr);
    lemma_run_first(start, Event::Created { addr }, rest);
    lemma_lifecycle_counts(core, handle, n);
    let tail = run(Host::Running { core, handle }, rest).1;
    let log = run(start, seq![Event::Created { addr }] + rest).1;
    assert(log == seq![Action::Await] + tail);
    assert(log.drop_first() =~= tail);
    assert forall|i: int| 0 <= i < log.len() && #[trigger] log[i].uses_handle() implies log[i]
        == (Action::CallUpdate { addr }) || log[i] == (Action::CallDestroy {
        addr,
        prepare_for_reload: true,
    }) by {
        if i >= 1 {
            assert(log[i] == tail[i - 1]);
        }
    }
}

/// One step keeps the host and the log in agreement: a create is asked for
/// only while no state is open, a call with the state only while one is,
/// and the module is closed only once its state has been destroyed.
pub proof fn lemma_step_agrees(host: Host, event: Event, open: bool)
    requires
        agrees(host, open),
    ensures
        ({
            let (after, action) = host.next(event);
            if action is CallCreate {
                !open && agrees(after, true) && (host is Resolving || host is Injecting)
            } else if action is CallDestroy {
                open && agrees(after, false) && host.holds_handle()
            } else if action.uses_handle() {
                open && agrees(after, open) && host.holds_handle()
            } else if action is UnloadModule {
                !open && agrees(after, open) && host is Destroying
            } else {
                agrees(after, open)
            }
        }),
{
}

/// In every run of a host that agrees with `open`, the calls are orderly.
pub proof fn lemma_run_is_orderly(host: Host, events: Seq<Event>, open: bool)
    requires
        agrees(host, open),
    ensures
        orderly(run(host, events).1, open),
    decreases events.len(),
{
    if events.len() > 0 {
        let (after, action) = host.next(events[0]);
        let rest = events.drop_first();
        lemma_step_agrees(host, events[0], open);
        let log = run(host, events).1;
        assert(log.drop_first() =~= run(after, rest).1);
        assert(log[0] == action);
        if action is CallCreate {
            lemma_run_is_orderly(after, rest, true);
        } else if action is CallDestroy {
            lemma_run_is_orderly(after, rest, false);
        } else {
            lemma_run_is_orderly(after, rest, open);
        }
    }
}

/// From startup on, whatever is reported to the host: the module's create
/// entry point is not called again before the state of the module before it
/// has been destroyed, no call passes a state that has been destroyed, and
/// no module is closed while its state is alive.
pub proof fn lemma_reload_ordering(events: Seq<Event>)
    ensures
        orderly(run(Host::Anchoring, events).1, false),
{
    lemma_run_is_orderly(Host::Anchoring, events, false);
}

/// A reload goes through destroy, unload, load and lookup, in that order,
/// before the new module's create entry point is called.
pub proof fn lemma_reload_sequence(core: Core, handle: StateHandle, found: ExportReport)
    requires
        found.create && found.update && found.destroy,
        !found.setup_logger,
    ensures
        run(
            Host::Running { core, handle },
            seq![
                Event::Reload,
                Event::Completed,
                Event::Completed,
                Event::Completed,
                Event::ExportsProbed { found },
            ],
        ) == (
            Host::Creating { core: Core::bound_from(found) },
            seq![
                Action::CallDestroy { addr: handle.token(), prepare_for_reload: true },
                Action::UnloadModule,
                Action::LoadModule,
                Action::ProbeExports,
                Action::CallCreate,
            ],
        ),
{
    let e4 = seq![Event::ExportsProbed { found }];
    let e3 = seq![Event::Completed] + e4;
    let e2 = seq![Event::Completed] + e3;
    let e1 = seq![Event::Completed] + e2;
    let e0 = seq![Event::Reload] + e1;
    assert(e0 =~= seq![
        Event::Reload,
        Event::Completed,
        Event::Completed,
        Event::Completed,
        Event::ExportsProbed { found },
    ]);
    assert(e4 =~= seq![Event::ExportsProbed { found }] + Seq::<Event>::empty());
    lemma_run_first(Host::Running { core, handle }, Event::Reload, e1);
    lemma_run_first(Host::Destroying { reload: true }, Event::Completed, e2);
    lemma_run_first(Host::Unloading { reload: true }, Event::Completed, e3);
    lemma_run_first(Host::Loading, Event::Completed, e4);
    lemma_run_first(Host::Resolving, Event::ExportsProbed { found }, Seq::empty());
    assert(run(Host::Running { core, handle }, e0).1 =~= seq![
        Action::CallDestroy { addr: handle.token(), prepare_for_reload: true },
        Action::UnloadModule,
        Action::LoadModule,
        Action::ProbeExports,
        Action::CallCreate,
    ]);
}

} // verus!
