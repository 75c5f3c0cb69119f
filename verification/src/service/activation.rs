//! One activation of a service, from the grant of a start to the end of its
//! watcher.
//!
//! An activation goes through three hands. `ServiceRuntime` is the grant.
//! `ServiceRuntime::start` marks the service `Starting` and gives a `Launch`:
//! the time to prepare the service and to schedule its task. `Launch::watch`
//! marks it `Started` and gives the `Watcher`, which answers every event of
//! the watch with what is to be done about it.

use super::control::Control;
use super::intercom::{Intercom, IntercomView};
use super::status::Status;
use super::{ManageService, ServiceIdentifier};
use crate::watchdog::WatchdogQuery;
use vstd::prelude::*;

verus! {

/// What stands for a `ServiceRuntime`, a `Launch` or a `Watcher` in
/// specifications.
pub struct ActivationView {
    pub identifier: Seq<char>,
    /// The thread name of the pool that the service task runs on.
    pub runtime: Seq<char>,
    /// The number of the intercom channel whose receiver the activation owns.
    pub channel: nat,
}

/// One activation of a service that has been granted and not yet started.
#[derive(Debug)]
pub struct ServiceRuntime {
    identifier: ServiceIdentifier,
    runtime: &'static str,
    channel: u64,
}

impl View for ServiceRuntime {
    type V = ActivationView;

    closed spec fn view(&self) -> ActivationView {
        ActivationView {
            identifier: self.identifier@,
            runtime: self.runtime@,
            channel: self.channel as nat,
        }
    }
}

/// An activation whose service is `Starting`: it is being prepared, and its
/// task is being scheduled.
#[derive(Debug)]
pub struct Launch {
    identifier: ServiceIdentifier,
    runtime: &'static str,
    channel: u64,
    since: u64,
}

impl View for Launch {
    type V = ActivationView;

    closed spec fn view(&self) -> ActivationView {
        ActivationView {
            identifier: self.identifier@,
            runtime: self.runtime@,
            channel: self.channel as nat,
        }
    }
}

/// What a service is given of its activation: its name, the pool and the
/// intercom channel that are its own, and the way to the watchdog and to the
/// other services.
#[derive(Debug)]
pub struct ServiceState {
    identifier: ServiceIdentifier,
    runtime: &'static str,
    channel: u64,
    watchdog_query: WatchdogQuery,
}

impl View for ServiceState {
    type V = ActivationView;

    closed spec fn view(&self) -> ActivationView {
        ActivationView {
            identifier: self.identifier@,
            runtime: self.runtime@,
            channel: self.channel as nat,
        }
    }
}

impl ServiceState {
    pub fn identifier(&self) -> (identifier: ServiceIdentifier)
        ensures
            identifier@ == self@.identifier,
    {
        self.identifier
    }

    /// A handle on the intercom of the service `O`.
    pub fn intercom_with<O: ManageService>(&self) -> (intercom: Intercom)
        ensures
            intercom@ == (IntercomView {
                service_identifier: O::SERVICE_IDENTIFIER@,
                connected: false,
            }),
    {
        self.watchdog_query.intercom::<O>()
    }

    /// The queries that the service can make of the watchdog.
    pub fn watchdog_controller(&self) -> &WatchdogQuery {
        &self.watchdog_query
    }

    /// The thread name of the pool that the service is to keep its tasks on.
    pub fn runtime_name(&self) -> (name: &'static str)
        ensures
            name@ == self@.runtime,
    {
        self.runtime
    }

    /// The number of the intercom channel that the service receives from.
    pub fn channel(&self) -> (channel: u64)
        ensures
            channel == self@.channel,
    {
        self.channel
    }
}

/// What the watcher of an activation is woken by.
#[derive(Clone, Copy, Debug, PartialEq, Eq, Structural)]
pub enum WatcherEvent {
    /// The service task has ended: by itself, or, if `failed`, by a panic or
    /// a cancellation.
    Finished { failed: bool },
    /// The control cell has yielded a command, or `None` because its writer
    /// is gone.
    Control(Option<Control>),
}

/// What the watcher does about an event.
#[derive(Clone, Copy, Debug, PartialEq, Eq, Structural)]
pub struct WatcherStep {
    /// The status to write into the status cell, if it changes.
    pub publish: Option<Status>,
    /// The service task is to be aborted.
    pub abort: bool,
    /// The watch is over.
    pub exit: bool,
    /// The service task ended in a failure, which is to be reported.
    pub report_failure: bool,
}

/// The status of a watched service after `event`, which came at `now`.
///
/// Once `Shutdown`, the service stays so. The end of the service task and a
/// `Kill` (or the loss of the supervisor) lead to `Shutdown`; a `Shutdown`
/// command leads to `ShuttingDown`, where a service that is already there
/// stays as it is.
pub open spec fn status_after(status: Status, event: WatcherEvent, now: u64) -> Status {
    if status is Shutdown {
        status
    } else {
        match event {
            WatcherEvent::Finished { .. } => Status::Shutdown { since: now },
            WatcherEvent::Control(received) => match Control::effective(received) {
                Control::Kill => Status::Shutdown { since: now },
                Control::Shutdown => if status is ShuttingDown {
                    status
                } else {
                    Status::ShuttingDown { since: now }
                },
            },
        }
    }
}

/// What the watcher of a service in `status` does about `event`, which came
/// at `now`: it publishes the status if it changes, leaves once the service
/// is `Shutdown`, aborts the task when it is killed, and reports a task that
/// ended in a failure.
pub open spec fn step_on(status: Status, event: WatcherEvent, now: u64) -> WatcherStep {
    let next = status_after(status, event, now);
    WatcherStep {
        publish: if next == status {
            None
        } else {
            Some(next)
        },
        abort: !(status is Shutdown) && event is Control && Control::effective(event->0)
            == Control::Kill,
        exit: next is Shutdown,
        report_failure: !(status is Shutdown) && event is Finished && event->failed,
    }
}

/// The watcher of an activation whose task has been scheduled.
#[derive(Debug)]
pub struct Watcher {
    identifier: ServiceIdentifier,
    runtime: &'static str,
    channel: u64,
    status: Status,
}

impl View for Watcher {
    type V = ActivationView;

    closed spec fn view(&self) -> ActivationView {
        ActivationView {
            identifier: self.identifier@,
            runtime: self.runtime@,
            channel: self.channel as nat,
        }
    }
}

impl ServiceRuntime {
    pub(crate) fn new(identifier: ServiceIdentifier, runtime: &'static str, channel: u64) -> (activation:
        Self)
        ensures
            activation@ == (ActivationView {
                identifier: identifier@,
                runtime: runtime@,
                channel: channel as nat,
            }),
    {
        Self { identifier, runtime, channel }
    }

    pub fn identifier(&self) -> (identifier: ServiceIdentifier)
        ensures
            identifier@ == self@.identifier,
    {
        self.identifier
    }

    /// Starts the activation at `now`: the service is `Starting` from then.
    pub fn start(self, now: u64) -> (launch: Launch)
        ensures
            launch@ == self@,
            launch.status() == (Status::Starting { since: now }),
    {
        Launch {
            identifier: self.identifier,
            runtime: self.runtime,
            channel: self.channel,
            since: now,
        }
    }
}

impl Launch {
    /// The status to write into the status cell.
    pub closed spec fn status(&self) -> Status {
        Status::Starting { since: self.since }
    }

    #[verifier::when_used_as_spec(status)]
    pub fn current(&self) -> (status: Status)
        ensures
            status == self.status(),
    {
        Status::starting(self.since)
    }

    pub fn identifier(&self) -> (identifier: ServiceIdentifier)
        ensures
            identifier@ == self@.identifier,
    {
        self.identifier
    }

    /// The thread name of the pool on which the service task is to run.
    pub fn runtime_name(&self) -> (name: &'static str)
        ensures
            name@ == self@.runtime,
    {
        self.runtime
    }

    /// The number of the intercom channel whose receiver goes to the service.
    pub fn channel(&self) -> (channel: u64)
        ensures
            channel == self@.channel,
    {
        self.channel
    }

    /// What the service is given to run with.
    pub fn service_state(&self) -> (state: ServiceState)
        ensures
            state@ == self@,
    {
        ServiceState {
            identifier: self.identifier,
            runtime: self.runtime,
            channel: self.channel,
            watchdog_query: WatchdogQuery::new(),
        }
    }

    /// Begins the watch at `now`, once the service task is scheduled: the
    /// service is `Started` from then.
    pub fn watch(self, now: u64) -> (watcher: Watcher)
        ensures
            watcher@ == self@,
            watcher.status() == (Status::Started { since: now }),
    {
        Watcher {
            identifier: self.identifier,
            runtime: self.runtime,
            channel: self.channel,
            status: Status::started(now),
        }
    }
}

impl Watcher {
    /// The status that the watcher wrote last.
    pub closed spec fn status(&self) -> Status {
        self.status
    }

    #[verifier::when_used_as_spec(status)]
    pub fn current(&self) -> (status: Status)
        ensures
            status == self.status(),
    {
        self.status
    }

    pub fn identifier(&self) -> (identifier: ServiceIdentifier)
        ensures
            identifier@ == self@.identifier,
    {
        self.identifier
    }

    /// Answers `event`, which came at `now`.
    pub fn react(&mut self, event: WatcherEvent, now: u64) -> (step: WatcherStep)
        ensures
            final(self)@ == old(self)@,
            final(self).status() == status_after(old(self).status(), event, now),
            step == step_on(old(self).status(), event, now),
    {
        let before = self.status;
        if before.is_shutdown() {
            return WatcherStep { publish: None, abort: false, exit: true, report_failure: false };
        }
        match event {
            WatcherEvent::Finished { failed } => {
                let next = Status::shutdown(now);
                self.status = next;
                WatcherStep { publish: Some(next), abort: false, exit: true, report_failure: failed }
            },
            WatcherEvent::Control(Some(Control::Shutdown)) => {
                if before.is_shutting_down() {
                    WatcherStep { publish: None, abort: false, exit: false, report_failure: false }
                } else {
                    let next = Status::shutting_down(now);
                    self.status = next;
                    WatcherStep {
                        publish: Some(next),
                        abort: false,
                        exit: false,
                        report_failure: false,
                    }
                }
            },
            WatcherEvent::Control(None) | WatcherEvent::Control(Some(Control::Kill)) => {
                let next = Status::shutdown(now);
                self.status = next;
                WatcherStep { publish: Some(next), abort: true, exit: true, report_failure: false }
            },
        }
    }
}

/// The status of a watched service after all of `events`, the event
/// `events[i]` having come at `times[i]`.
pub open spec fn status_after_all(status: Status, events: Seq<WatcherEvent>, times: Seq<u64>) -> Status
    decreases events.len(),
{
    if events.len() == 0 || times.len() != events.len() {
        status
    } else {
        status_after(
            status_after_all(status, events.drop_last(), times.drop_last()),
            events.last(),
            times.last(),
        )
    }
}

/// Every status that a watcher publishes follows the one before it along an
/// edge of the lifecycle graph. The watch is over exactly when the service is
/// `Shutdown`, and a task is aborted only as the watch ends.
pub proof fn lemma_watcher_follows_lifecycle(status: Status, event: WatcherEvent, now: u64)
    requires
        !(status is Starting),
    ensures
        !(status_after(status, event, now) is Starting),
        step_on(status, event, now).publish matches Some(next) ==> status.may_become(next) && next
            == status_after(status, event, now),
        step_on(status, event, now).publish is None ==> status_after(status, event, now) == status,
        step_on(status, event, now).exit <==> status_after(status, event, now) is Shutdown,
        step_on(status, event, now).abort ==> step_on(status, event, now).exit,
{
}

/// A watcher never leaves `Shutdown`: what comes after the end of an
/// activation reaches no running task.
pub proof fn lemma_shutdown_is_final(status: Status, events: Seq<WatcherEvent>, times: Seq<u64>)
    requires
        status is Shutdown,
    ensures
        status_after_all(status, events, times) == status,
    decreases events.len(),
{
    if events.len() > 0 && times.len() == events.len() {
        lemma_shutdown_is_final(status, events.drop_last(), times.drop_last());
    }
}

} // verus!
