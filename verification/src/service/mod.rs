//! Services: their lifecycle, their control cell and their bookkeeping.

pub mod activation;
pub mod control;
pub mod intercom;
pub mod stats;
pub mod status;

pub use self::activation::{
    ActivationView, Launch, ServiceRuntime, ServiceState, Watcher, WatcherEvent, WatcherStep,
};
pub use self::control::{Control, Controller};
pub use self::intercom::{
    Attempt, Fetching, Intercom, IntercomAction, IntercomActionView, IntercomView, Sending,
};
pub use self::stats::{IntercomEvent, IntercomStats, IntercomStatus};
pub use self::status::Status;
use crate::runtime::RuntimeConfig;
use vstd::prelude::*;

verus! {

/// The name under which a service is known to the watchdog.
pub type ServiceIdentifier = &'static str;

/// A type of message that a service accepts on its intercom.
pub trait IntercomMsg: Send + 'static {

}

/// The message type of a service that takes no intercom message. No value
/// of it can be made, so that nothing is ever received on such an intercom.
#[derive(Debug)]
pub struct NoIntercom {
    never: (),
}

impl IntercomMsg for NoIntercom {

}

/// What the watchdog needs to know of a service at compile time: its name,
/// and the type of message its intercom carries.
pub trait ManageService {
    const SERVICE_IDENTIFIER: ServiceIdentifier;

    type IntercomMsg: IntercomMsg;
}

#[derive(Clone, Copy, Debug, PartialEq, Eq)]
pub enum ServiceError {
    /// The service can only be started from `Shutdown`.
    CannotStart { status: Status },
}

/// What a manager reports of its service.
#[derive(Debug, Clone, Copy)]
pub struct StatusReport {
    pub identifier: ServiceIdentifier,
    pub status: Status,
    pub intercom: IntercomStatus,
    /// How many times the service has been started.
    pub started: u64,
}

/// A `StatusReport` with its identifier as a sequence of characters.
pub struct StatusReportView {
    pub identifier: Seq<char>,
    pub status: Status,
    pub intercom: IntercomStatus,
    pub started: u64,
}

impl View for StatusReport {
    type V = StatusReportView;

    open spec fn view(&self) -> StatusReportView {
        StatusReportView {
            identifier: self.identifier@,
            status: self.status,
            intercom: self.intercom,
            started: self.started,
        }
    }
}

/// The sending end of the intercom channel of a service, named by the
/// service and by the number of the channel. The channels of a service are
/// numbered as they are made: the one made with the manager is number 0 and
/// has no receiver, and each start makes the next one.
#[derive(Clone, Copy, Debug, PartialEq, Eq)]
pub struct IntercomSender {
    pub service_identifier: ServiceIdentifier,
    pub channel: u64,
}

/// An `IntercomSender` with its identifier as a sequence of characters.
pub struct IntercomSenderView {
    pub service_identifier: Seq<char>,
    pub channel: nat,
}

impl View for IntercomSender {
    type V = IntercomSenderView;

    open spec fn view(&self) -> IntercomSenderView {
        IntercomSenderView {
            service_identifier: self.service_identifier@,
            channel: self.channel as nat,
        }
    }
}

/// The counters of a channel on which nothing has happened.
pub open spec fn fresh_counters() -> IntercomStatus {
    IntercomStatus { number_sent: 0, number_received: 0, number_connections: 0 }
}

/// The state of a `ServiceManager`.
pub struct ServiceManagerView {
    pub identifier: Seq<char>,
    /// The thread name of the pool that the service runs on.
    pub runtime: Seq<char>,
    /// The status of the service, as last observed.
    pub status: Status,
    /// The counters of the current intercom channel, as last observed.
    pub intercom: IntercomStatus,
    /// How many times the service has been started.
    pub started: nat,
}

impl ServiceManagerView {
    /// Whether a request to start is granted: only from `Shutdown`.
    pub open spec fn grants_start(self) -> bool {
        self.status is Shutdown
    }

    /// Whether the count of starts can take the start that would be
    /// granted.
    pub open spec fn can_count_start(self) -> bool {
        self.grants_start() ==> self.started < u64::MAX
    }

    /// The manager after a request to start: a granted one replaces the
    /// channel and counts one more start, a refused one changes nothing.
    pub open spec fn after_start_request(self) -> ServiceManagerView {
        if self.grants_start() {
            ServiceManagerView {
                intercom: fresh_counters(),
                started: self.started + 1,
                ..self
            }
        } else {
            self
        }
    }

    /// The manager after it has observed `status` and `intercom`.
    pub open spec fn after_observation(
        self,
        status: Status,
        intercom: IntercomStatus,
    ) -> ServiceManagerView {
        ServiceManagerView { status, intercom, ..self }
    }

    /// The command that a request to stop writes into the control cell.
    pub open spec fn stop_command(self) -> Option<Control> {
        Control::stops(self.status)
    }

    /// The command that goes into the control cell when the manager is let
    /// go.
    pub open spec fn last_command(self) -> Option<Control> {
        Control::lets_go(self.status)
    }

    /// The sending end of the current intercom channel.
    pub open spec fn sender(self) -> IntercomSenderView {
        IntercomSenderView { service_identifier: self.identifier, channel: self.started }
    }

    pub open spec fn report(self) -> StatusReportView {
        StatusReportView {
            identifier: self.identifier,
            status: self.status,
            intercom: self.intercom,
            started: self.started as u64,
        }
    }
}

/// The durable bookkeeping of one service: it outlives every activation.
///
/// The manager does not watch the service itself. It is told the status and
/// the intercom counters through `observe`, and decides on what it was told.
#[derive(Debug)]
pub struct ServiceManager {
    identifier: ServiceIdentifier,
    runtime: &'static str,
    status: Status,
    intercom: IntercomStatus,
    started: u64,
}

impl View for ServiceManager {
    type V = ServiceManagerView;

    closed spec fn view(&self) -> ServiceManagerView {
        ServiceManagerView {
            identifier: self.identifier@,
            runtime: self.runtime@,
            status: self.status,
            intercom: self.intercom,
            started: self.started as nat,
        }
    }
}

impl ServiceManager {
    /// The manager of the service `identifier`, which is to run on the pool
    /// that `runtime` describes. The service is `Shutdown` since `now`, and
    /// has never been started.
    pub fn with_runtime(identifier: ServiceIdentifier, runtime: &RuntimeConfig, now: u64) -> (manager:
        Self)
        ensures
            manager@ == (ServiceManagerView {
                identifier: identifier@,
                runtime: runtime.thread_name@,
                status: Status::Shutdown { since: now },
                intercom: fresh_counters(),
                started: 0,
            }),
    {
        Self {
            identifier,
            runtime: runtime.thread_name,
            status: Status::shutdown(now),
            intercom: IntercomStats::new().status(),
            started: 0,
        }
    }

    pub fn identifier(&self) -> (identifier: ServiceIdentifier)
        ensures
            identifier@ == self@.identifier,
    {
        self.identifier
    }

    /// The thread name of the pool that the service runs on.
    pub fn runtime_name(&self) -> (name: &'static str)
        ensures
            name@ == self@.runtime,
    {
        self.runtime
    }

    /// How many times the service has been started.
    pub fn started(&self) -> (started: u64)
        ensures
            started == self@.started,
    {
        self.started
    }

    /// Takes note of what the status cell and the intercom counters of the
    /// service show.
    pub fn observe(&mut self, status: Status, intercom: IntercomStatus)
        ensures
            final(self)@ == old(self)@.after_observation(status, intercom),
    {
        self.status = status;
        self.intercom = intercom;
    }

    /// The sending end of the current intercom channel.
    pub fn intercom(&self) -> (sender: IntercomSender)
        ensures
            sender@ == self@.sender(),
    {
        IntercomSender { service_identifier: self.identifier, channel: self.started }
    }

    pub fn status(&self) -> (report: StatusReport)
        ensures
            report@ == self@.report(),
    {
        StatusReport {
            identifier: self.identifier,
            status: self.status,
            intercom: self.intercom,
            started: self.started,
        }
    }

    /// Decides what a request to stop writes into the control cell of the
    /// service. Nothing is written for a service that is `Shutdown` or
    /// already `ShuttingDown`: no watcher would read it.
    pub fn shutdown(&self) -> (command: Option<Control>)
        ensures
            command == self@.stop_command(),
    {
        Control::to_stop(&self.status)
    }

    /// Whether the count of starts can take the start that would be granted,
    /// as `runtime` requires.
    pub fn can_start(&self) -> (yes: bool)
        ensures
            yes == self@.can_count_start(),
    {
        !self.status.is_shutdown() || self.started < u64::MAX
    }

    /// Grants or refuses a start. A start is granted only from `Shutdown`;
    /// it replaces the intercom channel by the next one, whose receiver goes
    /// to the activation, and counts one more start. A refusal carries the
    /// status that stood in the way and leaves the manager as it was.
    pub fn runtime(&mut self) -> (granted: Result<ServiceRuntime, ServiceError>)
        requires
            old(self)@.can_count_start(),
        ensures
            final(self)@ == old(self)@.after_start_request(),
            granted is Ok <==> old(self)@.grants_start(),
            granted matches Err(error) ==> error == (ServiceError::CannotStart {
                status: old(self)@.status,
            }),
            granted matches Ok(activation) ==> activation@ == (ActivationView {
                identifier: old(self)@.identifier,
                runtime: old(self)@.runtime,
                channel: final(self)@.started,
            }),
    {
        let status = self.status;
        if !status.is_shutdown() {
            Err(ServiceError::CannotStart { status })
        } else {
            self.intercom = IntercomStats::new().status();
            self.started = self.started + 1;
            Ok(ServiceRuntime::new(self.identifier, self.runtime, self.started))
        }
    }

    /// Decides what goes into the control cell of the service when its
    /// manager is let go: a service that is not `Shutdown` is killed.
    pub fn on_drop(&self) -> (command: Option<Control>)
        ensures
            command == self@.last_command(),
    {
        Control::to_let_go(&self.status)
    }
}

} // verus!
