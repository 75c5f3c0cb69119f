//! The watchdog: the aggregate of the service managers, and the supervisor
//! that answers the commands addressed to them.

pub mod control_command;
pub mod history;

pub use self::control_command::{
    ControlCommand, ControlCommandView, Query, Reply, ReplyView, WatchdogQuery,
};
use crate::service::{
    ActivationView, Control, IntercomSender, IntercomSenderView, IntercomStatus, ServiceError,
    ServiceIdentifier, ServiceManager, ServiceManagerView, ServiceRuntime, Status, StatusReport,
    StatusReportView,
};
use crate::text::same_text;
use vstd::prelude::*;

verus! {

#[derive(Debug, PartialEq, Eq)]
pub enum WatchdogError {
    /// No service of that name is declared in the aggregate.
    UnknownService { service_identifier: ServiceIdentifier, possible_values: Vec<ServiceIdentifier> },
    /// The service was asked to start while it was not `Shutdown`.
    CannotStartService { service_identifier: ServiceIdentifier, source: ServiceError },
    /// A message could not be handed to the service: its channel is closed.
    CannotConnectToService { service_identifier: ServiceIdentifier, retry_attempted: bool },
    /// The watchdog is gone, or let go of the query without an answer.
    NoReply { context: &'static str },
}

/// A `WatchdogError` with its texts as sequences of characters.
pub enum WatchdogErrorView {
    UnknownService { service_identifier: Seq<char>, possible_values: Seq<Seq<char>> },
    CannotStartService { service_identifier: Seq<char>, source: ServiceError },
    CannotConnectToService { service_identifier: Seq<char>, retry_attempted: bool },
    NoReply { context: Seq<char> },
}

impl View for WatchdogError {
    type V = WatchdogErrorView;

    open spec fn view(&self) -> WatchdogErrorView {
        match *self {
            WatchdogError::UnknownService { service_identifier, possible_values } => {
                WatchdogErrorView::UnknownService {
                    service_identifier: service_identifier@,
                    possible_values: Seq::new(
                        possible_values@.len(),
                        |i: int| possible_values@[i]@,
                    ),
                }
            },
            WatchdogError::CannotStartService { service_identifier, source } => {
                WatchdogErrorView::CannotStartService {
                    service_identifier: service_identifier@,
                    source,
                }
            },
            WatchdogError::CannotConnectToService { service_identifier, retry_attempted } => {
                WatchdogErrorView::CannotConnectToService {
                    service_identifier: service_identifier@,
                    retry_attempted,
                }
            },
            WatchdogError::NoReply { context } => WatchdogErrorView::NoReply { context: context@ },
        }
    }
}

/// The identifiers of `services`, in their order.
pub open spec fn identifiers(services: Seq<ServiceManagerView>) -> Seq<Seq<char>> {
    Seq::new(services.len(), |i: int| services[i].identifier)
}

/// Whether a service named `name` is among `services`.
pub open spec fn declares(services: Seq<ServiceManagerView>, name: Seq<char>) -> bool {
    exists|i: int| 0 <= i < services.len() && (#[trigger] services[i]).identifier == name
}

/// Where the service named `name` stands among `services`.
pub open spec fn slot(services: Seq<ServiceManagerView>, name: Seq<char>) -> int {
    choose|i: int| 0 <= i < services.len() && (#[trigger] services[i]).identifier == name
}

/// No two of `services` have the same identifier.
pub open spec fn distinct(services: Seq<ServiceManagerView>) -> bool {
    forall|i: int, j: int|
        0 <= i < j < services.len() ==> (#[trigger] services[i]).identifier != (
        #[trigger] services[j]).identifier
}

/// The error for a `name` that `services` does not declare.
pub open spec fn unknown_service(
    services: Seq<ServiceManagerView>,
    name: Seq<char>,
) -> WatchdogErrorView {
    WatchdogErrorView::UnknownService {
        service_identifier: name,
        possible_values: identifiers(services),
    }
}

/// The answer to a request to start the service `name`.
pub open spec fn start_reply(services: Seq<ServiceManagerView>, name: Seq<char>) -> Result<
    ActivationView,
    WatchdogErrorView,
> {
    if !declares(services, name) {
        Err(unknown_service(services, name))
    } else {
        let manager = services[slot(services, name)];
        if manager.grants_start() {
            Ok(
                ActivationView {
                    identifier: manager.identifier,
                    runtime: manager.runtime,
                    channel: manager.started + 1,
                },
            )
        } else {
            Err(
                WatchdogErrorView::CannotStartService {
                    service_identifier: name,
                    source: ServiceError::CannotStart { status: manager.status },
                },
            )
        }
    }
}

/// The managers after a request to start the service `name`.
pub open spec fn after_start(services: Seq<ServiceManagerView>, name: Seq<char>) -> Seq<
    ServiceManagerView,
> {
    if declares(services, name) {
        services.update(
            slot(services, name),
            services[slot(services, name)].after_start_request(),
        )
    } else {
        services
    }
}

/// The answer to a request to stop the service `name`: the command to write
/// into its control cell, if any.
pub open spec fn stop_reply(services: Seq<ServiceManagerView>, name: Seq<char>) -> Result<
    Option<Control>,
    WatchdogErrorView,
> {
    if !declares(services, name) {
        Err(unknown_service(services, name))
    } else {
        Ok(services[slot(services, name)].stop_command())
    }
}

/// The answer to a request for the status of the service `name`.
pub open spec fn status_reply(services: Seq<ServiceManagerView>, name: Seq<char>) -> Result<
    StatusReportView,
    WatchdogErrorView,
> {
    if !declares(services, name) {
        Err(unknown_service(services, name))
    } else {
        Ok(services[slot(services, name)].report())
    }
}

/// The answer to a request for the intercom of the service `name`: the
/// sending end of its current channel.
pub open spec fn intercom_reply(services: Seq<ServiceManagerView>, name: Seq<char>) -> Result<
    IntercomSenderView,
    WatchdogErrorView,
> {
    if !declares(services, name) {
        Err(unknown_service(services, name))
    } else {
        Ok(services[slot(services, name)].sender())
    }
}

/// The managers after the service `name` has been observed.
pub open spec fn after_observation(
    services: Seq<ServiceManagerView>,
    name: Seq<char>,
    status: Status,
    intercom: IntercomStatus,
) -> Seq<ServiceManagerView> {
    if declares(services, name) {
        services.update(
            slot(services, name),
            services[slot(services, name)].after_observation(status, intercom),
        )
    } else {
        services
    }
}

/// Among distinct services, the one that bears a name stands in its slot.
pub proof fn lemma_slot_is_unique(services: Seq<ServiceManagerView>, name: Seq<char>, i: int)
    requires
        distinct(services),
        0 <= i < services.len(),
        services[i].identifier == name,
    ensures
        declares(services, name),
        slot(services, name) == i,
{
    let chosen = slot(services, name);
    assert(0 <= chosen < services.len() && services[chosen].identifier == name);
    if chosen < i {
        assert(services[chosen].identifier != services[i].identifier);
    } else if i < chosen {
        assert(services[i].identifier != services[chosen].identifier);
    }
}

/// The aggregate of an application: its service managers, each under its own
/// identifier, in the order in which they were declared.
#[derive(Debug)]
pub struct Organix {
    services: Vec<ServiceManager>,
}

impl View for Organix {
    type V = Seq<ServiceManagerView>;

    closed spec fn view(&self) -> Seq<ServiceManagerView> {
        Seq::new(self.services@.len(), |i: int| self.services@[i]@)
    }
}

impl Organix {
    #[verifier::type_invariant]
    spec fn distinct_identifiers(self) -> bool {
        distinct(self@)
    }

    /// An aggregate without services.
    pub fn new() -> (services: Self)
        ensures
            services@.len() == 0,
            distinct(services@),
    {
        Self { services: Vec::new() }
    }

    /// Takes the managers out and leaves the aggregate empty.
    fn take(&mut self) -> (services: Vec<ServiceManager>)
        ensures
            Seq::new(services@.len(), |i: int| services@[i]@) == old(self)@,
            final(self)@.len() == 0,
    {
        let mut taken = Organix::new();
        core::mem::swap(self, &mut taken);
        let Organix { services } = taken;
        services
    }

    fn find(&self, service_identifier: &str) -> (found: Option<usize>)
        ensures
            found matches Some(i) ==> i < self@.len() && self@[i as int].identifier
                == service_identifier@ && slot(self@, service_identifier@) == i && declares(
                self@,
                service_identifier@,
            ),
            found is None ==> !declares(self@, service_identifier@),
            found matches Some(i) ==> i < self.services@.len(),
    {
        proof {
            use_type_invariant(self);
        }
        let mut i: usize = 0;
        while i < self.services.len()
            invariant
                i <= self.services@.len(),
                self@.len() == self.services@.len(),
                distinct(self@),
                forall|j: int| 0 <= j < i ==> (#[trigger] self@[j]).identifier != service_identifier@,
            decreases self.services@.len() - i,
        {
            if same_text(self.services[i].identifier(), service_identifier) {
                proof {
                    lemma_slot_is_unique(self@, service_identifier@, i as int);
                }
                return Some(i);
            }
            i += 1;
        }
        None
    }

    /// Where the service `service_identifier` stands in the order of the
    /// declaration, if it is declared.
    pub fn position(&self, service_identifier: &str) -> (found: Option<usize>)
        ensures
            found is Some <==> declares(self@, service_identifier@),
            found matches Some(i) ==> i == slot(self@, service_identifier@) && i < self@.len()
                && self@[i as int].identifier == service_identifier@,
    {
        self.find(service_identifier)
    }

    /// Declares one more service. A manager whose identifier is taken is not
    /// added.
    pub fn add(&mut self, manager: ServiceManager) -> (added: bool)
        ensures
            added == !declares(old(self)@, manager@.identifier),
            added ==> final(self)@ == old(self)@.push(manager@),
            !added ==> final(self)@ == old(self)@,
            distinct(final(self)@),
    {
        match self.find(manager.identifier()) {
            Some(_) => {
                proof {
                    use_type_invariant(&*self);
                }
                false
            },
            None => {
                proof {
                    use_type_invariant(&*self);
                }
                let ghost before = self@;
                let mut services = self.take();
                services.push(manager);
                let ghost after = Seq::new(services@.len(), |i: int| services@[i]@);
                assert(after =~= before.push(manager@));
                assert forall|i: int, j: int| 0 <= i < j < after.len() implies (
                #[trigger] after[i]).identifier != (#[trigger] after[j]).identifier by {
                    if j < before.len() {
                        assert(before[i].identifier != before[j].identifier);
                    } else {
                        assert(before[i].identifier != manager@.identifier);
                    }
                }
                *self = Organix { services };
                true
            },
        }
    }

    /// The identifiers of the declared services, in the order of their
    /// declaration.
    pub fn possible_values(&self) -> (values: Vec<ServiceIdentifier>)
        ensures
            Seq::new(values@.len(), |i: int| values@[i]@) == identifiers(self@),
    {
        let mut values: Vec<ServiceIdentifier> = Vec::new();
        let mut i: usize = 0;
        while i < self.services.len()
            invariant
                i <= self.services@.len(),
                self@.len() == self.services@.len(),
                values@.len() == i,
                forall|j: int| 0 <= j < i ==> (#[trigger] values@[j])@ == self@[j].identifier,
            decreases self.services@.len() - i,
        {
            values.push(self.services[i].identifier());
            i += 1;
        }
        assert(Seq::new(values@.len(), |i: int| values@[i]@) =~= identifiers(self@));
        values
    }

    fn unknown(&self, service_identifier: ServiceIdentifier) -> (error: WatchdogError)
        ensures
            error@ == unknown_service(self@, service_identifier@),
    {
        WatchdogError::UnknownService {
            service_identifier,
            possible_values: self.possible_values(),
        }
    }

    /// Takes note of what the status cell and the intercom counters of a
    /// service show. An identifier that is not declared is answered with
    /// `false`.
    pub fn observe(
        &mut self,
        service_identifier: ServiceIdentifier,
        status: Status,
        intercom: IntercomStatus,
    ) -> (known: bool)
        ensures
            known == declares(old(self)@, service_identifier@),
            final(self)@ == after_observation(old(self)@, service_identifier@, status, intercom),
    {
        match self.find(service_identifier) {
            None => false,
            Some(i) => {
                proof {
                    use_type_invariant(&*self);
                }
                let ghost before = self@;
                let mut services = self.take();
                services[i].observe(status, intercom);
                let ghost after = Seq::new(services@.len(), |i: int| services@[i]@);
                assert(after =~= before.update(
                    i as int,
                    before[i as int].after_observation(status, intercom),
                ));
                *self = Organix { services };
                true
            },
        }
    }

    /// Decides what a request to stop a service writes into its control cell.
    pub fn stop(&self, service_identifier: ServiceIdentifier) -> (reply: Result<
        Option<Control>,
        WatchdogError,
    >)
        ensures
            reply matches Ok(command) ==> stop_reply(self@, service_identifier@) == Ok::<
                Option<Control>,
                WatchdogErrorView,
            >(command),
            reply matches Err(error) ==> stop_reply(self@, service_identifier@) == Err::<
                Option<Control>,
                WatchdogErrorView,
            >(error@),
    {
        match self.find(service_identifier) {
            None => Err(self.unknown(service_identifier)),
            Some(i) => Ok(self.services[i].shutdown()),
        }
    }

    /// Reports on a service.
    pub fn status(&self, service_identifier: ServiceIdentifier) -> (reply: Result<
        StatusReport,
        WatchdogError,
    >)
        ensures
            reply matches Ok(report) ==> status_reply(self@, service_identifier@) == Ok::<
                StatusReportView,
                WatchdogErrorView,
            >(report@),
            reply matches Err(error) ==> status_reply(self@, service_identifier@) == Err::<
                StatusReportView,
                WatchdogErrorView,
            >(error@),
    {
        match self.find(service_identifier) {
            None => Err(self.unknown(service_identifier)),
            Some(i) => Ok(self.services[i].status()),
        }
    }

    /// Names the sending end of the current intercom channel of a service.
    pub fn intercoms(&self, service_identifier: ServiceIdentifier) -> (reply: Result<
        IntercomSender,
        WatchdogError,
    >)
        ensures
            reply matches Ok(sender) ==> intercom_reply(self@, service_identifier@) == Ok::<
                IntercomSenderView,
                WatchdogErrorView,
            >(sender@),
            reply matches Err(error) ==> intercom_reply(self@, service_identifier@) == Err::<
                IntercomSenderView,
                WatchdogErrorView,
            >(error@),
    {
        match self.find(service_identifier) {
            None => Err(self.unknown(service_identifier)),
            Some(i) => Ok(self.services[i].intercom()),
        }
    }

    /// Whether the count of starts of the service `name` can take the start
    /// that would be granted.
    pub open spec fn can_count_start(services: Seq<ServiceManagerView>, name: Seq<char>) -> bool {
        declares(services, name) ==> services[slot(services, name)].can_count_start()
    }

    /// Whether the count of starts of a service can take the start that
    /// would be granted, as `start` requires.
    pub fn can_start(&self, service_identifier: ServiceIdentifier) -> (yes: bool)
        ensures
            yes == Self::can_count_start(self@, service_identifier@),
    {
        match self.find(service_identifier) {
            None => true,
            Some(i) => self.services[i].can_start(),
        }
    }

    /// Grants or refuses the start of a service. A start is granted only to
    /// a declared service that is `Shutdown`; whatever else is asked changes
    /// nothing.
    pub fn start(&mut self, service_identifier: ServiceIdentifier) -> (reply: Result<
        ServiceRuntime,
        WatchdogError,
    >)
        requires
            Self::can_count_start(old(self)@, service_identifier@),
        ensures
            final(self)@ == after_start(old(self)@, service_identifier@),
            reply matches Ok(activation) ==> start_reply(old(self)@, service_identifier@) == Ok::<
                ActivationView,
                WatchdogErrorView,
            >(activation@),
            reply matches Err(error) ==> start_reply(old(self)@, service_identifier@) == Err::<
                ActivationView,
                WatchdogErrorView,
            >(error@),
    {
        match self.find(service_identifier) {
            None => Err(self.unknown(service_identifier)),
            Some(i) => {
                proof {
                    use_type_invariant(&*self);
                }
                let ghost before = self@;
                let mut services = self.take();
                let granted = services[i].runtime();
                let ghost after = Seq::new(services@.len(), |i: int| services@[i]@);
                assert(after =~= before.update(i as int, before[i as int].after_start_request()));
                *self = Organix { services };
                match granted {
                    Ok(activation) => Ok(activation),
                    Err(source) => Err(
                        WatchdogError::CannotStartService { service_identifier, source },
                    ),
                }
            },
        }
    }
}

/// The state of a `Watchdog`.
pub struct WatchdogView {
    pub services: Seq<ServiceManagerView>,
    /// Whether the watchdog has been told to end.
    pub finished: bool,
}

impl WatchdogView {
    /// The answer to `command`. A command that ends the watchdog has none,
    /// and a watchdog that has ended answers nothing.
    pub open spec fn reply(self, command: ControlCommandView) -> Option<ReplyView> {
        if self.finished {
            None
        } else {
            match command {
                ControlCommandView::Shutdown | ControlCommandView::Kill => None,
                ControlCommandView::Start { service_identifier } => Some(
                    ReplyView::Start(start_reply(self.services, service_identifier)),
                ),
                ControlCommandView::Stop { service_identifier } => Some(
                    ReplyView::Stop(stop_reply(self.services, service_identifier)),
                ),
                ControlCommandView::Intercom { service_identifier } => Some(
                    ReplyView::Intercom(intercom_reply(self.services, service_identifier)),
                ),
                ControlCommandView::Status { service_identifier } => Some(
                    ReplyView::Status(status_reply(self.services, service_identifier)),
                ),
            }
        }
    }

    /// The watchdog after `command`: `Shutdown` and `Kill` end it alike, a
    /// start changes the manager that grants it, and nothing else changes
    /// anything.
    pub open spec fn after(self, command: ControlCommandView) -> WatchdogView {
        if self.finished {
            self
        } else {
            match command {
                ControlCommandView::Shutdown | ControlCommandView::Kill => WatchdogView {
                    finished: true,
                    ..self
                },
                ControlCommandView::Start { service_identifier } => WatchdogView {
                    services: after_start(self.services, service_identifier),
                    ..self
                },
                _ => self,
            }
        }
    }

    /// Whether `command` can be handled: a start must not overflow the count
    /// of starts of the service.
    pub open spec fn can_handle(self, command: ControlCommandView) -> bool {
        command matches ControlCommandView::Start { service_identifier } ==> Organix::can_count_start(
            self.services,
            service_identifier,
        )
    }
}

/// The supervisor: it owns the aggregate and answers the commands of the
/// queue, one at a time, until it is told to end.
///
/// The supervisor decides on what it has observed of the services. Whoever
/// drives it reads the status cell and the counters of the services and
/// hands them over with `observe` before each command.
#[derive(Debug)]
pub struct Watchdog {
    services: Organix,
    finished: bool,
}

impl View for Watchdog {
    type V = WatchdogView;

    closed spec fn view(&self) -> WatchdogView {
        WatchdogView { services: self.services@, finished: self.finished }
    }
}

impl Watchdog {
    /// A watchdog over `services`, ready for its first command.
    pub fn new(services: Organix) -> (watchdog: Self)
        ensures
            watchdog@ == (WatchdogView { services: services@, finished: false }),
    {
        Self { services, finished: false }
    }

    /// The aggregate.
    pub fn services(&self) -> (services: &Organix)
        ensures
            services@ == self@.services,
    {
        &self.services
    }

    /// Whether the watchdog has been told to end: when it has, whoever waits
    /// for it is to be released.
    pub fn is_finished(&self) -> (finished: bool)
        ensures
            finished == self@.finished,
    {
        self.finished
    }

    /// Takes note of what the status cell and the intercom counters of a
    /// service show. An identifier that is not declared is answered with
    /// `false`.
    pub fn observe(
        &mut self,
        service_identifier: ServiceIdentifier,
        status: Status,
        intercom: IntercomStatus,
    ) -> (known: bool)
        ensures
            known == declares(old(self)@.services, service_identifier@),
            final(self)@ == (WatchdogView {
                services: after_observation(
                    old(self)@.services,
                    service_identifier@,
                    status,
                    intercom,
                ),
                ..old(self)@
            }),
    {
        self.services.observe(service_identifier, status, intercom)
    }

    /// Whether `command` can be handled, as `watchdog` requires.
    pub fn can_handle(&self, command: &ControlCommand) -> (yes: bool)
        ensures
            yes == self@.can_handle(command@),
    {
        match command {
            ControlCommand::Start { service_identifier } => self.services.can_start(
                service_identifier,
            ),
            _ => true,
        }
    }

    /// Handles one command of the queue. `None` tells that the watchdog has
    /// ended and that the command gets no answer; otherwise the answer is to
    /// be carried out and handed to whoever asked.
    pub fn watchdog(&mut self, command: ControlCommand) -> (reply: Option<Reply>)
        requires
            old(self)@.can_handle(command@),
        ensures
            final(self)@ == old(self)@.after(command@),
            reply matches Some(answer) ==> old(self)@.reply(command@) == Some(answer@),
            reply is None ==> old(self)@.reply(command@) is None,
    {
        if self.finished {
            return None;
        }
        match command {
            ControlCommand::Shutdown | ControlCommand::Kill => {
                self.finished = true;
                None
            },
            ControlCommand::Status { service_identifier } => Some(
                Reply::Status(self.services.status(service_identifier)),
            ),
            ControlCommand::Start { service_identifier } => Some(
                Reply::Start(self.services.start(service_identifier)),
            ),
            ControlCommand::Stop { service_identifier } => Some(
                Reply::Stop(self.services.stop(service_identifier)),
            ),
            ControlCommand::Intercom { service_identifier } => Some(
                Reply::Intercom(self.services.intercoms(service_identifier)),
            ),
        }
    }
}

} // verus!
