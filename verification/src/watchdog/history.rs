//! What holds of a watchdog over its whole life: the rules that relate its
//! answers, and the count of the starts it has granted.

use super::{
    after_observation, after_start, declares, distinct, identifiers, slot, start_reply,
    unknown_service, ControlCommandView, ReplyView, WatchdogErrorView, WatchdogView,
};
use crate::service::{IntercomStatus, ServiceError, ServiceManagerView, Status};
use vstd::prelude::*;

verus! {

/// Something that happens to a watchdog.
pub enum WatchdogEvent {
    /// A command is taken from the queue.
    Command(ControlCommandView),
    /// The status and the counters of a service are read.
    Observation { service_identifier: Seq<char>, status: Status, intercom: IntercomStatus },
}

impl WatchdogView {
    /// The watchdog after `event`.
    pub open spec fn after_event(self, event: WatchdogEvent) -> WatchdogView {
        match event {
            WatchdogEvent::Command(command) => self.after(command),
            WatchdogEvent::Observation { service_identifier, status, intercom } => WatchdogView {
                services: after_observation(self.services, service_identifier, status, intercom),
                ..self
            },
        }
    }

    /// The watchdog after all of `events`, first to last.
    pub open spec fn after_events(self, events: Seq<WatchdogEvent>) -> WatchdogView
        decreases events.len(),
    {
        if events.len() == 0 {
            self
        } else {
            self.after_events(events.drop_last()).after_event(events.last())
        }
    }

    /// Whether `event` is a request to start the service `name` that the
    /// watchdog grants.
    pub open spec fn grants(self, event: WatchdogEvent, name: Seq<char>) -> bool {
        &&& event == WatchdogEvent::Command(ControlCommandView::Start { service_identifier: name })
        &&& self.reply(ControlCommandView::Start { service_identifier: name }) matches Some(
            ReplyView::Start(Ok(_)),
        )
    }

    /// How many starts of the service `name` are granted in the course of
    /// `events`.
    pub open spec fn starts_granted(self, events: Seq<WatchdogEvent>, name: Seq<char>) -> nat
        decreases events.len(),
    {
        if events.len() == 0 {
            0
        } else {
            let earlier = events.drop_last();
            self.starts_granted(earlier, name) + if self.after_events(earlier).grants(
                events.last(),
                name,
            ) {
                1nat
            } else {
                0nat
            }
        }
    }
}

/// A request to start a declared service that is not `Shutdown` is refused
/// with `CannotStartService`, whose cause names the status that stood in the
/// way, and leaves the watchdog, that status included, as it was.
pub proof fn lemma_start_is_refused_unless_shutdown(watchdog: WatchdogView, name: Seq<char>)
    requires
        !watchdog.finished,
        declares(watchdog.services, name),
        !(watchdog.services[slot(watchdog.services, name)].status is Shutdown),
    ensures
        watchdog.reply(ControlCommandView::Start { service_identifier: name }) == Some(
            ReplyView::Start(
                Err(
                    WatchdogErrorView::CannotStartService {
                        service_identifier: name,
                        source: ServiceError::CannotStart {
                            status: watchdog.services[slot(watchdog.services, name)].status,
                        },
                    },
                ),
            ),
        ),
        watchdog.after(ControlCommandView::Start { service_identifier: name }) == watchdog,
{
    assert(after_start(watchdog.services, name) =~= watchdog.services);
}

/// A start is granted exactly to a declared service that is `Shutdown`.
pub proof fn lemma_start_is_granted_from_shutdown(watchdog: WatchdogView, name: Seq<char>)
    requires
        !watchdog.finished,
    ensures
        start_reply(watchdog.services, name) is Ok <==> declares(watchdog.services, name)
            && watchdog.services[slot(watchdog.services, name)].status is Shutdown,
{
}

/// A start that is granted replaces the intercom channel of the service:
/// the receiver of the new channel goes to the activation, the sender that
/// the watchdog hands out from then on is the one of the same channel, and
/// no sender handed out before belongs to it.
pub proof fn lemma_start_replaces_the_channel(watchdog: WatchdogView, name: Seq<char>)
    requires
        !watchdog.finished,
        distinct(watchdog.services),
        declares(watchdog.services, name),
        watchdog.services[slot(watchdog.services, name)].status is Shutdown,
    ensures
        ({
            let start = ControlCommandView::Start { service_identifier: name };
            let before = super::intercom_reply(watchdog.services, name);
            let after = super::intercom_reply(watchdog.after(start).services, name);
            &&& start_reply(watchdog.services, name) is Ok
            &&& before is Ok
            &&& after is Ok
            &&& after->Ok_0.service_identifier == name
            &&& after->Ok_0.channel == start_reply(watchdog.services, name)->Ok_0.channel
            &&& after->Ok_0.channel == before->Ok_0.channel + 1
        }),
{
    let i = slot(watchdog.services, name);
    let after = after_start(watchdog.services, name);
    assert(after[i].identifier == name);
    assert forall|a: int, b: int| 0 <= a < b < after.len() implies (#[trigger] after[a]).identifier
        != (#[trigger] after[b]).identifier by {
        assert(watchdog.services[a].identifier != watchdog.services[b].identifier);
    }
    super::lemma_slot_is_unique(after, name, i);
}

/// Whatever is asked of a service that the aggregate does not declare is
/// answered with `UnknownService`, which names the identifier asked for and
/// lists the identifiers of all declared services, in the order of their
/// declaration; the watchdog stays as it was.
pub proof fn lemma_unknown_service_is_named(watchdog: WatchdogView, name: Seq<char>)
    requires
        !watchdog.finished,
        !declares(watchdog.services, name),
    ensures
        ({
            let unknown = WatchdogErrorView::UnknownService {
                service_identifier: name,
                possible_values: identifiers(watchdog.services),
            };
            &&& watchdog.reply(ControlCommandView::Start { service_identifier: name }) == Some(
                ReplyView::Start(Err(unknown)),
            )
            &&& watchdog.reply(ControlCommandView::Stop { service_identifier: name }) == Some(
                ReplyView::Stop(Err(unknown)),
            )
            &&& watchdog.reply(ControlCommandView::Status { service_identifier: name }) == Some(
                ReplyView::Status(Err(unknown)),
            )
            &&& watchdog.reply(ControlCommandView::Intercom { service_identifier: name }) == Some(
                ReplyView::Intercom(Err(unknown)),
            )
            &&& watchdog.after(ControlCommandView::Start { service_identifier: name }) == watchdog
        }),
{
}

/// A request to stop a service that is `Shutdown` or `ShuttingDown` writes
/// nothing into its control cell: no command reaches a task through it.
pub proof fn lemma_stop_spares_the_stopped(watchdog: WatchdogView, name: Seq<char>)
    requires
        !watchdog.finished,
        declares(watchdog.services, name),
        watchdog.services[slot(watchdog.services, name)].status is Shutdown
            || watchdog.services[slot(watchdog.services, name)].status is ShuttingDown,
    ensures
        watchdog.reply(ControlCommandView::Stop { service_identifier: name }) == Some(
            ReplyView::Stop(Ok(None)),
        ),
{
}

/// `Shutdown` and `Kill` end the watchdog alike, and a watchdog that has
/// ended answers nothing and changes no more.
pub proof fn lemma_shutdown_and_kill_end_alike(watchdog: WatchdogView, command: ControlCommandView)
    ensures
        watchdog.after(ControlCommandView::Shutdown) == watchdog.after(ControlCommandView::Kill),
        watchdog.after(ControlCommandView::Shutdown).finished,
        watchdog.reply(ControlCommandView::Shutdown) is None,
        watchdog.reply(ControlCommandView::Kill) is None,
        watchdog.finished ==> watchdog.reply(command) is None && watchdog.after(command)
            == watchdog,
{
}

/// No event adds, removes, renames or moves a service.
pub proof fn lemma_event_keeps_identifiers(watchdog: WatchdogView, event: WatchdogEvent)
    ensures
        identifiers(watchdog.after_event(event).services) == identifiers(watchdog.services),
{
    let after = watchdog.after_event(event).services;
    assert(after.len() == watchdog.services.len());
    assert forall|i: int| 0 <= i < after.len() implies after[i].identifier
        == watchdog.services[i].identifier by {}
    assert(identifiers(after) =~= identifiers(watchdog.services));
}

/// Services with the same identifiers in the same places are declared, and
/// found, alike.
pub proof fn lemma_same_identifiers_same_slots(
    before: Seq<ServiceManagerView>,
    after: Seq<ServiceManagerView>,
    name: Seq<char>,
)
    requires
        identifiers(after) == identifiers(before),
        distinct(before),
    ensures
        distinct(after),
        declares(after, name) == declares(before, name),
        declares(before, name) ==> slot(after, name) == slot(before, name),
{
    assert(after.len() == identifiers(after).len());
    assert(before.len() == identifiers(before).len());
    assert forall|i: int| 0 <= i < after.len() implies (#[trigger] after[i]).identifier
        == before[i].identifier by {
        assert(identifiers(after)[i] == identifiers(before)[i]);
    }
    assert forall|i: int, j: int| 0 <= i < j < after.len() implies (#[trigger] after[i]).identifier
        != (#[trigger] after[j]).identifier by {
        assert(before[i].identifier != before[j].identifier);
    }
    if declares(before, name) {
        let i = slot(before, name);
        assert(after[i].identifier == name);
        super::lemma_slot_is_unique(after, name, i);
    }
    if declares(after, name) {
        let i = slot(after, name);
        assert(before[i].identifier == name);
    }
}

/// The count of starts of a service grows by one with every start that the
/// watchdog grants it, and by nothing else: after any course of events, it
/// is the count from before plus the number of starts granted on the way.
pub proof fn lemma_restarts_count_granted_starts(
    watchdog: WatchdogView,
    events: Seq<WatchdogEvent>,
    name: Seq<char>,
)
    requires
        distinct(watchdog.services),
        declares(watchdog.services, name),
    ensures
        identifiers(watchdog.after_events(events).services) == identifiers(watchdog.services),
        watchdog.after_events(events).services[slot(watchdog.services, name)].started
            == watchdog.services[slot(watchdog.services, name)].started + watchdog.starts_granted(
            events,
            name,
        ),
    decreases events.len(),
{
    if events.len() > 0 {
        let earlier = events.drop_last();
        let event = events.last();
        lemma_restarts_count_granted_starts(watchdog, earlier, name);
        let before = watchdog.after_events(earlier);
        lemma_event_keeps_identifiers(before, event);
        lemma_same_identifiers_same_slots(watchdog.services, before.services, name);
        let i = slot(watchdog.services, name);
        let after = before.after_event(event);
        match event {
            WatchdogEvent::Command(command) => {
                match command {
                    ControlCommandView::Start { service_identifier } => {
                        if !before.finished && declares(before.services, service_identifier) {
                            lemma_same_identifiers_same_slots(
                                watchdog.services,
                                before.services,
                                service_identifier,
                            );
                            let j = slot(before.services, service_identifier);
                            if j == i {
                                assert(service_identifier == name);
                            } else {
                                assert(before.services[j].identifier != before.services[i].identifier);
                                assert(service_identifier != name);
                            }
                        }
                    },
                    _ => {},
                }
            },
            WatchdogEvent::Observation { service_identifier, status, intercom } => {},
        }
    }
}

/// A manager that has never been started reports as many starts as the
/// watchdog has granted to its service since.
pub proof fn lemma_report_counts_granted_starts(
    watchdog: WatchdogView,
    events: Seq<WatchdogEvent>,
    name: Seq<char>,
)
    requires
        distinct(watchdog.services),
        declares(watchdog.services, name),
        watchdog.services[slot(watchdog.services, name)].started == 0,
        watchdog.starts_granted(events, name) <= u64::MAX,
    ensures
        super::status_reply(watchdog.after_events(events).services, name) matches Ok(report)
            && report.started == watchdog.starts_granted(events, name),
{
    lemma_restarts_count_granted_starts(watchdog, events, name);
    lemma_same_identifiers_same_slots(
        watchdog.services,
        watchdog.after_events(events).services,
        name,
    );
}

} // verus!
