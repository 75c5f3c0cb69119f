//! The intercom: the handle through which one service sends messages to
//! another.
//!
//! The handle keeps whether it holds a sender to the service. A send asks the
//! watchdog for one when it holds none, and asks once more when the sender
//! it held turns out to be disconnected, as it is after the service has
//! restarted. The sends and the questions themselves are the caller's: the
//! handle says what to do next, and is told how it went.

use super::{ManageService, ServiceIdentifier};
use crate::watchdog::{WatchdogError, WatchdogErrorView};
use vstd::prelude::*;

verus! {

/// How many messages an intercom channel holds before its senders wait.
pub const CAPACITY: usize = 10;

/// Where the sender of a send comes from.
#[derive(Clone, Copy, Debug, PartialEq, Eq, Structural)]
pub enum Attempt {
    /// It was held before the send began.
    Cached,
    /// It was asked for as the send began.
    Fetched,
    /// It was asked for after the one that was held failed.
    Refetched,
}

/// The watchdog has been asked for a sender; the answer is awaited.
#[derive(Debug)]
pub struct Fetching {
    /// Whether this is the second question of the send.
    pub retry: bool,
}

/// The message has been handed to a sender; the outcome is awaited.
#[derive(Debug)]
pub struct Sending {
    pub attempt: Attempt,
}

/// What a send has to do next.
#[derive(Debug)]
pub enum IntercomAction {
    /// Ask the watchdog for the current sender of the service.
    Fetch(Fetching),
    /// Hand the message to the sender that is held.
    Send(Sending),
    /// The send is over.
    Done(Result<(), WatchdogError>),
}

/// An `IntercomAction` as specifications see it.
pub enum IntercomActionView {
    Fetch { retry: bool },
    Send { attempt: Attempt },
    Done(Result<(), WatchdogErrorView>),
}

impl View for IntercomAction {
    type V = IntercomActionView;

    open spec fn view(&self) -> IntercomActionView {
        match *self {
            IntercomAction::Fetch(fetching) => IntercomActionView::Fetch { retry: fetching.retry },
            IntercomAction::Send(sending) => IntercomActionView::Send { attempt: sending.attempt },
            IntercomAction::Done(Ok(())) => IntercomActionView::Done(Ok(())),
            IntercomAction::Done(Err(error)) => IntercomActionView::Done(Err(error@)),
        }
    }
}

/// The state of an `Intercom`.
pub struct IntercomView {
    /// The service that the messages go to.
    pub service_identifier: Seq<char>,
    /// Whether a sender is held.
    pub connected: bool,
}

impl IntercomView {
    /// How a send begins: with the sender that is held, or else with a
    /// question to the watchdog.
    pub open spec fn begin(self) -> IntercomActionView {
        if self.connected {
            IntercomActionView::Send { attempt: Attempt::Cached }
        } else {
            IntercomActionView::Fetch { retry: false }
        }
    }

    /// How a send goes on once the watchdog has answered the question
    /// `retry`: with the sender, or to its end with the error of the answer.
    pub open spec fn fetched(self, retry: bool, answer: Result<(), WatchdogErrorView>) -> (
        IntercomView,
        IntercomActionView,
    ) {
        match answer {
            Ok(()) => (
                IntercomView { connected: true, ..self },
                IntercomActionView::Send {
                    attempt: if retry {
                        Attempt::Refetched
                    } else {
                        Attempt::Fetched
                    },
                },
            ),
            Err(error) => (
                IntercomView { connected: false, ..self },
                IntercomActionView::Done(Err(error)),
            ),
        }
    }

    /// How a send goes on once the sender of `attempt` has taken the message
    /// or has reported to be disconnected. A disconnected sender is let go.
    /// If it was held from before, the watchdog is asked once for the
    /// current one; if it had just been asked for, the send fails, and the
    /// error tells whether that was the second sender tried.
    pub open spec fn sent(self, attempt: Attempt, delivered: bool) -> (
        IntercomView,
        IntercomActionView,
    ) {
        if delivered {
            (IntercomView { connected: true, ..self }, IntercomActionView::Done(Ok(())))
        } else {
            (
                IntercomView { connected: false, ..self },
                match attempt {
                    Attempt::Cached => IntercomActionView::Fetch { retry: true },
                    Attempt::Fetched => IntercomActionView::Done(
                        Err(
                            WatchdogErrorView::CannotConnectToService {
                                service_identifier: self.service_identifier,
                                retry_attempted: false,
                            },
                        ),
                    ),
                    Attempt::Refetched => IntercomActionView::Done(
                        Err(
                            WatchdogErrorView::CannotConnectToService {
                                service_identifier: self.service_identifier,
                                retry_attempted: true,
                            },
                        ),
                    ),
                },
            )
        }
    }
}

/// The handle of one service on the intercom of another.
#[derive(Debug)]
pub struct Intercom {
    service_identifier: ServiceIdentifier,
    connected: bool,
}

impl View for Intercom {
    type V = IntercomView;

    closed spec fn view(&self) -> IntercomView {
        IntercomView { service_identifier: self.service_identifier@, connected: self.connected }
    }
}

impl Intercom {
    /// A handle on the intercom of the service `T`. It holds no sender yet.
    pub fn new<T: ManageService>() -> (intercom: Self)
        ensures
            intercom@ == (IntercomView {
                service_identifier: T::SERVICE_IDENTIFIER@,
                connected: false,
            }),
    {
        Self { service_identifier: T::SERVICE_IDENTIFIER, connected: false }
    }

    pub fn service_identifier(&self) -> (service_identifier: ServiceIdentifier)
        ensures
            service_identifier@ == self@.service_identifier,
    {
        self.service_identifier
    }

    /// Whether a sender is held.
    pub fn is_connected(&self) -> (connected: bool)
        ensures
            connected == self@.connected,
    {
        self.connected
    }

    /// Begins a send.
    pub fn send(&self) -> (action: IntercomAction)
        ensures
            action@ == self@.begin(),
    {
        if self.connected {
            IntercomAction::Send(Sending { attempt: Attempt::Cached })
        } else {
            IntercomAction::Fetch(Fetching { retry: false })
        }
    }

    /// Goes on with a send once the watchdog has answered: with `Ok` if the
    /// caller now holds the sender, with the error of the watchdog if not.
    pub fn fetched(&mut self, fetching: Fetching, answer: Result<(), WatchdogError>) -> (action:
        IntercomAction)
        ensures
            answer is Ok ==> (final(self)@, action@) == old(self)@.fetched(
                fetching.retry,
                Ok::<(), WatchdogErrorView>(()),
            ),
            answer matches Err(error) ==> (final(self)@, action@) == old(self)@.fetched(
                fetching.retry,
                Err::<(), WatchdogErrorView>(error@),
            ),
    {
        match answer {
            Ok(()) => {
                self.connected = true;
                let attempt = if fetching.retry {
                    Attempt::Refetched
                } else {
                    Attempt::Fetched
                };
                IntercomAction::Send(Sending { attempt })
            },
            Err(error) => {
                self.connected = false;
                IntercomAction::Done(Err(error))
            },
        }
    }

    /// Goes on with a send once the sender has taken the message
    /// (`delivered`) or has reported to be disconnected.
    pub fn sent(&mut self, sending: Sending, delivered: bool) -> (action: IntercomAction)
        ensures
            (final(self)@, action@) == old(self)@.sent(sending.attempt, delivered),
    {
        if delivered {
            self.connected = true;
            IntercomAction::Done(Ok(()))
        } else {
            self.connected = false;
            match sending.attempt {
                Attempt::Cached => IntercomAction::Fetch(Fetching { retry: true }),
                Attempt::Fetched => IntercomAction::Done(
                    Err(
                        WatchdogError::CannotConnectToService {
                            service_identifier: self.service_identifier,
                            retry_attempted: false,
                        },
                    ),
                ),
                Attempt::Refetched => IntercomAction::Done(
                    Err(
                        WatchdogError::CannotConnectToService {
                            service_identifier: self.service_identifier,
                            retry_attempted: true,
                        },
                    ),
                ),
            }
        }
    }
}

/// When the service behind an intercom that holds a sender has restarted,
/// that sender is disconnected. The next send then asks the watchdog once
/// for the current sender, and, if the watchdog hands one out, either
/// delivers the message through it or fails with `CannotConnectToService`
/// and `retry_attempted: true`.
pub proof fn lemma_reconnects_once(intercom: IntercomView, delivered: bool)
    requires
        intercom.connected,
    ensures
        ({
            let first = intercom.begin();
            let (dropped, second) = intercom.sent(Attempt::Cached, false);
            let (reconnected, third) = dropped.fetched(true, Ok(()));
            let (last, outcome) = reconnected.sent(Attempt::Refetched, delivered);
            &&& first == (IntercomActionView::Send { attempt: Attempt::Cached })
            &&& second == (IntercomActionView::Fetch { retry: true })
            &&& third == (IntercomActionView::Send { attempt: Attempt::Refetched })
            &&& delivered ==> outcome == IntercomActionView::Done(Ok(()))
            &&& !delivered ==> outcome == IntercomActionView::Done(
                Err(
                    WatchdogErrorView::CannotConnectToService {
                        service_identifier: intercom.service_identifier,
                        retry_attempted: true,
                    },
                ),
            )
            &&& last.connected == delivered
            &&& last.service_identifier == intercom.service_identifier
        }),
{
}

/// One step of a send: the answer to the action `pending`, where a question
/// is answered by `answer` and a sender reports `delivered`. A send that is
/// over stays so.
pub open spec fn step(
    intercom: IntercomView,
    pending: IntercomActionView,
    answer: Result<(), WatchdogErrorView>,
    delivered: bool,
) -> (IntercomView, IntercomActionView) {
    match pending {
        IntercomActionView::Fetch { retry } => intercom.fetched(retry, answer),
        IntercomActionView::Send { attempt } => intercom.sent(attempt, delivered),
        IntercomActionView::Done(_) => (intercom, pending),
    }
}

/// A send asks the watchdog at most twice and tries at most two senders:
/// whatever the answers and the senders say, it is over after three steps.
pub proof fn lemma_send_is_bounded(
    intercom: IntercomView,
    answers: Seq<Result<(), WatchdogErrorView>>,
    delivered: Seq<bool>,
)
    requires
        answers.len() == 3,
        delivered.len() == 3,
    ensures
        ({
            let (after_one, one) = step(intercom, intercom.begin(), answers[0], delivered[0]);
            let (after_two, two) = step(after_one, one, answers[1], delivered[1]);
            let (after_three, three) = step(after_two, two, answers[2], delivered[2]);
            three is Done
        }),
{
}

} // verus!
