//! The commands of the watchdog, and the queries that post them.

use super::{WatchdogError, WatchdogErrorView};
use crate::service::{
    ActivationView, Control, Intercom, IntercomSender, IntercomSenderView, IntercomView,
    ManageService, ServiceIdentifier, ServiceRuntime, StatusReport, StatusReportView,
};
use vstd::prelude::*;
use vstd::string::StringExecFns;

verus! {

/// How many commands the queue of the watchdog holds before those who post
/// them wait.
pub const QUEUE_CAPACITY: usize = 10;

/// A command on the queue of the watchdog.
#[derive(Clone, Copy, Debug, PartialEq, Eq)]
pub enum ControlCommand {
    Shutdown,
    Kill,
    Start { service_identifier: ServiceIdentifier },
    Stop { service_identifier: ServiceIdentifier },
    Intercom { service_identifier: ServiceIdentifier },
    Status { service_identifier: ServiceIdentifier },
}

/// A `ControlCommand` with its identifier as a sequence of characters.
pub enum ControlCommandView {
    Shutdown,
    Kill,
    Start { service_identifier: Seq<char> },
    Stop { service_identifier: Seq<char> },
    Intercom { service_identifier: Seq<char> },
    Status { service_identifier: Seq<char> },
}

impl View for ControlCommand {
    type V = ControlCommandView;

    open spec fn view(&self) -> ControlCommandView {
        match *self {
            ControlCommand::Shutdown => ControlCommandView::Shutdown,
            ControlCommand::Kill => ControlCommandView::Kill,
            ControlCommand::Start { service_identifier } => ControlCommandView::Start {
                service_identifier: service_identifier@,
            },
            ControlCommand::Stop { service_identifier } => ControlCommandView::Stop {
                service_identifier: service_identifier@,
            },
            ControlCommand::Intercom { service_identifier } => ControlCommandView::Intercom {
                service_identifier: service_identifier@,
            },
            ControlCommand::Status { service_identifier } => ControlCommandView::Status {
                service_identifier: service_identifier@,
            },
        }
    }
}

impl ControlCommandView {
    /// Whether the command ends the watchdog.
    pub open spec fn is_final(self) -> bool {
        self is Shutdown || self is Kill
    }

    /// The command in words.
    pub open spec fn described(self) -> Seq<char> {
        match self {
            ControlCommandView::Shutdown => "shutdown"@,
            ControlCommandView::Kill => "kill"@,
            ControlCommandView::Start { service_identifier } => "start service '"@
                + service_identifier + "'"@,
            ControlCommandView::Stop { service_identifier } => "stop service '"@
                + service_identifier + "'"@,
            ControlCommandView::Status { service_identifier } => "get status of service '"@
                + service_identifier + "'"@,
            ControlCommandView::Intercom { service_identifier } => "get intercom with service '"@
                + service_identifier + "'"@,
        }
    }
}

/// `opening`, then `service_identifier` between single quotes.
fn quoted(opening: &str, service_identifier: &str) -> (text: String)
    ensures
        text@ == opening@ + service_identifier@ + "'"@,
{
    let mut text = String::from_str(opening);
    text.append(service_identifier);
    text.append("'");
    text
}

impl ControlCommand {
    /// Whether the command ends the watchdog.
    pub fn is_final(&self) -> (yes: bool)
        ensures
            yes == self@.is_final(),
    {
        match self {
            ControlCommand::Shutdown | ControlCommand::Kill => true,
            _ => false,
        }
    }

    /// The command in words, as a log would have it.
    pub fn describe(&self) -> (text: String)
        ensures
            text@ == self@.described(),
    {
        match self {
            ControlCommand::Shutdown => String::from_str("shutdown"),
            ControlCommand::Kill => String::from_str("kill"),
            ControlCommand::Start { service_identifier } => quoted(
                "start service '",
                service_identifier,
            ),
            ControlCommand::Stop { service_identifier } => quoted(
                "stop service '",
                service_identifier,
            ),
            ControlCommand::Status { service_identifier } => quoted(
                "get status of service '",
                service_identifier,
            ),
            ControlCommand::Intercom { service_identifier } => quoted(
                "get intercom with service '",
                service_identifier,
            ),
        }
    }

    /// The service that the command is addressed to, if it is addressed to
    /// one.
    pub fn service_identifier(&self) -> (addressed: Option<ServiceIdentifier>)
        ensures
            addressed is None <==> self@.is_final(),
            addressed matches Some(name) ==> match self@ {
                ControlCommandView::Start { service_identifier } => service_identifier == name@,
                ControlCommandView::Stop { service_identifier } => service_identifier == name@,
                ControlCommandView::Intercom { service_identifier } => service_identifier == name@,
                ControlCommandView::Status { service_identifier } => service_identifier == name@,
                _ => false,
            },
    {
        match self {
            ControlCommand::Shutdown | ControlCommand::Kill => None,
            ControlCommand::Start { service_identifier } => Some(*service_identifier),
            ControlCommand::Stop { service_identifier } => Some(*service_identifier),
            ControlCommand::Intercom { service_identifier } => Some(*service_identifier),
            ControlCommand::Status { service_identifier } => Some(*service_identifier),
        }
    }
}

/// The answer of the watchdog to a command that is addressed to a service.
#[derive(Debug)]
pub enum Reply {
    /// The activation to start, for a start that was granted.
    Start(Result<ServiceRuntime, WatchdogError>),
    /// The command to write into the control cell of the service, if any.
    Stop(Result<Option<Control>, WatchdogError>),
    /// The sending end that is to be cloned for the asker.
    Intercom(Result<IntercomSender, WatchdogError>),
    Status(Result<StatusReport, WatchdogError>),
}

/// A `Reply` as specifications see it.
pub enum ReplyView {
    Start(Result<ActivationView, WatchdogErrorView>),
    Stop(Result<Option<Control>, WatchdogErrorView>),
    Intercom(Result<IntercomSenderView, WatchdogErrorView>),
    Status(Result<StatusReportView, WatchdogErrorView>),
}

impl View for Reply {
    type V = ReplyView;

    open spec fn view(&self) -> ReplyView {
        match *self {
            Reply::Start(Ok(activation)) => ReplyView::Start(Ok(activation@)),
            Reply::Start(Err(error)) => ReplyView::Start(Err(error@)),
            Reply::Stop(Ok(command)) => ReplyView::Stop(Ok(command)),
            Reply::Stop(Err(error)) => ReplyView::Stop(Err(error@)),
            Reply::Intercom(Ok(sender)) => ReplyView::Intercom(Ok(sender@)),
            Reply::Intercom(Err(error)) => ReplyView::Intercom(Err(error@)),
            Reply::Status(Ok(report)) => ReplyView::Status(Ok(report@)),
            Reply::Status(Err(error)) => ReplyView::Status(Err(error@)),
        }
    }
}

/// A command that waits for its answer.
#[derive(Clone, Copy, Debug, PartialEq, Eq)]
pub struct Query {
    command: ControlCommand,
    context: &'static str,
}

impl Query {
    /// The command to post.
    pub closed spec fn spec_command(&self) -> ControlCommand {
        self.command
    }

    /// The words by which a missing answer names the query.
    pub closed spec fn spec_context(&self) -> &'static str {
        self.context
    }

    #[verifier::when_used_as_spec(spec_command)]
    pub fn command(&self) -> (command: ControlCommand)
        ensures
            command == self.spec_command(),
    {
        self.command
    }

    #[verifier::when_used_as_spec(spec_context)]
    pub fn context(&self) -> (context: &'static str)
        ensures
            context == self.spec_context(),
    {
        self.context
    }

    /// Settles the query with what came back. `received` is `None` where the
    /// command could not be posted or its answer never came: that is
    /// reported as `NoReply`, under the words of the query.
    pub fn settle<T>(self, received: Option<Result<T, WatchdogError>>) -> (answer: Result<
        T,
        WatchdogError,
    >)
        ensures
            received matches Some(reply) ==> answer == reply,
            received is None ==> (answer matches Err(error) && error@ == (
            WatchdogErrorView::NoReply { context: self.context()@ })),
    {
        match received {
            Some(reply) => reply,
            None => Err(WatchdogError::NoReply { context: self.context }),
        }
    }
}

/// The queries that a client of the watchdog can make. A service is named by
/// its type.
#[derive(Clone, Copy, Debug)]
pub struct WatchdogQuery;

impl WatchdogQuery {
    pub fn new() -> Self {
        WatchdogQuery
    }

    /// Asks for the status report of the service `T`.
    pub fn status<T: ManageService>(&self) -> (query: Query)
        ensures
            query.command()@ == (ControlCommandView::Status {
                service_identifier: T::SERVICE_IDENTIFIER@,
            }),
            query.context()@ == "status query"@,
    {
        Query {
            command: ControlCommand::Status { service_identifier: T::SERVICE_IDENTIFIER },
            context: "status query",
        }
    }

    /// Asks the watchdog to start the service `T`.
    pub fn start<T: ManageService>(&self) -> (query: Query)
        ensures
            query.command()@ == (ControlCommandView::Start {
                service_identifier: T::SERVICE_IDENTIFIER@,
            }),
            query.context()@ == "start query"@,
    {
        Query {
            command: ControlCommand::Start { service_identifier: T::SERVICE_IDENTIFIER },
            context: "start query",
        }
    }

    /// Asks the watchdog to stop the service `T`.
    pub fn stop<T: ManageService>(&self) -> (query: Query)
        ensures
            query.command()@ == (ControlCommandView::Stop {
                service_identifier: T::SERVICE_IDENTIFIER@,
            }),
            query.context()@ == "stop query"@,
    {
        Query {
            command: ControlCommand::Stop { service_identifier: T::SERVICE_IDENTIFIER },
            context: "stop query",
        }
    }

    /// Asks the watchdog for the current sender of the service `T`.
    pub fn sender<T: ManageService>(&self) -> (query: Query)
        ensures
            query.command()@ == (ControlCommandView::Intercom {
                service_identifier: T::SERVICE_IDENTIFIER@,
            }),
            query.context()@ == "intercom query"@,
    {
        Query {
            command: ControlCommand::Intercom { service_identifier: T::SERVICE_IDENTIFIER },
            context: "intercom query",
        }
    }

    /// A handle on the intercom of the service `T`.
    pub fn intercom<T: ManageService>(&self) -> (intercom: Intercom)
        ensures
            intercom@ == (IntercomView {
                service_identifier: T::SERVICE_IDENTIFIER@,
                connected: false,
            }),
    {
        Intercom::new::<T>()
    }

    /// The command that shuts the watchdog down. No answer is waited for.
    pub fn shutdown(&self) -> (command: ControlCommand)
        ensures
            command@ == ControlCommandView::Shutdown,
    {
        ControlCommand::Shutdown
    }

    /// The command that kills the watchdog. No answer is waited for.
    pub fn kill(&self) -> (command: ControlCommand)
        ensures
            command@ == ControlCommandView::Kill,
    {
        ControlCommand::Kill
    }
}

} // verus!
