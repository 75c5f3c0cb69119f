//! The lifecycle status of a service.

use vstd::prelude::*;

verus! {

/// Where a service stands in its lifecycle, and since when.
///
/// `since` is a wall-clock reading handed in by whoever records the
/// transition; the library stores it and never interprets it.
#[derive(Clone, Copy, Debug, PartialEq, Eq, Structural)]
pub enum Status {
    /// No activation is running.
    Shutdown { since: u64 },
    /// An activation has been requested and the service is being prepared.
    Starting { since: u64 },
    /// The service task runs and its watcher listens for commands.
    Started { since: u64 },
    /// A graceful stop was requested; the service task is expected to finish.
    ShuttingDown { since: u64 },
}

impl Status {
    /// The edges of the lifecycle graph:
    /// `Shutdown → Starting → Started → ShuttingDown → Shutdown`, and the
    /// direct edges `Starting → Shutdown` and `Started → Shutdown` taken when
    /// the service task ends or is killed.
    pub open spec fn may_become(self, next: Status) -> bool {
        match self {
            Status::Shutdown { .. } => next is Starting,
            Status::Starting { .. } => next is Started || next is Shutdown,
            Status::Started { .. } => next is ShuttingDown || next is Shutdown,
            Status::ShuttingDown { .. } => next is Shutdown,
        }
    }

    /// The moment the status was entered.
    pub open spec fn spec_since(&self) -> u64 {
        match *self {
            Status::Shutdown { since } => since,
            Status::Starting { since } => since,
            Status::Started { since } => since,
            Status::ShuttingDown { since } => since,
        }
    }

    pub fn shutdown(since: u64) -> (status: Status)
        ensures
            status == (Status::Shutdown { since }),
    {
        Status::Shutdown { since }
    }

    pub fn starting(since: u64) -> (status: Status)
        ensures
            status == (Status::Starting { since }),
    {
        Status::Starting { since }
    }

    pub fn started(since: u64) -> (status: Status)
        ensures
            status == (Status::Started { since }),
    {
        Status::Started { since }
    }

    pub fn shutting_down(since: u64) -> (status: Status)
        ensures
            status == (Status::ShuttingDown { since }),
    {
        Status::ShuttingDown { since }
    }

    pub fn is_shutdown(&self) -> (yes: bool)
        ensures
            yes == (*self is Shutdown),
    {
        match self {
            Status::Shutdown { .. } => true,
            _ => false,
        }
    }

    pub fn is_starting(&self) -> (yes: bool)
        ensures
            yes == (*self is Starting),
    {
        match self {
            Status::Starting { .. } => true,
            _ => false,
        }
    }

    pub fn is_started(&self) -> (yes: bool)
        ensures
            yes == (*self is Started),
    {
        match self {
            Status::Started { .. } => true,
            _ => false,
        }
    }

    pub fn is_shutting_down(&self) -> (yes: bool)
        ensures
            yes == (*self is ShuttingDown),
    {
        match self {
            Status::ShuttingDown { .. } => true,
            _ => false,
        }
    }

    #[verifier::when_used_as_spec(spec_since)]
    pub fn since(&self) -> (since: u64)
        ensures
            since == self.spec_since(),
    {
        match self {
            Status::Shutdown { since } => *since,
            Status::Starting { since } => *since,
            Status::Started { since } => *since,
            Status::ShuttingDown { since } => *since,
        }
    }

    /// Whether `next` may directly follow `self` in the lifecycle graph.
    pub fn can_become(&self, next: &Status) -> (yes: bool)
        ensures
            yes == self.may_become(*next),
    {
        match self {
            Status::Shutdown { .. } => next.is_starting(),
            Status::Starting { .. } => next.is_started() || next.is_shutdown(),
            Status::Started { .. } => next.is_shutting_down() || next.is_shutdown(),
            Status::ShuttingDown { .. } => next.is_shutdown(),
        }
    }
}

} // verus!
