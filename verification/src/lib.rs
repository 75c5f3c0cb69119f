//! The decision core of a service supervisor.
//!
//! An application is an aggregate of services. Each one is started, observed
//! and stopped under the direction of a watchdog, and receives typed messages
//! from the others through its intercom. This crate holds the rules of that
//! supervision as plain state machines: they read no clock, spawn no task and
//! wait for nothing. A driver feeds them events and carries out the actions
//! they answer with.
//!
//! * [`service`] has the lifecycle of a service: its [`service::Status`], the
//!   control cell, the bookkeeping of its [`ServiceManager`], the watcher of
//!   one activation, the intercom handle and the counters of a channel.
//! * [`watchdog`] has the aggregate, [`Organix`], which finds a service by
//!   its name, and the supervisor, [`Watchdog`], which answers one command
//!   at a time; [`watchdog::history`] states what holds over a whole run.
//! * [`runtime`] describes the pools that the services run on.
//! * [`derive`] reads the declaration of an aggregate and its `runtime`
//!   attributes, and says what is generated for it.

pub mod derive;
pub mod runtime;
pub mod service;
pub mod text;
pub mod watchdog;

pub use service::{ManageService, ServiceIdentifier, ServiceManager, ServiceState};
pub use watchdog::{Organix, Watchdog, WatchdogError, WatchdogQuery};
