use organix::watchdog::{ControlCommand, Organix, Reply, Watchdog, WatchdogError, WatchdogQuery};
use organix::{ManageService, ServiceIdentifier};

struct Unregistered;

impl ManageService for Unregistered {
    const SERVICE_IDENTIFIER: ServiceIdentifier = "unregistered";

    type IntercomMsg = organix::service::NoIntercom;
}

/// the watchdog ends on the shutdown command of the controller
#[test]
fn start_shutdown_watchdog() {
    let mut watchdog = Watchdog::new(Organix::new());
    let controller = WatchdogQuery::new();

    assert!(!watchdog.is_finished());
    assert!(watchdog.watchdog(controller.shutdown()).is_none());
    assert!(watchdog.is_finished());
}

/// the watchdog ends on the kill command of the controller
#[test]
fn start_kill_watchdog() {
    let mut watchdog = Watchdog::new(Organix::new());
    let controller = WatchdogQuery::new();

    assert!(!watchdog.is_finished());
    assert!(watchdog.watchdog(controller.kill()).is_none());
    assert!(watchdog.is_finished());
}

/// starting an unknown service fails, and the error is reported back to
/// whoever asked
#[test]
fn start_unknown_service() {
    let mut watchdog = Watchdog::new(Organix::new());
    let controller = WatchdogQuery::new();

    let query = controller.start::<Unregistered>();
    assert_eq!(
        query.command(),
        ControlCommand::Start {
            service_identifier: "unregistered"
        }
    );
    let reply = match watchdog.watchdog(query.command()) {
        Some(Reply::Start(reply)) => reply.map(|_| ()),
        other => panic!("unexpected answer: {:?}", other),
    };
    assert_eq!(
        query.settle(Some(reply)),
        Err(WatchdogError::UnknownService {
            service_identifier: "unregistered",
            possible_values: vec![],
        })
    );
    assert!(!watchdog.is_finished());

    assert!(watchdog.watchdog(controller.kill()).is_none());
    assert!(watchdog.is_finished());
}
