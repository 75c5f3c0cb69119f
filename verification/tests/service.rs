use organix::runtime::RuntimeConfig;
use organix::service::{
    Control, IntercomSender, IntercomStatus, ServiceError, Status, WatcherEvent, WatcherStep,
};
use organix::ServiceManager;

fn counters(sent: u64, received: u64, connections: u64) -> IntercomStatus {
    IntercomStatus {
        number_sent: sent,
        number_received: received,
        number_connections: connections,
    }
}

fn manager() -> ServiceManager {
    ServiceManager::with_runtime("heart-beat", &RuntimeConfig::shared(), 10)
}

#[test]
fn manager_starts_shutdown_and_never_started() {
    let manager = manager();
    assert_eq!(manager.identifier(), "heart-beat");
    assert_eq!(manager.runtime_name(), "shared");
    assert_eq!(manager.started(), 0);
    let report = manager.status();
    assert_eq!(report.identifier, "heart-beat");
    assert_eq!(report.status, Status::shutdown(10));
    assert_eq!(report.intercom, counters(0, 0, 0));
    assert_eq!(report.started, 0);
    assert_eq!(
        manager.intercom(),
        IntercomSender {
            service_identifier: "heart-beat",
            channel: 0
        }
    );
}

#[test]
fn manager_reports_what_it_observed() {
    let mut manager = manager();
    manager.observe(Status::started(20), counters(7, 5, 2));
    let report = manager.status();
    assert_eq!(report.status, Status::started(20));
    assert_eq!(report.intercom, counters(7, 5, 2));
    assert_eq!(report.started, 0);
}

#[test]
fn manager_shutdown_reaches_only_what_runs() {
    let mut manager = manager();
    assert_eq!(manager.shutdown(), None);
    manager.observe(Status::starting(1), counters(0, 0, 0));
    assert_eq!(manager.shutdown(), Some(Control::Shutdown));
    manager.observe(Status::started(2), counters(0, 0, 0));
    assert_eq!(manager.shutdown(), Some(Control::Shutdown));
    manager.observe(Status::shutting_down(3), counters(0, 0, 0));
    assert_eq!(manager.shutdown(), None);
    manager.observe(Status::shutdown(4), counters(0, 0, 0));
    assert_eq!(manager.shutdown(), None);
}

#[test]
fn manager_let_go_kills_what_is_not_shutdown() {
    let mut manager = manager();
    assert_eq!(manager.on_drop(), None);
    for status in [
        Status::starting(1),
        Status::started(2),
        Status::shutting_down(3),
    ] {
        manager.observe(status, counters(0, 0, 0));
        assert_eq!(manager.on_drop(), Some(Control::Kill));
    }
}

#[test]
fn manager_refuses_to_start_unless_shutdown() {
    for status in [
        Status::starting(1),
        Status::started(2),
        Status::shutting_down(3),
    ] {
        let mut manager = manager();
        manager.observe(status, counters(3, 2, 1));
        match manager.runtime() {
            Err(error) => assert_eq!(error, ServiceError::CannotStart { status }),
            Ok(_) => panic!("started from {:?}", status),
        }
        // nothing has changed
        let report = manager.status();
        assert_eq!(report.status, status);
        assert_eq!(report.intercom, counters(3, 2, 1));
        assert_eq!(report.started, 0);
        assert_eq!(manager.intercom().channel, 0);
    }
}

#[test]
fn manager_counts_each_granted_start() {
    let mut manager = manager();
    for n in 1..=5u64 {
        manager.observe(Status::shutdown(n), counters(n, n, 1));
        let activation = manager.runtime().expect("granted");
        assert_eq!(activation.identifier(), "heart-beat");
        assert_eq!(manager.started(), n);
        assert_eq!(manager.status().started, n);
        // the channel is replaced, and its counters are new
        assert_eq!(manager.intercom().channel, n);
        assert_eq!(manager.status().intercom, counters(0, 0, 0));
        let launch = activation.start(n);
        assert_eq!(launch.channel(), n);
        // a start that is refused in between does not count
        manager.observe(launch.current(), counters(0, 0, 1));
        assert!(manager.runtime().is_err());
        assert_eq!(manager.started(), n);
    }
}

fn step(publish: Option<Status>, abort: bool, exit: bool, report_failure: bool) -> WatcherStep {
    WatcherStep {
        publish,
        abort,
        exit,
        report_failure,
    }
}

fn watcher() -> organix::service::Watcher {
    let mut manager = manager();
    let launch = manager.runtime().expect("granted").start(100);
    assert_eq!(launch.identifier(), "heart-beat");
    assert_eq!(launch.runtime_name(), "shared");
    assert_eq!(launch.current(), Status::starting(100));
    let watcher = launch.watch(101);
    assert_eq!(watcher.identifier(), "heart-beat");
    assert_eq!(watcher.current(), Status::started(101));
    watcher
}

#[test]
fn watcher_marks_shutdown_when_the_task_ends() {
    let mut watcher = watcher();
    assert_eq!(
        watcher.react(WatcherEvent::Finished { failed: false }, 200),
        step(Some(Status::shutdown(200)), false, true, false)
    );
    assert_eq!(watcher.current(), Status::shutdown(200));
}

#[test]
fn watcher_reports_a_task_that_failed() {
    let mut watcher = self::watcher();
    assert_eq!(
        watcher.react(WatcherEvent::Finished { failed: true }, 200),
        step(Some(Status::shutdown(200)), false, true, true)
    );
}

#[test]
fn watcher_shuts_down_gracefully() {
    let mut watcher = self::watcher();
    assert_eq!(
        watcher.react(WatcherEvent::Control(Some(Control::Shutdown)), 200),
        step(Some(Status::shutting_down(200)), false, false, false)
    );
    assert_eq!(watcher.current(), Status::shutting_down(200));
    // a second request changes nothing
    assert_eq!(
        watcher.react(WatcherEvent::Control(Some(Control::Shutdown)), 210),
        step(None, false, false, false)
    );
    assert_eq!(watcher.current(), Status::shutting_down(200));
    // the service finishes by itself
    assert_eq!(
        watcher.react(WatcherEvent::Finished { failed: false }, 220),
        step(Some(Status::shutdown(220)), false, true, false)
    );
}

#[test]
fn watcher_kills_on_kill_and_on_a_lost_supervisor() {
    for received in [Some(Control::Kill), None] {
        let mut watcher = self::watcher();
        assert_eq!(
            watcher.react(WatcherEvent::Control(received), 200),
            step(Some(Status::shutdown(200)), true, true, false)
        );
        assert_eq!(watcher.current(), Status::shutdown(200));

        let mut watcher = self::watcher();
        watcher.react(WatcherEvent::Control(Some(Control::Shutdown)), 150);
        assert_eq!(
            watcher.react(WatcherEvent::Control(received), 200),
            step(Some(Status::shutdown(200)), true, true, false)
        );
    }
}

#[test]
fn watcher_does_nothing_once_shutdown() {
    let mut watcher = self::watcher();
    watcher.react(WatcherEvent::Finished { failed: false }, 200);
    for event in [
        WatcherEvent::Finished { failed: true },
        WatcherEvent::Control(Some(Control::Shutdown)),
        WatcherEvent::Control(Some(Control::Kill)),
        WatcherEvent::Control(None),
    ] {
        assert_eq!(watcher.react(event, 300), step(None, false, true, false));
        assert_eq!(watcher.current(), Status::shutdown(200));
    }
}

#[test]
fn watcher_publishes_along_the_lifecycle_graph() {
    let events = [
        WatcherEvent::Control(Some(Control::Shutdown)),
        WatcherEvent::Control(Some(Control::Shutdown)),
        WatcherEvent::Control(Some(Control::Kill)),
        WatcherEvent::Finished { failed: false },
    ];
    let mut watcher = self::watcher();
    let mut now = 200;
    for event in events {
        let before = watcher.current();
        let step = watcher.react(event, now);
        if let Some(next) = step.publish {
            assert!(before.can_become(&next));
            assert_eq!(watcher.current(), next);
        } else {
            assert_eq!(watcher.current(), before);
        }
        assert_eq!(step.exit, watcher.current().is_shutdown());
        now += 1;
    }
}
