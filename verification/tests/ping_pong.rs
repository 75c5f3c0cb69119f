//! a ping and a pong service that send each other messages in turn, to see
//! how starting, the intercom and the shutdown work together

use organix::runtime::Runtimes;
use organix::service::{
    Control, Intercom, IntercomAction, IntercomEvent, IntercomMsg, IntercomStats, Launch, Status,
    Watcher, WatcherEvent,
};
use organix::watchdog::{ControlCommand, Organix, Reply, Watchdog, WatchdogQuery};
use organix::{ManageService, ServiceIdentifier, ServiceManager};
use std::collections::VecDeque;

struct Ping;
struct Pong;

#[derive(Debug)]
struct PingMsg;
#[derive(Debug)]
struct PongMsg;

impl IntercomMsg for PingMsg {}
impl IntercomMsg for PongMsg {}

impl ManageService for Ping {
    const SERVICE_IDENTIFIER: ServiceIdentifier = "ping";

    type IntercomMsg = PingMsg;
}

impl ManageService for Pong {
    const SERVICE_IDENTIFIER: ServiceIdentifier = "pong";

    type IntercomMsg = PongMsg;
}

/// one end of the test: what the driver keeps for a running service
struct Running {
    watcher: Watcher,
    stats: IntercomStats,
    channel: u64,
    queue: VecDeque<u64>,
}

fn launch(watchdog: &mut Watchdog, query: organix::watchdog::Query, now: u64) -> Running {
    let reply = match watchdog.watchdog(query.command()) {
        Some(Reply::Start(reply)) => reply,
        other => panic!("unexpected answer: {:?}", other),
    };
    let activation = reply.expect("the service starts");
    let name = activation.identifier();
    let launch: Launch = activation.start(now);
    assert_eq!(launch.current(), Status::starting(now));
    let state = launch.service_state();
    assert_eq!(state.identifier(), name);
    assert_eq!(state.runtime_name(), "shared");
    assert_eq!(state.channel(), 1);
    let channel = launch.channel();
    let mut stats = IntercomStats::new();
    stats.record(IntercomEvent::Connected);
    let watcher = launch.watch(now + 1);
    assert_eq!(watcher.current(), Status::started(now + 1));
    assert!(watchdog.observe(name, watcher.current(), stats.status()));
    Running {
        watcher,
        stats,
        channel,
        queue: VecDeque::new(),
    }
}

/// sends one message through `intercom` to `target`, asking the watchdog
/// for the sender where the handle says so
fn send(
    intercom: &mut Intercom,
    watchdog: &mut Watchdog,
    target: &mut Running,
    message: u64,
) -> Result<(), organix::WatchdogError> {
    let mut held: Option<u64> = if intercom.is_connected() {
        Some(target.channel)
    } else {
        None
    };
    let mut action = intercom.send();
    loop {
        action = match action {
            IntercomAction::Fetch(fetching) => {
                let command = ControlCommand::Intercom {
                    service_identifier: intercom.service_identifier(),
                };
                let answer = match watchdog.watchdog(command) {
                    Some(Reply::Intercom(Ok(sender))) => {
                        held = Some(sender.channel);
                        Ok(())
                    }
                    Some(Reply::Intercom(Err(error))) => Err(error),
                    other => panic!("unexpected answer: {:?}", other),
                };
                intercom.fetched(fetching, answer)
            }
            IntercomAction::Send(sending) => {
                let delivered =
                    held == Some(target.channel) && !target.watcher.current().is_shutdown();
                if delivered {
                    target.queue.push_back(message);
                    target.stats.record(IntercomEvent::Sent);
                }
                intercom.sent(sending, delivered)
            }
            IntercomAction::Done(result) => return result,
        }
    }
}

fn recv(running: &mut Running) -> Option<u64> {
    let message = running.queue.pop_front();
    if message.is_some() {
        running.stats.record(IntercomEvent::Received);
    }
    message
}

/// both services start once, exchange their messages in order, and are
/// down when the watchdog has ended
#[test]
fn ping_pong() {
    let mut runtimes = Runtimes::new();
    let mut services = Organix::new();
    // the aggregate is shared by default; `ping` asks for time keeping,
    // which the shared pool has anyway
    let ping_pool = runtimes.assign("ping", true, false, true);
    let pong_pool = runtimes.assign("pong", true, false, false);
    assert!(services.add(ServiceManager::with_runtime("ping", &ping_pool, 0)));
    assert!(services.add(ServiceManager::with_runtime("pong", &pong_pool, 0)));
    assert_eq!(services.possible_values(), vec!["ping", "pong"]);
    assert!(runtimes.individual("ping").is_none());

    let mut watchdog = Watchdog::new(services);
    let controller = WatchdogQuery::new();

    let mut ping = launch(&mut watchdog, controller.start::<Ping>(), 100);
    let mut pong = launch(&mut watchdog, controller.start::<Pong>(), 110);

    let mut to_ping = controller.intercom::<Ping>();
    let mut to_pong = controller.intercom::<Pong>();

    // pong opens, then each answers what it receives
    send(&mut to_ping, &mut watchdog, &mut ping, 0).unwrap();
    let mut received_by_ping = Vec::new();
    let mut received_by_pong = Vec::new();
    for _ in 0..4 {
        let message = recv(&mut ping).expect("a ping");
        received_by_ping.push(message);
        send(&mut to_pong, &mut watchdog, &mut pong, message + 1).unwrap();
        let message = recv(&mut pong).expect("a pong");
        received_by_pong.push(message);
        send(&mut to_ping, &mut watchdog, &mut ping, message + 1).unwrap();
    }
    assert_eq!(received_by_ping, vec![0, 2, 4, 6]);
    assert_eq!(received_by_pong, vec![1, 3, 5, 7]);
    assert!(received_by_ping.len() >= 3 && received_by_ping.len() <= 9);
    assert!(received_by_pong.len() >= 3 && received_by_pong.len() <= 9);

    assert!(watchdog.observe("ping", ping.watcher.current(), ping.stats.status()));
    assert!(watchdog.observe("pong", pong.watcher.current(), pong.stats.status()));
    for (query, sent, received) in [
        (controller.status::<Ping>(), 5, 4),
        (controller.status::<Pong>(), 4, 4),
    ] {
        let report = match watchdog.watchdog(query.command()) {
            Some(Reply::Status(report)) => query.settle(Some(report)).unwrap(),
            other => panic!("unexpected answer: {:?}", other),
        };
        assert_eq!(report.started, 1);
        assert!(report.status.is_started());
        assert_eq!(report.intercom.number_sent, sent);
        assert_eq!(report.intercom.number_received, received);
        assert_eq!(report.intercom.number_connections, 1);
    }

    // the watchdog ends; the managers are let go, which kills what runs
    assert!(watchdog.watchdog(controller.shutdown()).is_none());
    assert!(watchdog.is_finished());
    for running in [&mut ping, &mut pong] {
        let step = running
            .watcher
            .react(WatcherEvent::Control(Some(Control::Kill)), 500);
        assert!(step.abort && step.exit);
        assert_eq!(step.publish, Some(Status::shutdown(500)));
        assert!(running.watcher.current().is_shutdown());
    }
    // a watchdog that has ended answers no more
    assert!(watchdog
        .watchdog(controller.status::<Ping>().command())
        .is_none());
}
