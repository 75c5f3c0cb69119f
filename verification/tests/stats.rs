use organix::service::{IntercomEvent, IntercomStats, IntercomStatus};

fn counters(sent: u64, received: u64, connections: u64) -> IntercomStatus {
    IntercomStatus {
        number_sent: sent,
        number_received: received,
        number_connections: connections,
    }
}

#[test]
fn stats_start_at_zero() {
    assert_eq!(IntercomStats::new().status(), counters(0, 0, 0));
}

#[test]
fn stats_count_each_event() {
    let mut stats = IntercomStats::new();
    stats.record(IntercomEvent::Connected);
    assert_eq!(stats.status(), counters(0, 0, 1));
    stats.record(IntercomEvent::Sent);
    stats.record(IntercomEvent::Sent);
    assert_eq!(stats.status(), counters(2, 0, 1));
    stats.record(IntercomEvent::Received);
    assert_eq!(stats.status(), counters(2, 1, 1));
    stats.record(IntercomEvent::Connected);
    assert_eq!(stats.status(), counters(2, 1, 2));
    stats.record(IntercomEvent::Disconnected);
    assert_eq!(stats.status(), counters(2, 1, 1));
}

#[test]
fn stats_never_decrease_but_connections_on_drop() {
    let events = [
        IntercomEvent::Connected,
        IntercomEvent::Sent,
        IntercomEvent::Received,
        IntercomEvent::Disconnected,
        IntercomEvent::Disconnected,
        IntercomEvent::Sent,
        IntercomEvent::Connected,
        IntercomEvent::Received,
        IntercomEvent::Disconnected,
    ];
    let mut stats = IntercomStats::new();
    for event in events {
        let before = stats.status();
        stats.record(event);
        let after = stats.status();
        assert!(after.number_sent >= before.number_sent);
        assert!(after.number_received >= before.number_received);
        if event != IntercomEvent::Disconnected {
            assert!(after.number_connections >= before.number_connections);
        }
    }
    assert_eq!(stats.status(), counters(2, 2, 0));
}

#[test]
fn stats_connections_stop_at_zero() {
    let mut stats = IntercomStats::new();
    stats.record(IntercomEvent::Disconnected);
    assert_eq!(stats.status(), counters(0, 0, 0));
    stats.record(IntercomEvent::Connected);
    stats.record(IntercomEvent::Disconnected);
    stats.record(IntercomEvent::Disconnected);
    assert_eq!(stats.status(), counters(0, 0, 0));
}
