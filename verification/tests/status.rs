use organix::service::Status;

#[test]
fn status_constructors_keep_the_moment() {
    assert_eq!(Status::shutdown(3), Status::Shutdown { since: 3 });
    assert_eq!(Status::starting(4), Status::Starting { since: 4 });
    assert_eq!(Status::started(5), Status::Started { since: 5 });
    assert_eq!(Status::shutting_down(6), Status::ShuttingDown { since: 6 });
    assert_eq!(Status::shutdown(3).since(), 3);
    assert_eq!(Status::starting(4).since(), 4);
    assert_eq!(Status::started(5).since(), 5);
    assert_eq!(Status::shutting_down(u64::MAX).since(), u64::MAX);
}

#[test]
fn status_predicates_tell_the_variants_apart() {
    let all = [
        Status::shutdown(0),
        Status::starting(0),
        Status::started(0),
        Status::shutting_down(0),
    ];
    for (i, status) in all.iter().enumerate() {
        assert_eq!(status.is_shutdown(), i == 0);
        assert_eq!(status.is_starting(), i == 1);
        assert_eq!(status.is_started(), i == 2);
        assert_eq!(status.is_shutting_down(), i == 3);
    }
}

#[test]
fn status_follows_the_lifecycle_graph() {
    let shutdown = Status::shutdown(1);
    let starting = Status::starting(2);
    let started = Status::started(3);
    let shutting_down = Status::shutting_down(4);
    // the edges
    assert!(shutdown.can_become(&starting));
    assert!(starting.can_become(&started));
    assert!(started.can_become(&shutting_down));
    assert!(shutting_down.can_become(&shutdown));
    assert!(starting.can_become(&shutdown));
    assert!(started.can_become(&shutdown));
    // and nothing else
    assert!(!shutdown.can_become(&shutdown));
    assert!(!shutdown.can_become(&started));
    assert!(!shutdown.can_become(&shutting_down));
    assert!(!starting.can_become(&starting));
    assert!(!starting.can_become(&shutting_down));
    assert!(!started.can_become(&started));
    assert!(!started.can_become(&starting));
    assert!(!shutting_down.can_become(&shutting_down));
    assert!(!shutting_down.can_become(&starting));
    assert!(!shutting_down.can_become(&started));
}
