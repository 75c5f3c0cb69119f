use organix::runtime::{RuntimeConfig, Runtimes, Setting};

fn parts(config: &RuntimeConfig) -> (&'static str, bool, bool) {
    assert_eq!(config.core_threads, None);
    assert_eq!(config.max_threads, None);
    assert_eq!(config.thread_stack_size, None);
    (config.thread_name, config.io_driver, config.time_driver)
}

#[test]
fn runtime_config_new_has_no_driver() {
    assert_eq!(parts(&RuntimeConfig::new("heart-beat")), ("heart-beat", false, false));
    assert_eq!(parts(&RuntimeConfig::new("")), ("", false, false));
}

#[test]
fn runtime_config_of_the_watchdog_keeps_time() {
    assert_eq!(parts(&RuntimeConfig::watchdog()), ("watchdog", false, true));
}

#[test]
fn runtime_config_of_the_shared_pool_has_both_drivers() {
    assert_eq!(parts(&RuntimeConfig::shared()), ("shared", true, true));
}

#[test]
fn runtimes_start_with_the_two_common_pools() {
    let runtimes = Runtimes::new();
    assert_eq!(parts(runtimes.watchdog()), ("watchdog", false, true));
    assert_eq!(parts(runtimes.shared()), ("shared", true, true));
    assert!(runtimes.individual("watchdog").is_none());
    assert!(runtimes.individual("shared").is_none());
}

#[test]
fn runtimes_keep_individual_pools_by_name() {
    let mut runtimes = Runtimes::new();
    let mut stdin = RuntimeConfig::new("stdin");
    stdin.io_driver = true;
    runtimes.add(stdin);
    runtimes.add(RuntimeConfig::new("stdout"));
    assert_eq!(parts(runtimes.individual("stdin").unwrap()), ("stdin", true, false));
    assert_eq!(parts(runtimes.individual("stdout").unwrap()), ("stdout", false, false));
    assert!(runtimes.individual("stderr").is_none());

    // a pool of the same name takes the place of the one before
    let mut again = RuntimeConfig::new("stdin");
    again.time_driver = true;
    again.core_threads = Some(2);
    runtimes.add(again);
    let found = runtimes.individual("stdin").unwrap();
    assert_eq!(found.thread_name, "stdin");
    assert!(!found.io_driver);
    assert!(found.time_driver);
    assert_eq!(found.core_threads, Some(2));
    assert_eq!(parts(runtimes.individual("stdout").unwrap()), ("stdout", false, false));
}

#[test]
fn runtimes_assign_the_shared_pool_or_a_new_one() {
    let mut runtimes = Runtimes::new();
    let shared = runtimes.assign("pong", true, false, false);
    assert_eq!(parts(&shared), ("shared", true, true));
    assert!(runtimes.individual("pong").is_none());

    let own = runtimes.assign("ping", false, false, true);
    assert_eq!(parts(&own), ("ping", false, true));
    assert_eq!(parts(runtimes.individual("ping").unwrap()), ("ping", false, true));

    let own = runtimes.assign("stdin", false, true, false);
    assert_eq!(parts(&own), ("stdin", true, false));
    assert_eq!(parts(runtimes.individual("stdin").unwrap()), ("stdin", true, false));
    assert_eq!(parts(runtimes.individual("ping").unwrap()), ("ping", false, true));
}

#[test]
fn runtime_config_lists_the_steps_that_make_the_pool() {
    assert_eq!(
        RuntimeConfig::new("stdin").settings(),
        vec![Setting::ThreadName("stdin"), Setting::ThreadedScheduler]
    );
    assert_eq!(
        RuntimeConfig::watchdog().settings(),
        vec![
            Setting::ThreadName("watchdog"),
            Setting::EnableTime,
            Setting::ThreadedScheduler
        ]
    );
    assert_eq!(
        RuntimeConfig::shared().settings(),
        vec![
            Setting::ThreadName("shared"),
            Setting::EnableIo,
            Setting::EnableTime,
            Setting::ThreadedScheduler
        ]
    );
    let mut config = RuntimeConfig::new("stdout");
    config.io_driver = true;
    config.core_threads = Some(2);
    config.max_threads = Some(8);
    config.thread_stack_size = Some(1 << 20);
    assert_eq!(
        config.settings(),
        vec![
            Setting::ThreadName("stdout"),
            Setting::EnableIo,
            Setting::CoreThreads(2),
            Setting::MaxThreads(8),
            Setting::ThreadStackSize(1048576),
            Setting::ThreadedScheduler
        ]
    );
    config.core_threads = None;
    config.time_driver = true;
    assert_eq!(
        config.settings(),
        vec![
            Setting::ThreadName("stdout"),
            Setting::EnableIo,
            Setting::EnableTime,
            Setting::MaxThreads(8),
            Setting::ThreadStackSize(1048576),
            Setting::ThreadedScheduler
        ]
    );
}
