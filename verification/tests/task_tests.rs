use stoplight::Task;

#[test]
fn test_normal_completion() {
    let mut t: Task<i32, &str> = Task::new();
    t.finish(7);
    assert_eq!(t.join(), Ok(7));
}

#[test]
fn test_abort_payload_propagates() {
    let mut t: Task<i32, &str> = Task::new();
    t.abort("boom");
    assert_eq!(t.join(), Err("boom"));
}

#[test]
fn test_observe_tracks_requests() {
    let mut t: Task<i32, &str> = Task::new();
    assert!(!t.observe());
    t.signal_stop();
    assert!(t.observe());
}

#[test]
fn test_stop_has_no_effect_on_result() {
    let mut stopped: Task<u64, &str> = Task::new();
    stopped.signal_stop();
    stopped.finish(55);

    let mut untouched: Task<u64, &str> = Task::new();
    untouched.finish(55);

    assert_eq!(stopped.join(), untouched.join());
}

#[test]
fn test_idempotent_stop() {
    let mut once: Task<i32, &str> = Task::new();
    once.signal_stop();

    let mut thrice: Task<i32, &str> = Task::new();
    thrice.signal_stop();
    thrice.signal_stop();
    thrice.signal_stop();

    assert_eq!(once.observe(), thrice.observe());
    once.finish(1);
    thrice.finish(1);
    assert_eq!(once.join(), thrice.join());
}

#[test]
fn test_join_without_prior_stop() {
    let mut t: Task<i32, &str> = Task::new();
    assert!(!t.observe());
    t.finish(9);
    assert_eq!(t.join(), Ok(9));
}

#[test]
fn test_stop_never_resets() {
    let mut t: Task<i32, &str> = Task::new();
    t.signal_stop();
    assert!(t.observe());
    t.signal_stop();
    assert!(t.observe());
    t.finish(3);
    assert!(t.observe());
}

#[test]
fn test_independent_tasks() {
    let mut a: Task<i32, &str> = Task::new();
    let mut b: Task<i32, &str> = Task::new();
    a.signal_stop();
    assert!(a.observe());
    assert!(!b.observe());
    a.finish(1);
    b.finish(2);
    assert_eq!(a.join(), Ok(1));
    assert_eq!(b.join(), Ok(2));
}
