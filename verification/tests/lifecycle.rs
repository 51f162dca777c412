use libuv::errno::{EINVAL, EMFILE, ENOMEM};
use libuv::{Loop, RunMode, Step};

fn fresh(now: u64) -> Loop {
    Loop::new(0, now).expect("a zero status makes a loop")
}

#[test]
fn new_loop_is_open_and_at_rest() {
    let lp = fresh(17);
    assert!(!lp.is_closed());
    assert!(!lp.is_running());
    assert!(!lp.is_alive());
    assert_eq!(lp.now(), 17);
}

#[test]
fn failed_setup_makes_no_loop() {
    assert_eq!(Loop::new(EMFILE, 17).unwrap_err(), EMFILE);
    assert_eq!(Loop::new(ENOMEM, 0).unwrap_err(), ENOMEM);
    assert_eq!(Loop::new(-1, 0).unwrap_err(), -1);
    assert_eq!(Loop::new(1, 0).unwrap_err(), 1);
    assert_eq!(Loop::new(i32::MIN, u64::MAX).unwrap_err(), i32::MIN);
}

#[test]
fn new_then_close_leaves_nothing() {
    let mut lp = fresh(3);
    lp.close();
    assert!(lp.is_closed());
    assert!(!lp.is_running());
    assert!(!lp.is_alive());
    assert_eq!(lp.now(), 3);
}

#[test]
fn new_then_drop_without_close() {
    let lp = fresh(3);
    drop(lp);
    let failed = Loop::new(EMFILE, 3);
    assert!(failed.is_err());
    drop(failed);
}

#[test]
fn close_twice_is_close_once() {
    let mut lp = fresh(3);
    lp.close();
    lp.close();
    assert!(lp.is_closed());
    assert!(!lp.is_alive());
    assert_eq!(lp.now(), 3);
}

#[test]
fn close_detaches_every_handle() {
    let mut lp = fresh(0);
    let a = lp.register().unwrap();
    let b = lp.register().unwrap();
    a.set_active(&mut lp, true);
    b.set_closing(&mut lp, true);
    assert!(lp.is_alive());
    lp.close();
    assert!(!lp.is_alive());
    assert!(!a.is_active(&lp));
    assert!(!a.has_ref(&lp));
    assert!(!b.is_closing(&lp));
    assert!(!b.has_ref(&lp));
}

#[test]
fn closed_loop_refuses_handles_and_runs() {
    let mut lp = fresh(0);
    lp.close();
    assert_eq!(lp.register().unwrap_err(), EINVAL);
    assert_eq!(lp.run(RunMode::Default, 1), Err(EINVAL));
    assert_eq!(lp.run(RunMode::Once, 1), Err(EINVAL));
    assert_eq!(lp.run(RunMode::NoWait, 1), Err(EINVAL));
    assert_eq!(lp.resume(0, 1), Err(EINVAL));
    lp.stop();
    assert!(!lp.is_running());
    assert!(lp.is_closed());
}

#[test]
fn closed_loop_keeps_its_time() {
    let mut lp = fresh(40);
    lp.close();
    lp.update_time(90);
    assert_eq!(lp.now(), 40);
    assert_eq!(lp.run(RunMode::Default, 95), Err(EINVAL));
    assert_eq!(lp.now(), 40);
}

#[test]
fn close_gives_up_the_run_in_progress() {
    let mut lp = fresh(0);
    let h = lp.register().unwrap();
    h.set_active(&mut lp, true);
    assert_eq!(lp.run(RunMode::Default, 1), Ok(Step::Poll(libuv::Timeout::Forever)));
    assert!(lp.is_running());
    lp.close();
    assert!(!lp.is_running());
    assert_eq!(lp.resume(0, 2), Err(EINVAL));
}

#[test]
fn now_is_cached_between_refreshes() {
    let lp = fresh(1000);
    assert_eq!(lp.now(), 1000);
    assert_eq!(lp.now(), 1000);
    assert_eq!(lp.now(), lp.now());
}

#[test]
fn update_time_takes_a_later_reading() {
    let mut lp = fresh(1000);
    lp.update_time(1001);
    assert_eq!(lp.now(), 1001);
    lp.update_time(5000);
    assert_eq!(lp.now(), 5000);
    lp.update_time(u64::MAX);
    assert_eq!(lp.now(), u64::MAX);
}

#[test]
fn update_time_ignores_an_earlier_reading() {
    let mut lp = fresh(1000);
    lp.update_time(999);
    assert_eq!(lp.now(), 1000);
    lp.update_time(0);
    assert_eq!(lp.now(), 1000);
    lp.update_time(1000);
    assert_eq!(lp.now(), 1000);
}

#[test]
fn now_never_decreases() {
    let mut lp = fresh(10);
    let mut last = lp.now();
    for sample in [12, 11, 30, 5, 30, 31, 0, u64::MAX, 7] {
        lp.update_time(sample);
        assert!(lp.now() >= last);
        last = lp.now();
    }
    assert_eq!(last, u64::MAX);
}

#[test]
fn stop_at_rest_changes_nothing() {
    let mut lp = fresh(5);
    lp.stop();
    lp.stop();
    assert!(!lp.is_running());
    assert!(!lp.is_closed());
    assert_eq!(lp.now(), 5);
    assert_eq!(lp.run(RunMode::Default, 6), Ok(Step::Done));
}
