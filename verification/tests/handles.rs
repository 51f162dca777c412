use libuv::{Handle, Loop};

fn with_handle() -> (Loop, Handle) {
    let mut lp = Loop::new(0, 0).unwrap();
    let h = lp.register().unwrap();
    (lp, h)
}

#[test]
fn new_handle_is_referenced_and_idle() {
    let (lp, h) = with_handle();
    assert!(h.has_ref(&lp));
    assert!(!h.is_active(&lp));
    assert!(!h.is_closing(&lp));
    assert_eq!(h.due(&lp), None);
    assert_eq!(h.index(), 0);
    assert!(!lp.is_alive());
}

#[test]
fn handles_are_numbered_in_order() {
    let mut lp = Loop::new(0, 0).unwrap();
    let a = lp.register().unwrap();
    let b = lp.register().unwrap();
    let c = lp.register().unwrap();
    assert_eq!(a.index(), 0);
    assert_eq!(b.index(), 1);
    assert_eq!(c.index(), 2);
    assert_ne!(a, b);
    assert_ne!(b, c);
}

#[test]
fn active_referenced_handle_keeps_the_loop_alive() {
    let (mut lp, h) = with_handle();
    assert!(!lp.is_alive());
    h.addref(&mut lp);
    assert!(!lp.is_alive());
    h.set_active(&mut lp, true);
    assert!(h.is_active(&lp));
    assert!(lp.is_alive());
}

#[test]
fn activity_before_reference_keeps_the_loop_alive() {
    let (mut lp, h) = with_handle();
    h.unref(&mut lp);
    h.set_active(&mut lp, true);
    assert!(!lp.is_alive());
    h.addref(&mut lp);
    assert!(lp.is_alive());
}

#[test]
fn unreferenced_handle_does_not_keep_the_loop_alive() {
    let (mut lp, h) = with_handle();
    h.set_active(&mut lp, true);
    assert!(lp.is_alive());
    h.unref(&mut lp);
    assert!(!h.has_ref(&lp));
    assert!(h.is_active(&lp));
    assert!(!lp.is_alive());
}

#[test]
fn inactive_handle_does_not_keep_the_loop_alive() {
    let (mut lp, h) = with_handle();
    h.set_active(&mut lp, true);
    h.set_active(&mut lp, false);
    assert!(h.has_ref(&lp));
    assert!(!h.is_active(&lp));
    assert!(!lp.is_alive());
}

#[test]
fn addref_many_times_is_addref_once() {
    let (mut lp, h) = with_handle();
    h.set_active(&mut lp, true);
    h.addref(&mut lp);
    h.addref(&mut lp);
    h.addref(&mut lp);
    assert!(lp.is_alive());
    h.unref(&mut lp);
    assert!(!h.has_ref(&lp));
    assert!(!lp.is_alive());
}

#[test]
fn unref_many_times_is_unref_once() {
    let (mut lp, h) = with_handle();
    h.set_active(&mut lp, true);
    h.unref(&mut lp);
    h.unref(&mut lp);
    h.unref(&mut lp);
    assert!(!lp.is_alive());
    h.addref(&mut lp);
    assert!(h.has_ref(&lp));
    assert!(lp.is_alive());
}

#[test]
fn loop_is_alive_while_any_handle_is() {
    let mut lp = Loop::new(0, 0).unwrap();
    let a = lp.register().unwrap();
    let b = lp.register().unwrap();
    let c = lp.register().unwrap();
    a.set_active(&mut lp, true);
    b.set_active(&mut lp, true);
    c.set_active(&mut lp, true);
    assert!(lp.is_alive());
    a.unref(&mut lp);
    assert!(lp.is_alive());
    b.set_active(&mut lp, false);
    assert!(lp.is_alive());
    c.detach(&mut lp);
    assert!(!lp.is_alive());
    b.set_active(&mut lp, true);
    assert!(lp.is_alive());
}

#[test]
fn one_handle_does_not_touch_another() {
    let mut lp = Loop::new(0, 0).unwrap();
    let a = lp.register().unwrap();
    let b = lp.register().unwrap();
    a.set_active(&mut lp, true);
    a.set_closing(&mut lp, true);
    a.unref(&mut lp);
    a.set_due(&mut lp, Some(9));
    assert!(!b.is_active(&lp));
    assert!(!b.is_closing(&lp));
    assert!(b.has_ref(&lp));
    assert_eq!(b.due(&lp), None);
    a.detach(&mut lp);
    assert!(b.has_ref(&lp));
}

#[test]
fn closing_and_active_can_hold_together() {
    let (mut lp, h) = with_handle();
    h.set_active(&mut lp, true);
    h.set_closing(&mut lp, true);
    assert!(h.is_active(&lp));
    assert!(h.is_closing(&lp));
    assert!(lp.is_alive());
    h.set_active(&mut lp, false);
    assert!(h.is_closing(&lp));
    assert!(!lp.is_alive());
    h.set_closing(&mut lp, false);
    assert!(!h.is_closing(&lp));
}

#[test]
fn closing_alone_does_not_keep_the_loop_alive() {
    let (mut lp, h) = with_handle();
    h.set_closing(&mut lp, true);
    assert!(h.is_closing(&lp));
    assert!(!lp.is_alive());
}

#[test]
fn due_time_is_kept() {
    let (mut lp, h) = with_handle();
    h.set_due(&mut lp, Some(77));
    assert_eq!(h.due(&lp), Some(77));
    h.set_due(&mut lp, Some(0));
    assert_eq!(h.due(&lp), Some(0));
    h.set_due(&mut lp, None);
    assert_eq!(h.due(&lp), None);
}

#[test]
fn detached_handle_is_left_alone() {
    let (mut lp, h) = with_handle();
    h.set_active(&mut lp, true);
    h.detach(&mut lp);
    assert!(!lp.is_alive());
    assert!(!h.is_active(&lp));
    assert!(!h.has_ref(&lp));
    h.addref(&mut lp);
    h.set_active(&mut lp, true);
    h.set_closing(&mut lp, true);
    h.set_due(&mut lp, Some(4));
    h.detach(&mut lp);
    assert!(!h.is_active(&lp));
    assert!(!h.is_closing(&lp));
    assert!(!h.has_ref(&lp));
    assert_eq!(h.due(&lp), None);
    assert!(!lp.is_alive());
}

#[test]
fn detached_slot_is_not_given_out_again() {
    let (mut lp, h) = with_handle();
    h.detach(&mut lp);
    let next = lp.register().unwrap();
    assert_eq!(next.index(), 1);
    assert_ne!(next, h);
    next.set_active(&mut lp, true);
    assert!(!h.is_active(&lp));
    assert!(next.is_active(&lp));
}

#[test]
fn handle_of_a_longer_loop_is_unknown_to_a_shorter_one() {
    let mut long = Loop::new(0, 0).unwrap();
    long.register().unwrap();
    let second = long.register().unwrap();
    let mut short = Loop::new(0, 0).unwrap();
    short.register().unwrap();
    second.set_active(&mut short, true);
    second.addref(&mut short);
    assert!(!second.is_active(&short));
    assert!(!second.has_ref(&short));
    assert!(!short.is_alive());
}

#[test]
fn many_handles_count_right() {
    let mut lp = Loop::new(0, 0).unwrap();
    let mut handles = Vec::new();
    for _ in 0..100 {
        let h = lp.register().unwrap();
        h.set_active(&mut lp, true);
        handles.push(h);
    }
    assert!(lp.is_alive());
    for (i, h) in handles.iter().enumerate() {
        assert!(lp.is_alive());
        if i % 3 == 0 {
            h.unref(&mut lp);
        } else if i % 3 == 1 {
            h.set_active(&mut lp, false);
        } else {
            h.detach(&mut lp);
        }
    }
    assert!(!lp.is_alive());
    handles[99].addref(&mut lp);
    assert!(lp.is_alive());
}
