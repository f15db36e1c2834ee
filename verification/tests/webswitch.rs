use nerdschloss::webswitch::{close, open, reply};

#[test]
fn open_then_open_again() {
    let mut flag = false;
    let changed = open(&mut flag);
    assert!(changed);
    assert!(flag);
    assert_eq!(reply(changed), "\"success\"");
    let changed = open(&mut flag);
    assert!(!changed);
    assert!(flag);
    assert_eq!(reply(changed), "\"was already\"");
}

#[test]
fn close_then_close_again() {
    let mut flag = true;
    assert!(close(&mut flag));
    assert!(!flag);
    assert!(!close(&mut flag));
    assert!(!flag);
}

#[test]
fn open_and_close_alternate() {
    let mut flag = false;
    assert!(!close(&mut flag));
    assert!(open(&mut flag));
    assert!(close(&mut flag));
    assert!(open(&mut flag));
    assert!(flag);
}

#[test]
fn only_the_first_of_many_opens_succeeds() {
    let mut flag = false;
    let successes = (0..5).filter(|_| open(&mut flag)).count();
    assert_eq!(successes, 1);
    assert!(flag);
    let successes = (0..5).filter(|_| close(&mut flag)).count();
    assert_eq!(successes, 1);
    assert!(!flag);
}
