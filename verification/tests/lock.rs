use sammy_lib::lock::{Clock, InactivityWatchdog, LockPolicy, SystemClock};

const SEC: u64 = 1_000_000_000;

#[test]
fn default_policy_is_15_minutes() {
    assert_eq!(LockPolicy::default(), LockPolicy::Minutes15);
    assert_eq!(LockPolicy::DEFAULT, LockPolicy::Minutes15);
}

#[test]
fn manual_only_never_locks_on_inactivity() {
    let t0: u64 = 5 * SEC;
    let mut wd = InactivityWatchdog::new(LockPolicy::ManualOnly, t0);
    let much_later = t0 + 10 * 365 * 24 * 3600 * SEC;
    wd.touch(t0);
    assert!(!wd.should_lock(much_later));
}

#[test]
fn five_minute_policy_locks_after_threshold() {
    let t0: u64 = 5 * SEC;
    let mut wd = InactivityWatchdog::new(LockPolicy::Minutes5, t0);
    wd.touch(t0);
    assert!(!wd.should_lock(t0 + (5 * 60 - 1) * SEC));
    assert!(wd.should_lock(t0 + 5 * 60 * SEC));
}

#[test]
fn touch_resets_the_timer() {
    let t0: u64 = 5 * SEC;
    let mut wd = InactivityWatchdog::new(LockPolicy::Minutes15, t0);
    wd.touch(t0);
    let t1 = t0 + 10 * 60 * SEC;
    wd.touch(t1);
    assert!(!wd.should_lock(t1 + 10 * 60 * SEC));
    assert!(wd.should_lock(t1 + 16 * 60 * SEC));
}

#[test]
fn all_policies_have_expected_timeouts() {
    assert_eq!(LockPolicy::Minutes5.timeout(), Some(300));
    assert_eq!(LockPolicy::Minutes15.timeout(), Some(900));
    assert_eq!(LockPolicy::Minutes30.timeout(), Some(1800));
    assert_eq!(LockPolicy::Minutes60.timeout(), Some(3600));
    assert_eq!(LockPolicy::ManualOnly.timeout(), None);
}

#[test]
fn a_clock_reading_earlier_than_the_last_activity_never_locks() {
    let wd = InactivityWatchdog::new(LockPolicy::Minutes5, 1000 * SEC);
    assert!(!wd.should_lock(0));
    assert_eq!(wd.policy(), LockPolicy::Minutes5);
}

#[test]
fn system_clock_never_runs_backwards() {
    let c = SystemClock::new();
    let a = c.now();
    let b = c.now();
    assert!(b >= a);
    assert!(a < 60 * SEC, "a fresh clock starts near zero");
}
