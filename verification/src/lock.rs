//! Inactivity locking. The default inactivity lock is 15 minutes, with
//! options for 5, 15, 30 or 60 minutes, or manual-only. The watchdog only
//! decides; the timer that asks it and the lock itself live with the caller.
//!
//! Times are nanoseconds on one monotonic timeline chosen by the caller.

use vstd::prelude::*;

verus! {

/// Nanoseconds per second.
pub const NANOS_PER_SEC: u64 = 1_000_000_000;

/// The inactivity-lock policy.
#[derive(Debug, Clone, Copy, PartialEq, Eq, Structural)]
pub enum LockPolicy {
    /// Lock after 5 minutes of inactivity.
    Minutes5,
    /// Lock after 15 minutes of inactivity (the default).
    Minutes15,
    /// Lock after 30 minutes of inactivity.
    Minutes30,
    /// Lock after 60 minutes of inactivity.
    Minutes60,
    /// Never lock on inactivity; only on explicit action, app exit or an
    /// OS session lock.
    ManualOnly,
}

/// The inactivity timeout of a policy in seconds, or none for manual-only.
pub open spec fn timeout_secs(p: LockPolicy) -> Option<u64> {
    match p {
        LockPolicy::Minutes5 => Some(300),
        LockPolicy::Minutes15 => Some(900),
        LockPolicy::Minutes30 => Some(1800),
        LockPolicy::Minutes60 => Some(3600),
        LockPolicy::ManualOnly => None,
    }
}

impl LockPolicy {
    /// The default policy.
    pub const DEFAULT: LockPolicy = LockPolicy::Minutes15;

    /// The inactivity timeout in seconds, or `None` for manual-only.
    pub fn timeout(self) -> (t: Option<u64>)
        ensures
            t == timeout_secs(self),
    {
        match self {
            LockPolicy::Minutes5 => Some(5 * 60),
            LockPolicy::Minutes15 => Some(15 * 60),
            LockPolicy::Minutes30 => Some(30 * 60),
            LockPolicy::Minutes60 => Some(60 * 60),
            LockPolicy::ManualOnly => None,
        }
    }
}

impl Default for LockPolicy {
    fn default() -> (p: Self)
        ensures
            p == LockPolicy::Minutes15,
    {
        LockPolicy::Minutes15
    }
}

/// Whether a vault last active at `last` must be locked at `now` under
/// policy `p`: the time elapsed since `last` (none if `now` is earlier)
/// has reached the timeout.
pub open spec fn locks_at(p: LockPolicy, last: u64, now: u64) -> bool {
    match timeout_secs(p) {
        None => false,
        Some(t) => now >= last && now - last >= t * NANOS_PER_SEC,
    }
}

/// Tracks the last user activity and decides whether the vault should be
/// locked for inactivity.
pub struct InactivityWatchdog {
    policy: LockPolicy,
    last_activity: u64,
}

impl InactivityWatchdog {
    /// The policy in force.
    pub closed spec fn policy_spec(&self) -> LockPolicy {
        self.policy
    }

    /// The time of the last recorded activity.
    pub closed spec fn last_activity_spec(&self) -> u64 {
        self.last_activity
    }

    /// A watchdog for `policy` whose last activity is `now`.
    pub fn new(policy: LockPolicy, now: u64) -> (w: Self)
        ensures
            w.policy_spec() == policy,
            w.last_activity_spec() == now,
    {
        InactivityWatchdog { policy, last_activity: now }
    }

    /// Record user activity at time `now`.
    pub fn touch(&mut self, now: u64)
        ensures
            final(self).policy_spec() == old(self).policy_spec(),
            final(self).last_activity_spec() == now,
    {
        self.last_activity = now;
    }

    /// Whether the inactivity threshold has elapsed since the last activity;
    /// always `false` under manual-only.
    pub fn should_lock(&self, now: u64) -> (r: bool)
        ensures
            r == locks_at(self.policy_spec(), self.last_activity_spec(), now),
    {
        match self.policy.timeout() {
            None => false,
            Some(secs) => {
                let elapsed: u64 = if now >= self.last_activity { now - self.last_activity } else { 0 };
                elapsed >= secs * NANOS_PER_SEC
            },
        }
    }

    /// The policy in force.
    pub fn policy(&self) -> (p: LockPolicy)
        ensures
            p == self.policy_spec(),
    {
        self.policy
    }
}

/// Manual-only never locks on inactivity, however much time passes.
pub proof fn lemma_manual_only_never_locks(last: u64, now: u64)
    ensures
        !locks_at(LockPolicy::ManualOnly, last, now),
{
}

/// Once locking is due it stays due as time goes on, until new activity
/// is recorded.
pub proof fn lemma_lock_is_monotone(p: LockPolicy, last: u64, now: u64, later: u64)
    requires
        locks_at(p, last, now),
        now <= later,
    ensures
        locks_at(p, last, later),
{
}

/// Activity resets the window: right after a touch at `t`, locking is due
/// exactly when a full timeout has passed since `t`, and never before.
pub proof fn lemma_touch_resets_window(p: LockPolicy, t: u64, now: u64)
    requires
        t <= now,
        timeout_secs(p) is Some,
    ensures
        locks_at(p, t, now) <==> now - t >= timeout_secs(p)->0 * NANOS_PER_SEC,
        now - t < timeout_secs(p)->0 * NANOS_PER_SEC ==> !locks_at(p, t, now),
{
}

/// A source of the current time, in nanoseconds on one timeline.
pub trait Clock {
    fn now(&self) -> u64;
}

/// The system's monotonic clock (`std::time::Instant`): nanoseconds since
/// the clock was started, so a change of the wall-clock time neither
/// hastens nor delays a lock.
pub struct SystemClock {
    origin: std::time::Instant,
}

impl SystemClock {
    /// A clock that starts now.
    pub fn new() -> Self {
        SystemClock { origin: crate::crypto::argon2_params::instant_now() }
    }
}

impl Clock for SystemClock {
    /// Nanoseconds since the clock started, saturating at the largest `u64`
    /// (after some 584 years). Nothing is promised of the value: it is the
    /// time.
    fn now(&self) -> u64 {
        let elapsed = crate::crypto::argon2_params::elapsed_since(&self.origin);
        let n = crate::crypto::argon2_params::whole_nanos(&elapsed);
        if n > 0xFFFF_FFFF_FFFF_FFFFu128 {
            0xFFFF_FFFF_FFFF_FFFFu64
        } else {
            n as u64
        }
    }
}

} // verus!
