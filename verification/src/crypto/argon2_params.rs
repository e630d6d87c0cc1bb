//! Argon2id parameter selection: a secure floor (OWASP 2023 minimums:
//! m=19 MiB, t=2, p=1) and on-machine calibration above it.

use vstd::prelude::*;

verus! {

/// Argon2id parameters, stored beside each vault's wrapped key.
#[derive(Debug, Clone, Copy, PartialEq, Eq, Structural)]
pub struct Params {
    /// Memory cost in KiB.
    pub m_kib: u32,
    /// Time cost (iterations).
    pub t: u32,
    /// Parallelism (lanes).
    pub p: u32,
}

/// Parameters the Argon2 implementation accepts: at least 8 KiB per lane,
/// at least one pass, between 1 and 2^24 - 1 lanes.
pub open spec fn params_valid(p: Params) -> bool {
    &&& p.m_kib >= 8
    &&& p.m_kib >= 8 * p.p
    &&& p.t >= 1
    &&& 1 <= p.p <= 0xFF_FFFF
}

/// The secure floor.
pub open spec fn floor_params() -> Params {
    Params { m_kib: 19456, t: 2, p: 1 }
}

/// `a` is at least as strong as `b` in every dimension.
pub open spec fn at_least(a: Params, b: Params) -> bool {
    a.m_kib >= b.m_kib && a.t >= b.t && a.p >= b.p
}

#[verifier::external_type_specification]
#[verifier::external_body]
pub struct ExInstant(std::time::Instant);

/// `std::time::Instant::now`. Nothing is promised of the value: it is the
/// time.
#[verifier::external_body]
pub(crate) fn instant_now() -> std::time::Instant {
    std::time::Instant::now()
}

/// `std::time::Instant::elapsed`. Nothing is promised of the value: it is
/// the time passed.
#[verifier::external_body]
pub(crate) fn elapsed_since(start: &std::time::Instant) -> core::time::Duration {
    start.elapsed()
}

/// `core::time::Duration::as_millis`. The duration is opaque here, so
/// nothing is stated of the figure.
#[verifier::external_body]
fn whole_millis(d: &core::time::Duration) -> u128 {
    d.as_millis()
}

/// `core::time::Duration::as_nanos`. The duration is opaque here, so
/// nothing is stated of the figure.
#[verifier::external_body]
pub(crate) fn whole_nanos(d: &core::time::Duration) -> u128 {
    d.as_nanos()
}

/// The salt of a timing run: the bytes of 22 `A`s, the B64 text of an
/// all-zero salt.
fn measure_salt() -> (salt: Vec<u8>)
    ensures
        salt@.len() == 22,
        forall|i: int| 0 <= i < 22 ==> salt@[i] == 65u8,
{
    let mut salt: Vec<u8> = Vec::new();
    while salt.len() < 22
        invariant
            salt@.len() <= 22,
            forall|i: int| 0 <= i < salt@.len() ==> salt@[i] == 65u8,
        decreases 22 - salt@.len(),
    {
        salt.push(65u8);
    }
    salt
}

/// Wall-clock milliseconds that one Argon2id derivation with `p` takes on
/// this machine, counted as at least 1. Only that bound is stated: the
/// figure depends on the machine and its load.
fn measure_ms(p: Params) -> (ms: u128)
    requires
        params_valid(p),
    ensures
        ms >= 1,
{
    let salt = measure_salt();
    let password: [u8; 7] = [109u8, 101u8, 97u8, 115u8, 117u8, 114u8, 101u8];
    let start = instant_now();
    let _ = crate::crypto::argon2id(&password, salt.as_slice(), p);
    let elapsed = whole_millis(&elapsed_since(&start));
    if elapsed < 1 {
        1
    } else {
        elapsed
    }
}

/// What calibration does with one measurement: keep the time cost that was
/// measured, or stop raising it.
#[derive(Debug, Clone, Copy, PartialEq, Eq, Structural)]
pub enum CalibrationStep {
    /// Keep this time cost and try the next.
    Accept(u32),
    /// The measurement exceeded the target.
    Stop,
}

/// The calibration decision for time cost `t`, measured at `measured_ms`
/// against a target of `target_ms`.
pub fn next_time_cost(t: u32, measured_ms: u128, target_ms: u32) -> (d: CalibrationStep)
    ensures
        measured_ms <= target_ms ==> d == CalibrationStep::Accept(t),
        measured_ms > target_ms ==> d == CalibrationStep::Stop,
{
    if measured_ms <= target_ms as u128 {
        CalibrationStep::Accept(t)
    } else {
        CalibrationStep::Stop
    }
}

/// A possible run of calibration: the milliseconds measured for time costs
/// 2, 3, ... in turn. Every measurement but the last is within the target;
/// the last exceeds it, unless all fourteen time costs up to 15 were tried.
pub open spec fn calibration_run(ms: Seq<u128>, target_ms: u32) -> bool {
    &&& 1 <= ms.len() <= 14
    &&& forall|i: int| 0 <= i < ms.len() - 1 ==> ms[i] <= target_ms
    &&& ms.len() < 14 ==> ms.last() > target_ms
}

/// The time costs a run accepted.
pub open spec fn accepted_count(ms: Seq<u128>, target_ms: u32) -> nat {
    if ms.len() == 0 {
        0
    } else if ms.last() <= target_ms {
        ms.len()
    } else {
        (ms.len() - 1) as nat
    }
}

/// What calibration returns after a run: the floor's memory and lanes, with
/// the last accepted time cost, or the floor's when none was accepted.
pub open spec fn calibration_result(ms: Seq<u128>, target_ms: u32) -> Params {
    let accepted = accepted_count(ms, target_ms);
    Params {
        m_kib: floor_params().m_kib,
        t: if accepted == 0 { floor_params().t } else { (floor_params().t + accepted - 1) as u32 },
        p: floor_params().p,
    }
}

impl Params {
    /// Whether the Argon2 implementation accepts these parameters.
    pub fn is_valid(&self) -> (b: bool)
        ensures
            b == params_valid(*self),
    {
        self.m_kib >= 8 && self.m_kib as u64 >= 8 * (self.p as u64) && self.t >= 1 && 1 <= self.p
            && self.p <= 0xFF_FFFF
    }

    /// OWASP-recommended minimum for Argon2id (2023): 19 MiB, t=2, p=1.
    pub fn minimum_safe() -> (r: Self)
        ensures
            r == floor_params(),
            params_valid(r),
    {
        Params { m_kib: 19456, t: 2, p: 1 }
    }

    /// Production default: the secure floor.
    pub fn production_default() -> (r: Self)
        ensures
            r == floor_params(),
    {
        Self::minimum_safe()
    }

    /// Fast parameters for tests only; below the production floor.
    pub fn test_fast() -> (r: Self)
        ensures
            r == (Params { m_kib: 8192, t: 1, p: 1 }),
            params_valid(r),
    {
        Params { m_kib: 8 * 1024, t: 1, p: 1 }
    }

    /// Raise the time cost from the floor while one derivation stays within
    /// `target_ms`; never returns less than the floor. Memory and lanes stay
    /// at the floor. The result is what `next_time_cost` decides on the
    /// measurements taken, one time cost after another; the measurements
    /// themselves depend on the machine.
    pub fn calibrate(target_ms: u32) -> (r: Self)
        ensures
            exists|ms: Seq<u128>| calibration_run(ms, target_ms) && r == calibration_result(ms, target_ms),
            at_least(r, floor_params()),
            params_valid(r),
    {
        let floor = Self::minimum_safe();
        let mut best = floor;
        let mut t = floor.t;
        let ghost mut trace: Seq<u128> = Seq::empty();
        loop
            invariant_except_break
                floor == floor_params(),
                2 <= t <= 15,
                trace.len() == t - 2,
                forall|i: int| 0 <= i < trace.len() ==> trace[i] <= target_ms,
                best == calibration_result(trace, target_ms),
            ensures
                calibration_run(trace, target_ms),
                best == calibration_result(trace, target_ms),
            decreases 16 - t,
        {
            let candidate = Params { m_kib: floor.m_kib, t, p: floor.p };
            let ms = measure_ms(candidate);
            proof {
                trace = trace.push(ms);
            }
            match next_time_cost(t, ms, target_ms) {
                CalibrationStep::Accept(kept) => {
                    best = Params { m_kib: floor.m_kib, t: kept, p: floor.p };
                },
                CalibrationStep::Stop => {
                    break;
                },
            }
            if t == 15 {
                break;
            }
            t = t + 1;
        }
        best
    }
}

} // verus!
