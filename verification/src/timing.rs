//! Timing policies: when a recurring action (an update or a draw) is next due.
//!
//! Time is measured in whole nanoseconds since an epoch that the embedding
//! application picks once (usually the moment it started). Frame rates are
//! whole millihertz, so 30 frames per second is `30_000`.

use vstd::prelude::*;

verus! {

/// Nanoseconds in one second, times millihertz in one hertz: an action locked
/// to `r` millihertz is due once `elapsed_nanos * r` reaches this value.
pub const RATE_SCALE: u64 = 1_000_000_000_000;

/// A point in time, in nanoseconds since the application's epoch.
#[derive(Clone, Copy, Debug, PartialEq, Eq, Structural)]
pub struct Timestamp {
    pub nanos: u64,
}

/// A length of time in nanoseconds. May be zero.
#[derive(Clone, Copy, Debug, PartialEq, Eq, Structural)]
pub struct Span {
    pub nanos: u64,
}

/// Why a timing policy could not be built.
#[derive(Clone, Copy, Debug, PartialEq, Eq, Structural)]
pub enum ConfigError {
    /// The rate or the interval was not positive.
    InvalidConfiguration,
}

/// A frame rate in millihertz. Always positive.
#[derive(Clone, Copy, Debug, PartialEq, Eq, Structural)]
pub struct FrameRate {
    mhz: u64,
}

/// The waiting time of a wall-clock policy. Always positive.
#[derive(Clone, Copy, Debug, PartialEq, Eq, Structural)]
pub struct Interval {
    ns: u64,
}

/// Defines when a function should be called next.
///
/// A policy is a value: it is copied and replaced as a whole.
#[derive(Clone, Copy, Debug, PartialEq, Eq, Structural)]
pub enum Timing {
    /// Due on every tick.
    Immediate,
    /// Due once `1 / target_rate` has passed since `last_fired`.
    FrameLocked { last_fired: Timestamp, target_rate: FrameRate },
    /// Due once `interval` has passed since `last_fired`.
    WallClock { last_fired: Timestamp, interval: Interval },
    /// Never due.
    Disabled,
}

impl Timestamp {
    pub fn new(nanos: u64) -> (t: Timestamp)
        ensures
            t.nanos == nanos,
    {
        Timestamp { nanos }
    }

    /// Time that has passed at `self` since `earlier`: zero if `earlier` is
    /// in fact later.
    pub open spec fn since(self, earlier: Timestamp) -> nat {
        if self.nanos >= earlier.nanos {
            (self.nanos - earlier.nanos) as nat
        } else {
            0
        }
    }

    /// This timestamp moved forward by `nanos`, stopping at the largest
    /// representable time.
    pub open spec fn plus(self, nanos: nat) -> Timestamp {
        if self.nanos + nanos > u64::MAX {
            Timestamp { nanos: u64::MAX }
        } else {
            Timestamp { nanos: (self.nanos + nanos) as u64 }
        }
    }

    pub fn elapsed_since(&self, earlier: Timestamp) -> (d: Span)
        ensures
            d.nanos == self.since(earlier),
    {
        if self.nanos >= earlier.nanos {
            Span { nanos: self.nanos - earlier.nanos }
        } else {
            Span { nanos: 0 }
        }
    }

    pub fn saturating_add(&self, d: Span) -> (t: Timestamp)
        ensures
            t == self.plus(d.nanos as nat),
    {
        if d.nanos > u64::MAX - self.nanos {
            Timestamp { nanos: u64::MAX }
        } else {
            Timestamp { nanos: self.nanos + d.nanos }
        }
    }
}

impl Span {
    pub fn new(nanos: u64) -> (d: Span)
        ensures
            d.nanos == nanos,
    {
        Span { nanos }
    }

    /// A span of whole milliseconds, or `None` where it does not fit.
    pub fn from_millis(millis: u64) -> (d: Option<Span>)
        ensures
            millis * 1_000_000 <= u64::MAX ==> d == Some(Span { nanos: (millis * 1_000_000) as u64 }),
            millis * 1_000_000 > u64::MAX ==> d.is_none(),
    {
        if millis > u64::MAX / 1_000_000 {
            None
        } else {
            Some(Span { nanos: millis * 1_000_000 })
        }
    }
}

impl FrameRate {
    #[verifier::type_invariant]
    spec fn positive(self) -> bool {
        self.mhz > 0
    }

    /// The rate in millihertz.
    pub closed spec fn millihertz(self) -> nat {
        self.mhz as nat
    }

    /// Nanoseconds from one due time to the next: the least whole number
    /// of nanoseconds that is no shorter than `1 / rate`.
    pub open spec fn period_nanos(self) -> nat {
        ((RATE_SCALE + self.millihertz() - 1) / (self.millihertz() as int)) as nat
    }

    /// A rate of `millihertz` thousandths of a frame per second. Zero is
    /// rejected.
    pub fn new(millihertz: u64) -> (r: Result<FrameRate, ConfigError>)
        ensures
            millihertz == 0 ==> r == Err::<FrameRate, ConfigError>(ConfigError::InvalidConfiguration),
            millihertz > 0 ==> r.is_ok() && r.unwrap().millihertz() == millihertz,
    {
        if millihertz == 0 {
            Err(ConfigError::InvalidConfiguration)
        } else {
            Ok(FrameRate { mhz: millihertz })
        }
    }

    /// A rate of `hz` whole frames per second. Zero is rejected.
    pub fn from_hz(hz: u32) -> (r: Result<FrameRate, ConfigError>)
        ensures
            hz == 0 ==> r == Err::<FrameRate, ConfigError>(ConfigError::InvalidConfiguration),
            hz > 0 ==> r.is_ok() && r.unwrap().millihertz() == hz * 1000,
    {
        if hz == 0 {
            Err(ConfigError::InvalidConfiguration)
        } else {
            let wide: u64 = hz as u64;
            Ok(FrameRate { mhz: wide * 1000 })
        }
    }

    pub fn get(&self) -> (m: u64)
        ensures
            m == self.millihertz(),
            m > 0,
    {
        proof {
            use_type_invariant(self);
        }
        self.mhz
    }

    /// Whether `elapsed` nanoseconds are at least `1 / rate`.
    pub open spec fn reached_by(self, elapsed: nat) -> bool {
        elapsed * self.millihertz() >= RATE_SCALE
    }

    pub fn is_reached_by(&self, elapsed: Span) -> (b: bool)
        ensures
            b == self.reached_by(elapsed.nanos as nat),
    {
        let e: u128 = elapsed.nanos as u128;
        let m: u128 = self.mhz as u128;
        assert(e * m <= 0xFFFF_FFFF_FFFF_FFFF * 0xFFFF_FFFF_FFFF_FFFF) by (nonlinear_arith)
            requires
                e <= 0xFFFF_FFFF_FFFF_FFFF,
                m <= 0xFFFF_FFFF_FFFF_FFFF,
        ;
        e * m >= 1_000_000_000_000u128
    }
}

/// How long one frame lasts at `fps`, rounded up to whole nanoseconds.
pub fn fps_to_dur(fps: FrameRate) -> (d: Span)
    ensures
        d.nanos == fps.period_nanos(),
        d.nanos >= 1,
{
    let m: u64 = fps.get();
    proof {
        lemma_period_bounds(fps);
    }
    if m >= RATE_SCALE {
        assert((RATE_SCALE + m - 1) / (m as int) == 1) by (nonlinear_arith)
            requires
                m >= RATE_SCALE,
                RATE_SCALE > 0,
        ;
        Span { nanos: 1 }
    } else {
        Span { nanos: (RATE_SCALE + m - 1) / m }
    }
}

/// The period of a positive rate lies between one nanosecond and a thousand
/// seconds.
pub proof fn lemma_period_bounds(rate: FrameRate)
    requires
        rate.millihertz() > 0,
    ensures
        1 <= rate.period_nanos() <= RATE_SCALE,
{
    let m = rate.millihertz() as int;
    let n = RATE_SCALE as int;
    assert(1 <= (n + m - 1) / m <= n) by (nonlinear_arith)
        requires
            m > 0,
            n > 0,
    ;
}

/// `elapsed` reaches `1 / rate` exactly when it is at least the period in
/// whole nanoseconds.
pub proof fn lemma_period_is_threshold(rate: FrameRate, elapsed: nat)
    requires
        rate.millihertz() > 0,
    ensures
        rate.reached_by(elapsed) <==> elapsed >= rate.period_nanos(),
{
    let m = rate.millihertz() as int;
    let n = RATE_SCALE as int;
    let e = elapsed as int;
    let q = (n + m - 1) / m;
    assert(q * m >= n && (q - 1) * m < n) by (nonlinear_arith)
        requires
            m > 0,
            n > 0,
            q == (n + m - 1) / m,
    ;
    if e >= q {
        assert(e * m >= q * m) by (nonlinear_arith)
            requires
                e >= q,
                m > 0,
        ;
    } else {
        assert(e * m <= (q - 1) * m) by (nonlinear_arith)
            requires
                e <= q - 1,
                m > 0,
        ;
    }
}

impl Interval {
    #[verifier::type_invariant]
    spec fn positive(self) -> bool {
        self.ns > 0
    }

    /// The interval in nanoseconds.
    pub closed spec fn nanos(self) -> nat {
        self.ns as nat
    }

    /// An interval of `span`. An empty span is rejected.
    pub fn new(span: Span) -> (r: Result<Interval, ConfigError>)
        ensures
            span.nanos == 0 ==> r == Err::<Interval, ConfigError>(ConfigError::InvalidConfiguration),
            span.nanos > 0 ==> r.is_ok() && r.unwrap().nanos() == span.nanos,
    {
        if span.nanos == 0 {
            Err(ConfigError::InvalidConfiguration)
        } else {
            Ok(Interval { ns: span.nanos })
        }
    }

    pub fn get(&self) -> (d: Span)
        ensures
            d.nanos == self.nanos(),
            d.nanos > 0,
    {
        proof {
            use_type_invariant(self);
        }
        Span { nanos: self.ns }
    }
}

impl Timing {
    /// Rate and interval are positive. Every policy that the constructors
    /// hand out is well formed.
    pub open spec fn wf(self) -> bool {
        match self {
            Timing::FrameLocked { target_rate, .. } => target_rate.millihertz() > 0,
            Timing::WallClock { interval, .. } => interval.nanos() > 0,
            _ => true,
        }
    }

    /// Time that must have passed since the action last ran for it to be due
    /// again; `None` where it never is.
    pub open spec fn threshold(self) -> Option<nat> {
        match self {
            Timing::Immediate => Some(0nat),
            Timing::FrameLocked { target_rate, .. } => Some(target_rate.period_nanos()),
            Timing::WallClock { interval, .. } => Some(interval.nanos()),
            Timing::Disabled => None,
        }
    }

    /// Whether the guarded action is due at `now`.
    pub open spec fn due(self, now: Timestamp) -> bool {
        match self {
            Timing::Immediate => true,
            Timing::FrameLocked { last_fired, target_rate } => target_rate.reached_by(
                now.since(last_fired),
            ),
            Timing::WallClock { last_fired, interval } => now.since(last_fired) >= interval.nanos(),
            Timing::Disabled => false,
        }
    }

    /// The policy after the guarded action ran at `now`.
    pub open spec fn fired(self, now: Timestamp) -> Timing {
        match self {
            Timing::FrameLocked { last_fired, target_rate } => Timing::FrameLocked {
                last_fired: now,
                target_rate,
            },
            Timing::WallClock { last_fired, interval } => Timing::WallClock {
                last_fired: now,
                interval,
            },
            other => other,
        }
    }

    /// The earliest time at which the action is due, seen from `now`; `None`
    /// where it never is.
    pub open spec fn wake_time(self, now: Timestamp) -> Option<Timestamp> {
        match self {
            Timing::Immediate => Some(now),
            Timing::FrameLocked { last_fired, target_rate } => Some(
                last_fired.plus(target_rate.period_nanos()),
            ),
            Timing::WallClock { last_fired, interval } => Some(last_fired.plus(interval.nanos())),
            Timing::Disabled => None,
        }
    }

    /// A policy locked to `millihertz`, counting from `now`. A rate of zero
    /// is rejected.
    pub fn frame_locked(now: Timestamp, millihertz: u64) -> (r: Result<Timing, ConfigError>)
        ensures
            millihertz == 0 ==> r == Err::<Timing, ConfigError>(ConfigError::InvalidConfiguration),
            millihertz > 0 ==> r.is_ok() && r.unwrap().wf() && (r.unwrap() matches Timing::FrameLocked {
                last_fired,
                target_rate,
            } && last_fired == now && target_rate.millihertz() == millihertz),
    {
        match FrameRate::new(millihertz) {
            Ok(target_rate) => Ok(Timing::FrameLocked { last_fired: now, target_rate }),
            Err(e) => Err(e),
        }
    }

    /// A policy that waits `interval` between runs, counting from `now`. An
    /// empty interval is rejected.
    pub fn wall_clock(now: Timestamp, interval: Span) -> (r: Result<Timing, ConfigError>)
        ensures
            interval.nanos == 0 ==> r == Err::<Timing, ConfigError>(ConfigError::InvalidConfiguration),
            interval.nanos > 0 ==> r.is_ok() && r.unwrap().wf() && (r.unwrap() matches Timing::WallClock {
                last_fired,
                interval: i,
            } && last_fired == now && i.nanos() == interval.nanos),
    {
        match Interval::new(interval) {
            Ok(i) => Ok(Timing::WallClock { last_fired: now, interval: i }),
            Err(e) => Err(e),
        }
    }

    /// Whether the guarded action is due at `now`. Reads the policy only.
    pub fn is_due(&self, now: Timestamp) -> (b: bool)
        ensures
            b == self.due(now),
    {
        match self {
            Timing::Immediate => true,
            Timing::FrameLocked { last_fired, target_rate } => target_rate.is_reached_by(
                now.elapsed_since(*last_fired),
            ),
            Timing::WallClock { last_fired, interval } => {
                let waited: Span = now.elapsed_since(*last_fired);
                let wanted: Span = interval.get();
                waited.nanos >= wanted.nanos
            },
            Timing::Disabled => false,
        }
    }

    /// Tells the policy that the guarded action ran at `now`.
    pub fn just_called(&mut self, now: Timestamp)
        ensures
            *final(self) == old(self).fired(now),
    {
        match *self {
            Timing::FrameLocked { last_fired: _, target_rate } => {
                *self = Timing::FrameLocked { last_fired: now, target_rate };
            },
            Timing::WallClock { last_fired: _, interval } => {
                *self = Timing::WallClock { last_fired: now, interval };
            },
            _ => {},
        }
    }

    /// The earliest time at which the action is due, seen from `now`.
    pub fn next_wake(&self, now: Timestamp) -> (t: Option<Timestamp>)
        ensures
            t == self.wake_time(now),
    {
        match self {
            Timing::Immediate => Some(now),
            Timing::FrameLocked { last_fired, target_rate } => Some(
                last_fired.saturating_add(fps_to_dur(*target_rate)),
            ),
            Timing::WallClock { last_fired, interval } => Some(
                last_fired.saturating_add(interval.get()),
            ),
            Timing::Disabled => None,
        }
    }
}

/// A policy that ran at `t0` is due again `d` nanoseconds later exactly
/// when `d` has reached its threshold: any `d` for an immediate policy, no
/// `d` at all for a disabled one.
pub proof fn lemma_due_after_firing(p: Timing, t0: Timestamp, d: nat)
    requires
        p.wf(),
        t0.nanos + d <= u64::MAX,
    ensures
        p.fired(t0).due(t0.plus(d)) <==> (p.threshold() matches Some(t) && d >= t),
        p.fired(t0).threshold() == p.threshold(),
{
    let later = t0.plus(d);
    assert(later.since(t0) == d);
    match p {
        Timing::FrameLocked { last_fired, target_rate } => {
            lemma_period_is_threshold(target_rate, d);
        },
        _ => {},
    }
}

/// A well-formed policy that ran is still well formed, with the threshold
/// it had; and telling a policy twice that it ran at `now` is telling it
/// once.
pub proof fn lemma_firing_keeps_validity(p: Timing, now: Timestamp)
    requires
        p.wf(),
    ensures
        p.fired(now).wf(),
        p.fired(now).threshold() == p.threshold(),
        p.fired(now).fired(now) == p.fired(now),
{
}

/// Without a firing in between, a policy that is due stays due as time
/// goes on.
pub proof fn lemma_due_stays_due(p: Timing, earlier: Timestamp, later: Timestamp)
    requires
        earlier.nanos <= later.nanos,
        p.due(earlier),
    ensures
        p.due(later),
{
    match p {
        Timing::FrameLocked { last_fired, target_rate } => {
            let a = earlier.since(last_fired);
            let b = later.since(last_fired);
            let m = target_rate.millihertz();
            assert(a * m <= b * m) by (nonlinear_arith)
                requires
                    a <= b,
            ;
        },
        _ => {},
    }
}

} // verus!
