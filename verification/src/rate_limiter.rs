//! A token bucket: the admission gate of the rate-limited scan mode.
//!
//! Time is counted in microseconds since the bucket was made and the refill
//! rate in millionths of a token per second, so tokens are counted in
//! millionths of a millionth: the refill over a span of time is then a whole
//! number of units, and capacities and rates may be fractions of a token.

use vstd::prelude::*;

verus! {

/// A point on the monotonic clock.
#[verifier::external_type_specification]
#[verifier::external_body]
pub struct ExInstant(std::time::Instant);

/// Calls `std::time::Instant::now`. Nothing is promised of the clock.
#[verifier::external_body]
fn clock_now() -> (t: std::time::Instant) {
    std::time::Instant::now()
}

/// Calls `std::time::Instant::elapsed`: the time since `anchor`. Nothing is
/// promised of the span.
#[verifier::external_body]
fn elapsed_since(anchor: &std::time::Instant) -> (d: std::time::Duration) {
    anchor.elapsed()
}

/// Calls `std::time::Duration::as_micros`: the whole microseconds of a span.
/// Nothing is promised of the number.
#[verifier::external_body]
fn whole_micros(d: &std::time::Duration) -> (us: u128) {
    d.as_micros()
}

/// The units in one token.
pub const TOKEN: u128 = 1_000_000_000_000;

/// The units in one millionth of a token.
pub const MILLIONTH: u128 = 1_000_000;

/// The state of a bucket: what it holds and can hold, in units; the refill
/// rate in millionths of a token per second, which is units per microsecond;
/// and the time of the last request, in microseconds.
pub struct Bucket {
    pub tokens: nat,
    pub capacity: nat,
    pub refill_rate: nat,
    pub last_refill: nat,
}

/// The time that has passed at `now` since the last request: none where the
/// clock reads earlier than it did then.
pub open spec fn elapsed_at(b: Bucket, now: nat) -> nat {
    if now >= b.last_refill {
        (now - b.last_refill) as nat
    } else {
        0
    }
}

/// What a bucket holds after `elapsed` microseconds of refill: what it held
/// plus the refill, but no more than it can hold.
pub open spec fn refilled(b: Bucket, elapsed: nat) -> nat {
    if b.tokens + elapsed * b.refill_rate < b.capacity {
        b.tokens + elapsed * b.refill_rate
    } else {
        b.capacity
    }
}

/// One request at the time `now`: the bucket is refilled for the time since
/// the last request, that time is advanced to `now`, and a whole token is
/// taken if there is one. The answer says whether one was taken.
pub open spec fn acquired(b: Bucket, now: nat) -> (Bucket, bool) {
    let have = refilled(b, elapsed_at(b, now));
    let last_refill = if now >= b.last_refill {
        now
    } else {
        b.last_refill
    };
    if have >= TOKEN {
        (
            Bucket {
                tokens: (have - TOKEN) as nat,
                capacity: b.capacity,
                refill_rate: b.refill_rate,
                last_refill,
            },
            true,
        )
    } else {
        (
            Bucket { tokens: have, capacity: b.capacity, refill_rate: b.refill_rate, last_refill },
            false,
        )
    }
}

/// The bucket after `count` requests with no time between them.
pub open spec fn drained(b: Bucket, count: nat) -> Bucket
    decreases count,
{
    if count == 0 {
        b
    } else {
        acquired(drained(b, (count - 1) as nat), b.last_refill).0
    }
}

/// A token bucket.
#[derive(Debug)]
pub struct RateLimiter {
    tokens: u128,
    capacity: u128,
    refill_rate: u64,
    last_refill: u64,
    anchor: std::time::Instant,
}

impl View for RateLimiter {
    type V = Bucket;

    closed spec fn view(&self) -> Bucket {
        Bucket {
            tokens: self.tokens as nat,
            capacity: self.capacity as nat,
            refill_rate: self.refill_rate as nat,
            last_refill: self.last_refill as nat,
        }
    }
}

impl RateLimiter {
    /// A bucket holds no more than it can hold.
    #[verifier::type_invariant]
    pub open spec fn wf(&self) -> bool {
        self@.tokens <= self@.capacity
    }

    /// A full bucket that can hold `capacity` millionths of a token and
    /// refills at `refill_rate` millionths of a token per second.
    pub fn with_millionths(capacity: u64, refill_rate: u64) -> (r: RateLimiter)
        ensures
            r.wf(),
            r@ == (Bucket {
                tokens: capacity as nat * MILLIONTH as nat,
                capacity: capacity as nat * MILLIONTH as nat,
                refill_rate: refill_rate as nat,
                last_refill: 0,
            }),
    {
        assert(capacity as nat * MILLIONTH as nat <= u128::MAX) by (nonlinear_arith)
            requires
                capacity <= u64::MAX,
                MILLIONTH == 1_000_000,
        ;
        RateLimiter {
            tokens: capacity as u128 * MILLIONTH,
            capacity: capacity as u128 * MILLIONTH,
            refill_rate,
            last_refill: 0,
            anchor: clock_now(),
        }
    }

    /// A full bucket of `capacity` tokens that refills at `refill_rate` tokens
    /// per second.
    pub fn new(capacity: u32, refill_rate: u32) -> (r: RateLimiter)
        ensures
            r.wf(),
            r@ == (Bucket {
                tokens: capacity as nat * TOKEN as nat,
                capacity: capacity as nat * TOKEN as nat,
                refill_rate: refill_rate as nat * MILLIONTH as nat,
                last_refill: 0,
            }),
    {
        assert(capacity as nat * 1_000_000 * MILLIONTH as nat == capacity as nat * TOKEN as nat)
            by (nonlinear_arith)
            requires
                MILLIONTH == 1_000_000,
                TOKEN == 1_000_000_000_000,
        ;
        Self::with_millionths(capacity as u64 * 1_000_000, refill_rate as u64 * 1_000_000)
    }

    /// What the bucket holds, in units.
    pub fn available(&self) -> (t: u128)
        ensures
            t == self@.tokens,
            t <= self@.capacity,
    {
        proof {
            use_type_invariant(self);
        }
        self.tokens
    }

    /// The time of the last request, in microseconds since the bucket was made.
    pub fn last_refill(&self) -> (t: u64)
        ensures
            t == self@.last_refill,
    {
        self.last_refill
    }

    /// One request at the time `now_micros`.
    pub fn acquire_at(&mut self, now_micros: u64) -> (taken: bool)
        ensures
            final(self).wf(),
            (final(self)@, taken) == acquired(old(self)@, now_micros as nat),
    {
        proof {
            use_type_invariant(&*self);
        }
        let elapsed: u64 = if now_micros >= self.last_refill {
            now_micros - self.last_refill
        } else {
            0
        };
        assert(elapsed as int * self.refill_rate as int <= 0xffff_ffff_ffff_ffff
            * 0xffff_ffff_ffff_ffff) by (nonlinear_arith)
            requires
                0 <= elapsed <= 0xffff_ffff_ffff_ffff,
                0 <= self.refill_rate <= 0xffff_ffff_ffff_ffff,
        ;
        let gain: u128 = elapsed as u128 * self.refill_rate as u128;
        let room: u128 = self.capacity - self.tokens;
        let have: u128 = if gain < room {
            self.tokens + gain
        } else {
            self.capacity
        };
        let last: u64 = if now_micros >= self.last_refill {
            now_micros
        } else {
            self.last_refill
        };
        if have >= TOKEN {
            self.tokens = have - TOKEN;
            self.last_refill = last;
            true
        } else {
            self.tokens = have;
            self.last_refill = last;
            false
        }
    }

    /// The time now, in microseconds since the bucket was made; the greatest
    /// number where the time does not fit.
    fn now_micros(&self) -> (now: u64) {
        let span = elapsed_since(&self.anchor);
        let micros: u128 = whole_micros(&span);
        if micros > u64::MAX as u128 {
            u64::MAX
        } else {
            micros as u64
        }
    }

    /// One request now: the clock is read, the bucket is refilled for the time
    /// since the request before, and that time is advanced to now.
    pub fn acquire(&mut self) -> (taken: bool)
        ensures
            final(self).wf(),
            exists|now: nat| (final(self)@, taken) == #[trigger] acquired(old(self)@, now),
    {
        let now = self.now_micros();
        let taken = self.acquire_at(now);
        assert((self@, taken) == acquired(old(self)@, now as nat));
        taken
    }
}

/// Requests with no time between them succeed while whole tokens are left,
/// and each takes exactly one token: after `count` of them a bucket that held
/// at least `count` tokens holds `count` tokens fewer, and every one of them
/// was granted.
pub proof fn lemma_conservation(b: Bucket, count: nat)
    requires
        b.tokens <= b.capacity,
        count * TOKEN <= b.tokens,
    ensures
        drained(b, count).tokens == b.tokens - count * TOKEN,
        drained(b, count).capacity == b.capacity,
        drained(b, count).refill_rate == b.refill_rate,
        drained(b, count).last_refill == b.last_refill,
        forall|k: nat| k < count ==> (#[trigger] acquired(drained(b, k), b.last_refill)).1,
    decreases count,
{
    if count > 0 {
        let before = (count - 1) as nat;
        assert(before * TOKEN <= b.tokens) by (nonlinear_arith)
            requires
                count * TOKEN <= b.tokens,
                before == count - 1,
                TOKEN >= 0,
        ;
        lemma_conservation(b, before);
        let d = drained(b, before);
        assert(d.tokens == b.tokens - before * TOKEN);
        assert(count * TOKEN == before * TOKEN + TOKEN) by (nonlinear_arith)
            requires
                before == count - 1,
        ;
        assert(0 * d.refill_rate == 0);
        assert(elapsed_at(d, b.last_refill) == 0);
        assert(refilled(d, 0) == d.tokens);
        assert(acquired(d, b.last_refill).1);
        assert forall|k: nat| k < count implies (#[trigger] acquired(
            drained(b, k),
            b.last_refill,
        )).1 by {
            if k < before {
            } else {
                assert(k == before);
            }
        }
    }
}

/// A full bucket of `capacity` tokens holds exactly `capacity - count` tokens
/// after `count` requests with no time between them.
pub proof fn lemma_full_bucket_drains(capacity: nat, refill_rate: nat, last_refill: nat, count: nat)
    requires
        count <= capacity,
    ensures
        drained(
            Bucket {
                tokens: capacity * TOKEN as nat,
                capacity: capacity * TOKEN as nat,
                refill_rate,
                last_refill,
            },
            count,
        ).tokens == (capacity - count) * TOKEN,
{
    let b = Bucket {
        tokens: capacity * TOKEN as nat,
        capacity: capacity * TOKEN as nat,
        refill_rate,
        last_refill,
    };
    assert(count * TOKEN <= capacity * TOKEN) by (nonlinear_arith)
        requires
            count <= capacity,
            TOKEN >= 0,
    ;
    lemma_conservation(b, count);
    assert(capacity * TOKEN - count * TOKEN == (capacity - count) * TOKEN) by (nonlinear_arith);
}

/// A request with no time elapsed on a bucket that holds less than one token
/// is refused and takes nothing.
pub proof fn lemma_empty_bucket_refuses(b: Bucket)
    requires
        b.tokens <= b.capacity,
        b.tokens < TOKEN,
    ensures
        !acquired(b, b.last_refill).1,
        acquired(b, b.last_refill).0 == b,
{
    assert(0 * b.refill_rate == 0);
}

/// A request never leaves more in the bucket than it can hold, and never
/// sets the time of the last request back.
pub proof fn lemma_never_over_capacity(b: Bucket, now: nat)
    requires
        b.tokens <= b.capacity,
    ensures
        acquired(b, now).0.tokens <= b.capacity,
        acquired(b, now).0.capacity == b.capacity,
        acquired(b, now).0.refill_rate == b.refill_rate,
        acquired(b, now).0.last_refill >= b.last_refill,
        acquired(b, now).0.last_refill >= now,
{
}

/// Time that was counted for one refill is not counted again: a second
/// request at the same time gains nothing.
pub proof fn lemma_refill_is_counted_once(b: Bucket, now: nat)
    requires
        b.tokens <= b.capacity,
    ensures
        elapsed_at(acquired(b, now).0, now) == 0,
        refilled(acquired(b, now).0, elapsed_at(acquired(b, now).0, now)) == acquired(b, now).0.tokens,
{
    assert(0 * b.refill_rate == 0);
}

} // verus!
