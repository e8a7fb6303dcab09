//! Timestamps and timebases: conversions between ticks and absolute time, and
//! reduction of a timebase to lowest terms.
use vstd::prelude::*;
use vstd::arithmetic::div_mod::{lemma_div_multiples_vanish, lemma_div_by_self};

verus! {

/// Greatest common divisor, by Euclid's subtraction; `gcd(0, b) == b`.
pub open spec fn gcd(a: nat, b: nat) -> nat
    decreases a + b,
{
    if a == 0 {
        b
    } else if b == 0 {
        a
    } else if a > b {
        gcd((a - b) as nat, b)
    } else if b > a {
        gcd(a, (b - a) as nat)
    } else {
        a
    }
}

/// A timebase in lowest terms; a zero numerator is left as it is.
pub open spec fn reduced_timebase(num: nat, den: nat) -> (nat, nat) {
    if num == 0 {
        (0, den)
    } else {
        (num / gcd(num, den), den / gcd(num, den))
    }
}

/// Both arguments are multiples of their greatest common divisor: the result
/// holds the two factors.
proof fn lemma_gcd_divides(a: nat, b: nat) -> (k: (nat, nat))
    ensures
        a == k.0 * gcd(a, b),
        b == k.1 * gcd(a, b),
    decreases a + b,
{
    let g = gcd(a, b);
    if a == 0 {
        assert(a == 0 * g && b == 1 * g);
        (0, 1)
    } else if b == 0 {
        assert(a == 1 * g && b == 0 * g);
        (1, 0)
    } else if a > b {
        let k = lemma_gcd_divides((a - b) as nat, b);
        assert(g == gcd((a - b) as nat, b));
        assert(a == (k.0 + k.1) * g) by (nonlinear_arith)
            requires
                (a - b) as nat == k.0 * g,
                b == k.1 * g,
                a > b,
        ;
        ((k.0 + k.1) as nat, k.1)
    } else if b > a {
        let k = lemma_gcd_divides(a, (b - a) as nat);
        assert(g == gcd(a, (b - a) as nat));
        assert(b == (k.0 + k.1) * g) by (nonlinear_arith)
            requires
                (b - a) as nat == k.1 * g,
                a == k.0 * g,
                b > a,
        ;
        (k.0, (k.0 + k.1) as nat)
    } else {
        assert(a == 1 * g && b == 1 * g);
        (1, 1)
    }
}

/// Scaling both arguments scales their greatest common divisor.
proof fn lemma_gcd_scale(k: nat, a: nat, b: nat)
    requires
        k > 0,
    ensures
        gcd(k * a, k * b) == k * gcd(a, b),
    decreases a + b,
{
    if a == 0 {
        assert(k * a == 0);
    } else if b == 0 {
        assert(k * b == 0);
    } else if a > b {
        assert(k * a > k * b > 0 && (k * a - k * b) as nat == k * (a - b) as nat) by (nonlinear_arith)
            requires
                k > 0,
                a > b,
                b > 0,
        ;
        lemma_gcd_scale(k, (a - b) as nat, b);
    } else if b > a {
        assert(k * b > k * a > 0 && (k * b - k * a) as nat == k * (b - a) as nat) by (nonlinear_arith)
            requires
                k > 0,
                b > a,
                a > 0,
        ;
        lemma_gcd_scale(k, a, (b - a) as nat);
    } else {
        assert(k * a > 0) by (nonlinear_arith)
            requires
                k > 0,
                a > 0,
        ;
    }
}

/// A number is the greatest common divisor of itself and any multiple of it.
proof fn lemma_gcd_multiple(a: nat, k: nat)
    requires
        a > 0,
    ensures
        gcd(a, k * a) == a,
    decreases k,
{
    if k == 0 {
        assert(k * a == 0) by (nonlinear_arith)
            requires
                k == 0,
        ;
    } else if k > 1 {
        assert(k * a > a && (k * a - a) as nat == (k - 1) as nat * a) by (nonlinear_arith)
            requires
                k > 1,
                a > 0,
        ;
        lemma_gcd_multiple(a, (k - 1) as nat);
    } else {
        assert(k * a == a) by (nonlinear_arith)
            requires
                k == 1,
        ;
    }
}

/// The two parts of a reduced timebase have no common divisor but 1.
proof fn lemma_reduced_coprime(num: nat, den: nat)
    requires
        num > 0,
    ensures
        reduced_timebase(num, den).0 > 0,
        gcd(reduced_timebase(num, den).0, reduced_timebase(num, den).1) == 1,
{
    let g = gcd(num, den);
    let k = lemma_gcd_divides(num, den);
    let x = k.0;
    let y = k.1;
    assert(g > 0 && x > 0) by (nonlinear_arith)
        requires
            num == x * g,
            num > 0,
    ;
    assert(num / g == x) by {
        lemma_div_multiples_vanish(x as int, g as int);
        assert(g * x == x * g) by (nonlinear_arith);
    }
    assert(den / g == y) by {
        lemma_div_multiples_vanish(y as int, g as int);
        assert(g * y == y * g) by (nonlinear_arith);
    }
    lemma_gcd_scale(g, x, y);
    assert(g * x == num && g * y == den) by (nonlinear_arith)
        requires
            num == x * g,
            den == y * g,
    ;
    let c = gcd(x, y);
    assert(c == 1) by (nonlinear_arith)
        requires
            g * c == g,
            g > 0,
    ;
}

/// Reducing a timebase twice gives what reducing it once gives.
pub proof fn lemma_reduce_timebase_idempotent(num: nat, den: nat)
    ensures
        reduced_timebase(reduced_timebase(num, den).0, reduced_timebase(num, den).1) == reduced_timebase(num, den),
{
    if num > 0 {
        lemma_reduced_coprime(num, den);
        let (n, d) = reduced_timebase(num, den);
        assert(n / 1 == n && d / 1 == d);
    }
}

/// Downscales the timebase by its greatest common denominator.
pub fn reduce_timebase(tb_num: u32, tb_den: u32) -> (r: (u32, u32))
    ensures
        (r.0 as nat, r.1 as nat) == reduced_timebase(tb_num as nat, tb_den as nat),
{
    if tb_num == 0 {
        return (tb_num, tb_den);
    }
    if (tb_den % tb_num) == 0 {
        proof {
            let k = (tb_den / tb_num) as nat;
            assert(tb_den == k * tb_num) by (nonlinear_arith)
                requires
                    tb_den % tb_num == 0,
                    tb_num > 0,
                    k == tb_den / tb_num,
            ;
            lemma_gcd_multiple(tb_num as nat, k);
            lemma_div_by_self(tb_num as int);
        }
        return (1, tb_den / tb_num);
    }
    assert(tb_den > 0) by (nonlinear_arith)
        requires
            tb_den % tb_num != 0,
            tb_num > 0,
    ;
    let mut a: u32 = tb_num;
    let mut b: u32 = tb_den;
    while a != b
        invariant
            a > 0,
            b > 0,
            gcd(a as nat, b as nat) == gcd(tb_num as nat, tb_den as nat),
        decreases a + b,
    {
        if a > b {
            a -= b;
        } else if b > a {
            b -= a;
        }
    }
    (tb_num / a, tb_den / a)
}

/// `x`, or the largest `u64` where `x` exceeds it.
pub open spec fn saturate(x: nat) -> nat {
    if x > u64::MAX {
        u64::MAX as nat
    } else {
        x as nat
    }
}

/// Product of `a` and `b`, or the largest `u64` where it does not fit.
fn mul_saturating(a: u64, b: u64) -> (r: u64)
    ensures
        r == saturate(a as nat * b as nat),
{
    match a.checked_mul(b) {
        Some(p) => p,
        None => u64::MAX,
    }
}

/// Ticks of timebase `num / den` in `time` units of `1 / base` seconds: exact
/// where `time * den` fits in 64 bits, else from the whole seconds of `time`,
/// else dividing before multiplying, saturated.
pub open spec fn ticks_of(time: nat, base: nat, num: nat, den: nat) -> nat {
    if time * den <= u64::MAX {
        (time * den) as nat / base / num
    } else if (time / base) * den <= u64::MAX {
        ((time / base) * den) as nat / num
    } else {
        saturate((time / base / num) * den)
    }
}

/// Time in units of `1 / base` seconds of `ts` ticks of timebase `num / den`:
/// exact where `ts * base * num` fits in 64 bits, else dividing by `den` after
/// the first product that fits, else before both, saturated.
pub open spec fn time_of(ts: nat, base: nat, num: nat, den: nat) -> nat {
    if ts * base <= u64::MAX {
        if ts * base * num <= u64::MAX {
            (ts * base * num) as nat / den
        } else {
            saturate((ts * base) as nat / den * num)
        }
    } else if ts * num <= u64::MAX {
        saturate((ts * num) as nat / den * base)
    } else {
        saturate(saturate((ts / den) * base) * num)
    }
}

/// With a millisecond timebase and millisecond time, converting a time to ticks
/// and back gives the time again, wherever `t * 1000` fits in 64 bits.
pub proof fn lemma_millisecond_round_trip(t: nat)
    requires
        t * 1000 <= u64::MAX,
    ensures
        time_of(ticks_of(t, 1000, 1, 1000), 1000, 1, 1000) == t,
{
    assert(ticks_of(t, 1000, 1, 1000) == t);
}

/// Beyond that range both conversions work in whole seconds: the round trip
/// gives `t` rounded down to a multiple of 1000.
proof fn lemma_millisecond_round_trip_coarse(t: nat)
    requires
        t * 1000 > u64::MAX,
        t <= u64::MAX,
    ensures
        time_of(ticks_of(t, 1000, 1, 1000), 1000, 1, 1000) == t / 1000 * 1000,
{
    let y = t / 1000 * 1000;
    assert(ticks_of(t, 1000, 1, 1000) == y);
    assert(y / 1000 == t / 1000);
    if y * 1000 <= u64::MAX {
        assert((y * 1000 * 1) as nat / 1000 == y);
    } else {
        assert(saturate(y * 1 / 1000 * 1000) == y);
    }
}

/// Where `t * 1000` does not fit in 64 bits, the millisecond round trip never
/// panics and does not decrease as `t` grows.
pub proof fn lemma_millisecond_round_trip_monotone(t1: nat, t2: nat)
    requires
        t1 * 1000 > u64::MAX,
        t1 <= t2 <= u64::MAX,
    ensures
        time_of(ticks_of(t1, 1000, 1, 1000), 1000, 1, 1000) <= time_of(ticks_of(t2, 1000, 1, 1000), 1000, 1, 1000),
        time_of(ticks_of(t2, 1000, 1, 1000), 1000, 1, 1000) <= t2,
{
    lemma_millisecond_round_trip_coarse(t1);
    lemma_millisecond_round_trip_coarse(t2);
    assert(t1 / 1000 <= t2 / 1000);
}

/// Timestamp information.
#[derive(Debug, Clone, Copy)]
pub struct NATimeInfo {
    /// Presentation timestamp.
    pub pts: Option<u64>,
    /// Decode timestamp.
    pub dts: Option<u64>,
    /// Duration (in timebase units).
    pub duration: Option<u64>,
    /// Timebase numerator.
    pub tb_num: u32,
    /// Timebase denominator.
    pub tb_den: u32,
}

impl NATimeInfo {
    /// Constructs a new `NATimeInfo` instance.
    pub fn new(pts: Option<u64>, dts: Option<u64>, duration: Option<u64>, tb_num: u32, tb_den: u32) -> (r: Self)
        ensures
            r == (NATimeInfo { pts, dts, duration, tb_num, tb_den }),
    {
        NATimeInfo { pts, dts, duration, tb_num, tb_den }
    }

    /// Returns presentation timestamp.
    pub fn get_pts(&self) -> (r: Option<u64>)
        ensures
            r == self.pts,
    {
        self.pts
    }

    /// Returns decoding timestamp.
    pub fn get_dts(&self) -> (r: Option<u64>)
        ensures
            r == self.dts,
    {
        self.dts
    }

    /// Returns duration.
    pub fn get_duration(&self) -> (r: Option<u64>)
        ensures
            r == self.duration,
    {
        self.duration
    }

    /// Sets new presentation timestamp.
    pub fn set_pts(&mut self, pts: Option<u64>)
        ensures
            *final(self) == (NATimeInfo { pts, ..*old(self) }),
    {
        self.pts = pts;
    }

    /// Sets new decoding timestamp.
    pub fn set_dts(&mut self, dts: Option<u64>)
        ensures
            *final(self) == (NATimeInfo { dts, ..*old(self) }),
    {
        self.dts = dts;
    }

    /// Sets new duration.
    pub fn set_duration(&mut self, dur: Option<u64>)
        ensures
            *final(self) == (NATimeInfo { duration: dur, ..*old(self) }),
    {
        self.duration = dur;
    }

    /// Converts time in given scale into timestamp in given base.
    pub fn time_to_ts(time: u64, base: u64, tb_num: u32, tb_den: u32) -> (r: u64)
        requires
            base > 0,
            tb_num > 0,
        ensures
            r == ticks_of(time as nat, base as nat, tb_num as nat, tb_den as nat),
    {
        let tb_num: u64 = tb_num as u64;
        let tb_den: u64 = tb_den as u64;
        match time.checked_mul(tb_den) {
            Some(tmp) => tmp / base / tb_num,
            None => {
                let coarse: u64 = time / base;
                match coarse.checked_mul(tb_den) {
                    Some(tmp) => tmp / tb_num,
                    None => mul_saturating(coarse / tb_num, tb_den),
                }
            },
        }
    }

    /// Converts timestamp in given base into time in given scale.
    pub fn ts_to_time(ts: u64, base: u64, tb_num: u32, tb_den: u32) -> (r: u64)
        requires
            tb_den > 0,
        ensures
            r == time_of(ts as nat, base as nat, tb_num as nat, tb_den as nat),
    {
        let tb_num: u64 = tb_num as u64;
        let tb_den: u64 = tb_den as u64;
        match ts.checked_mul(base) {
            Some(tmp) => match tmp.checked_mul(tb_num) {
                Some(tmp2) => tmp2 / tb_den,
                None => mul_saturating(tmp / tb_den, tb_num),
            },
            None => match ts.checked_mul(tb_num) {
                Some(tmp) => mul_saturating(tmp / tb_den, base),
                None => mul_saturating(mul_saturating(ts / tb_den, base), tb_num),
            },
        }
    }
}

} // verus!
