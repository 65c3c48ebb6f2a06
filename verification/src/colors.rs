//! The colour arithmetic of the cover-art renderer: a boosted foreground
//! (saturated, then brightened) and a darkened background for each pixel.
//!
//! The renderer works in single precision. Scaling a channel by 0.45 or 1.08
//! and rounding gives, for every 8-bit channel, the same as exact decimal
//! arithmetic, so those steps are stated exactly. Saturation does not: there
//! the luma and the channel are computed as binary32 arithmetic computes them,
//! each product and sum rounded to 24 significant bits (ties to even), on
//! integers that count units of 2^-56 or 2^-78, where every such result is
//! exact.

use vstd::prelude::*;
use vstd::arithmetic::div_mod::{lemma_fundamental_div_mod, lemma_div_denominator};

verus! {

/// 2^24: numbers below it have at most 24 significant bits.
pub open spec fn sig_limit() -> nat {
    0x100_0000
}

/// The spacing of numbers with 24 significant bits at the magnitude of `n`:
/// one below 2^24, doubling with each further bit of `n`.
pub open spec fn spacing(n: nat) -> nat
    decreases n,
{
    if n < sig_limit() {
        1
    } else {
        2 * spacing(n / 2)
    }
}

/// `n` rounded to the nearest multiple of `p`, ties to the even multiple.
pub open spec fn round_to(n: nat, p: nat) -> nat {
    let q = n / p;
    let r = n % p;
    if 2 * r < p || (2 * r == p && q % 2 == 0) {
        q * p
    } else {
        (q + 1) * p
    }
}

/// `n` rounded to 24 significant bits, ties to even.
pub open spec fn round_sig(n: nat) -> nat {
    round_to(n, spacing(n))
}

/// `x` rounded as binary32 rounds a result: magnitude to 24 significant bits,
/// ties to even, sign kept.
#[verifier::opaque]
pub open spec fn round_single(x: int) -> int {
    if x < 0 {
        -(round_sig((-x) as nat) as int)
    } else {
        round_sig(x as nat) as int
    }
}

/// The binary32 constants 0.299, 0.587, 0.114 and 1.22 are these numerators
/// over 2^25, 2^23, 2^27 and 2^22.
pub open spec fn red_weight() -> int {
    10032775
}

pub open spec fn green_weight() -> int {
    4924113
}

pub open spec fn blue_weight() -> int {
    15300821
}

pub open spec fn saturation() -> int {
    5117051
}

/// The luma `0.299 r + 0.587 g + 0.114 b` as binary32 computes it, in units
/// of 2^-56.
pub open spec fn luma(c: [u8; 3]) -> int {
    let red = round_single(red_weight() * c[0] * 0x8000_0000);
    let green = round_single(green_weight() * c[1] * 0x2_0000_0000);
    let blue = round_single(blue_weight() * c[2] * 0x2000_0000);
    round_single(round_single(red + green) + blue)
}

/// 2^56 and 2^78: the units of the luma and of the saturated channel.
pub open spec fn unit56() -> int {
    0x100_0000_0000_0000
}

pub open spec fn unit78() -> int {
    0x4000_0000_0000_0000_0000
}

/// A channel pushed away from the luma by the factor 1.22:
/// `luma + (v - luma) * 1.22` as binary32 computes it, in units of 2^-78.
pub open spec fn saturated(v: u8, luma: int) -> int {
    let diff = round_single(v * unit56() - luma);
    round_single(luma * 0x40_0000 + round_single(diff * saturation()))
}

/// Channel `i` of the cover art's foreground colour for pixel `c`.
pub open spec fn boosted(c: [u8; 3], i: int) -> u8 {
    scaled(to_channel(saturated(c[i], luma(c))), 108)
}

/// A value in units of 2^-78 clamped to 0..=255 and rounded to the nearest
/// integer, halves away from zero.
pub open spec fn to_channel(x: int) -> u8 {
    if x <= 0 {
        0
    } else if x >= 255 * unit78() {
        255
    } else {
        ((x + unit78() / 2) / unit78()) as u8
    }
}

/// A channel scaled by `percent / 100`, rounded to the nearest integer
/// (halves away from zero) and capped at 255.
pub open spec fn scaled(v: u8, percent: nat) -> u8 {
    let x = (v * percent + 50) / 100;
    if x > 255 {
        255
    } else {
        x as u8
    }
}

/// Lemma: beyond 24 bits, the spacing at `n` is twice the spacing at `n / 2`.
proof fn lemma_spacing_step(n: nat)
    requires
        n >= sig_limit(),
    ensures
        spacing(n) == 2 * spacing(n / 2),
{
}

/// Rounds `n` to 24 significant bits, as `round_sig` says.
fn round_sig_u128(n: u128) -> (r: u128)
    requires
        n < 0x1_0000_0000_0000_0000_0000_0000,
    ensures
        r == round_sig(n as nat),
        r <= 2 * n,
{
    let mut p: u128 = 1;
    let mut m: u128 = n;
    while m >= 0x100_0000
        invariant
            n < 0x1_0000_0000_0000_0000_0000_0000,
            p >= 1,
            m == n / p,
            spacing(n as nat) == p * spacing(m as nat),
            p == 1 || p <= n,
        decreases m,
    {
        proof {
            lemma_spacing_step(m as nat);
            lemma_div_denominator(n as int, p as int, 2);
            lemma_fundamental_div_mod(n as int, p as int);
            assert(p * m <= n) by (nonlinear_arith)
                requires
                    m == n / p,
                    n == p * (n / p) + n % p,
                    n % p >= 0,
            ;
            assert(2 * p <= n) by (nonlinear_arith)
                requires
                    p * m <= n,
                    m >= 0x100_0000,
                    p >= 1,
            ;
            assert(p * spacing(m as nat) * 1 == p * (2 * spacing((m / 2) as nat)));
            assert(p * (2 * spacing((m / 2) as nat)) == (2 * p) * spacing((m / 2) as nat))
                by (nonlinear_arith);
        }
        m = m / 2;
        p = p * 2;
    }
    proof {
        assert(spacing(m as nat) == 1);
        assert(p == spacing(n as nat)) by (nonlinear_arith)
            requires
                spacing(n as nat) == p * spacing(m as nat),
                spacing(m as nat) == 1,
        ;
        lemma_fundamental_div_mod(n as int, p as int);
    }
    let q = n / p;
    let rem = n % p;
    proof {
        assert(q * p <= n) by (nonlinear_arith)
            requires
                n == p * q + rem,
                rem >= 0,
        ;
    }
    if 2 * rem < p || (2 * rem == p && q % 2 == 0) {
        q * p
    } else {
        proof {
            assert(p != 1);
            assert((q + 1) * p == q * p + p) by (nonlinear_arith);
        }
        (q + 1) * p
    }
}

/// Rounds `x` as binary32 rounds a result, as `round_single` says.
fn round_single_i128(x: i128) -> (r: i128)
    requires
        -0x1_0000_0000_0000_0000_0000_0000 < x < 0x1_0000_0000_0000_0000_0000_0000,
    ensures
        r == round_single(x as int),
        -2 * (x as int) <= r <= 2 * (x as int) || 2 * (x as int) <= r <= -2 * (x as int),
        x >= 0 ==> 0 <= r <= 2 * x,
{
    reveal(round_single);
    if x < 0 {
        let m = round_sig_u128((-x) as u128);
        -(m as i128)
    } else {
        let m = round_sig_u128(x as u128);
        m as i128
    }
}

/// The luma of a pixel, as `luma` says.
fn luma_of(c: [u8; 3]) -> (l: i128)
    ensures
        l == luma(c),
        0 <= l <= 0x40_0000_0000_0000_0000,
{
    let red = round_single_i128(10032775 * (c[0] as i128) * 0x8000_0000);
    let green = round_single_i128(4924113 * (c[1] as i128) * 0x2_0000_0000);
    let blue = round_single_i128(15300821 * (c[2] as i128) * 0x2000_0000);
    let rg = round_single_i128(red + green);
    round_single_i128(rg + blue)
}

/// One channel of a saturated pixel, as `to_channel(saturated(..))` says.
fn saturate_channel(v: u8, luma: i128) -> (r: u8)
    requires
        0 <= luma <= 0x40_0000_0000_0000_0000,
    ensures
        r == to_channel(saturated(v, luma as int)),
{
    let diff = round_single_i128((v as i128) * 0x100_0000_0000_0000 - luma);
    proof {
        assert(-0x80_0000_0000_0000_0000 <= diff <= 0x80_0000_0000_0000_0000);
        assert(-0x80_0000_0000_0000_0000 * 5117051 <= diff * 5117051 <= 0x80_0000_0000_0000_0000
            * 5117051) by (nonlinear_arith)
            requires
                -0x80_0000_0000_0000_0000 <= diff <= 0x80_0000_0000_0000_0000,
        ;
    }
    let pushed = round_single_i128(diff * 5117051);
    let x = round_single_i128(luma * 0x40_0000 + pushed);
    if x <= 0 {
        0
    } else if x >= 255 * 0x4000_0000_0000_0000_0000 {
        255
    } else {
        ((x + 0x2000_0000_0000_0000_0000) / 0x4000_0000_0000_0000_0000) as u8
    }
}

/// A channel scaled by `percent / 100`, as `scaled` says.
fn scale_channel(v: u8, percent: u32) -> (r: u8)
    requires
        percent <= 200,
    ensures
        r == scaled(v, percent as nat),
{
    proof {
        assert((v as u32) * percent <= 255 * 200) by (nonlinear_arith)
            requires
                v <= 255,
                percent <= 200,
        ;
    }
    let x: u32 = ((v as u32) * percent + 50) / 100;
    if x > 255 {
        255
    } else {
        x as u8
    }
}

/// The cover art's foreground colour for a pixel: each channel saturated by
/// 1.22 around the pixel's luma, then brightened by 1.08.
pub fn boost_color(c: [u8; 3]) -> (r: [u8; 3])
    ensures
        r[0] == boosted(c, 0),
        r[1] == boosted(c, 1),
        r[2] == boosted(c, 2),
{
    let l = luma_of(c);
    let r = scale_channel(saturate_channel(c[0], l), 108);
    let g = scale_channel(saturate_channel(c[1], l), 108);
    let b = scale_channel(saturate_channel(c[2], l), 108);
    [r, g, b]
}

/// The cover art's background colour for a pixel: each channel scaled by
/// 0.45.
pub fn darken_color(c: [u8; 3]) -> (r: [u8; 3])
    ensures
        r[0] == scaled(c[0], 45),
        r[1] == scaled(c[1], 45),
        r[2] == scaled(c[2], 45),
{
    [scale_channel(c[0], 45), scale_channel(c[1], 45), scale_channel(c[2], 45)]
}

/// Lemma: the spacing at `n` is at least one, and at most `n / 2^23` once
/// `n` has more than 24 bits.
proof fn lemma_spacing_bound(n: nat)
    ensures
        spacing(n) >= 1,
        n >= sig_limit() ==> spacing(n) * 0x80_0000 <= n,
    decreases n,
{
    if n >= sig_limit() {
        lemma_spacing_bound(n / 2);
    }
}

/// Lemma: rounding to 24 significant bits moves `n` by at most `n / 2^24`.
pub proof fn lemma_round_sig_error(n: nat)
    ensures
        (round_sig(n) - n) * 0x100_0000 <= n,
        (n - round_sig(n)) * 0x100_0000 <= n,
{
    lemma_spacing_bound(n);
    let p = spacing(n);
    let q = n / p;
    let r = n % p;
    lemma_fundamental_div_mod(n as int, p as int);
    assert(0 <= r < p);
    if n < sig_limit() {
        assert(p == 1);
        assert(r == 0);
        assert(q == n) by (nonlinear_arith)
            requires
                n == p * q + r,
                p == 1,
                r == 0,
        ;
        assert(round_sig(n) == n);
    } else {
        if 2 * r < p || (2 * r == p && q % 2 == 0) {
            assert(round_sig(n) == q * p);
            assert((n - q * p) * 0x100_0000 <= n && q * p <= n) by (nonlinear_arith)
                requires
                    n == p * q + r,
                    2 * r <= p,
                    r >= 0,
                    p * 0x80_0000 <= n,
            ;
        } else {
            assert(round_sig(n) == (q + 1) * p);
            assert(((q + 1) * p - n) * 0x100_0000 <= n && (q + 1) * p >= n) by (nonlinear_arith)
                requires
                    n == p * q + r,
                    2 * r >= p,
                    r < p,
                    p * 0x80_0000 <= n,
            ;
        }
    }
}

/// Lemma: rounding as binary32 moves `x` by at most `|x| / 2^24`.
pub proof fn lemma_round_single_error(x: int)
    ensures
        close(round_single(x), x),
{
    reveal(round_single);
    if x < 0 {
        lemma_round_sig_error((-x) as nat);
    } else {
        lemma_round_sig_error(x as nat);
    }
}

/// `|x|`.
pub open spec fn magnitude(x: int) -> int {
    if x < 0 {
        -x
    } else {
        x
    }
}

/// Whether `r` is within `|x| / 2^24` of `x`, as a binary32 rounding of `x` is.
pub open spec fn close(r: int, x: int) -> bool {
    (r - x) * 0x100_0000 <= magnitude(x) && (x - r) * 0x100_0000 <= magnitude(x)
}

/// The error bookkeeping behind `lemma_grey_saturation`, on plain integers.
proof fn lemma_grey_error_chain(
    a: int,
    r1: int,
    r2: int,
    r3: int,
    s12: int,
    l: int,
    d: int,
    p: int,
    x: int,
)
    requires
        0 <= a <= 255,
        close(r1, red_weight() * a * 0x8000_0000),
        close(r2, green_weight() * a * 0x2_0000_0000),
        close(r3, blue_weight() * a * 0x2000_0000),
        close(s12, r1 + r2),
        close(l, s12 + r3),
        close(d, a * unit56() - l),
        close(p, d * saturation()),
        close(x, l * 0x40_0000 + p),
    ensures
        a * unit78() - unit78() / 2 < x < a * unit78() + unit78() / 2,
{
    let t1 = red_weight() * a * 0x8000_0000;
    let t2 = green_weight() * a * 0x2_0000_0000;
    let t3 = blue_weight() * a * 0x2000_0000;
    assert(0 <= t1 && 0 <= t2 && 0 <= t3);
    assert(0 <= r1 && 0 <= r2 && 0 <= r3);
    assert(0 <= s12 && 0 <= l);
    assert(l <= 2 * a * unit56());
    assert(magnitude(a * unit56() - l) * 0x40_0000 <= a * unit56());
    assert(magnitude(d) * 0x20_0000 <= a * unit56());
    assert(magnitude(p) <= 2 * magnitude(d) * saturation());
    assert(magnitude(l * 0x40_0000 + p - a * unit78()) <= 0x8000_0000_0000_0000);
    assert(magnitude(x - a * unit78()) <= 0x1_0000_0000_0000_0000);
}

/// Lemma: saturating a grey pixel leaves each channel at its value; the
/// roundings of the luma and of the push away from it stay far below half a
/// unit.
pub proof fn lemma_grey_saturation(v: u8)
    ensures
        to_channel(saturated(v, luma([v, v, v]))) == v,
{
    let c = [v, v, v];
    let a = v as int;
    let t1 = red_weight() * a * 0x8000_0000;
    let t2 = green_weight() * a * 0x2_0000_0000;
    let t3 = blue_weight() * a * 0x2000_0000;
    let r1 = round_single(t1);
    let r2 = round_single(t2);
    let r3 = round_single(t3);
    lemma_round_single_error(t1);
    lemma_round_single_error(t2);
    lemma_round_single_error(t3);
    let s12 = round_single(r1 + r2);
    lemma_round_single_error(r1 + r2);
    let l = round_single(s12 + r3);
    lemma_round_single_error(s12 + r3);
    let d = round_single(a * unit56() - l);
    lemma_round_single_error(a * unit56() - l);
    let p = round_single(d * saturation());
    lemma_round_single_error(d * saturation());
    let x = round_single(l * 0x40_0000 + p);
    lemma_round_single_error(l * 0x40_0000 + p);
    lemma_grey_error_chain(a, r1, r2, r3, s12, l, d, p, x);
    lemma_to_channel_near(v, x);
    assert(l == luma(c));
    assert(x == saturated(v, l));
}

/// Lemma: a value within half a unit of `v` becomes the channel `v`.
proof fn lemma_to_channel_near(v: u8, x: int)
    requires
        v * unit78() - unit78() / 2 < x < v * unit78() + unit78() / 2,
    ensures
        to_channel(x) == v,
{
}

/// Lemma: `n` lies below 2^24 spacings.
proof fn lemma_below_spacing_range(n: nat)
    ensures
        n < sig_limit() * spacing(n),
    decreases n,
{
    if n >= sig_limit() {
        lemma_below_spacing_range(n / 2);
    }
}

/// Lemma: the spacing grows with `n`, by doubling.
proof fn lemma_spacing_monotone(n: nat, m: nat)
    requires
        n <= m,
    ensures
        spacing(n) == spacing(m) || spacing(m) >= 2 * spacing(n),
    decreases m,
{
    lemma_spacing_bound(n);
    lemma_spacing_bound(m);
    if n >= sig_limit() {
        lemma_spacing_monotone(n / 2, m / 2);
    } else if m >= sig_limit() {
        lemma_spacing_bound(m / 2);
    }
}

/// Lemma: rounding to a fixed spacing keeps the order of its arguments.
proof fn lemma_round_to_monotone(n: nat, m: nat, p: nat)
    requires
        n <= m,
        p >= 1,
    ensures
        round_to(n, p) <= round_to(m, p),
{
    lemma_fundamental_div_mod(n as int, p as int);
    lemma_fundamental_div_mod(m as int, p as int);
    let qn = n / p;
    let qm = m / p;
    let rn = n % p;
    let rm = m % p;
    assert(qn <= qm) by (nonlinear_arith)
        requires
            n == p * qn + rn,
            m == p * qm + rm,
            0 <= rn < p,
            0 <= rm < p,
            n <= m,
    ;
    if qn < qm {
        assert(round_to(n, p) <= (qn + 1) * p) by (nonlinear_arith)
            requires
                round_to(n, p) == qn * p || round_to(n, p) == (qn + 1) * p,
                p >= 1,
        ;
        assert((qn + 1) * p <= qm * p) by (nonlinear_arith)
            requires
                qn < qm,
                p >= 1,
        ;
        assert(qm * p <= round_to(m, p)) by (nonlinear_arith)
            requires
                round_to(m, p) == qm * p || round_to(m, p) == (qm + 1) * p,
                p >= 1,
        ;
    } else {
        assert(rn <= rm) by (nonlinear_arith)
            requires
                n == p * qn + rn,
                m == p * qm + rm,
                qn == qm,
                n <= m,
        ;
        assert((qn + 1) * p == qn * p + p) by (nonlinear_arith);
    }
}

/// Lemma: rounding to 24 significant bits keeps the order of its arguments.
proof fn lemma_round_sig_monotone(n: nat, m: nat)
    requires
        n <= m,
    ensures
        round_sig(n) <= round_sig(m),
{
    lemma_spacing_monotone(n, m);
    lemma_spacing_bound(n);
    lemma_spacing_bound(m);
    let pn = spacing(n);
    let pm = spacing(m);
    if pn == pm {
        lemma_round_to_monotone(n, m, pn);
    } else {
        lemma_below_spacing_range(n);
        lemma_fundamental_div_mod(n as int, pn as int);
        lemma_fundamental_div_mod(m as int, pm as int);
        let qn = n / pn;
        let qm = m / pm;
        assert(m >= sig_limit());
        assert(qn + 1 <= sig_limit()) by (nonlinear_arith)
            requires
                n == pn * qn + n % pn,
                n % pn >= 0,
                n < sig_limit() * pn,
                pn >= 1,
        ;
        assert(round_sig(n) <= sig_limit() * pn) by (nonlinear_arith)
            requires
                round_sig(n) == qn * pn || round_sig(n) == (qn + 1) * pn,
                qn + 1 <= sig_limit(),
                pn >= 1,
        ;
        assert(qm >= 0x80_0000) by (nonlinear_arith)
            requires
                m == pm * qm + m % pm,
                0 <= m % pm < pm,
                pm * 0x80_0000 <= m,
                pm >= 1,
        ;
        assert(sig_limit() * pn <= qm * pm) by (nonlinear_arith)
            requires
                qm >= 0x80_0000,
                pm >= 2 * pn,
                pn >= 1,
        ;
        assert(qm * pm <= round_sig(m)) by (nonlinear_arith)
            requires
                round_sig(m) == qm * pm || round_sig(m) == (qm + 1) * pm,
                pm >= 1,
        ;
    }
}

/// Lemma: binary32 rounding keeps the order of its arguments.
pub proof fn lemma_round_single_monotone(x: int, y: int)
    requires
        x <= y,
    ensures
        round_single(x) <= round_single(y),
{
    reveal(round_single);
    if x >= 0 {
        lemma_round_sig_monotone(x as nat, y as nat);
    } else if y < 0 {
        lemma_round_sig_monotone((-y) as nat, (-x) as nat);
    }
}

/// Lemma: saturation keeps the order of channels around one luma.
pub proof fn lemma_saturated_monotone(u: u8, v: u8, l: int)
    requires
        u <= v,
    ensures
        to_channel(saturated(u, l)) <= to_channel(saturated(v, l)),
{
    lemma_round_single_monotone(u * unit56() - l, v * unit56() - l);
    let du = round_single(u * unit56() - l);
    let dv = round_single(v * unit56() - l);
    lemma_round_single_monotone(du * saturation(), dv * saturation());
    let pu = round_single(du * saturation());
    let pv = round_single(dv * saturation());
    lemma_round_single_monotone(l * 0x40_0000 + pu, l * 0x40_0000 + pv);
    let xu = round_single(l * 0x40_0000 + pu);
    let xv = round_single(l * 0x40_0000 + pv);
    assert(xu == saturated(u, l));
    assert(xv == saturated(v, l));
    if 0 < xu && xv < 255 * unit78() {
        vstd::arithmetic::div_mod::lemma_div_is_ordered(
            xu + unit78() / 2,
            xv + unit78() / 2,
            unit78(),
        );
    }
}

} // verus!
