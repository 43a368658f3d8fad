//! Generic integer helpers that do not belong to a specific component.

use vstd::prelude::*;

verus! {

/// What the `p` channel of an HSV to RGB conversion evaluates to, as an
/// exact integer formula over the percentages `s` and `v`.
pub open spec fn spec_hsv_channel_p(s: int, v: int) -> int {
    v * (100 - s) * 255 / 10000
}

/// What the `q` channel evaluates to; `fr` is the position within the
/// current 60 degree hue sector.
pub open spec fn spec_hsv_channel_q(s: int, v: int, fr: int) -> int {
    v * (6000 - s * fr) * 255 / 600000
}

/// What the `t` channel evaluates to; `fr` is the position within the
/// current 60 degree hue sector.
pub open spec fn spec_hsv_channel_t(s: int, v: int, fr: int) -> int {
    v * (6000 - s * (60 - fr)) * 255 / 600000
}

/// The RGB triple an HSV triple converts to: the hue wheel is split into
/// six sectors of 60 degrees, and each sector permutes the value, `p`,
/// `q` and `t` channels.
pub open spec fn spec_hsv_to_rgb(h: int, s: int, v: int) -> (int, int, int) {
    let hh = h % 360;
    let sector = hh / 60;
    let fr = hh % 60;
    let rv = v * 255 / 100;
    if s == 0 {
        (rv, rv, rv)
    } else {
        let p = spec_hsv_channel_p(s, v);
        let q = spec_hsv_channel_q(s, v, fr);
        let t = spec_hsv_channel_t(s, v, fr);
        if sector == 0 {
            (rv, t, p)
        } else if sector == 1 {
            (q, rv, p)
        } else if sector == 2 {
            (p, rv, t)
        } else if sector == 3 {
            (p, q, rv)
        } else if sector == 4 {
            (t, p, rv)
        } else {
            (rv, p, q)
        }
    }
}

/// Takes in hsv and outputs rgb, where:
/// h: [0, 360], s: [0, 100], v: [0, 100]
/// r: [0, 255], g: [0, 255], b: [0, 255]
pub fn hsv_to_rgb(h: u16, s: u8, v: u8) -> (rgb: (u8, u8, u8))
    requires
        s <= 100,
        v <= 100,
    ensures
        (rgb.0 as int, rgb.1 as int, rgb.2 as int) == spec_hsv_to_rgb(
            h as int,
            s as int,
            v as int,
        ),
{
    let hh: u16 = h % 360;
    let sector: u16 = hh / 60;
    let fr: u32 = (hh % 60) as u32;
    let sv: u32 = s as u32;
    let vv: u32 = v as u32;

    let rv: u8 = ((vv * 255) / 100) as u8;

    if s == 0 {
        return (rv, rv, rv);
    }

    assert(vv * (100 - sv) * 255 <= 2550000) by (nonlinear_arith)
        requires vv <= 100 && sv <= 100;
    assert(sv * fr <= 6000) by (nonlinear_arith)
        requires sv <= 100 && fr < 60;
    assert(sv * (60 - fr) <= 6000) by (nonlinear_arith)
        requires sv <= 100 && fr < 60;

    let qn: u32 = 6000 - sv * fr;
    let tn: u32 = 6000 - sv * (60 - fr);
    assert(vv * qn * 255 <= 153000000) by (nonlinear_arith)
        requires vv <= 100 && qn <= 6000;
    assert(vv * tn * 255 <= 153000000) by (nonlinear_arith)
        requires vv <= 100 && tn <= 6000;

    let p: u8 = ((vv * (100 - sv) * 255) / 10000) as u8;
    let q: u8 = ((vv * qn * 255) / 600000) as u8;
    let t: u8 = ((vv * tn * 255) / 600000) as u8;

    match sector {
        0 => (rv, t, p),
        1 => (q, rv, p),
        2 => (p, rv, t),
        3 => (p, q, rv),
        4 => (t, p, rv),
        _ => (rv, p, q),
    }
}

/// What clamping to an inclusive range evaluates to.
pub open spec fn spec_clamp(input: int, low: int, high: int) -> int {
    if input < low {
        low
    } else if input > high {
        high
    } else {
        input
    }
}

/// Clamps a number to the inclusive range [`low`, `high`].
pub fn clamp_to_range(input: i64, low: i64, high: i64) -> (r: i64)
    requires
        low <= high,
    ensures
        r == spec_clamp(input as int, low as int, high as int),
{
    if input < low {
        low
    } else if input > high {
        high
    } else {
        input
    }
}

/// The smallest value of an integer sequence, or 0 for an empty one.
pub open spec fn seq_min(s: Seq<int>) -> int
    decreases s.len(),
{
    if s.len() == 0 {
        0
    } else if s.len() == 1 {
        s[0]
    } else {
        let m = seq_min(s.drop_last());
        if s.last() < m {
            s.last()
        } else {
            m
        }
    }
}

/// The largest value of an integer sequence, or 0 for an empty one.
pub open spec fn seq_max(s: Seq<int>) -> int
    decreases s.len(),
{
    if s.len() == 0 {
        0
    } else if s.len() == 1 {
        s[0]
    } else {
        let m = seq_max(s.drop_last());
        if s.last() > m {
            s.last()
        } else {
            m
        }
    }
}

/// The minimum of a non-empty sequence is a lower bound and is attained.
pub proof fn lemma_seq_min_props(s: Seq<int>)
    requires
        s.len() >= 1,
    ensures
        forall|i: int| 0 <= i < s.len() ==> seq_min(s) <= s[i],
        exists|i: int| 0 <= i < s.len() && s[i] == seq_min(s),
    decreases s.len(),
{
    if s.len() == 1 {
        assert(s[0] == seq_min(s));
    } else {
        lemma_seq_min_props(s.drop_last());
        assert forall|i: int| 0 <= i < s.len() implies seq_min(s) <= s[i] by {
            if i < s.len() - 1 {
                assert(s.drop_last()[i] == s[i]);
            }
        }
        if s.last() < seq_min(s.drop_last()) {
            assert(s[s.len() - 1] == seq_min(s));
        } else {
            let i = choose|i: int|
                0 <= i < s.drop_last().len() && s.drop_last()[i] == seq_min(s.drop_last());
            assert(s[i] == seq_min(s));
        }
    }
}

/// The maximum of a non-empty sequence is an upper bound and is attained.
pub proof fn lemma_seq_max_props(s: Seq<int>)
    requires
        s.len() >= 1,
    ensures
        forall|i: int| 0 <= i < s.len() ==> s[i] <= seq_max(s),
        exists|i: int| 0 <= i < s.len() && s[i] == seq_max(s),
    decreases s.len(),
{
    if s.len() == 1 {
        assert(s[0] == seq_max(s));
    } else {
        lemma_seq_max_props(s.drop_last());
        assert forall|i: int| 0 <= i < s.len() implies s[i] <= seq_max(s) by {
            if i < s.len() - 1 {
                assert(s.drop_last()[i] == s[i]);
            }
        }
        if s.last() > seq_max(s.drop_last()) {
            assert(s[s.len() - 1] == seq_max(s));
        } else {
            let i = choose|i: int|
                0 <= i < s.drop_last().len() && s.drop_last()[i] == seq_max(s.drop_last());
            assert(s[i] == seq_max(s));
        }
    }
}

/// Half of a value, rounded toward zero.
pub open spec fn spec_half(v: int) -> int {
    if v >= 0 {
        v / 2
    } else {
        -((-v) / 2)
    }
}

/// The half of a sum of two ordered values lies between them.
pub proof fn lemma_half_between(lo: int, hi: int)
    requires
        lo <= hi,
    ensures
        lo <= spec_half(lo + hi) <= hi,
{
    let s = lo + hi;
    if s >= 0 {
        assert(lo <= s / 2 <= hi) by (nonlinear_arith)
            requires lo <= hi && s == lo + hi && s >= 0,
        ;
    } else {
        assert(lo <= -((-s) / 2) <= hi) by (nonlinear_arith)
            requires lo <= hi && s == lo + hi && s < 0,
        ;
    }
}

/// Halves a value, rounding toward zero.
pub fn half_i64(v: i64) -> (r: i64)
    requires
        i64::MIN < v,
    ensures
        r == spec_half(v as int),
{
    if v >= 0 {
        ((v as u64) / 2) as i64
    } else {
        let m = (((-v) as u64) / 2) as i64;
        -m
    }
}

/// Integer square root: the greatest `r` with `r * r <= n`.
pub fn isqrt(n: u64) -> (r: u64)
    ensures
        r * r <= n < (r + 1) * (r + 1),
{
    let mut lo: u64 = 0;
    let mut hi: u64 = 4294967296;
    assert(n < 4294967296u64 * 4294967296u64) by (nonlinear_arith);
    while lo + 1 < hi
        invariant
            lo < hi <= 4294967296,
            lo * lo <= n,
            n < hi * hi,
        decreases hi - lo,
    {
        let mid: u64 = lo + (hi - lo) / 2;
        assert(lo < mid < hi);
        assert(mid * mid < 4294967296u64 * 4294967296u64) by (nonlinear_arith)
            requires mid < 4294967296u64;
        if mid * mid <= n {
            lo = mid;
        } else {
            hi = mid;
        }
    }
    lo
}

} // verus!
