use vstd::prelude::*;

verus! {

/// Integer division rounded toward zero, as Rust's `/` does on signed integers.
pub open spec fn div_toward_zero(a: int, b: int) -> int {
    if a >= 0 {
        if b > 0 {
            a / b
        } else {
            -(a / -b)
        }
    } else {
        if b > 0 {
            -(-a / b)
        } else {
            -a / -b
        }
    }
}

/// `value` carried linearly from the range `from` onto the range `to`.
pub open spec fn remap(value: int, from: (int, int), to: (int, int)) -> int {
    to.0 + div_toward_zero((value - from.0) * (to.1 - to.0), from.1 - from.0)
}

/// Whether `v` fits in an `i64`.
pub open spec fn fits_i64(v: int) -> bool {
    i64::MIN <= v <= i64::MAX
}

/// Maps `value` linearly from the range `from` onto the range `to`, without
/// clamping. Each intermediate step is an `i64` operation, so each must fit.
pub fn remap_value(value: i64, from: (i64, i64), to: (i64, i64)) -> (r: i64)
    requires
        from.0 != from.1,
        fits_i64(value - from.0),
        fits_i64(to.1 - to.0),
        fits_i64(from.1 - from.0),
        fits_i64((value - from.0) * (to.1 - to.0)),
        fits_i64(div_toward_zero((value - from.0) * (to.1 - to.0), from.1 - from.0)),
        fits_i64(remap(value as int, (from.0 as int, from.1 as int), (to.0 as int, to.1 as int))),
    ensures
        r == remap(value as int, (from.0 as int, from.1 as int), (to.0 as int, to.1 as int)),
{
    let span_to: i64 = to.1 - to.0;
    let span_from: i64 = from.1 - from.0;
    let scaled: i64 = (value - from.0) * span_to;
    // Rounding toward zero is unchanged when both signs flip; flipping them
    // in i128 keeps the divisor positive and cannot overflow.
    let q: i64 = if span_from > 0 {
        scaled / span_from
    } else {
        let n: i128 = -(scaled as i128);
        let d: i128 = -(span_from as i128);
        (n / d) as i64
    };
    to.0 + q
}

/// The low end of the source range maps onto the low end of the target
/// range, and the high end onto the high end.
pub proof fn lemma_remap_endpoints(from: (int, int), to: (int, int))
    requires
        from.0 != from.1,
    ensures
        remap(from.0, from, to) == to.0,
        remap(from.1, from, to) == to.1,
{
    let d = from.1 - from.0;
    let t = to.1 - to.0;
    assert(0 * t == 0);
    assert(div_toward_zero(0, d) == 0) by {
        if d > 0 {
            vstd::arithmetic::div_mod::lemma_div_of0(d);
        } else {
            vstd::arithmetic::div_mod::lemma_div_of0(-d);
        }
    }
    assert(div_toward_zero(d * t, d) == t) by {
        if d > 0 {
            vstd::arithmetic::div_mod::lemma_div_multiples_vanish(t, d);
            assert(d * t == t * d) by (nonlinear_arith);
            if t < 0 {
                vstd::arithmetic::div_mod::lemma_div_multiples_vanish(-t, d);
                assert(-(d * t) == (-t) * d) by (nonlinear_arith);
                assert(d * t < 0) by (nonlinear_arith) requires d > 0, t < 0;
            } else {
                assert(d * t >= 0) by (nonlinear_arith) requires d > 0, t >= 0;
            }
        } else {
            if t < 0 {
                vstd::arithmetic::div_mod::lemma_div_multiples_vanish(-t, -d);
                assert(d * t == (-t) * (-d)) by (nonlinear_arith);
                assert(d * t > 0) by (nonlinear_arith) requires d < 0, t < 0;
            } else {
                vstd::arithmetic::div_mod::lemma_div_multiples_vanish(t, -d);
                assert(-(d * t) == t * (-d)) by (nonlinear_arith);
                assert(d * t <= 0) by (nonlinear_arith) requires d < 0, t >= 0;
            }
        }
    }
}

} // verus!
