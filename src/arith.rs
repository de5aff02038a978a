use vstd::prelude::*;

verus! {

/// Division of `x` by `d` that rounds toward zero, as Rust's `/` on integers.
pub open spec fn div_toward_zero(x: int, d: int) -> int
    recommends
        d != 0,
{
    if x == 0 {
        0
    } else if x > 0 && d > 0 {
        x / d
    } else if x < 0 && d < 0 {
        (-x) / (-d)
    } else if x < 0 {
        -((-x) / d)
    } else {
        -(x / (-d))
    }
}

pub open spec fn fits_i128(x: int) -> bool {
    i128::MIN <= x <= i128::MAX
}

/// `a * b / c` with the product taken at full width before the division,
/// or `None` where `c` is zero or the product or the quotient does not fit.
pub open spec fn mul_div(a: int, b: int, c: int) -> Option<int> {
    if c == 0 || !fits_i128(a * b) || !fits_i128(div_toward_zero(a * b, c)) {
        None
    } else {
        Some(div_toward_zero(a * b, c))
    }
}

/// Computes `a * b / c`, rounding toward zero; `None` on a zero divisor or
/// where the product or the quotient leaves the range of `i128`.
pub fn safe_mul_div(a: i128, b: i128, c: i128) -> (r: Option<i128>)
    ensures
        r matches Some(v) ==> mul_div(a as int, b as int, c as int) == Some(v as int),
        r is None <==> mul_div(a as int, b as int, c as int) is None,
{
    if c == 0 {
        return None;
    }
    let prod = match a.checked_mul(b) {
        Some(p) => p,
        None => return None,
    };
    prod.checked_div(c)
}

} // verus!
