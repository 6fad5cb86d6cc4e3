//! Exact decimal numbers as the database returns them, and their
//! conversion to integers.
use vstd::prelude::*;
use vstd::arithmetic::power::pow;
use num_traits::ToPrimitive;

verus! {

/// Largest magnitude of a mantissa: 96 bits.
pub const MAX_MANTISSA: i128 = 0xFFFF_FFFF_FFFF_FFFF_FFFF_FFFFi128;

/// Largest number of digits after the decimal point.
pub const MAX_SCALE: u32 = 28;

/// A decimal number `mantissa / 10^scale`, as the database driver hands
/// it over.
pub struct DecimalParts {
    pub mantissa: i128,
    pub scale: u32,
}

impl DecimalParts {
    /// The parts describe a representable decimal.
    pub open spec fn valid(self) -> bool {
        &&& self.scale <= MAX_SCALE
        &&& -MAX_MANTISSA <= self.mantissa <= MAX_MANTISSA
    }

    /// The integral part, the fraction cut off towards zero.
    pub open spec fn truncated(self) -> int {
        let p = pow(10, self.scale as nat);
        if self.mantissa >= 0 {
            self.mantissa as int / p
        } else {
            -((-(self.mantissa as int)) / p)
        }
    }

    /// The integral part as an `i64`, if it fits.
    pub open spec fn to_i64_spec(self) -> Option<i64> {
        let t = self.truncated();
        if i64::MIN <= t <= i64::MAX {
            Some(t as i64)
        } else {
            None
        }
    }
}

/// `Decimal::to_i64` (through `num_traits::ToPrimitive`) of the decimal
/// `mantissa / 10^scale`: the number with its fraction cut off towards
/// zero, when it fits in an `i64`, else `None`. The decimal is built with
/// `Decimal::from_i128_with_scale`, which panics outside the range that
/// `requires` admits.
#[verifier::external_body]
fn decimal_to_i64(mantissa: i128, scale: u32) -> (r: Option<i64>)
    requires
        scale <= MAX_SCALE,
        -MAX_MANTISSA <= mantissa <= MAX_MANTISSA,
    ensures
        r == (DecimalParts { mantissa, scale }).to_i64_spec(),
{
    rust_decimal::Decimal::from_i128_with_scale(mantissa, scale).to_i64()
}

/// The integral part of `d` as an `i64`, if it fits.
pub fn to_i64(d: &DecimalParts) -> (r: Option<i64>)
    requires
        d.valid(),
    ensures
        r == d.to_i64_spec(),
{
    decimal_to_i64(d.mantissa, d.scale)
}

/// Every decimal of `rows` as an `i64`, in order; `None` when one of them
/// does not fit.
pub fn all_to_i64(rows: &Vec<DecimalParts>) -> (r: Option<Vec<i64>>)
    requires
        forall|i: int| 0 <= i < rows.len() ==> rows[i].valid(),
    ensures
        r is Some <==> forall|i: int| 0 <= i < rows.len() ==> rows[i].to_i64_spec() is Some,
        r matches Some(v) ==> v.len() == rows.len() && forall|i: int|
            0 <= i < rows.len() ==> rows[i].to_i64_spec() == Some(#[trigger] v[i]),
{
    let mut out: Vec<i64> = Vec::new();
    let mut i: usize = 0;
    while i < rows.len()
        invariant
            i <= rows.len(),
            forall|k: int| 0 <= k < rows.len() ==> rows[k].valid(),
            out.len() == i,
            forall|k: int| 0 <= k < i ==> rows[k].to_i64_spec() == Some(#[trigger] out[k]),
        decreases rows.len() - i,
    {
        match to_i64(&rows[i]) {
            Some(v) => out.push(v),
            None => return None,
        }
        i = i + 1;
    }
    assert forall|k: int| 0 <= k < rows.len() implies rows[k].to_i64_spec() is Some by {
        assert(rows[k].to_i64_spec() == Some(out[k]));
    }
    Some(out)
}

/// Law: a converted decimal is its integral part, the fraction cut off
/// towards zero: for `mantissa / 10^scale` converted to `x`, the number
/// lies in `[x, x + 1)` when it is not negative and in `(x - 1, x]` when
/// it is; with no digits after the point, a mantissa that fits converts
/// to itself.
pub proof fn lemma_to_i64_truncates(d: DecimalParts)
    requires
        d.valid(),
    ensures
        d.to_i64_spec() matches Some(x) ==> {
            let p = pow(10, d.scale as nat);
            &&& p > 0
            &&& d.mantissa >= 0 ==> x * p <= d.mantissa < (x + 1) * p
            &&& d.mantissa < 0 ==> (x - 1) * p < d.mantissa <= x * p
        },
        d.scale == 0 && i64::MIN <= d.mantissa <= i64::MAX ==> d.to_i64_spec() == Some(
            d.mantissa as i64,
        ),
{
    let p = pow(10, d.scale as nat);
    vstd::arithmetic::power::lemma_pow_positive(10, d.scale as nat);
    vstd::arithmetic::power::lemma_pow0(10);
    let m = d.mantissa as int;
    if m >= 0 {
        let t = m / p;
        vstd::arithmetic::div_mod::lemma_fundamental_div_mod(m, p);
        assert(t * p <= m < (t + 1) * p) by (nonlinear_arith)
            requires
                m == p * (m / p) + m % p,
                0 <= m % p < p,
                t == m / p,
        ;
    } else {
        let a = -m;
        let t = a / p;
        vstd::arithmetic::div_mod::lemma_fundamental_div_mod(a, p);
        assert(-t * p >= m > (-t - 1) * p) by (nonlinear_arith)
            requires
                a == p * (a / p) + a % p,
                0 <= a % p < p,
                t == a / p,
                a == -m,
        ;
    }
}

} // verus!
