//! The light-selection distribution.
//!
//! A piecewise-constant discrete distribution over the scene's lights,
//! normally built power-proportional by the surrounding driver. Sampling
//! returns the chosen index together with its discrete probability
//! `func[i] / (func_int * n)`.

use vstd::prelude::*;
use crate::fixed::{Fixed, FX_SCALE, sat64, fx_add, fx_div, fx_mul};

verus! {

/// A discrete distribution over `func.len()` entries, with its cumulative
/// table and unnormalised integral.
pub struct Distribution1D {
    pub func: Vec<Fixed>,
    pub cdf: Vec<Fixed>,
    pub func_int: Fixed,
}

/// The running cumulative value before normalisation: each step adds
/// `func[i] / n`.
pub open spec fn spec_cdf_raw(f: Seq<Fixed>, i: int) -> i64
    decreases i,
{
    if i <= 0 {
        0
    } else {
        fx_add(
            spec_cdf_raw(f, i - 1),
            fx_div(f[i - 1].v, sat64((f.len() as int) * (FX_SCALE as int))),
        )
    }
}

/// The stored cumulative value: the raw table normalised by its integral, or
/// the uniform ramp `i / n` when the integral is zero.
pub open spec fn spec_cdf_final(f: Seq<Fixed>, i: int) -> i64 {
    let fi = spec_cdf_raw(f, f.len() as int);
    if fi == 0 {
        fx_div(sat64(i * (FX_SCALE as int)), sat64((f.len() as int) * (FX_SCALE as int)))
    } else {
        fx_div(spec_cdf_raw(f, i), fi)
    }
}

/// The discrete probability of entry `i`.
pub open spec fn spec_discrete_pdf(f: Seq<Fixed>, func_int: Fixed, i: int) -> i64 {
    fx_div(f[i].v, fx_mul(func_int.v, sat64((f.len() as int) * (FX_SCALE as int))))
}

impl Distribution1D {
    /// The distribution is fully built: table sizes line up, the integral is
    /// the last raw cumulative value, and every stored cumulative entry is
    /// the normalised one.
    pub open spec fn wf(self) -> bool {
        &&& self.func@.len() >= 1
        &&& self.cdf@.len() == self.func@.len() + 1
        &&& self.func_int.v == spec_cdf_raw(self.func@, self.func@.len() as int)
        &&& forall|i: int|
            0 <= i < self.cdf@.len() ==> #[trigger] self.cdf@[i].v == spec_cdf_final(self.func@, i)
    }

    /// Build the distribution for the given unnormalised weights.
    pub fn new(func: Vec<Fixed>) -> (d: Distribution1D)
        requires
            func@.len() >= 1,
            func@.len() < usize::MAX,
        ensures
            d.func@ == func@,
            d.wf(),
    {
        let n = func.len();
        let n_fx = Fixed::of_usize(n);
        let mut raw: Vec<Fixed> = Vec::new();
        raw.push(Fixed::zero());
        let mut i: usize = 0;
        while i < n
            invariant
                i <= n,
                n == func@.len(),
                raw@.len() == i + 1,
                n_fx.v == sat64((n as int) * (FX_SCALE as int)),
                forall|j: int| 0 <= j < raw@.len() ==> #[trigger] raw@[j].v == spec_cdf_raw(func@, j),
            decreases n - i,
        {
            let step = func[i].div(n_fx);
            let next = raw[i].add(step);
            raw.push(next);
            i = i + 1;
        }
        let func_int = raw[n];
        let mut cdf: Vec<Fixed> = Vec::new();
        let mut k: usize = 0;
        while k <= n
            invariant
                k <= n + 1,
                n < usize::MAX,
                n == func@.len(),
                raw@.len() == n + 1,
                func_int.v == spec_cdf_raw(func@, n as int),
                n_fx.v == sat64((n as int) * (FX_SCALE as int)),
                forall|j: int| 0 <= j < raw@.len() ==> #[trigger] raw@[j].v == spec_cdf_raw(func@, j),
                cdf@.len() == k,
                forall|j: int| 0 <= j < cdf@.len() ==> #[trigger] cdf@[j].v == spec_cdf_final(func@, j),
            decreases n + 1 - k,
        {
            if func_int.v == 0 {
                cdf.push(Fixed::of_usize(k).div(n_fx));
            } else {
                cdf.push(raw[k].div(func_int));
            }
            k = k + 1;
        }
        Distribution1D { func, cdf, func_int }
    }

    /// The number of entries.
    pub fn count(&self) -> (n: usize)
        ensures
            n == self.func@.len(),
    {
        self.func.len()
    }

    /// Draw an entry for the 1-D sample `u`: the greatest index whose stored
    /// cumulative value does not exceed `u` (zero when there is none),
    /// together with that entry's discrete probability.
    pub fn sample_discrete(&self, u: Fixed) -> (r: (usize, Fixed))
        requires
            self.func@.len() >= 1,
            self.cdf@.len() == self.func@.len() + 1,
        ensures
            r.0 < self.func@.len(),
            r.0 > 0 ==> self.cdf@[r.0 as int].v <= u.v,
            forall|j: int|
                r.0 < j < self.func@.len() ==> #[trigger] self.cdf@[j].v > u.v,
            r.1.v == spec_discrete_pdf(self.func@, self.func_int, r.0 as int),
    {
        let n = self.func.len();
        let mut off: usize = 0;
        let mut j: usize = 1;
        while j < n
            invariant
                1 <= j <= n,
                n == self.func@.len(),
                self.cdf@.len() == n + 1,
                off < j,
                off > 0 ==> self.cdf@[off as int].v <= u.v,
                forall|m: int| off < m < j ==> #[trigger] self.cdf@[m].v > u.v,
            decreases n - j,
        {
            if self.cdf[j].v <= u.v {
                off = j;
            }
            j = j + 1;
        }
        let n_fx = Fixed::of_usize(n);
        let pdf = self.func[off].div(self.func_int.mul(n_fx));
        (off, pdf)
    }
}

} // verus!
