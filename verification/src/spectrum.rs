//! Spectral throughput weights.
//!
//! Radiance and importance are carried as three fixed-point channels. A
//! subpath's accumulated throughput is required to stay non-negative per
//! channel; the operations here state their results exactly so that callers
//! can prove that invariant.

use vstd::prelude::*;
use crate::fixed::{Fixed, fx_mul, fx_div};

verus! {

/// A three-channel spectral weight.
#[derive(Clone, Copy, PartialEq, Eq, Structural, Debug)]
pub struct Spectrum {
    pub r: Fixed,
    pub g: Fixed,
    pub b: Fixed,
}

/// The zero weight.
pub open spec fn spec_black() -> Spectrum {
    Spectrum { r: Fixed { v: 0 }, g: Fixed { v: 0 }, b: Fixed { v: 0 } }
}

/// All channels are zero.
pub open spec fn spec_is_black(s: Spectrum) -> bool {
    s.r.v == 0 && s.g.v == 0 && s.b.v == 0
}

/// All channels are non-negative: the invariant of every stored throughput.
pub open spec fn spec_is_nonneg(s: Spectrum) -> bool {
    s.r.v >= 0 && s.g.v >= 0 && s.b.v >= 0
}

/// Channelwise product.
pub open spec fn spec_smul(a: Spectrum, b: Spectrum) -> Spectrum {
    Spectrum {
        r: Fixed { v: fx_mul(a.r.v, b.r.v) },
        g: Fixed { v: fx_mul(a.g.v, b.g.v) },
        b: Fixed { v: fx_mul(a.b.v, b.b.v) },
    }
}

/// Scale every channel by a scalar.
pub open spec fn spec_sscale(a: Spectrum, s: Fixed) -> Spectrum {
    Spectrum {
        r: Fixed { v: fx_mul(a.r.v, s.v) },
        g: Fixed { v: fx_mul(a.g.v, s.v) },
        b: Fixed { v: fx_mul(a.b.v, s.v) },
    }
}

/// Divide every channel by a scalar; a zero divisor yields black.
pub open spec fn spec_sdiv(a: Spectrum, s: Fixed) -> Spectrum {
    Spectrum {
        r: Fixed { v: fx_div(a.r.v, s.v) },
        g: Fixed { v: fx_div(a.g.v, s.v) },
        b: Fixed { v: fx_div(a.b.v, s.v) },
    }
}

/// Clamp every channel to the non-negative range.
pub open spec fn spec_clamp_nonneg(s: Spectrum) -> Spectrum {
    Spectrum {
        r: Fixed { v: crate::fixed::fx_max0(s.r.v) },
        g: Fixed { v: crate::fixed::fx_max0(s.g.v) },
        b: Fixed { v: crate::fixed::fx_max0(s.b.v) },
    }
}

/// Channelwise sum.
pub open spec fn spec_sadd(a: Spectrum, b: Spectrum) -> Spectrum {
    Spectrum {
        r: Fixed { v: crate::fixed::fx_add(a.r.v, b.r.v) },
        g: Fixed { v: crate::fixed::fx_add(a.g.v, b.g.v) },
        b: Fixed { v: crate::fixed::fx_add(a.b.v, b.b.v) },
    }
}

impl Spectrum {
    /// The zero weight.
    pub fn black() -> (s: Spectrum)
        ensures
            s == spec_black(),
            spec_is_black(s),
            spec_is_nonneg(s),
    {
        Spectrum { r: Fixed { v: 0 }, g: Fixed { v: 0 }, b: Fixed { v: 0 } }
    }

    /// A uniform weight with the given value in every channel.
    pub fn splat(w: Fixed) -> (s: Spectrum)
        ensures
            s.r == w && s.g == w && s.b == w,
    {
        Spectrum { r: w, g: w, b: w }
    }

    /// True iff every channel is zero.
    pub fn is_black(self) -> (r: bool)
        ensures
            r == spec_is_black(self),
    {
        self.r.v == 0 && self.g.v == 0 && self.b.v == 0
    }

    /// True iff every channel is non-negative.
    pub fn is_nonneg(self) -> (r: bool)
        ensures
            r == spec_is_nonneg(self),
    {
        self.r.v >= 0 && self.g.v >= 0 && self.b.v >= 0
    }

    /// Channelwise product.
    pub fn smul(self, o: Spectrum) -> (r: Spectrum)
        ensures
            r == spec_smul(self, o),
    {
        Spectrum { r: self.r.mul(o.r), g: self.g.mul(o.g), b: self.b.mul(o.b) }
    }

    /// Scale every channel.
    pub fn sscale(self, s: Fixed) -> (r: Spectrum)
        ensures
            r == spec_sscale(self, s),
    {
        Spectrum { r: self.r.mul(s), g: self.g.mul(s), b: self.b.mul(s) }
    }

    /// Divide every channel; a zero divisor yields black.
    pub fn sdiv(self, s: Fixed) -> (r: Spectrum)
        ensures
            r == spec_sdiv(self, s),
    {
        Spectrum { r: self.r.div(s), g: self.g.div(s), b: self.b.div(s) }
    }

    /// Clamp every channel to the non-negative range.
    pub fn clamp_nonneg(self) -> (r: Spectrum)
        ensures
            r == spec_clamp_nonneg(self),
            spec_is_nonneg(r),
    {
        Spectrum { r: self.r.max0(), g: self.g.max0(), b: self.b.max0() }
    }

    /// Channelwise sum.
    pub fn sadd(self, o: Spectrum) -> (r: Spectrum)
        ensures
            r == spec_sadd(self, o),
    {
        Spectrum { r: self.r.add(o.r), g: self.g.add(o.g), b: self.b.add(o.b) }
    }
}

/// Multiplying non-negative spectra keeps every channel non-negative.
pub proof fn lemma_smul_nonneg(a: Spectrum, b: Spectrum)
    requires
        spec_is_nonneg(a),
        spec_is_nonneg(b),
    ensures
        spec_is_nonneg(spec_smul(a, b)),
{
    crate::fixed::lemma_fx_mul_nonneg(a.r.v, b.r.v);
    crate::fixed::lemma_fx_mul_nonneg(a.g.v, b.g.v);
    crate::fixed::lemma_fx_mul_nonneg(a.b.v, b.b.v);
}

/// Scaling a non-negative spectrum by a non-negative scalar keeps it
/// non-negative.
pub proof fn lemma_sscale_nonneg(a: Spectrum, s: Fixed)
    requires
        spec_is_nonneg(a),
        s.v >= 0,
    ensures
        spec_is_nonneg(spec_sscale(a, s)),
{
    crate::fixed::lemma_fx_mul_nonneg(a.r.v, s.v);
    crate::fixed::lemma_fx_mul_nonneg(a.g.v, s.v);
    crate::fixed::lemma_fx_mul_nonneg(a.b.v, s.v);
}

/// Dividing a non-negative spectrum by a non-negative scalar keeps it
/// non-negative.
pub proof fn lemma_sdiv_nonneg(a: Spectrum, s: Fixed)
    requires
        spec_is_nonneg(a),
        s.v >= 0,
    ensures
        spec_is_nonneg(spec_sdiv(a, s)),
{
    crate::fixed::lemma_fx_div_nonneg(a.r.v, s.v);
    crate::fixed::lemma_fx_div_nonneg(a.g.v, s.v);
    crate::fixed::lemma_fx_div_nonneg(a.b.v, s.v);
}

} // verus!
