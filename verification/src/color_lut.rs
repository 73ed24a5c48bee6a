//! Piecewise-linear color lookup.
//!
//! A lookup table is a sequence of `(stop, color)` control points, the
//! stops meant to be non-decreasing over `[0, 1]`. A query scans the
//! adjacent pairs in order and linearly interpolates inside the first pair
//! whose left stop lies at or below the query; a query below every stop,
//! or a table with fewer than two points, yields opaque black. Between two
//! control points with the same stop the left point's channels are taken
//! (there is nothing to interpolate over). The result is always opaque:
//! the alpha channel of the control points is ignored.

use vstd::prelude::*;

verus! {

use crate::fx::{Fx, FX_ONE, divt, sat64, fx_div_s};
use crate::color::Color;

/// A color gradient.
#[derive(Debug)]
pub enum ColorLUT {
    /// Linear gradient: a series of color stops indicating how to
    /// interpolate between the colors.
    LinearGradient(Vec<(Fx, Color)>),
}

/// One interpolated channel: `c1 + (c2 - c1) * coef`, the difference and
/// the result saturated, the product truncated to micro-units.
pub open spec fn lerp_channel(c1: int, c2: int, coef: int) -> int {
    sat64(c1 + divt(sat64(c2 - c1) * coef, FX_ONE as int))
}

/// The color interpolated between the control points `(v1, c1)` and
/// `(v2, c2)` at query `p`.
pub open spec fn interp_color(v1: Fx, c1: Color, v2: Fx, c2: Color, p: Fx) -> Color {
    if v1 == v2 {
        Color(c1.0, c1.1, c1.2, FX_ONE)
    } else {
        let coef = fx_div_s(p - v1, v2 - v1);
        Color(
            lerp_channel(c1.0 as int, c2.0 as int, coef) as Fx,
            lerp_channel(c1.1 as int, c2.1 as int, coef) as Fx,
            lerp_channel(c1.2 as int, c2.2 as int, coef) as Fx,
            FX_ONE,
        )
    }
}

/// What [`ColorLUT::color_at`] returns: the first adjacent pair whose left
/// stop lies at or below `p` interpolates; otherwise opaque black.
pub open spec fn spec_color_at(stops: Seq<(Fx, Color)>, p: Fx) -> Color
    decreases stops.len(),
{
    if stops.len() < 2 {
        Color(0, 0, 0, FX_ONE)
    } else if p >= stops[0].0 {
        interp_color(stops[0].0, stops[0].1, stops[1].0, stops[1].1, p)
    } else {
        spec_color_at(stops.drop_first(), p)
    }
}

impl ColorLUT {
    /// The control points of this gradient.
    pub open spec fn stops(&self) -> Seq<(Fx, Color)> {
        match self {
            ColorLUT::LinearGradient(g) => g@,
        }
    }

    /// Create a linear gradient from its control points.
    pub fn linear(colors: Vec<(Fx, Color)>) -> (r: ColorLUT)
        ensures
            r == ColorLUT::LinearGradient(colors),
    {
        ColorLUT::LinearGradient(colors)
    }

    /// Look the color up at `point`; see [`spec_color_at`].
    pub fn color_at(&self, point: Fx) -> (c: Color)
        ensures
            c == spec_color_at(self.stops(), point),
    {
        match self {
            ColorLUT::LinearGradient(gradient) => {
                let ghost stops = gradient@;
                proof {
                    assert(self.stops() == stops);
                }
                let n: usize = gradient.len();
                let mut i: usize = 0;
                proof {
                    assert(stops.skip(0) =~= stops);
                }
                while i + 1 < n
                    invariant
                        n == stops.len(),
                        0 <= i <= n,
                        i == 0 || i < n,
                        gradient@ == stops,
                        self.stops() == stops,
                        spec_color_at(stops.skip(i as int), point) == spec_color_at(
                            stops,
                            point,
                        ),
                    decreases n - i,
                {
                    let (v1, c1) = gradient[i];
                    let (v2, c2) = gradient[i + 1];
                    if point >= v1 {
                        let c = interp_exec(v1, c1, v2, c2, point);
                        proof {
                            assert(stops.skip(i as int)[0] == stops[i as int]);
                            assert(stops.skip(i as int)[1] == stops[i as int + 1]);
                            assert(stops.skip(i as int).len() >= 2);
                            assert(spec_color_at(stops.skip(i as int), point) == interp_color(
                                v1,
                                c1,
                                v2,
                                c2,
                                point,
                            ));
                        }
                        return c;
                    }
                    proof {
                        assert(stops.skip(i as int).drop_first() =~= stops.skip(i as int + 1));
                    }
                    i = i + 1;
                }
                Color(0, 0, 0, FX_ONE)
            },
        }
    }
}

/// Interpolate between two control points; see [`interp_color`].
fn interp_exec(v1: Fx, c1: Color, v2: Fx, c2: Color, p: Fx) -> (c: Color)
    ensures
        c == interp_color(v1, c1, v2, c2, p),
{
    if v1 == v2 {
        Color(c1.0, c1.1, c1.2, FX_ONE)
    } else {
        let dp: i128 = p as i128 - v1 as i128;
        proof {
            crate::fx::lemma_mul_wide_by_scale_fits(dp as int, FX_ONE as int);
        }
        let num: i128 = dp * FX_ONE as i128;
        let dv: i128 = v2 as i128 - v1 as i128;
        let coef: Fx = crate::fx::sat_narrow(crate::fx::div_i128(num, dv));
        Color(
            lerp_exec(c1.0, c2.0, coef),
            lerp_exec(c1.1, c2.1, coef),
            lerp_exec(c1.2, c2.2, coef),
            FX_ONE,
        )
    }
}

/// One interpolated channel; see [`lerp_channel`].
fn lerp_exec(c1: Fx, c2: Fx, coef: Fx) -> (r: Fx)
    ensures
        r as int == lerp_channel(c1 as int, c2 as int, coef as int),
{
    let diff: Fx = crate::fx::fx_sub_sat(c2, c1);
    proof {
        crate::fx::lemma_mul_i64_fits(diff as int, coef as int);
    }
    let q: i128 = crate::fx::div_i128(diff as i128 * coef as i128, FX_ONE as i128);
    crate::fx::sat_narrow(c1 as i128 + q)
}

} // verus!
