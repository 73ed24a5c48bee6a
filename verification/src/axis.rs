//! One-dimensional numeric axes: range tracking, auto-ranging over data
//! series, the data-value to local-coordinate mapping, and tick layout.
//!
//! An axis owns a numeric range `lims` that is never degenerate: equal
//! limits are widened by one half unit on each side when the axis is
//! built. An X axis maps increasing values to increasing local
//! coordinates; a Y axis maps increasing values to decreasing local
//! coordinates. Tick generation lays ten ticks over the local frame and
//! pairs each position with its data value in one sweep, so positions and
//! values can never drift apart.

use vstd::prelude::*;

verus! {

use crate::fx::{Fx, FX_ONE, FX_HALF, divq, sat64};
use crate::backend::{Path, Text};
use vstd::string::StringExecFns;

/// The orientation of an axis.
#[derive(Copy, Clone, PartialEq, Eq, Structural, Debug)]
pub enum AxisType {
    XAxis,
    YAxis,
}

/// A numeric range along one dimension, with its orientation and a
/// visibility flag.
#[derive(Debug)]
pub struct Axis {
    pub axis_type: AxisType,
    /// The numeric range. Never degenerate when built through the
    /// constructors of this module.
    pub lims: (Fx, Fx),
    pub visible: bool,
}

/// How many ticks an axis lays out.
pub const TICK_COUNT: usize = 10;

/// The length of a tick mark, in local coordinates.
pub const TICK_SIZE: Fx = 50_000;

/// The local-coordinate distance between adjacent ticks: the local frame
/// spans two units and holds [`TICK_COUNT`] ticks.
pub const TICK_STEP: Fx = 200_000;

/// The font size of tick labels.
pub const DEFAULT_FONT_SIZE: Fx = 10_000_000;

/// A degenerate interval is widened by one half unit on each side;
/// anything else passes through.
pub open spec fn widened(lims: (Fx, Fx)) -> (int, int) {
    if lims.0 == lims.1 {
        (sat64(lims.0 - FX_HALF), sat64(lims.1 + FX_HALF))
    } else {
        (lims.0 as int, lims.1 as int)
    }
}

/// Widening always yields a non-degenerate interval.
pub proof fn lemma_widened_distinct(lims: (Fx, Fx))
    ensures
        widened(lims).0 != widened(lims).1,
{
}

/// Where the data value `v` falls in the local `[-1, 1]` frame of an axis
/// with range `lims`: an X axis maps `lims.0` to `-1` and `lims.1` to
/// `1`; a Y axis maps `lims.0` to `1` and `lims.1` to `-1`.
pub open spec fn world_coord(axis_type: AxisType, lims: (Fx, Fx), v: int) -> int
    recommends
        lims.0 != lims.1,
{
    let scaled = divq((v - lims.0) * (2 * FX_ONE), lims.1 - lims.0);
    match axis_type {
        AxisType::XAxis => sat64(-FX_ONE + scaled),
        AxisType::YAxis => sat64(FX_ONE - scaled),
    }
}

/// Law: the world-coordinate mapping sends the range ends onto the
/// ends of the local frame. On a non-degenerate range of small scalars
/// an X axis maps the low limit exactly to `-1` and the high limit
/// exactly to `1`; a Y axis maps them to `1` and `-1`.
pub proof fn lemma_world_coord_ends(lims: (Fx, Fx))
    requires
        lims.0 != lims.1,
    ensures
        world_coord(AxisType::XAxis, lims, lims.0 as int) == -FX_ONE,
        world_coord(AxisType::XAxis, lims, lims.1 as int) == FX_ONE,
        world_coord(AxisType::YAxis, lims, lims.0 as int) == FX_ONE,
        world_coord(AxisType::YAxis, lims, lims.1 as int) == -FX_ONE,
{
    let d = lims.1 - lims.0;
    vstd::arithmetic::div_mod::lemma_div_of0(if d < 0 {
        -d
    } else {
        d
    });
    assert(divq(0 * (2 * FX_ONE), d) == 0);
    if d > 0 {
        vstd::arithmetic::div_mod::lemma_div_multiples_vanish(2 * FX_ONE as int, d);
        assert(divq(d * (2 * FX_ONE), d) == 2 * FX_ONE);
    } else {
        vstd::arithmetic::div_mod::lemma_div_multiples_vanish(2 * FX_ONE as int, -d);
        assert(-(d * (2 * FX_ONE)) == (-d) * (2 * FX_ONE)) by (nonlinear_arith);
        assert(divq(d * (2 * FX_ONE), d) == 2 * FX_ONE);
    }
}

/// The data-value distance between adjacent ticks.
pub open spec fn tick_val_step(lims: (Fx, Fx)) -> int {
    divq(lims.1 - lims.0, TICK_COUNT as int)
}

/// The local-frame position of tick `k`: ticks start at the low end of
/// the local frame of their orientation and step by [`TICK_STEP`].
pub open spec fn tick_pos_at(axis_type: AxisType, k: int) -> int {
    match axis_type {
        AxisType::XAxis => -FX_ONE + k * TICK_STEP,
        AxisType::YAxis => FX_ONE - k * TICK_STEP,
    }
}

/// The data value of tick `k`: the low limit plus `k` value steps.
pub open spec fn tick_val_at(lims: (Fx, Fx), k: int) -> int {
    sat64(lims.0 + k * tick_val_step(lims))
}

/// `lims` is the auto-range of `data` along one component: the widened
/// least-to-greatest interval of that component, or the widened `(0, 0)`
/// when there is no point.
pub open spec fn is_auto_range(data: Seq<Vec<(Fx, Fx)>>, pick_y: bool, lims: (Fx, Fx)) -> bool {
    if crate::extend_vec::pts_none(data) {
        lims.0 as int == widened((0, 0)).0 && lims.1 as int == widened((0, 0)).1
    } else {
        exists|mn: Fx, mx: Fx|
            crate::extend_vec::pts_has(data, pick_y, mn) && crate::extend_vec::pts_has(
                data,
                pick_y,
                mx,
            ) && #[trigger] crate::extend_vec::pts_within(data, pick_y, mn, mx) && lims.0 as int
                == widened((mn, mx)).0 && lims.1 as int == widened((mn, mx)).1
    }
}

impl Axis {
    /// The range is usable: mapping into it divides by its width.
    pub open spec fn wf(&self) -> bool {
        self.lims.0 != self.lims.1
    }

    /// An X axis over `lims`, widened if degenerate.
    pub fn new_xaxis(lims: (Fx, Fx)) -> (r: Axis)
        ensures
            r.axis_type == AxisType::XAxis,
            r.lims.0 as int == widened(lims).0,
            r.lims.1 as int == widened(lims).1,
            r.visible,
            r.wf(),
    {
        Axis { axis_type: AxisType::XAxis, lims: prevent_null_interval(lims), visible: true }
    }

    /// A Y axis over `lims`, widened if degenerate.
    pub fn new_yaxis(lims: (Fx, Fx)) -> (r: Axis)
        ensures
            r.axis_type == AxisType::YAxis,
            r.lims.0 as int == widened(lims).0,
            r.lims.1 as int == widened(lims).1,
            r.visible,
            r.wf(),
    {
        Axis { axis_type: AxisType::YAxis, lims: prevent_null_interval(lims), visible: true }
    }

    /// An X axis ranged over the least and greatest `x` component across
    /// all points of all series; `(0, 0)` when there is no point.
    pub fn new_xaxis_auto(data: &Vec<Vec<(Fx, Fx)>>) -> (r: Axis)
        ensures
            r.axis_type == AxisType::XAxis,
            r.visible,
            r.wf(),
            is_auto_range(data@, false, r.lims),
    {
        let mm = crate::extend_vec::min_max_component(data, false);
        match mm {
            Some((mn, mx)) => Self::new_xaxis((mn, mx)),
            None => Self::new_xaxis((0, 0)),
        }
    }

    /// A Y axis ranged over the least and greatest `y` component across
    /// all points of all series; `(0, 0)` when there is no point.
    pub fn new_yaxis_auto(data: &Vec<Vec<(Fx, Fx)>>) -> (r: Axis)
        ensures
            r.axis_type == AxisType::YAxis,
            r.visible,
            r.wf(),
            is_auto_range(data@, true, r.lims),
    {
        let mm = crate::extend_vec::min_max_component(data, true);
        match mm {
            Some((mn, mx)) => Self::new_yaxis((mn, mx)),
            None => Self::new_yaxis((0, 0)),
        }
    }

    /// The local coordinate of the data value `point`; see
    /// [`world_coord`].
    pub fn world_coord_at(&self, point: Fx) -> (r: Fx)
        requires
            self.wf(),
        ensures
            r as int == world_coord(self.axis_type, self.lims, point as int),
    {
        let (min, max) = self.lims;
        let diff: i128 = point as i128 - min as i128;
        proof {
            crate::fx::lemma_mul_wide_by_scale_fits(diff as int, 2 * FX_ONE as int);
        }
        let num: i128 = diff * (2 * FX_ONE as i128);
        let den: i128 = max as i128 - min as i128;
        let scaled: i128 = crate::fx::div_i128(num, den);
        match self.axis_type {
            AxisType::XAxis => crate::fx::sat_narrow(-(FX_ONE as i128) + scaled),
            AxisType::YAxis => crate::fx::sat_narrow(FX_ONE as i128 - scaled),
        }
    }

    /// The ten `(position, value)` tick pairs of this axis, generated in
    /// one sweep: positions pace the local frame by [`TICK_STEP`], values
    /// pace the range by one tenth of its width.
    pub fn tick_positions(&self) -> (r: Vec<(Fx, Fx)>)
        requires
            self.wf(),
        ensures
            r@.len() == TICK_COUNT,
            forall|k: int|
                0 <= k < TICK_COUNT ==> #[trigger] r@[k].0 == tick_pos_at(self.axis_type, k)
                    && r@[k].1 as int == tick_val_at(self.lims, k),
    {
        let (lo, hi) = self.lims;
        let dstep: i128 = crate::fx::div_i128(hi as i128 - lo as i128, TICK_COUNT as i128);
        let mut out: Vec<(Fx, Fx)> = Vec::new();
        let mut acc: i128 = lo as i128;
        let mut k: usize = 0;
        while k < TICK_COUNT
            invariant
                0 <= k <= TICK_COUNT,
                self.wf(),
                dstep as int == tick_val_step(self.lims),
                -0x1_0000_0000_0000_0000 <= dstep <= 0x1_0000_0000_0000_0000,
                acc as int == self.lims.0 + k as int * dstep as int,
                -0x8000_0000_0000_0000 - k as int * 0x1_0000_0000_0000_0000 <= acc as int,
                acc as int <= 0x8000_0000_0000_0000 + k as int * 0x1_0000_0000_0000_0000,
                out@.len() == k,
                forall|t: int|
                    0 <= t < k ==> #[trigger] out@[t].0 == tick_pos_at(self.axis_type, t)
                        && out@[t].1 as int == tick_val_at(self.lims, t),
            decreases TICK_COUNT - k,
        {
            let pos: Fx = match self.axis_type {
                AxisType::XAxis => -FX_ONE + (k as i64) * TICK_STEP,
                AxisType::YAxis => FX_ONE - (k as i64) * TICK_STEP,
            };
            let val: Fx = crate::fx::sat_narrow(acc);
            out.push((pos, val));
            proof {
                assert((k + 1) as int * dstep as int == k as int * dstep as int + dstep as int)
                    by (nonlinear_arith);
            }
            acc = acc + dstep;
            k = k + 1;
        }
        out
    }
}

/// Law: tick generation yields value pairs evenly spaced across the
/// range. On a range of small scalars the first tick value is exactly
/// the low limit and each later tick value exceeds its predecessor by
/// exactly one tenth of the range's width (truncated toward zero).
/// Together with the tick count stated by [`Axis::tick_positions`], this
/// pins the whole tick layout down.
pub proof fn lemma_ticks_evenly_spaced(lims: (Fx, Fx))
    requires
        lims.0 != lims.1,
        crate::fx::fx_small(lims.0 as int),
        crate::fx::fx_small(lims.1 as int),
    ensures
        tick_val_at(lims, 0) == lims.0,
        forall|k: int|
            0 <= k < TICK_COUNT - 1 ==> tick_val_at(lims, k + 1) - #[trigger] tick_val_at(
                lims,
                k,
            ) == tick_val_step(lims),
{
    let step = tick_val_step(lims);
    crate::fx::lemma_divt_bound(lims.1 - lims.0, 10);
    assert(-0x200_0000_0000 <= step <= 0x200_0000_0000);
    assert(tick_val_at(lims, 0) == lims.0);
    assert forall|k: int|
        0 <= k < TICK_COUNT - 1 implies tick_val_at(lims, k + 1) - #[trigger] tick_val_at(
        lims,
        k,
    ) == tick_val_step(lims) by {
        assert(-0x2000_0000_0000 <= k * step <= 0x2000_0000_0000) by (nonlinear_arith)
            requires
                0 <= k < 10,
                -0x200_0000_0000 <= step <= 0x200_0000_0000,
        ;
        assert((k + 1) * step == k * step + step) by (nonlinear_arith);
        assert(-0x4000_0000_0000 <= (k + 1) * step <= 0x4000_0000_0000);
    }
}

/// The decimal digit `d` as a character.
pub open spec fn digit_char(d: int) -> char {
    if d == 0 {
        '0'
    } else if d == 1 {
        '1'
    } else if d == 2 {
        '2'
    } else if d == 3 {
        '3'
    } else if d == 4 {
        '4'
    } else if d == 5 {
        '5'
    } else if d == 6 {
        '6'
    } else if d == 7 {
        '7'
    } else if d == 8 {
        '8'
    } else {
        '9'
    }
}

/// The decimal digits of `n`, most significant first.
pub open spec fn dec_digits(n: nat) -> Seq<char>
    decreases n,
{
    if n < 10 {
        seq![digit_char(n as int)]
    } else {
        dec_digits(n / 10).push(digit_char(n as int % 10))
    }
}

/// `v` rounded to centi-units: the magnitude is rounded half away from
/// zero.
pub open spec fn label_centi(v: int) -> int {
    let m = if v < 0 {
        -v
    } else {
        v
    };
    (m + 5000) / 10000
}

/// The label text of the value `v`: an optional minus sign, the integer
/// part, a point, and exactly two fractional digits, rounded half away
/// from zero.
pub open spec fn label_of(v: int) -> Seq<char> {
    let c = label_centi(v);
    let sign: Seq<char> = if v < 0 {
        seq!['-']
    } else {
        Seq::empty()
    };
    sign + dec_digits((c / 100) as nat) + seq!['.'] + seq![
        digit_char((c % 100) / 10),
        digit_char(c % 10),
    ]
}

/// The decimal digit `d` as a one-character string slice.
fn digit_str(d: u64) -> (r: &'static str)
    requires
        d < 10,
    ensures
        r@ == seq![digit_char(d as int)],
{
    proof {
        reveal_strlit("0");
        reveal_strlit("1");
        reveal_strlit("2");
        reveal_strlit("3");
        reveal_strlit("4");
        reveal_strlit("5");
        reveal_strlit("6");
        reveal_strlit("7");
        reveal_strlit("8");
        reveal_strlit("9");
    }
    if d == 0 {
        "0"
    } else if d == 1 {
        "1"
    } else if d == 2 {
        "2"
    } else if d == 3 {
        "3"
    } else if d == 4 {
        "4"
    } else if d == 5 {
        "5"
    } else if d == 6 {
        "6"
    } else if d == 7 {
        "7"
    } else if d == 8 {
        "8"
    } else {
        "9"
    }
}

/// Append the decimal digits of `n` to `s`, most significant first.
fn push_digits(s: &mut String, n: u64)
    ensures
        final(s)@ == old(s)@ + dec_digits(n as nat),
    decreases n,
{
    if n < 10 {
        s.append(digit_str(n));
    } else {
        push_digits(s, n / 10);
        s.append(digit_str(n % 10));
        proof {
            assert(dec_digits((n / 10) as nat).push(digit_char(n as int % 10)) =~= dec_digits(
                (n / 10) as nat,
            ) + seq![digit_char(n as int % 10)]);
        }
    }
}

/// The label text of the scalar `v`; see [`label_of`].
pub fn fx_label(v: Fx) -> (s: String)
    ensures
        s@ == label_of(v as int),
{
    proof {
        reveal_strlit("-");
        reveal_strlit(".");
    }
    let m: i128 = if v < 0 {
        -(v as i128)
    } else {
        v as i128
    };
    proof {
        vstd::arithmetic::div_mod::lemma_div_pos_is_pos(m as int + 5000, 10000);
        vstd::arithmetic::div_mod::lemma_div_nonincreasing(m as int + 5000, 10000);
    }
    let c: i128 = (m + 5000) / 10000;
    let cu: u64 = c as u64;
    let mut s = String::new();
    if v < 0 {
        s.append("-");
    }
    push_digits(&mut s, cu / 100);
    s.append(".");
    s.append(digit_str((cu % 100) / 10));
    s.append(digit_str(cu % 10));
    proof {
        assert(seq![digit_char(((cu % 100) / 10) as int)] + seq![digit_char((cu % 10) as int)]
            =~= seq![
            digit_char((label_centi(v as int) % 100) / 10),
            digit_char(label_centi(v as int) % 10),
        ]);
        assert(s@ =~= label_of(v as int));
    }
    s
}

/// The anchor point of tick label `k`: just outside the local frame,
/// beside the tick mark.
pub open spec fn tick_text_anchor(axis_type: AxisType, k: int) -> (int, int) {
    match axis_type {
        AxisType::XAxis => (tick_pos_at(axis_type, k), FX_ONE + TICK_SIZE),
        AxisType::YAxis => (-FX_ONE - TICK_SIZE, tick_pos_at(axis_type, k)),
    }
}

/// Both endpoints of the axis line, in the local frame.
pub open spec fn axis_line_start(axis_type: AxisType) -> (int, int) {
    (-FX_ONE as int, FX_ONE as int)
}

/// The far endpoint of the axis line: an X axis runs along the top of
/// the frame, a Y axis down its left side.
pub open spec fn axis_line_end(axis_type: AxisType) -> (int, int) {
    match axis_type {
        AxisType::XAxis => (FX_ONE as int, FX_ONE as int),
        AxisType::YAxis => (-FX_ONE as int, -FX_ONE as int),
    }
}

/// Where the mark of tick `k` starts: on the axis line.
pub open spec fn tick_mark_start(axis_type: AxisType, k: int) -> (int, int) {
    match axis_type {
        AxisType::XAxis => (tick_pos_at(axis_type, k), FX_ONE as int),
        AxisType::YAxis => (-FX_ONE as int, tick_pos_at(axis_type, k)),
    }
}

/// Where the mark of tick `k` ends: one tick length outside the frame.
pub open spec fn tick_mark_end(axis_type: AxisType, k: int) -> (int, int) {
    match axis_type {
        AxisType::XAxis => (tick_pos_at(axis_type, k), FX_ONE + TICK_SIZE as int),
        AxisType::YAxis => (-FX_ONE - TICK_SIZE as int, tick_pos_at(axis_type, k)),
    }
}

/// A path is an open black hairline through the given two points.
pub open spec fn is_black_segment(p: Path, a: (int, int), b: (int, int)) -> bool {
    &&& p.closed == false
    &&& p.line_color == Some((0 as Fx, 0 as Fx, 0 as Fx, FX_ONE))
    &&& p.fill_color is None
    &&& p.points@.len() == 2
    &&& p.points@[0].0 as int == a.0
    &&& p.points@[0].1 as int == a.1
    &&& p.points@[1].0 as int == b.0
    &&& p.points@[1].1 as int == b.1
}

impl Axis {
    /// The axis line and one mark per tick, as open black paths in the
    /// local frame; an invisible axis draws nothing.
    pub fn paths(&self) -> (r: Vec<Path>)
        requires
            self.wf(),
        ensures
            !self.visible ==> r@.len() == 0,
            self.visible ==> {
                &&& r@.len() == TICK_COUNT + 1
                &&& is_black_segment(
                    r@[0],
                    axis_line_start(self.axis_type),
                    axis_line_end(self.axis_type),
                )
                &&& forall|k: int|
                    1 <= k < TICK_COUNT + 1 ==> is_black_segment(
                        #[trigger] r@[k],
                        tick_mark_start(self.axis_type, k - 1),
                        tick_mark_end(self.axis_type, k - 1),
                    )
            },
    {
        if !self.visible {
            return Vec::new();
        }
        let mut paths: Vec<Path> = Vec::new();
        let neg_one: Fx = -FX_ONE;
        let line_points: Vec<(Fx, Fx)> = match self.axis_type {
            AxisType::XAxis => vec![(neg_one, FX_ONE), (FX_ONE, FX_ONE)],
            AxisType::YAxis => vec![(neg_one, FX_ONE), (neg_one, neg_one)],
        };
        paths.push(
            Path {
                points: line_points,
                closed: false,
                line_color: Some((0, 0, 0, FX_ONE)),
                fill_color: None,
            },
        );
        let ticks = self.tick_positions();
        let mut k: usize = 0;
        while k < TICK_COUNT
            invariant
                0 <= k <= TICK_COUNT,
                ticks@.len() == TICK_COUNT,
                forall|t: int|
                    0 <= t < TICK_COUNT ==> #[trigger] ticks@[t].0 == tick_pos_at(
                        self.axis_type,
                        t,
                    ),
                paths@.len() == k + 1,
                is_black_segment(
                    paths@[0],
                    axis_line_start(self.axis_type),
                    axis_line_end(self.axis_type),
                ),
                forall|t: int|
                    1 <= t < k + 1 ==> is_black_segment(
                        #[trigger] paths@[t],
                        tick_mark_start(self.axis_type, t - 1),
                        tick_mark_end(self.axis_type, t - 1),
                    ),
            decreases TICK_COUNT - k,
        {
            let tick_pos: Fx = ticks[k].0;
            let neg_frame: Fx = -FX_ONE;
            let neg_out: Fx = -FX_ONE - TICK_SIZE;
            let seg: Vec<(Fx, Fx)> = match self.axis_type {
                AxisType::XAxis => vec![(tick_pos, FX_ONE), (tick_pos, FX_ONE + TICK_SIZE)],
                AxisType::YAxis => vec![(neg_frame, tick_pos), (neg_out, tick_pos)],
            };
            paths.push(
                Path {
                    points: seg,
                    closed: false,
                    line_color: Some((0, 0, 0, FX_ONE)),
                    fill_color: None,
                },
            );
            k = k + 1;
        }
        paths
    }

    /// One label per tick, anchored beside the tick mark and printing
    /// the tick's data value with two decimals; an invisible axis labels
    /// nothing.
    pub fn texts(&self) -> (r: Vec<Text>)
        requires
            self.wf(),
        ensures
            !self.visible ==> r@.len() == 0,
            self.visible ==> {
                &&& r@.len() == TICK_COUNT
                &&& forall|k: int|
                    0 <= k < TICK_COUNT ==> {
                        &&& (#[trigger] r@[k]).point.0 as int == tick_text_anchor(
                            self.axis_type,
                            k,
                        ).0
                        &&& r@[k].point.1 as int == tick_text_anchor(self.axis_type, k).1
                        &&& r@[k].font_size == DEFAULT_FONT_SIZE
                        &&& r@[k].text@ == label_of(tick_val_at(self.lims, k))
                    }
            },
    {
        if !self.visible {
            return Vec::new();
        }
        let mut texts: Vec<Text> = Vec::new();
        let ticks = self.tick_positions();
        let mut k: usize = 0;
        while k < TICK_COUNT
            invariant
                0 <= k <= TICK_COUNT,
                self.wf(),
                ticks@.len() == TICK_COUNT,
                forall|t: int|
                    0 <= t < TICK_COUNT ==> #[trigger] ticks@[t].0 == tick_pos_at(
                        self.axis_type,
                        t,
                    ) && ticks@[t].1 as int == tick_val_at(self.lims, t),
                texts@.len() == k,
                forall|t: int|
                    0 <= t < k ==> {
                        &&& (#[trigger] texts@[t]).point.0 as int == tick_text_anchor(
                            self.axis_type,
                            t,
                        ).0
                        &&& texts@[t].point.1 as int == tick_text_anchor(self.axis_type, t).1
                        &&& texts@[t].font_size == DEFAULT_FONT_SIZE
                        &&& texts@[t].text@ == label_of(tick_val_at(self.lims, t))
                    },
            decreases TICK_COUNT - k,
        {
            let (tick_pos, tick_val) = ticks[k];
            let anchor: (Fx, Fx) = match self.axis_type {
                AxisType::XAxis => (tick_pos, FX_ONE + TICK_SIZE),
                AxisType::YAxis => (-FX_ONE - TICK_SIZE, tick_pos),
            };
            texts.push(
                Text { point: anchor, text: fx_label(tick_val), font_size: DEFAULT_FONT_SIZE },
            );
            k = k + 1;
        }
        texts
    }
}

/// Widen a degenerate interval by one half unit on each side; see
/// [`widened`].
pub fn prevent_null_interval(lims: (Fx, Fx)) -> (r: (Fx, Fx))
    ensures
        r.0 as int == widened(lims).0,
        r.1 as int == widened(lims).1,
        r.0 != r.1,
{
    let (min, max) = lims;
    if max == min {
        (crate::fx::fx_sub_sat(min, FX_HALF), crate::fx::fx_add_sat(max, FX_HALF))
    } else {
        (min, max)
    }
}

} // verus!
