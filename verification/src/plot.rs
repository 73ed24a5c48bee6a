//! A data-series plot artist.
//!
//! A plot owns one or more series of `(x, y)` points together with an X
//! and a Y axis. Its paths are the series themselves, mapped from data
//! space into the local `[-1, 1]` frame through the axis ranges, so that
//! the X range spans the frame left to right and the Y range top to
//! bottom.

use vstd::prelude::*;

verus! {

use crate::fx::Fx;
use crate::color::Color;
use crate::backend::Path;
use crate::axis::{Axis, AxisType, world_coord, widened, is_auto_range};

/// A plot of one or more data series.
pub struct Plot {
    pub data: Vec<PlotSeries>,
    pub xaxis: Axis,
    pub yaxis: Axis,
    pub p: PlotAttributes,
}

/// One data series and its stroke color.
pub struct PlotSeries {
    pub data: Vec<(Fx, Fx)>,
    pub edgecolor: Color,
}

/// Styling of a plot (nothing configurable yet).
pub struct PlotAttributes {}

impl Default for PlotAttributes {
    fn default() -> (r: Self)
        ensures
            r == (PlotAttributes {  }),
    {
        Self {  }
    }
}

/// Builder for [`Plot`].
pub struct PlotBuilder {
    pub data: Vec<Vec<(Fx, Fx)>>,
    pub xlims: Option<(Fx, Fx)>,
    pub ylims: Option<(Fx, Fx)>,
    pub p: PlotAttributes,
}

/// What [`Plot::paths`] returns: one open stroke per series, every
/// point mapped through the axis ranges into the local frame.
pub open spec fn plot_paths_ok(p: Plot, r: Seq<Path>) -> bool {
    &&& r.len() == p.data@.len()
    &&& forall|s: int|
        0 <= s < p.data@.len() ==> {
            &&& (#[trigger] r[s]).closed == false
            &&& r[s].line_color == Some(
                (
                    p.data@[s].edgecolor.0,
                    p.data@[s].edgecolor.1,
                    p.data@[s].edgecolor.2,
                    p.data@[s].edgecolor.3,
                ),
            )
            &&& r[s].fill_color is None
            &&& r[s].points@.len() == p.data@[s].data@.len()
            &&& forall|j: int|
                0 <= j < p.data@[s].data@.len() ==> (#[trigger] r[s].points@[j]).0 as int
                    == world_coord(
                    AxisType::XAxis,
                    p.xaxis.lims,
                    p.data@[s].data@[j].0 as int,
                ) && r[s].points@[j].1 as int == world_coord(
                    AxisType::YAxis,
                    p.yaxis.lims,
                    p.data@[s].data@[j].1 as int,
                )
        }
}

impl Plot {
    /// The axes are usable and correctly oriented.
    pub open spec fn wf(&self) -> bool {
        &&& self.xaxis.wf()
        &&& self.yaxis.wf()
        &&& self.xaxis.axis_type == AxisType::XAxis
        &&& self.yaxis.axis_type == AxisType::YAxis
    }

    /// The X range.
    pub fn xlims(&self) -> (r: &(Fx, Fx))
        ensures
            *r == self.xaxis.lims,
    {
        &self.xaxis.lims
    }

    /// The Y range.
    pub fn ylims(&self) -> (r: &(Fx, Fx))
        ensures
            *r == self.yaxis.lims,
    {
        &self.yaxis.lims
    }

    /// Map a path's points from data space into the local frame: `x`
    /// through the X range, `y` through the Y range (inverted, so larger
    /// `y` values sit higher). Colors and closedness pass through.
    fn transform_path(&self, path: Path) -> (r: Path)
        requires
            self.wf(),
        ensures
            r.closed == path.closed,
            r.line_color == path.line_color,
            r.fill_color == path.fill_color,
            r.points@.len() == path.points@.len(),
            forall|j: int|
                0 <= j < path.points@.len() ==> (#[trigger] r.points@[j]).0 as int == world_coord(
                    AxisType::XAxis,
                    self.xaxis.lims,
                    path.points@[j].0 as int,
                ) && r.points@[j].1 as int == world_coord(
                    AxisType::YAxis,
                    self.yaxis.lims,
                    path.points@[j].1 as int,
                ),
    {
        let mut path = path;
        let n: usize = path.points.len();
        let mut out: Vec<(Fx, Fx)> = Vec::new();
        for j in 0..n
            invariant
                self.wf(),
                n == path.points@.len(),
                out@.len() == j,
                forall|t: int|
                    0 <= t < j ==> (#[trigger] out@[t]).0 as int == world_coord(
                        AxisType::XAxis,
                        self.xaxis.lims,
                        path.points@[t].0 as int,
                    ) && out@[t].1 as int == world_coord(
                        AxisType::YAxis,
                        self.yaxis.lims,
                        path.points@[t].1 as int,
                    ),
        {
            let (px, py) = path.points[j];
            let tx = self.xaxis.world_coord_at(px);
            let ty = self.yaxis.world_coord_at(py);
            out.push((tx, ty));
        }
        path.points = out;
        path
    }

    /// One open path per series, its points mapped into the local frame
    /// and stroked with the series color.
    pub fn paths(&self) -> (r: Vec<Path>)
        requires
            self.wf(),
        ensures
            plot_paths_ok(*self, r@),
    {
        let mut out: Vec<Path> = Vec::new();
        let n: usize = self.data.len();
        for s in 0..n
            invariant
                self.wf(),
                n == self.data@.len(),
                out@.len() == s,
                forall|t: int|
                    0 <= t < s ==> {
                        &&& (#[trigger] out@[t]).closed == false
                        &&& out@[t].line_color == Some(
                            (
                                self.data@[t].edgecolor.0,
                                self.data@[t].edgecolor.1,
                                self.data@[t].edgecolor.2,
                                self.data@[t].edgecolor.3,
                            ),
                        )
                        &&& out@[t].fill_color is None
                        &&& out@[t].points@.len() == self.data@[t].data@.len()
                        &&& forall|j: int|
                            0 <= j < self.data@[t].data@.len() ==> (#[trigger] out@[t].points@[j]).0
                                as int == world_coord(
                                AxisType::XAxis,
                                self.xaxis.lims,
                                self.data@[t].data@[j].0 as int,
                            ) && out@[t].points@[j].1 as int == world_coord(
                                AxisType::YAxis,
                                self.yaxis.lims,
                                self.data@[t].data@[j].1 as int,
                            )
                    },
        {
            let series = &self.data[s];
            let Color(cr, cg, cb, ca) = series.edgecolor;
            let path = Path {
                points: crate::extend_vec::copy_vec(&series.data),
                closed: false,
                line_color: Some((cr, cg, cb, ca)),
                fill_color: None,
            };
            let path = self.transform_path(path);
            out.push(path);
        }
        out
    }
}

impl PlotBuilder {
    /// Start a plot from a single series.
    pub fn new(one_series: Vec<(Fx, Fx)>) -> (r: Self)
        ensures
            r.data@.len() == 1,
            r.data@[0] == one_series,
            r.xlims is None,
            r.ylims is None,
    {
        Self { data: vec![one_series], xlims: None, ylims: None, p: Default::default() }
    }

    /// Start a plot from several series at once.
    pub fn new_multi_series(multi_series: Vec<Vec<(Fx, Fx)>>) -> (r: Self)
        ensures
            r.data == multi_series,
            r.xlims is None,
            r.ylims is None,
    {
        Self { data: multi_series, xlims: None, ylims: None, p: Default::default() }
    }

    /// Fix the X range instead of deriving it from the data.
    pub fn with_xlims(self, xlims: (Fx, Fx)) -> (r: Self)
        ensures
            r.data == self.data,
            r.xlims == Some(xlims),
            r.ylims == self.ylims,
    {
        let mut r = self;
        r.xlims = Some(xlims);
        r
    }

    /// Fix the Y range instead of deriving it from the data.
    pub fn with_ylims(self, ylims: (Fx, Fx)) -> (r: Self)
        ensures
            r.data == self.data,
            r.xlims == self.xlims,
            r.ylims == Some(ylims),
    {
        let mut r = self;
        r.ylims = Some(ylims);
        r
    }

    /// Add one more series.
    pub fn with_new_series(self, one_series: Vec<(Fx, Fx)>) -> (r: Self)
        ensures
            r.data@ == self.data@.push(one_series),
            r.xlims == self.xlims,
            r.ylims == self.ylims,
    {
        let mut r = self;
        r.data.push(one_series);
        r
    }

    /// Finish the plot: explicit limits are widened if degenerate, and
    /// missing limits are auto-ranged over all series; every series is
    /// stroked black.
    pub fn build(self) -> (r: Plot)
        ensures
            r.wf(),
            r.data@.len() == self.data@.len(),
            forall|s: int|
                0 <= s < self.data@.len() ==> (#[trigger] r.data@[s]).data@ == self.data@[s]@
                    && r.data@[s].edgecolor == crate::color::named_rgb(0, 0, 0),
            match self.xlims {
                Some(xl) => r.xaxis.lims.0 as int == widened(xl).0 && r.xaxis.lims.1 as int
                    == widened(xl).1,
                None => is_auto_range(self.data@, false, r.xaxis.lims),
            },
            match self.ylims {
                Some(yl) => r.yaxis.lims.0 as int == widened(yl).0 && r.yaxis.lims.1 as int
                    == widened(yl).1,
                None => is_auto_range(self.data@, true, r.yaxis.lims),
            },
    {
        let xaxis = match self.xlims {
            Some(xlims) => Axis::new_xaxis(xlims),
            None => Axis::new_xaxis_auto(&self.data),
        };
        let yaxis = match self.ylims {
            Some(ylims) => Axis::new_yaxis(ylims),
            None => Axis::new_yaxis_auto(&self.data),
        };
        let mut all_series: Vec<PlotSeries> = Vec::new();
        let n: usize = self.data.len();
        let mut i: usize = 0;
        while i < n
            invariant
                n == self.data@.len(),
                0 <= i <= n,
                all_series@.len() == i,
                forall|s: int|
                    0 <= s < i ==> (#[trigger] all_series@[s]).data@ == self.data@[s]@
                        && all_series@[s].edgecolor == crate::color::named_rgb(0, 0, 0),
            decreases n - i,
        {
            all_series.push(
                PlotSeries {
                    data: crate::extend_vec::copy_vec(&self.data[i]),
                    edgecolor: crate::color::black(),
                },
            );
            i = i + 1;
        }
        Plot { data: all_series, xaxis, yaxis, p: self.p }
    }
}

} // verus!
