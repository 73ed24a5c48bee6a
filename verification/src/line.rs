//! A single line segment artist.

use vstd::prelude::*;

verus! {

use crate::fx::Fx;
use crate::color::Color;
use crate::backend::Path;

/// A line segment between two points of the local frame.
pub struct Line {
    pub l: LineAttributes,
}

/// Builder for [`Line`].
pub struct LineBuilder {
    pub l: LineAttributes,
}

/// Endpoints and stroke color of a line segment.
pub struct LineAttributes {
    pub start: (Fx, Fx),
    pub end: (Fx, Fx),
    pub edgecolor: Color,
}

impl Default for LineAttributes {
    /// A zero-length black line at the origin.
    fn default() -> (r: Self)
        ensures
            r.start == (0 as Fx, 0 as Fx),
            r.end == (0 as Fx, 0 as Fx),
            r.edgecolor == crate::color::named_rgb(0, 0, 0),
    {
        Self { start: (0, 0), end: (0, 0), edgecolor: crate::color::black() }
    }
}

impl Line {
    /// A black line between `start` and `end`.
    pub fn new(start: (Fx, Fx), end: (Fx, Fx)) -> (r: Line)
        ensures
            r.l.start == start,
            r.l.end == end,
            r.l.edgecolor == crate::color::named_rgb(0, 0, 0),
    {
        LineBuilder::new(start, end).build()
    }
}

impl LineBuilder {
    /// Start building a line between `start` and `end`.
    pub fn new(start: (Fx, Fx), end: (Fx, Fx)) -> (r: LineBuilder)
        ensures
            r.l.start == start,
            r.l.end == end,
            r.l.edgecolor == crate::color::named_rgb(0, 0, 0),
    {
        let mut l: LineAttributes = Default::default();
        l.start = start;
        l.end = end;
        LineBuilder { l }
    }

    /// Set the stroke color.
    pub fn with_edgecolor(self, color: Color) -> (r: Self)
        ensures
            r.l.start == self.l.start,
            r.l.end == self.l.end,
            r.l.edgecolor == color,
    {
        let mut r = self;
        r.l.edgecolor = color;
        r
    }

    /// Finish the line.
    pub fn build(self) -> (r: Line)
        ensures
            r.l == self.l,
    {
        Line { l: self.l }
    }
}

/// What [`Line::paths`] returns: one open stroke from `start` to `end`.
pub open spec fn line_paths_ok(l: Line, s: Seq<Path>) -> bool {
    &&& s.len() == 1
    &&& s[0].closed == false
    &&& s[0].line_color == Some((l.l.edgecolor.0, l.l.edgecolor.1, l.l.edgecolor.2, l.l.edgecolor.3))
    &&& s[0].fill_color is None
    &&& s[0].points@ == seq![l.l.start, l.l.end]
}

impl Line {
    /// One open path from `start` to `end`, stroked with the line's edge
    /// color.
    pub fn paths(&self) -> (r: Vec<Path>)
        ensures
            line_paths_ok(*self, r@),
    {
        let Color(cr, cg, cb, ca) = self.l.edgecolor;
        let r: Vec<Path> = vec![
            Path {
                points: vec![self.l.start, self.l.end],
                closed: false,
                line_color: Some((cr, cg, cb, ca)),
                fill_color: None,
            },
        ];
        proof {
            assert(r[0].points@ =~= seq![self.l.start, self.l.end]);
        }
        r
    }
}

} // verus!
