//! A polyline artist: one open path through many vertices.

use vstd::prelude::*;

verus! {

use crate::fx::Fx;
use crate::color::Color;
use crate::backend::Path;

/// An open polyline through a list of vertices of the local frame.
pub struct LineCollection {
    pub l: LineCollectionAttributes,
}

/// Builder for [`LineCollection`].
pub struct LineCollectionBuilder {
    pub l: LineCollectionAttributes,
}

/// Vertices and stroke color of a polyline.
pub struct LineCollectionAttributes {
    pub lines: Vec<(Fx, Fx)>,
    pub edgecolor: Color,
}

impl Default for LineCollectionAttributes {
    /// An empty black polyline.
    fn default() -> (r: Self)
        ensures
            r.lines@.len() == 0,
            r.edgecolor == crate::color::named_rgb(0, 0, 0),
    {
        Self { lines: Vec::new(), edgecolor: crate::color::black() }
    }
}

impl LineCollection {
    /// An empty black polyline.
    pub fn new() -> (r: Self)
        ensures
            r.l.lines@.len() == 0,
            r.l.edgecolor == crate::color::named_rgb(0, 0, 0),
    {
        Self { l: Default::default() }
    }

    /// Append one vertex.
    pub fn add_vertex(&mut self, vertex: (Fx, Fx))
        ensures
            final(self).l.lines@ == old(self).l.lines@.push(vertex),
            final(self).l.edgecolor == old(self).l.edgecolor,
    {
        self.l.lines.push(vertex);
    }

    /// Append a list of vertices in order.
    pub fn add_vertices(&mut self, vertices: &Vec<(Fx, Fx)>)
        ensures
            final(self).l.lines@ == old(self).l.lines@ + vertices@,
            final(self).l.edgecolor == old(self).l.edgecolor,
    {
        let n: usize = vertices.len();
        for i in 0..n
            invariant
                n == vertices@.len(),
                self.l.lines@ =~= old(self).l.lines@ + vertices@.subrange(0, i as int),
                self.l.edgecolor == old(self).l.edgecolor,
        {
            self.l.lines.push(vertices[i]);
        }
        proof {
            assert(self.l.lines@ =~= old(self).l.lines@ + vertices@);
        }
    }
}

impl LineCollectionBuilder {
    /// Start building an empty black polyline.
    pub fn new() -> (r: Self)
        ensures
            r.l.lines@.len() == 0,
            r.l.edgecolor == crate::color::named_rgb(0, 0, 0),
    {
        Self { l: Default::default() }
    }

    /// Set the stroke color.
    pub fn with_edgecolor(self, color: Color) -> (r: Self)
        ensures
            r.l.lines@ == self.l.lines@,
            r.l.edgecolor == color,
    {
        let mut r = self;
        r.l.edgecolor = color;
        r
    }

    /// Append a list of vertices in order.
    pub fn with_vertices(self, vertices: &Vec<(Fx, Fx)>) -> (r: Self)
        ensures
            r.l.lines@ == self.l.lines@ + vertices@,
            r.l.edgecolor == self.l.edgecolor,
    {
        let mut r = self;
        let n: usize = vertices.len();
        for i in 0..n
            invariant
                n == vertices@.len(),
                r.l.lines@ =~= self.l.lines@ + vertices@.subrange(0, i as int),
                r.l.edgecolor == self.l.edgecolor,
        {
            r.l.lines.push(vertices[i]);
        }
        proof {
            assert(r.l.lines@ =~= self.l.lines@ + vertices@);
        }
        r
    }

    /// Finish the polyline.
    pub fn build(self) -> (r: LineCollection)
        ensures
            r.l == self.l,
    {
        LineCollection { l: self.l }
    }
}

/// What [`LineCollection::paths`] returns: one open stroke through all
/// vertices.
pub open spec fn lc_paths_ok(l: LineCollection, s: Seq<Path>) -> bool {
    &&& s.len() == 1
    &&& s[0].closed == false
    &&& s[0].line_color == Some((l.l.edgecolor.0, l.l.edgecolor.1, l.l.edgecolor.2, l.l.edgecolor.3))
    &&& s[0].fill_color is None
    &&& s[0].points@ == l.l.lines@
}

impl LineCollection {
    /// One open path through all vertices, stroked with the edge color.
    pub fn paths(&self) -> (r: Vec<Path>)
        ensures
            lc_paths_ok(*self, r@),
    {
        let Color(cr, cg, cb, ca) = self.l.edgecolor;
        vec![
            Path {
                points: crate::extend_vec::copy_vec(&self.l.lines),
                closed: false,
                line_color: Some((cr, cg, cb, ca)),
                fill_color: None,
            },
        ]
    }
}

} // verus!
