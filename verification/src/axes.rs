//! Container artists: a rectangular sub-region of the parent's frame.
//!
//! An axes owns a rectangle `(x, y, dx, dy)` in its parent's local space
//! and a list of child artists. A child point `(px, py)` of the local
//! `[-1, 1]` square maps into the parent's space as
//! `(x + dx/2 * (1 + px), y + dy/2 * (1 + py))`; nesting composes the
//! mapping once per level, outermost last. Sizes scale by `dx/2` and
//! `dy/2`. A degenerate rectangle collapses children to a line or point
//! and is accepted.

use vstd::prelude::*;

verus! {

use crate::fx::{Fx, FX_ONE, divt, sat64, fx_small};
use crate::color::Color;
use crate::backend::{Path, Text, Image};
use crate::artist::Artist;
use vstd::arithmetic::div_mod::{
    lemma_div_is_ordered,
    lemma_div_multiples_vanish,
    lemma_div_pos_is_pos,
    lemma_div_of0,
};

/// A rectangle in some parent's local coordinate space: origin corner
/// and signed extents.
#[derive(Copy, Clone, PartialEq, Eq, Structural, Debug)]
pub struct Rect {
    pub x: Fx,
    pub y: Fx,
    pub dx: Fx,
    pub dy: Fx,
}

/// One coordinate of the sub-region mapping:
/// `x + dx/2 * (1 + p)`, computed as one fused truncating division so
/// the ends of the local frame map exactly onto the rectangle's edges,
/// then saturated.
pub open spec fn tf1(x: int, dx: int, p: int) -> int {
    sat64(x + divt(dx * (FX_ONE + p), 2 * FX_ONE))
}

/// A point mapped through a rectangle, coordinatewise.
pub open spec fn tf_pt(r: Rect, p: (int, int)) -> (int, int) {
    (tf1(r.x as int, r.dx as int, p.0), tf1(r.y as int, r.dy as int, p.1))
}

/// One coordinate of a size scaled into a rectangle: `s * d / 2`,
/// truncated and saturated.
pub open spec fn tf_size1(d: int, s: int) -> int {
    sat64(divt(s * d, 2 * FX_ONE))
}

/// A size scaled through a rectangle, coordinatewise.
pub open spec fn tf_size(r: Rect, s: (int, int)) -> (int, int) {
    (tf_size1(r.dx as int, s.0), tf_size1(r.dy as int, s.1))
}

/// A point mapped through a whole ancestor chain, innermost rectangle
/// (the last) first, outermost (the first) last.
pub open spec fn tf_chain_pt(chain: Seq<Rect>, p: (int, int)) -> (int, int)
    decreases chain.len(),
{
    if chain.len() == 0 {
        p
    } else {
        tf_chain_pt(chain.drop_last(), tf_pt(chain.last(), p))
    }
}

/// A size scaled through a whole ancestor chain, innermost first.
pub open spec fn tf_chain_size(chain: Seq<Rect>, s: (int, int)) -> (int, int)
    decreases chain.len(),
{
    if chain.len() == 0 {
        s
    } else {
        tf_chain_size(chain.drop_last(), tf_size(chain.last(), s))
    }
}

/// Products in the sub-region mapping stay inside the 128-bit range.
proof fn lemma_tf_mul_fits(a: int, b: int)
    by (nonlinear_arith)
    requires
        i64::MIN <= a <= i64::MAX,
        -0x8000_0000_0010_0000 <= b <= 0x8000_0000_0010_0000,
    ensures
        -0x4000_0000_0008_0000_0000_0000_0000_0000 <= a * b
            <= 0x4000_0000_0008_0000_0000_0000_0000_0000,
{
}

/// Map one coordinate through a rectangle edge; see [`tf1`].
pub fn tf_coord(x: Fx, dx: Fx, p: Fx) -> (r: Fx)
    ensures
        r as int == tf1(x as int, dx as int, p as int),
{
    proof {
        lemma_tf_mul_fits(dx as int, FX_ONE + p as int);
    }
    let num: i128 = (dx as i128) * (FX_ONE as i128 + p as i128);
    let q: i128 = crate::fx::div_i128(num, 2 * FX_ONE as i128);
    crate::fx::sat_narrow(x as i128 + q)
}

/// Scale one size coordinate through a rectangle extent; see
/// [`tf_size1`].
pub fn tf_size_coord(d: Fx, s: Fx) -> (r: Fx)
    ensures
        r as int == tf_size1(d as int, s as int),
{
    proof {
        crate::fx::lemma_mul_i64_fits(s as int, d as int);
    }
    let num: i128 = (s as i128) * (d as i128);
    let q: i128 = crate::fx::div_i128(num, 2 * FX_ONE as i128);
    crate::fx::sat_narrow(q)
}

/// Map a point through a whole ancestor chain; see [`tf_chain_pt`].
pub fn apply_chain_pt(chain: &Vec<Rect>, p: (Fx, Fx)) -> (r: (Fx, Fx))
    ensures
        r.0 as int == tf_chain_pt(chain@, (p.0 as int, p.1 as int)).0,
        r.1 as int == tf_chain_pt(chain@, (p.0 as int, p.1 as int)).1,
{
    let ghost whole = chain@;
    let ghost orig = (p.0 as int, p.1 as int);
    let mut cur: (Fx, Fx) = p;
    let mut idx: usize = chain.len();
    proof {
        assert(whole.subrange(0, idx as int) =~= whole);
    }
    while idx > 0
        invariant
            chain@ == whole,
            0 <= idx <= whole.len(),
            tf_chain_pt(whole.subrange(0, idx as int), (cur.0 as int, cur.1 as int))
                == tf_chain_pt(whole, orig),
        decreases idx,
    {
        let rect = chain[idx - 1];
        let nx = tf_coord(rect.x, rect.dx, cur.0);
        let ny = tf_coord(rect.y, rect.dy, cur.1);
        proof {
            assert(whole.subrange(0, idx as int).last() == whole[idx - 1]);
            assert(whole.subrange(0, idx as int).drop_last() =~= whole.subrange(0, idx as int - 1));
        }
        cur = (nx, ny);
        idx = idx - 1;
    }
    proof {
        assert(whole.subrange(0, 0) =~= Seq::<Rect>::empty());
    }
    cur
}

/// Scale a size through a whole ancestor chain; see [`tf_chain_size`].
pub fn apply_chain_size(chain: &Vec<Rect>, s: (Fx, Fx)) -> (r: (Fx, Fx))
    ensures
        r.0 as int == tf_chain_size(chain@, (s.0 as int, s.1 as int)).0,
        r.1 as int == tf_chain_size(chain@, (s.0 as int, s.1 as int)).1,
{
    let ghost whole = chain@;
    let ghost orig = (s.0 as int, s.1 as int);
    let mut cur: (Fx, Fx) = s;
    let mut idx: usize = chain.len();
    proof {
        assert(whole.subrange(0, idx as int) =~= whole);
    }
    while idx > 0
        invariant
            chain@ == whole,
            0 <= idx <= whole.len(),
            tf_chain_size(whole.subrange(0, idx as int), (cur.0 as int, cur.1 as int))
                == tf_chain_size(whole, orig),
        decreases idx,
    {
        let rect = chain[idx - 1];
        let nx = tf_size_coord(rect.dx, cur.0);
        let ny = tf_size_coord(rect.dy, cur.1);
        proof {
            assert(whole.subrange(0, idx as int).last() == whole[idx - 1]);
            assert(whole.subrange(0, idx as int).drop_last() =~= whole.subrange(0, idx as int - 1));
        }
        cur = (nx, ny);
        idx = idx - 1;
    }
    proof {
        assert(whole.subrange(0, 0) =~= Seq::<Rect>::empty());
    }
    cur
}

/// Map every point of a path through the ancestor chain; everything
/// else passes through.
pub fn transform_path_chain(chain: &Vec<Rect>, path: Path) -> (r: Path)
    ensures
        r.closed == path.closed,
        r.line_color == path.line_color,
        r.fill_color == path.fill_color,
        r.points@.len() == path.points@.len(),
        forall|j: int|
            0 <= j < path.points@.len() ==> (#[trigger] r.points@[j]).0 as int == tf_chain_pt(
                chain@,
                (path.points@[j].0 as int, path.points@[j].1 as int),
            ).0 && r.points@[j].1 as int == tf_chain_pt(
                chain@,
                (path.points@[j].0 as int, path.points@[j].1 as int),
            ).1,
{
    let mut path = path;
    let n: usize = path.points.len();
    let mut out: Vec<(Fx, Fx)> = Vec::new();
    for j in 0..n
        invariant
            n == path.points@.len(),
            out@.len() == j,
            forall|t: int|
                0 <= t < j ==> (#[trigger] out@[t]).0 as int == tf_chain_pt(
                    chain@,
                    (path.points@[t].0 as int, path.points@[t].1 as int),
                ).0 && out@[t].1 as int == tf_chain_pt(
                    chain@,
                    (path.points@[t].0 as int, path.points@[t].1 as int),
                ).1,
    {
        let q = apply_chain_pt(chain, path.points[j]);
        out.push(q);
    }
    path.points = out;
    path
}

/// Map a text's anchor through the ancestor chain; the content and font
/// size pass through.
pub fn transform_text_chain(chain: &Vec<Rect>, text: Text) -> (r: Text)
    ensures
        r.text@ == text.text@,
        r.font_size == text.font_size,
        r.point.0 as int == tf_chain_pt(chain@, (text.point.0 as int, text.point.1 as int)).0,
        r.point.1 as int == tf_chain_pt(chain@, (text.point.0 as int, text.point.1 as int)).1,
{
    let mut text = text;
    let q = apply_chain_pt(chain, text.point);
    text.point = q;
    text
}

/// Map an image's position and scale its displayed size through the
/// ancestor chain; pixels and identity pass through.
pub fn transform_image_chain(chain: &Vec<Rect>, image: Image) -> (r: Image)
    ensures
        r.id == image.id,
        r.width == image.width,
        r.height == image.height,
        r.interpolation == image.interpolation,
        r.data@ == image.data@,
        r.position.0 as int == tf_chain_pt(
            chain@,
            (image.position.0 as int, image.position.1 as int),
        ).0,
        r.position.1 as int == tf_chain_pt(
            chain@,
            (image.position.0 as int, image.position.1 as int),
        ).1,
        r.size.0 as int == tf_chain_size(chain@, (image.size.0 as int, image.size.1 as int)).0,
        r.size.1 as int == tf_chain_size(chain@, (image.size.0 as int, image.size.1 as int)).1,
{
    let mut image = image;
    let q = apply_chain_pt(chain, image.position);
    let z = apply_chain_size(chain, image.size);
    image.position = q;
    image.size = z;
    image
}

/// Law: the sub-region mapping sends the local square into its
/// rectangle. For any rectangle of small scalars with non-negative
/// extents and any local point of `[-1, 1]` squared, the mapped point
/// lies within `[x, x + dx] * [y, y + dy]`; the corner `(-1, -1)` lands
/// exactly on `(x, y)` and the corner `(1, 1)` exactly on
/// `(x + dx, y + dy)`.
pub proof fn lemma_transform_within_rect(rect: Rect, px: int, py: int)
    requires
        fx_small(rect.x as int),
        fx_small(rect.y as int),
        fx_small(rect.dx as int),
        fx_small(rect.dy as int),
        rect.dx >= 0,
        rect.dy >= 0,
        -FX_ONE <= px <= FX_ONE,
        -FX_ONE <= py <= FX_ONE,
    ensures
        rect.x <= tf_pt(rect, (px, py)).0 <= rect.x + rect.dx,
        rect.y <= tf_pt(rect, (px, py)).1 <= rect.y + rect.dy,
        tf_pt(rect, (-FX_ONE as int, -FX_ONE as int)) == (rect.x as int, rect.y as int),
        tf_pt(rect, (FX_ONE as int, FX_ONE as int)) == (rect.x + rect.dx, rect.y + rect.dy),
{
    lemma_tf1_within(rect.x as int, rect.dx as int, px);
    lemma_tf1_within(rect.y as int, rect.dy as int, py);
    lemma_tf1_within(rect.x as int, rect.dx as int, -FX_ONE as int);
    lemma_tf1_within(rect.y as int, rect.dy as int, -FX_ONE as int);
    lemma_tf1_within(rect.x as int, rect.dx as int, FX_ONE as int);
    lemma_tf1_within(rect.y as int, rect.dy as int, FX_ONE as int);
}

/// One coordinate of the containment law, with exact images for the
/// ends of the local frame.
proof fn lemma_tf1_within(x: int, d: int, p: int)
    requires
        fx_small(x),
        fx_small(d),
        d >= 0,
        -FX_ONE <= p <= FX_ONE,
    ensures
        x <= tf1(x, d, p) <= x + d,
        p == -FX_ONE ==> tf1(x, d, p) == x,
        p == FX_ONE ==> tf1(x, d, p) == x + d,
{
    let num = d * (FX_ONE + p);
    assert(0 <= num <= d * (2 * FX_ONE)) by (nonlinear_arith)
        requires
            num == d * (FX_ONE + p),
            d >= 0,
            0 <= FX_ONE + p <= 2 * FX_ONE,
    ;
    lemma_div_pos_is_pos(num, 2 * FX_ONE);
    lemma_div_is_ordered(num, d * (2 * FX_ONE), 2 * FX_ONE);
    lemma_div_multiples_vanish(d, 2 * FX_ONE);
    assert(d * (2 * FX_ONE) == (2 * FX_ONE) * d) by (nonlinear_arith);
    assert(divt(num, 2 * FX_ONE) <= d);
    if p == -FX_ONE {
        assert(num == 0) by (nonlinear_arith)
            requires
                num == d * (FX_ONE + p) && p == -FX_ONE,
        ;
        lemma_div_of0(2 * FX_ONE);
    }
    if p == FX_ONE {
        assert(num == d * (2 * FX_ONE)) by (nonlinear_arith)
            requires
                num == d * (FX_ONE + p) && p == FX_ONE,
        ;
    }
}

/// Rectangle and optional fill and edge colors of an axes.
pub struct AxesAttributes {
    pub rect: Rect,
    pub facecolor: Option<Color>,
    pub edgecolor: Option<Color>,
}

impl Default for AxesAttributes {
    /// A slightly inset rectangle with no colors.
    fn default() -> (r: Self)
        ensures
            r.rect == (Rect { x: -600_000i64, y: -600_000i64, dx: 1_200_000i64, dy: 1_200_000i64 }),
            r.facecolor is None,
            r.edgecolor is None,
    {
        AxesAttributes {
            rect: Rect { x: -600_000, y: -600_000, dx: 1_200_000, dy: 1_200_000 },
            facecolor: None,
            edgecolor: None,
        }
    }
}

/// A container artist: a sub-region of its parent holding child
/// artists.
pub struct Axes {
    pub a: AxesAttributes,
    pub children: Vec<Artist>,
}

/// Builder for [`Axes`].
pub struct AxesBuilder {
    pub a: AxesAttributes,
}

impl AxesBuilder {
    /// Start from the default rectangle and no colors.
    pub fn new() -> (r: AxesBuilder)
        ensures
            r.a.rect == (Rect { x: -600_000i64, y: -600_000i64, dx: 1_200_000i64, dy: 1_200_000i64 }),
            r.a.facecolor is None,
            r.a.edgecolor is None,
    {
        AxesBuilder { a: Default::default() }
    }

    /// Finish the axes, childless.
    pub fn build(self) -> (r: Axes)
        ensures
            r.a == self.a,
            r.children@.len() == 0,
    {
        Axes { a: self.a, children: Vec::new() }
    }

    /// Set the rectangle from `[x, y, dx, dy]`.
    pub fn with_rect(self, rect: &[Fx; 4]) -> (r: Self)
        ensures
            r.a.rect.x == rect[0],
            r.a.rect.y == rect[1],
            r.a.rect.dx == rect[2],
            r.a.rect.dy == rect[3],
            r.a.facecolor == self.a.facecolor,
            r.a.edgecolor == self.a.edgecolor,
    {
        let mut r = self;
        r.a.rect = Rect { x: rect[0], y: rect[1], dx: rect[2], dy: rect[3] };
        r
    }

    /// Set the fill color.
    pub fn with_facecolor(self, color: Color) -> (r: Self)
        ensures
            r.a.rect == self.a.rect,
            r.a.facecolor == Some(color),
            r.a.edgecolor == self.a.edgecolor,
    {
        let mut r = self;
        r.a.facecolor = Some(color);
        r
    }

    /// Set the border color.
    pub fn with_edgecolor(self, color: Color) -> (r: Self)
        ensures
            r.a.rect == self.a.rect,
            r.a.facecolor == self.a.facecolor,
            r.a.edgecolor == Some(color),
    {
        let mut r = self;
        r.a.edgecolor = Some(color);
        r
    }
}

/// A color option as the wire tuple a path carries.
pub open spec fn color_tuple(c: Option<Color>) -> Option<(Fx, Fx, Fx, Fx)> {
    match c {
        Some(col) => Some((col.0, col.1, col.2, col.3)),
        None => None,
    }
}

/// What [`Axes::paths`] returns: one closed border path around the
/// rectangle, stroked with the edge color and filled with the face
/// color.
pub open spec fn axes_paths_ok(ax: Axes, r: Seq<Path>) -> bool {
    &&& r.len() == 1
    &&& r[0].closed == true
    &&& r[0].line_color == color_tuple(ax.a.edgecolor)
    &&& r[0].fill_color == color_tuple(ax.a.facecolor)
    &&& r[0].points@.len() == 4
    &&& r[0].points@[0] == (ax.a.rect.x, ax.a.rect.y)
    &&& r[0].points@[1].0 as int == sat64(ax.a.rect.x + ax.a.rect.dx)
    &&& r[0].points@[1].1 == ax.a.rect.y
    &&& r[0].points@[2].0 as int == sat64(ax.a.rect.x + ax.a.rect.dx)
    &&& r[0].points@[2].1 as int == sat64(ax.a.rect.y + ax.a.rect.dy)
    &&& r[0].points@[3].0 == ax.a.rect.x
    &&& r[0].points@[3].1 as int == sat64(ax.a.rect.y + ax.a.rect.dy)
}

impl Axes {
    /// Every child is well formed.
    pub open spec fn wf(&self) -> bool {
        forall|i: int| 0 <= i < self.children@.len() ==> (#[trigger] self.children@[i]).wf()
    }

    /// Append a child artist; later children draw on top.
    pub fn add_child(&mut self, child: Artist)
        ensures
            final(self).children@ == old(self).children@.push(child),
            final(self).a == old(self).a,
    {
        self.children.push(child);
    }

    /// One closed path: the rectangle's border, stroked with the edge
    /// color and filled with the face color, in the parent's space. The
    /// corner coordinates saturate like all scalar sums.
    pub fn paths(&self) -> (r: Vec<Path>)
        ensures
            axes_paths_ok(*self, r@),
    {
        let Rect { x, y, dx, dy } = self.a.rect;
        let xe = crate::fx::fx_add_sat(x, dx);
        let ye = crate::fx::fx_add_sat(y, dy);
        let points: Vec<(Fx, Fx)> = vec![(x, y), (xe, y), (xe, ye), (x, ye)];
        let line_color = match self.a.edgecolor {
            Some(c) => Some((c.0, c.1, c.2, c.3)),
            None => None,
        };
        let fill_color = match self.a.facecolor {
            Some(c) => Some((c.0, c.1, c.2, c.3)),
            None => None,
        };
        vec![Path { points, closed: true, line_color, fill_color }]
    }
}

} // verus!
