//! The artist capability: every scene node as one closed set of
//! variants, dispatched by pattern match.
//!
//! An artist can be asked for the paths, texts and images it wants
//! drawn, all in its own local coordinate space, and rendered: drawing
//! its own primitives mapped through the transforms of its ancestor
//! axes, then recursing into its children in insertion order, so later
//! children draw on top (a depth-first pre-order traversal).

use vstd::prelude::*;

verus! {

use crate::backend::{Backend, FigureId, Path, Text, Image};
use crate::line::{Line, line_paths_ok};
use crate::line_collection::{LineCollection, lc_paths_ok};
use crate::plot::{Plot, plot_paths_ok};
use crate::image_view::{ImageView, iv_paths_ok, iv_texts_ok, iv_images_ok};
use crate::axes::{Axes, Rect, axes_paths_ok, transform_path_chain, transform_text_chain,
    transform_image_chain};

/// Any scene node: a leaf that renders data, or an axes container
/// holding further artists.
pub enum Artist {
    Line(Line),
    LineCollection(LineCollection),
    Plot(Plot),
    ImageView(ImageView),
    Axes(Axes),
}

impl Artist {
    /// The node and everything below it is well formed.
    pub open spec fn wf(&self) -> bool
        decreases self,
    {
        match self {
            Artist::Line(_) => true,
            Artist::LineCollection(_) => true,
            Artist::Plot(p) => p.wf(),
            Artist::ImageView(v) => v.wf(),
            Artist::Axes(ax) => forall|i: int|
                0 <= i < ax.children@.len() ==> (#[trigger] ax.children@[i]).wf(),
        }
    }

    /// The paths this artist wants drawn, in its own local space.
    pub fn paths(&self) -> (r: Vec<Path>)
        requires
            self.wf(),
        ensures
            match self {
                Artist::Line(l) => line_paths_ok(*l, r@),
                Artist::LineCollection(lc) => lc_paths_ok(*lc, r@),
                Artist::Plot(p) => plot_paths_ok(*p, r@),
                Artist::ImageView(v) => iv_paths_ok(*v, r@),
                Artist::Axes(ax) => axes_paths_ok(*ax, r@),
            },
    {
        match self {
            Artist::Line(l) => l.paths(),
            Artist::LineCollection(lc) => lc.paths(),
            Artist::Plot(p) => p.paths(),
            Artist::ImageView(v) => v.paths(),
            Artist::Axes(ax) => ax.paths(),
        }
    }

    /// The text labels this artist wants drawn; only image views label
    /// anything.
    pub fn texts(&self) -> (r: Vec<Text>)
        requires
            self.wf(),
        ensures
            match self {
                Artist::ImageView(v) => iv_texts_ok(*v, r@),
                _ => r@.len() == 0,
            },
    {
        match self {
            Artist::ImageView(v) => v.texts(),
            _ => Vec::new(),
        }
    }

    /// The images this artist wants drawn; only image views draw any.
    pub fn images(&self) -> (r: Vec<Image>)
        requires
            self.wf(),
        ensures
            match self {
                Artist::ImageView(v) => iv_images_ok(*v, r@),
                _ => r@.len() == 0,
            },
    {
        match self {
            Artist::ImageView(v) => v.images(),
            _ => Vec::new(),
        }
    }

    /// Draw this artist and everything below it into the backend:
    /// first its own primitives, each mapped through the ancestor
    /// rectangle chain (innermost last in `chain`, applied first), then,
    /// for an axes, every child in insertion order under the chain
    /// extended by the axes' own rectangle. The first backend error
    /// aborts the traversal and is returned.
    pub fn render<B: Backend>(&self, chain: &Vec<Rect>, fig_id: FigureId, be: &mut B) -> (r:
        Result<(), B::Err>)
        requires
            self.wf(),
        ensures
            final(be).events_left() == old(be).events_left(),
        decreases *self,
    {
        let paths = self.paths();
        let n: usize = paths.len();
        for i in 0..n
            invariant
                n == paths@.len(),
                be.events_left() == old(be).events_left(),
        {
            let p = transform_path_chain(chain, copy_path(&paths[i]));
            let res = be.draw_path(fig_id, &p);
            if let Err(e) = res {
                return Err(e);
            }
        }
        let texts = self.texts();
        let tn: usize = texts.len();
        let mut ti: usize = 0;
        while ti < tn
            invariant
                tn == texts@.len(),
                0 <= ti <= tn,
                be.events_left() == old(be).events_left(),
            decreases tn - ti,
        {
            let t = transform_text_chain(chain, copy_text(&texts[ti]));
            let res = be.draw_text(fig_id, &t);
            if let Err(e) = res {
                return Err(e);
            }
            ti = ti + 1;
        }
        let images = self.images();
        let im: usize = images.len();
        let mut ii: usize = 0;
        while ii < im
            invariant
                im == images@.len(),
                0 <= ii <= im,
                be.events_left() == old(be).events_left(),
            decreases im - ii,
        {
            let img = transform_image_chain(chain, copy_image(&images[ii]));
            let res = be.draw_image(fig_id, &img);
            if let Err(e) = res {
                return Err(e);
            }
            ii = ii + 1;
        }
        if let Artist::Axes(ax) = self {
            let mut chain2: Vec<Rect> = crate::extend_vec::copy_vec(chain);
            chain2.push(ax.a.rect);
            let cn: usize = ax.children.len();
            let mut ci: usize = 0;
            while ci < cn
                invariant
                    cn == ax.children@.len(),
                    0 <= ci <= cn,
                    self.wf(),
                    *self == Artist::Axes(*ax),
                    be.events_left() == old(be).events_left(),
                decreases cn - ci,
            {
                let res = ax.children[ci].render(&chain2, fig_id, be);
                if let Err(e) = res {
                    return Err(e);
                }
                ci = ci + 1;
            }
        }
        Ok(())
    }
}

/// A fresh path equal to `p`.
fn copy_path(p: &Path) -> (r: Path)
    ensures
        r.points@ == p.points@,
        r.closed == p.closed,
        r.line_color == p.line_color,
        r.fill_color == p.fill_color,
{
    Path {
        points: crate::extend_vec::copy_vec(&p.points),
        closed: p.closed,
        line_color: p.line_color,
        fill_color: p.fill_color,
    }
}

/// A fresh text equal to `t`.
fn copy_text(t: &Text) -> (r: Text)
    ensures
        r.point == t.point,
        r.text@ == t.text@,
        r.font_size == t.font_size,
{
    Text { point: t.point, text: t.text.clone(), font_size: t.font_size }
}

/// A fresh image equal to `i`.
fn copy_image(i: &Image) -> (r: Image)
    ensures
        r.id == i.id,
        r.width == i.width,
        r.height == i.height,
        r.interpolation == i.interpolation,
        r.data@ == i.data@,
        r.position == i.position,
        r.size == i.size,
{
    Image {
        id: i.id,
        width: i.width,
        height: i.height,
        interpolation: i.interpolation,
        data: crate::extend_vec::copy_vec(&i.data),
        position: i.position,
        size: i.size,
    }
}

} // verus!
