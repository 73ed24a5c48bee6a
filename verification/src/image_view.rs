//! A raster image artist.
//!
//! An image view turns a rectangular grid of numeric values into RGB
//! bytes through a color lookup table, places the image inside its
//! container preserving the aspect ratio, and derives its axis ranges
//! from the fitted size so that tick labels reflect data-space extents.
//!
//! The image's cache id is a pure content hash of the quantized grid
//! values: equal grids always get the same id, in every process, and no
//! time-based salt is mixed in, so backends may cache decoded images by
//! id across runs.

use vstd::prelude::*;

verus! {

use crate::fx::{Fx, FX_ONE, divt, divq, sat64, fx_div_s};
use crate::color::Color;
use crate::color_lut::{ColorLUT, spec_color_at};
use crate::axis::{Axis, AxisType, world_coord, widened};
use crate::backend::{ImageId, Image, Interpolation, Path, Text};
use crate::extend_vec::{HasShape, HasMinMax, grid_has, grid_within};
use vstd::arithmetic::div_mod::{
    lemma_div_is_ordered,
    lemma_div_multiples_vanish,
    lemma_div_pos_is_pos,
};

/// A rasterized 2-D grid with its axes, value limits and styling.
#[derive(Debug)]
pub struct ImageView {
    pub id: ImageId,
    pub data: Vec<Vec<Fx>>,
    pub xaxis: Axis,
    pub yaxis: Axis,
    pub vlims: (Fx, Fx),
    pub i: ImageViewAttributes,
}

/// Interpolation mode and color lookup of an image view.
#[derive(Debug)]
pub struct ImageViewAttributes {
    pub interpolation: Interpolation,
    pub lut: ColorLUT,
}

/// Builder for [`ImageView`].
#[derive(Debug)]
pub struct ImageViewBuilder {
    pub data: Vec<Vec<Fx>>,
    pub xlims: Option<(Fx, Fx)>,
    pub ylims: Option<(Fx, Fx)>,
    pub vlims: Option<(Fx, Fx)>,
    pub i: ImageViewAttributes,
}

impl Default for ImageViewAttributes {
    /// Raw pixels through a black-to-white gradient.
    fn default() -> (r: Self)
        ensures
            r.interpolation == Interpolation::Off,
            r.lut.stops() =~= seq![
                (0 as Fx, crate::color::named_rgb(0, 0, 0)),
                (FX_ONE, crate::color::named_rgb(255, 255, 255)),
            ],
    {
        Self {
            interpolation: Interpolation::Off,
            lut: ColorLUT::linear(vec![(0, crate::color::black()), (FX_ONE, crate::color::white())]),
        }
    }
}

/// The displayed width of a `w` by `h` pixel image fitted inside the
/// two-unit-wide square container: the longer pixel dimension spans the
/// full two units, the shorter is scaled in proportion.
pub open spec fn fit_w_spec(w: int, h: int) -> int
    recommends
        w >= 1 || h >= 1,
{
    if w > h {
        2 * FX_ONE
    } else {
        divt(2 * FX_ONE * w, h)
    }
}

/// The displayed height of the fitted image; see [`fit_w_spec`].
pub open spec fn fit_h_spec(w: int, h: int) -> int
    recommends
        w >= 1 || h >= 1,
{
    if w > h {
        divt(2 * FX_ONE * h, w)
    } else {
        2 * FX_ONE
    }
}

/// Compute the displayed size of a `size.0` by `size.1` pixel image
/// fitted inside the squared container whose coordinates span two units;
/// see [`fit_w_spec`] and [`fit_h_spec`].
pub fn fit_size_within_container(size: (usize, usize)) -> (r: (Fx, Fx))
    requires
        size.0 >= 1 || size.1 >= 1,
    ensures
        r.0 as int == fit_w_spec(size.0 as int, size.1 as int),
        r.1 as int == fit_h_spec(size.0 as int, size.1 as int),
        0 <= r.0 <= 2 * FX_ONE,
        0 <= r.1 <= 2 * FX_ONE,
{
    let (w, h) = size;
    if w > h {
        let num: i128 = 2 * (FX_ONE as i128) * (h as i128);
        proof {
            lemma_div_pos_is_pos(num as int, w as int);
            lemma_div_is_ordered(num as int, 2 * (FX_ONE as int) * (w as int), w as int);
            lemma_div_multiples_vanish(2 * FX_ONE as int, w as int);
            assert(2 * (FX_ONE as int) * (w as int) == (w as int) * (2 * FX_ONE as int));
        }
        let q: i128 = num / (w as i128);
        (2 * FX_ONE, q as i64)
    } else {
        let num: i128 = 2 * (FX_ONE as i128) * (w as i128);
        proof {
            lemma_div_pos_is_pos(num as int, h as int);
            lemma_div_is_ordered(num as int, 2 * (FX_ONE as int) * (h as int), h as int);
            lemma_div_multiples_vanish(2 * FX_ONE as int, h as int);
            assert(2 * (FX_ONE as int) * (h as int) == (h as int) * (2 * FX_ONE as int));
        }
        let q: i128 = num / (h as i128);
        (q as i64, 2 * FX_ONE)
    }
}

/// A grid value quantized to whole units, clamped below at zero, the way
/// the content hash reads it.
pub open spec fn quantized(v: Fx) -> u64 {
    let u = divt(v as int, FX_ONE as int);
    if u < 0 {
        0u64
    } else {
        u as u64
    }
}

/// One mixing step of the content hash (the 64-bit FNV-1a round).
pub open spec fn id_mix(h: u64, q: u64) -> u64 {
    (((h ^ q) * 0x100_0000_01b3) % 0x1_0000_0000_0000_0000) as u64
}

/// The content hash folded over one row, head first.
pub open spec fn hash_row(h: u64, row: Seq<Fx>) -> u64
    decreases row.len(),
{
    if row.len() == 0 {
        h
    } else {
        hash_row(id_mix(h, quantized(row[0])), row.drop_first())
    }
}

/// The content hash folded over all rows, head first.
pub open spec fn hash_grid(h: u64, g: Seq<Vec<Fx>>) -> u64
    decreases g.len(),
{
    if g.len() == 0 {
        h
    } else {
        hash_grid(hash_row(h, g[0]@), g.drop_first())
    }
}

/// The content-derived id of a grid: a pure function of the quantized
/// values, with no salt.
pub open spec fn image_id_of(g: Seq<Vec<Fx>>) -> u64 {
    hash_grid(0xcbf2_9ce4_8422_2325u64, g)
}

/// Hash the grid's quantized values into a cache id; see
/// [`image_id_of`].
pub fn compute_image_id(data: &Vec<Vec<Fx>>) -> (r: ImageId)
    ensures
        r.0 == image_id_of(data@),
{
    let ghost d = data@;
    let mut h: u64 = 0xcbf2_9ce4_8422_2325;
    let n: usize = data.len();
    proof {
        assert(d.skip(0) =~= d);
    }
    for i in 0..n
        invariant
            n == d.len(),
            data@ == d,
            hash_grid(h, d.skip(i as int)) == image_id_of(d),
    {
        let row = &data[i];
        let m: usize = row.len();
        let ghost rv = row@;
        proof {
            assert(rv.skip(0) =~= rv);
            assert(d.skip(i as int).drop_first() =~= d.skip(i as int + 1));
        }
        for j in 0..m
            invariant
                n == d.len(),
                data@ == d,
                i < n,
                m == rv.len(),
                row@ == rv,
                data@[i as int]@ == rv,
                hash_grid(hash_row(h, rv.skip(j as int)), d.skip(i as int + 1)) == image_id_of(d),
        {
            let v: Fx = row[j];
            let q: u64 = quantize_exec(v);
            proof {
                assert(rv.skip(j as int)[0] == rv[j as int]);
                assert(rv.skip(j as int).drop_first() =~= rv.skip(j as int + 1));
            }
            h = (h ^ q).wrapping_mul(0x100_0000_01b3);
        }
        proof {
            assert(rv.skip(m as int) =~= Seq::<Fx>::empty());
        }
    }
    ImageId(h)
}

/// Quantize one grid value for hashing; see [`quantized`].
fn quantize_exec(v: Fx) -> (r: u64)
    ensures
        r == quantized(v),
{
    let u: i64 = v / FX_ONE;
    if u < 0 {
        0
    } else {
        u as u64
    }
}

impl ImageViewBuilder {
    /// Start from a 2-D grid, rows first; the shape is deduced from the
    /// vectors.
    pub fn new(image: Vec<Vec<Fx>>) -> (r: Self)
        ensures
            r.data == image,
            r.xlims is None,
            r.ylims is None,
            r.vlims is None,
            r.i.interpolation == Interpolation::Off,
            r.i.lut.stops() =~= seq![
                (0 as Fx, crate::color::named_rgb(0, 0, 0)),
                (FX_ONE, crate::color::named_rgb(255, 255, 255)),
            ],
    {
        Self { data: image, xlims: None, ylims: None, vlims: None, i: Default::default() }
    }

    /// Start from flat row-major data and an explicit `(columns, rows)`
    /// shape; fails when the data length does not match the shape.
    pub fn new_from_linear_data(data: Vec<Fx>, shape: (usize, usize)) -> (r: Result<Self, String>)
        ensures
            r is Err <==> data@.len() != shape.0 * shape.1,
            r is Err ==> r->Err_0@ == "Data length and shape do not match!"@,
            r is Ok ==> {
                &&& r->Ok_0.data@.len() == shape.1
                &&& forall|a: int|
                    0 <= a < shape.1 ==> (#[trigger] r->Ok_0.data@[a])@.len() == shape.0
                &&& forall|a: int, b: int|
                    0 <= a < shape.1 && 0 <= b < shape.0 ==> (#[trigger] r->Ok_0.data@[a]@[b])
                        == data@[a * shape.0 + b]
                &&& r->Ok_0.xlims is None
                &&& r->Ok_0.ylims is None
                &&& r->Ok_0.vlims is None
                &&& r->Ok_0.i.interpolation == Interpolation::Off
            },
    {
        let len: usize = data.len();
        let (col_count, row_count) = shape;
        proof {
            reveal_strlit("Data length and shape do not match!");
        }
        let shape_matches: bool = if col_count == 0 || row_count == 0 {
            len == 0
        } else {
            len % col_count == 0 && len / col_count == row_count
        };
        proof {
            if col_count == 0 || row_count == 0 {
                assert(col_count as int * row_count as int == 0) by (nonlinear_arith)
                    requires
                        col_count == 0 || row_count == 0,
                ;
            } else {
                vstd::arithmetic::div_mod::lemma_fundamental_div_mod(
                    len as int,
                    col_count as int,
                );
                if len as int == col_count as int * row_count as int {
                    lemma_div_multiples_vanish(row_count as int, col_count as int);
                    vstd::arithmetic::div_mod::lemma_mod_multiples_basic(
                        row_count as int,
                        col_count as int,
                    );
                    assert(row_count as int * col_count as int == col_count as int
                        * row_count as int) by (nonlinear_arith);
                }
            }
            assert(shape_matches <==> len as int == col_count as int * row_count as int);
        }
        if !shape_matches {
            return Err("Data length and shape do not match!".to_owned());
        }
        let mut image: Vec<Vec<Fx>> = Vec::new();
        let mut idx: usize = 0;
        let mut a: usize = 0;
        while a < row_count
            invariant
                data@.len() == col_count * row_count,
                data@.len() <= usize::MAX,
                idx == a * col_count,
                0 <= a <= row_count,
                image@.len() == a,
                forall|t: int| 0 <= t < a ==> (#[trigger] image@[t])@.len() == col_count,
                forall|t: int, b: int|
                    0 <= t < a && 0 <= b < col_count ==> (#[trigger] image@[t]@[b]) == data@[t
                        * col_count + b],
            decreases row_count - a,
        {
            proof {
                assert((a + 1) * col_count <= row_count * col_count && a * col_count >= 0)
                    by (nonlinear_arith)
                    requires
                        0 <= a < row_count,
                        col_count >= 0,
                ;
                assert(row_count * col_count == col_count * row_count) by (nonlinear_arith);
                assert((a + 1) * col_count == a * col_count + col_count) by (nonlinear_arith);
            }
            let mut row: Vec<Fx> = Vec::new();
            let mut b: usize = 0;
            while b < col_count
                invariant
                    data@.len() == col_count * row_count,
                    data@.len() <= usize::MAX,
                    0 <= b <= col_count,
                    idx == a * col_count,
                    idx + col_count <= data@.len(),
                    row@.len() == b,
                    forall|t: int| 0 <= t < b ==> (#[trigger] row@[t]) == data@[idx + t],
                decreases col_count - b,
            {
                row.push(data[idx + b]);
                b = b + 1;
            }
            image.push(row);
            idx = idx + col_count;
            a = a + 1;
        }
        Ok(Self { data: image, xlims: None, ylims: None, vlims: None, i: Default::default() })
    }

    /// Fix the X range instead of deriving it from the fitted size.
    pub fn with_xlims(self, xlims: (Fx, Fx)) -> (r: Self)
        ensures
            r == (Self { xlims: Some(xlims), ..self }),
    {
        let mut r = self;
        r.xlims = Some(xlims);
        r
    }

    /// Fix the Y range instead of deriving it from the fitted size.
    pub fn with_ylims(self, ylims: (Fx, Fx)) -> (r: Self)
        ensures
            r == (Self { ylims: Some(ylims), ..self }),
    {
        let mut r = self;
        r.ylims = Some(ylims);
        r
    }

    /// Fix the value limits instead of deriving them from the grid.
    pub fn with_vlims(self, vlims: (Fx, Fx)) -> (r: Self)
        ensures
            r == (Self { vlims: Some(vlims), ..self }),
    {
        let mut r = self;
        r.vlims = Some(vlims);
        r
    }
}

/// A normalized value clamped into `[0, 1]`.
pub open spec fn clamp01(v: int) -> int {
    if v < 0 {
        0
    } else if v > FX_ONE {
        FX_ONE as int
    } else {
        v
    }
}

/// Where `v` falls between the value limits, scaled into `[0, 1]` and
/// clamped at both ends.
pub open spec fn normalized(v: Fx, vlims: (Fx, Fx)) -> int
    recommends
        vlims.0 != vlims.1,
{
    clamp01(fx_div_s(v - vlims.0, vlims.1 - vlims.0))
}

/// The color of one grid value: normalized, then looked up in the
/// gradient. Degenerate value limits leave nothing to normalize over and
/// yield opaque black, whatever the gradient.
pub open spec fn pixel_color(v: Fx, vlims: (Fx, Fx), stops: Seq<(Fx, Color)>) -> Color {
    if vlims.0 == vlims.1 {
        Color(0, 0, 0, FX_ONE)
    } else {
        spec_color_at(stops, normalized(v, vlims) as Fx)
    }
}

/// The three RGB bytes of one grid value.
pub open spec fn pixel_bytes(v: Fx, vlims: (Fx, Fx), stops: Seq<(Fx, Color)>) -> Seq<u8> {
    let c = pixel_color(v, vlims, stops);
    seq![
        crate::color::byte_of_channel(c.0 as int) as u8,
        crate::color::byte_of_channel(c.1 as int) as u8,
        crate::color::byte_of_channel(c.2 as int) as u8,
    ]
}

/// The RGB bytes of one row, left to right.
pub open spec fn row_bytes(row: Seq<Fx>, vlims: (Fx, Fx), stops: Seq<(Fx, Color)>) -> Seq<u8>
    decreases row.len(),
{
    if row.len() == 0 {
        Seq::empty()
    } else {
        pixel_bytes(row[0], vlims, stops) + row_bytes(row.drop_first(), vlims, stops)
    }
}

/// The RGB bytes of the whole grid, row-major.
pub open spec fn grid_bytes(g: Seq<Vec<Fx>>, vlims: (Fx, Fx), stops: Seq<(Fx, Color)>) -> Seq<u8>
    decreases g.len(),
{
    if g.len() == 0 {
        Seq::empty()
    } else {
        row_bytes(g[0]@, vlims, stops) + grid_bytes(g.drop_first(), vlims, stops)
    }
}

/// One row rasterizes to three bytes per value.
pub proof fn lemma_row_bytes_len(row: Seq<Fx>, vlims: (Fx, Fx), stops: Seq<(Fx, Color)>)
    ensures
        row_bytes(row, vlims, stops).len() == 3 * row.len(),
    decreases row.len(),
{
    if row.len() > 0 {
        lemma_row_bytes_len(row.drop_first(), vlims, stops);
    }
}

/// A rectangular grid rasterizes to three bytes per value: the buffer
/// length matches the `width * height * 3` layout of the image wire
/// shape.
pub proof fn lemma_grid_bytes_len(
    g: Seq<Vec<Fx>>,
    vlims: (Fx, Fx),
    stops: Seq<(Fx, Color)>,
    cols: int,
)
    requires
        forall|i: int| 0 <= i < g.len() ==> (#[trigger] g[i])@.len() == cols,
    ensures
        grid_bytes(g, vlims, stops).len() == 3 * g.len() * cols,
    decreases g.len(),
{
    if g.len() == 0 {
        assert(3 * g.len() * cols == 0) by (nonlinear_arith)
            requires
                g.len() == 0,
        ;
    } else {
        assert(g[0]@.len() == cols);
        lemma_row_bytes_len(g[0]@, vlims, stops);
        assert(forall|i: int|
            0 <= i < g.drop_first().len() ==> (#[trigger] g.drop_first()[i])@.len() == cols);
        lemma_grid_bytes_len(g.drop_first(), vlims, stops, cols);
        assert(3 * g.len() * cols == 3 * cols + 3 * (g.len() - 1) * cols) by (nonlinear_arith);
    }
}

/// The empty-grid failure message of [`ImageViewBuilder::build`].
pub open spec fn grid_empty_shape(d: Seq<Vec<Fx>>) -> bool {
    d.len() == 0 || d[0]@.len() == 0
}

/// Some row differs in length from the first: the grid is not
/// rectangular.
pub open spec fn grid_ragged(d: Seq<Vec<Fx>>) -> bool {
    exists|i: int| 0 <= i < d.len() && (#[trigger] d[i])@.len() != d[0]@.len()
}

/// The RGB buffer of the grid would not fit in a vector.
pub open spec fn grid_too_big(d: Seq<Vec<Fx>>) -> bool {
    3 * d.len() * d[0]@.len() > usize::MAX
}

/// The default X upper limit when no explicit X range is given: the
/// pixel width where the image is wider than tall, else the width scaled
/// back up by the fitted display width, so that the axis spans the data
/// extent of what is actually shown. A fitted width that truncates to
/// zero (an extreme aspect ratio) falls back to the pixel height, the
/// exact limit of that scaling.
pub open spec fn xmax_default(w: int, h: int) -> int {
    if w > h {
        sat64(w * FX_ONE)
    } else if fit_w_spec(w, h) != 0 {
        fx_div_s(sat64(2 * FX_ONE * w), fit_w_spec(w, h))
    } else {
        sat64(h * FX_ONE)
    }
}

/// The default Y upper limit; the mirror image of [`xmax_default`].
pub open spec fn ymax_default(w: int, h: int) -> int {
    if h > w {
        sat64(h * FX_ONE)
    } else if fit_h_spec(w, h) != 0 {
        fx_div_s(sat64(2 * FX_ONE * h), fit_h_spec(w, h))
    } else {
        sat64(w * FX_ONE)
    }
}

impl ImageView {
    /// The grid is rectangular and non-empty, its RGB buffer fits in a
    /// vector, and both axes are usable and correctly oriented.
    pub open spec fn wf(&self) -> bool {
        &&& self.data@.len() >= 1
        &&& self.data@[0]@.len() >= 1
        &&& forall|i: int|
            0 <= i < self.data@.len() ==> (#[trigger] self.data@[i])@.len()
                == self.data@[0]@.len()
        &&& 3 * self.data@.len() * self.data@[0]@.len() <= usize::MAX
        &&& self.xaxis.wf()
        &&& self.xaxis.axis_type == AxisType::XAxis
        &&& self.yaxis.wf()
        &&& self.yaxis.axis_type == AxisType::YAxis
    }

    /// The grid's `(columns, rows)` shape.
    pub fn shape(&self) -> (r: (usize, usize))
        ensures
            r == self.data.spec_shape(),
    {
        self.data.shape()
    }

    /// Rasterize the grid, row-major, three bytes per value; see
    /// [`grid_bytes`].
    pub fn raw_rgb(&self) -> (r: Vec<u8>)
        requires
            self.wf(),
        ensures
            r@ == grid_bytes(self.data@, self.vlims, self.i.lut.stops()),
    {
        let ghost d = self.data@;
        let ghost stops = self.i.lut.stops();
        let (vmin, vmax) = self.vlims;
        let mut out: Vec<u8> = Vec::new();
        let n: usize = self.data.len();
        proof {
            assert(d.skip(0) =~= d);
            assert(out@ + grid_bytes(d.skip(0), self.vlims, stops) =~= grid_bytes(
                d,
                self.vlims,
                stops,
            ));
        }
        for i in 0..n
            invariant
                n == d.len(),
                self.data@ == d,
                self.wf(),
                self.vlims == (vmin, vmax),
                stops == self.i.lut.stops(),
                out@ + grid_bytes(d.skip(i as int), self.vlims, stops) == grid_bytes(
                    d,
                    self.vlims,
                    stops,
                ),
        {
            let row = &self.data[i];
            let m: usize = row.len();
            let ghost rv = row@;
            proof {
                assert(rv.skip(0) =~= rv);
                assert(d.skip(i as int).drop_first() =~= d.skip(i as int + 1));
                assert(out@ + (row_bytes(rv.skip(0), self.vlims, stops) + grid_bytes(
                    d.skip(i as int + 1),
                    self.vlims,
                    stops,
                )) =~= out@ + grid_bytes(d.skip(i as int), self.vlims, stops));
            }
            for j in 0..m
                invariant
                    n == d.len(),
                    self.data@ == d,
                    self.wf(),
                    self.vlims == (vmin, vmax),
                    stops == self.i.lut.stops(),
                    i < n,
                    m == rv.len(),
                    row@ == rv,
                    d[i as int]@ == rv,
                    out@ + (row_bytes(rv.skip(j as int), self.vlims, stops) + grid_bytes(
                        d.skip(i as int + 1),
                        self.vlims,
                        stops,
                    )) == grid_bytes(d, self.vlims, stops),
            {
                let v: Fx = row[j];
                proof {
                    assert(rv.skip(j as int)[0] == rv[j as int]);
                    assert(rv.skip(j as int).drop_first() =~= rv.skip(j as int + 1));
                }
                let c: Color = if vmin == vmax {
                    Color(0, 0, 0, FX_ONE)
                } else {
                    let dv: i128 = v as i128 - vmin as i128;
                    proof {
                        crate::fx::lemma_mul_wide_by_scale_fits(dv as int, FX_ONE as int);
                    }
                    let num: i128 = dv * (FX_ONE as i128);
                    let den: i128 = vmax as i128 - vmin as i128;
                    let raw: Fx = crate::fx::sat_narrow(crate::fx::div_i128(num, den));
                    let clamped: Fx = if raw < 0 {
                        0
                    } else if raw > FX_ONE {
                        FX_ONE
                    } else {
                        raw
                    };
                    self.i.lut.color_at(clamped)
                };
                proof {
                    assert(c == pixel_color(rv[j as int], self.vlims, stops));
                }
                let bytes: [u8; 3] = c.bytes_rgb();
                out.push(bytes[0]);
                out.push(bytes[1]);
                out.push(bytes[2]);
                proof {
                    assert(seq![bytes[0], bytes[1], bytes[2]] =~= pixel_bytes(
                        rv[j as int],
                        self.vlims,
                        stops,
                    ));
                    assert(out@ + (row_bytes(rv.skip(j as int + 1), self.vlims, stops)
                        + grid_bytes(d.skip(i as int + 1), self.vlims, stops)) =~= grid_bytes(
                        d,
                        self.vlims,
                        stops,
                    ));
                }
            }
            proof {
                assert(rv.skip(m as int) =~= Seq::<Fx>::empty());
                assert(out@ + grid_bytes(d.skip(i as int + 1), self.vlims, stops) =~= grid_bytes(
                    d,
                    self.vlims,
                    stops,
                ));
            }
        }
        proof {
            assert(d.skip(n as int) =~= Seq::<Vec<Fx>>::empty());
            assert(out@ =~= grid_bytes(d, self.vlims, stops));
        }
        out
    }

    /// The displayed position of the lower-left corner, in the
    /// container's coordinates: where data value zero falls on each
    /// axis.
    pub open spec fn world_pos_spec(&self) -> (int, int) {
        (
            world_coord(AxisType::XAxis, self.xaxis.lims, 0),
            world_coord(AxisType::YAxis, self.yaxis.lims, 0),
        )
    }

    /// The displayed size, in the container's coordinates: how far the
    /// pixel extent reaches from data value zero along each axis. The Y
    /// axis decreases upward, so its span is negated.
    pub open spec fn world_size_spec(&self) -> (int, int) {
        let wfx = sat64(self.data@[0]@.len() * FX_ONE);
        let hfx = sat64(self.data@.len() * FX_ONE);
        (
            sat64(
                world_coord(AxisType::XAxis, self.xaxis.lims, wfx) - world_coord(
                    AxisType::XAxis,
                    self.xaxis.lims,
                    0,
                ),
            ),
            sat64(
                -world_coord(AxisType::YAxis, self.yaxis.lims, hfx) + world_coord(
                    AxisType::YAxis,
                    self.yaxis.lims,
                    0,
                ),
            ),
        )
    }

    /// The lower-left corner of the displayed image; see
    /// [`ImageView::world_pos_spec`].
    fn world_position(&self) -> (r: (Fx, Fx))
        requires
            self.wf(),
        ensures
            r.0 as int == self.world_pos_spec().0,
            r.1 as int == self.world_pos_spec().1,
    {
        (self.xaxis.world_coord_at(0), self.yaxis.world_coord_at(0))
    }

    /// The displayed size of the image; see
    /// [`ImageView::world_size_spec`].
    fn world_size(&self) -> (r: (Fx, Fx))
        requires
            self.wf(),
        ensures
            r.0 as int == self.world_size_spec().0,
            r.1 as int == self.world_size_spec().1,
    {
        let (width, height) = self.data.shape();
        proof {
            assert(vstd::std_specs::vec::spec_vec_len(&self.data) == self.data@.len());
            assert(vstd::std_specs::vec::spec_vec_len(&self.data@[0]) == self.data@[0]@.len());
            lemma_dims_fit(self.data@.len() as int, self.data@[0]@.len() as int);
            assert(width as int == self.data@[0]@.len() as int);
            assert(height as int == self.data@.len() as int);
        }
        let (lower_left_pos_x, lower_left_pos_y) = self.world_position();
        let wfx: Fx = crate::fx::fx_from_int(width as i64);
        let hfx: Fx = crate::fx::fx_from_int(height as i64);
        proof {
            assert(wfx as int == sat64(self.data@[0]@.len() * FX_ONE));
            assert(hfx as int == sat64(self.data@.len() * FX_ONE));
        }
        let upper_right_pos_x = self.xaxis.world_coord_at(wfx);
        let upper_right_pos_y = self.yaxis.world_coord_at(hfx);
        (
            crate::fx::fx_sub_sat(upper_right_pos_x, lower_left_pos_x),
            crate::fx::fx_sub_sat(lower_left_pos_y, upper_right_pos_y),
        )
    }
}


/// Law: the displayed width spans the full two units of the container
/// when the X range runs from zero to exactly the pixel width — which
/// is how the builder ranges the longer (or equal) dimension of the
/// aspect-preserving fit. With the displayed height bounded by two
/// units through [`fit_size_within_container`], this is the exact half
/// of the fit: the longer dimension maps to the whole span.
pub proof fn lemma_image_full_span_x(v: ImageView)
    requires
        v.wf(),
        v.xaxis.lims.0 == 0,
        v.xaxis.lims.1 as int == v.data@[0]@.len() * FX_ONE,
    ensures
        v.world_size_spec().0 == 2 * FX_ONE,
{
    let w = v.xaxis.lims.1 as int;
    assert(w > 0) by (nonlinear_arith)
        requires
            w == v.data@[0]@.len() * FX_ONE,
            v.data@[0]@.len() >= 1,
    ;
    lemma_div_multiples_vanish(2 * FX_ONE as int, w);
    assert(w * (2 * FX_ONE) == w * (2 * FX_ONE as int));
    vstd::arithmetic::div_mod::lemma_div_of0(w);
    assert(divq(0 * (2 * FX_ONE), w) == 0);
    assert(divq(w * (2 * FX_ONE), w) == 2 * FX_ONE);
}

/// Law: the displayed height spans the full two units of the container
/// when the Y range runs from zero to exactly the pixel height; the
/// mirror image of [`lemma_image_full_span_x`].
pub proof fn lemma_image_full_span_y(v: ImageView)
    requires
        v.wf(),
        v.yaxis.lims.0 == 0,
        v.yaxis.lims.1 as int == v.data@.len() * FX_ONE,
    ensures
        v.world_size_spec().1 == 2 * FX_ONE,
{
    let h = v.yaxis.lims.1 as int;
    assert(h > 0) by (nonlinear_arith)
        requires
            h == v.data@.len() * FX_ONE,
            v.data@.len() >= 1,
    ;
    lemma_div_multiples_vanish(2 * FX_ONE as int, h);
    vstd::arithmetic::div_mod::lemma_div_of0(h);
    assert(divq(0 * (2 * FX_ONE), h) == 0);
    assert(divq(h * (2 * FX_ONE), h) == 2 * FX_ONE);
}

/// Both dimensions of a well-formed grid fit in a signed 64-bit count,
/// because three bytes per value fit in a vector length.
proof fn lemma_dims_fit(rows: int, cols: int)
    by (nonlinear_arith)
    requires
        rows >= 1,
        cols >= 1,
        3 * rows * cols <= usize::MAX,
    ensures
        rows <= i64::MAX,
        cols <= i64::MAX,
{
}


/// What [`ImageView::paths`] returns: the X axis frame and tick marks,
/// then the Y axis frame and tick marks, skipping invisible axes.
pub open spec fn iv_paths_ok(v: ImageView, r: Seq<Path>) -> bool {
    &&& r.len() == (if v.xaxis.visible {
        crate::axis::TICK_COUNT + 1 as int
    } else {
        0
    }) + (if v.yaxis.visible {
        crate::axis::TICK_COUNT + 1 as int
    } else {
        0
    })
    &&& v.xaxis.visible ==> {
        &&& crate::axis::is_black_segment(
            r[0],
            crate::axis::axis_line_start(AxisType::XAxis),
            crate::axis::axis_line_end(AxisType::XAxis),
        )
        &&& forall|k: int|
            1 <= k < crate::axis::TICK_COUNT + 1 ==> crate::axis::is_black_segment(
                #[trigger] r[k],
                crate::axis::tick_mark_start(AxisType::XAxis, k - 1),
                crate::axis::tick_mark_end(AxisType::XAxis, k - 1),
            )
    }
    &&& v.yaxis.visible ==> {
        let o = if v.xaxis.visible {
            crate::axis::TICK_COUNT + 1 as int
        } else {
            0
        };
        &&& crate::axis::is_black_segment(
            r[o],
            crate::axis::axis_line_start(AxisType::YAxis),
            crate::axis::axis_line_end(AxisType::YAxis),
        )
        &&& forall|k: int|
            1 <= k < crate::axis::TICK_COUNT + 1 ==> crate::axis::is_black_segment(
                #[trigger] r[o + k],
                crate::axis::tick_mark_start(AxisType::YAxis, k - 1),
                crate::axis::tick_mark_end(AxisType::YAxis, k - 1),
            )
    }
}

/// What [`ImageView::texts`] returns: the X axis tick labels, then the
/// Y axis tick labels, skipping invisible axes.
pub open spec fn iv_texts_ok(v: ImageView, r: Seq<Text>) -> bool {
    &&& r.len() == (if v.xaxis.visible {
        crate::axis::TICK_COUNT as int
    } else {
        0
    }) + (if v.yaxis.visible {
        crate::axis::TICK_COUNT as int
    } else {
        0
    })
    &&& v.xaxis.visible ==> forall|k: int|
        0 <= k < crate::axis::TICK_COUNT ==> {
            &&& (#[trigger] r[k]).point.0 as int == crate::axis::tick_text_anchor(
                AxisType::XAxis,
                k,
            ).0
            &&& r[k].point.1 as int == crate::axis::tick_text_anchor(AxisType::XAxis, k).1
            &&& r[k].text@ == crate::axis::label_of(crate::axis::tick_val_at(v.xaxis.lims, k))
        }
    &&& v.yaxis.visible ==> {
        let o = if v.xaxis.visible {
            crate::axis::TICK_COUNT as int
        } else {
            0
        };
        forall|k: int|
            0 <= k < crate::axis::TICK_COUNT ==> {
                &&& (#[trigger] r[o + k]).point.0 as int == crate::axis::tick_text_anchor(
                    AxisType::YAxis,
                    k,
                ).0
                &&& r[o + k].point.1 as int == crate::axis::tick_text_anchor(AxisType::YAxis, k).1
                &&& r[o + k].text@ == crate::axis::label_of(
                    crate::axis::tick_val_at(v.yaxis.lims, k),
                )
            }
    }
}

/// What [`ImageView::images`] returns: the one rasterized image with
/// its content id, pixel shape, placement and displayed size.
pub open spec fn iv_images_ok(v: ImageView, r: Seq<Image>) -> bool {
    &&& r.len() == 1
    &&& r[0].id == v.id
    &&& r[0].width == v.data@[0]@.len()
    &&& r[0].height == v.data@.len()
    &&& r[0].interpolation == v.i.interpolation
    &&& r[0].data@ == grid_bytes(v.data@, v.vlims, v.i.lut.stops())
    &&& r[0].data@.len() == 3 * r[0].height * r[0].width
    &&& r[0].position.0 as int == v.world_pos_spec().0
    &&& r[0].position.1 as int == v.world_pos_spec().1
    &&& r[0].size.0 as int == v.world_size_spec().0
    &&& r[0].size.1 as int == v.world_size_spec().1
}

impl ImageView {
    /// Exactly one image: the rasterized grid with its content id,
    /// placement and displayed size.
    pub fn images(&self) -> (r: Vec<Image>)
        requires
            self.wf(),
        ensures
            iv_images_ok(*self, r@),
    {
        let (width, height) = self.data.shape();
        proof {
            assert(vstd::std_specs::vec::spec_vec_len(&self.data) == self.data@.len());
            assert(vstd::std_specs::vec::spec_vec_len(&self.data@[0]) == self.data@[0]@.len());
            lemma_grid_bytes_len(
                self.data@,
                self.vlims,
                self.i.lut.stops(),
                self.data@[0]@.len() as int,
            );
        }
        let position = self.world_position();
        let size = self.world_size();
        vec![
            Image {
                id: self.id,
                width,
                height,
                interpolation: self.i.interpolation,
                data: self.raw_rgb(),
                position,
                size,
            },
        ]
    }

    /// The paths of both axes: the X axis frame and ticks first, then
    /// the Y axis frame and ticks.
    pub fn paths(&self) -> (r: Vec<Path>)
        requires
            self.wf(),
        ensures
            iv_paths_ok(*self, r@),
    {
        let mut paths = self.xaxis.paths();
        let mut ypaths = self.yaxis.paths();
        paths.append(&mut ypaths);
        paths
    }

    /// The tick labels of both axes, X axis labels first.
    pub fn texts(&self) -> (r: Vec<Text>)
        requires
            self.wf(),
        ensures
            iv_texts_ok(*self, r@),
    {
        let mut texts = self.xaxis.texts();
        let mut ytexts = self.yaxis.texts();
        texts.append(&mut ytexts);
        texts
    }
}

impl ImageViewBuilder {
    /// Finish the image view.
    ///
    /// The grid must be non-empty, rectangular, and small enough that
    /// its RGB buffer fits in a vector; each failure reports its own
    /// message. On success: explicit limits pass through the degenerate
    /// widening; missing coordinate limits start at zero and reach the
    /// data extent of the fitted display size; missing value limits
    /// default to the grid's own least and greatest value; and the cache
    /// id is the content hash of the grid.
    pub fn build(self) -> (r: Result<ImageView, String>)
        ensures
            r is Err <==> (grid_empty_shape(self.data@) || grid_ragged(self.data@)
                || grid_too_big(self.data@)),
            grid_empty_shape(self.data@) ==> r is Err && r->Err_0@
                == "The provided array is empty!"@,
            !grid_empty_shape(self.data@) && grid_ragged(self.data@) ==> r is Err && r->Err_0@
                == "The provided array is not rectangular!"@,
            !grid_empty_shape(self.data@) && !grid_ragged(self.data@) && grid_too_big(self.data@)
                ==> r is Err && r->Err_0@ == "The provided array is too large!"@,
            r is Ok ==> {
                let v = r->Ok_0;
                &&& v.wf()
                &&& v.data == self.data
                &&& v.i == self.i
                &&& v.id.0 == image_id_of(self.data@)
                &&& v.xaxis.visible && v.yaxis.visible
                &&& (match self.xlims {
                    Some(xl) => v.xaxis.lims.0 as int == widened(xl).0 && v.xaxis.lims.1 as int
                        == widened(xl).1,
                    None => {
                        let xm = xmax_default(
                            self.data@[0]@.len() as int,
                            self.data@.len() as int,
                        );
                        v.xaxis.lims.0 as int == widened((0, xm as Fx)).0 && v.xaxis.lims.1 as int
                            == widened((0, xm as Fx)).1
                    },
                })
                &&& (match self.ylims {
                    Some(yl) => v.yaxis.lims.0 as int == widened(yl).0 && v.yaxis.lims.1 as int
                        == widened(yl).1,
                    None => {
                        let ym = ymax_default(
                            self.data@[0]@.len() as int,
                            self.data@.len() as int,
                        );
                        v.yaxis.lims.0 as int == widened((0, ym as Fx)).0 && v.yaxis.lims.1 as int
                            == widened((0, ym as Fx)).1
                    },
                })
                &&& (match self.vlims {
                    Some(vl) => v.vlims == vl,
                    None => exists|mn: Fx, mx: Fx|
                        grid_has(self.data@, mn) && grid_has(self.data@, mx)
                            && #[trigger] grid_within(self.data@, mn, mx) && v.vlims == (mn, mx),
                })
            },
    {
        proof {
            reveal_strlit("The provided array is empty!");
            reveal_strlit("The provided array is not rectangular!");
            reveal_strlit("The provided array is too large!");
        }
        let rows: usize = self.data.len();
        if rows == 0 {
            return Err("The provided array is empty!".to_owned());
        }
        let cols: usize = self.data[0].len();
        if cols == 0 {
            return Err("The provided array is empty!".to_owned());
        }
        let mut i: usize = 1;
        while i < rows
            invariant
                rows == self.data@.len(),
                1 <= i <= rows,
                cols >= 1,
                cols == self.data@[0]@.len(),
                forall|t: int| 0 <= t < i ==> (#[trigger] self.data@[t])@.len() == cols,
            decreases rows - i,
        {
            if self.data[i].len() != cols {
                return Err("The provided array is not rectangular!".to_owned());
            }
            i = i + 1;
        }
        proof {
            assert(!grid_ragged(self.data@));
        }
        proof {
            assert((rows as int) * (cols as int)
                <= 0xffff_ffff_ffff_ffff_ffff_ffff_ffff_ffff) by (nonlinear_arith)
                requires
                    0 <= rows <= 0xffff_ffff_ffff_ffff,
                    0 <= cols <= 0xffff_ffff_ffff_ffff,
            ;
        }
        let rc: u128 = (rows as u128) * (cols as u128);
        if rc > (usize::MAX as u128) / 3 {
            proof {
                assert(3 * (rows as int) * (cols as int) > usize::MAX) by (nonlinear_arith)
                    requires
                        (rows as int) * (cols as int) > (usize::MAX as int) / 3,
                        3 * ((usize::MAX as int) / 3) + 2 >= usize::MAX as int,
                ;
            }
            return Err("The provided array is too large!".to_owned());
        }
        proof {
            assert(3 * (rows as int) * (cols as int) <= usize::MAX) by (nonlinear_arith)
                requires
                    (rows as int) * (cols as int) <= (usize::MAX as int) / 3,
                    3 * ((usize::MAX as int) / 3) <= usize::MAX as int,
            ;
            lemma_dims_fit(rows as int, cols as int);
        }
        let (width, height) = self.data.shape();
        let (disp_w, disp_h) = fit_size_within_container((width, height));
        let xaxis = match self.xlims {
            Some(xlims) => Axis::new_xaxis(xlims),
            None => {
                let xmax: Fx = if width > height {
                    crate::fx::fx_from_int(width as i64)
                } else if disp_w != 0 {
                    proof {
                        crate::fx::lemma_mul_wide_by_scale_fits(width as int, 2 * FX_ONE as int);
                    }
                    let a_fx: Fx = crate::fx::sat_narrow(
                        (width as i128) * (2 * FX_ONE as i128),
                    );
                    proof {
                        assert((width as int) * (2 * FX_ONE as int) == 2 * FX_ONE
                            * (width as int)) by (nonlinear_arith);
                    }
                    crate::fx::fx_div(a_fx, disp_w)
                } else {
                    crate::fx::fx_from_int(height as i64)
                };
                Axis::new_xaxis((0, xmax))
            },
        };
        let yaxis = match self.ylims {
            Some(ylims) => Axis::new_yaxis(ylims),
            None => {
                let ymax: Fx = if height > width {
                    crate::fx::fx_from_int(height as i64)
                } else if disp_h != 0 {
                    proof {
                        crate::fx::lemma_mul_wide_by_scale_fits(height as int, 2 * FX_ONE as int);
                    }
                    let a_fx: Fx = crate::fx::sat_narrow(
                        (height as i128) * (2 * FX_ONE as i128),
                    );
                    proof {
                        assert((height as int) * (2 * FX_ONE as int) == 2 * FX_ONE
                            * (height as int)) by (nonlinear_arith);
                    }
                    crate::fx::fx_div(a_fx, disp_h)
                } else {
                    crate::fx::fx_from_int(width as i64)
                };
                Axis::new_yaxis((0, ymax))
            },
        };
        let vlims: (Fx, Fx) = match self.vlims {
            Some(vl) => vl,
            None => {
                let mm = self.data.min_max();
                match mm {
                    Some((mn, mx)) => (mn, mx),
                    None => {
                        proof {
                            assert(crate::extend_vec::grid_valid(self.data@, 0, 0));
                            assert(false);
                        }
                        (0, FX_ONE)
                    },
                }
            },
        };
        let id = compute_image_id(&self.data);
        Ok(ImageView { id, data: self.data, xaxis, yaxis, vlims, i: self.i })
    }
}


} // verus!
