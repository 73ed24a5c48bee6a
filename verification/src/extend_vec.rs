//! Minimum/maximum scans and shape helpers for nested vectors.
//!
//! Data series are vectors of rows; a row is a vector of 2-D points (for
//! plots) or of plain values (for raster grids). The scans here find the
//! least and greatest component across every row, which is what axis
//! auto-ranging and value-limit defaulting are built on.

use vstd::prelude::*;

verus! {

use crate::fx::Fx;

/// The `x` or `y` component of a point.
pub open spec fn comp(p: (Fx, Fx), pick_y: bool) -> Fx {
    if pick_y {
        p.1
    } else {
        p.0
    }
}

/// `(a, b)` indexes a point of `data`.
pub open spec fn pts_valid(data: Seq<Vec<(Fx, Fx)>>, a: int, b: int) -> bool {
    0 <= a < data.len() && 0 <= b < data[a]@.len()
}

/// `(a, b)` lies strictly before the scan position `(i, j)` in row-major
/// order.
pub open spec fn before(a: int, b: int, i: int, j: int) -> bool {
    a < i || (a == i && b < j)
}

/// Every point before `(i, j)` has its picked component within
/// `[mn, mx]`.
pub open spec fn pts_within_upto(
    data: Seq<Vec<(Fx, Fx)>>,
    pick_y: bool,
    mn: Fx,
    mx: Fx,
    i: int,
    j: int,
) -> bool {
    forall|a: int, b: int|
        #[trigger] pts_valid(data, a, b) && before(a, b, i, j) ==> mn <= comp(
            data[a]@[b],
            pick_y,
        ) <= mx
}

/// Some point before `(i, j)` has `v` as its picked component.
pub open spec fn pts_has_upto(
    data: Seq<Vec<(Fx, Fx)>>,
    pick_y: bool,
    v: Fx,
    i: int,
    j: int,
) -> bool {
    exists|a: int, b: int|
        #[trigger] pts_valid(data, a, b) && before(a, b, i, j) && comp(data[a]@[b], pick_y) == v
}

/// No point lies before `(i, j)`.
pub open spec fn pts_empty_upto(data: Seq<Vec<(Fx, Fx)>>, i: int, j: int) -> bool {
    forall|a: int, b: int| #[trigger] pts_valid(data, a, b) ==> !before(a, b, i, j)
}

/// `data` holds no point at all.
pub open spec fn pts_none(data: Seq<Vec<(Fx, Fx)>>) -> bool {
    pts_empty_upto(data, data.len() as int, 0)
}

/// Some point of `data` has `v` as its picked component.
pub open spec fn pts_has(data: Seq<Vec<(Fx, Fx)>>, pick_y: bool, v: Fx) -> bool {
    pts_has_upto(data, pick_y, v, data.len() as int, 0)
}

/// Every point of `data` has its picked component within `[mn, mx]`.
pub open spec fn pts_within(data: Seq<Vec<(Fx, Fx)>>, pick_y: bool, mn: Fx, mx: Fx) -> bool {
    pts_within_upto(data, pick_y, mn, mx, data.len() as int, 0)
}

/// At the end of row `i` the scanned region is the same as at the start
/// of row `i + 1`.
proof fn lemma_row_end(data: Seq<Vec<(Fx, Fx)>>, i: int)
    requires
        0 <= i < data.len(),
    ensures
        forall|a: int, b: int|
            #[trigger] pts_valid(data, a, b) ==> (before(a, b, i + 1, 0) <==> before(
                a,
                b,
                i,
                data[i]@.len() as int,
            )),
{
}

/// The least and greatest picked component across all points of all
/// series, or `None` when there is no point. The least and greatest are
/// both attained by some point.
pub fn min_max_component(data: &Vec<Vec<(Fx, Fx)>>, pick_y: bool) -> (r: Option<(Fx, Fx)>)
    ensures
        match r {
            Option::None => pts_none(data@),
            Option::Some(mm) => pts_has(data@, pick_y, mm.0) && pts_has(data@, pick_y, mm.1)
                && pts_within(data@, pick_y, mm.0, mm.1),
        },
{
    let ghost d = data@;
    let mut result: Option<(Fx, Fx)> = None;
    let n: usize = data.len();
    for i in 0..n
        invariant
            n == d.len(),
            data@ == d,
            match result {
                Option::None => pts_empty_upto(d, i as int, 0),
                Option::Some(mm) => pts_has_upto(d, pick_y, mm.0, i as int, 0) && pts_has_upto(
                    d,
                    pick_y,
                    mm.1,
                    i as int,
                    0,
                ) && pts_within_upto(d, pick_y, mm.0, mm.1, i as int, 0),
            },
    {
        let m: usize = data[i].len();
        for j in 0..m
            invariant
                n == d.len(),
                data@ == d,
                i < n,
                m == d[i as int]@.len(),
                match result {
                    Option::None => pts_empty_upto(d, i as int, j as int),
                    Option::Some(mm) => pts_has_upto(d, pick_y, mm.0, i as int, j as int)
                        && pts_has_upto(d, pick_y, mm.1, i as int, j as int) && pts_within_upto(
                        d,
                        pick_y,
                        mm.0,
                        mm.1,
                        i as int,
                        j as int,
                    ),
                },
        {
            let p: (Fx, Fx) = data[i][j];
            let v: Fx = if pick_y {
                p.1
            } else {
                p.0
            };
            proof {
                assert(pts_valid(d, i as int, j as int));
                assert(comp(d[i as int]@[j as int], pick_y) == v);
            }
            match result {
                Option::None => {
                    result = Some((v, v));
                },
                Option::Some(mm) => {
                    let (mut mn, mut mx) = mm;
                    if v < mn {
                        mn = v;
                    }
                    if v > mx {
                        mx = v;
                    }
                    result = Some((mn, mx));
                },
            }
            proof {
                assert(before(i as int, j as int, i as int, j as int + 1));
            }
        }
        proof {
            lemma_row_end(d, i as int);
        }
    }
    result
}

/// `(a, b)` indexes a value of the grid `g`.
pub open spec fn grid_valid(g: Seq<Vec<Fx>>, a: int, b: int) -> bool {
    0 <= a < g.len() && 0 <= b < g[a]@.len()
}

/// Every value before `(i, j)` lies within `[mn, mx]`.
pub open spec fn grid_within_upto(g: Seq<Vec<Fx>>, mn: Fx, mx: Fx, i: int, j: int) -> bool {
    forall|a: int, b: int|
        #[trigger] grid_valid(g, a, b) && before(a, b, i, j) ==> mn <= g[a]@[b] <= mx
}

/// Some value before `(i, j)` equals `v`.
pub open spec fn grid_has_upto(g: Seq<Vec<Fx>>, v: Fx, i: int, j: int) -> bool {
    exists|a: int, b: int| #[trigger] grid_valid(g, a, b) && before(a, b, i, j) && g[a]@[b] == v
}

/// No value lies before `(i, j)`.
pub open spec fn grid_empty_upto(g: Seq<Vec<Fx>>, i: int, j: int) -> bool {
    forall|a: int, b: int| #[trigger] grid_valid(g, a, b) ==> !before(a, b, i, j)
}

/// The grid holds no value at all.
pub open spec fn grid_none(g: Seq<Vec<Fx>>) -> bool {
    grid_empty_upto(g, g.len() as int, 0)
}

/// Some value of the grid equals `v`.
pub open spec fn grid_has(g: Seq<Vec<Fx>>, v: Fx) -> bool {
    grid_has_upto(g, v, g.len() as int, 0)
}

/// Every value of the grid lies within `[mn, mx]`.
pub open spec fn grid_within(g: Seq<Vec<Fx>>, mn: Fx, mx: Fx) -> bool {
    grid_within_upto(g, mn, mx, g.len() as int, 0)
}

proof fn lemma_grid_row_end(g: Seq<Vec<Fx>>, i: int)
    requires
        0 <= i < g.len(),
    ensures
        forall|a: int, b: int|
            #[trigger] grid_valid(g, a, b) ==> (before(a, b, i + 1, 0) <==> before(
                a,
                b,
                i,
                g[i]@.len() as int,
            )),
{
}

/// A fresh vector holding the same elements as `v`.
pub fn copy_vec<T: Copy>(v: &Vec<T>) -> (r: Vec<T>)
    ensures
        r@ == v@,
{
    let mut r: Vec<T> = Vec::new();
    let n: usize = v.len();
    for i in 0..n
        invariant
            n == v@.len(),
            r@ =~= v@.subrange(0, i as int),
    {
        r.push(v[i]);
    }
    proof {
        assert(r@ =~= v@);
    }
    r
}

/// A container whose values can be scanned for their least and greatest
/// element.
pub trait HasMinMax {
    /// The rows of values this container holds.
    spec fn grid_vals(&self) -> Seq<Vec<Fx>>;

    /// The least and greatest value, both attained, or `None` when the
    /// container holds no value.
    fn min_max(&self) -> (r: Option<(Fx, Fx)>)
        ensures
            match r {
                Option::None => grid_none(self.grid_vals()),
                Option::Some(mm) => grid_has(self.grid_vals(), mm.0) && grid_has(
                    self.grid_vals(),
                    mm.1,
                ) && grid_within(self.grid_vals(), mm.0, mm.1),
            },
    ;
}

impl HasMinMax for Vec<Vec<Fx>> {
    open spec fn grid_vals(&self) -> Seq<Vec<Fx>> {
        self@
    }

    fn min_max(&self) -> (r: Option<(Fx, Fx)>) {
        let ghost d = self@;
        let mut result: Option<(Fx, Fx)> = None;
        let n: usize = self.len();
        for i in 0..n
            invariant
                n == d.len(),
                self@ == d,
                match result {
                    Option::None => grid_empty_upto(d, i as int, 0),
                    Option::Some(mm) => grid_has_upto(d, mm.0, i as int, 0) && grid_has_upto(
                        d,
                        mm.1,
                        i as int,
                        0,
                    ) && grid_within_upto(d, mm.0, mm.1, i as int, 0),
                },
        {
            let m: usize = self[i].len();
            for j in 0..m
                invariant
                    n == d.len(),
                    self@ == d,
                    i < n,
                    m == d[i as int]@.len(),
                    match result {
                        Option::None => grid_empty_upto(d, i as int, j as int),
                        Option::Some(mm) => grid_has_upto(d, mm.0, i as int, j as int)
                            && grid_has_upto(d, mm.1, i as int, j as int) && grid_within_upto(
                            d,
                            mm.0,
                            mm.1,
                            i as int,
                            j as int,
                        ),
                    },
            {
                let v: Fx = self[i][j];
                proof {
                    assert(grid_valid(d, i as int, j as int));
                }
                match result {
                    Option::None => {
                        result = Some((v, v));
                    },
                    Option::Some(mm) => {
                        let (mut mn, mut mx) = mm;
                        if v < mn {
                            mn = v;
                        }
                        if v > mx {
                            mx = v;
                        }
                        result = Some((mn, mx));
                    },
                }
                proof {
                    assert(before(i as int, j as int, i as int, j as int + 1));
                }
            }
            proof {
                lemma_grid_row_end(d, i as int);
            }
        }
        result
    }
}

/// A container with a rectangular shape.
pub trait HasShape<T> {
    /// The shape the executable method returns.
    spec fn spec_shape(&self) -> T;

    fn shape(&self) -> (r: T)
        ensures
            r == self.spec_shape(),
    ;
}

/// A shaped container that can count its elements.
pub trait HasTotalLength<T>: HasShape<T> {
    /// The element count the executable method returns.
    spec fn spec_total_length(&self) -> int;

    fn total_length(&self) -> (r: usize)
        requires
            self.spec_total_length() <= usize::MAX,
        ensures
            r == self.spec_total_length(),
    ;
}

impl<U> HasShape<(usize, usize)> for Vec<Vec<U>> {
    /// `(columns, rows)`: the length of the first row (zero when there is
    /// no row) and the number of rows.
    open spec fn spec_shape(&self) -> (usize, usize) {
        (
            if self@.len() == 0 {
                0usize
            } else {
                self@[0]@.len() as usize
            },
            self@.len() as usize,
        )
    }

    fn shape(&self) -> (r: (usize, usize)) {
        let row_count: usize = self.len();
        let col_count: usize = if row_count == 0 {
            0
        } else {
            self[0].len()
        };
        (col_count, row_count)
    }
}

impl<U> HasTotalLength<(usize, usize)> for Vec<Vec<U>> {
    open spec fn spec_total_length(&self) -> int {
        self.spec_shape().0 * self.spec_shape().1
    }

    fn total_length(&self) -> (r: usize) {
        let shape: (usize, usize) = self.shape();
        shape.0 * shape.1
    }
}

} // verus!
