//! The static mesh covering the drawing surface: one vertex per cell of a
//! fixed 256 by 256 grid, carrying only a texture coordinate, and a
//! triangle-list index buffer with two triangles per cell. The mesh is
//! derived once from the grid size and never changes.
//!
//! Vertex coordinates are produced as integer numerators over the fixed
//! denominator `2 * CANVAS_WIDTH` (respectively `2 * CANVAS_HEIGHT`): the
//! vertex of cell `(h, w)` sits at `((2w + 1) / 512, (2h + 1) / 512)`, the
//! cell's center in the unit square. The embedding divides the numerators
//! once to obtain the float attribute buffer.
//!
//! The spec formulas below write the grid dimensions out as literals (256
//! columns and rows, 255 cells per quad row, denominator 512) so that every
//! product has a numeric coefficient.

use vstd::prelude::*;

verus! {

/// Grid cells across the drawing surface.
pub const CANVAS_WIDTH: usize = 256;

/// Grid cells down the drawing surface.
pub const CANVAS_HEIGHT: usize = 256;

/// Denominator of both vertex coordinate numerators.
pub const VERTEX_DENOMINATOR: usize = 512;

/// The two vertex coordinate numerators of grid cell `(h, w)` stand at
/// positions `2 * (h * 256 + w)` and the one after: first the horizontal
/// numerator `2w + 1`, then the vertical numerator `2h + 1`.
pub open spec fn vertex_numerators_ok(s: Seq<u16>, h: int, w: int) -> bool {
    let k = 512 * h + 2 * w;
    &&& s[k] == (2 * w + 1) as u16
    &&& s[k + 1] == (2 * h + 1) as u16
}

/// The six indices of grid cell `(h, w)` stand at positions starting at
/// `6 * (h * 255 + w)` and list the cell's two triangles: its corner, right
/// neighbour and lower-right neighbour, then its corner, lower neighbour and
/// lower-right neighbour, vertices numbered row-major on the 256-wide grid.
pub open spec fn cell_indices_ok(s: Seq<u16>, h: int, w: int) -> bool {
    let o = 256 * h + w;
    let o1 = 256 * h + 256 + w;
    let k = 1530 * h + 6 * w;
    &&& s[k] == o as u16
    &&& s[k + 1] == (o + 1) as u16
    &&& s[k + 2] == (o1 + 1) as u16
    &&& s[k + 3] == o as u16
    &&& s[k + 4] == o1 as u16
    &&& s[k + 5] == (o1 + 1) as u16
}

/// Build the vertex coordinate numerators of the whole grid, row by row,
/// two numerators per cell.
pub fn grid_vertex_numerators() -> (r: Vec<u16>)
    ensures
        r@.len() == 131072,
        forall|h: int, w: int|
            0 <= h < CANVAS_HEIGHT && 0 <= w < CANVAS_WIDTH ==> #[trigger] vertex_numerators_ok(
                r@,
                h,
                w,
            ),
{
    let mut v: Vec<u16> = Vec::new();
    let mut h: usize = 0;
    while h < CANVAS_HEIGHT
        invariant
            h <= CANVAS_HEIGHT,
            v@.len() == 512 * h,
            forall|hh: int, ww: int|
                0 <= hh < h && 0 <= ww < CANVAS_WIDTH ==> #[trigger] vertex_numerators_ok(
                    v@,
                    hh,
                    ww,
                ),
        decreases CANVAS_HEIGHT - h,
    {
        let mut w: usize = 0;
        while w < CANVAS_WIDTH
            invariant
                h < CANVAS_HEIGHT,
                w <= CANVAS_WIDTH,
                v@.len() == 512 * h + 2 * w,
                forall|hh: int, ww: int|
                    0 <= hh < h && 0 <= ww < CANVAS_WIDTH ==> #[trigger] vertex_numerators_ok(
                        v@,
                        hh,
                        ww,
                    ),
                forall|ww: int| 0 <= ww < w ==> #[trigger] vertex_numerators_ok(v@, h as int, ww),
            decreases CANVAS_WIDTH - w,
        {
            let ghost prefix = v@;
            v.push((2 * w + 1) as u16);
            v.push((2 * h + 1) as u16);
            proof {
                assert(forall|t: int| 0 <= t < prefix.len() ==> v@[t] == prefix[t]);
                assert(vertex_numerators_ok(v@, h as int, w as int));
                assert forall|hh: int, ww: int|
                    0 <= hh < h && 0 <= ww < CANVAS_WIDTH implies #[trigger] vertex_numerators_ok(
                    v@,
                    hh,
                    ww,
                ) by {
                    assert(vertex_numerators_ok(prefix, hh, ww));
                    assert(512 * hh + 2 * ww + 1 < prefix.len());
                }
                assert forall|ww: int| 0 <= ww < w implies #[trigger] vertex_numerators_ok(
                    v@,
                    h as int,
                    ww,
                ) by {
                    assert(vertex_numerators_ok(prefix, h as int, ww));
                    assert(512 * (h as int) + 2 * ww + 1 < prefix.len());
                }
            }
            w = w + 1;
        }
        h = h + 1;
    }
    v
}

/// Build the triangle-list index buffer of the whole grid: for each cell but
/// the last row and column, the indices of the two triangles joining it to
/// its right, lower and lower-right neighbours.
pub fn grid_indices() -> (r: Vec<u16>)
    ensures
        r@.len() == 390150,
        forall|h: int, w: int|
            0 <= h < CANVAS_HEIGHT - 1 && 0 <= w < CANVAS_WIDTH - 1 ==> #[trigger] cell_indices_ok(
                r@,
                h,
                w,
            ),
{
    let mut v: Vec<u16> = Vec::new();
    let mut h: usize = 0;
    while h < CANVAS_HEIGHT - 1
        invariant
            h <= CANVAS_HEIGHT - 1,
            v@.len() == 1530 * h,
            forall|hh: int, ww: int|
                0 <= hh < h && 0 <= ww < CANVAS_WIDTH - 1 ==> #[trigger] cell_indices_ok(
                    v@,
                    hh,
                    ww,
                ),
        decreases CANVAS_HEIGHT - 1 - h,
    {
        let mut w: usize = 0;
        while w < CANVAS_WIDTH - 1
            invariant
                h < CANVAS_HEIGHT - 1,
                w <= CANVAS_WIDTH - 1,
                v@.len() == 1530 * h + 6 * w,
                forall|hh: int, ww: int|
                    0 <= hh < h && 0 <= ww < CANVAS_WIDTH - 1 ==> #[trigger] cell_indices_ok(
                        v@,
                        hh,
                        ww,
                    ),
                forall|ww: int| 0 <= ww < w ==> #[trigger] cell_indices_ok(v@, h as int, ww),
            decreases CANVAS_WIDTH - 1 - w,
        {
            let o = h * CANVAS_WIDTH;
            let o1 = (h + 1) * CANVAS_WIDTH;
            let ghost prefix = v@;
            v.push((o + w) as u16);
            v.push((o + w + 1) as u16);
            v.push((o1 + w + 1) as u16);
            v.push((o + w) as u16);
            v.push((o1 + w) as u16);
            v.push((o1 + w + 1) as u16);
            proof {
                assert(o == 256 * h);
                assert(o1 == 256 * h + 256);
                assert(forall|t: int| 0 <= t < prefix.len() ==> v@[t] == prefix[t]);
                assert(cell_indices_ok(v@, h as int, w as int));
                assert forall|hh: int, ww: int|
                    0 <= hh < h && 0 <= ww < CANVAS_WIDTH - 1 implies #[trigger] cell_indices_ok(
                    v@,
                    hh,
                    ww,
                ) by {
                    assert(cell_indices_ok(prefix, hh, ww));
                    assert(1530 * hh + 6 * ww + 5 < prefix.len());
                }
                assert forall|ww: int| 0 <= ww < w implies #[trigger] cell_indices_ok(
                    v@,
                    h as int,
                    ww,
                ) by {
                    assert(cell_indices_ok(prefix, h as int, ww));
                    assert(1530 * (h as int) + 6 * ww + 5 < prefix.len());
                }
            }
            w = w + 1;
        }
        h = h + 1;
    }
    v
}

} // verus!
