//! Plain geometry values and the master-stack tiling layout.
//!
//! The layout splits an output into two columns of half the output's width:
//! even-indexed windows go to the left column, odd-indexed ones to the right,
//! and each column is divided into equal-height rows. Integer division
//! truncates; the remainder is not redistributed.

use vstd::prelude::*;

verus! {

/// A position on an output, in output coordinates.
#[derive(Clone, Copy, PartialEq, Eq, Structural, Debug)]
pub struct Point {
    pub x: i32,
    pub y: i32,
}

/// A width and height in output coordinates.
#[derive(Clone, Copy, PartialEq, Eq, Structural, Debug)]
pub struct Size {
    pub w: u32,
    pub h: u32,
}

/// A rectangle assigned to a window: its origin and its size.
#[derive(Clone, Copy, PartialEq, Eq, Structural, Debug)]
pub struct Geometry {
    pub origin: Point,
    pub size: Size,
}

/// Number of rows of the left column when `n` windows are visible:
/// the ceiling of `n / 2`.
pub open spec fn rows_left(n: int) -> int {
    n / 2 + n % 2
}

/// Number of rows of the right column when `n` windows are visible:
/// the floor of `n / 2`.
pub open spec fn rows_right(n: int) -> int {
    n / 2
}

/// The rectangle of the window at position `i` among `n` visible windows
/// on an output of resolution `res`. A single window fills the output;
/// otherwise window `i` sits in the left column if `i` is even and in the
/// right column if `i` is odd, `i / 2` rows down its column.
pub open spec fn tile_rect(res: Size, n: int, i: int) -> Geometry
    recommends
        1 <= n,
        0 <= i < n,
{
    if n == 1 {
        Geometry { origin: Point { x: 0, y: 0 }, size: res }
    } else {
        let w = res.w as int / 2;
        let h = if i % 2 == 0 {
            res.h as int / rows_left(n)
        } else {
            res.h as int / rows_right(n)
        };
        let x = if i % 2 == 0 {
            0
        } else {
            w
        };
        Geometry {
            origin: Point { x: x as i32, y: (h * (i / 2)) as i32 },
            size: Size { w: w as u32, h: h as u32 },
        }
    }
}

/// One side of the rectangle a resize session computes: the distance from
/// the window's origin to the pointer, floored at 32 units, and 32 whenever
/// the pointer is not past the origin.
pub open spec fn spec_resize_side(origin: int, pointer: int) -> int {
    if pointer > origin {
        if pointer - origin > 32 {
            pointer - origin
        } else {
            32
        }
    } else {
        32
    }
}

/// The rectangle a resize session assigns: the origin stays, each side
/// follows the pointer with a 32-unit floor.
pub open spec fn spec_resize_target(geo: Geometry, p: Point) -> Geometry {
    Geometry {
        origin: geo.origin,
        size: Size {
            w: spec_resize_side(geo.origin.x as int, p.x as int) as u32,
            h: spec_resize_side(geo.origin.y as int, p.y as int) as u32,
        },
    }
}

/// The rectangle a move session assigns: the window's origin becomes the
/// pointer position, the size stays.
pub open spec fn spec_move_target(geo: Geometry, p: Point) -> Geometry {
    Geometry { origin: p, size: geo.size }
}

/// New geometry for the window of an active resize session, given the
/// pointer position. Each side is clamped to at least 32 units, so the
/// computed size is never zero or negative.
pub fn resize_target(geo: Geometry, p: Point) -> (r: Geometry)
    ensures
        r == spec_resize_target(geo, p),
        r.origin == geo.origin,
        r.size.w >= 32,
        r.size.h >= 32,
{
    let w: u32 = if p.x > geo.origin.x {
        let dx: i64 = p.x as i64 - geo.origin.x as i64;
        if dx > 32 {
            dx as u32
        } else {
            32
        }
    } else {
        32
    };
    let h: u32 = if p.y > geo.origin.y {
        let dy: i64 = p.y as i64 - geo.origin.y as i64;
        if dy > 32 {
            dy as u32
        } else {
            32
        }
    } else {
        32
    };
    Geometry { origin: geo.origin, size: Size { w, h } }
}

/// New geometry for the window of an active move session: it follows the
/// pointer.
pub fn move_target(geo: Geometry, p: Point) -> (r: Geometry)
    ensures
        r == spec_move_target(geo, p),
{
    Geometry { origin: p, size: geo.size }
}

/// Compute the rectangle of every visible window of an output.
///
/// `visible` is the output's stacking order with hidden windows already
/// filtered out. Returns one `(window, rectangle)` pair per visible window,
/// in the same order.
pub fn layout(resolution: Size, visible: &Vec<u64>) -> (placements: Vec<(u64, Geometry)>)
    requires
        resolution.h <= 0x7fff_ffff,
        visible@.len() <= 0xffff_ffff,
    ensures
        placements@.len() == visible@.len(),
        forall|i: int|
            0 <= i < visible@.len() ==> #[trigger] placements@[i] == (
            visible@[i],
            tile_rect(resolution, visible@.len() as int, i),
            ),
{
    let n = visible.len();
    let mut placements: Vec<(u64, Geometry)> = Vec::new();
    if n == 0 {
        return placements;
    }
    if n == 1 {
        let full = Geometry { origin: Point { x: 0, y: 0 }, size: resolution };
        placements.push((visible[0], full));
        return placements;
    }
    let w: u32 = resolution.w / 2;
    let rows_l: u32 = (n / 2 + n % 2) as u32;
    let rows_r: u32 = (n / 2) as u32;
    let h0: u32 = resolution.h / rows_l;
    let h1: u32 = resolution.h / rows_r;
    let mut i: usize = 0;
    while i < n
        invariant
            2 <= n == visible@.len() <= 0xffff_ffff,
            resolution.h <= 0x7fff_ffff,
            0 <= i <= n,
            w == resolution.w as int / 2,
            rows_l == rows_left(n as int),
            rows_r == rows_right(n as int),
            h0 == resolution.h as int / rows_left(n as int),
            h1 == resolution.h as int / rows_right(n as int),
            placements@.len() == i,
            forall|k: int|
                0 <= k < i ==> #[trigger] placements@[k] == (
                visible@[k],
                tile_rect(resolution, n as int, k),
                ),
        decreases n - i,
    {
        let x: i32 = if i % 2 == 1 {
            w as i32
        } else {
            0
        };
        let h: u32 = if i % 2 == 1 {
            h1
        } else {
            h0
        };
        let row: u64 = (i / 2) as u64;
        proof {
            let ni: int = n as int;
            let ii: int = i as int;
            let rows: int = if ii % 2 == 0 { rows_left(ni) } else { rows_right(ni) };
            assert(ii / 2 < rows);
            assert(resolution.h as int / rows * rows <= resolution.h as int) by {
                vstd::arithmetic::div_mod::lemma_fundamental_div_mod(
                    resolution.h as int,
                    rows,
                );
            }
            assert(h * (ii / 2) <= h * (rows - 1)) by {
                vstd::arithmetic::mul::lemma_mul_inequality(ii / 2, rows - 1, h as int);
            }
            assert(h * (rows - 1) <= h * rows) by {
                vstd::arithmetic::mul::lemma_mul_inequality(rows - 1, rows, h as int);
            }
        }
        let y: i32 = (h as u64 * row) as i32;
        placements.push((visible[i], Geometry {
            origin: Point { x, y },
            size: Size { w, h },
        }));
        i = i + 1;
    }
    placements
}

} // verus!
