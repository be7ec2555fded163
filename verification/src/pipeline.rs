//! Rendering techniques and the procedural texture of the cube technique.
//!
//! The set of techniques is closed: each is one variant of `Technique`, and
//! the resource cache keeps at most one pipeline per variant.  The cube
//! technique samples a procedurally generated escape-time texture, computed
//! here in fixed point.

use crate::fx::{
    fx_add, fx_add_s, fx_mul, fx_mul_s, fx_sub, fx_sub_s, narrow_i128, sat64, tdiv, tdiv_i128,
    FX_ONE,
};
use vstd::arithmetic::div_mod::lemma_multiply_divide_lt;
use vstd::prelude::*;

verus! {

/// Two units, in fixed point.
pub const FX_TWO: i64 = 2000000;

/// Four units, in fixed point.
pub const FX_FOUR: i64 = 4000000;

/// A rendering technique: one pipeline exists per variant.
#[derive(Clone, Copy, Debug, PartialEq, Eq, Structural)]
pub enum Technique {
    HelloTriangle,
    Cube,
    Azur,
}

/// The flat-shaded full-frame technique.
pub struct AzurPipeline;

impl AzurPipeline {
    /// The technique this pipeline renders.
    pub fn technique(&self) -> (t: Technique)
        ensures
            t == Technique::Azur,
    {
        Technique::Azur
    }
}

/// Whether an escape-time iterate has left the radius-two disc.
pub open spec fn escaped_s(x: int, y: int) -> bool {
    fx_add_s(fx_mul_s(x, x), fx_mul_s(y, y)) >= FX_FOUR as int
}

/// The next x iterate: `x*x - y*y + cx`.
pub open spec fn iterate_x_s(x: int, y: int, cx: int) -> int {
    fx_add_s(fx_sub_s(fx_mul_s(x, x), fx_mul_s(y, y)), cx)
}

/// The next y iterate: `2*x*y + cy`.
pub open spec fn iterate_y_s(x: int, y: int, cy: int) -> int {
    fx_add_s(fx_mul_s(fx_mul_s(FX_TWO as int, x), y), cy)
}

/// How many iterations the point `(cx, cy)` survives inside the radius-two
/// disc, counted from iterate `(x, y)` with `fuel` iterations left.
pub open spec fn escape_steps_s(x: int, y: int, cx: int, cy: int, fuel: nat) -> nat
    decreases fuel,
{
    if fuel == 0 {
        0
    } else if escaped_s(x, y) {
        0
    } else {
        1 + escape_steps_s(iterate_x_s(x, y, cx), iterate_y_s(x, y, cy), cx, cy, (fuel - 1) as nat)
    }
}

/// The x coordinate of a texel's sample point: columns span `[-2, 1]`.
pub open spec fn texel_cx_s(size: int, col: int) -> int {
    fx_sub_s(sat64(tdiv(3 * col * (FX_ONE as int), size - 1)), FX_TWO as int)
}

/// The y coordinate of a texel's sample point: rows span `[-1, 1]`.
pub open spec fn texel_cy_s(size: int, row: int) -> int {
    fx_sub_s(sat64(tdiv(2 * row * (FX_ONE as int), size - 1)), FX_ONE as int)
}

/// The value of one texel: the escape count of its sample point, capped at
/// 255.
pub open spec fn texel_s(size: int, id: int) -> u8 {
    let cx = texel_cx_s(size, id % size);
    let cy = texel_cy_s(size, id / size);
    escape_steps_s(cx, cy, cx, cy, 255) as u8
}

/// The escape count never exceeds the fuel it starts with.
proof fn lemma_escape_steps_bounded(x: int, y: int, cx: int, cy: int, fuel: nat)
    ensures
        escape_steps_s(x, y, cx, cy, fuel) <= fuel,
    decreases fuel,
{
    if fuel > 0 && !escaped_s(x, y) {
        lemma_escape_steps_bounded(
            iterate_x_s(x, y, cx),
            iterate_y_s(x, y, cy),
            cx,
            cy,
            (fuel - 1) as nat,
        );
    }
}

/// The square escape-time texture of the cube technique, one byte per texel,
/// row by row.
pub fn create_texels(size: usize) -> (r: Vec<u8>)
    requires
        2 <= size,
        size * size <= usize::MAX,
    ensures
        r@.len() == size * size,
        forall|id: int| 0 <= id < r@.len() ==> r@[id] == texel_s(size as int, id),
{
    let total: usize = size * size;
    let mut out: Vec<u8> = Vec::new();
    let mut id: usize = 0;
    while id < total
        invariant
            id <= total,
            total == size * size,
            2 <= size,
            out@.len() == id,
            forall|k: int| 0 <= k < id ==> out@[k] == texel_s(size as int, k),
        decreases total - id,
    {
        let col: usize = id % size;
        let row: usize = id / size;
        proof {
            lemma_multiply_divide_lt(id as int, size as int, size as int);
            assert(0 <= 3 * (col as int) * (FX_ONE as int) < 0x10000000000000000000000int)
                by (nonlinear_arith)
                requires
                    0 <= col as int <= 0xFFFFFFFFFFFFFFFFint,
                    FX_ONE == 1000000i64,
            ;
            assert(0 <= 2 * (row as int) * (FX_ONE as int) < 0x10000000000000000000000int)
                by (nonlinear_arith)
                requires
                    0 <= row as int <= 0xFFFFFFFFFFFFFFFFint,
                    FX_ONE == 1000000i64,
            ;
        }
        let cx: i64 = fx_sub(
            narrow_i128(tdiv_i128(3 * (col as i128) * (FX_ONE as i128), (size - 1) as i128)),
            FX_TWO,
        );
        let cy: i64 = fx_sub(
            narrow_i128(tdiv_i128(2 * (row as i128) * (FX_ONE as i128), (size - 1) as i128)),
            FX_ONE,
        );
        let mut x: i64 = cx;
        let mut y: i64 = cy;
        let mut count: u8 = 0;
        loop
            invariant_except_break
                count <= 255,
                count as nat + escape_steps_s(x as int, y as int, cx as int, cy as int, (255
                    - count) as nat) == escape_steps_s(
                    cx as int,
                    cy as int,
                    cx as int,
                    cy as int,
                    255,
                ),
            ensures
                count as nat == escape_steps_s(cx as int, cy as int, cx as int, cy as int, 255),
            decreases 255 - count,
        {
            if count >= 255 {
                break;
            }
            let sq = fx_add(fx_mul(x, x), fx_mul(y, y));
            if sq >= FX_FOUR {
                proof {
                    assert(escape_steps_s(
                        x as int,
                        y as int,
                        cx as int,
                        cy as int,
                        (255 - count) as nat,
                    ) == 0);
                }
                break;
            }
            proof {
                assert(escape_steps_s(
                    x as int,
                    y as int,
                    cx as int,
                    cy as int,
                    (255 - count) as nat,
                ) == 1 + escape_steps_s(
                    iterate_x_s(x as int, y as int, cx as int),
                    iterate_y_s(x as int, y as int, cy as int),
                    cx as int,
                    cy as int,
                    (255 - count - 1) as nat,
                ));
            }
            let next_x = fx_add(fx_sub(fx_mul(x, x), fx_mul(y, y)), cx);
            let next_y = fx_add(fx_mul(fx_mul(FX_TWO, x), y), cy);
            x = next_x;
            y = next_y;
            count = count + 1;
        }
        proof {
            lemma_escape_steps_bounded(cx as int, cy as int, cx as int, cy as int, 255);
        }
        out.push(count);
        id = id + 1;
    }
    out
}

} // verus!
