//! A seeded 2-D coherent noise field over the tile grid.
//!
//! The field is lattice value noise: a deterministic hash assigns each
//! lattice cell corner a value, and the value at a tile is the bilinear
//! blend of the four corners of the cell the tile falls in, so nearby
//! tiles get nearby values.  Everything is fixed-point integer arithmetic:
//! a sample lies in `[0, NOISE_ONE]`, where `NOISE_ONE` stands for one on
//! the natural unit scale.  The same seed and location always give the same
//! sample, on every run and platform.

use vstd::prelude::*;
use vstd::arithmetic::div_mod::{lemma_div_is_ordered, lemma_fundamental_div_mod};
use crate::location::Location;
use crate::rng::STATE_MODULUS;

verus! {

/// The fixed-point representation of one: a sample of the field lies in
/// `[0, NOISE_ONE]`.
pub const NOISE_ONE: u32 = 1_000_000;

/// The spatial scale of the field: the side, in tiles, of one lattice
/// cell.  Larger cells vary more smoothly.
pub const LATTICE_CELL: u32 = 8;

/// The offset that shifts a signed coordinate into the non-negative range.
pub const COORDINATE_OFFSET: u64 = 0x8000_0000;

/// The deterministic value of the lattice corner `(cx, cy)` under `seed`,
/// in `[0, NOISE_ONE]`.  The corner coordinates are given on the shifted
/// (non-negative) scale.
#[verifier::opaque]
pub open spec fn spec_corner_value(seed: u32, cx: int, cy: int) -> int {
    let h1 = (cx * 2654435761 + cy * 2246822519 + seed + 374761393) % (STATE_MODULUS as int);
    let h2 = (h1 * 48271 + 11) % (STATE_MODULUS as int);
    let h3 = (h2 / 65536 + (h2 % 65536) * 65536) % (STATE_MODULUS as int);
    let h4 = (h3 * 69621 + 1) % (STATE_MODULUS as int);
    h4 % (NOISE_ONE + 1)
}

/// The shifted, always non-negative reading of a signed coordinate.
pub open spec fn spec_shifted(v: i32) -> int {
    v + COORDINATE_OFFSET
}

/// The sample of the field seeded by `seed` at `loc`: the bilinear blend of
/// the four corners of the lattice cell that `loc` falls in.
pub open spec fn spec_sample(seed: u32, loc: Location) -> int {
    let xs = spec_shifted(loc.x);
    let ys = spec_shifted(loc.y);
    let cell = LATTICE_CELL as int;
    let cx = xs / cell;
    let cy = ys / cell;
    let fx = xs % cell;
    let fy = ys % cell;
    let v00 = spec_corner_value(seed, cx, cy);
    let v10 = spec_corner_value(seed, cx + 1, cy);
    let v01 = spec_corner_value(seed, cx, cy + 1);
    let v11 = spec_corner_value(seed, cx + 1, cy + 1);
    (v00 * (cell - fx) * (cell - fy) + v10 * fx * (cell - fy) + v01 * (cell - fx) * fy + v11 * fx
        * fy) / (cell * cell)
}

/// The executable value of the lattice corner `(cx, cy)` under `seed`.
fn corner_value(seed: u32, cx: u32, cy: u32) -> (r: u32)
    requires
        cx <= 0x2000_0000,
        cy <= 0x2000_0000,
    ensures
        r == spec_corner_value(seed, cx as int, cy as int),
        r <= NOISE_ONE,
{
    proof {
        reveal(spec_corner_value);
    }
    let h1: u64 = ((cx as u64) * 2654435761 + (cy as u64) * 2246822519 + (seed as u64)
        + 374761393) % STATE_MODULUS;
    let h2: u64 = (h1 * 48271 + 11) % STATE_MODULUS;
    let h3: u64 = (h2 / 65536 + (h2 % 65536) * 65536) % STATE_MODULUS;
    let h4: u64 = (h3 * 69621 + 1) % STATE_MODULUS;
    (h4 % ((NOISE_ONE as u64) + 1)) as u32
}

/// The sample of the field seeded by `seed` at `loc`, in `[0, NOISE_ONE]`.
#[verifier::rlimit(60)]
pub fn sample(seed: u32, loc: Location) -> (r: u32)
    ensures
        r == spec_sample(seed, loc),
        r <= NOISE_ONE,
{
    let xs: u64 = ((loc.x as i64) + (COORDINATE_OFFSET as i64)) as u64;
    let ys: u64 = ((loc.y as i64) + (COORDINATE_OFFSET as i64)) as u64;
    let cell: u64 = LATTICE_CELL as u64;
    let cx: u64 = xs / cell;
    let cy: u64 = ys / cell;
    let fx: u64 = xs % cell;
    let fy: u64 = ys % cell;
    proof {
        lemma_fundamental_div_mod(xs as int, cell as int);
        lemma_fundamental_div_mod(ys as int, cell as int);
        lemma_div_is_ordered(xs as int, STATE_MODULUS as int - 1, cell as int);
        lemma_div_is_ordered(ys as int, STATE_MODULUS as int - 1, cell as int);
        assert((STATE_MODULUS as int - 1) / (cell as int) < 0x2000_0000);
    }
    let v00: u64 = corner_value(seed, cx as u32, cy as u32) as u64;
    let v10: u64 = corner_value(seed, (cx + 1) as u32, cy as u32) as u64;
    let v01: u64 = corner_value(seed, cx as u32, (cy + 1) as u32) as u64;
    let v11: u64 = corner_value(seed, (cx + 1) as u32, (cy + 1) as u32) as u64;
    proof {
        lemma_blend_term_bounded(v00 as int, cell as int - fx, cell as int - fy, cell as int);
        lemma_blend_term_bounded(v10 as int, fx as int, cell as int - fy, cell as int);
        lemma_blend_term_bounded(v01 as int, cell as int - fx, fy as int, cell as int);
        lemma_blend_term_bounded(v11 as int, fx as int, fy as int, cell as int);
    }
    let t00: u64 = v00 * (cell - fx) * (cell - fy);
    let t10: u64 = v10 * fx * (cell - fy);
    let t01: u64 = v01 * (cell - fx) * fy;
    let t11: u64 = v11 * fx * fy;
    let numerator: u64 = t00 + t10 + t01 + t11;
    proof {
        lemma_blend_sum_bounded(
            v00 as int,
            v10 as int,
            v01 as int,
            v11 as int,
            fx as int,
            fy as int,
        );
    }
    let r: u64 = numerator / (cell * cell);
    proof {
        lemma_div_is_ordered(numerator as int, 64_000_000, 64);
        assert(r <= NOISE_ONE);
        assert(r == spec_sample(seed, loc));
    }
    r as u32
}

/// The whole bilinear blend stays within `NOISE_ONE` times the cell area:
/// the four weights sum to the cell area, and each value is bounded.
proof fn lemma_blend_sum_bounded(v00: int, v10: int, v01: int, v11: int, fx: int, fy: int)
    requires
        0 <= v00 <= NOISE_ONE,
        0 <= v10 <= NOISE_ONE,
        0 <= v01 <= NOISE_ONE,
        0 <= v11 <= NOISE_ONE,
        0 <= fx < 8,
        0 <= fy < 8,
    ensures
        0 <= v00 * (8 - fx) * (8 - fy) + v10 * fx * (8 - fy) + v01 * (8 - fx) * fy + v11 * fx * fy
            <= 64_000_000,
{
    assert((8 - fx) * (8 - fy) + fx * (8 - fy) + (8 - fx) * fy + fx * fy == 64) by (nonlinear_arith)
    {
    }
    assert(0 <= v00 * (8 - fx) * (8 - fy) + v10 * fx * (8 - fy) + v01 * (8 - fx) * fy + v11 * fx
        * fy <= 1_000_000 * ((8 - fx) * (8 - fy) + fx * (8 - fy) + (8 - fx) * fy + fx * fy))
        by (nonlinear_arith)
        requires
            0 <= v00 <= 1_000_000,
            0 <= v10 <= 1_000_000,
            0 <= v01 <= 1_000_000,
            0 <= v11 <= 1_000_000,
            0 <= fx < 8,
            0 <= fy < 8,
    {
    }
}

/// One term of the bilinear blend stays within `NOISE_ONE` times the cell
/// area of eight by eight, at each step of its evaluation.
proof fn lemma_blend_term_bounded(v: int, a: int, b: int, cell: int)
    requires
        0 <= v <= NOISE_ONE,
        0 <= a <= cell,
        0 <= b <= cell,
        cell == 8,
    ensures
        0 <= v * a <= 8_000_000,
        0 <= v * a * b <= 64_000_000,
{
    assert(0 <= v * a <= 8_000_000 && 0 <= v * a * b <= 64_000_000) by (nonlinear_arith)
        requires
            0 <= v <= 1_000_000,
            0 <= a <= 8,
            0 <= b <= 8,
    {
    }
}

} // verus!
