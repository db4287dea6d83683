//! Placement of copies of a body on a centred grid in the `y = 0` plane.
use vstd::prelude::*;
use crate::error::GeometryError;
use crate::vector::{zero, Vec3i};

verus! {

/// The angle, in degrees, by which an instance off the origin is turned about
/// the direction of its own position.
pub const TILT_DEGREES: u32 = 45;

/// The distance `num / den` between neighbouring instances.
#[derive(Clone, Copy, Debug, PartialEq, Eq, Structural)]
pub struct Spacing {
    pub num: i32,
    pub den: u32,
}

/// The orientation of an instance.
#[derive(Clone, Copy, Debug, PartialEq, Eq, Structural)]
pub enum Rotation {
    /// No rotation.
    Identity,
    /// A turn of `degrees` about the unit vector along the instance's position.
    AboutPosition { degrees: u32 },
}

/// One placed copy of a body: its world position is `offset / denominator`.
#[derive(Clone, Copy, Debug, PartialEq, Eq, Structural)]
pub struct Instance {
    pub offset: Vec3i,
    pub denominator: u64,
    pub rotation: Rotation,
}

/// `2 (index - (count - 1) / 2)`: the centred position of `index` among
/// `count` slots, in half steps.
pub open spec fn centred(count: int, index: int) -> int {
    2 * index - (count - 1)
}

/// The instance in row `row` and column `col` of a `rows` by `cols` grid:
/// rows run along `x`, columns along `z`, both centred on the origin, and
/// only an instance off the origin is tilted.
pub open spec fn grid_instance(
    inst: Instance,
    rows: int,
    cols: int,
    spacing: Spacing,
    row: int,
    col: int,
) -> bool {
    &&& inst.offset@ == (
        spacing.num * centred(rows, row),
        0int,
        spacing.num * centred(cols, col),
    )
    &&& inst.denominator == 2 * spacing.den
    &&& inst.rotation == if inst.offset@ == zero() {
        Rotation::Identity
    } else {
        Rotation::AboutPosition { degrees: TILT_DEGREES }
    }
}

/// The whole grid: `rows * cols` instances, row by row.
pub open spec fn is_grid(v: Seq<Instance>, rows: int, cols: int, spacing: Spacing) -> bool {
    &&& v.len() == rows * cols
    &&& forall|k: int|
        0 <= k < rows * cols ==> #[trigger] grid_instance(
            v[k],
            rows,
            cols,
            spacing,
            k / cols,
            k % cols,
        )
}

proof fn lemma_offset_fits(num: i32, c: int, count: u32)
    requires
        -(count as int) < c < count,
    ensures
        i64::MIN <= num * c <= i64::MAX,
{
    assert(-0x8000_0000 * 0xffff_ffff <= num * c <= 0x8000_0000 * 0xffff_ffff)
        by (nonlinear_arith)
        requires
            -0x8000_0000 <= num <= 0x8000_0000,
            -0xffff_ffff <= c <= 0xffff_ffff,
    ;
}

/// Places `rows * cols` instances `spacing` apart, centred on the origin.
/// A spacing with a zero denominator is refused.
pub fn build_grid(rows: u32, cols: u32, spacing: Spacing) -> (res: Result<
    Vec<Instance>,
    GeometryError,
>)
    ensures
        res is Ok <==> spacing.den != 0,
        res matches Ok(v) ==> is_grid(v@, rows as int, cols as int, spacing),
        res matches Err(e) ==> e == GeometryError::InvalidParameter,
{
    if spacing.den == 0 {
        return Err(GeometryError::InvalidParameter);
    }
    let denominator: u64 = 2 * spacing.den as u64;
    let mut v: Vec<Instance> = Vec::new();
    let mut row: u32 = 0;
    while row < rows
        invariant
            denominator == 2 * spacing.den,
            row <= rows,
            v@.len() == row * cols,
            forall|k: int|
                0 <= k < v@.len() ==> #[trigger] grid_instance(
                    v@[k],
                    rows as int,
                    cols as int,
                    spacing,
                    k / cols as int,
                    k % cols as int,
                ),
        decreases rows - row,
    {
        let cx: i64 = 2 * row as i64 - rows as i64 + 1;
        proof {
            lemma_offset_fits(spacing.num, cx as int, rows);
        }
        let x: i64 = spacing.num as i64 * cx;
        let mut col: u32 = 0;
        while col < cols
            invariant
                denominator == 2 * spacing.den,
                row < rows,
                col <= cols,
                cx == centred(rows as int, row as int),
                x == spacing.num * cx,
                v@.len() == row * cols + col,
                forall|k: int|
                    0 <= k < v@.len() ==> #[trigger] grid_instance(
                        v@[k],
                        rows as int,
                        cols as int,
                        spacing,
                        k / cols as int,
                        k % cols as int,
                    ),
            decreases cols - col,
        {
            let cz: i64 = 2 * col as i64 - cols as i64 + 1;
            proof {
                lemma_offset_fits(spacing.num, cz as int, cols);
                vstd::arithmetic::div_mod::lemma_fundamental_div_mod_converse(
                    (row * cols + col) as int,
                    cols as int,
                    row as int,
                    col as int,
                );
            }
            let offset = Vec3i::new(x, 0, spacing.num as i64 * cz);
            let rotation = if offset.is_zero() {
                Rotation::Identity
            } else {
                Rotation::AboutPosition { degrees: TILT_DEGREES }
            };
            v.push(Instance { offset, denominator, rotation });
            col = col + 1;
        }
        assert(row * cols + cols == (row + 1) * cols) by (nonlinear_arith);
        row = row + 1;
    }
    Ok(v)
}

} // verus!
