//! Counting solid voxels, and what the test pattern guarantees about the
//! count and about repeated fills.

use crate::grid::{
    cube, empty_voxel, flat_index, in_cube, lemma_flat_index_in_range, lemma_flat_index_onto,
    pattern_voxel, VoxelGrid,
};
use crate::voxel::{Voxel, VOXEL_SOLID};
use vstd::prelude::*;

verus! {

/// Whether a voxel carries the solid tag.
pub open spec fn is_solid(v: Voxel) -> bool {
    v.voxel_type == VOXEL_SOLID
}

/// Number of solid voxels in a run of cells.
pub open spec fn solid_count(cells: Seq<Voxel>) -> nat
    decreases cells.len(),
{
    if cells.len() == 0 {
        0
    } else {
        solid_count(cells.drop_last()) + (if is_solid(cells.last()) {
            1nat
        } else {
            0nat
        })
    }
}

/// The count of a run is the sum of the counts of its two parts.
pub proof fn lemma_solid_count_concat(a: Seq<Voxel>, b: Seq<Voxel>)
    ensures
        solid_count(a + b) == solid_count(a) + solid_count(b),
    decreases b.len(),
{
    if b.len() == 0 {
        assert(a + b =~= a);
    } else {
        assert((a + b).drop_last() =~= a + b.drop_last());
        assert((a + b).last() == b.last());
        lemma_solid_count_concat(a, b.drop_last());
    }
}

/// A run of solid voxels counts its length; a run without any counts zero.
pub proof fn lemma_solid_count_uniform(cells: Seq<Voxel>, solid: bool)
    requires
        forall|i: int| 0 <= i < cells.len() ==> is_solid(#[trigger] cells[i]) == solid,
    ensures
        solid_count(cells) == (if solid {
            cells.len()
        } else {
            0
        }),
    decreases cells.len(),
{
    if cells.len() > 0 {
        let rest = cells.drop_last();
        assert forall|i: int| 0 <= i < rest.len() implies is_solid(#[trigger] rest[i])
            == solid by {
            assert(rest[i] == cells[i]);
        }
        lemma_solid_count_uniform(rest, solid);
        assert(cells.last() == cells[cells.len() - 1]);
    }
}

/// Whether the cells of a cube with edge `n` are solid exactly in the lower
/// half, that is where `y < n / 2`.
pub open spec fn lower_half_solid(cells: Seq<Voxel>, n: int) -> bool {
    &&& cells.len() == cube(n)
    &&& forall|x: int, y: int, z: int|
        in_cube(n, x, y, z) ==> (is_solid(cells[#[trigger] flat_index(n, x, y, z)]) <==> y < n
            / 2)
}

spec fn lower(y: int, half: int) -> int {
    if y < half {
        y
    } else {
        half
    }
}

proof fn lemma_prefix_count(cells: Seq<Voxel>, n: int, z: int, y: int)
    requires
        lower_half_solid(cells, n),
        0 <= z < n,
        0 <= y <= n,
    ensures
        0 <= (z * n + y) * n <= cells.len(),
        solid_count(cells.take((z * n + y) * n)) == (z * (n / 2) + lower(y, n / 2)) * n,
    decreases z, y,
{
    let half = n / 2;
    assert(0 <= (z * n + y) * n <= n * n * n) by (nonlinear_arith)
        requires
            0 <= z < n,
            0 <= y <= n,
    ;
    if y == 0 {
        if z == 0 {
            assert((z * n + y) * n == 0) by (nonlinear_arith)
                requires
                    z == 0,
                    y == 0,
            ;
            assert(cells.take(0).len() == 0);
            assert((z * half + lower(y, half)) * n == 0) by (nonlinear_arith)
                requires
                    z == 0,
                    lower(y, half) == 0,
            ;
        } else {
            lemma_prefix_count(cells, n, z - 1, n);
            assert(((z - 1) * n + n) * n == (z * n + y) * n) by (nonlinear_arith)
                requires
                    y == 0,
            ;
            assert(((z - 1) * half + lower(n, half)) * n == (z * half + lower(y, half)) * n)
                by (nonlinear_arith)
                requires
                    lower(n, half) == half,
                    lower(y, half) == 0,
            ;
        }
    } else {
        lemma_prefix_count(cells, n, z, y - 1);
        let start = (z * n + (y - 1)) * n;
        let end = (z * n + y) * n;
        assert(end == start + n && start == flat_index(n, 0, y - 1, z)) by (nonlinear_arith)
            requires
                start == (z * n + (y - 1)) * n,
                end == (z * n + y) * n,
                flat_index(n, 0, y - 1, z) == z * n * n + (y - 1) * n + 0,
        ;
        let row = cells.subrange(start, end);
        assert(cells.take(end) =~= cells.take(start) + row);
        lemma_solid_count_concat(cells.take(start), row);
        assert forall|i: int| 0 <= i < row.len() implies is_solid(#[trigger] row[i]) == (y - 1
            < half) by {
            assert(in_cube(n, i, y - 1, z));
            assert(flat_index(n, i, y - 1, z) == start + i);
            assert(row[i] == cells[flat_index(n, i, y - 1, z)]);
        }
        lemma_solid_count_uniform(row, y - 1 < half);
        assert((z * half + lower(y - 1, half)) * n + (if y - 1 < half {
            n
        } else {
            0
        }) == (z * half + lower(y, half)) * n) by (nonlinear_arith)
            requires
                lower(y, half) == lower(y - 1, half) + (if y - 1 < half {
                    1int
                } else {
                    0int
                }),
        ;
    }
}

/// A cube whose solid voxels are exactly those of the lower half holds
/// `n * n * (n / 2)` of them.
pub proof fn lemma_lower_half_count(cells: Seq<Voxel>, n: int)
    requires
        0 <= n,
        lower_half_solid(cells, n),
    ensures
        solid_count(cells) == n * n * (n / 2),
{
    let half = n / 2;
    if n == 0 {
        assert(n * n * n == 0 && n * n * half == 0) by (nonlinear_arith)
            requires
                n == 0,
        ;
    } else {
        lemma_prefix_count(cells, n, n - 1, n);
        assert(((n - 1) * n + n) * n == n * n * n) by (nonlinear_arith);
        assert(cells.take(cells.len() as int) =~= cells);
        assert(((n - 1) * half + lower(n, half)) * n == n * n * half) by (nonlinear_arith)
            requires
                lower(n, half) == half,
        ;
    }
}

/// The test pattern laid over an empty grid of size `n` leaves exactly
/// `n * n * (n / 2)` solid voxels.
pub proof fn lemma_pattern_solid_count(before: VoxelGrid, after: VoxelGrid)
    requires
        before.wf(),
        before.all_empty(),
        before.filled_into(after),
    ensures
        solid_count(after@) == after.spec_size() * after.spec_size() * (after.spec_size() / 2),
{
    let n = before.spec_size() as int;
    assert forall|x: int, y: int, z: int| in_cube(n, x, y, z) implies (is_solid(
        after@[#[trigger] flat_index(n, x, y, z)],
    ) <==> y < n / 2) by {
        lemma_flat_index_in_range(n, x, y, z);
        assert(after.at(x, y, z) == after@[flat_index(n, x, y, z)]);
        assert(before.at(x, y, z) == empty_voxel());
    }
    lemma_lower_half_count(after@, n);
}

/// Laying the test pattern twice gives the grid that laying it once gives.
pub proof fn lemma_pattern_idempotent(before: VoxelGrid, once: VoxelGrid, twice: VoxelGrid)
    requires
        before.wf(),
        before.filled_into(once),
        once.filled_into(twice),
    ensures
        twice@ == once@,
        twice.spec_size() == once.spec_size(),
{
    let n = before.spec_size() as int;
    assert forall|i: int| 0 <= i < once@.len() implies twice@[i] == once@[i] by {
        lemma_flat_index_onto(n, i);
        let x = i % n;
        let y = (i / n) % n;
        let z = (i / n) / n;
        assert(twice.at(x, y, z) == twice@[i]);
        assert(once.at(x, y, z) == once@[i]);
    }
    assert(twice@ =~= once@);
}

/// Two fills of grids that hold the same cells give grids that hold the same
/// cells: the outcome is a function of the input alone.
pub proof fn lemma_pattern_deterministic(a: VoxelGrid, b: VoxelGrid, fa: VoxelGrid, fb: VoxelGrid)
    requires
        a.wf(),
        b.wf(),
        a@ == b@,
        a.spec_size() == b.spec_size(),
        a.filled_into(fa),
        b.filled_into(fb),
    ensures
        fa@ == fb@,
{
    let n = a.spec_size() as int;
    assert forall|i: int| 0 <= i < fa@.len() implies fa@[i] == fb@[i] by {
        lemma_flat_index_onto(n, i);
        let x = i % n;
        let y = (i / n) % n;
        let z = (i / n) / n;
        assert(fa.at(x, y, z) == fa@[i]);
        assert(fb.at(x, y, z) == fb@[i]);
        assert(a.at(x, y, z) == b.at(x, y, z));
    }
    assert(fa@ =~= fb@);
}

} // verus!
