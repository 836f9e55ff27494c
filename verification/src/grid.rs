//! The dense cubic voxel grid and its flat, z-major backing store.

use crate::voxel::{Voxel, VOXEL_EMPTY, VOXEL_SOLID};
use vstd::arithmetic::div_mod::lemma_fundamental_div_mod_converse;
use vstd::prelude::*;

verus! {

/// Colour word that the test pattern gives to every voxel it marks.
pub const PATTERN_COLOR: u32 = 128;

/// Number of cells of a cube with edge `n`.
pub open spec fn cube(n: int) -> int {
    n * n * n
}

/// Position of the cell `(x, y, z)` in the backing store of a grid with edge
/// `n`: whole `z` slabs first, then whole `y` rows, then `x`.
pub open spec fn flat_index(n: int, x: int, y: int, z: int) -> int {
    z * n * n + y * n + x
}

/// Whether `(x, y, z)` names a cell of a grid with edge `n`.
pub open spec fn in_cube(n: int, x: int, y: int, z: int) -> bool {
    0 <= x < n && 0 <= y < n && 0 <= z < n
}

/// The voxel that the test pattern writes.
pub open spec fn pattern_voxel() -> Voxel {
    Voxel { voxel_type: VOXEL_SOLID, color: PATTERN_COLOR }
}

/// The voxel that a fresh grid holds everywhere.
pub open spec fn empty_voxel() -> Voxel {
    Voxel { voxel_type: VOXEL_EMPTY, color: 0 }
}

/// Every cell of the cube has its flat index inside `[0, n³)`.
pub proof fn lemma_flat_index_in_range(n: int, x: int, y: int, z: int)
    requires
        in_cube(n, x, y, z),
    ensures
        0 <= flat_index(n, x, y, z) < cube(n),
        0 <= z * n <= z * n * n,
        z * n * n + y * n <= flat_index(n, x, y, z),
{
    assert(0 <= z * n && z * n + y <= (n - 1) * n + (n - 1) && 0 <= y * n) by (nonlinear_arith)
        requires
            0 <= y < n,
            0 <= z < n,
    ;
    assert(z * n * n + y * n == (z * n + y) * n && z * n <= z * n * n) by (nonlinear_arith)
        requires
            0 <= z * n,
            0 < n,
    ;
    assert((z * n + y) * n + x < n * n * n) by (nonlinear_arith)
        requires
            0 <= z * n + y <= (n - 1) * n + (n - 1),
            0 <= x < n,
    ;
}

/// The flat index determines the coordinates: `x` is its remainder by `n`,
/// `y` the remainder of the quotient, `z` what is left.
pub proof fn lemma_flat_index_coordinates(n: int, x: int, y: int, z: int)
    requires
        in_cube(n, x, y, z),
    ensures
        x == flat_index(n, x, y, z) % n,
        y == (flat_index(n, x, y, z) / n) % n,
        z == (flat_index(n, x, y, z) / n) / n,
{
    let i = flat_index(n, x, y, z);
    let q = z * n + y;
    assert(i == q * n + x) by (nonlinear_arith)
        requires
            i == z * n * n + y * n + x,
            q == z * n + y,
    ;
    lemma_fundamental_div_mod_converse(i, n, q, x);
    lemma_fundamental_div_mod_converse(q, n, z, y);
}

/// Two distinct cells of the cube never share a flat index.
pub proof fn lemma_flat_index_injective(n: int, x1: int, y1: int, z1: int, x2: int, y2: int, z2: int)
    requires
        in_cube(n, x1, y1, z1),
        in_cube(n, x2, y2, z2),
        flat_index(n, x1, y1, z1) == flat_index(n, x2, y2, z2),
    ensures
        x1 == x2 && y1 == y2 && z1 == z2,
{
    lemma_flat_index_coordinates(n, x1, y1, z1);
    lemma_flat_index_coordinates(n, x2, y2, z2);
}

/// Every position of the backing store is the flat index of exactly the cell
/// that its quotients and remainders by `n` name.
pub proof fn lemma_flat_index_onto(n: int, i: int)
    requires
        0 <= i < cube(n),
    ensures
        in_cube(n, i % n, (i / n) % n, (i / n) / n),
        flat_index(n, i % n, (i / n) % n, (i / n) / n) == i,
{
    assert(0 < n) by (nonlinear_arith)
        requires
            0 <= i < n * n * n,
    ;
    let q = i / n;
    assert(i == n * q + i % n && 0 <= i % n < n) by {
        vstd::arithmetic::div_mod::lemma_fundamental_div_mod(i, n);
        vstd::arithmetic::div_mod::lemma_mod_bound(i, n);
    }
    assert(0 <= q < n * n) by (nonlinear_arith)
        requires
            i == n * q + i % n,
            0 <= i % n < n,
            0 <= i < n * n * n,
            0 < n,
    ;
    let z = q / n;
    assert(q == n * z + q % n && 0 <= q % n < n) by {
        vstd::arithmetic::div_mod::lemma_fundamental_div_mod(q, n);
        vstd::arithmetic::div_mod::lemma_mod_bound(q, n);
    }
    assert(0 <= z < n) by (nonlinear_arith)
        requires
            q == n * z + q % n,
            0 <= q % n < n,
            0 <= q < n * n,
            0 < n,
    ;
    assert(z * n * n + (q % n) * n + i % n == i) by (nonlinear_arith)
        requires
            q == n * z + q % n,
            i == n * q + i % n,
    ;
}

/// A cube of `size`³ voxels in one flat store.
pub struct VoxelGrid {
    size: usize,
    data: Vec<Voxel>,
}

impl View for VoxelGrid {
    type V = Seq<Voxel>;

    /// The backing store, cell after cell in flat-index order.
    closed spec fn view(&self) -> Seq<Voxel> {
        self.data@
    }
}

impl VoxelGrid {
    /// Edge length of the cube.
    pub closed spec fn spec_size(&self) -> usize {
        self.size
    }

    /// The store holds exactly one voxel per cell of the cube.
    pub open spec fn wf(&self) -> bool {
        self@.len() == cube(self.spec_size() as int)
    }

    /// Whether `(x, y, z)` names a cell of this grid.
    pub open spec fn contains(&self, x: int, y: int, z: int) -> bool {
        in_cube(self.spec_size() as int, x, y, z)
    }

    /// The voxel in cell `(x, y, z)`.
    pub open spec fn at(&self, x: int, y: int, z: int) -> Voxel {
        self@[flat_index(self.spec_size() as int, x, y, z)]
    }

    /// Every cell holds the empty voxel.
    pub open spec fn all_empty(&self) -> bool {
        forall|i: int| 0 <= i < self@.len() ==> self@[i] == empty_voxel()
    }

    /// `after` is this grid with the test pattern laid over it: the same
    /// size, the pattern voxel wherever `y < size / 2`, and this grid's own
    /// voxel everywhere else.
    pub open spec fn filled_into(&self, after: VoxelGrid) -> bool {
        &&& after.wf()
        &&& after.spec_size() == self.spec_size()
        &&& forall|x: int, y: int, z: int|
            self.contains(x, y, z) ==> #[trigger] after.at(x, y, z) == (if y < self.spec_size()
                / 2 {
                pattern_voxel()
            } else {
                self.at(x, y, z)
            })
    }

    /// The grid is the test pattern on an otherwise empty cube: the pattern
    /// voxel wherever `y < size / 2`, the empty voxel everywhere else.
    pub open spec fn is_test_pattern(&self) -> bool {
        &&& self.wf()
        &&& forall|x: int, y: int, z: int|
            self.contains(x, y, z) ==> #[trigger] self.at(x, y, z) == (if y < self.spec_size()
                / 2 {
                pattern_voxel()
            } else {
                empty_voxel()
            })
    }

    /// A grid of `size`³ empty voxels.
    pub fn new(size: usize) -> (grid: VoxelGrid)
        requires
            cube(size as int) <= usize::MAX,
        ensures
            grid.wf(),
            grid.spec_size() == size,
            grid.all_empty(),
    {
        assert(0 <= size * size <= size * size * size) by (nonlinear_arith)
            requires
                0 <= size,
        ;
        let count: usize = size * size * size;
        let mut data: Vec<Voxel> = Vec::with_capacity(count);
        let mut i: usize = 0;
        while i < count
            invariant
                i <= count,
                data@.len() == i,
                forall|k: int| 0 <= k < i ==> data@[k] == empty_voxel(),
            decreases count - i,
        {
            data.push(Voxel::empty());
            i = i + 1;
        }
        VoxelGrid { size, data }
    }

    /// Edge length of the cube.
    #[verifier::when_used_as_spec(spec_size)]
    pub fn size(&self) -> (n: usize)
        ensures
            n == self.spec_size(),
    {
        self.size
    }

    /// The whole store, in flat-index order.
    pub fn data(&self) -> (cells: &Vec<Voxel>)
        ensures
            cells@ == self@,
    {
        &self.data
    }

    /// Whether `(x, y, z)` names a cell of this grid.
    pub fn in_bounds(&self, x: usize, y: usize, z: usize) -> (inside: bool)
        ensures
            inside == self.contains(x as int, y as int, z as int),
    {
        x < self.size && y < self.size && z < self.size
    }

    /// Flat index of the cell `(x, y, z)`.
    pub fn get_index(&self, x: usize, y: usize, z: usize) -> (index: usize)
        requires
            self.wf(),
            self.contains(x as int, y as int, z as int),
        ensures
            index == flat_index(self.spec_size() as int, x as int, y as int, z as int),
            index < self@.len(),
    {
        proof {
            lemma_flat_index_in_range(self.size as int, x as int, y as int, z as int);
            assert(self.data@.len() == self.data.len());
        }
        (z * self.size * self.size) + (y * self.size) + x
    }

    /// The voxel in cell `(x, y, z)`.
    pub fn get(&self, x: usize, y: usize, z: usize) -> (voxel: &Voxel)
        requires
            self.wf(),
            self.contains(x as int, y as int, z as int),
        ensures
            *voxel == self.at(x as int, y as int, z as int),
    {
        &self.data[self.get_index(x, y, z)]
    }

    /// Writes `voxel` into cell `(x, y, z)` and leaves every other cell as it
    /// was.
    pub fn set(&mut self, x: usize, y: usize, z: usize, voxel: Voxel)
        requires
            old(self).wf(),
            old(self).contains(x as int, y as int, z as int),
        ensures
            final(self).wf(),
            final(self).spec_size() == old(self).spec_size(),
            final(self)@ == old(self)@.update(
                flat_index(old(self).spec_size() as int, x as int, y as int, z as int),
                voxel,
            ),
    {
        let index: usize = self.get_index(x, y, z);
        self.data[index] = voxel;
    }

    /// Marks the lower half of every column as solid: each cell with
    /// `y < size / 2` gets the pattern voxel, every other cell keeps what it
    /// held.
    pub fn fill_with_test_pattern(&mut self)
        requires
            old(self).wf(),
        ensures
            final(self).wf(),
            final(self).spec_size() == old(self).spec_size(),
            old(self).filled_into(*final(self)),
    {
        let ghost before = self@;
        let n: usize = self.size;
        let half: usize = n / 2;
        let mut z: usize = 0;
        while z < n
            invariant
                z <= n,
                half == n / 2,
                self.size == n,
                self.wf(),
                forall|i: int, j: int, k: int|
                    in_cube(n as int, i, j, k) ==> self@[#[trigger] flat_index(n as int, i, j, k)]
                        == (if k < z && j < half {
                        pattern_voxel()
                    } else {
                        before[flat_index(n as int, i, j, k)]
                    }),
            decreases n - z,
        {
            let mut y: usize = 0;
            while y < half
                invariant
                    z < n,
                    y <= half,
                    half == n / 2,
                    self.size == n,
                    self.wf(),
                    forall|i: int, j: int, k: int|
                        in_cube(n as int, i, j, k) ==> self@[#[trigger] flat_index(
                            n as int,
                            i,
                            j,
                            k,
                        )] == (if (k < z || (k == z && j < y)) && j < half {
                            pattern_voxel()
                        } else {
                            before[flat_index(n as int, i, j, k)]
                        }),
                decreases half - y,
            {
                let mut x: usize = 0;
                while x < n
                    invariant
                        z < n,
                        y < half,
                        x <= n,
                        half == n / 2,
                        self.size == n,
                        self.wf(),
                        forall|i: int, j: int, k: int|
                            in_cube(n as int, i, j, k) ==> self@[#[trigger] flat_index(
                                n as int,
                                i,
                                j,
                                k,
                            )] == (if (k < z || (k == z && (j < y || (j == y && i < x)))) && j
                                < half {
                                pattern_voxel()
                            } else {
                                before[flat_index(n as int, i, j, k)]
                            }),
                    decreases n - x,
                {
                    self.set(x, y, z, Voxel { voxel_type: VOXEL_SOLID, color: PATTERN_COLOR });
                    proof {
                        lemma_flat_index_in_range(n as int, x as int, y as int, z as int);
                        assert forall|i: int, j: int, k: int| in_cube(n as int, i, j, k) implies self@[#[trigger] flat_index(
                            n as int,
                            i,
                            j,
                            k,
                        )] == (if (k < z || (k == z && (j < y || (j == y && i < x + 1)))) && j
                            < half {
                            pattern_voxel()
                        } else {
                            before[flat_index(n as int, i, j, k)]
                        }) by {
                            lemma_flat_index_in_range(n as int, i, j, k);
                            if flat_index(n as int, i, j, k) == flat_index(
                                n as int,
                                x as int,
                                y as int,
                                z as int,
                            ) {
                                lemma_flat_index_injective(
                                    n as int,
                                    i,
                                    j,
                                    k,
                                    x as int,
                                    y as int,
                                    z as int,
                                );
                            }
                        }
                    }
                    x = x + 1;
                }
                y = y + 1;
            }
            z = z + 1;
        }
    }
}

} // verus!
