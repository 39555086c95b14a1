use vstd::prelude::*;

use crate::rng::{spec_permille, Substrate, roll_permille};
use crate::sector::{sector_wf, Sector};
use crate::volume_builder::{lemma_volume_end_bound, spec_volume_end, volume_built,
    VolumeBuilder};
use crate::volume::Volume;

verus! {

/// The substrate position after one grid cell rolled at `j`: the density
/// draw, then a whole volume when the draw falls under the density.
pub open spec fn spec_cell_end(s: u64, j: int, density: int) -> int {
    if spec_permille(s, j) < density {
        spec_volume_end(s, j + 1)
    } else {
        j + 1
    }
}

/// The substrate position when the `t`-th cell of the scan is reached.
pub open spec fn spec_grid_j(s: u64, i: int, density: int, t: int) -> int
    decreases t,
{
    if t <= 0 {
        i
    } else {
        spec_cell_end(s, spec_grid_j(s, i, density, t - 1), density)
    }
}

/// One cell of the grid: populated with a whole volume exactly when its
/// density draw falls under the per-mille density.
pub open spec fn cell_built(cell: Option<Volume>, s: u64, j: int, density: int, row: int,
    col: int) -> bool {
    if spec_permille(s, j) < density {
        cell matches Some(v) && volume_built(v, s, j + 1, row, col)
    } else {
        cell is None
    }
}

/// A sector is exactly the grid rolled from seed `s` at position `i` in a
/// fixed row-major scan: every cell a function of the seed, the scan
/// position and the density alone.
pub open spec fn sector_built(sec: Sector, s: u64, i: int, density: int, name: Seq<char>, w: int,
    h: int) -> bool {
    &&& sec.name@ == name
    &&& sec.width as int == w
    &&& sec.height as int == h
    &&& sec.volumes@.len() == h
    &&& forall|r: int| 0 <= r < h ==> (#[trigger] sec.volumes@[r])@.len() == w
    &&& forall|r: int, c: int| 0 <= r < h && 0 <= c < w ==> cell_built(
        #[trigger] sec.volumes@[r]@[c], s, spec_grid_j(s, i, density, r * w + c), density, r, c)
}

/// One cell takes at most 861 draws.
proof fn lemma_cell_end_bound(s: u64, j: int, density: int)
    ensures
        j < spec_cell_end(s, j, density) <= j + 861,
{
    if spec_permille(s, j) < density {
        lemma_volume_end_bound(s, j + 1);
    }
}

/// The scan advances by at most 861 draws per cell.
proof fn lemma_grid_j_bound(s: u64, i: int, density: int, t: int)
    requires
        t >= 0,
    ensures
        i <= spec_grid_j(s, i, density, t) <= i + 861 * t,
    decreases t,
{
    if t > 0 {
        lemma_grid_j_bound(s, i, density, t - 1);
        lemma_cell_end_bound(s, spec_grid_j(s, i, density, t - 1), density);
    }
}

/// Builds a whole sector grid in a fixed row-major scan.
pub struct SectorBuilder {
    pub name: String,
    pub width: usize,
    pub height: usize,
    pub density: u32,
}

impl SectorBuilder {
    /// A builder for a grid of the given size, with the cell density in
    /// per mille.
    pub fn new(name: String, width: usize, height: usize, density: u32) -> (r: SectorBuilder)
        ensures
            r.name@ == name@,
            r.width == width,
            r.height == height,
            r.density == density,
    {
        SectorBuilder { name, width, height, density }
    }

    /// Roll every cell of the grid in row-major order: one density draw
    /// per cell, then a volume for each cell whose draw qualifies.
    pub fn build(self, rng: &mut Substrate) -> (r: Sector)
        requires
            old(rng).index + 862 * (self.width as int * self.height as int) + 1100 <= u64::MAX,
        ensures
            final(rng).seed == old(rng).seed,
            sector_built(r, old(rng).seed, old(rng).index as int, self.density as int,
                self.name@, self.width as int, self.height as int),
            sector_wf(r),
            final(rng).index as int == spec_grid_j(old(rng).seed, old(rng).index as int,
                self.density as int, self.width as int * self.height as int),
    {
        let ghost s = rng.seed;
        let ghost i = rng.index as int;
        let ghost w = self.width as int;
        let ghost h = self.height as int;
        let ghost density = self.density as int;

        let mut volumes: Vec<Vec<Option<Volume>>> = Vec::new();
        let mut row: usize = 0;
        while row < self.height
            invariant
                w == self.width as int,
                h == self.height as int,
                density == self.density as int,
                i + 862 * (w * h) + 1100 <= u64::MAX,
                rng.seed == s,
                row <= self.height,
                volumes@.len() == row,
                forall|r: int| 0 <= r < row ==> (#[trigger] volumes@[r])@.len() == w,
                forall|r: int, c: int| 0 <= r < row && 0 <= c < w ==> cell_built(
                    #[trigger] volumes@[r]@[c], s, spec_grid_j(s, i, density, r * w + c),
                    density, r, c),
                rng.index as int == spec_grid_j(s, i, density, row as int * w),
            decreases self.height - row,
        {
            let mut row_vec: Vec<Option<Volume>> = Vec::new();
            let mut col: usize = 0;
            while col < self.width
                invariant
                    w == self.width as int,
                    h == self.height as int,
                    density == self.density as int,
                    i + 862 * (w * h) + 1100 <= u64::MAX,
                    rng.seed == s,
                    row < self.height,
                    col <= self.width,
                    row_vec@.len() == col,
                    forall|c: int| 0 <= c < col ==> cell_built(#[trigger] row_vec@[c], s,
                        spec_grid_j(s, i, density, row as int * w + c), density, row as int, c),
                    rng.index as int == spec_grid_j(s, i, density, row as int * w + col as int),
                decreases self.width - col,
            {
                let ghost t = row as int * w + col as int;
                proof {
                    assert(0 <= t < w * h) by (nonlinear_arith)
                        requires
                            0 <= row as int,
                            (row as int) < h,
                            0 <= col as int,
                            (col as int) < w,
                            t == row as int * w + col as int,
                    ;
                    lemma_grid_j_bound(s, i, density, t);
                    assert(861 * t + 1030 <= 862 * (w * h) + 1100) by (nonlinear_arith)
                        requires
                            0 <= t < w * h,
                    ;
                }
                let p = roll_permille(rng);
                if p < self.density {
                    let v = VolumeBuilder::new(row, col).build(rng);
                    row_vec.push(Some(v));
                } else {
                    row_vec.push(None);
                }
                proof {
                    assert(spec_grid_j(s, i, density, t + 1) == spec_cell_end(s, spec_grid_j(s,
                        i, density, t), density));
                }
                col = col + 1;
            }
            volumes.push(row_vec);
            proof {
                assert(row as int * w + w == (row as int + 1) * w) by (nonlinear_arith);
            }
            row = row + 1;
        }
        proof {
            assert(h * w == w * h) by (nonlinear_arith);
        }
        Sector { name: self.name, width: self.width, height: self.height, volumes }
    }
}

} // verus!
