use vstd::prelude::*;

use crate::volume::{volume_like, Volume};
use vstd::pervasive::VecAdditionalExecFns;

verus! {

/// A rectangular grid of volumes. Cells are addressed row first; a `None`
/// cell was never populated.
#[derive(Debug, PartialEq)]
pub struct Sector {
    pub name: String,
    pub width: usize,
    pub height: usize,
    pub volumes: Vec<Vec<Option<Volume>>>,
}

/// The grid is exactly `height` rows of `width` cells.
pub open spec fn sector_wf(sec: Sector) -> bool {
    &&& sec.volumes@.len() == sec.height
    &&& forall|r: int| 0 <= r < sec.height ==> (#[trigger] sec.volumes@[r])@.len() == sec.width
}

/// Two sectors with the same content, cell for cell.
pub open spec fn sector_like(a: Sector, b: Sector) -> bool {
    &&& a.name@ == b.name@
    &&& a.width == b.width
    &&& a.height == b.height
    &&& a.volumes@.len() == b.volumes@.len()
    &&& forall|r: int| 0 <= r < a.volumes@.len() ==> (#[trigger] a.volumes@[r])@.len()
        == b.volumes@[r]@.len()
    &&& forall|r: int, c: int| 0 <= r < a.volumes@.len() && 0 <= c < a.volumes@[r]@.len()
        ==> (match (#[trigger] a.volumes@[r]@[c], b.volumes@[r]@[c]) {
            (Some(x), Some(y)) => volume_like(x, y),
            (None, None) => true,
            _ => false,
        })
}

/// How many of the first `n` cells of a row hold a settled system.
pub open spec fn spec_row_systems(row: Seq<Option<Volume>>, n: int) -> int
    decreases n,
{
    if n <= 0 {
        0
    } else {
        spec_row_systems(row, n - 1) + (if row[n - 1] matches Some(v) && v.world is Some {
            1int
        } else {
            0
        })
    }
}

/// How many settled systems the first `n` rows hold.
pub open spec fn spec_grid_systems(vols: Seq<Vec<Option<Volume>>>, n: int) -> int
    decreases n,
{
    if n <= 0 {
        0
    } else {
        spec_grid_systems(vols, n - 1) + spec_row_systems(vols[n - 1]@, vols[n - 1]@.len() as int)
    }
}

impl Sector {
    /// An empty grid of the given size.
    pub fn new(name: String, width: usize, height: usize) -> (r: Sector)
        ensures
            r.name@ == name@,
            r.width == width,
            r.height == height,
            sector_wf(r),
            forall|rr: int, cc: int| 0 <= rr < height && 0 <= cc < width ==> (
            #[trigger] r.volumes@[rr]@[cc]) is None,
    {
        let mut volumes: Vec<Vec<Option<Volume>>> = Vec::new();
        let mut rr: usize = 0;
        while rr < height
            invariant
                rr <= height,
                volumes@.len() == rr,
                forall|t: int| 0 <= t < rr ==> (#[trigger] volumes@[t])@.len() == width,
                forall|t: int, c: int| 0 <= t < rr && 0 <= c < width ==> (
                #[trigger] volumes@[t]@[c]) is None,
            decreases height - rr,
        {
            let mut row: Vec<Option<Volume>> = Vec::new();
            let mut cc: usize = 0;
            while cc < width
                invariant
                    cc <= width,
                    row@.len() == cc,
                    forall|c: int| 0 <= c < cc ==> (#[trigger] row@[c]) is None,
                decreases width - cc,
            {
                row.push(None);
                cc = cc + 1;
            }
            volumes.push(row);
            rr = rr + 1;
        }
        Sector { name, width, height, volumes }
    }

    /// Put a volume at a cell; a cell outside the grid is never populated
    /// and the call changes nothing.
    pub fn set_volume(&mut self, row: usize, col: usize, volume: Volume)
        requires
            sector_wf(*old(self)),
        ensures
            sector_wf(*final(self)),
            final(self).name == old(self).name,
            final(self).width == old(self).width,
            final(self).height == old(self).height,
            final(self).volumes@.len() == old(self).volumes@.len(),
            row < old(self).height && col < old(self).width ==> {
                &&& final(self).volumes@[row as int]@ == old(self).volumes@[row as int]@.update(
                    col as int, Some(volume))
                &&& forall|r: int| 0 <= r < old(self).height && r != row ==> (
                #[trigger] final(self).volumes@[r]) == old(self).volumes@[r]
            },
            !(row < old(self).height && col < old(self).width) ==> *final(self) == *old(self),
    {
        if row < self.height && col < self.width {
            let mut taken: Vec<Option<Volume>> = Vec::new();
            self.volumes.set_and_swap(row, &mut taken);
            taken.set(col, Some(volume));
            self.volumes.set_and_swap(row, &mut taken);
            proof {
                assert(final(self).volumes@[row as int]@ =~= old(self).volumes@[
                    row as int]@.update(col as int, Some(volume)));
            }
        }
    }

    /// The volume at a cell; a cell outside the grid holds nothing.
    pub fn get_volume(&self, row: usize, col: usize) -> (r: Option<&Volume>)
        requires
            sector_wf(*self),
        ensures
            match r {
                Some(v) => row < self.height && col < self.width && self.volumes@[row as int]@[
                    col as int] == Some(*v),
                None => !(row < self.height && col < self.width) || self.volumes@[row as int]@[
                    col as int] is None,
            },
    {
        if row < self.height && col < self.width {
            let rv = &self.volumes[row];
            rv[col].as_ref()
        } else {
            None
        }
    }

    /// How many cells hold a settled system: a populated volume whose star
    /// seated a habitable world.
    pub fn system_count(&self) -> (r: usize)
        requires
            sector_wf(*self),
            self.height as int * self.width as int <= usize::MAX as int,
        ensures
            r as int == spec_grid_systems(self.volumes@, self.volumes@.len() as int),
    {
        let mut count: usize = 0;
        let mut rr: usize = 0;
        while rr < self.volumes.len()
            invariant
                sector_wf(*self),
                self.height as int * self.width as int <= usize::MAX as int,
                rr <= self.volumes@.len(),
                count as int == spec_grid_systems(self.volumes@, rr as int),
                count as int <= rr as int * self.width as int,
            decreases self.volumes@.len() - rr,
        {
            let rv = &self.volumes[rr];
            let mut cc: usize = 0;
            let ghost count0 = count as int;
            while cc < rv.len()
                invariant
                    sector_wf(*self),
                    self.height as int * self.width as int <= usize::MAX as int,
                    rr < self.volumes@.len(),
                    rv == &self.volumes[rr as int],
                    rv@.len() == self.width,
                    cc <= rv@.len(),
                    count as int == count0 + spec_row_systems(rv@, cc as int),
                    count0 <= rr as int * self.width as int,
                    count as int <= count0 + cc as int,
                decreases rv@.len() - cc,
            {
                let cell_has_system = match &rv[cc] {
                    Some(v) => v.world.is_some(),
                    None => false,
                };
                if cell_has_system {
                    proof {
                        assert(rr as int * self.width as int + self.width as int <= self.height
                            as int * self.width as int) by (nonlinear_arith)
                            requires
                                rr as int + 1 <= self.height as int,
                                self.width >= 0,
                        ;
                    }
                    count = count + 1;
                }
                cc = cc + 1;
            }
            proof {
                assert(rr as int * self.width as int + self.width as int == (rr as int + 1)
                    * self.width as int) by (nonlinear_arith);
            }
            rr = rr + 1;
        }
        count
    }
}

} // verus!
