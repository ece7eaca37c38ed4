//! The per-cell particle lists that the list-building stage leaves behind,
//! and a reference for them on the host.
//!
//! Each grid cell holds the index of the first particle on its list, and each
//! particle the index of the next one. On the device the particles push
//! themselves onto the lists in no fixed order; the reference pushes them in
//! the order of their indices, which is one of those orders.

use crate::grid::{Extent3d, GridPoint};
use crate::particle::LIST_END;
use vstd::prelude::*;

verus! {

/// The heads and links of the particle lists.
pub struct CellLists {
    /// For each cell, by its flat index, the first particle of its list, or `LIST_END`.
    pub heads: Vec<u32>,
    /// For each particle, the particle that follows it on its list, or `LIST_END`.
    pub next: Vec<u32>,
}

/// Index of a cell in a field that is stored row by row, layer by layer.
pub open spec fn flat_index(grid: Extent3d, cell: GridPoint) -> int {
    cell.x + grid.width * (cell.y + grid.height * cell.z)
}

/// Whether every link is `LIST_END` or leads to a particle of a smaller index.
pub open spec fn descending(next: Seq<u32>) -> bool {
    forall|i: int| 0 <= i < next.len() ==> #[trigger] next[i] == LIST_END || next[i] < i
}

/// The particle reached from `start` by following `steps` links; `LIST_END`
/// where the list ends before that or leaves the particles.
pub open spec fn follow(next: Seq<u32>, start: u32, steps: nat) -> u32
    decreases steps,
{
    if start == LIST_END || start >= next.len() {
        LIST_END
    } else if steps == 0 {
        start
    } else {
        follow(next, next[start as int], (steps - 1) as nat)
    }
}

/// The particles on the list that starts at `start`, first to last, as far
/// as the links descend.
pub open spec fn chain(next: Seq<u32>, start: u32) -> Seq<u32>
    decreases
            (if start == LIST_END {
                0
            } else {
                start + 1
            }),
{
    if start == LIST_END || start >= next.len() {
        Seq::empty()
    } else if next[start as int] == LIST_END || next[start as int] < start {
        seq![start].add(chain(next, next[start as int]))
    } else {
        seq![start]
    }
}

/// The particles among the first `count` that lie in the cell of flat index
/// `cell`, last to first.
pub open spec fn members(grid: Extent3d, cells: Seq<GridPoint>, cell: int, count: nat) -> Seq<u32>
    decreases count,
{
    if count == 0 {
        Seq::empty()
    } else if flat_index(grid, cells[count - 1]) == cell {
        seq![(count - 1) as u32].add(members(grid, cells, cell, (count - 1) as nat))
    } else {
        members(grid, cells, cell, (count - 1) as nat)
    }
}

impl CellLists {
    /// Whether the lists are those of `live_count` particles: every head and
    /// every link is `LIST_END` or the index of a live particle, and every
    /// link leads to a smaller index.
    pub open spec fn wf(self, live_count: nat) -> bool {
        &&& self.next@.len() == live_count
        &&& live_count <= LIST_END
        &&& descending(self.next@)
        &&& forall|c: int|
            0 <= c < self.heads@.len() ==> #[trigger] self.heads@[c] == LIST_END || self.heads@[c]
                < live_count
    }
}

/// The flat index of a cell of the grid is less than the number of the
/// grid's cells, and no two cells share one.
pub proof fn lemma_flat_index_in_range(grid: Extent3d, cell: GridPoint)
    requires
        grid.has_cell(cell),
    ensures
        0 <= flat_index(grid, cell) < grid.volume(),
{
    let w = grid.width as int;
    let h = grid.height as int;
    let d = grid.depth as int;
    let x = cell.x as int;
    let y = cell.y as int;
    let z = cell.z as int;
    assert(0 <= h * z && y + h * z <= h * d - 1) by (nonlinear_arith)
        requires
            0 <= y < h,
            0 <= z < d,
    ;
    assert(0 <= w * (y + h * z) && x + w * (y + h * z) <= w * (h * d) - 1) by (nonlinear_arith)
        requires
            0 <= x < w,
            0 <= y + h * z <= h * d - 1,
    ;
    assert(w * (h * d) == (w * h) * d) by (nonlinear_arith);
}

/// Where the links descend, following them from a particle leads to ever
/// smaller indices, so it never comes back to a particle: no list has a cycle.
pub proof fn lemma_descending_has_no_cycle(next: Seq<u32>, start: u32, steps: nat)
    requires
        descending(next),
        start < next.len(),
        start != LIST_END,
        steps > 0,
    ensures
        follow(next, start, steps) == LIST_END || follow(next, start, steps) < start,
        follow(next, start, steps) != start,
        follow(next, start, steps) == LIST_END || follow(next, start, steps) < next.len(),
    decreases steps,
{
    let after = next[start as int];
    assert(after == LIST_END || after < start);
    assert(follow(next, start, steps) == follow(next, after, (steps - 1) as nat));
    if after != LIST_END && steps > 1 {
        lemma_descending_has_no_cycle(next, after, (steps - 1) as nat);
    }
}

/// In well-formed lists every link is `LIST_END` or the index of a live
/// particle, and following the links from a live particle never leads back
/// to it, however many links are followed.
pub proof fn lemma_links_are_valid_and_acyclic(
    lists: CellLists,
    live_count: nat,
    particle: u32,
    steps: nat,
)
    requires
        lists.wf(live_count),
        particle < live_count,
        steps > 0,
    ensures
        lists.next@[particle as int] == LIST_END || lists.next@[particle as int] < live_count,
        follow(lists.next@, particle, steps) != particle,
        follow(lists.next@, particle, steps) == LIST_END || follow(lists.next@, particle, steps)
            < live_count,
{
    assert(lists.next@[particle as int] == LIST_END || lists.next@[particle as int] < particle);
    lemma_descending_has_no_cycle(lists.next@, particle, steps);
}

/// A list is not changed by a link that is added behind its first particle.
proof fn lemma_chain_ignores_later_links(next: Seq<u32>, link: u32, start: u32)
    requires
        start == LIST_END || start < next.len(),
    ensures
        chain(next.push(link), start) == chain(next, start),
    decreases
            (if start == LIST_END {
                0
            } else {
                start + 1
            }),
{
    if start != LIST_END {
        let after = next[start as int];
        assert(next.push(link)[start as int] == after);
        if after == LIST_END || after < start {
            lemma_chain_ignores_later_links(next, link, after);
        }
    }
}

/// The particles of a cell are those, and only those, that lie in it, each once.
pub proof fn lemma_members_are_the_particles_of_the_cell(
    grid: Extent3d,
    cells: Seq<GridPoint>,
    cell: int,
    count: nat,
)
    requires
        count <= cells.len(),
        count <= LIST_END,
    ensures
        forall|j: int|
            0 <= j < count && flat_index(grid, cells[j]) == cell ==> members(
                grid,
                cells,
                cell,
                count,
            ).contains(j as u32),
        forall|k: int|
            0 <= k < members(grid, cells, cell, count).len() ==> {
                &&& (#[trigger] members(grid, cells, cell, count)[k]) < count
                &&& flat_index(grid, cells[members(grid, cells, cell, count)[k] as int]) == cell
            },
        forall|k: int, l: int|
            0 <= k < l < members(grid, cells, cell, count).len() ==> members(
                grid,
                cells,
                cell,
                count,
            )[k] > members(grid, cells, cell, count)[l],
    decreases count,
{
    if count > 0 {
        let before = members(grid, cells, cell, (count - 1) as nat);
        let now = members(grid, cells, cell, count);
        lemma_members_are_the_particles_of_the_cell(grid, cells, cell, (count - 1) as nat);
        if flat_index(grid, cells[count - 1]) == cell {
            assert(now == seq![(count - 1) as u32].add(before));
            assert(now[0] == (count - 1) as u32);
            assert forall|k: int| 1 <= k < now.len() implies now[k] == before[k - 1] by {}
            assert forall|j: int|
                0 <= j < count && flat_index(grid, cells[j]) == cell implies now.contains(
                j as u32,
            ) by {
                if j == count - 1 {
                    assert(now[0] == j as u32);
                } else {
                    assert(before.contains(j as u32));
                    let k = choose|k: int| 0 <= k < before.len() && before[k] == j as u32;
                    assert(now[k + 1] == j as u32);
                }
            }
            assert forall|k: int, l: int| 0 <= k < l < now.len() implies now[k] > now[l] by {
                if k == 0 {
                    assert(now[l] == before[l - 1]);
                } else {
                    assert(now[k] == before[k - 1]);
                    assert(now[l] == before[l - 1]);
                }
            }
        } else {
            assert(now == before);
        }
    }
}

/// Where the list of every cell holds the cell's particles, a particle is on
/// the list of the cell that it lies in, and on no other.
pub proof fn lemma_particle_is_on_one_list(
    grid: Extent3d,
    cells: Seq<GridPoint>,
    lists: CellLists,
    particle: int,
    cell: int,
)
    requires
        cells.len() <= LIST_END,
        0 <= particle < cells.len(),
        0 <= cell < lists.heads@.len(),
        chain(lists.next@, lists.heads@[cell]) == members(grid, cells, cell, cells.len()),
    ensures
        chain(lists.next@, lists.heads@[cell]).contains(particle as u32) <==> flat_index(
            grid,
            cells[particle],
        ) == cell,
{
    lemma_members_are_the_particles_of_the_cell(grid, cells, cell, cells.len());
    let list = members(grid, cells, cell, cells.len());
    if list.contains(particle as u32) {
        let k = choose|k: int| 0 <= k < list.len() && list[k] == particle as u32;
        assert(flat_index(grid, cells[list[k] as int]) == cell);
    }
}

/// Builds the particle lists of a grid for particles that lie in the given
/// cells: the particle of index `i` lies in `cells[i]`.
pub fn build_cell_lists(grid: Extent3d, cells: &Vec<GridPoint>) -> (lists: CellLists)
    requires
        grid.volume() <= usize::MAX,
        cells.len() <= LIST_END,
        forall|i: int| 0 <= i < cells.len() ==> grid.has_cell(#[trigger] cells[i]),
    ensures
        lists.heads@.len() == grid.volume(),
        lists.wf(cells@.len()),
        forall|c: int|
            0 <= c < grid.volume() ==> chain(lists.next@, #[trigger] lists.heads@[c]) == members(
                grid,
                cells@,
                c,
                cells@.len(),
            ),
{
    let volume: u128 = grid.cell_count();
    let width: usize = grid.width as usize;
    let height: usize = grid.height as usize;
    let mut heads: Vec<u32> = Vec::new();
    let mut filled: usize = 0;
    while filled < volume as usize
        invariant
            volume == grid.volume(),
            volume <= usize::MAX,
            filled <= volume,
            heads@.len() == filled,
            forall|c: int| 0 <= c < filled ==> heads@[c] == LIST_END,
        decreases volume - filled,
    {
        heads.push(LIST_END);
        filled = filled + 1;
    }
    let mut next: Vec<u32> = Vec::new();
    let mut index: usize = 0;
    while index < cells.len()
        invariant
            volume == grid.volume(),
            volume <= usize::MAX,
            width == grid.width,
            height == grid.height,
            cells.len() <= LIST_END,
            forall|i: int| 0 <= i < cells.len() ==> grid.has_cell(#[trigger] cells[i]),
            index <= cells.len(),
            heads@.len() == volume,
            next@.len() == index,
            descending(next@),
            forall|c: int| 0 <= c < volume ==> #[trigger] heads@[c] == LIST_END || heads@[c] < index,
            forall|c: int|
                0 <= c < volume ==> chain(next@, #[trigger] heads@[c]) == members(
                    grid,
                    cells@,
                    c,
                    index as nat,
                ),
        decreases cells.len() - index,
    {
        let cell = cells[index];
        proof {
            lemma_flat_index_in_range(grid, cell);
            let w = grid.width as int;
            let h = grid.height as int;
            let y = cell.y as int;
            let z = cell.z as int;
            assert(0 <= h * z <= y + h * z) by (nonlinear_arith)
                requires
                    0 <= h,
                    0 <= z,
                    0 <= y,
            ;
            assert(0 <= y + h * z <= w * (y + h * z)) by (nonlinear_arith)
                requires
                    1 <= w,
                    0 <= y + h * z,
            ;
        }
        let row: usize = cell.y as usize + height * (cell.z as usize);
        let flat: usize = cell.x as usize + width * row;
        let ghost old_next = next@;
        let ghost old_heads = heads@;
        let head: u32 = heads[flat];
        next.push(head);
        heads.set(flat, index as u32);
        proof {
            assert(descending(next@)) by {
                assert forall|i: int| 0 <= i < next@.len() implies #[trigger] next@[i] == LIST_END
                    || next@[i] < i by {
                    if i < index {
                        assert(next@[i] == old_next[i]);
                    }
                }
            }
            assert forall|c: int| 0 <= c < volume implies chain(next@, #[trigger] heads@[c])
                == members(grid, cells@, c, (index + 1) as nat) by {
                if c == flat {
                    lemma_chain_ignores_later_links(old_next, head, head);
                    assert(next@[index as int] == head);
                    assert(chain(next@, index as u32) == seq![index as u32].add(
                        chain(next@, head),
                    ));
                } else {
                    assert(heads@[c] == old_heads[c]);
                    lemma_chain_ignores_later_links(old_next, head, old_heads[c]);
                }
            }
        }
        index = index + 1;
    }
    CellLists { heads, next }
}

} // verus!
