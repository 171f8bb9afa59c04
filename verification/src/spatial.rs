use vstd::prelude::*;

use std::collections::HashMap;

verus! {

broadcast use vstd::std_specs::hash::group_hash_axioms;

/// A cell of the spatial grid: column and row of the square of side `cell_size` that
/// a particle lies in.
pub type Cell = (i32, i32);

/// The indices of the particles in `cells` that lie in `cell`, in increasing order.
pub open spec fn cell_members(cells: Seq<Cell>, cell: Cell) -> Seq<usize>
    decreases cells.len(),
{
    if cells.len() == 0 {
        Seq::empty()
    } else {
        let earlier = cell_members(cells.drop_last(), cell);
        if cells.last() == cell {
            earlier.push((cells.len() - 1) as usize)
        } else {
            earlier
        }
    }
}

/// The `t`-th of the nine cells around `cell` (itself included): column offsets -1, 0,
/// 1 in turn, and within each the row offsets -1, 0, 1.
pub open spec fn offset_cell(cell: Cell, t: int) -> Cell {
    ((cell.0 + t / 3 - 1) as i32, (cell.1 + t % 3 - 1) as i32)
}

/// The members of the first `t` of the nine cells around `cell`, one cell after another.
pub open spec fn neighborhood_prefix(cells: Seq<Cell>, cell: Cell, t: int) -> Seq<usize>
    decreases t,
{
    if t <= 0 {
        Seq::empty()
    } else {
        neighborhood_prefix(cells, cell, t - 1) + cell_members(cells, offset_cell(cell, t - 1))
    }
}

/// The particles in the nine cells around `cell`, in the order they are visited.
pub open spec fn neighborhood(cells: Seq<Cell>, cell: Cell) -> Seq<usize> {
    neighborhood_prefix(cells, cell, 9)
}

/// Two cells touch: they are equal or adjacent, diagonals included.
pub open spec fn cells_touch(a: Cell, b: Cell) -> bool {
    &&& -1 <= a.0 - b.0 <= 1
    &&& -1 <= a.1 - b.1 <= 1
}

/// `cell` has neighbors on all sides within the range of `i32`.
pub open spec fn inner_cell(cell: Cell) -> bool {
    &&& i32::MIN < cell.0 < i32::MAX
    &&& i32::MIN < cell.1 < i32::MAX
}

/// The members of a cell are exactly the particles that lie in it, each once, in
/// increasing order of index.
pub proof fn lemma_cell_members(cells: Seq<Cell>, cell: Cell)
    requires
        cells.len() <= usize::MAX + 1,
    ensures
        forall|i: int|
            0 <= i < cell_members(cells, cell).len() ==> {
                &&& #[trigger] cell_members(cells, cell)[i] < cells.len()
                &&& cells[cell_members(cells, cell)[i] as int] == cell
            },
        forall|i: int, j: int|
            0 <= i < j < cell_members(cells, cell).len() ==> #[trigger] cell_members(cells, cell)[i]
                < #[trigger] cell_members(cells, cell)[j],
        forall|k: usize| k < cells.len() && cells[k as int] == cell ==> #[trigger] cell_members(
            cells,
            cell,
        ).contains(k),
    decreases cells.len(),
{
    if cells.len() > 0 {
        let earlier = cells.drop_last();
        lemma_cell_members(earlier, cell);
        let m = cell_members(cells, cell);
        let me = cell_members(earlier, cell);
        assert forall|k: usize| k < cells.len() && cells[k as int] == cell implies #[trigger] m.contains(
            k,
        ) by {
            if k < earlier.len() {
                assert(earlier[k as int] == cells[k as int]);
                assert(me.contains(k));
                let i = choose|i: int| 0 <= i < me.len() && me[i] == k;
                assert(m[i] == k);
            } else {
                assert(m[m.len() - 1] == k);
            }
        }
    }
}

/// A value lies in a concatenation exactly when it lies in one of the parts.
proof fn lemma_concat_contains(a: Seq<usize>, b: Seq<usize>, x: usize)
    ensures
        (a + b).contains(x) <==> a.contains(x) || b.contains(x),
{
    if (a + b).contains(x) {
        let i = choose|i: int| 0 <= i < (a + b).len() && (a + b)[i] == x;
        if i < a.len() {
            assert(a[i] == x);
        } else {
            assert(b[i - a.len()] == x);
        }
    }
    if a.contains(x) {
        let i = choose|i: int| 0 <= i < a.len() && a[i] == x;
        assert((a + b)[i] == x);
    }
    if b.contains(x) {
        let i = choose|i: int| 0 <= i < b.len() && b[i] == x;
        assert((a + b)[i + a.len()] == x);
    }
}

/// The offset cells of different steps differ, and each touches the center.
proof fn lemma_offsets(cell: Cell)
    requires
        inner_cell(cell),
    ensures
        forall|s: int, u: int|
            0 <= s < 9 && 0 <= u < 9 && s != u ==> #[trigger] offset_cell(cell, s)
                != #[trigger] offset_cell(cell, u),
        forall|s: int| 0 <= s < 9 ==> cells_touch(#[trigger] offset_cell(cell, s), cell),
        forall|c: Cell|
            cells_touch(c, cell) ==> #[trigger] offset_cell(
                cell,
                (c.0 - cell.0 + 1) * 3 + (c.1 - cell.1 + 1),
            ) == c,
{
}

/// The first `t` offset cells hold exactly the particles lying in one of them.
proof fn lemma_prefix_members(cells: Seq<Cell>, cell: Cell, t: int)
    requires
        cells.len() <= usize::MAX + 1,
        inner_cell(cell),
        0 <= t <= 9,
    ensures
        forall|k: usize|
            #[trigger] neighborhood_prefix(cells, cell, t).contains(k) <==> (k < cells.len() && exists|
                s: int,
            | 0 <= s < t && cells[k as int] == #[trigger] offset_cell(cell, s)),
        neighborhood_prefix(cells, cell, t).no_duplicates(),
    decreases t,
{
    if t > 0 {
        lemma_prefix_members(cells, cell, t - 1);
        lemma_cell_members(cells, offset_cell(cell, t - 1));
        lemma_offsets(cell);
        let a = neighborhood_prefix(cells, cell, t - 1);
        let b = cell_members(cells, offset_cell(cell, t - 1));
        assert forall|k: usize|
            #[trigger] neighborhood_prefix(cells, cell, t).contains(k) <==> (k < cells.len() && exists|
                s: int,
            | 0 <= s < t && cells[k as int] == #[trigger] offset_cell(cell, s)) by {
            lemma_concat_contains(a, b, k);
            if b.contains(k) {
                let i = choose|i: int| 0 <= i < b.len() && b[i] == k;
                assert(cells[b[i] as int] == offset_cell(cell, t - 1));
            }
            if k < cells.len() && exists|s: int|
                0 <= s < t && cells[k as int] == #[trigger] offset_cell(cell, s) {
                let s = choose|s: int| 0 <= s < t && cells[k as int] == #[trigger] offset_cell(cell, s);
                if s == t - 1 {
                    assert(b.contains(k));
                } else {
                    assert(a.contains(k));
                }
            }
        }
        let p = a + b;
        assert forall|i: int, j: int| 0 <= i < p.len() && 0 <= j < p.len() && i != j implies p[i]
            != p[j] by {
            if i < a.len() && j < a.len() {
            } else if i >= a.len() && j >= a.len() {
                if i < j {
                    assert(b[i - a.len()] < b[j - a.len()]);
                } else {
                    assert(b[j - a.len()] < b[i - a.len()]);
                }
            } else {
                let (ia, jb) = if i < a.len() { (i, j - a.len()) } else { (j, i - a.len()) };
                assert(a.contains(a[ia]));
                let s = choose|s: int|
                    0 <= s < t - 1 && cells[a[ia] as int] == #[trigger] offset_cell(cell, s);
                assert(cells[b[jb] as int] == offset_cell(cell, t - 1));
                assert(offset_cell(cell, s) != offset_cell(cell, t - 1));
            }
        }
        assert(neighborhood_prefix(cells, cell, t) == p);
    }
}

/// The neighborhood of a cell holds exactly the particles whose cell touches it, each
/// exactly once.
pub proof fn lemma_neighborhood(cells: Seq<Cell>, cell: Cell)
    requires
        cells.len() <= usize::MAX + 1,
        inner_cell(cell),
    ensures
        forall|k: usize|
            #[trigger] neighborhood(cells, cell).contains(k) <==> (k < cells.len() && cells_touch(
                cells[k as int],
                cell,
            )),
        neighborhood(cells, cell).no_duplicates(),
{
    lemma_prefix_members(cells, cell, 9);
    lemma_offsets(cell);
    assert forall|k: usize|
        #[trigger] neighborhood(cells, cell).contains(k) <==> (k < cells.len() && cells_touch(
            cells[k as int],
            cell,
        )) by {
        if k < cells.len() && cells_touch(cells[k as int], cell) {
            let c = cells[k as int];
            let s = (c.0 - cell.0 + 1) * 3 + (c.1 - cell.1 + 1);
            assert(offset_cell(cell, s) == c);
        }
    }
}

/// Particle `a` is visited before particle `b`: its cell has a smaller column, or the
/// same column and a smaller row, or it is in the same cell with a smaller index.
pub open spec fn visited_before(cells: Seq<Cell>, a: usize, b: usize) -> bool {
    let ca = cells[a as int];
    let cb = cells[b as int];
    ||| ca.0 < cb.0
    ||| ca.0 == cb.0 && ca.1 < cb.1
    ||| ca.0 == cb.0 && ca.1 == cb.1 && a < b
}

/// Offset cells come in column-major order: a later step is in a later column, or in
/// the same column and a later row.
proof fn lemma_offsets_ordered(cell: Cell)
    requires
        inner_cell(cell),
    ensures
        forall|s: int, u: int|
            0 <= s < u < 9 ==> {
                ||| #[trigger] offset_cell(cell, s).0 < #[trigger] offset_cell(cell, u).0
                ||| offset_cell(cell, s).0 == offset_cell(cell, u).0 && offset_cell(cell, s).1
                    < offset_cell(cell, u).1
            },
{
}

proof fn lemma_prefix_sorted(cells: Seq<Cell>, cell: Cell, t: int)
    requires
        cells.len() <= usize::MAX + 1,
        inner_cell(cell),
        0 <= t <= 9,
    ensures
        forall|i: int, j: int|
            0 <= i < j < neighborhood_prefix(cells, cell, t).len() ==> visited_before(
                cells,
                #[trigger] neighborhood_prefix(cells, cell, t)[i],
                #[trigger] neighborhood_prefix(cells, cell, t)[j],
            ),
    decreases t,
{
    if t > 0 {
        lemma_prefix_sorted(cells, cell, t - 1);
        lemma_prefix_members(cells, cell, t - 1);
        lemma_cell_members(cells, offset_cell(cell, t - 1));
        lemma_offsets_ordered(cell);
        let a = neighborhood_prefix(cells, cell, t - 1);
        let b = cell_members(cells, offset_cell(cell, t - 1));
        let p = a + b;
        assert forall|i: int, j: int| 0 <= i < j < p.len() implies visited_before(
            cells,
            #[trigger] p[i],
            #[trigger] p[j],
        ) by {
            if j < a.len() {
                assert(p[i] == a[i] && p[j] == a[j]);
            } else if i >= a.len() {
                assert(b[i - a.len()] < b[j - a.len()]);
                assert(cells[b[i - a.len()] as int] == offset_cell(cell, t - 1));
                assert(cells[b[j - a.len()] as int] == offset_cell(cell, t - 1));
            } else {
                assert(a.contains(a[i]));
                let s = choose|s: int|
                    0 <= s < t - 1 && cells[a[i] as int] == #[trigger] offset_cell(cell, s);
                assert(cells[b[j - a.len()] as int] == offset_cell(cell, t - 1));
                assert(offset_cell(cell, s).0 < offset_cell(cell, t - 1).0 || (offset_cell(
                    cell,
                    s,
                ).0 == offset_cell(cell, t - 1).0 && offset_cell(cell, s).1 < offset_cell(
                    cell,
                    t - 1,
                ).1));
            }
        }
        assert(neighborhood_prefix(cells, cell, t) == p);
    }
}

/// The neighbors of a cell come column by column (left to right), within a column row
/// by row (bottom to top), and within a cell in increasing index.
pub proof fn lemma_neighborhood_order(cells: Seq<Cell>, cell: Cell)
    requires
        cells.len() <= usize::MAX + 1,
        inner_cell(cell),
    ensures
        forall|i: int, j: int|
            0 <= i < j < neighborhood(cells, cell).len() ==> visited_before(
                cells,
                #[trigger] neighborhood(cells, cell)[i],
                #[trigger] neighborhood(cells, cell)[j],
            ),
{
    lemma_prefix_sorted(cells, cell, 9);
}

/// Nearness is mutual: particle `j` is among the neighbors of particle `i`'s cell exactly
/// when `i` is among the neighbors of `j`'s cell.
pub proof fn lemma_neighbors_symmetric(cells: Seq<Cell>, i: usize, j: usize)
    requires
        cells.len() <= usize::MAX + 1,
        i < cells.len(),
        j < cells.len(),
        inner_cell(cells[i as int]),
        inner_cell(cells[j as int]),
    ensures
        neighborhood(cells, cells[i as int]).contains(j) <==> neighborhood(
            cells,
            cells[j as int],
        ).contains(i),
{
    lemma_neighborhood(cells, cells[i as int]);
    lemma_neighborhood(cells, cells[j as int]);
}

/// The hash key of a cell: distinct cells have distinct keys.
pub open spec fn key_spec(cell: Cell) -> int {
    (cell.0 + 0x8000_0000) * 0x1_0000_0000 + (cell.1 + 0x8000_0000)
}

proof fn lemma_key_range(cell: Cell)
    ensures
        0 <= key_spec(cell) <= u64::MAX,
{
}

proof fn lemma_key_injective(a: Cell, b: Cell)
    requires
        key_spec(a) == key_spec(b),
    ensures
        a == b,
{
    let ha = a.0 + 0x8000_0000;
    let hb = b.0 + 0x8000_0000;
    if ha < hb {
        assert(ha * 0x1_0000_0000 + 0x1_0000_0000 <= hb * 0x1_0000_0000) by (nonlinear_arith)
            requires
                ha < hb,
        ;
    } else if hb < ha {
        assert(hb * 0x1_0000_0000 + 0x1_0000_0000 <= ha * 0x1_0000_0000) by (nonlinear_arith)
            requires
                hb < ha,
        ;
    }
}

fn cell_key(cell: Cell) -> (key: u64)
    ensures
        key as int == key_spec(cell),
{
    let hi = (cell.0 as i64 + 0x8000_0000) as u64;
    let lo = (cell.1 as i64 + 0x8000_0000) as u64;
    assert(hi * 0x1_0000_0000 + lo <= u64::MAX) by (nonlinear_arith)
        requires
            hi < 0x1_0000_0000,
            lo < 0x1_0000_0000,
    ;
    hi * 0x1_0000_0000 + lo
}

/// Particle indices bucketed by the cell each particle lies in, for finding the particles
/// near a given one.
pub struct SpatialGrid {
    buckets: HashMap<u64, Vec<usize>>,
    cells: Ghost<Seq<Cell>>,
}

impl SpatialGrid {
    /// The cell of each particle, by index, that the grid was built from.
    pub closed spec fn cells(self) -> Seq<Cell> {
        self.cells@
    }

    /// What the grid holds for `cell`.
    pub closed spec fn bucket(self, cell: Cell) -> Seq<usize> {
        let key = key_spec(cell) as u64;
        if self.buckets@.contains_key(key) {
            self.buckets@[key]@
        } else {
            Seq::empty()
        }
    }

    /// Each bucket holds exactly the particles of its cell.
    pub closed spec fn wf(self) -> bool {
        &&& self.cells@.len() <= usize::MAX
        &&& forall|cell: Cell| #[trigger] self.bucket(cell) == cell_members(self.cells@, cell)
    }

    /// Buckets every particle by its cell: particle `k` lies in `cells[k]`.
    pub fn build(cells: &Vec<Cell>) -> (grid: Self)
        ensures
            grid.wf(),
            grid.cells() == cells@,
    {
        let mut buckets: HashMap<u64, Vec<usize>> = HashMap::new();
        let ghost empty_cells: Seq<Cell> = Seq::empty();
        let mut grid = SpatialGrid { buckets, cells: Ghost(empty_cells) };
        assert forall|cell: Cell| #[trigger] grid.bucket(cell) == cell_members(grid.cells@, cell) by {
            lemma_key_range(cell);
        }
        let n = cells.len();
        assert(cells@.take(0) =~= Seq::<Cell>::empty());
        let mut k: usize = 0;
        while k < n
            invariant
                n == cells@.len(),
                k <= n,
                grid.cells@ == cells@.take(k as int),
                grid.wf(),
            decreases n - k,
        {
            let cell = cells[k];
            let key = cell_key(cell);
            let ghost g0 = grid;
            proof {
                lemma_key_range(cell);
            }
            let mut bucket = match grid.buckets.remove(&key) {
                Some(b) => b,
                None => Vec::new(),
            };
            assert(bucket@ == g0.bucket(cell));
            bucket.push(k);
            grid.buckets.insert(key, bucket);
            let ghost before = grid.cells@;
            grid.cells = Ghost(cells@.take(k + 1));
            assert(grid.cells@.drop_last() =~= before);
            assert forall|c: Cell| #[trigger] grid.bucket(c) == cell_members(grid.cells@, c) by {
                lemma_key_range(c);
                assert(g0.bucket(c) == cell_members(g0.cells@, c));
                if key_spec(c) == key_spec(cell) {
                    lemma_key_injective(c, cell);
                } else {
                    assert(key_spec(c) as u64 != key);
                }
            }
            k += 1;
        }
        assert(cells@.take(n as int) =~= cells@);
        grid
    }

    /// The particles in the nine cells around `cell`, itself included: columns `x - 1`,
    /// `x`, `x + 1` in turn, within each rows `y - 1`, `y`, `y + 1`, and within a cell in
    /// the order the particles were bucketed.
    pub fn neighbors(&self, cell: Cell) -> (found: Vec<usize>)
        requires
            self.wf(),
            inner_cell(cell),
        ensures
            found@ == neighborhood(self.cells(), cell),
            forall|k: usize|
                #[trigger] found@.contains(k) <==> (k < self.cells().len() && cells_touch(
                    self.cells()[k as int],
                    cell,
                )),
            found@.no_duplicates(),
            forall|i: int, j: int|
                0 <= i < j < found@.len() ==> visited_before(
                    self.cells(),
                    #[trigger] found@[i],
                    #[trigger] found@[j],
                ),
    {
        proof {
            lemma_neighborhood(self.cells(), cell);
            lemma_neighborhood_order(self.cells(), cell);
        }
        let mut found: Vec<usize> = Vec::new();
        let mut dx: i32 = -1;
        while dx <= 1
            invariant
                self.wf(),
                inner_cell(cell),
                -1 <= dx <= 2,
                found@ == neighborhood_prefix(self.cells(), cell, (dx + 1) * 3),
            decreases 2 - dx,
        {
            let mut dy: i32 = -1;
            while dy <= 1
                invariant
                    self.wf(),
                    inner_cell(cell),
                    -1 <= dx <= 1,
                    -1 <= dy <= 2,
                    found@ == neighborhood_prefix(self.cells(), cell, (dx + 1) * 3 + dy + 1),
                decreases 2 - dy,
            {
                let other: Cell = (cell.0 + dx, cell.1 + dy);
                let ghost t: int = (dx + 1) * 3 + dy + 1;
                assert(offset_cell(cell, t) == other);
                let key = cell_key(other);
                proof {
                    lemma_key_range(other);
                }
                match self.buckets.get(&key) {
                    Some(bucket) => {
                        let ghost before = found@;
                        let len = bucket.len();
                        let mut i: usize = 0;
                        while i < len
                            invariant
                                len == bucket@.len(),
                                i <= len,
                                found@ == before + bucket@.take(i as int),
                            decreases len - i,
                        {
                            found.push(bucket[i]);
                            i += 1;
                            assert(found@ =~= before + bucket@.take(i as int));
                        }
                        assert(bucket@.take(len as int) =~= bucket@);
                        assert(bucket@ == self.bucket(other));
                    },
                    None => {
                        assert(self.bucket(other) == Seq::<usize>::empty());
                        assert(found@ =~= found@ + self.bucket(other));
                    },
                }
                assert(self.bucket(other) == cell_members(self.cells@, other));
                dy += 1;
            }
            dx += 1;
        }
        found
    }
}

} // verus!
