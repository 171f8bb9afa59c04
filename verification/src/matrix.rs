use vstd::prelude::*;

verus! {

/// Row `i`, column `j` of an `n` by `n` table stored row after row lies at `i * n + j`,
/// inside the table.
proof fn lemma_cell_in_range(i: int, j: int, n: int)
    requires
        0 <= i < n,
        0 <= j < n,
    ensures
        0 <= i * n + j < n * n,
{
    assert(0 <= i * n) by (nonlinear_arith)
        requires
            0 <= i,
            0 <= n,
    ;
    assert(i * n + j < n * n) by (nonlinear_arith)
        requires
            0 <= i < n,
            0 <= j < n,
    ;
}

/// Two cells of an `n` by `n` table stored row after row share a position only if they
/// are the same cell.
proof fn lemma_cell_injective(i1: int, j1: int, i2: int, j2: int, n: int)
    requires
        0 <= i1 < n,
        0 <= j1 < n,
        0 <= i2 < n,
        0 <= j2 < n,
        i1 * n + j1 == i2 * n + j2,
    ensures
        i1 == i2,
        j1 == j2,
{
    if i1 < i2 {
        assert(i1 * n + j1 < i2 * n + j2) by (nonlinear_arith)
            requires
                0 <= i1 < i2,
                0 <= j1 < n,
                0 <= j2,
        ;
    } else if i2 < i1 {
        assert(i2 * n + j2 < i1 * n + j1) by (nonlinear_arith)
            requires
                0 <= i2 < i1,
                0 <= j2 < n,
                0 <= j1,
        ;
    }
}

/// A square table of behavior values: entry `(i, j)` says how particles of kind `i`
/// react to particles of kind `j`.
pub struct BehaviorMatrix<T> {
    size: usize,
    cells: Vec<T>,
}

/// `rows` is an `n` by `n` table.
pub open spec fn is_square<T>(rows: Seq<Seq<T>>, n: int) -> bool {
    &&& rows.len() == n
    &&& forall|i: int| 0 <= i < n ==> #[trigger] rows[i].len() == n
}

/// The `n` by `n` table whose entries all equal `value`.
pub open spec fn uniform_table<T>(n: nat, value: T) -> Seq<Seq<T>> {
    Seq::new(n, |i: int| Seq::new(n, |j: int| value))
}

/// Every entry of a uniform table is its value.
pub proof fn lemma_uniform_entries<T>(n: nat, value: T)
    ensures
        is_square(uniform_table(n, value), n as int),
        forall|i: int, j: int|
            0 <= i < n && 0 <= j < n ==> #[trigger] uniform_table(n, value)[i][j] == value,
{
}

/// Writing an entry of a square table and reading it back gives what was written;
/// reading any other entry gives what it held before; the table stays square.
pub proof fn lemma_write_then_read<T>(rows: Seq<Seq<T>>, n: int, i: int, j: int, v: T)
    requires
        is_square(rows, n),
        0 <= i < n,
        0 <= j < n,
    ensures
        is_square(rows.update(i, rows[i].update(j, v)), n),
        rows.update(i, rows[i].update(j, v))[i][j] == v,
        forall|r: int, c: int|
            0 <= r < n && 0 <= c < n && (r != i || c != j) ==> #[trigger] rows.update(
                i,
                rows[i].update(j, v),
            )[r][c] == rows[r][c],
{
    let w = rows.update(i, rows[i].update(j, v));
    assert forall|r: int| 0 <= r < n implies #[trigger] w[r].len() == n by {
        if r == i {
        }
    }
}

impl<T> BehaviorMatrix<T> {
    /// The storage holds exactly one value per cell.
    pub closed spec fn wf(self) -> bool {
        self.cells@.len() == self.size * self.size
    }

    /// Number of rows, which is also the number of columns.
    pub closed spec fn dim(self) -> nat {
        self.size as nat
    }

    /// The view of a matrix is always a square table of its dimension.
    pub proof fn lemma_square(self)
        ensures
            is_square(self@, self.dim() as int),
    {
    }
}

impl<T> View for BehaviorMatrix<T> {
    type V = Seq<Seq<T>>;

    closed spec fn view(&self) -> Seq<Seq<T>> {
        Seq::new(
            self.size as nat,
            |i: int| Seq::new(self.size as nat, |j: int| self.cells@[i * self.size + j]),
        )
    }
}

impl<T: Copy> BehaviorMatrix<T> {
    /// An `n` by `n` matrix with every entry equal to `value`; its `n * n` entries must
    /// be countable by `usize`.
    pub fn filled(n: usize, value: T) -> (m: Self)
        requires
            n * n <= usize::MAX,
        ensures
            m.wf(),
            m.dim() == n,
            m@ == uniform_table(n as nat, value),
    {
        let total: usize = n * n;
        let mut cells: Vec<T> = Vec::new();
        let mut k: usize = 0;
        while k < total
            invariant
                k <= total,
                cells@.len() == k,
                forall|t: int| 0 <= t < k ==> cells@[t] == value,
            decreases total - k,
        {
            cells.push(value);
            k += 1;
        }
        let m = BehaviorMatrix { size: n, cells };
        assert forall|i: int| 0 <= i < n implies #[trigger] m@[i] =~= Seq::new(
            n as nat,
            |j: int| value,
        ) by {
            assert forall|j: int| 0 <= j < n implies #[trigger] m@[i][j] == value by {
                lemma_cell_in_range(i, j, n as int);
            }
        }
        assert(m@ =~= uniform_table(n as nat, value));
        m
    }

    /// Number of rows (and columns).
    pub fn size(&self) -> (n: usize)
        ensures
            n == self.dim(),
    {
        self.size
    }

    /// The entry in row `i`, column `j`.
    pub fn get(&self, i: usize, j: usize) -> (v: T)
        requires
            self.wf(),
            i < self.dim(),
            j < self.dim(),
        ensures
            v == self@[i as int][j as int],
    {
        let len = self.cells.len();
        proof {
            lemma_cell_in_range(i as int, j as int, self.size as int);
            assert(0 <= i * self.size <= i * self.size + j < len);
        }
        self.cells[i * self.size + j]
    }

    /// Overwrites the entry in row `i`, column `j` with `v`; every other entry stays.
    pub fn set(&mut self, i: usize, j: usize, v: T)
        requires
            old(self).wf(),
            i < old(self).dim(),
            j < old(self).dim(),
        ensures
            final(self).wf(),
            final(self).dim() == old(self).dim(),
            final(self)@ == old(self)@.update(i as int, old(self)@[i as int].update(j as int, v)),
    {
        let len = self.cells.len();
        proof {
            lemma_cell_in_range(i as int, j as int, self.size as int);
            assert(0 <= i * self.size <= i * self.size + j < len);
        }
        let ghost before = self@;
        let n = self.size;
        self.cells.set(i * n + j, v);
        let ghost expected = before.update(i as int, before[i as int].update(j as int, v));
        assert forall|r: int| 0 <= r < n implies #[trigger] self@[r] =~= expected[r] by {
            assert forall|c: int| 0 <= c < n implies #[trigger] self@[r][c] == expected[r][c] by {
                lemma_cell_in_range(r, c, n as int);
                if r * n + c == i * n + j {
                    lemma_cell_injective(r, c, i as int, j as int, n as int);
                }
            }
        }
        assert(self@ =~= expected);
    }
}

} // verus!
